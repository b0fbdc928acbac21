//! Program synthesis: rendering a complete program source text from the
//! ordered buffer of accepted statements.

use vstd::prelude::*;

verus! {

/// The separator placed between two consecutive statements of the program
/// body.
pub open spec fn statement_separator() -> Seq<char> {
    ";\n"@
}

/// The fixed text that precedes the statement block in every synthesized
/// program: an entry-point function whose block result is printed in debug
/// form.
pub open spec fn prologue() -> Seq<char> {
    "\n#![allow(warnings)]\nfn main() {\n    print!(\"{:?}\", {\n        "@
}

/// The fixed text that closes the statement block, the print call and the
/// entry-point function.
pub open spec fn epilogue() -> Seq<char> {
    "\n    });\n}\n"@
}

/// The statements concatenated in order, with `sep` between each pair of
/// consecutive statements.
pub open spec fn joined(stmts: Seq<Seq<char>>, sep: Seq<char>) -> Seq<char>
    decreases stmts.len(),
{
    if stmts.len() == 0 {
        Seq::empty()
    } else if stmts.len() == 1 {
        stmts[0]
    } else {
        joined(stmts.drop_last(), sep) + sep + stmts.last()
    }
}

/// The complete program source synthesized from a buffer of statements.
pub open spec fn program_text(stmts: Seq<Seq<char>>) -> Seq<char> {
    prologue() + joined(stmts, statement_separator()) + epilogue()
}

/// Where statement `i` begins inside the joined text: the total length of
/// the statements before it, plus one separator after each of them.
pub open spec fn start_of(stmts: Seq<Seq<char>>, sep: Seq<char>, i: int) -> int
    decreases i,
{
    if i <= 0 {
        0
    } else {
        start_of(stmts, sep, i - 1) + stmts[i - 1].len() + sep.len()
    }
}

proof fn lemma_start_of_nonneg(stmts: Seq<Seq<char>>, sep: Seq<char>, i: int)
    ensures
        start_of(stmts, sep, i) >= 0,
    decreases i,
{
    if i > 0 {
        lemma_start_of_nonneg(stmts, sep, i - 1);
    }
}

proof fn lemma_start_of_drop_last(stmts: Seq<Seq<char>>, sep: Seq<char>, i: int)
    requires
        0 <= i <= stmts.len() - 1,
    ensures
        start_of(stmts.drop_last(), sep, i) == start_of(stmts, sep, i),
    decreases i,
{
    if i > 0 {
        lemma_start_of_drop_last(stmts, sep, i - 1);
        assert(stmts.drop_last()[i - 1] == stmts[i - 1]);
    }
}

proof fn lemma_joined_len(stmts: Seq<Seq<char>>, sep: Seq<char>)
    requires
        stmts.len() > 0,
    ensures
        joined(stmts, sep).len() == start_of(stmts, sep, stmts.len() - 1) + stmts.last().len(),
    decreases stmts.len(),
{
    if stmts.len() > 1 {
        let front = stmts.drop_last();
        lemma_joined_len(front, sep);
        lemma_start_of_drop_last(stmts, sep, stmts.len() - 2);
        assert(front.last() == stmts[stmts.len() - 2]);
    }
}

/// Order preservation in the joined text: statement `i` appears there
/// verbatim, beginning at `start_of(stmts, sep, i)`, and each statement's
/// range ends at or before the next statement's range begins, so the joined
/// ordering equals the buffer's ordering.
pub proof fn lemma_order_preserved(stmts: Seq<Seq<char>>, sep: Seq<char>, i: int)
    requires
        0 <= i < stmts.len(),
    ensures
        0 <= start_of(stmts, sep, i),
        start_of(stmts, sep, i) + stmts[i].len() <= joined(stmts, sep).len(),
        joined(stmts, sep).subrange(
            start_of(stmts, sep, i),
            start_of(stmts, sep, i) + stmts[i].len(),
        ) == stmts[i],
        i < stmts.len() - 1 ==> start_of(stmts, sep, i) + stmts[i].len() <= start_of(
            stmts,
            sep,
            i + 1,
        ),
    decreases stmts.len(),
{
    lemma_start_of_nonneg(stmts, sep, i);
    let j = joined(stmts, sep);
    if stmts.len() == 1 {
        assert(j == stmts[0]);
        assert(j.subrange(0, stmts[0].len() as int) =~= stmts[0]);
    } else {
        let front = stmts.drop_last();
        let jf = joined(front, sep);
        assert(j == jf + sep + stmts.last());
        if i < stmts.len() - 1 {
            lemma_order_preserved(front, sep, i);
            lemma_start_of_drop_last(stmts, sep, i);
            assert(front[i] == stmts[i]);
            let s = start_of(stmts, sep, i);
            assert(j.subrange(s, s + stmts[i].len()) =~= jf.subrange(s, s + stmts[i].len()));
        } else {
            lemma_joined_len(front, sep);
            lemma_start_of_drop_last(stmts, sep, stmts.len() - 2);
            assert(front.last() == stmts[stmts.len() - 2]);
            let s = start_of(stmts, sep, i);
            assert(s == jf.len() + sep.len());
            assert(j.subrange(s, s + stmts[i].len()) =~= stmts[i]);
        }
    }
}

/// Order preservation for the full program: in the synthesized program text,
/// each statement of the buffer appears verbatim, shifted past the prologue,
/// at positions that increase with its position in the buffer.
pub proof fn lemma_program_order_preserved(stmts: Seq<Seq<char>>, i: int)
    requires
        0 <= i < stmts.len(),
    ensures
        ({
            let s = prologue().len() + start_of(stmts, statement_separator(), i);
            &&& s + stmts[i].len() <= program_text(stmts).len()
            &&& program_text(stmts).subrange(s, s + stmts[i].len()) == stmts[i]
            &&& i < stmts.len() - 1 ==> s + stmts[i].len() <= prologue().len() + start_of(
                stmts,
                statement_separator(),
                i + 1,
            )
        }),
{
    lemma_order_preserved(stmts, statement_separator(), i);
    let sep = statement_separator();
    let s = prologue().len() + start_of(stmts, sep, i);
    assert(program_text(stmts) == prologue() + joined(stmts, sep) + epilogue());
    assert(program_text(stmts).subrange(s, s + stmts[i].len()) =~= joined(stmts, sep).subrange(
        start_of(stmts, sep, i),
        start_of(stmts, sep, i) + stmts[i].len(),
    ));
}

/// Joins the given lines in order, with `sep` between each pair of
/// consecutive lines.
pub fn join_with(items: &Vec<String>, sep: &str) -> (r: String)
    ensures
        r@ == joined(items.deep_view(), sep@),
{
    let ghost dv = items.deep_view();
    let mut r = String::new();
    let mut i: usize = 0;
    while i < items.len()
        invariant
            i <= items.len(),
            dv == items.deep_view(),
            dv.len() == items@.len(),
            r@ == joined(dv.take(i as int), sep@),
        decreases items.len() - i,
    {
        proof {
            assert(dv[i as int] == items@[i as int]@);
            if i == 0 {
                assert(dv.take(1).len() == 1);
                assert(joined(dv.take(1), sep@) == dv.take(1)[0]);
                assert(Seq::<char>::empty() + dv[0] =~= dv[0]);
            } else {
                assert(dv.take(i + 1).drop_last() =~= dv.take(i as int));
                assert(dv.take(i + 1).last() == dv[i as int]);
                assert(joined(dv.take(i + 1), sep@) == joined(dv.take(i as int), sep@)
                    + sep@ + dv[i as int]);
            }
        }
        if i > 0 {
            r.append(sep);
        }
        r.append(items[i].as_str());
        i = i + 1;
    }
    proof {
        assert(dv.take(items@.len() as int) =~= dv);
    }
    r
}

/// Renders the complete program for the given buffer of statements: the
/// prologue, the statements joined by the statement separator, and the
/// epilogue.
pub fn synthesize(statements: &Vec<String>) -> (r: String)
    ensures
        r@ == program_text(statements.deep_view()),
{
    let mut r = String::from_str("\n#![allow(warnings)]\nfn main() {\n    print!(\"{:?}\", {\n        ");
    let body = join_with(statements, ";\n");
    r.append(body.as_str());
    r.append("\n    });\n}\n");
    r
}

} // verus!
