use rsepl::synth::{join_with, synthesize};

#[test]
fn join_empty_is_empty() {
    let items: Vec<String> = Vec::new();
    assert_eq!(join_with(&items, ";\n"), "");
}

#[test]
fn join_single_has_no_separator() {
    let items = vec!["let x = 1".to_string()];
    assert_eq!(join_with(&items, ";\n"), "let x = 1");
}

#[test]
fn join_three_separates_pairs() {
    let items = vec!["a".to_string(), "b".to_string(), "c".to_string()];
    assert_eq!(join_with(&items, ";\n"), "a;\nb;\nc");
    assert_eq!(join_with(&items, "\n"), "a\nb\nc");
}

#[test]
fn synthesize_empty_buffer() {
    let items: Vec<String> = Vec::new();
    assert_eq!(
        synthesize(&items),
        "\n#![allow(warnings)]\nfn main() {\n    print!(\"{:?}\", {\n        \n    });\n}\n"
    );
}

#[test]
fn synthesize_one_statement() {
    let items = vec!["let x = 1".to_string()];
    assert_eq!(
        synthesize(&items),
        "\n#![allow(warnings)]\nfn main() {\n    print!(\"{:?}\", {\n        let x = 1\n    });\n}\n"
    );
}

#[test]
fn synthesize_keeps_submission_order() {
    let items = vec!["let x = 1".to_string(), "x + 1".to_string()];
    let program = synthesize(&items);
    assert_eq!(
        program,
        "\n#![allow(warnings)]\nfn main() {\n    print!(\"{:?}\", {\n        let x = 1;\nx + 1\n    });\n}\n"
    );
    let first = program.find("let x = 1").unwrap();
    let second = program.find("x + 1").unwrap();
    assert!(first < second);
}
