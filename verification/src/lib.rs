//! Core of an interactive read-eval-print session for small code fragments.
//!
//! The library owns the session state: an ordered buffer of accepted
//! statements, the synthesis of a complete program from that buffer, the
//! dispatch of buffer-management commands, and the commit-or-rollback policy
//! applied to each candidate statement once an external evaluation of the
//! synthesized program has succeeded or failed.  Reading input lines, writing
//! the program to disk and spawning the external toolchain are left to the
//! surrounding process, which drives [`session::Session::step`] with events
//! and carries out the actions it returns.

pub mod dispatch;
pub mod session;
pub mod synth;
