use rsepl::dispatch::{classify, Command};

#[test]
fn classify_recognizes_every_command() {
    assert_eq!(classify(&":buffer".to_string()), Some(Command::ShowBuffer));
    assert_eq!(classify(&":clear".to_string()), Some(Command::Clear));
    assert_eq!(classify(&":exit".to_string()), Some(Command::Exit));
    assert_eq!(classify(&":h".to_string()), Some(Command::Help));
    assert_eq!(classify(&":help".to_string()), Some(Command::Help));
    assert_eq!(classify(&":pop".to_string()), Some(Command::Pop));
}

#[test]
fn classify_marks_unrecognized_marker_lines() {
    assert_eq!(classify(&":wat".to_string()), Some(Command::Unknown));
    assert_eq!(classify(&":".to_string()), Some(Command::Unknown));
    assert_eq!(classify(&":helpp".to_string()), Some(Command::Unknown));
    assert_eq!(classify(&":pop ".to_string()), Some(Command::Unknown));
}

#[test]
fn classify_leaves_statements_alone() {
    assert_eq!(classify(&"let x = 1".to_string()), None);
    assert_eq!(classify(&"".to_string()), None);
    assert_eq!(classify(&"x + 1".to_string()), None);
    assert_eq!(classify(&"\"::\".len()".to_string()), None);
}
