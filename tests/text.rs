use mira_launcher::{double_single_quotes, joined, same_text, strip_quotes};

#[test]
fn same_text_compares_characters() {
    assert!(same_text("cmd", "cmd"));
    assert!(!same_text("cmd", "cmd.exe"));
    assert!(!same_text("start", "Start"));
    assert!(same_text("", ""));
    assert!(same_text("设置", "设置"));
}

#[test]
fn joined_concatenates() {
    assert_eq!(joined("System: ", "linux"), "System: linux");
    assert_eq!(joined("", ""), "");
}

#[test]
fn strip_quotes_trims_both_ends() {
    assert_eq!(strip_quotes("\"C:\\a b\\c.exe\""), "C:\\a b\\c.exe");
    assert_eq!(strip_quotes("\"\"x\"y\"\""), "x\"y");
    assert_eq!(strip_quotes("\"\"\""), "");
    assert_eq!(strip_quotes(""), "");
    assert_eq!(strip_quotes("plain"), "plain");
}

#[test]
fn single_quotes_are_doubled() {
    assert_eq!(double_single_quotes("it's"), "it''s");
    assert_eq!(double_single_quotes("''"), "''''");
    assert_eq!(double_single_quotes("none"), "none");
    assert_eq!(double_single_quotes(""), "");
}
