use todo_tracker::input::{clean_input, completion_from_line, parse_completion};

#[test]
fn clean_input_trims() {
    assert_eq!(clean_input("  Buy milk \r\n"), "Buy milk");
    assert_eq!(clean_input("\n"), "");
}

#[test]
fn parse_completion_answers() {
    assert_eq!(parse_completion("1"), Some(true));
    assert_eq!(parse_completion("0"), Some(false));
    assert_eq!(parse_completion("2"), None);
    assert_eq!(parse_completion("10"), None);
    assert_eq!(parse_completion(""), None);
}

#[test]
fn completion_from_raw_line() {
    assert_eq!(completion_from_line(" 1\n"), Some(true));
    assert_eq!(completion_from_line("0\r\n"), Some(false));
    assert_eq!(completion_from_line("yes\n"), None);
}
