use todo_tracker::command::{
    get_valid_commands_chars, is_valid_trigger, read_command, select_command, CommandError,
    CustomCommand,
};

fn catalog() -> Vec<CustomCommand> {
    vec![
        CustomCommand::new('a', "Add".to_string(), "Add a task".to_string()),
        CustomCommand::new('q', "Quit".to_string(), "Exit".to_string()),
    ]
}

#[test]
fn valid_chars_in_menu_order() {
    assert_eq!(get_valid_commands_chars(&catalog()), vec!['a', 'q']);
    assert_eq!(get_valid_commands_chars(&Vec::new()), Vec::<char>::new());
}

#[test]
fn trigger_validity() {
    assert!(is_valid_trigger(&catalog(), 'a'));
    assert!(is_valid_trigger(&catalog(), 'q'));
    assert!(!is_valid_trigger(&catalog(), 'h'));
    assert!(!is_valid_trigger(&catalog(), 'A'));
}

#[test]
fn select_command_cases() {
    assert_eq!(select_command("a", &catalog()), Ok('a'));
    assert_eq!(select_command("quit", &catalog()), Ok('q'));
    assert_eq!(select_command("x", &catalog()), Err(CommandError::InvalidCommand));
    assert_eq!(select_command("", &catalog()), Err(CommandError::NoCharacter));
}

#[test]
fn read_command_trims_the_line() {
    assert_eq!(read_command("  q\n", &catalog()), Ok('q'));
    assert_eq!(read_command(" \t\n", &catalog()), Err(CommandError::NoCharacter));
    assert_eq!(read_command(" z\n", &catalog()), Err(CommandError::InvalidCommand));
}
