use topic_manager::commands::{ArgCommand, Command, RuntimeCommand, StrEnum};

#[test]
fn interactive_command_names_round_trip() {
    for name in ["add", "pick", "remove", "undo", "redo", "exit"] {
        let command = Command::from_str(name).expect("the name is a command");
        assert_eq!(command.as_str(), name);
    }
    assert!(Command::from_str("switch").is_none());
    assert!(Command::from_str("").is_none());
}

#[test]
fn runtime_command_names_round_trip() {
    for name in ["add", "pick", "remove", "undo", "redo", "switch", "refresh", "exit"] {
        let command = RuntimeCommand::from_str(name).expect("the name is a command");
        assert_eq!(command.as_str(), name);
    }
    assert!(RuntimeCommand::from_str("entries").is_none());
}

#[test]
fn arg_command_names_round_trip() {
    for name in ["add", "pick", "remove", "entries", "list", "switch"] {
        let command = ArgCommand::from_str(name).expect("the name is a command");
        assert_eq!(command.as_str(), name);
    }
    // `topics` is the alternative spelling of the listing command
    assert_eq!(ArgCommand::from_str("topics"), Some(ArgCommand::Entries));
    assert!(ArgCommand::from_str("undo").is_none());
}

#[test]
fn commands_are_read_through_the_shared_trait() {
    let viaabstract: Option<RuntimeCommand> = StrEnum::from_str("undo");
    assert_eq!(viaabstract, Some(RuntimeCommand::Undo));
    let named: &str = StrEnum::as_str(&ArgCommand::List);
    assert_eq!(named, "list");
}
