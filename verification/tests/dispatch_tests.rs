use topic_manager::commands::CommandResult;
use topic_manager::dispatch::{route_arg_command, route_runtime_command, ArgAction, RuntimeAction};
use topic_manager::parsed_command::ParsedCommand;
use topic_manager::settings::{BannerColor, List, ListType, Settings};
use topic_manager::topic_handler::TopicHandler;

fn strings(values: &[&str]) -> Vec<String> {
    values.iter().map(|v| v.to_string()).collect()
}

fn topics(handler: &TopicHandler) -> Vec<String> {
    handler.get_topics().to_vec()
}

fn settings_with_one_list() -> Settings {
    Settings::new(
        "Todo".to_string(),
        true,
        vec![List::new(
            "Todo".to_string(),
            "banner.txt".to_string(),
            BannerColor::White,
            ListType::Local,
            "todo.txt".to_string(),
            String::new(),
        )],
        "/tmp/docs".to_string(),
        false,
    )
}

fn expect_fail(result: &CommandResult, message: &str) {
    match result {
        CommandResult::Fail(m) => assert_eq!(m, message),
        CommandResult::Success => panic!("expected the command to fail with: {message}"),
    }
}

#[test]
fn runtime_add_routes_to_the_state_machine() {
    let mut handler = TopicHandler::new(&[]);
    let parsed = ParsedCommand::parse_from_line("add one two");
    let (result, action) = route_runtime_command(&mut handler, &parsed);
    assert!(matches!(result, CommandResult::Success));
    assert_eq!(action, RuntimeAction::Done);
    assert_eq!(topics(&handler), vec!["one", "two"]);
}

#[test]
fn runtime_unknown_command_is_reported() {
    let mut handler = TopicHandler::new(&[]);
    let parsed = ParsedCommand::parse_from_line("frobnicate");
    let (result, action) = route_runtime_command(&mut handler, &parsed);
    expect_fail(&result, "Unknown command: frobnicate");
    assert_eq!(action, RuntimeAction::Done);
}

#[test]
fn runtime_undo_redo_route_through() {
    let mut handler = TopicHandler::new(&[]);
    let add = ParsedCommand::parse_from_line("add x");
    let _ = route_runtime_command(&mut handler, &add);
    let undo = ParsedCommand::parse_from_line("undo");
    let (result, _) = route_runtime_command(&mut handler, &undo);
    assert!(matches!(result, CommandResult::Success));
    assert_eq!(topics(&handler), Vec::<String>::new());
    let redo = ParsedCommand::parse_from_line("redo");
    let (result, _) = route_runtime_command(&mut handler, &redo);
    assert!(matches!(result, CommandResult::Success));
    assert_eq!(topics(&handler), vec!["x"]);
    let (result, _) = route_runtime_command(&mut handler, &redo);
    expect_fail(&result, "Already at the newest change");
}

#[test]
fn runtime_pick_asks_for_the_prompt() {
    let mut handler = TopicHandler::new(&strings(&["only"]));
    let parsed = ParsedCommand::parse_from_line("pick");
    let (result, action) = route_runtime_command(&mut handler, &parsed);
    assert!(matches!(result, CommandResult::Success));
    assert_eq!(action, RuntimeAction::PickPrompt);
    assert_eq!(handler.get_chosen_topic(), Some(&"only".to_string()));
}

#[test]
fn runtime_pick_on_empty_collection_fails() {
    let mut handler = TopicHandler::new(&[]);
    let parsed = ParsedCommand::parse_from_line("pick");
    let (result, action) = route_runtime_command(&mut handler, &parsed);
    expect_fail(&result, "Not enough topics");
    assert_eq!(action, RuntimeAction::Done);
}

#[test]
fn runtime_switch_checks_the_argument_count() {
    let mut handler = TopicHandler::new(&[]);
    let too_many = ParsedCommand::parse_from_line("switch a b");
    let (result, action) = route_runtime_command(&mut handler, &too_many);
    expect_fail(&result, "Incorrect number of arguments.");
    assert_eq!(action, RuntimeAction::Done);
    let named = ParsedCommand::parse_from_line("switch other");
    let (result, action) = route_runtime_command(&mut handler, &named);
    assert!(matches!(result, CommandResult::Success));
    assert_eq!(action, RuntimeAction::SwitchList(Some("other".to_string())));
    let bare = ParsedCommand::parse_from_line("switch");
    let (result, action) = route_runtime_command(&mut handler, &bare);
    assert!(matches!(result, CommandResult::Success));
    assert_eq!(action, RuntimeAction::SwitchList(None));
}

#[test]
fn runtime_exit_stops_the_session() {
    let mut handler = TopicHandler::new(&[]);
    let parsed = ParsedCommand::parse_from_line("exit");
    let (result, action) = route_runtime_command(&mut handler, &parsed);
    assert!(matches!(result, CommandResult::Success));
    assert_eq!(action, RuntimeAction::Done);
    assert!(!handler.can_continue());
}

#[test]
fn arg_entries_asks_for_a_listing() {
    let mut handler = TopicHandler::new(&strings(&["a"]));
    let mut settings = settings_with_one_list();
    let parsed = ParsedCommand::parse_from_args(&strings(&["entries"]));
    let (result, action) = route_arg_command(&mut handler, &mut settings, &parsed);
    assert!(matches!(result, CommandResult::Success));
    assert_eq!(action, ArgAction::ShowEntries);
    // the spelling `topics` names the same command
    let parsed = ParsedCommand::parse_from_args(&strings(&["topics"]));
    let (result, action) = route_arg_command(&mut handler, &mut settings, &parsed);
    assert!(matches!(result, CommandResult::Success));
    assert_eq!(action, ArgAction::ShowEntries);
}

#[test]
fn arg_list_asks_for_the_configured_names() {
    let mut handler = TopicHandler::new(&[]);
    let mut settings = settings_with_one_list();
    let parsed = ParsedCommand::parse_from_args(&strings(&["list"]));
    let (result, action) = route_arg_command(&mut handler, &mut settings, &parsed);
    assert!(matches!(result, CommandResult::Success));
    assert_eq!(action, ArgAction::ShowLists);
}

#[test]
fn arg_switch_updates_the_settings() {
    let mut handler = TopicHandler::new(&[]);
    let mut settings = settings_with_one_list();
    let parsed = ParsedCommand::parse_from_args(&strings(&["switch", "Todo"]));
    let (result, action) = route_arg_command(&mut handler, &mut settings, &parsed);
    assert!(matches!(result, CommandResult::Success));
    assert_eq!(action, ArgAction::Quiet);
    assert_eq!(settings.open_in(), "Todo");
    let missing = ParsedCommand::parse_from_args(&strings(&["switch"]));
    let (result, _) = route_arg_command(&mut handler, &mut settings, &missing);
    expect_fail(&result, "Missing arguments: list");
    let unknown = ParsedCommand::parse_from_args(&strings(&["switch", "Gone"]));
    let (result, _) = route_arg_command(&mut handler, &mut settings, &unknown);
    expect_fail(&result, "Couldn't find: \"Gone\" in lists.");
}

#[test]
fn arg_pick_shows_the_chosen_entry() {
    let mut handler = TopicHandler::new(&strings(&["only"]));
    let mut settings = settings_with_one_list();
    let parsed = ParsedCommand::parse_from_args(&strings(&["pick"]));
    let (result, action) = route_arg_command(&mut handler, &mut settings, &parsed);
    assert!(matches!(result, CommandResult::Success));
    assert_eq!(action, ArgAction::ShowChosen("only".to_string()));
    assert_eq!(topics(&handler), vec!["only"]);
}

#[test]
fn arg_pick_with_confirmation_removes_the_entry() {
    let mut handler = TopicHandler::new(&strings(&["only"]));
    let mut settings = settings_with_one_list();
    let parsed = ParsedCommand::parse_from_args(&strings(&["pick", "-y"]));
    let (result, action) = route_arg_command(&mut handler, &mut settings, &parsed);
    assert!(matches!(result, CommandResult::Success));
    assert_eq!(action, ArgAction::ShowChosen("only".to_string()));
    assert_eq!(topics(&handler), Vec::<String>::new());
}

#[test]
fn arg_pick_rejects_other_flags() {
    let mut handler = TopicHandler::new(&strings(&["a", "b"]));
    let mut settings = settings_with_one_list();
    let parsed = ParsedCommand::parse_from_args(&strings(&["pick", "-n"]));
    let (result, _) = route_arg_command(&mut handler, &mut settings, &parsed);
    expect_fail(&result, "Incorrect argument: -n");
    let parsed = ParsedCommand::parse_from_args(&strings(&["pick", "a", "b"]));
    let (result, _) = route_arg_command(&mut handler, &mut settings, &parsed);
    expect_fail(&result, "Incorrect number of arguments");
    assert_eq!(topics(&handler), vec!["a", "b"]);
}

#[test]
fn arg_remove_routes_with_messages() {
    let mut handler = TopicHandler::new(&strings(&["a", "b", "c"]));
    let mut settings = settings_with_one_list();
    let parsed = ParsedCommand::parse_from_args(&strings(&["remove", "4"]));
    let (result, _) = route_arg_command(&mut handler, &mut settings, &parsed);
    expect_fail(&result, "Wrong argument: 4");
    let parsed = ParsedCommand::parse_from_args(&strings(&["remove", "2"]));
    let (result, _) = route_arg_command(&mut handler, &mut settings, &parsed);
    assert!(matches!(result, CommandResult::Success));
    assert_eq!(topics(&handler), vec!["a", "c"]);
}
