use topic_manager::commands::CommandResult;
use topic_manager::topic_handler::TopicHandler;

fn topics(handler: &TopicHandler) -> Vec<String> {
    handler.get_topics().to_vec()
}

fn strings(values: &[&str]) -> Vec<String> {
    values.iter().map(|v| v.to_string()).collect()
}

fn expect_fail(result: CommandResult, message: &str) {
    match result {
        CommandResult::Fail(m) => assert_eq!(m, message),
        CommandResult::Success => panic!("expected the command to fail with: {message}"),
    }
}

#[test]
fn add_appends_in_order_and_marks_modified() {
    let mut handler = TopicHandler::new(&[]);
    assert!(!handler.is_modified(false));
    let result = handler.add_topics(&strings(&["Budget", "Roadmap"]));
    assert!(matches!(result, CommandResult::Success));
    assert_eq!(topics(&handler), vec!["Budget", "Roadmap"]);
    assert!(handler.is_modified(false));
}

#[test]
fn add_without_arguments_fails() {
    let mut handler = TopicHandler::new(&strings(&["A"]));
    expect_fail(handler.add_topics(&[]), "Missing arguments: topics");
    assert_eq!(topics(&handler), vec!["A"]);
}

#[test]
fn add_permits_duplicates() {
    let mut handler = TopicHandler::new(&[]);
    let _ = handler.add_topics(&strings(&["X"]));
    let result = handler.add_topics(&strings(&["X"]));
    assert!(matches!(result, CommandResult::Success));
    assert_eq!(topics(&handler), vec!["X", "X"]);
}

#[test]
fn remove_duplicate_indices_counts_once() {
    let mut handler = TopicHandler::new(&strings(&["A", "B", "C"]));
    let result = handler.remove_topics(&strings(&["2", "2"]));
    assert!(matches!(result, CommandResult::Success));
    assert_eq!(topics(&handler), vec!["A", "C"]);
}

#[test]
fn remove_out_of_range_index_rejects_everything() {
    let mut handler = TopicHandler::new(&strings(&["A", "B", "C"]));
    expect_fail(handler.remove_topics(&strings(&["5"])), "Wrong argument: 5");
    assert_eq!(topics(&handler), vec!["A", "B", "C"]);
}

#[test]
fn remove_rejects_zero_and_garbage() {
    let mut handler = TopicHandler::new(&strings(&["A", "B"]));
    expect_fail(handler.remove_topics(&strings(&["0"])), "Wrong argument: 0");
    expect_fail(handler.remove_topics(&strings(&["two"])), "Wrong argument: two");
    expect_fail(
        handler.remove_topics(&strings(&["1", "oops", "2"])),
        "Wrong argument: oops",
    );
    assert_eq!(topics(&handler), vec!["A", "B"]);
}

#[test]
fn remove_without_arguments_fails() {
    let mut handler = TopicHandler::new(&strings(&["A"]));
    expect_fail(handler.remove_topics(&[]), "Missing arguments: indices");
}

#[test]
fn remove_resolves_indices_against_the_old_collection() {
    let mut handler = TopicHandler::new(&strings(&["A", "B", "C", "D"]));
    let result = handler.remove_topics(&strings(&["1", "3"]));
    assert!(matches!(result, CommandResult::Success));
    assert_eq!(topics(&handler), vec!["B", "D"]);
}

#[test]
fn undo_on_fresh_collection_reports_oldest() {
    let mut handler = TopicHandler::new(&strings(&["A"]));
    expect_fail(handler.undo(), "Already at the oldest change");
    assert_eq!(topics(&handler), vec!["A"]);
}

#[test]
fn redo_right_after_an_edit_reports_newest() {
    let mut handler = TopicHandler::new(&strings(&["A"]));
    let _ = handler.add_topics(&strings(&["B"]));
    expect_fail(handler.redo(), "Already at the newest change");
    assert_eq!(topics(&handler), vec!["A", "B"]);
}

#[test]
fn undo_redo_round_trip_restores_contents() {
    let mut handler = TopicHandler::new(&[]);
    let _ = handler.add_topics(&strings(&["A"]));
    let _ = handler.add_topics(&strings(&["B"]));
    let _ = handler.remove_topics(&strings(&["1"]));
    let before = topics(&handler);
    assert!(matches!(handler.undo(), CommandResult::Success));
    assert!(matches!(handler.undo(), CommandResult::Success));
    assert!(matches!(handler.redo(), CommandResult::Success));
    assert!(matches!(handler.redo(), CommandResult::Success));
    assert_eq!(topics(&handler), before);
}

#[test]
fn end_to_end_session() {
    let mut handler = TopicHandler::new(&[]);
    assert!(matches!(
        handler.add_topics(&strings(&["Budget", "Roadmap"])),
        CommandResult::Success
    ));
    assert_eq!(topics(&handler), vec!["Budget", "Roadmap"]);
    assert!(handler.is_modified(false));
    assert!(matches!(
        handler.remove_topics(&strings(&["1"])),
        CommandResult::Success
    ));
    assert_eq!(topics(&handler), vec!["Roadmap"]);
    assert!(matches!(handler.undo(), CommandResult::Success));
    assert_eq!(topics(&handler), vec!["Budget", "Roadmap"]);
    assert!(matches!(handler.undo(), CommandResult::Success));
    assert_eq!(topics(&handler), Vec::<String>::new());
    expect_fail(handler.undo(), "Already at the oldest change");
    assert!(matches!(handler.redo(), CommandResult::Success));
    assert!(matches!(handler.redo(), CommandResult::Success));
    assert_eq!(topics(&handler), vec!["Roadmap"]);
}

#[test]
fn pick_on_empty_collection_fails() {
    let mut handler = TopicHandler::new(&[]);
    expect_fail(handler.pick_random(), "Not enough topics");
    assert!(handler.get_chosen_topic().is_none());
}

#[test]
fn pick_records_an_entry_of_the_collection() {
    let entries = strings(&["A", "B", "C"]);
    let mut handler = TopicHandler::new(&entries);
    assert!(matches!(handler.pick_random(), CommandResult::Success));
    let chosen = handler.get_chosen_topic().expect("an entry must be chosen").clone();
    assert!(entries.contains(&chosen));
}

#[test]
fn pick_on_single_entry_chooses_it() {
    let mut handler = TopicHandler::new(&strings(&["Only"]));
    assert!(matches!(handler.pick_random(), CommandResult::Success));
    assert_eq!(handler.get_chosen_topic(), Some(&"Only".to_string()));
}

#[test]
fn remove_chosen_without_pick_fails() {
    let mut handler = TopicHandler::new(&strings(&["A"]));
    expect_fail(handler.remove_chosen_topic(), "No topic has been chosen");
}

#[test]
fn remove_chosen_drops_the_picked_entry() {
    let mut handler = TopicHandler::new(&strings(&["Only"]));
    let _ = handler.pick_random();
    assert!(matches!(handler.remove_chosen_topic(), CommandResult::Success));
    assert_eq!(topics(&handler), Vec::<String>::new());
    assert!(handler.get_chosen_topic().is_none());
}

#[test]
fn remove_chosen_rejects_a_stale_index() {
    let mut handler = TopicHandler::new(&strings(&["Only"]));
    let _ = handler.pick_random();
    let _ = handler.remove_topics(&strings(&["1"]));
    expect_fail(handler.remove_chosen_topic(), "Wrong index: 0");
}

#[test]
fn exit_clears_the_continue_flag() {
    let mut handler = TopicHandler::new(&[]);
    assert!(handler.can_continue());
    assert!(matches!(handler.exit(), CommandResult::Success));
    assert!(!handler.can_continue());
}

#[test]
fn modified_flag_is_consumed_on_request() {
    let mut handler = TopicHandler::new(&[]);
    let _ = handler.add_topics(&strings(&["A"]));
    assert!(handler.is_modified(false));
    assert!(handler.is_modified(true));
    assert!(!handler.is_modified(false));
}

#[test]
fn should_rerender_reads_and_clears() {
    let mut handler = TopicHandler::new(&[]);
    let _ = handler.add_topics(&strings(&["A"]));
    assert!(handler.should_rerender());
    assert!(!handler.should_rerender());
}
