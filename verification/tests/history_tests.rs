use topic_manager::undo_redo_handler::UndoRedoHandler;

#[test]
fn fresh_buffer_is_head_and_tail() {
    let buffer: UndoRedoHandler<u32> = UndoRedoHandler::new();
    assert!(buffer.is_head());
    assert!(buffer.is_tail());
    assert!(buffer.get_current().is_none());
    assert!(buffer.get_previous().is_none());
    assert!(buffer.get_next().is_none());
}

#[test]
fn first_snapshot_becomes_current() {
    let mut buffer: UndoRedoHandler<u32> = UndoRedoHandler::new();
    buffer.add_new_node(7);
    assert_eq!(buffer.get_current(), Some(&7));
    assert!(!buffer.is_head());
    assert!(!buffer.is_tail());
}

#[test]
fn recording_advances_and_moving_walks_back() {
    let mut buffer: UndoRedoHandler<u32> = UndoRedoHandler::new();
    buffer.add_new_node(1);
    buffer.add_new_node(2);
    buffer.add_new_node(3);
    assert_eq!(buffer.get_current(), Some(&3));
    assert_eq!(buffer.get_previous(), Some(&2));
    assert!(buffer.move_to_previous());
    assert_eq!(buffer.get_current(), Some(&2));
    assert!(buffer.move_to_previous());
    assert_eq!(buffer.get_current(), Some(&1));
    assert_eq!(buffer.get_next(), Some(&2));
    assert!(buffer.move_to_next());
    assert_eq!(buffer.get_current(), Some(&2));
}

#[test]
fn moving_past_oldest_is_refused() {
    let mut buffer: UndoRedoHandler<u32> = UndoRedoHandler::new();
    buffer.add_new_node(1);
    // already at the oldest change: the move fails and nothing changes
    assert!(!buffer.move_to_previous());
    assert_eq!(buffer.get_current(), Some(&1));
    assert!(!buffer.is_tail());
}

#[test]
fn moving_past_newest_is_refused() {
    let mut buffer: UndoRedoHandler<u32> = UndoRedoHandler::new();
    buffer.add_new_node(1);
    // already at the newest change: the move fails and nothing changes
    assert!(!buffer.move_to_next());
    assert_eq!(buffer.get_current(), Some(&1));
    assert!(!buffer.is_head());
}

#[test]
fn recording_from_mid_history_discards_redo_tail() {
    let mut buffer: UndoRedoHandler<u32> = UndoRedoHandler::new();
    buffer.add_new_node(1);
    buffer.add_new_node(2);
    buffer.add_new_node(3);
    assert!(buffer.move_to_previous());
    assert!(buffer.move_to_previous());
    assert_eq!(buffer.get_current(), Some(&1));
    buffer.add_new_node(9);
    assert_eq!(buffer.get_current(), Some(&9));
    // the old redo future (2 and 3) is no longer reachable
    assert!(buffer.get_next().is_none());
    assert!(buffer.move_to_previous());
    assert_eq!(buffer.get_current(), Some(&1));
}

#[test]
fn remove_node_refused_at_the_sentinel() {
    let mut buffer: UndoRedoHandler<u32> = UndoRedoHandler::new();
    // the fresh buffer is parked on the sentinel
    assert!(buffer.remove_node(false).is_err());
    buffer.add_new_node(1);
    buffer.add_new_node(2);
    // dropping the newest snapshot parks the reader on the sentinel again
    assert!(buffer.remove_node(false).is_ok());
    assert!(buffer.get_current().is_none());
    assert!(buffer.is_head());
    assert!(buffer.remove_node(false).is_err());
    // a step back from that sentinel lands on the snapshot left over
    assert!(buffer.move_to_previous());
    assert_eq!(buffer.get_current(), Some(&1));
}

#[test]
fn remove_node_drops_current_snapshot() {
    let mut buffer: UndoRedoHandler<u32> = UndoRedoHandler::new();
    buffer.add_new_node(1);
    buffer.add_new_node(2);
    buffer.add_new_node(3);
    assert!(buffer.move_to_previous());
    assert_eq!(buffer.get_current(), Some(&2));
    assert!(buffer.remove_node(true).is_ok());
    assert_eq!(buffer.get_current(), Some(&1));
    assert_eq!(buffer.get_next(), Some(&3));
}
