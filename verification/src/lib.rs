//! Core of a small command-line list manager: an ordered collection of short
//! text entries ("topics") with add/remove/random-pick operations, a linear
//! undo/redo history of whole-collection snapshots, and the persistence
//! contract that storage backends satisfy, including a wrapper that skips
//! redundant writes.

pub mod commands;
pub mod dispatch;
pub mod gist;
pub mod parsed_command;
pub mod settings;
pub mod text;
pub mod topic_handler;
pub mod topic_writer;
pub mod undo_redo_handler;
pub mod writer_manager;
