//! Stateless command routing: a parsed `(command, arguments)` pair selects
//! one state-machine operation and reports its outcome. Work that needs the
//! outside world — prompting, rendering, opening another backend — is handed
//! back as an action for the surrounding program to perform.

use vstd::prelude::*;

use crate::commands::{
    spec_arg_command_from_str, spec_runtime_command_from_str, ArgCommand, CommandResult,
    RuntimeCommand,
};
use crate::parsed_command::ParsedCommand;
use crate::settings::{msg_list_not_found, query_position, Settings};
use crate::text::{concat_msg, str_eq};
use crate::topic_handler::{
    history_recorded, msg_at_newest, msg_at_oldest, msg_missing_indices,
    msg_missing_topics, msg_no_topic_chosen, msg_not_enough_topics, msg_wrong_argument,
    msg_wrong_index, all_valid_index_args, first_invalid_arg, picked_fresh, redo_step,
    topics_added, topics_removed, undo_step, TopicHandler,
};
use vstd::slice::slice_index_get;

verus! {

pub open spec fn msg_unknown_command(cmd: Seq<char>) -> Seq<char> {
    "Unknown command: "@ + cmd
}

pub open spec fn msg_incorrect_argument(arg: Seq<char>) -> Seq<char> {
    "Incorrect argument: "@ + arg
}

pub open spec fn msg_incorrect_arg_count() -> Seq<char> {
    "Incorrect number of arguments"@
}

pub open spec fn msg_switch_arg_count() -> Seq<char> {
    "Incorrect number of arguments."@
}

pub open spec fn msg_missing_list() -> Seq<char> {
    "Missing arguments: list"@
}

/// What the surrounding interactive loop still has to do after one routed
/// command: nothing, show the picked entry and ask whether to remove it,
/// run the switch-list exchange (with the named list, or after prompting for
/// one), or reload the active list.
#[derive(Debug, PartialEq, Eq)]
pub enum RuntimeAction {
    Done,
    PickPrompt,
    SwitchList(Option<String>),
    Refresh,
}

/// What a one-shot invocation still has to print after one routed command.
#[derive(Debug, PartialEq, Eq)]
pub enum ArgAction {
    Quiet,
    ShowEntries,
    ShowLists,
    ShowChosen(String),
}

/// Routes one interactive command onto the state machine. Commands the
/// machine answers by itself are carried out here; `pick`, `switch` and
/// `refresh` also hand an action back for the loop's own part of the work.
pub fn route_runtime_command(handler: &mut TopicHandler, parsed: &ParsedCommand) -> (r: (
    CommandResult,
    RuntimeAction,
))
    requires
        old(handler).wf(),
    ensures
        final(handler).wf(),
        ({
            let c = spec_runtime_command_from_str(parsed.spec_command());
            let args = parsed.spec_arg_strings();
            let dargs = parsed.spec_args();
            match c {
                None => r.1 == RuntimeAction::Done && (r.0 matches CommandResult::Fail(m) && m@
                    == msg_unknown_command(parsed.spec_command())) && *final(handler) == *old(handler),
                Some(RuntimeCommand::Add) => r.1 == RuntimeAction::Done && if args.len() == 0 {
                    (r.0 matches CommandResult::Fail(m) && m@ == msg_missing_topics()) && *final(handler) == *old(handler)
                } else {
                    r.0 == CommandResult::Success && topics_added(
                        *old(handler),
                        *final(handler),
                        args,
                    )
                },
                Some(RuntimeCommand::Remove) => r.1 == RuntimeAction::Done && if args.len() == 0 {
                    (r.0 matches CommandResult::Fail(m) && m@ == msg_missing_indices()) && *final(handler) == *old(handler)
                } else if !all_valid_index_args(dargs, old(handler).topics().len()) {
                    (r.0 matches CommandResult::Fail(m) && m@ == msg_wrong_argument(
                        dargs[first_invalid_arg(dargs, old(handler).topics().len())],
                    )) && *final(handler) == *old(handler)
                } else {
                    r.0 == CommandResult::Success && topics_removed(
                        *old(handler),
                        *final(handler),
                        dargs,
                    )
                },
                Some(RuntimeCommand::Undo) => r.1 == RuntimeAction::Done && if old(handler).can_undo() {
                    r.0 == CommandResult::Success && undo_step(*old(handler), *final(handler))
                } else {
                    (r.0 matches CommandResult::Fail(m) && m@ == msg_at_oldest()) && *final(handler) == *old(handler)
                },
                Some(RuntimeCommand::Redo) => r.1 == RuntimeAction::Done && if old(handler).can_redo() {
                    r.0 == CommandResult::Success && redo_step(*old(handler), *final(handler))
                } else {
                    (r.0 matches CommandResult::Fail(m) && m@ == msg_at_newest()) && *final(handler) == *old(handler)
                },
                Some(RuntimeCommand::Pick) => if old(handler).topics().len() == 0 {
                    r.1 == RuntimeAction::Done && (r.0 matches CommandResult::Fail(m) && m@
                        == msg_not_enough_topics()) && *final(handler) == *old(handler)
                } else {
                    r.1 == RuntimeAction::PickPrompt && r.0 == CommandResult::Success
                        && picked_fresh(*old(handler), *final(handler))
                },
                Some(RuntimeCommand::Switch) => *final(handler) == *old(handler) && if args.len()
                    >= 2 {
                    r.1 == RuntimeAction::Done && (r.0 matches CommandResult::Fail(m) && m@
                        == msg_switch_arg_count())
                } else if args.len() == 1 {
                    r.1 == RuntimeAction::SwitchList(Some(args[0])) && r.0
                        == CommandResult::Success
                } else {
                    r.1 == RuntimeAction::SwitchList(None) && r.0 == CommandResult::Success
                },
                Some(RuntimeCommand::Refresh) => *final(handler) == *old(handler) && r.1
                    == RuntimeAction::Refresh && r.0 == CommandResult::Success,
                Some(RuntimeCommand::Exit) => r.1 == RuntimeAction::Done && r.0
                    == CommandResult::Success && !final(handler).spec_running() && final(handler).topics() == old(handler).topics() && final(handler).hist() == old(handler).hist() && final(handler).hist_cur() == old(handler).hist_cur() && final(handler).hist_end() == old(handler).hist_end() && final(handler).spec_modified() == old(handler).spec_modified() && final(handler).spec_chosen() == old(handler).spec_chosen(),
            }
        }),
{
    let command = RuntimeCommand::from_str(parsed.get_command().as_str());
    match command {
        Some(RuntimeCommand::Add) => (
            handler.add_topics(parsed.get_args().as_slice()),
            RuntimeAction::Done,
        ),
        Some(RuntimeCommand::Remove) => (
            handler.remove_topics(parsed.get_args().as_slice()),
            RuntimeAction::Done,
        ),
        Some(RuntimeCommand::Undo) => (handler.undo(), RuntimeAction::Done),
        Some(RuntimeCommand::Redo) => (handler.redo(), RuntimeAction::Done),
        Some(RuntimeCommand::Pick) => {
            let picked = handler.pick_random();
            match picked {
                CommandResult::Success => (CommandResult::Success, RuntimeAction::PickPrompt),
                failed => (failed, RuntimeAction::Done),
            }
        },
        Some(RuntimeCommand::Switch) => {
            let args = parsed.get_args();
            if args.len() >= 2 {
                (
                    CommandResult::Fail("Incorrect number of arguments.".to_owned()),
                    RuntimeAction::Done,
                )
            } else if args.len() == 1 {
                let query = slice_index_get(args.as_slice(), 0).clone();
                (CommandResult::Success, RuntimeAction::SwitchList(Some(query)))
            } else {
                (CommandResult::Success, RuntimeAction::SwitchList(None))
            }
        },
        Some(RuntimeCommand::Refresh) => (CommandResult::Success, RuntimeAction::Refresh),
        Some(RuntimeCommand::Exit) => (handler.exit(), RuntimeAction::Done),
        None => (
            CommandResult::Fail(
                concat_msg("Unknown command: ", parsed.get_command().as_str()),
            ),
            RuntimeAction::Done,
        ),
    }
}

/// Routes one one-shot command. The picked entry, the list of entries or the
/// configured list names come back as an action to print, since printing is
/// the caller's work.
pub fn route_arg_command(
    handler: &mut TopicHandler,
    settings: &mut Settings,
    parsed: &ParsedCommand,
) -> (r: (CommandResult, ArgAction))
    requires
        old(handler).wf(),
    ensures
        final(handler).wf(),
        ({
            let c = spec_arg_command_from_str(parsed.spec_command());
            let args = parsed.spec_arg_strings();
            let dargs = parsed.spec_args();
            match c {
                None => r.1 == ArgAction::Quiet && (r.0 matches CommandResult::Fail(m) && m@
                    == msg_unknown_command(parsed.spec_command())) && *final(handler) == *old(handler) && *final(settings) == *old(settings),
                Some(ArgCommand::Add) => r.1 == ArgAction::Quiet && *final(settings) == *old(settings) && if args.len() == 0 {
                    (r.0 matches CommandResult::Fail(m) && m@ == msg_missing_topics()) && *final(handler) == *old(handler)
                } else {
                    r.0 == CommandResult::Success && topics_added(
                        *old(handler),
                        *final(handler),
                        args,
                    )
                },
                Some(ArgCommand::Remove) => r.1 == ArgAction::Quiet && *final(settings) == *old(settings) && if args.len() == 0 {
                    (r.0 matches CommandResult::Fail(m) && m@ == msg_missing_indices()) && *final(handler) == *old(handler)
                } else if !all_valid_index_args(dargs, old(handler).topics().len()) {
                    (r.0 matches CommandResult::Fail(m) && m@ == msg_wrong_argument(
                        dargs[first_invalid_arg(dargs, old(handler).topics().len())],
                    )) && *final(handler) == *old(handler)
                } else {
                    r.0 == CommandResult::Success && topics_removed(
                        *old(handler),
                        *final(handler),
                        dargs,
                    )
                },
                Some(ArgCommand::Entries) => r.1 == ArgAction::ShowEntries && r.0
                    == CommandResult::Success && *final(handler) == *old(handler) && *final(settings) == *old(settings),
                Some(ArgCommand::List) => r.1 == ArgAction::ShowLists && r.0
                    == CommandResult::Success && *final(handler) == *old(handler) && *final(settings) == *old(settings),
                Some(ArgCommand::Switch) => r.1 == ArgAction::Quiet && *final(handler) == *old(handler) && if args.len() == 0 {
                    (r.0 matches CommandResult::Fail(m) && m@ == msg_missing_list()) && *final(settings) == *old(settings)
                } else {
                    match query_position(old(settings).spec_lists(), dargs[0]) {
                        Some(i) => r.0 == CommandResult::Success && final(settings).spec_open_in()
                            == old(settings).spec_lists()[i].spec_name(),
                        None => (r.0 matches CommandResult::Fail(m) && m@ == msg_list_not_found(
                            dargs[0],
                        )) && *final(settings) == *old(settings),
                    }
                },
                Some(ArgCommand::Pick) => *final(settings) == *old(settings) && arg_pick_outcome(
                    *old(handler),
                    *final(handler),
                    args,
                    dargs,
                    r.0,
                    r.1,
                ),
            }
        }),
{
    let command = ArgCommand::from_str(parsed.get_command().as_str());
    match command {
        Some(ArgCommand::Add) => (
            handler.add_topics(parsed.get_args().as_slice()),
            ArgAction::Quiet,
        ),
        Some(ArgCommand::Remove) => (
            handler.remove_topics(parsed.get_args().as_slice()),
            ArgAction::Quiet,
        ),
        Some(ArgCommand::Entries) => (CommandResult::Success, ArgAction::ShowEntries),
        Some(ArgCommand::List) => (CommandResult::Success, ArgAction::ShowLists),
        Some(ArgCommand::Switch) => {
            let args = parsed.get_args();
            if args.len() == 0 {
                (CommandResult::Fail("Missing arguments: list".to_owned()), ArgAction::Quiet)
            } else {
                (settings.set_open_in(slice_index_get(args.as_slice(), 0).as_str()), ArgAction::Quiet)
            }
        },
        Some(ArgCommand::Pick) => pick_entry_args(handler, parsed),
        None => (
            CommandResult::Fail(
                concat_msg("Unknown command: ", parsed.get_command().as_str()),
            ),
            ArgAction::Quiet,
        ),
    }
}

/// What the one-shot pick flow leaves behind: an entry is picked when the
/// collection has one; the entry to show is the one chosen; a trailing `-y`
/// asks for its removal, any other trailing argument is rejected.
pub open spec fn arg_pick_outcome(
    pre: TopicHandler,
    post: TopicHandler,
    args: Seq<String>,
    dargs: Seq<Seq<char>>,
    result: CommandResult,
    action: ArgAction,
) -> bool {
    if pre.topics().len() == 0 {
        (match pre.spec_chosen() {
            Some(p) => action == ArgAction::ShowChosen(p.0),
            None => action == ArgAction::Quiet,
        }) && if args.len() == 0 {
            result == CommandResult::Success && post == pre
        } else if args.len() == 1 && dargs[0] == "-y"@ {
            match pre.spec_chosen() {
                None => (result matches CommandResult::Fail(m) && m@ == msg_no_topic_chosen())
                    && post == pre,
                Some(p) => (result matches CommandResult::Fail(m) && m@ == msg_wrong_index(
                    p.1 as nat,
                )) && post == pre,
            }
        } else if args.len() == 1 {
            (result matches CommandResult::Fail(m) && m@ == msg_incorrect_argument(dargs[0]))
                && post == pre
        } else {
            (result matches CommandResult::Fail(m) && m@ == msg_incorrect_arg_count()) && post
                == pre
        }
    } else {
        if args.len() == 0 {
            result == CommandResult::Success && picked_fresh(pre, post) && (
            post.spec_chosen() matches Some(p) && action == ArgAction::ShowChosen(p.0))
        } else if args.len() == 1 && dargs[0] == "-y"@ {
            result == CommandResult::Success && (exists|i: int|
                0 <= i < pre.topics().len() && action == ArgAction::ShowChosen(pre.topics()[i])
                    && history_recorded(pre, post, pre.topics().remove(i)))
                && post.spec_modified() && post.spec_chosen() is None && post.spec_running()
                == pre.spec_running()
        } else if args.len() == 1 {
            (result matches CommandResult::Fail(m) && m@ == msg_incorrect_argument(dargs[0]))
                && picked_fresh(pre, post) && (post.spec_chosen() matches Some(p) && action
                == ArgAction::ShowChosen(p.0))
        } else {
            (result matches CommandResult::Fail(m) && m@ == msg_incorrect_arg_count())
                && picked_fresh(pre, post) && (post.spec_chosen() matches Some(p) && action
                == ArgAction::ShowChosen(p.0))
        }
    }
}

/// The one-shot pick flow: pick at random (an empty collection leaves the
/// pick result to the trailing-argument rules), remember the entry to show,
/// and carry out the optional `-y` removal.
fn pick_entry_args(handler: &mut TopicHandler, parsed: &ParsedCommand) -> (r: (
    CommandResult,
    ArgAction,
))
    requires
        old(handler).wf(),
    ensures
        final(handler).wf(),
        arg_pick_outcome(
            *old(handler),
            *final(handler),
            parsed.spec_arg_strings(),
            parsed.spec_args(),
            r.0,
            r.1,
        ),
{
    let _picked = handler.pick_random();
    let shown: Option<String> = match handler.get_chosen_topic() {
        Some(topic) => Some(topic.clone()),
        None => None,
    };
    let args = parsed.get_args();
    let n = args.len();
    let result: CommandResult = if n == 0 {
        CommandResult::Success
    } else if n == 1 {
        let first = slice_index_get(args.as_slice(), 0);
        if str_eq(first.as_str(), "-y") {
            handler.remove_chosen_topic()
        } else {
            CommandResult::Fail(concat_msg("Incorrect argument: ", first.as_str()))
        }
    } else {
        CommandResult::Fail("Incorrect number of arguments".to_owned())
    };
    let action = match shown {
        Some(topic) => ArgAction::ShowChosen(topic),
        None => ArgAction::Quiet,
    };
    (result, action)
}

} // verus!
