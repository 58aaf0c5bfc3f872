//! The topic state machine: the live ordered collection of topics, the
//! chosen-entry selection from a random pick, the modified and continue
//! flags, and a linear undo/redo history of whole-collection snapshots.

use vstd::prelude::*;

use crate::commands::CommandResult;
use crate::text::{
    clone_string_at, concat_msg, copy_topics, dec_rep, dec_val, is_digit_seq, parse_usize,
    usize_to_string,
};
use crate::undo_redo_handler::UndoRedoHandler;
use vstd::slice::slice_index_get;

verus! {

/// Relies on rand: `thread_rng().gen_range(0..len)` draws a number of the
/// non-empty range `[0, len)`; which one is up to the generator.
#[verifier::external_body]
fn random_below(len: usize) -> (r: usize)
    requires
        len > 0,
    ensures
        r < len,
{
    rand::Rng::gen_range(&mut rand::thread_rng(), 0..len)
}

/// What recording one new collection does to the history: the reader moves
/// one step forward, that position becomes the newest, and the snapshot there
/// holds the new collection (appended, or overwriting an unreachable one).
pub open spec fn history_recorded(
    pre: TopicHandler,
    post: TopicHandler,
    topics: Seq<String>,
) -> bool {
    &&& post.topics() == topics
    &&& post.hist_cur() == pre.hist_cur() + 1
    &&& post.hist_end() == post.hist_cur()
    &&& post.hist() == if post.hist_cur() == pre.hist().len() {
        pre.hist().push(topics)
    } else {
        pre.hist().update(post.hist_cur(), topics)
    }
}

/// One successful `undo`: the reader steps one snapshot back, the collection
/// becomes that snapshot, everything else but the modified flag is kept.
pub open spec fn undo_step(pre: TopicHandler, post: TopicHandler) -> bool {
    &&& pre.can_undo()
    &&& post.hist() == pre.hist()
    &&& post.hist_end() == pre.hist_end()
    &&& post.hist_cur() == pre.hist_cur() - 1
    &&& post.topics() == pre.hist()[post.hist_cur()]
    &&& post.spec_chosen() == pre.spec_chosen()
    &&& post.spec_running() == pre.spec_running()
    &&& post.spec_modified()
}

/// One successful `redo`: the reader steps one snapshot forward, the
/// collection becomes that snapshot, everything else but the modified flag is
/// kept.
pub open spec fn redo_step(pre: TopicHandler, post: TopicHandler) -> bool {
    &&& pre.can_redo()
    &&& post.hist() == pre.hist()
    &&& post.hist_end() == pre.hist_end()
    &&& post.hist_cur() == pre.hist_cur() + 1
    &&& post.topics() == pre.hist()[post.hist_cur()]
    &&& post.spec_chosen() == pre.spec_chosen()
    &&& post.spec_running() == pre.spec_running()
    &&& post.spec_modified()
}

/// A successful `add_topics`: the collection grew by the arguments, one
/// snapshot was recorded, the change is marked, nothing else moved.
pub open spec fn topics_added(pre: TopicHandler, post: TopicHandler, args: Seq<String>) -> bool {
    &&& history_recorded(pre, post, pre.topics() + args)
    &&& post.spec_modified()
    &&& post.spec_chosen() == pre.spec_chosen()
    &&& post.spec_running() == pre.spec_running()
}

/// A successful `remove_topics`: the named positions left the collection in
/// one pass, one snapshot was recorded, the change is marked.
pub open spec fn topics_removed(pre: TopicHandler, post: TopicHandler, args: Seq<Seq<char>>) -> bool {
    &&& history_recorded(pre, post, remove_positions(pre.topics(), removal_set(args)))
    &&& post.spec_modified()
    &&& post.spec_chosen() == pre.spec_chosen()
    &&& post.spec_running() == pre.spec_running()
}

/// A successful `pick_random`: some entry of the collection is now chosen,
/// with the position it sits at; nothing else moved.
pub open spec fn picked_fresh(pre: TopicHandler, post: TopicHandler) -> bool {
    &&& post.topics() == pre.topics()
    &&& post.hist() == pre.hist()
    &&& post.hist_cur() == pre.hist_cur()
    &&& post.hist_end() == pre.hist_end()
    &&& post.spec_modified() == pre.spec_modified()
    &&& post.spec_running() == pre.spec_running()
    &&& (post.spec_chosen() matches Some(p) && p.1 < pre.topics().len() && p.0 == pre.topics()[
        p.1 as int
    ])
}

/// A successful `remove_chosen_topic`: the chosen position left the
/// collection, one snapshot was recorded, the choice is forgotten.
pub open spec fn chosen_removed(pre: TopicHandler, post: TopicHandler) -> bool {
    &&& (pre.spec_chosen() matches Some(p) && p.1 < pre.topics().len() && history_recorded(
        pre,
        post,
        pre.topics().remove(p.1 as int),
    ))
    &&& post.spec_modified()
    &&& post.spec_chosen() is None
    &&& post.spec_running() == pre.spec_running()
}

pub open spec fn msg_missing_topics() -> Seq<char> {
    "Missing arguments: topics"@
}

pub open spec fn msg_missing_indices() -> Seq<char> {
    "Missing arguments: indices"@
}

pub open spec fn msg_wrong_argument(arg: Seq<char>) -> Seq<char> {
    "Wrong argument: "@ + arg
}

pub open spec fn msg_not_enough_topics() -> Seq<char> {
    "Not enough topics"@
}

pub open spec fn msg_no_topic_chosen() -> Seq<char> {
    "No topic has been chosen"@
}

pub open spec fn msg_wrong_index(i: nat) -> Seq<char> {
    "Wrong index: "@ + dec_rep(i)
}

pub open spec fn msg_at_oldest() -> Seq<char> {
    "Already at the oldest change"@
}

pub open spec fn msg_at_newest() -> Seq<char> {
    "Already at the newest change"@
}

/// A removal argument is the decimal spelling of a 1-based position into a
/// collection of `len` topics.
pub open spec fn valid_index_arg(s: Seq<char>, len: nat) -> bool {
    is_digit_seq(s) && s.len() > 0 && 1 <= dec_val(s) <= len
}

pub open spec fn all_valid_index_args(args: Seq<Seq<char>>, len: nat) -> bool {
    forall|i: int| 0 <= i < args.len() ==> valid_index_arg(args[i], len)
}

/// Position of the first argument that is not a valid index.
pub open spec fn first_invalid_arg(args: Seq<Seq<char>>, len: nat) -> int
    decreases args.len(),
{
    if args.len() == 0 {
        0
    } else if !valid_index_arg(args[0], len) {
        0
    } else {
        1 + first_invalid_arg(args.drop_first(), len)
    }
}

/// The 0-based positions a removal request names, duplicates collapsed.
pub open spec fn removal_set(args: Seq<Seq<char>>) -> Set<int> {
    Set::new(|p: int| exists|i: int| 0 <= i < args.len() && p == dec_val(args[i]) - 1)
}

/// The collection left when every position in `rm` is taken out in one pass,
/// all positions resolved against the original collection.
pub open spec fn remove_positions(s: Seq<String>, rm: Set<int>) -> Seq<String>
    decreases s.len(),
{
    if s.len() == 0 {
        Seq::empty()
    } else {
        let prefix = remove_positions(s.drop_last(), rm);
        if rm.contains(s.len() - 1) {
            prefix
        } else {
            prefix.push(s.last())
        }
    }
}

/// Law: a well-formed state machine always mirrors a recorded snapshot —
/// the reader position lies within the recorded range, and the live
/// collection is the snapshot at that position. In particular, after `n`
/// undos the position still reaches the newest recorded one, so `n` redos
/// are possible.
pub proof fn lemma_wf_bounds(h: TopicHandler)
    requires
        h.wf(),
    ensures
        0 <= h.hist_cur() <= h.hist_end() < h.hist().len(),
        h.topics() == h.hist()[h.hist_cur()],
{
}

proof fn lemma_undo_chain(downs: Seq<TopicHandler>, i: int)
    requires
        0 <= i < downs.len(),
        forall|j: int| 0 <= j < downs.len() - 1 ==> undo_step(#[trigger] downs[j], downs[j + 1]),
    ensures
        downs[i].hist() == downs[0].hist(),
        downs[i].hist_end() == downs[0].hist_end(),
        downs[i].hist_cur() == downs[0].hist_cur() - i,
    decreases i,
{
    if i > 0 {
        lemma_undo_chain(downs, i - 1);
        assert(undo_step(downs[i - 1], downs[i]));
    }
}

proof fn lemma_redo_chain(ups: Seq<TopicHandler>, i: int)
    requires
        0 <= i < ups.len(),
        forall|j: int| 0 <= j < ups.len() - 1 ==> redo_step(#[trigger] ups[j], ups[j + 1]),
    ensures
        ups[i].hist() == ups[0].hist(),
        ups[i].hist_end() == ups[0].hist_end(),
        ups[i].hist_cur() == ups[0].hist_cur() + i,
        i > 0 ==> ups[i].topics() == ups[0].hist()[ups[0].hist_cur() + i],
    decreases i,
{
    if i > 0 {
        lemma_redo_chain(ups, i - 1);
        assert(redo_step(ups[i - 1], ups[i]));
    }
}

/// Law: undoing `n` times and then redoing `n` times restores the exact
/// collection contents present before the undos, for any `n` not exceeding
/// the recorded edits. The two sequences are the states passed through: each
/// neighbouring pair of `downs` is one successful `undo` as its contract
/// states it, each neighbouring pair of `ups` one successful `redo`, and the
/// redos start where the undos ended. The conditions force every step to be
/// possible, so `n` here is `downs.len() - 1`.
pub proof fn lemma_undo_redo_round_trip(downs: Seq<TopicHandler>, ups: Seq<TopicHandler>)
    requires
        downs.len() >= 1,
        ups.len() == downs.len(),
        downs[0].wf(),
        forall|i: int| 0 <= i < downs.len() - 1 ==> undo_step(#[trigger] downs[i], downs[i + 1]),
        ups[0] == downs[downs.len() - 1],
        forall|i: int| 0 <= i < ups.len() - 1 ==> redo_step(#[trigger] ups[i], ups[i + 1]),
    ensures
        ups[ups.len() - 1].topics() == downs[0].topics(),
{
    let n = downs.len() as int;
    lemma_undo_chain(downs, n - 1);
    lemma_redo_chain(ups, n - 1);
    if n > 1 {
        assert(ups[n - 1].topics() == downs[0].hist()[downs[0].hist_cur()]);
    }
}

proof fn lemma_first_invalid_arg_at(args: Seq<Seq<char>>, len: nat, i: int)
    requires
        0 <= i <= args.len(),
        forall|j: int| 0 <= j < i ==> valid_index_arg(args[j], len),
        i < args.len() ==> !valid_index_arg(args[i], len),
    ensures
        first_invalid_arg(args, len) == i,
    decreases i,
{
    if i > 0 {
        let t = args.drop_first();
        assert(forall|j: int| 0 <= j < i - 1 ==> valid_index_arg(t[j], len));
        lemma_first_invalid_arg_at(t, len, i - 1);
    }
}

pub struct TopicHandler {
    topic_history: UndoRedoHandler<Vec<String>>,
    state: Vec<String>,
    modified: bool,
    can_continue: bool,
    chosen_topic: Option<(String, usize)>,
}

impl TopicHandler {
    /// The live collection, in insertion order.
    pub closed spec fn topics(self) -> Seq<String> {
        self.state@
    }

    /// The contents of every snapshot ever recorded, oldest first.
    pub closed spec fn hist(self) -> Seq<Seq<String>> {
        self.topic_history.snapshots().map_values(|v: Vec<String>| v@)
    }

    /// The history position the collection currently mirrors.
    pub closed spec fn hist_cur(self) -> int {
        self.topic_history.cur()
    }

    /// The newest history position still reachable through redo.
    pub closed spec fn hist_end(self) -> int {
        self.topic_history.end()
    }

    /// The modified-since-last-consumed flag.
    pub closed spec fn spec_modified(self) -> bool {
        self.modified
    }

    /// False once `exit` has been asked for.
    pub closed spec fn spec_running(self) -> bool {
        self.can_continue
    }

    /// The entry a random pick recorded, with the position it had then.
    pub closed spec fn spec_chosen(self) -> Option<(String, usize)> {
        self.chosen_topic
    }

    pub closed spec fn wf(self) -> bool {
        &&& self.topic_history.wf()
        &&& !self.topic_history.at_sentinel()
        &&& self.topic_history.snapshots().len() > 0
        &&& self.state@ == self.hist()[self.hist_cur()]
    }

    pub open spec fn can_undo(self) -> bool {
        self.hist_cur() > 0
    }

    pub open spec fn can_redo(self) -> bool {
        self.hist_cur() < self.hist_end()
    }

    /// Seeds a fresh state machine: the given collection is the live one and
    /// the only recorded snapshot.
    pub fn new(state: &[String]) -> (r: Self)
        ensures
            r.wf(),
            r.topics() == state@,
            r.hist() == seq![state@],
            r.hist_cur() == 0,
            r.hist_end() == 0,
            !r.spec_modified(),
            r.spec_running(),
            r.spec_chosen() is None,
    {
        let mut topic_history: UndoRedoHandler<Vec<String>> = UndoRedoHandler::new();
        topic_history.add_new_node(copy_topics(state));
        let r = TopicHandler {
            topic_history,
            state: copy_topics(state),
            modified: false,
            can_continue: true,
            chosen_topic: None,
        };
        proof {
            assert(r.hist() =~= seq![state@]);
        }
        r
    }

    /// Reports whether the collection changed since the flag was last
    /// consumed; consuming it clears it.
    pub fn is_modified(&mut self, update: bool) -> (r: bool)
        ensures
            r == old(self).spec_modified(),
            final(self).spec_modified() == (old(self).spec_modified() && !update),
            final(self).topics() == old(self).topics(),
            final(self).hist() == old(self).hist(),
            final(self).hist_cur() == old(self).hist_cur(),
            final(self).hist_end() == old(self).hist_end(),
            final(self).spec_running() == old(self).spec_running(),
            final(self).spec_chosen() == old(self).spec_chosen(),
            old(self).wf() ==> final(self).wf(),
    {
        let changed = self.modified;
        if update {
            self.modified = false;
        }
        changed
    }

    /// Reads and clears the modified flag in one step.
    pub fn should_rerender(&mut self) -> (r: bool)
        ensures
            r == old(self).spec_modified(),
            !final(self).spec_modified(),
            final(self).topics() == old(self).topics(),
            final(self).hist() == old(self).hist(),
            final(self).hist_cur() == old(self).hist_cur(),
            final(self).hist_end() == old(self).hist_end(),
            final(self).spec_running() == old(self).spec_running(),
            final(self).spec_chosen() == old(self).spec_chosen(),
            old(self).wf() ==> final(self).wf(),
    {
        let changed = self.modified;
        self.modified = false;
        changed
    }

    pub fn can_continue(&self) -> (r: bool)
        ensures
            r == self.spec_running(),
    {
        self.can_continue
    }

    pub fn get_topics(&self) -> (r: &[String])
        ensures
            r@ == self.topics(),
    {
        self.state.as_slice()
    }

    pub fn get_chosen_topic(&self) -> (r: Option<&String>)
        ensures
            self.spec_chosen() is None ==> r is None,
            self.spec_chosen() matches Some(p) ==> (r matches Some(t) && *t == p.0),
    {
        if let Some((ref topic, _index)) = self.chosen_topic {
            Some(topic)
        } else {
            None
        }
    }

    /// Appends every given topic to the collection in order (duplicates are
    /// welcome), records one snapshot, and marks the collection modified.
    pub fn add_topics(&mut self, args: &[String]) -> (r: CommandResult)
        requires
            old(self).wf(),
        ensures
            final(self).wf(),
            args@.len() == 0 ==> (r matches CommandResult::Fail(m) && m@ == msg_missing_topics())
                && *final(self) == *old(self),
            args@.len() > 0 ==> r == CommandResult::Success && topics_added(
                *old(self),
                *final(self),
                args@,
            ),
    {
        if args.is_empty() {
            return CommandResult::Fail("Missing arguments: topics".to_owned());
        }
        let n = args.len();
        let mut i: usize = 0;
        while i < n
            invariant
                0 <= i <= n,
                n == args@.len(),
                self.state@ == old(self).state@ + args@.subrange(0, i as int),
                self.topic_history == old(self).topic_history,
                self.modified == old(self).modified,
                self.can_continue == old(self).can_continue,
                self.chosen_topic == old(self).chosen_topic,
            decreases n - i,
        {
            self.state.push(clone_string_at(args, i));
            proof {
                assert(old(self).state@ + args@.subrange(0, i + 1) =~= (old(self).state@
                    + args@.subrange(0, i as int)).push(args@[i as int]));
            }
            i += 1;
        }
        proof {
            assert(args@.subrange(0, n as int) =~= args@);
        }
        self.record_snapshot();
        CommandResult::Success
    }

    /// Records the live collection as a new snapshot and marks it modified.
    fn record_snapshot(&mut self)
        requires
            old(self).topic_history.wf(),
            !old(self).topic_history.at_sentinel(),
            old(self).topic_history.snapshots().len() > 0,
        ensures
            final(self).wf(),
            history_recorded(*old(self), *final(self), old(self).topics()),
            final(self).spec_modified(),
            final(self).spec_chosen() == old(self).spec_chosen(),
            final(self).spec_running() == old(self).spec_running(),
    {
        let snap = copy_topics(self.state.as_slice());
        self.topic_history.add_new_node(snap);
        self.modified = true;
        proof {
            let pre = *old(self);
            if self.topic_history.cur() == pre.topic_history.snapshots().len() {
                assert(self.hist() =~= pre.hist().push(pre.state@));
            } else {
                assert(self.hist() =~= pre.hist().update(self.topic_history.cur(), pre.state@));
            }
        }
    }

    /// Removes the 1-based positions the arguments name, resolved against the
    /// collection as it stands now: duplicates count once, and the first
    /// argument that is not a position of the collection rejects the whole
    /// request with nothing changed.
    pub fn remove_topics(&mut self, args: &[String]) -> (r: CommandResult)
        requires
            old(self).wf(),
        ensures
            final(self).wf(),
            args@.len() == 0 ==> (r matches CommandResult::Fail(m) && m@ == msg_missing_indices())
                && *final(self) == *old(self),
            args@.len() > 0 && !all_valid_index_args(args.deep_view(), old(self).topics().len())
                ==> (r matches CommandResult::Fail(m) && m@ == msg_wrong_argument(
                args.deep_view()[first_invalid_arg(args.deep_view(), old(self).topics().len())],
            )) && *final(self) == *old(self),
            args@.len() > 0 && all_valid_index_args(args.deep_view(), old(self).topics().len())
                ==> r == CommandResult::Success && topics_removed(
                *old(self),
                *final(self),
                args.deep_view(),
            ),
    {
        if args.is_empty() {
            return CommandResult::Fail("Missing arguments: indices".to_owned());
        }
        let len = self.state.len();
        let n = args.len();
        let mut indices: Vec<usize> = Vec::new();
        let mut i: usize = 0;
        while i < n
            invariant
                old(self).wf(),
                0 <= i <= n,
                n == args@.len(),
                len == self.state@.len(),
                indices@.len() == i,
                forall|j: int| 0 <= j < i ==> valid_index_arg(args.deep_view()[j], len as nat),
                forall|j: int| 0 <= j < i ==> indices@[j] == dec_val(args.deep_view()[j]) - 1,
                *self == *old(self),
            decreases n - i,
        {
            let arg = slice_index_get(args, i);
            let parsed = parse_usize(arg.as_str());
            let mut ok = false;
            let mut v: usize = 0;
            if let Some(pv) = parsed {
                if 1 <= pv && pv <= len {
                    ok = true;
                    v = pv;
                }
            }
            if !ok {
                proof {
                    lemma_first_invalid_arg_at(args.deep_view(), len as nat, i as int);
                }
                return CommandResult::Fail(concat_msg("Wrong argument: ", arg.as_str()));
            }
            indices.push(v - 1);
            i += 1;
        }
        let ghost rm = removal_set(args.deep_view());
        let mut to_remove: Vec<bool> = Vec::new();
        let mut k: usize = 0;
        while k < len
            invariant
                0 <= k <= len,
                to_remove@.len() == k,
                forall|p: int| 0 <= p < k ==> !to_remove@[p],
            decreases len - k,
        {
            to_remove.push(false);
            k += 1;
        }
        let mut j: usize = 0;
        while j < n
            invariant
                old(self).wf(),
                0 <= j <= n,
                n == args@.len(),
                to_remove@.len() == len,
                len == self.state@.len(),
                forall|q: int| 0 <= q < n ==> valid_index_arg(args.deep_view()[q], len as nat),
                indices@.len() == n,
                forall|q: int| 0 <= q < n ==> indices@[q] == dec_val(args.deep_view()[q]) - 1,
                forall|p: int|
                    0 <= p < len ==> (to_remove@[p] <==> exists|q: int|
                        0 <= q < j && p == dec_val(args.deep_view()[q]) - 1),
                *self == *old(self),
            decreases n - j,
        {
            let idx = *slice_index_get(indices.as_slice(), j);
            to_remove[idx] = true;
            j += 1;
        }
        proof {
            assert(forall|p: int| 0 <= p < len ==> (to_remove@[p] <==> rm.contains(p)));
        }
        let mut new_topics: Vec<String> = Vec::new();
        let mut t: usize = 0;
        while t < len
            invariant
                old(self).wf(),
                0 <= t <= len,
                len == self.state@.len(),
                to_remove@.len() == len,
                forall|p: int| 0 <= p < len ==> (to_remove@[p] <==> rm.contains(p)),
                new_topics@ == remove_positions(self.state@.subrange(0, t as int), rm),
                *self == *old(self),
            decreases len - t,
        {
            proof {
                assert(self.state@.subrange(0, t + 1).drop_last() =~= self.state@.subrange(
                    0,
                    t as int,
                ));
            }
            if !*slice_index_get(to_remove.as_slice(), t) {
                new_topics.push(clone_string_at(self.state.as_slice(), t));
            }
            t += 1;
        }
        proof {
            assert(self.state@.subrange(0, len as int) =~= self.state@);
        }
        self.state = new_topics;
        self.record_snapshot();
        CommandResult::Success
    }

    /// Chooses one entry of the collection at random and records it with its
    /// position; the collection, the history and the flags stay as they are.
    pub fn pick_random(&mut self) -> (r: CommandResult)
        requires
            old(self).wf(),
        ensures
            final(self).wf(),
            old(self).topics().len() == 0 ==> (r matches CommandResult::Fail(m) && m@
                == msg_not_enough_topics()) && *final(self) == *old(self),
            old(self).topics().len() > 0 ==> r == CommandResult::Success && picked_fresh(
                *old(self),
                *final(self),
            ),
    {
        if self.state.is_empty() {
            return CommandResult::Fail("Not enough topics".to_owned());
        }
        let index = random_below(self.state.len());
        self.chosen_topic = Some((clone_string_at(self.state.as_slice(), index), index));
        CommandResult::Success
    }

    /// Removes the entry a random pick chose, records a snapshot and forgets
    /// the choice. A choice whose position no longer fits the collection is
    /// stale and rejected; without any recorded choice there is nothing to
    /// remove.
    pub fn remove_chosen_topic(&mut self) -> (r: CommandResult)
        requires
            old(self).wf(),
        ensures
            final(self).wf(),
            match old(self).spec_chosen() {
                None => (r matches CommandResult::Fail(m) && m@ == msg_no_topic_chosen())
                    && *final(self) == *old(self),
                Some(p) => if p.1 >= old(self).topics().len() {
                    (r matches CommandResult::Fail(m) && m@ == msg_wrong_index(p.1 as nat))
                        && *final(self) == *old(self)
                } else {
                    r == CommandResult::Success && chosen_removed(*old(self), *final(self))
                },
            },
    {
        let index_opt: Option<usize> = match &self.chosen_topic {
            Some((_topic, index)) => Some(*index),
            None => None,
        };
        match index_opt {
            None => CommandResult::Fail("No topic has been chosen".to_owned()),
            Some(index) => {
                if index >= self.state.len() {
                    let rendered = usize_to_string(index);
                    return CommandResult::Fail(concat_msg("Wrong index: ", rendered.as_str()));
                }
                let _removed = self.state.remove(index);
                self.chosen_topic = None;
                self.record_snapshot();
                CommandResult::Success
            },
        }
    }

    /// Steps the collection back to the previous snapshot; at the oldest
    /// recorded state nothing changes and the failure says so.
    pub fn undo(&mut self) -> (r: CommandResult)
        requires
            old(self).wf(),
        ensures
            final(self).wf(),
            old(self).can_undo() ==> r == CommandResult::Success && undo_step(
                *old(self),
                *final(self),
            ),
            !old(self).can_undo() ==> (r matches CommandResult::Fail(m) && m@ == msg_at_oldest())
                && *final(self) == *old(self),
    {
        let copied: Option<Vec<String>> = match self.topic_history.get_previous() {
            Some(previous) => Some(copy_topics(previous.as_slice())),
            None => None,
        };
        match copied {
            Some(list) => {
                self.state = list;
                let _moved = self.topic_history.move_to_previous();
                self.modified = true;
                CommandResult::Success
            },
            None => CommandResult::Fail("Already at the oldest change".to_owned()),
        }
    }

    /// Steps the collection forward to the next snapshot; at the newest
    /// reachable state nothing changes and the failure says so.
    pub fn redo(&mut self) -> (r: CommandResult)
        requires
            old(self).wf(),
        ensures
            final(self).wf(),
            old(self).can_redo() ==> r == CommandResult::Success && redo_step(
                *old(self),
                *final(self),
            ),
            !old(self).can_redo() ==> (r matches CommandResult::Fail(m) && m@ == msg_at_newest())
                && *final(self) == *old(self),
    {
        let copied: Option<Vec<String>> = match self.topic_history.get_next() {
            Some(next) => Some(copy_topics(next.as_slice())),
            None => None,
        };
        match copied {
            Some(list) => {
                self.state = list;
                let _moved = self.topic_history.move_to_next();
                self.modified = true;
                CommandResult::Success
            },
            None => CommandResult::Fail("Already at the newest change".to_owned()),
        }
    }

    /// Ends the session: always succeeds and only clears the continue flag.
    pub fn exit(&mut self) -> (r: CommandResult)
        ensures
            r == CommandResult::Success,
            !final(self).spec_running(),
            final(self).topics() == old(self).topics(),
            final(self).hist() == old(self).hist(),
            final(self).hist_cur() == old(self).hist_cur(),
            final(self).hist_end() == old(self).hist_end(),
            final(self).spec_modified() == old(self).spec_modified(),
            final(self).spec_chosen() == old(self).spec_chosen(),
            old(self).wf() ==> final(self).wf(),
    {
        self.can_continue = false;
        CommandResult::Success
    }
}

} // verus!
