//! A linear undo/redo log over immutable snapshots of a value.
//!
//! The buffer keeps every snapshot ever recorded in one growing vector.
//! `current_index` is the position the reader sits on and `end_index` is the
//! newest snapshot still reachable through redo. The `at_end` flag marks a
//! virtual sentinel position that is distinct from sitting on any real
//! snapshot: a freshly constructed buffer holds no confirmed snapshot yet,
//! and removing the newest reachable snapshot parks the reader there again.
//! Moving past either boundary is refused outright. Recording a new snapshot
//! from the middle of the history lowers `end_index`, so snapshots past it
//! stay stored but become unreachable (a linear history, not a tree).

use vstd::prelude::*;

verus! {

pub struct UndoRedoHandler<T> {
    list: Vec<T>,
    current_index: usize,
    end_index: usize,
    at_end: bool,
}

impl<T> UndoRedoHandler<T> {
    /// Every snapshot ever stored, oldest first, including ones that a later
    /// recording made unreachable.
    pub closed spec fn snapshots(self) -> Seq<T> {
        self.list@
    }

    /// The position the reader currently sits on.
    pub closed spec fn cur(self) -> int {
        self.current_index as int
    }

    /// The newest position still reachable through `move_to_next`.
    pub closed spec fn end(self) -> int {
        self.end_index as int
    }

    /// True while the reader sits on the virtual sentinel rather than on a
    /// real snapshot.
    pub closed spec fn at_sentinel(self) -> bool {
        self.at_end
    }

    pub open spec fn wf(self) -> bool {
        &&& self.snapshots().len() == 0 ==> self.cur() == 0 && self.end() == 0
            && self.at_sentinel()
        &&& self.snapshots().len() > 0 ==> 0 <= self.cur() <= self.end()
            < self.snapshots().len()
        &&& self.at_sentinel() ==> self.cur() == self.end()
    }

    /// True when the reader sits on the sentinel at or past the newest
    /// reachable snapshot.
    pub open spec fn spec_is_head(self) -> bool {
        self.cur() >= self.end() && self.at_sentinel()
    }

    /// True when the reader sits on the sentinel at the oldest position.
    pub open spec fn spec_is_tail(self) -> bool {
        self.cur() == 0 && self.at_sentinel()
    }

    pub fn new() -> (r: Self)
        ensures
            r.wf(),
            r.snapshots() == Seq::<T>::empty(),
            r.cur() == 0,
            r.end() == 0,
            r.at_sentinel(),
    {
        UndoRedoHandler { list: Vec::new(), current_index: 0, end_index: 0, at_end: true }
    }

    /// Records a new snapshot. Unless the reader is parked on the head
    /// sentinel, the recording position is one past the current one; the
    /// snapshot overwrites a stored slot when one exists there and is appended
    /// otherwise. The new position becomes both current and newest, so any
    /// snapshots that were reachable through redo become unreachable.
    pub fn add_new_node(&mut self, data: T)
        requires
            old(self).wf(),
        ensures
            final(self).wf(),
            !final(self).at_sentinel(),
            final(self).cur() == if old(self).spec_is_head() {
                old(self).cur()
            } else {
                old(self).cur() + 1
            },
            final(self).end() == final(self).cur(),
            final(self).snapshots() == if final(self).cur() == old(self).snapshots().len() {
                old(self).snapshots().push(data)
            } else {
                old(self).snapshots().update(final(self).cur(), data)
            },
    {
        let len: usize = self.list.len();
        if !self.is_head() {
            self.current_index += 1;
        }
        if self.current_index >= len {
            self.list.push(data);
        } else {
            self.list[self.current_index] = data;
        }
        self.end_index = self.current_index;
        self.at_end = false;
    }

    pub fn is_tail(&self) -> (r: bool)
        ensures
            r == self.spec_is_tail(),
    {
        self.current_index == 0 && self.at_end
    }

    pub fn is_head(&self) -> (r: bool)
        ensures
            r == self.spec_is_head(),
    {
        self.current_index >= self.end_index && self.at_end
    }

    /// The snapshot the reader sits on, or nothing while it is parked on the
    /// sentinel.
    pub fn get_current(&self) -> (r: Option<&T>)
        requires
            self.wf(),
        ensures
            self.at_sentinel() ==> r is None,
            !self.at_sentinel() ==> (r matches Some(p) && *p == self.snapshots()[self.cur()]),
    {
        if self.at_end {
            return None;
        }
        Some(&self.list[self.current_index])
    }

    /// The snapshot one step older than the current position, if any.
    pub fn get_previous(&self) -> (r: Option<&T>)
        requires
            self.wf(),
        ensures
            self.cur() == 0 ==> r is None,
            self.cur() > 0 ==> (r matches Some(p) && *p == self.snapshots()[self.cur() - 1]),
    {
        if self.current_index == 0 {
            return None;
        }
        Some(&self.list[self.current_index - 1])
    }

    /// The snapshot one step newer than the current position, if any is still
    /// reachable.
    pub fn get_next(&self) -> (r: Option<&T>)
        requires
            self.wf(),
        ensures
            self.cur() == self.end() ==> r is None,
            self.cur() < self.end() ==> (r matches Some(p) && *p == self.snapshots()[self.cur() + 1]),
    {
        if self.current_index == self.end_index {
            return None;
        }
        Some(&self.list[self.current_index + 1])
    }

    /// Steps the reader one snapshot back. From the sentinel of a non-empty
    /// buffer the reader lands on the newest snapshot without moving the
    /// position; from a real snapshot the position decrements. The move is
    /// refused at index zero while not at the sentinel (already at the oldest
    /// change), and on a buffer that never recorded anything.
    pub fn move_to_previous(&mut self) -> (r: bool)
        requires
            old(self).wf(),
        ensures
            final(self).wf(),
            final(self).snapshots() == old(self).snapshots(),
            final(self).end() == old(self).end(),
            old(self).at_sentinel() && old(self).snapshots().len() > 0 ==> r && final(self).cur()
                == old(self).cur() && !final(self).at_sentinel(),
            old(self).at_sentinel() && old(self).snapshots().len() == 0 ==> !r && *final(self)
                == *old(self),
            !old(self).at_sentinel() && old(self).cur() > 0 ==> r && final(self).cur() == old(self).cur() - 1 && !final(self).at_sentinel(),
            !old(self).at_sentinel() && old(self).cur() == 0 ==> !r && *final(self) == *old(self),
    {
        if self.at_end {
            if self.list.len() > 0 {
                self.at_end = false;
                return true;
            }
            return false;
        }
        if self.current_index > 0 {
            self.current_index -= 1;
            return true;
        }
        false
    }

    /// Steps the reader one snapshot forward: the position increments while
    /// an older undo left newer snapshots reachable. The move is refused at
    /// the newest reachable position while not at the sentinel (already at
    /// the newest change), and always from the sentinel.
    pub fn move_to_next(&mut self) -> (r: bool)
        requires
            old(self).wf(),
        ensures
            final(self).wf(),
            final(self).snapshots() == old(self).snapshots(),
            final(self).end() == old(self).end(),
            old(self).at_sentinel() ==> !r && *final(self) == *old(self),
            !old(self).at_sentinel() && old(self).cur() < old(self).end() ==> r && final(self).cur() == old(self).cur() + 1 && !final(self).at_sentinel(),
            !old(self).at_sentinel() && old(self).cur() == old(self).end() ==> !r && *final(self)
                == *old(self),
    {
        if self.at_end {
            return false;
        }
        if self.current_index < self.end_index {
            self.current_index += 1;
            return true;
        }
        false
    }

    /// Removes the snapshot at the current position from the stored list.
    /// Refused while the reader is parked on the sentinel (under `wf` such a
    /// state is both the head and tail position the two guards test). A
    /// buffer whose single reachable snapshot sits at position zero has no
    /// room for a removal, so such a state is excluded up front. When the
    /// follow-up step back is asked for from position zero, the removal
    /// itself has still happened and an error reports the failed step.
    pub fn remove_node(&mut self, go_to_previous: bool) -> (r: Result<(), &'static str>)
        requires
            old(self).wf(),
            old(self).end() > 0 || old(self).at_sentinel(),
        ensures
            final(self).wf(),
            r is Err <==> old(self).at_sentinel() || (go_to_previous && old(self).cur() == 0),
            old(self).at_sentinel() ==> *final(self) == *old(self),
            !old(self).at_sentinel() ==> final(self).snapshots() == old(self).snapshots().remove(
                old(self).cur(),
            ) && final(self).end() == old(self).end() - 1,
            !old(self).at_sentinel() && go_to_previous && old(self).cur() > 0 ==> final(self).cur()
                == old(self).cur() - 1 && !final(self).at_sentinel(),
            !old(self).at_sentinel() && go_to_previous && old(self).cur() == 0 ==> final(self).cur()
                == 0 && !final(self).at_sentinel(),
            !old(self).at_sentinel() && !go_to_previous && old(self).cur() == old(self).end()
                ==> final(self).cur() == old(self).cur() - 1 && final(self).at_sentinel(),
            !old(self).at_sentinel() && !go_to_previous && old(self).cur() < old(self).end()
                ==> final(self).cur() == old(self).cur() && !final(self).at_sentinel(),
    {
        if self.is_head() {
            return Err("Invalid operation: trying to remove head.");
        }
        if self.is_tail() {
            return Err("Invalid operation: trying to remove tail.");
        }
        self.list.remove(self.current_index);
        self.end_index -= 1;
        if self.current_index > self.end_index {
            self.current_index = self.end_index;
            self.at_end = true;
        }
        if go_to_previous && !self.move_to_previous() {
            return Err("Unexpected error occured.");
        }
        Ok(())
    }
}

} // verus!
