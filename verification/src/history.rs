use vstd::prelude::*;

use vstd::pervasive::cloned;

verus! {

/// A linear version history: an ordered log of snapshots and a cursor marking
/// the current one. The log always holds at least the seed snapshot, and the
/// cursor always points at a valid entry.
pub struct UndoQueue<T: Clone> {
    queue: Vec<T>,
    index: usize,
}

impl<T: Clone> UndoQueue<T> {
    /// The ordered log of snapshots, oldest first.
    pub closed spec fn entries(&self) -> Seq<T> {
        self.queue@
    }

    /// The position of the current snapshot within the log.
    pub closed spec fn cursor(&self) -> int {
        self.index as int
    }

    /// The history invariant: the cursor points at a valid entry, so the log
    /// is never empty and `current` never fails.
    pub open spec fn wf(&self) -> bool {
        0 <= self.cursor() < self.entries().len()
    }

    /// The snapshot the cursor points at.
    pub open spec fn current_snapshot(&self) -> T {
        self.entries()[self.cursor()]
    }

    /// Where the cursor stands after an undo: one step back, if there is a
    /// step to take.
    pub open spec fn undo_target(&self) -> int {
        if self.cursor() > 0 {
            self.cursor() - 1
        } else {
            self.cursor()
        }
    }

    /// Where the cursor stands after a redo: one step forward, if there is a
    /// step to take.
    pub open spec fn redo_target(&self) -> int {
        if self.cursor() < self.entries().len() - 1 {
            self.cursor() + 1
        } else {
            self.cursor()
        }
    }

    /// A single-entry history seeded with one snapshot, cursor on it.
    pub fn new(entry: T) -> (q: UndoQueue<T>)
        ensures
            q.wf(),
            q.entries() == seq![entry],
            q.cursor() == 0,
    {
        UndoQueue { queue: vec![entry], index: 0 }
    }

    /// A clone of the current snapshot. The invariant guarantees the cursor is
    /// in bounds, so this never fails.
    pub fn current(&self) -> (r: T)
        requires
            self.wf(),
        ensures
            cloned::<T>(self.current_snapshot(), r),
    {
        self.queue[self.index].clone()
    }

    /// Appends a snapshot as the new current entry, discarding any redo branch:
    /// the entries after the cursor are dropped, the snapshot goes at the end,
    /// and the cursor moves onto it.
    pub fn push(&mut self, entry: T)
        requires
            old(self).wf(),
        ensures
            final(self).wf(),
            final(self).entries() == old(self).entries().take(old(self).cursor() + 1).push(entry),
            final(self).cursor() == old(self).cursor() + 1,
            final(self).current_snapshot() == entry,
    {
        let len = self.queue.len();
        if self.index + 1 < len {
            self.queue.truncate(self.index + 1);
        }
        self.queue.push(entry);
        self.index = self.queue.len() - 1;
        proof {
            assert(self.entries() =~= old(self).entries().take(old(self).cursor() + 1).push(
                entry,
            ));
        }
    }

    /// Moves the cursor back by one entry if it is not already at the oldest
    /// one; the log itself is untouched. Returns whether the cursor moved.
    pub fn undo(&mut self) -> (moved: bool)
        requires
            old(self).wf(),
        ensures
            final(self).wf(),
            final(self).entries() == old(self).entries(),
            final(self).cursor() == old(self).undo_target(),
            moved == (old(self).cursor() > 0),
    {
        if self.index > 0 {
            self.index = self.index - 1;
            true
        } else {
            false
        }
    }

    /// Moves the cursor forward by one entry if it is not already at the
    /// newest one; the log itself is untouched. Returns whether the cursor
    /// moved.
    pub fn redo(&mut self) -> (moved: bool)
        requires
            old(self).wf(),
        ensures
            final(self).wf(),
            final(self).entries() == old(self).entries(),
            final(self).cursor() == old(self).redo_target(),
            moved == (old(self).cursor() < old(self).entries().len() - 1),
    {
        if self.index < self.queue.len() - 1 {
            self.index = self.index + 1;
            true
        } else {
            false
        }
    }
}

/// Law: an undo that moved the cursor, immediately followed by a redo,
/// restores the current snapshot held before the undo. `q` is the history
/// before the undo, `q1` any state the ensures of `undo` admits after it, and
/// `q2` any state the ensures of `redo` admits after that.
pub proof fn lemma_undo_then_redo<T: Clone>(q: UndoQueue<T>, q1: UndoQueue<T>, q2: UndoQueue<T>)
    requires
        q.wf(),
        q.cursor() > 0,
        q1.entries() == q.entries(),
        q1.cursor() == q.undo_target(),
        q2.entries() == q1.entries(),
        q2.cursor() == q1.redo_target(),
    ensures
        q2.cursor() == q.cursor(),
        q2.current_snapshot() == q.current_snapshot(),
{
}

} // verus!
