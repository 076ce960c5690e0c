use vstd::prelude::*;

verus! {

/// The undo history of the layout editor: the changes made, newest last, and how many of the
/// newest have been undone.
pub struct EditHistory<C> {
    changes: Vec<C>,
    depth: usize,
}

/// Mathematical model of the history.
pub struct HistoryView<C> {
    pub changes: Seq<C>,
    /// How many of the newest changes are undone (and can be redone).
    pub depth: nat,
}

impl<C> HistoryView<C> {
    pub open spec fn wf(self) -> bool {
        self.depth <= self.changes.len()
    }

    /// Pushing a change forgets the undone changes, then records the new one.
    pub open spec fn push(self, change: C) -> HistoryView<C> {
        HistoryView {
            changes: self.changes.subrange(0, self.changes.len() - self.depth).push(change),
            depth: 0,
        }
    }

    pub open spec fn can_undo(self) -> bool {
        self.depth < self.changes.len()
    }

    pub open spec fn can_redo(self) -> bool {
        self.depth > 0
    }

    /// Undoing steps one change further back and hands out that change to be reverted.
    pub open spec fn undo(self) -> (HistoryView<C>, Option<C>) {
        if self.can_undo() {
            (
                HistoryView { depth: self.depth + 1, ..self },
                Some(self.changes[self.changes.len() - (self.depth + 1)]),
            )
        } else {
            (self, None)
        }
    }

    /// Redoing steps one change forward and hands out that change to be made again.
    pub open spec fn redo(self) -> (HistoryView<C>, Option<C>) {
        if self.can_redo() {
            (
                HistoryView { depth: (self.depth - 1) as nat, ..self },
                Some(self.changes[self.changes.len() - self.depth]),
            )
        } else {
            (self, None)
        }
    }
}

impl<C> View for EditHistory<C> {
    type V = HistoryView<C>;

    closed spec fn view(&self) -> HistoryView<C> {
        HistoryView { changes: self.changes@, depth: self.depth as nat }
    }
}

impl<C: Copy> EditHistory<C> {
    /// An empty history.
    pub fn new() -> (h: Self)
        ensures
            h@.changes == Seq::<C>::empty(),
            h@.depth == 0,
            h@.wf(),
    {
        EditHistory { changes: Vec::new(), depth: 0 }
    }

    /// Number of changes recorded, undone ones included.
    pub fn len(&self) -> (n: usize)
        ensures
            n == self@.changes.len(),
    {
        self.changes.len()
    }

    /// How many of the newest changes are undone.
    pub fn depth(&self) -> (d: usize)
        ensures
            d == self@.depth,
    {
        self.depth
    }

    /// Records a change, forgetting the changes that were undone.
    pub fn push(&mut self, change: C)
        requires
            old(self)@.wf(),
        ensures
            final(self)@ == old(self)@.push(change),
            final(self)@.wf(),
    {
        let depth = self.depth;
        self.depth = 0;
        if depth > 0 {
            let keep = self.changes.len() - depth;
            self.changes.truncate(keep);
        } else {
            assert(self.changes@.subrange(0, self.changes@.len() as int) =~= self.changes@);
        }
        self.changes.push(change);
    }

    /// Undoes the newest change not yet undone; returns it so that it can be reverted.
    pub fn undo(&mut self) -> (change: Option<C>)
        requires
            old(self)@.wf(),
        ensures
            (final(self)@, change) == old(self)@.undo(),
            final(self)@.wf(),
    {
        if self.depth < self.changes.len() {
            self.depth = self.depth + 1;
            Some(self.changes[self.changes.len() - self.depth])
        } else {
            None
        }
    }

    /// Redoes the oldest undone change; returns it so that it can be made again.
    pub fn redo(&mut self) -> (change: Option<C>)
        requires
            old(self)@.wf(),
        ensures
            (final(self)@, change) == old(self)@.redo(),
            final(self)@.wf(),
    {
        if self.depth > 0 {
            self.depth = self.depth - 1;
            Some(self.changes[self.changes.len() - self.depth - 1])
        } else {
            None
        }
    }
}

/// Law: undoing right after recording a change hands that change back.
pub proof fn lemma_undo_after_push<C>(h: HistoryView<C>, change: C)
    requires
        h.wf(),
    ensures
        h.push(change).undo().1 == Some(change),
{
}

/// Law: redoing right after an undo hands back the change just undone and restores the
/// history as it was.
pub proof fn lemma_redo_after_undo<C>(h: HistoryView<C>)
    requires
        h.wf(),
        h.can_undo(),
    ensures
        h.undo().0.redo().0 == h,
        h.undo().0.redo().1 == h.undo().1,
{
}

/// Law: undoing right after a redo hands back the change just redone and restores the
/// history as it was.
pub proof fn lemma_undo_after_redo<C>(h: HistoryView<C>)
    requires
        h.wf(),
        h.can_redo(),
    ensures
        h.redo().0.undo().0 == h,
        h.redo().0.undo().1 == h.redo().1,
{
}

/// Law: after recording a change there is nothing to redo.
pub proof fn lemma_push_clears_redo<C>(h: HistoryView<C>, change: C)
    requires
        h.wf(),
    ensures
        h.push(change).wf(),
        h.push(change).redo().1 == None::<C>,
{
}

} // verus!
