//! Undo/redo history of signal-chain edits. Each edit first records the
//! chain as it was; undo and redo swap the current chain with the newest
//! entry of the respective stack. Both stacks keep at most `UNDO_LIMIT`
//! entries, dropping the oldest.
use vstd::prelude::*;

verus! {

/// Maximum number of undo/redo steps to keep.
pub const UNDO_LIMIT: usize = 50;

/// Why an undo or redo did nothing.
#[derive(Debug, Clone, Copy, PartialEq, Eq, Structural)]
pub enum HistoryError {
    /// The undo stack is empty.
    NothingToUndo,
    /// The redo stack is empty.
    NothingToRedo,
}

/// `s` with `x` pushed on top, the oldest entry dropped when the stack
/// would exceed `UNDO_LIMIT` entries.
pub open spec fn bounded_push<T>(s: Seq<T>, x: T) -> Seq<T> {
    if s.len() + 1 > UNDO_LIMIT {
        s.push(x).remove(0)
    } else {
        s.push(x)
    }
}

/// The abstract history: both stacks, newest entry last.
pub struct HistoryView<T> {
    pub undo: Seq<T>,
    pub redo: Seq<T>,
}

/// Recording `current` before an edit.
pub open spec fn after_record<T>(h: HistoryView<T>, current: T) -> HistoryView<T> {
    HistoryView { undo: bounded_push(h.undo, current), redo: Seq::empty() }
}

/// Undoing while `chain` is current: the history and the chain afterwards,
/// or nothing when the undo stack is empty.
pub open spec fn after_undo<T>(h: HistoryView<T>, chain: T) -> Option<(HistoryView<T>, T)> {
    if h.undo.len() == 0 {
        None
    } else {
        Some(
            (
                HistoryView { undo: h.undo.drop_last(), redo: bounded_push(h.redo, chain) },
                h.undo.last(),
            ),
        )
    }
}

/// Redoing while `chain` is current: the history and the chain afterwards,
/// or nothing when the redo stack is empty.
pub open spec fn after_redo<T>(h: HistoryView<T>, chain: T) -> Option<(HistoryView<T>, T)> {
    if h.redo.len() == 0 {
        None
    } else {
        Some(
            (
                HistoryView { undo: bounded_push(h.undo, chain), redo: h.redo.drop_last() },
                h.redo.last(),
            ),
        )
    }
}

/// Both stacks hold at most `UNDO_LIMIT` entries.
pub open spec fn bounded<T>(h: HistoryView<T>) -> bool {
    h.undo.len() <= UNDO_LIMIT && h.redo.len() <= UNDO_LIMIT
}

/// The undo and redo stacks of a value of type `T`.
pub struct History<T> {
    undo: Vec<T>,
    redo: Vec<T>,
}

impl<T> View for History<T> {
    type V = HistoryView<T>;

    closed spec fn view(&self) -> HistoryView<T> {
        HistoryView { undo: self.undo@, redo: self.redo@ }
    }
}

fn push_bounded<T>(v: &mut Vec<T>, x: T)
    ensures
        final(v)@ == bounded_push(old(v)@, x),
{
    v.push(x);
    if v.len() > UNDO_LIMIT {
        v.remove(0);
    }
}

impl<T> History<T> {
    pub fn new() -> (h: Self)
        ensures
            h@.undo == Seq::<T>::empty(),
            h@.redo == Seq::<T>::empty(),
    {
        History { undo: Vec::new(), redo: Vec::new() }
    }

    /// The number of steps that can be undone.
    pub fn undo_len(&self) -> (n: usize)
        ensures
            n == self@.undo.len(),
    {
        self.undo.len()
    }

    /// The number of steps that can be redone.
    pub fn redo_len(&self) -> (n: usize)
        ensures
            n == self@.redo.len(),
    {
        self.redo.len()
    }

    /// Records `current` as the state to return to, before an edit; any new
    /// edit invalidates the redo stack.
    pub fn push_undo_state(&mut self, current: T)
        ensures
            final(self)@ == after_record(old(self)@, current),
    {
        push_bounded(&mut self.undo, current);
        self.redo = Vec::new();
        assert(self@.redo =~= Seq::<T>::empty());
    }

    /// Undo the last edit: `chain` becomes the newest recorded state and its
    /// previous value goes onto the redo stack.
    pub fn undo(&mut self, chain: &mut T) -> (r: Result<(), HistoryError>)
        ensures
            match after_undo(old(self)@, *old(chain)) {
                Some((h, c)) => r is Ok && final(self)@ == h && *final(chain) == c,
                None => r == Err::<(), HistoryError>(HistoryError::NothingToUndo)
                    && final(self)@ == old(self)@ && *final(chain) == *old(chain),
            },
    {
        match self.undo.pop() {
            Some(previous) => {
                let mut held = previous;
                core::mem::swap(chain, &mut held);
                push_bounded(&mut self.redo, held);
                Ok(())
            },
            None => Err(HistoryError::NothingToUndo),
        }
    }

    /// Redo a previously undone edit: `chain` becomes the newest undone state
    /// and its previous value goes back onto the undo stack.
    pub fn redo(&mut self, chain: &mut T) -> (r: Result<(), HistoryError>)
        ensures
            match after_redo(old(self)@, *old(chain)) {
                Some((h, c)) => r is Ok && final(self)@ == h && *final(chain) == c,
                None => r == Err::<(), HistoryError>(HistoryError::NothingToRedo)
                    && final(self)@ == old(self)@ && *final(chain) == *old(chain),
            },
    {
        match self.redo.pop() {
            Some(next) => {
                let mut held = next;
                core::mem::swap(chain, &mut held);
                push_bounded(&mut self.undo, held);
                Ok(())
            },
            None => Err(HistoryError::NothingToRedo),
        }
    }
}

/// Undo restores what an edit replaced: after recording `before` and editing
/// the chain to `edited`, undo gives back `before`, and a redo right after it
/// gives back `edited` with the history as it was after the edit.
pub proof fn lemma_undo_restores_and_redo_reapplies<T>(h: HistoryView<T>, before: T, edited: T)
    requires
        bounded(h),
    ensures
        ({
            let recorded = after_record(h, before);
            match after_undo(recorded, edited) {
                Some((h1, c1)) => c1 == before && match after_redo(h1, c1) {
                    Some((h2, c2)) => c2 == edited && h2 == recorded,
                    None => false,
                },
                None => false,
            }
        }),
{
    let recorded = after_record(h, before);
    assert(recorded.undo.len() >= 1);
    let h1 = HistoryView { undo: recorded.undo.drop_last(), redo: bounded_push(recorded.redo, edited) };
    assert(recorded.undo.last() == before);
    assert(h1.redo =~= seq![edited]);
    assert(recorded.undo.len() <= UNDO_LIMIT);
    assert(h1.undo.len() + 1 <= UNDO_LIMIT);
    assert(bounded_push(h1.undo, before) =~= recorded.undo);
    assert(h1.redo.drop_last() =~= Seq::<T>::empty());
}

/// Recording, undoing and redoing keep both stacks within `UNDO_LIMIT`.
pub proof fn lemma_history_stays_bounded<T>(h: HistoryView<T>, chain: T)
    requires
        bounded(h),
    ensures
        bounded(after_record(h, chain)),
        after_undo(h, chain) matches Some((h1, _)) ==> bounded(h1),
        after_redo(h, chain) matches Some((h2, _)) ==> bounded(h2),
{
}

} // verus!
