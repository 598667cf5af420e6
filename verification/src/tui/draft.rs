//! Working copy of the settings: the edited value beside the one on disk.
use vstd::prelude::*;

verus! {

/// The edited settings (`current`) and the snapshot they started from.
#[derive(Debug, Clone)]
pub struct DraftSettings<S> {
    pub current: S,
    original: S,
}

/// Cloning an `S` gives back an equal value (as it does for the
/// integers, and for every type whose `clone` says so).
pub open spec fn clone_is_exact<S: Clone>() -> bool {
    forall|a: S, b: S| #[trigger] cloned(a, b) ==> a == b
}

impl<S: Clone> DraftSettings<S> {
    /// The snapshot the edits are compared with.
    pub closed spec fn pinned(&self) -> S {
        self.original
    }

    /// The edited value.
    pub closed spec fn edited(&self) -> S {
        self.current
    }

    /// A draft with no edits: `current` is a clone of the snapshot.
    pub fn from_settings(s: S) -> (r: Self)
        ensures
            r.pinned() == s,
            cloned(s, r.edited()),
            clone_is_exact::<S>() ==> r.edited() == r.pinned(),
    {
        DraftSettings { current: s.clone(), original: s }
    }

    /// The snapshot on disk.
    pub fn original(&self) -> (r: &S)
        ensures
            *r == self.pinned(),
    {
        &self.original
    }

    /// Drops every edit, whatever they were: `current` becomes a clone of
    /// the snapshot, which stays; where cloning is exact, the edited value
    /// is the snapshot again.
    pub fn reset(&mut self)
        ensures
            final(self).pinned() == old(self).pinned(),
            cloned(old(self).pinned(), final(self).edited()),
            clone_is_exact::<S>() ==> final(self).edited() == old(self).pinned(),
    {
        self.current = self.original.clone();
    }

    /// After a save: `s` becomes both the snapshot and the edited value
    /// (the snapshot a clone of it; where cloning is exact, `s` itself),
    /// whatever the draft held before.
    pub fn pin_original(&mut self, s: S)
        ensures
            final(self).edited() == s,
            cloned(s, final(self).pinned()),
            clone_is_exact::<S>() ==> final(self).pinned() == s,
    {
        self.original = s.clone();
        self.current = s;
    }
}

} // verus!
