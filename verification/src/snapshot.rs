//! The run, and the snapshots that bring it back to an earlier point.

use vstd::prelude::*;
use crate::cheats::{empty_registry, CheatRegistry, CheatRegistryView};
use crate::fork::{fresh_fork, BlockId, ForkStateReader};
use crate::state::{empty_state, CachedState, CachedStateView};

verus! {

/// The state of one run: the cached state, what is known of the forked chain where
/// the run has one, and the cheats.
#[derive(Debug)]
pub struct Run {
    pub state: CachedState,
    pub fork: Option<ForkStateReader>,
    pub cheats: CheatRegistry,
}

/// A copy of the cached state and of the cheats of a run, as they were when it was
/// taken.
#[derive(Debug)]
pub struct Snapshot {
    state: CachedState,
    cheats: CheatRegistry,
}

/// What a snapshot stands for.
pub struct SnapshotView {
    pub state: CachedStateView,
    pub cheats: CheatRegistryView,
}

impl View for Snapshot {
    type V = SnapshotView;

    closed spec fn view(&self) -> SnapshotView {
        SnapshotView { state: self.state@, cheats: self.cheats@ }
    }
}

impl Run {
    /// What the run holds that a snapshot captures.
    pub open spec fn captured(&self) -> SnapshotView {
        SnapshotView { state: self.state@, cheats: self.cheats@ }
    }

    /// A run on local state alone.
    pub fn new() -> (r: Self)
        ensures
            r.state@ == empty_state(),
            r.cheats@ == empty_registry(),
            r.fork is None,
    {
        Run { state: CachedState::new(), fork: None, cheats: CheatRegistry::new() }
    }

    /// A run on the state of a chain at one block, overlaid with local writes.
    pub fn forked(block: BlockId) -> (r: Self)
        ensures
            r.state@ == empty_state(),
            r.cheats@ == empty_registry(),
            r.fork matches Some(reader) && reader@ == fresh_fork(block),
    {
        Run {
            state: CachedState::new(),
            fork: Some(ForkStateReader::new(block)),
            cheats: CheatRegistry::new(),
        }
    }

    /// Captures the cached state and the cheats.
    pub fn snapshot(&self) -> (r: Snapshot)
        ensures
            r@ == self.captured(),
    {
        Snapshot { state: self.state.duplicate(), cheats: self.cheats.duplicate() }
    }

    /// Puts the captured cached state and cheats in place of the live ones. What
    /// was declared, deployed, written or installed since the capture is gone; what
    /// is known of the forked chain stays, and so does the snapshot.
    pub fn restore(&mut self, handle: &Snapshot)
        ensures
            final(self).captured() == handle@,
            final(self).fork == old(self).fork,
    {
        self.state = handle.state.duplicate();
        self.cheats = handle.cheats.duplicate();
    }
}

/// Restoring a snapshot right after taking it leaves the run as it was.
pub proof fn lemma_restore_after_snapshot(before: Run, taken: Snapshot, after: Run)
    requires
        taken@ == before.captured(),
        after.captured() == taken@,
    ensures
        after.state@ == before.state@,
        after.cheats@ == before.cheats@,
{
}

/// Whatever a run has become since a snapshot was taken, restoring the snapshot
/// makes its cached state and its cheats what they were then.
pub proof fn lemma_restore_erases(before: Run, taken: Snapshot, after: Run)
    requires
        taken@ == before.captured(),
        after.captured() == taken@,
    ensures
        after.captured() == before.captured(),
{
}

} // verus!
