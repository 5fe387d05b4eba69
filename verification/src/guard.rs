//! The terminal session guard: tracks whether the terminal is in raw
//! mode and guarantees that the restore runs exactly once.

use vstd::prelude::*;

verus! {

/// Owns the raw-terminal session. While `engaged`, the terminal is in
/// raw mode with mouse capture enabled, and a restore is owed exactly
/// once — whether the normal shutdown path or a panic path gets there
/// first. `release` tells its caller whether to perform the actual
/// restore now, and after the first release every further one is a
/// no-op, so the restore can never run twice.
#[derive(Debug, Clone, Copy, PartialEq, Eq, Structural)]
pub struct TerminalGuard {
    /// Whether the terminal is still in raw mode, i.e. a restore is
    /// still owed.
    pub engaged: bool,
}

/// A released guard: the terminal is back in its original mode and no
/// restore is owed.
pub open spec fn spec_release(g: TerminalGuard) -> TerminalGuard {
    TerminalGuard { engaged: false }
}

/// Idempotent restore: releasing twice in succession ends in exactly
/// the state releasing once does, and the second release asks for no
/// restore at all — so it cannot error.
pub proof fn lemma_release_idempotent(g: TerminalGuard)
    ensures
        spec_release(spec_release(g)) == spec_release(g),
        !spec_release(g).engaged,
{
}

impl TerminalGuard {
    /// Takes ownership of the raw-terminal session. The caller puts
    /// the terminal into raw mode with mouse capture before calling
    /// this, and owes a restore from now on.
    pub fn acquire() -> (g: TerminalGuard)
        ensures
            g.engaged,
    {
        TerminalGuard { engaged: true }
    }

    /// Releases the session. Returns whether the caller must perform
    /// the actual terminal restore now: `true` exactly on the first
    /// release, so the restore runs exactly once however many paths
    /// call this.
    pub fn release(&mut self) -> (restore_now: bool)
        ensures
            *final(self) == spec_release(*old(self)),
            restore_now == old(self).engaged,
    {
        let restore_now = self.engaged;
        self.engaged = false;
        restore_now
    }
}

} // verus!
