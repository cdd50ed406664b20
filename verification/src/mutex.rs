//! The decisions of the lock that guards the device state.
//!
//! The lock is taken from two tiers: from ordinary request handling, which
//! runs below the dispatch level, and from callbacks that may already run at
//! or above it. Taking the lock from below raises the caller to the dispatch
//! level, and the guard remembers from where, so that the release puts the
//! caller back. Taking it at or above the dispatch level changes nothing,
//! and the release must not lower the caller either.

use vstd::prelude::*;

verus! {

/// The level of ordinary request handling.
pub const PASSIVE_LEVEL: u8 = 0;

/// The level at which the lock is held.
pub const DISPATCH_LEVEL: u8 = 2;

/// How the lock is taken.
#[derive(Debug, Clone, Copy, PartialEq, Eq, Structural)]
pub enum Acquire {
    /// The caller is elevated already: take the lock and leave the level.
    AtDpcLevel,
    /// Raise the caller to the dispatch level while taking the lock.
    RaiseToDpc,
}

/// How the lock is given back.
#[derive(Debug, Clone, Copy, PartialEq, Eq, Structural)]
pub enum Unlock {
    /// Give the lock back and leave the level as it is.
    FromDpcLevel,
    /// Give the lock back and put the caller back to this level.
    Restore(u8),
}

/// The tag that a guard carries: the level to go back to, or nothing if the
/// caller was elevated when it took the lock.
#[derive(Debug, Clone, Copy, PartialEq, Eq, Structural)]
pub struct SpinLockGuard {
    pub old_irql: Option<u8>,
}

/// How a caller at level `irql` takes the lock.
pub open spec fn acquire_at(irql: u8) -> Acquire {
    if irql >= DISPATCH_LEVEL {
        Acquire::AtDpcLevel
    } else {
        Acquire::RaiseToDpc
    }
}

/// Decides how a caller that runs at level `irql` takes the lock.
pub fn acquire(irql: u8) -> (step: Acquire)
    ensures
        step == acquire_at(irql),
{
    if irql >= DISPATCH_LEVEL {
        Acquire::AtDpcLevel
    } else {
        Acquire::RaiseToDpc
    }
}

impl SpinLockGuard {
    /// The guard of a lock that was taken as `step` says, where raising the
    /// level reported `previous` as the level before.
    pub open spec fn tagged(step: Acquire, previous: u8) -> Self {
        match step {
            Acquire::AtDpcLevel => SpinLockGuard { old_irql: None },
            Acquire::RaiseToDpc => SpinLockGuard { old_irql: Some(previous) },
        }
    }

    /// How a lock with this guard is given back.
    pub open spec fn unlock(self) -> Unlock {
        match self.old_irql {
            Some(irql) => Unlock::Restore(irql),
            None => Unlock::FromDpcLevel,
        }
    }

    /// Builds the guard once the lock was taken.
    pub fn new(step: Acquire, previous: u8) -> (guard: Self)
        ensures
            guard == Self::tagged(step, previous),
    {
        match step {
            Acquire::AtDpcLevel => SpinLockGuard { old_irql: None },
            Acquire::RaiseToDpc => SpinLockGuard { old_irql: Some(previous) },
        }
    }

    /// Decides how the lock is given back when the guard goes away.
    pub fn release(&self) -> (step: Unlock)
        ensures
            step == self.unlock(),
    {
        match self.old_irql {
            Some(irql) => Unlock::Restore(irql),
            None => Unlock::FromDpcLevel,
        }
    }
}

/// A caller below the dispatch level is put back to its own level by the
/// release, and a caller at or above it is never lowered.
pub proof fn lemma_release_restores_level(irql: u8)
    ensures
        irql < DISPATCH_LEVEL ==> SpinLockGuard::tagged(acquire_at(irql), irql).unlock()
            == Unlock::Restore(irql),
        irql >= DISPATCH_LEVEL ==> SpinLockGuard::tagged(acquire_at(irql), irql).unlock()
            == Unlock::FromDpcLevel,
{
}

} // verus!
