use vstd::prelude::*;
use vstd::rwlock::{RwLock, RwLockPredicate};

use crate::error::WofsError;
use crate::sink::{forward, DiscardSink, Phase, SinkSlot};

verus! {

/// What the lock keeps true of the slot between holders: it is well formed
/// and stays in the phase the lock was made for.
pub struct SlotInPhase {
    pub phase: Phase,
}

impl<S> RwLockPredicate<SinkSlot<S>> for SlotInPhase {
    open spec fn inv(self, v: SinkSlot<S>) -> bool {
        v.wf() && v.phase() == self.phase
    }
}

/// The shared handle to the discard sink: a sink slot behind a lock, so
/// that concurrent writers take turns on the stream.
pub struct SinkHandle<S> {
    lock: RwLock<SinkSlot<S>, SlotInPhase>,
}

impl<S: DiscardSink> SinkHandle<S> {
    /// The phase of the slot behind the lock; only `release` changes it.
    pub closed spec fn phase(&self) -> Phase {
        self.lock.pred().phase
    }

    /// Puts `slot` behind the lock.
    pub fn new(slot: SinkSlot<S>) -> (r: Self)
        requires
            slot.wf(),
        ensures
            r.phase() == slot.phase(),
    {
        SinkHandle { lock: RwLock::new(slot, Ghost(SlotInPhase { phase: slot.phase() })) }
    }

    /// Forwards `input` while holding the lock: the full length while the
    /// sink is attached, whatever the stream made of it, else
    /// `SinkUnavailable`.
    pub fn write(&self, input: &[u8]) -> (r: Result<usize, WofsError>)
        ensures
            r == if self.phase() == Phase::Running {
                Ok::<usize, WofsError>(input@.len() as usize)
            } else {
                Err::<usize, WofsError>(WofsError::SinkUnavailable)
            },
    {
        let (mut slot, guard) = self.lock.acquire_write();
        let r = forward(&mut slot, input);
        guard.release_write(slot);
        r
    }

    /// Clears the stream for good. Taking the handle exclusively means no
    /// writer is in flight; every later writer sees `SinkUnavailable`.
    pub fn release(&mut self)
        ensures
            final(self).phase() == Phase::Stopped,
    {
        let mut slot = {
            let (slot, _guard) = self.lock.acquire_write();
            slot
        };
        slot.release();
        *self = SinkHandle::new(slot);
    }
}

} // verus!
