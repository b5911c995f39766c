use vstd::prelude::*;

use crate::error::{SinkFault, WofsError};

verus! {

/// A writable stream whose bytes are thrown away.
///
/// Nothing is assumed about what `write_all` does: its outcome is ignored.
pub trait DiscardSink {
    fn write_all(&mut self, bytes: &[u8]) -> Result<(), SinkFault>;
}

/// Where a sink slot stands in its single-shot life.
#[derive(Clone, Copy, Debug, PartialEq, Eq, Structural)]
pub enum Phase {
    Uninitialized,
    Running,
    Stopped,
}

/// The optional stream to the discard target, with its lifecycle.
pub struct SinkSlot<S> {
    stream: Option<S>,
    phase: Phase,
    /// The payloads handed to the stream, in order, one entry per write.
    forwarded: Ghost<Seq<Seq<u8>>>,
}

impl<S> SinkSlot<S> {
    pub closed spec fn phase(&self) -> Phase {
        self.phase
    }

    pub closed spec fn forwarded(&self) -> Seq<Seq<u8>> {
        self.forwarded@
    }

    /// A stream is held exactly while the slot is running.
    pub closed spec fn wf(&self) -> bool {
        self.stream.is_some() <==> self.phase == Phase::Running
    }

    /// An empty slot, as at start of the process.
    pub fn new() -> (r: Self)
        ensures
            r.wf(),
            r.phase() == Phase::Uninitialized,
            r.forwarded() == Seq::<Seq<u8>>::empty(),
    {
        SinkSlot { stream: None, phase: Phase::Uninitialized, forwarded: Ghost(Seq::empty()) }
    }

    /// Attaches the opened stream; a slot is populated at most once.
    pub fn attach(&mut self, stream: S)
        requires
            old(self).wf(),
            old(self).phase() == Phase::Uninitialized,
        ensures
            final(self).wf(),
            final(self).phase() == Phase::Running,
            final(self).forwarded() == old(self).forwarded(),
    {
        self.stream = Some(stream);
        self.phase = Phase::Running;
    }

    /// Drops the stream for good. Releasing a slot that was never attached
    /// also leaves it stopped.
    pub fn release(&mut self)
        requires
            old(self).wf(),
        ensures
            release_step(*old(self), *final(self)),
    {
        self.stream = None;
        self.phase = Phase::Stopped;
    }

    /// Whether writes are currently accepted.
    pub fn is_running(&self) -> (r: bool)
        ensures
            r == (self.phase() == Phase::Running),
    {
        match self.phase {
            Phase::Running => true,
            _ => false,
        }
    }
}

/// The effect of `release`: the slot is stopped and keeps its record.
pub open spec fn release_step<S>(pre: SinkSlot<S>, post: SinkSlot<S>) -> bool {
    &&& post.wf()
    &&& post.phase() == Phase::Stopped
    &&& post.forwarded() == pre.forwarded()
}

/// The effect of one write on a slot, and what the writer is told.
///
/// While running, the whole input is handed to the stream in one piece and
/// its full length is reported; otherwise nothing changes and the sink is
/// reported unavailable.
pub open spec fn forward_step<S>(
    pre: SinkSlot<S>,
    post: SinkSlot<S>,
    input: Seq<u8>,
    r: Result<usize, WofsError>,
) -> bool {
    &&& post.wf()
    &&& post.phase() == pre.phase()
    &&& if pre.phase() == Phase::Running {
        &&& r == Ok::<usize, WofsError>(input.len() as usize)
        &&& post.forwarded() == pre.forwarded().push(input)
    } else {
        &&& r == Err::<usize, WofsError>(WofsError::SinkUnavailable)
        &&& post.forwarded() == pre.forwarded()
    }
}

/// Hands `input` to the slot's stream, ignores how that went, and reports
/// the full length; fails only when no stream is attached.
pub fn forward<S: DiscardSink>(slot: &mut SinkSlot<S>, input: &[u8]) -> (r: Result<
    usize,
    WofsError,
>)
    requires
        old(slot).wf(),
    ensures
        forward_step(*old(slot), *final(slot), input@, r),
{
    match &mut slot.stream {
        Some(stream) => {
            let _ = stream.write_all(input);
            slot.forwarded = Ghost(slot.forwarded@.push(input@));
            Ok(input.len())
        },
        None => Err(WofsError::SinkUnavailable),
    }
}

/// The number of bytes in all of `payloads` together.
pub open spec fn total_len(payloads: Seq<Seq<u8>>) -> nat
    decreases payloads.len(),
{
    if payloads.len() == 0 {
        0
    } else {
        total_len(payloads.drop_last()) + payloads.last().len()
    }
}

/// The byte counts that a sequence of writes reported, added up; a failed
/// write counts for nothing.
pub open spec fn reported_total(results: Seq<Result<usize, WofsError>>) -> int
    decreases results.len(),
{
    if results.len() == 0 {
        0
    } else {
        reported_total(results.drop_last()) + match results.last() {
            Ok(n) => n as int,
            Err(_) => 0int,
        }
    }
}

/// Once a slot is released, a write on it is refused with `SinkUnavailable`
/// and leaves nothing in the record of forwarded payloads.
pub proof fn lemma_write_after_release<S>(
    s0: SinkSlot<S>,
    s1: SinkSlot<S>,
    s2: SinkSlot<S>,
    input: Seq<u8>,
    r: Result<usize, WofsError>,
)
    requires
        release_step(s0, s1),
        forward_step(s1, s2, input, r),
    ensures
        r == Err::<usize, WofsError>(WofsError::SinkUnavailable),
        s2.phase() == Phase::Stopped,
        s2.forwarded() == s0.forwarded(),
{
}

/// Writes that the slot's lock puts one after another, on a running slot,
/// each report their own full length, together report the length of all
/// payloads, and hand each payload to the stream whole and in that order.
pub proof fn lemma_serialized_writes<S>(
    slots: Seq<SinkSlot<S>>,
    payloads: Seq<Seq<u8>>,
    results: Seq<Result<usize, WofsError>>,
)
    requires
        slots.len() == payloads.len() + 1,
        results.len() == payloads.len(),
        slots[0].phase() == Phase::Running,
        forall|i: int| 0 <= i < payloads.len() ==> #[trigger] payloads[i].len() <= usize::MAX,
        forall|i: int|
            0 <= i < payloads.len() ==> forward_step(
                #[trigger] slots[i],
                slots[i + 1],
                payloads[i],
                results[i],
            ),
    ensures
        forall|i: int|
            0 <= i < results.len() ==> #[trigger] results[i] == Ok::<usize, WofsError>(
                payloads[i].len() as usize,
            ),
        reported_total(results) == total_len(payloads),
        slots.last().forwarded() == slots[0].forwarded() + payloads,
        slots.last().phase() == Phase::Running,
    decreases payloads.len(),
{
    let n = payloads.len();
    if n > 0 {
        let ps = payloads.drop_last();
        let rs = results.drop_last();
        let ss = slots.drop_last();
        assert forall|i: int| 0 <= i < ps.len() implies #[trigger] ps[i].len() <= usize::MAX by {
            assert(ps[i] == payloads[i]);
        }
        assert forall|i: int| 0 <= i < ps.len() implies forward_step(
            #[trigger] ss[i],
            ss[i + 1],
            ps[i],
            rs[i],
        ) by {
            assert(ss[i] == slots[i] && ss[i + 1] == slots[i + 1]);
            assert(ps[i] == payloads[i] && rs[i] == results[i]);
        }
        lemma_serialized_writes(ss, ps, rs);
        let last = n - 1;
        assert(forward_step(slots[last], slots[last + 1], payloads[last], results[last]));
        assert(ss.last() == slots[last]);
        assert forall|i: int| 0 <= i < results.len() implies #[trigger] results[i] == Ok::<
            usize,
            WofsError,
        >(payloads[i].len() as usize) by {
            if i < last {
                assert(rs[i] == results[i] && ps[i] == payloads[i]);
            }
        }
        assert(slots[0].forwarded() + payloads =~= (slots[0].forwarded() + ps).push(
            payloads[last],
        ));
    }
}

} // verus!
