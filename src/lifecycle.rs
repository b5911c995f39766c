use vstd::prelude::*;

use crate::error::{SinkFault, WofsError};
use crate::handle::SinkHandle;
use crate::namespace::WofsFileSystem;
use crate::sink::{DiscardSink, Phase, SinkSlot};

verus! {

/// The context of one running file system: the shared sink handle and the
/// file system type. It is made once at start-up and stopped once.
pub struct WofsModule<S> {
    sink: SinkHandle<S>,
    fs: WofsFileSystem,
}

impl<S: DiscardSink> WofsModule<S> {
    /// Where the module stands: running from start-up until `stop`.
    pub closed spec fn phase(&self) -> Phase {
        self.sink.phase()
    }

    /// Start-up, given the outcome of opening the discard target: a target
    /// that could not be opened fails the whole start-up.
    pub fn init(opened: Result<S, SinkFault>) -> (r: Result<Self, WofsError>)
        ensures
            r is Ok <==> opened is Ok,
            r is Ok ==> r->Ok_0.phase() == Phase::Running,
            r is Err ==> r == Err::<Self, WofsError>(WofsError::SinkUnavailable),
    {
        match opened {
            Ok(stream) => {
                let mut slot = SinkSlot::new();
                slot.attach(stream);
                Ok(WofsModule { sink: SinkHandle::new(slot), fs: WofsFileSystem })
            },
            Err(_) => Err(WofsError::SinkUnavailable),
        }
    }

    /// The sink handle that every writer shares.
    pub fn sink(&self) -> (r: &SinkHandle<S>)
        ensures
            r.phase() == self.phase(),
    {
        &self.sink
    }

    /// The file system type to register with the host.
    pub fn file_system(&self) -> &WofsFileSystem {
        &self.fs
    }

    /// Shutdown: releases the sink once no writer holds the module; it is
    /// never attached again.
    pub fn stop(&mut self)
        ensures
            final(self).phase() == Phase::Stopped,
    {
        self.sink.release();
    }
}

} // verus!
