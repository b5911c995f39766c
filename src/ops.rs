use vstd::prelude::*;

use crate::error::WofsError;
use crate::lifecycle::WofsModule;
use crate::sink::{DiscardSink, Phase};

verus! {

/// What a writer through either front-end is told: the full length while
/// the module runs, and `SinkUnavailable` otherwise.
pub open spec fn write_outcome(phase: Phase, input: Seq<u8>) -> Result<usize, WofsError> {
    if phase == Phase::Running {
        Ok(input.len() as usize)
    } else {
        Err(WofsError::SinkUnavailable)
    }
}

/// The standalone device. It keeps no state per session.
pub struct WofsDevice;

impl WofsDevice {
    pub fn open(&self) -> (r: Result<(), WofsError>)
        ensures
            r == Ok::<(), WofsError>(()),
    {
        Ok(())
    }

    /// Forwards `input` to the module's sink; the offset means nothing to a
    /// stream and is ignored.
    pub fn write<S: DiscardSink>(
        &self,
        module: &WofsModule<S>,
        input: &[u8],
        _offset: u64,
    ) -> (r: Result<usize, WofsError>)
        ensures
            r == write_outcome(module.phase(), input@),
    {
        module.sink().write(input)
    }
}

/// The operations of a fabricated regular file.
pub struct WofsFileOps;

impl WofsFileOps {
    pub fn open(&self) -> (r: Result<(), WofsError>)
        ensures
            r == Ok::<(), WofsError>(()),
    {
        Ok(())
    }

    /// Forwards `input` to the module's sink, as the device does.
    pub fn write<S: DiscardSink>(
        &self,
        module: &WofsModule<S>,
        input: &[u8],
        _offset: u64,
    ) -> (r: Result<usize, WofsError>)
        ensures
            r == write_outcome(module.phase(), input@),
    {
        module.sink().write(input)
    }
}

} // verus!
