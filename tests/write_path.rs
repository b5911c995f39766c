use std::sync::{Arc, Mutex};

use wofs::{
    forward, DiscardSink, Phase, SinkFault, SinkSlot, WofsDevice, WofsError, WofsFileOps,
    WofsModule,
};

/// A sink that records each payload it is handed.
struct RecordingSink {
    chunks: Arc<Mutex<Vec<Vec<u8>>>>,
}

impl DiscardSink for RecordingSink {
    fn write_all(&mut self, bytes: &[u8]) -> Result<(), SinkFault> {
        self.chunks.lock().unwrap().push(bytes.to_vec());
        Ok(())
    }
}

/// A sink whose every write fails.
struct FailingSink {
    calls: Arc<Mutex<usize>>,
}

impl DiscardSink for FailingSink {
    fn write_all(&mut self, _bytes: &[u8]) -> Result<(), SinkFault> {
        *self.calls.lock().unwrap() += 1;
        Err(SinkFault)
    }
}

fn recording() -> (RecordingSink, Arc<Mutex<Vec<Vec<u8>>>>) {
    let chunks = Arc::new(Mutex::new(Vec::new()));
    (RecordingSink { chunks: chunks.clone() }, chunks)
}

#[test]
fn write_reports_full_length_while_running() {
    let (sink, chunks) = recording();
    let module = WofsModule::init(Ok(sink)).unwrap();
    let file = WofsFileOps;
    assert_eq!(file.write(&module, b"", 0), Ok(0));
    assert_eq!(file.write(&module, b"abc", 7), Ok(3));
    let big = vec![0x5au8; 4096];
    assert_eq!(file.write(&module, &big, 0), Ok(4096));
    let seen = chunks.lock().unwrap();
    assert_eq!(seen.len(), 3);
    assert_eq!(seen[1], b"abc".to_vec());
    assert_eq!(seen[2], big);
}

#[test]
fn sink_failure_is_swallowed() {
    let calls = Arc::new(Mutex::new(0usize));
    let module = WofsModule::init(Ok(FailingSink { calls: calls.clone() })).unwrap();
    let dev = WofsDevice;
    assert_eq!(dev.write(&module, b"lost bytes", 0), Ok(10));
    assert_eq!(dev.write(&module, b"", 0), Ok(0));
    assert_eq!(*calls.lock().unwrap(), 2);
}

#[test]
fn writes_after_stop_are_refused() {
    let (sink, chunks) = recording();
    let mut module = WofsModule::init(Ok(sink)).unwrap();
    let dev = WofsDevice;
    assert_eq!(dev.write(&module, b"before", 0), Ok(6));
    module.stop();
    assert_eq!(dev.write(&module, b"after", 0), Err(WofsError::SinkUnavailable));
    assert_eq!(WofsFileOps.write(&module, b"", 0), Err(WofsError::SinkUnavailable));
    assert_eq!(chunks.lock().unwrap().len(), 1);
}

#[test]
fn failed_open_fails_start_up() {
    let r: Result<WofsModule<RecordingSink>, WofsError> = WofsModule::init(Err(SinkFault));
    assert!(matches!(r, Err(WofsError::SinkUnavailable)));
}

#[test]
fn device_and_file_open_succeed() {
    assert_eq!(WofsDevice.open(), Ok(()));
    assert_eq!(WofsFileOps.open(), Ok(()));
}

#[test]
fn slot_lifecycle() {
    let (sink, chunks) = recording();
    let mut slot = SinkSlot::new();
    assert!(!slot.is_running());
    assert_eq!(forward(&mut slot, b"x"), Err(WofsError::SinkUnavailable));
    slot.attach(sink);
    assert!(slot.is_running());
    assert_eq!(forward(&mut slot, b"hello"), Ok(5));
    slot.release();
    assert!(!slot.is_running());
    assert_eq!(forward(&mut slot, b"more"), Err(WofsError::SinkUnavailable));
    assert_eq!(*chunks.lock().unwrap(), vec![b"hello".to_vec()]);
    assert_ne!(Phase::Running, Phase::Stopped);
}

#[test]
fn interleaved_writers_each_see_full_length() {
    let (sink, chunks) = recording();
    let module = Arc::new(WofsModule::init(Ok(sink)).unwrap());
    let writers: Vec<Arc<WofsModule<RecordingSink>>> = (0..8).map(|_| module.clone()).collect();
    let mut reported = 0usize;
    let mut expected = 0usize;
    for k in 0..50usize {
        for (t, m) in writers.iter().enumerate() {
            let payload = vec![t as u8; 1 + (t * 50 + k) % 97];
            let n = WofsFileOps.write(m, &payload, 0).unwrap();
            assert_eq!(n, payload.len());
            reported += n;
            expected += payload.len();
        }
    }
    assert_eq!(reported, expected);
    let seen = chunks.lock().unwrap();
    assert_eq!(seen.len(), 400);
    for (i, chunk) in seen.iter().enumerate() {
        assert!(chunk.iter().all(|b| *b == (i % 8) as u8));
    }
    assert_eq!(seen.iter().map(|c| c.len()).sum::<usize>(), expected);
}
