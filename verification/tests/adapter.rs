//! The non-blocking handle: classification, readiness caching, byte-stream
//! semantics, duplication and deregistration.

use serial_adapter::outcome::classify_read;
use serial_adapter::outcome::classify_write;
use serial_adapter::Async;
use serial_adapter::FlowControl;
use serial_adapter::OpenError;
use serial_adapter::Parity;
use serial_adapter::PortSettings;
use serial_adapter::RawResult;
use serial_adapter::ReadOutcome;
use serial_adapter::Readiness;
use serial_adapter::ScriptPort;
use serial_adapter::Scheduler;
use serial_adapter::SerialPort;
use serial_adapter::Step;

fn loopback_settings() -> PortSettings {
    PortSettings {
        baud_rate: 115200,
        char_size: 8,
        parity: Parity::ParityNone,
        stop_bits: 1,
        flow_control: FlowControl::FlowNone,
    }
}

fn open(sched: &mut Scheduler) -> SerialPort {
    SerialPort::open_with_settings("/dev/ttyUSB0", &loopback_settings(), sched).unwrap()
}

#[test]
fn classification_taxonomy() {
    assert_eq!(classify_read(RawResult::Transferred(3)), Step::Success(3));
    assert_eq!(classify_read(RawResult::WouldBlock), Step::NotReady);
    assert_eq!(classify_read(RawResult::TimedOut(110)), Step::RetryTimeout);
    assert_eq!(classify_read(RawResult::Failed(5)), Step::FatalError(5));

    assert_eq!(classify_write(RawResult::Transferred(3)), Step::Success(3));
    assert_eq!(classify_write(RawResult::WouldBlock), Step::NotReady);
    assert_eq!(classify_write(RawResult::TimedOut(110)), Step::FatalError(110));
    assert_eq!(classify_write(RawResult::Failed(5)), Step::FatalError(5));
}

#[test]
fn open_rejects_unsupported_settings() {
    let mut sched = Scheduler::new(8);
    let mut s = loopback_settings();
    s.char_size = 9;
    assert!(matches!(
        SerialPort::open_with_settings("/dev/ttyUSB0", &s, &mut sched),
        Err(OpenError::UnsupportedSettings)
    ));
    let mut s = loopback_settings();
    s.stop_bits = 3;
    assert!(matches!(
        SerialPort::open_with_settings("/dev/ttyUSB0", &s, &mut sched),
        Err(OpenError::UnsupportedSettings)
    ));
    let mut s = loopback_settings();
    s.baud_rate = 0;
    assert!(matches!(
        SerialPort::open_with_settings("/dev/ttyUSB0", &s, &mut sched),
        Err(OpenError::UnsupportedSettings)
    ));
}

#[test]
fn open_rejects_an_empty_device_path() {
    let mut sched = Scheduler::new(8);
    assert!(matches!(
        SerialPort::open_with_settings("", &loopback_settings(), &mut sched),
        Err(OpenError::InvalidPath)
    ));
}

#[test]
fn open_fails_when_registry_is_full() {
    let mut sched = Scheduler::new(0);
    assert!(matches!(
        SerialPort::open_with_settings("/dev/ttyUSB0", &loopback_settings(), &mut sched),
        Err(OpenError::Registration)
    ));
}

#[test]
fn would_block_read_is_immediate() {
    let mut sched = Scheduler::new(8);
    let mut h = open(&mut sched);
    let mut port = ScriptPort::new(64);
    port.push_block();

    assert_eq!(port.attempts(), 0);
    assert_eq!(h.read(&mut port), ReadOutcome::NotReady);
    assert_eq!(port.attempts(), 1);
    assert_eq!(h.poll_read(), Async::NotReady);

    // an exhausted script keeps reporting would-block, one attempt per call
    assert_eq!(h.read(&mut port), ReadOutcome::NotReady);
    assert_eq!(port.attempts(), 2);
}

#[test]
fn spurious_timeouts_are_absorbed() {
    let mut sched = Scheduler::new(8);
    let mut h = open(&mut sched);
    let mut port = ScriptPort::new(64);
    port.push_timeout(110);
    port.push_timeout(110);
    port.push_timeout(110);
    port.push_data(b"abc".to_vec());

    // three spurious timeouts, then data: one call, four raw attempts
    assert_eq!(h.read(&mut port), ReadOutcome::Success(b"abc".to_vec()));
    assert_eq!(port.attempts(), 4);
    assert_eq!(h.poll_read(), Async::Ready);
}

#[test]
fn fatal_error_passes_through_unchanged() {
    let mut sched = Scheduler::new(8);
    let mut h = open(&mut sched);
    let mut port = ScriptPort::new(64);
    port.push_fault(5);
    assert_eq!(h.read(&mut port), ReadOutcome::Fatal(5));
}

#[test]
fn zero_length_read_is_not_an_error() {
    let mut sched = Scheduler::new(8);
    let mut h = open(&mut sched);
    let mut port = ScriptPort::new(64);
    port.push_data(Vec::new());
    assert_eq!(h.read(&mut port), ReadOutcome::Success(Vec::new()));
}

#[test]
fn stream_round_trip() {
    let mut sched = Scheduler::new(8);
    let mut h = open(&mut sched);
    let mut port = ScriptPort::new(1024);

    let chunks: [&[u8]; 3] = [b"serial ", b"port ", b"bytes"];
    let mut written: Vec<u8> = Vec::new();
    for c in chunks.iter() {
        let r = h.write(&mut port, &c.to_vec());
        assert_eq!(r, Step::Success(c.len()));
        written.extend_from_slice(c);
    }

    let mut read_back: Vec<u8> = Vec::new();
    loop {
        match h.read(&mut port) {
            ReadOutcome::Success(d) => read_back.extend_from_slice(&d),
            ReadOutcome::NotReady => break,
            ReadOutcome::Fatal(code) => panic!("unexpected fatal code {}", code),
        }
    }
    assert_eq!(read_back, written);
    assert_eq!(port.pending_len(), 0);
}

#[test]
fn partial_write_reports_accepted_count() {
    let mut sched = Scheduler::new(8);
    let mut h = open(&mut sched);
    let mut port = ScriptPort::new(4);

    assert_eq!(h.write(&mut port, &b"123456".to_vec()), Step::Success(4));
    assert_eq!(port.pending_len(), 4);
    assert_eq!(h.poll_write(), Async::Ready);

    // the buffer is now full: a genuine not-ready, and the cache clears
    assert_eq!(h.write(&mut port, &b"56".to_vec()), Step::NotReady);
    assert_eq!(h.poll_write(), Async::NotReady);

    // draining the buffer makes room again
    assert_eq!(h.read(&mut port), ReadOutcome::Success(b"1234".to_vec()));
    assert_eq!(h.write(&mut port, &b"56".to_vec()), Step::Success(2));
    assert_eq!(h.read(&mut port), ReadOutcome::Success(b"56".to_vec()));
}

#[test]
fn flush_succeeds_at_once() {
    let mut sched = Scheduler::new(8);
    let mut h = open(&mut sched);
    assert_eq!(h.flush(), Step::Success(0));
}

#[test]
fn duplicate_handles_are_independent() {
    let mut sched = Scheduler::new(8);
    let writer = open(&mut sched);
    let reader = writer.try_clone(&mut sched).unwrap();
    assert_ne!(writer.token(), reader.token());
    assert!(sched.poll_source(writer.token()).is_some());
    assert!(sched.poll_source(reader.token()).is_some());

    // both duplicates drive the same device, each keeping byte order
    let mut writer = writer;
    let mut reader = reader;
    let mut port = ScriptPort::new(64);
    assert_eq!(writer.write(&mut port, &b"ab".to_vec()), Step::Success(2));
    assert_eq!(writer.write(&mut port, &b"cd".to_vec()), Step::Success(2));
    assert_eq!(reader.read(&mut port), ReadOutcome::Success(b"ab".to_vec()));
    assert_eq!(reader.write(&mut port, &b"ef".to_vec()), Step::Success(2));
    assert_eq!(reader.read(&mut port), ReadOutcome::Success(b"cd".to_vec()));
    assert_eq!(writer.read(&mut port), ReadOutcome::Success(b"ef".to_vec()));
}

#[test]
fn close_deregisters_the_token() {
    let mut sched = Scheduler::new(8);
    let h = open(&mut sched);
    let token = h.token();
    sched.notify(token, true, true);
    assert_eq!(
        sched.poll_source(token).map(|st| (st.read_ready, st.write_ready)),
        Some((true, true))
    );

    // after the handle is dropped, the poll reports nothing, never stale
    // readiness
    h.close(&mut sched);
    assert!(sched.poll_source(token).is_none());

    // and an unrelated handle is untouched
    let other = open(&mut sched);
    assert!(sched.poll_source(other.token()).is_some());
}

#[test]
fn readiness_cache_transitions() {
    let mut sched = Scheduler::new(8);
    let mut h = open(&mut sched);
    let mut port = ScriptPort::new(64);

    // unknown readiness answers Ready: the caller must attempt to find out
    assert_eq!(h.poll_read(), Async::Ready);
    assert_eq!(h.poll_write(), Async::Ready);

    // a would-block clears the read cache
    assert_eq!(h.read(&mut port), ReadOutcome::NotReady);
    assert_eq!(h.poll_read(), Async::NotReady);

    // the explicit re-arming transition: a scheduler event arms it again
    sched.notify(h.token(), true, false);
    h.absorb_events(&mut sched);
    assert_eq!(h.poll_read(), Async::Ready);
    assert_eq!(h.adapter.read_state, Readiness::Armed);

    // the event was consumed: absorbing again does not re-arm
    assert_eq!(h.read(&mut port), ReadOutcome::NotReady);
    h.absorb_events(&mut sched);
    assert_eq!(h.poll_read(), Async::NotReady);
}
