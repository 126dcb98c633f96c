//! The task-level drivers: draining reads, partial writes, yielding and
//! completion, including the loopback scenario with a duplicate handle.

use serial_adapter::Async;
use serial_adapter::DriverPoll;
use serial_adapter::FlowControl;
use serial_adapter::Parity;
use serial_adapter::PortSettings;
use serial_adapter::ReadDriver;
use serial_adapter::ScriptPort;
use serial_adapter::Scheduler;
use serial_adapter::SerialPort;
use serial_adapter::WriteDriver;

fn loopback_open(sched: &mut Scheduler) -> SerialPort {
    let settings = PortSettings {
        baud_rate: 115200,
        char_size: 8,
        parity: Parity::ParityNone,
        stop_bits: 1,
        flow_control: FlowControl::FlowNone,
    };
    SerialPort::open_with_settings("/dev/ttyUSB0", &settings, sched).unwrap()
}

#[test]
fn starved_reader_never_completes_and_never_spins() {
    let mut sched = Scheduler::new(8);
    let mut h = loopback_open(&mut sched);
    let mut port = ScriptPort::new(64);
    let mut task = ReadDriver::new();

    for round in 0..10 {
        let before = port.attempts();
        assert_eq!(task.poll(&mut h, &mut port), DriverPoll::Pending);
        // exactly one raw attempt per invocation: the task yields instead
        // of busy-spinning
        assert_eq!(port.attempts(), before + 1);
        assert!(task.collected.is_empty(), "round {}", round);
        assert_eq!(h.poll_read(), Async::NotReady);
    }
}

#[test]
fn reader_drains_available_data_before_yielding() {
    let mut sched = Scheduler::new(8);
    let mut h = loopback_open(&mut sched);
    let mut port = ScriptPort::new(64);
    port.push_data(b"ab".to_vec());
    port.push_timeout(110);
    port.push_data(b"cd".to_vec());
    port.push_block();
    port.push_data(b"ef".to_vec());

    let mut task = ReadDriver::new();
    // first invocation: both chunks before the would-block, timeout absorbed
    assert_eq!(task.poll(&mut h, &mut port), DriverPoll::Pending);
    assert_eq!(task.collected, b"abcd".to_vec());
    assert_eq!(port.attempts(), 4);
    assert_eq!(port.script_len(), 1);

    // second invocation: the rest, then the exhausted script yields again
    assert_eq!(task.poll(&mut h, &mut port), DriverPoll::Pending);
    assert_eq!(task.collected, b"abcdef".to_vec());
}

#[test]
fn reader_completes_on_fatal_error() {
    let mut sched = Scheduler::new(8);
    let mut h = loopback_open(&mut sched);
    let mut port = ScriptPort::new(64);
    port.push_data(b"x".to_vec());
    port.push_fault(9);

    let mut task = ReadDriver::new();
    assert_eq!(task.poll(&mut h, &mut port), DriverPoll::Complete(Err(9)));
    assert_eq!(task.collected, b"x".to_vec());
}

#[test]
fn writer_completes_when_the_buffer_allows() {
    let mut sched = Scheduler::new(8);
    let mut h = loopback_open(&mut sched);
    let mut port = ScriptPort::new(16);

    let mut task = WriteDriver::new(b"hello".to_vec());
    assert_eq!(task.poll(&mut h, &mut port), DriverPoll::Complete(Ok(5)));
    assert_eq!(port.pending_len(), 5);

    let mut reader = ReadDriver::new();
    assert_eq!(reader.poll(&mut h, &mut port), DriverPoll::Pending);
    assert_eq!(reader.collected, b"hello".to_vec());
}

#[test]
fn writer_yields_on_a_full_buffer_and_resumes() {
    let mut sched = Scheduler::new(8);
    let mut h = loopback_open(&mut sched);
    let mut port = ScriptPort::new(3);

    let mut task = WriteDriver::new(b"abcdef".to_vec());
    // the device accepts three bytes, the retry meets the full buffer, and
    // the task yields with the write cache cleared
    assert_eq!(task.poll(&mut h, &mut port), DriverPoll::Pending);
    assert_eq!(task.written, 3);
    assert_eq!(h.poll_write(), Async::NotReady);

    // draining the device makes room; the next invocation finishes
    let mut reader = ReadDriver::new();
    assert_eq!(reader.poll(&mut h, &mut port), DriverPoll::Pending);
    assert_eq!(reader.collected, b"abc".to_vec());
    assert_eq!(task.poll(&mut h, &mut port), DriverPoll::Complete(Ok(6)));
    assert_eq!(reader.poll(&mut h, &mut port), DriverPoll::Pending);
    assert_eq!(reader.collected, b"abcdef".to_vec());
}

#[test]
fn writer_with_nothing_to_write_completes_at_once() {
    let mut sched = Scheduler::new(8);
    let mut h = loopback_open(&mut sched);
    let mut port = ScriptPort::new(16);
    let mut task = WriteDriver::new(Vec::new());
    assert_eq!(task.poll(&mut h, &mut port), DriverPoll::Complete(Ok(0)));
}

#[test]
fn loopback_write_and_concurrent_read_on_duplicate() {
    // the loopback scenario: 115200 baud, 8 data bits, no parity, one stop
    // bit, no flow control; one duplicate writes "1234", the other reads it
    let mut sched = Scheduler::new(8);
    let mut writer_handle = loopback_open(&mut sched);
    let mut reader_handle = writer_handle.try_clone(&mut sched).unwrap();
    let mut port = ScriptPort::new(64);

    let mut write_task = WriteDriver::new(b"1234".to_vec());
    let mut read_task = ReadDriver::new();

    // the read side polled first finds nothing yet and suspends
    assert_eq!(read_task.poll(&mut reader_handle, &mut port), DriverPoll::Pending);

    // the write side transfers more than zero bytes and completes
    assert_eq!(write_task.poll(&mut writer_handle, &mut port), DriverPoll::Complete(Ok(4)));

    // re-woken within a bounded number of invocations — long before any
    // 5000-millisecond timer would fire — the read side gets exactly the
    // written bytes: the race completes on the data arm
    let mut woken = false;
    for _ in 0..5 {
        read_task.poll(&mut reader_handle, &mut port);
        if read_task.collected == b"1234".to_vec() {
            woken = true;
            break;
        }
    }
    assert!(woken);
    assert_eq!(read_task.collected, b"1234".to_vec());
}
