//! The non-blocking port handle: a raw device wrapped in a readiness
//! adapter, with byte-stream read and write that never block.
//!
//! A read absorbs every spurious device timeout by retrying at once, so
//! the caller only ever sees data, a genuine not-ready signal, or a fatal
//! error with its original code. A write accepts what the device buffer
//! allows and reports it; bytes beyond that are the caller's to retry.
//! Each outcome updates the adapter's cached readiness explicitly.

use vstd::prelude::*;

use crate::device::chunk_of;
use crate::device::pending_bytes;
use crate::device::read_attempts;
use crate::device::read_consumed;
use crate::device::read_model;
use crate::device::ReadEvent;
use crate::device::ReadModel;
use crate::device::ScriptPort;
use crate::outcome::classify_write;
use crate::outcome::Step;
use crate::readiness::poll_of;
use crate::readiness::Adapter;
use crate::readiness::Async;
use crate::readiness::Readiness;
use crate::sched::Scheduler;

verus! {

/// Parity of the serial line.
#[derive(Clone, Copy, PartialEq, Eq, Structural, Debug)]
pub enum Parity {
    ParityNone,
    ParityOdd,
    ParityEven,
}

/// Flow control of the serial line.
#[derive(Clone, Copy, PartialEq, Eq, Structural, Debug)]
pub enum FlowControl {
    FlowNone,
    FlowSoftware,
    FlowHardware,
}

/// The line settings a port is opened with.
#[derive(Clone, Copy, PartialEq, Eq, Structural, Debug)]
pub struct PortSettings {
    /// Bits per second, for example 115200.
    pub baud_rate: u32,
    /// Bits per character, 5 to 8.
    pub char_size: u8,
    /// Parity of the line.
    pub parity: Parity,
    /// Stop bits, 1 or 2.
    pub stop_bits: u8,
    /// Flow control of the line.
    pub flow_control: FlowControl,
}

/// The settings the device layer supports.
pub open spec fn settings_supported(s: PortSettings) -> bool {
    &&& s.baud_rate > 0
    &&& 5 <= s.char_size <= 8
    &&& (s.stop_bits == 1 || s.stop_bits == 2)
}

/// Why opening or duplicating a port failed.
#[derive(Clone, Copy, PartialEq, Eq, Structural, Debug)]
pub enum OpenError {
    /// The device identifier names no device; here, an empty path.
    InvalidPath,
    /// The device layer rejects this combination of line settings.
    UnsupportedSettings,
    /// The scheduler's event source rejected the registration.
    Registration,
}

/// What one read call on the handle returns.
#[derive(Debug, PartialEq, Eq)]
pub enum ReadOutcome {
    /// The call delivered exactly these bytes; an empty chunk is legal and
    /// means this attempt found no data without that being an error.
    Success(Vec<u8>),
    /// The device genuinely has no data; wait for read readiness.
    NotReady,
    /// A fatal device error with its original OS code.
    Fatal(i32),
}

impl View for ReadOutcome {
    type V = ReadModel;

    open spec fn view(&self) -> ReadModel {
        match self {
            ReadOutcome::Success(d) => ReadModel::Got(d@),
            ReadOutcome::NotReady => ReadModel::Blocked,
            ReadOutcome::Fatal(code) => ReadModel::Faulted(*code),
        }
    }
}

/// An open serial port handle: one readiness adapter around one raw
/// device, and the line settings it was opened with.
pub struct SerialPort {
    /// The readiness adapter owning this handle's registration.
    pub adapter: Adapter,
    /// The line settings the port was opened with.
    pub settings: PortSettings,
}

impl SerialPort {
    /// The registration token; the model's stand-in for the native
    /// descriptor a platform exposes for outside composition.
    pub fn token(&self) -> (t: usize)
        ensures
            t == self.adapter.token,
    {
        self.adapter.token
    }

    /// Opens the port named by `port_name` with the given line settings
    /// and enrolls it with the scheduler. Fails with `InvalidPath` exactly
    /// when the name is empty, with `UnsupportedSettings` exactly when the
    /// device layer rejects the settings, and with `Registration` exactly
    /// when both pass but the scheduler's registry rejects the
    /// registration; the scheduler is untouched on every failure.
    pub fn open_with_settings(port_name: &str, settings: &PortSettings, sched: &mut Scheduler) -> (r:
        Result<SerialPort, OpenError>)
        ensures
            final(sched).max_sources_of() == old(sched).max_sources_of(),
            port_name@.len() == 0 ==> {
                &&& r == Result::<SerialPort, OpenError>::Err(OpenError::InvalidPath)
                &&& final(sched).slots_of() == old(sched).slots_of()
            },
            port_name@.len() > 0 && !settings_supported(*settings) ==> {
                &&& r == Result::<SerialPort, OpenError>::Err(OpenError::UnsupportedSettings)
                &&& final(sched).slots_of() == old(sched).slots_of()
            },
            port_name@.len() > 0 && settings_supported(*settings) && old(
                sched,
            ).slots_of().len() >= old(sched).max_sources_of() ==> {
                &&& r == Result::<SerialPort, OpenError>::Err(OpenError::Registration)
                &&& final(sched).slots_of() == old(sched).slots_of()
            },
            port_name@.len() > 0 && settings_supported(*settings) && old(
                sched,
            ).slots_of().len() < old(sched).max_sources_of() ==> {
                &&& r is Ok
                &&& r->Ok_0.settings == *settings
                &&& r->Ok_0.adapter.token == old(sched).slots_of().len()
                &&& r->Ok_0.adapter.read_state == Readiness::Unknown
                &&& r->Ok_0.adapter.write_state == Readiness::Unknown
                &&& r->Ok_0.adapter.attached(*final(sched))
                &&& final(sched).slots_of().len() == old(sched).slots_of().len() + 1
                &&& forall|t: usize|
                    t != r->Ok_0.adapter.token ==> final(sched).registered(t) == old(
                        sched,
                    ).registered(t)
            },
    {
        if port_name.is_empty() {
            return Result::Err(OpenError::InvalidPath);
        }
        if !(settings.baud_rate > 0 && 5 <= settings.char_size && settings.char_size <= 8 && (
        settings.stop_bits == 1 || settings.stop_bits == 2)) {
            return Result::Err(OpenError::UnsupportedSettings);
        }
        match Adapter::register(sched) {
            Option::Some(adapter) => Result::Ok(SerialPort { adapter, settings: *settings }),
            Option::None => Result::Err(OpenError::Registration),
        }
    }

    /// Duplicates the handle: a fresh, independent registration around the
    /// same physical device, with the same line settings. Both handles can
    /// then be driven concurrently. Fails exactly when the scheduler's
    /// registry rejects the new registration.
    pub fn try_clone(&self, sched: &mut Scheduler) -> (r: Result<SerialPort, OpenError>)
        ensures
            final(sched).max_sources_of() == old(sched).max_sources_of(),
            old(sched).slots_of().len() >= old(sched).max_sources_of() ==> {
                &&& r == Result::<SerialPort, OpenError>::Err(OpenError::Registration)
                &&& final(sched).slots_of() == old(sched).slots_of()
            },
            old(sched).slots_of().len() < old(sched).max_sources_of() ==> {
                &&& r is Ok
                &&& r->Ok_0.settings == self.settings
                &&& r->Ok_0.adapter.token == old(sched).slots_of().len()
                &&& r->Ok_0.adapter.read_state == Readiness::Unknown
                &&& r->Ok_0.adapter.write_state == Readiness::Unknown
                &&& r->Ok_0.adapter.attached(*final(sched))
                &&& self.adapter.attached(*old(sched)) ==> r->Ok_0.adapter.token
                    != self.adapter.token
                &&& self.adapter.attached(*old(sched)) ==> self.adapter.attached(*final(sched))
                &&& forall|t: usize|
                    t != r->Ok_0.adapter.token ==> final(sched).registered(t) == old(
                        sched,
                    ).registered(t)
            },
    {
        match Adapter::register(sched) {
            Option::Some(adapter) => Result::Ok(SerialPort { adapter, settings: self.settings }),
            Option::None => Result::Err(OpenError::Registration),
        }
    }

    /// Whether this serial port is ready to be read, from the adapter's
    /// cache, without blocking.
    pub fn poll_read(&self) -> (r: Async)
        ensures
            r == poll_of(self.adapter.read_state),
    {
        self.adapter.poll_read_ready()
    }

    /// Whether this serial port is ready to be written, from the adapter's
    /// cache, without blocking.
    pub fn poll_write(&self) -> (r: Async)
        ensures
            r == poll_of(self.adapter.write_state),
    {
        self.adapter.poll_write_ready()
    }

    /// One byte-stream read. Spurious device timeouts are absorbed by
    /// immediate retries and never surface; the call returns exactly what
    /// the script resolves to: the next data chunk, the genuine not-ready
    /// signal (which also clears the cached read readiness), or a fatal
    /// error with its original code. Delivered bytes are appended, in
    /// device order, to the device's delivered history.
    pub fn read(&mut self, port: &mut ScriptPort) -> (r: ReadOutcome)
        requires
            old(port).wf(),
            old(port).attempts_of() + old(port).script().len() < usize::MAX,
        ensures
            final(port).wf(),
            final(port).capacity_of() == old(port).capacity_of(),
            r@ == read_model(old(port).script()),
            final(port).script() == old(port).script().skip(read_consumed(old(port).script()) as int),
            final(port).attempts_of() == old(port).attempts_of() + read_attempts(
                old(port).script(),
            ),
            final(port).fed() == old(port).fed(),
            final(port).delivered() == old(port).delivered() + (match read_model(
                old(port).script(),
            ) {
                ReadModel::Got(d) => d,
                _ => Seq::<u8>::empty(),
            }),
            final(self).settings == old(self).settings,
            final(self).adapter.token == old(self).adapter.token,
            final(self).adapter.write_state == old(self).adapter.write_state,
            final(self).adapter.read_state == (match read_model(old(port).script()) {
                ReadModel::Got(_) => Readiness::Armed,
                ReadModel::Blocked => Readiness::Cleared,
                ReadModel::Faulted(_) => old(self).adapter.read_state,
            }),
    {
        let ghost orig = port.script();
        let ghost done: int = 0;
        loop
            invariant
                port.wf(),
                port.capacity_of() == old(port).capacity_of(),
                port.fed() == old(port).fed(),
                port.delivered() == old(port).delivered(),
                self == old(self),
                orig == old(port).script(),
                0 <= done <= orig.len(),
                port.script() == orig.skip(done),
                read_model(orig) == read_model(port.script()),
                read_consumed(orig) == done + read_consumed(port.script()),
                read_attempts(orig) == port.attempts_of() - old(port).attempts_of()
                    + read_attempts(port.script()),
                port.attempts_of() + port.script().len() < usize::MAX,
            decreases port.script().len(),
        {
            let ghost before = port.script();
            let e = port.raw_read();
            match e {
                ReadEvent::Timeout(_) => {
                    proof {
                        done = done + 1;
                        assert(orig.skip(done - 1).skip(1) =~= orig.skip(done));
                        assert(old(port).delivered() + Seq::<u8>::empty() =~= old(
                            port,
                        ).delivered());
                    }
                },
                ReadEvent::Block => {
                    proof {
                        if before.len() > 0 {
                            assert(read_consumed(before) == 1);
                            assert(orig.skip(done).skip(1) =~= orig.skip(done + 1));
                        }
                        assert(old(port).delivered() + Seq::<u8>::empty() =~= old(
                            port,
                        ).delivered());
                    }
                    self.adapter.clear_read();
                    return ReadOutcome::NotReady;
                },
                ReadEvent::Data(d) => {
                    proof {
                        assert(before.len() > 0);
                        assert(chunk_of(before[0]) == d@);
                        assert(orig.skip(done).skip(1) =~= orig.skip(done + 1));
                    }
                    self.adapter.arm_read();
                    return ReadOutcome::Success(d);
                },
                ReadEvent::Fault(code) => {
                    proof {
                        assert(before.len() > 0);
                        assert(orig.skip(done).skip(1) =~= orig.skip(done + 1));
                        assert(old(port).delivered() + Seq::<u8>::empty() =~= old(
                            port,
                        ).delivered());
                    }
                    return ReadOutcome::Fatal(code);
                },
            }
        }
    }

    /// One byte-stream write: a single raw attempt, classified. The device
    /// accepts as many bytes as its buffer bound allows — never silently
    /// dropping any — and the call reports exactly how many; a full buffer
    /// is the genuine not-ready signal and clears the cached write
    /// readiness. Writes have no timeout-retry special case.
    pub fn write(&mut self, port: &mut ScriptPort, data: &Vec<u8>) -> (r: Step)
        requires
            old(port).wf(),
        ensures
            final(port).wf(),
            final(port).capacity_of() == old(port).capacity_of(),
            final(port).attempts_of() == old(port).attempts_of(),
            final(port).delivered() == old(port).delivered(),
            final(self).settings == old(self).settings,
            final(self).adapter.token == old(self).adapter.token,
            final(self).adapter.read_state == old(self).adapter.read_state,
            0 <= old(port).write_accepts(data@.len()) <= data@.len(),
            data@.len() == 0 ==> {
                &&& r == Step::Success(0)
                &&& final(port).script() == old(port).script()
                &&& final(port).fed() == old(port).fed()
                &&& final(self).adapter.write_state == Readiness::Armed
            },
            data@.len() > 0 && old(port).write_accepts(data@.len()) == 0 ==> {
                &&& r == Step::NotReady
                &&& final(port).script() == old(port).script()
                &&& final(port).fed() == old(port).fed()
                &&& final(self).adapter.write_state == Readiness::Cleared
            },
            data@.len() > 0 && old(port).write_accepts(data@.len()) > 0 ==> {
                let k = old(port).write_accepts(data@.len());
                &&& r == Step::Success(k as usize)
                &&& final(port).script().len() == old(port).script().len() + 1
                &&& final(port).script() == old(port).script().push(final(port).script().last())
                &&& final(port).script().last() is Data
                &&& chunk_of(final(port).script().last()) == data@.take(k)
                &&& final(port).fed() == old(port).fed() + data@.take(k)
                &&& pending_bytes(final(port).script()).len() == pending_bytes(
                    old(port).script(),
                ).len() + k
                &&& final(self).adapter.write_state == Readiness::Armed
            },
    {
        let raw = port.raw_write(data);
        proof {
            if data@.len() > 0 && old(port).write_accepts(data@.len()) > 0 {
                crate::device::lemma_pending_bytes_push(
                    old(port).script(),
                    port.script().last(),
                );
            }
        }
        match classify_write(raw) {
            Step::Success(n) => {
                self.adapter.arm_write();
                Step::Success(n)
            },
            Step::NotReady => {
                self.adapter.clear_write();
                Step::NotReady
            },
            s => {
                proof {
                    assert(false);
                }
                s
            },
        }
    }

    /// Flushes the handle. The modelled device keeps no hidden stage
    /// beyond its pending buffer, so a flush succeeds at once and changes
    /// nothing.
    pub fn flush(&mut self) -> (r: Step)
        ensures
            r == Step::Success(0),
            *final(self) == *old(self),
    {
        Step::Success(0)
    }

    /// The explicit re-arming transition: absorbs the readiness events the
    /// scheduler recorded for this handle's token.
    pub fn absorb_events(&mut self, sched: &mut Scheduler)
        requires
            old(self).adapter.attached(*old(sched)),
        ensures
            final(self).settings == old(self).settings,
            final(self).adapter.token == old(self).adapter.token,
            final(self).adapter.attached(*final(sched)),
            final(sched).max_sources_of() == old(sched).max_sources_of(),
            final(sched).slots_of().len() == old(sched).slots_of().len(),
            forall|t: usize|
                t != old(self).adapter.token ==> final(sched).lookup(t) == old(sched).lookup(t),
            final(sched).lookup(old(self).adapter.token)->Some_0.read_ready == false,
            final(sched).lookup(old(self).adapter.token)->Some_0.write_ready == false,
            final(self).adapter.read_state == if old(sched).lookup(
                old(self).adapter.token,
            )->Some_0.read_ready {
                Readiness::Armed
            } else {
                old(self).adapter.read_state
            },
            final(self).adapter.write_state == if old(sched).lookup(
                old(self).adapter.token,
            )->Some_0.write_ready {
                Readiness::Armed
            } else {
                old(self).adapter.write_state
            },
    {
        self.adapter.absorb_events(sched);
    }

    /// Closes the handle: its adapter's registration is dropped, so a
    /// later poll of its token reports nothing rather than stale
    /// readiness. The raw device itself is a separate value and lives on.
    pub fn close(self, sched: &mut Scheduler)
        requires
            self.adapter.attached(*old(sched)),
        ensures
            !final(sched).registered(self.adapter.token),
            final(sched).lookup(self.adapter.token) is None,
            final(sched).max_sources_of() == old(sched).max_sources_of(),
            final(sched).slots_of().len() == old(sched).slots_of().len(),
            forall|t: usize|
                t != self.adapter.token ==> final(sched).lookup(t) == old(sched).lookup(t),
    {
        self.adapter.deregister(sched);
    }
}

} // verus!
