//! The task-level drivers: cooperative units that poll the handle, act on
//! the three possible outcomes — progress, not-ready, fatal error — and
//! either finish, retry within the same invocation, or yield back to the
//! scheduler.
//!
//! Readiness is edge-triggered, so the read driver drains every chunk the
//! device currently has before yielding; failing to do so could leave the
//! task never re-woken. The write driver retries the remaining slice after
//! a partial write within the same invocation, and yields only once the
//! device buffer is genuinely full.

use vstd::prelude::*;

use crate::device::copy_suffix;
use crate::device::read_attempts;
use crate::device::read_consumed;
use crate::device::read_model;
use crate::device::ReadEvent;
use crate::device::ScriptPort;
use crate::handle::ReadOutcome;
use crate::handle::SerialPort;
use crate::outcome::Step;
use crate::readiness::Readiness;

verus! {

/// What one scheduler invocation of a driver yields: suspend and wait to
/// be re-woken, or finish with the operation's result.
#[derive(Clone, Copy, PartialEq, Eq, Debug)]
pub enum DriverPoll {
    /// The device is not ready; the task yields back to the scheduler.
    Pending,
    /// The task finished: total bytes transferred, or a fatal OS code.
    Complete(Result<usize, i32>),
}

/// Ghost description of one read-driver invocation on a script: the bytes
/// it gathers, the events it consumes, the raw attempts it makes, and
/// whether it ends by yielding (no failure) or with a fatal code.
#[verifier::ext_equal]
pub struct DrainModel {
    /// The bytes gathered, in device order.
    pub gathered: Seq<u8>,
    /// How many script events the invocation consumes.
    pub consumed: nat,
    /// How many raw attempts the invocation makes.
    pub attempts: nat,
    /// The fatal code the invocation ends with, if any.
    pub failure: Option<i32>,
}

/// What one read-driver invocation does on this script: data chunks are
/// gathered and spurious timeouts absorbed until the device either
/// reports would-block (the driver yields) or fails (the driver completes
/// with the error).
pub open spec fn drain_model(s: Seq<ReadEvent>) -> DrainModel
    decreases s.len(),
{
    if s.len() == 0 {
        DrainModel { gathered: Seq::empty(), consumed: 0, attempts: 1, failure: Option::None }
    } else {
        match s[0] {
            ReadEvent::Block => DrainModel {
                gathered: Seq::empty(),
                consumed: 1,
                attempts: 1,
                failure: Option::None,
            },
            ReadEvent::Timeout(_) => {
                let r = drain_model(s.skip(1));
                DrainModel {
                    gathered: r.gathered,
                    consumed: 1 + r.consumed,
                    attempts: 1 + r.attempts,
                    failure: r.failure,
                }
            },
            ReadEvent::Data(d) => {
                let r = drain_model(s.skip(1));
                DrainModel {
                    gathered: d@ + r.gathered,
                    consumed: 1 + r.consumed,
                    attempts: 1 + r.attempts,
                    failure: r.failure,
                }
            },
            ReadEvent::Fault(code) => DrainModel {
                gathered: Seq::empty(),
                consumed: 1,
                attempts: 1,
                failure: Option::Some(code),
            },
        }
    }
}

/// How one read call relates to the drain of the same script: a blocked
/// or failed read is the whole drain, and a successful read contributes
/// its chunk and its consumed events to the front of the drain.
pub proof fn lemma_drain_after_read(s: Seq<ReadEvent>)
    ensures
        read_model(s) is Blocked ==> {
            &&& drain_model(s).gathered == Seq::<u8>::empty()
            &&& drain_model(s).consumed == read_consumed(s)
            &&& drain_model(s).attempts == read_attempts(s)
            &&& drain_model(s).failure is None
        },
        read_model(s) is Faulted ==> {
            &&& drain_model(s).gathered == Seq::<u8>::empty()
            &&& drain_model(s).consumed == read_consumed(s)
            &&& drain_model(s).attempts == read_attempts(s)
            &&& drain_model(s).failure == Option::Some(read_model(s)->Faulted_0)
            &&& read_attempts(s) == read_consumed(s)
        },
        read_model(s) is Got ==> {
            let rest = s.skip(read_consumed(s) as int);
            &&& drain_model(s).gathered == read_model(s)->Got_0 + drain_model(rest).gathered
            &&& drain_model(s).consumed == read_consumed(s) + drain_model(rest).consumed
            &&& drain_model(s).attempts == read_attempts(s) + drain_model(rest).attempts
            &&& drain_model(s).failure == drain_model(rest).failure
            &&& read_attempts(s) == read_consumed(s)
        },
    decreases s.len(),
{
    if s.len() == 0 {
    } else {
        match s[0] {
            ReadEvent::Timeout(_) => {
                lemma_drain_after_read(s.skip(1));
                if read_model(s) is Got {
                    crate::device::lemma_read_bounds(s.skip(1));
                    assert(s.skip(1).skip(read_consumed(s.skip(1)) as int) =~= s.skip(
                        read_consumed(s) as int,
                    ));
                }
            },
            ReadEvent::Data(d) => {
                assert(s.skip(read_consumed(s) as int) =~= s.skip(1));
            },
            _ => {},
        }
    }
}

/// A cooperative read task. Each scheduler invocation drains every chunk
/// the device currently has — readiness is edge-triggered, so yielding
/// with data still available could leave the task never re-woken — then
/// yields on the genuine not-ready signal, or completes with the fatal
/// error the device reported.
pub struct ReadDriver {
    /// Every byte the task has gathered, in device order.
    pub collected: Vec<u8>,
}

impl ReadDriver {
    /// A fresh read task that has gathered nothing yet.
    pub fn new() -> (d: ReadDriver)
        ensures
            d.collected@ == Seq::<u8>::empty(),
    {
        ReadDriver { collected: Vec::new() }
    }

    /// One scheduler invocation, as [`drain_model`] describes it: the
    /// gathered bytes are appended to `collected` in device order, and
    /// the result is `Pending` exactly when the drain ended on the
    /// genuine not-ready signal (the cached read readiness is then
    /// cleared, so the task suspends rather than busy-spins), and the
    /// fatal error otherwise.
    pub fn poll(&mut self, h: &mut SerialPort, port: &mut ScriptPort) -> (r: DriverPoll)
        requires
            old(port).wf(),
            old(port).attempts_of() + old(port).script().len() < usize::MAX,
        ensures
            final(port).wf(),
            final(port).capacity_of() == old(port).capacity_of(),
            final(port).fed() == old(port).fed(),
            ({
                let m = drain_model(old(port).script());
                &&& final(self).collected@ == old(self).collected@ + m.gathered
                &&& final(port).script() == old(port).script().skip(m.consumed as int)
                &&& final(port).attempts_of() == old(port).attempts_of() + m.attempts
                &&& final(port).delivered() == old(port).delivered() + m.gathered
                &&& r == (match m.failure {
                    Option::Some(code) => DriverPoll::Complete(Result::Err(code)),
                    Option::None => DriverPoll::Pending,
                })
                &&& m.failure is None ==> final(h).adapter.read_state == Readiness::Cleared
            }),
            final(h).settings == old(h).settings,
            final(h).adapter.token == old(h).adapter.token,
            final(h).adapter.write_state == old(h).adapter.write_state,
    {
        let ghost orig = port.script();
        let ghost done: int = 0;
        let ghost gathered: Seq<u8> = Seq::empty();
        proof {
            assert(old(self).collected@ + gathered =~= old(self).collected@);
            assert(old(port).delivered() + gathered =~= old(port).delivered());
        }
        loop
            invariant
                port.wf(),
                port.capacity_of() == old(port).capacity_of(),
                port.fed() == old(port).fed(),
                h.settings == old(h).settings,
                h.adapter.token == old(h).adapter.token,
                h.adapter.write_state == old(h).adapter.write_state,
                orig == old(port).script(),
                0 <= done <= orig.len(),
                port.script() == orig.skip(done),
                port.attempts_of() + port.script().len() < usize::MAX,
                self.collected@ == old(self).collected@ + gathered,
                port.delivered() == old(port).delivered() + gathered,
                drain_model(orig).gathered == gathered + drain_model(port.script()).gathered,
                drain_model(orig).consumed == done + drain_model(port.script()).consumed,
                drain_model(orig).attempts == port.attempts_of() - old(port).attempts_of()
                    + drain_model(port.script()).attempts,
                drain_model(orig).failure == drain_model(port.script()).failure,
            decreases port.script().len(),
        {
            let ghost before = port.script();
            proof {
                lemma_drain_after_read(before);
                crate::device::lemma_read_bounds(before);
            }
            match h.read(port) {
                ReadOutcome::Success(mut d) => {
                    let ghost dv = d@;
                    let ghost g0 = gathered;
                    self.collected.append(&mut d);
                    proof {
                        assert(read_model(before) is Got);
                        assert(read_consumed(before) >= 1);
                        assert(orig.skip(done).skip(read_consumed(before) as int) =~= orig.skip(
                            done + read_consumed(before),
                        ));
                        done = done + read_consumed(before) as int;
                        gathered = g0 + dv;
                        assert((old(self).collected@ + g0) + dv =~= old(self).collected@ + (g0
                            + dv));
                        assert((old(port).delivered() + g0) + dv =~= old(port).delivered() + (g0
                            + dv));
                        assert(g0 + (dv + drain_model(port.script()).gathered) =~= (g0 + dv)
                            + drain_model(port.script()).gathered);
                    }
                },
                ReadOutcome::NotReady => {
                    proof {
                        assert(read_model(before) is Blocked);
                        assert(orig.skip(done).skip(read_consumed(before) as int) =~= orig.skip(
                            done + read_consumed(before),
                        ));
                        assert(gathered + Seq::<u8>::empty() =~= gathered);
                    }
                    return DriverPoll::Pending;
                },
                ReadOutcome::Fatal(code) => {
                    proof {
                        assert(read_model(before) is Faulted);
                        assert(orig.skip(done).skip(read_consumed(before) as int) =~= orig.skip(
                            done + read_consumed(before),
                        ));
                        assert(gathered + Seq::<u8>::empty() =~= gathered);
                    }
                    return DriverPoll::Complete(Result::Err(code));
                },
            }
        }
    }
}

/// A reader driven against a device that only ever reports would-block
/// never completes and never busy-spins: each invocation makes exactly
/// one raw attempt, gathers nothing, yields back to the scheduler, and
/// leaves the script again reporting only would-block — so the same holds
/// of every later invocation.
pub proof fn starved_reader_only_yields(s: Seq<ReadEvent>)
    requires
        forall|i: int| 0 <= i < s.len() ==> s[i] is Block,
    ensures
        drain_model(s).failure is None,
        drain_model(s).gathered == Seq::<u8>::empty(),
        drain_model(s).attempts == 1,
        forall|i: int|
            0 <= i < s.skip(drain_model(s).consumed as int).len() ==> s.skip(
                drain_model(s).consumed as int,
            )[i] is Block,
{
    if s.len() > 0 {
        assert(s[0] is Block);
    }
    assert forall|i: int|
        0 <= i < s.skip(drain_model(s).consumed as int).len() implies s.skip(
        drain_model(s).consumed as int,
    )[i] is Block by {
        assert(s.skip(drain_model(s).consumed as int)[i] == s[i + drain_model(s).consumed]);
    }
}

/// A cooperative write task around one buffer of bytes. Each scheduler
/// invocation hands the device the remaining slice, retries the rest of a
/// partial write at once, and yields only when the device buffer is
/// genuinely full; no byte is ever dropped or reordered.
pub struct WriteDriver {
    /// The bytes the task owes to the device.
    pub data: Vec<u8>,
    /// How many leading bytes the device has accepted so far.
    pub written: usize,
}

impl WriteDriver {
    /// The task's validity: it has not written more than it holds.
    pub open spec fn wf(self) -> bool {
        self.written <= self.data@.len()
    }

    /// The bytes still owed to the device.
    pub open spec fn remaining(self) -> Seq<u8> {
        self.data@.skip(self.written as int)
    }

    /// A fresh write task owing exactly these bytes.
    pub fn new(data: Vec<u8>) -> (d: WriteDriver)
        ensures
            d.wf(),
            d.data@ == data@,
            d.written == 0,
            d.remaining() == data@,
    {
        let d = WriteDriver { data, written: 0 };
        proof {
            assert(d.data@.skip(0) =~= d.data@);
        }
        d
    }

    /// One scheduler invocation: the device accepts as much of the
    /// remaining slice as its buffer bound allows, the task advances by
    /// exactly that much, and it completes with the total byte count once
    /// nothing is owed — otherwise it retries the rest at once, meets the
    /// now-full buffer's would-block, clears the cached write readiness
    /// and yields.
    pub fn poll(&mut self, h: &mut SerialPort, port: &mut ScriptPort) -> (r: DriverPoll)
        requires
            old(self).wf(),
            old(port).wf(),
        ensures
            final(self).wf(),
            final(port).wf(),
            final(self).data@ == old(self).data@,
            final(port).capacity_of() == old(port).capacity_of(),
            final(port).attempts_of() == old(port).attempts_of(),
            final(port).delivered() == old(port).delivered(),
            final(h).settings == old(h).settings,
            final(h).adapter.token == old(h).adapter.token,
            final(h).adapter.read_state == old(h).adapter.read_state,
            ({
                let rem = old(self).remaining();
                let a = old(port).write_accepts(rem.len());
                &&& final(self).written == old(self).written + a
                &&& final(port).fed() == old(port).fed() + rem.take(a)
                &&& a == rem.len() ==> {
                    &&& r == DriverPoll::Complete(Result::Ok(final(self).written))
                    &&& final(h).adapter.write_state == Readiness::Armed
                }
                &&& a < rem.len() ==> {
                    &&& r == DriverPoll::Pending
                    &&& final(h).adapter.write_state == Readiness::Cleared
                }
            }),
    {
        let rest = copy_suffix(&self.data, self.written);
        match h.write(port, &rest) {
            Step::Success(k) => {
                let total = self.data.len();
                self.written = self.written + k;
                if self.written == total {
                    proof {
                        assert(old(self).remaining().take(k as int) =~= old(self).remaining());
                    }
                    DriverPoll::Complete(Result::Ok(self.written))
                } else {
                    let rest2 = copy_suffix(&self.data, self.written);
                    match h.write(port, &rest2) {
                        Step::NotReady => DriverPoll::Pending,
                        s2 => {
                            proof {
                                assert(false);
                            }
                            DriverPoll::Pending
                        },
                    }
                }
            },
            Step::NotReady => {
                proof {
                    assert(old(self).remaining().take(0) =~= Seq::<u8>::empty());
                    assert(old(port).fed() + Seq::<u8>::empty() =~= old(port).fed());
                }
                DriverPoll::Pending
            },
            s => {
                proof {
                    assert(false);
                }
                DriverPoll::Pending
            },
        }
    }
}

} // verus!
