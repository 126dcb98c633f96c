//! The raw-attempt taxonomy and its classification.
//!
//! A non-blocking read or write on a serial device ends in one of four raw
//! ways: bytes were transferred, nothing is available yet (would-block), the
//! device reported a physical timeout, or it failed outright. The functions
//! here translate a raw outcome into the per-call state machine step that
//! the non-blocking handle acts on: a spurious timeout on the read path is
//! retried at once, while would-block is the genuine not-ready signal.

use vstd::prelude::*;

verus! {

/// The raw result of one non-blocking read or write attempt on a device.
/// Error conditions carry their original OS error code unchanged.
#[derive(Clone, Copy, PartialEq, Eq, Structural, Debug)]
pub enum RawResult {
    /// The device transferred this many bytes.
    Transferred(usize),
    /// No data (or no buffer space) is available right now.
    WouldBlock,
    /// The device reported a physical timeout. On a read this is spurious
    /// and does not indicate genuine unreadiness.
    TimedOut(i32),
    /// Any other device error.
    Failed(i32),
}

/// One step of the per-call state machine: what a single raw attempt means
/// to the caller of a non-blocking handle.
#[derive(Clone, Copy, PartialEq, Eq, Structural, Debug)]
pub enum Step {
    /// The attempt transferred this many bytes.
    Success(usize),
    /// The attempt hit a spurious device timeout and must be retried at once.
    RetryTimeout,
    /// The device genuinely has no data or buffer space; wait for readiness.
    NotReady,
    /// A fatal device error, carried as its OS error code.
    FatalError(i32),
}

/// What [`classify_read`] returns for each raw outcome.
pub open spec fn classify_read_spec(r: RawResult) -> Step {
    match r {
        RawResult::Transferred(n) => Step::Success(n),
        RawResult::WouldBlock => Step::NotReady,
        RawResult::TimedOut(_) => Step::RetryTimeout,
        RawResult::Failed(code) => Step::FatalError(code),
    }
}

/// What [`classify_write`] returns for each raw outcome.
pub open spec fn classify_write_spec(r: RawResult) -> Step {
    match r {
        RawResult::Transferred(n) => Step::Success(n),
        RawResult::WouldBlock => Step::NotReady,
        RawResult::TimedOut(code) => Step::FatalError(code),
        RawResult::Failed(code) => Step::FatalError(code),
    }
}

/// Classifies one raw read attempt. A spurious timeout is marked for an
/// immediate retry; would-block is the genuine not-ready signal; any other
/// error is fatal and keeps its original code.
pub fn classify_read(r: RawResult) -> (s: Step)
    ensures
        s == classify_read_spec(r),
{
    match r {
        RawResult::Transferred(n) => Step::Success(n),
        RawResult::WouldBlock => Step::NotReady,
        RawResult::TimedOut(_) => Step::RetryTimeout,
        RawResult::Failed(code) => Step::FatalError(code),
    }
}

/// Classifies one raw write attempt. Writes do not exhibit the spurious
/// device-timeout condition, so a timeout on this path is passed through
/// as a fatal error with its original code.
pub fn classify_write(r: RawResult) -> (s: Step)
    ensures
        s == classify_write_spec(r),
{
    match r {
        RawResult::Transferred(n) => Step::Success(n),
        RawResult::WouldBlock => Step::NotReady,
        RawResult::TimedOut(code) => Step::FatalError(code),
        RawResult::Failed(code) => Step::FatalError(code),
    }
}

} // verus!
