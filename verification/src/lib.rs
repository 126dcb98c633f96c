//! A readiness-driven adapter for non-blocking serial ports.
//!
//! The core of this crate is the bridge from a raw serial device's error
//! taxonomy (no data yet, spurious device timeout, fatal failure) to the
//! uniform ready / not-ready / fatal signal that a cooperative task
//! scheduler can act on without busy-looping and without dropping bytes.
//!
//! The crate models the raw device as a value ([`device::ScriptPort`])
//! whose behaviour on each non-blocking attempt is explicit, so that the
//! adapter logic — timeout absorption, readiness caching, registration
//! bookkeeping, and the drain-until-not-ready task drivers — is verified
//! against it. The glue that binds the same logic to an operating-system
//! serial handle lives outside the library.

pub mod device;
pub mod driver;
pub mod handle;
pub mod outcome;
pub mod readiness;
pub mod sched;

pub use device::ScriptPort;
pub use driver::DriverPoll;
pub use driver::ReadDriver;
pub use driver::WriteDriver;
pub use handle::FlowControl;
pub use handle::OpenError;
pub use handle::Parity;
pub use handle::PortSettings;
pub use handle::ReadOutcome;
pub use handle::SerialPort;
pub use outcome::RawResult;
pub use outcome::Step;
pub use readiness::Async;
pub use readiness::Readiness;
pub use sched::Scheduler;
pub use sched::SourceState;
