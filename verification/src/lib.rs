//! Supervised lifecycle for short-lived external service dependencies.
//!
//! A test harness that depends on an external service (a cache, a data
//! store) needs that service launched through whichever mechanism the host
//! supports, probed until it accepts connections, observed while it runs,
//! and torn down exactly once however the owning scope exits.  This crate
//! verifies the decision logic of that lifecycle: the ordered launch
//! strategy chain with graceful degradation, the readiness probe deadline
//! accounting, the take-once teardown of the owned resource, and the
//! supporting command and relay plans.  The surrounding process, network
//! and logging calls are left to an unverified shell that drives these
//! state machines.

use vstd::prelude::*;

pub mod chain;
pub mod command;
pub mod companion;
pub mod endpoint;
pub mod handle;
pub mod probe;
pub mod relay;

use crate::relay::LogLevel;

verus! {

/// The port the dependency serves by default when the caller does not
/// pick one.
pub const DEFAULT_PORT: u16 = 6379;

/// What a caller asks for when it requests a managed dependency: the
/// desired port, the namespace prefix, and the severities for the two
/// relayed output streams.
pub struct LaunchRequest {
    pub port: u16,
    pub prefix: String,
    pub out_level: LogLevel,
    pub err_level: LogLevel,
}

impl LaunchRequest {
    pub fn new(port: u16, prefix: String, out_level: LogLevel, err_level: LogLevel) -> (r: Self)
        ensures
            r.port == port,
            r.prefix@ == prefix@,
            r.out_level == out_level,
            r.err_level == err_level,
    {
        LaunchRequest { port, prefix, out_level, err_level }
    }

    /// The documented default request: the dependency's own default
    /// port, no prefix, standard output relayed at debug severity and
    /// standard error at error severity.
    pub fn new_default() -> (r: Self)
        ensures
            r.port == DEFAULT_PORT,
            r.prefix@ == Seq::<char>::empty(),
            r.out_level == LogLevel::Debug,
            r.err_level == LogLevel::Error,
    {
        LaunchRequest {
            port: DEFAULT_PORT,
            prefix: String::new(),
            out_level: LogLevel::Debug,
            err_level: LogLevel::Error,
        }
    }
}

/// Why setup as a whole could not produce a ready handle.
///
/// A single strategy's failure is not here: it is recoverable and is
/// absorbed by the chain, which merely moves on to the next candidate.
#[derive(PartialEq, Eq, Structural, Clone, Copy, Debug)]
pub enum SetupError {
    /// Every strategy in the chain reported itself unavailable.
    LaunchFailed,
    /// A resource was started but its endpoint never accepted a
    /// connection within the deadline.
    ReadinessTimeout,
}

/// A defensive check observed a handle whose resource was already torn
/// down.  Callers treat this as a programming error and fail loudly.
#[derive(PartialEq, Eq, Structural, Clone, Copy, Debug)]
pub struct UseAfterInvalid;

} // verus!
