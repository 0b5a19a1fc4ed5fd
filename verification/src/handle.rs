//! The managed dependency handle and its take-once teardown.
//!
//! A handle owns exactly one launched resource (a process or a container,
//! never both), the resolved endpoint, and a validity flag.  The flag is
//! monotonic: it starts `true` and falls to `false` exactly once, together
//! with the resource being taken out of the handle, and never rises again.
//! Teardown is idempotent: stopping an already stopped handle changes
//! nothing and issues no second terminate signal.
//!
//! Issuing the actual terminate signal is outside work, so `stop` does not
//! kill: it takes the owned resource out of the handle and hands it back,
//! and the driver terminates exactly what it is handed.  Concurrent stops
//! are serialized by the driver's mutual-exclusion lock around this take
//! step, so any interleaving of stops is one of the sequential orders the
//! lemmas below speak of.

use crate::chain::LaunchOutcome;
use crate::endpoint::DependencyEndpoint;
use crate::probe::ProbeStep;
use crate::SetupError;
use crate::UseAfterInvalid;
use vstd::prelude::*;

verus! {

/// The one resource a handle owns: the launched process or container,
/// named by the identifier under which the driver keeps the real handle.
#[derive(PartialEq, Eq, Structural, Clone, Copy, Debug)]
pub enum OwnedResource {
    Process { id: u64 },
    Container { id: u64 },
}

/// The unit the rest of the harness depends on: the resolved endpoint,
/// the owned resource, and the monotonic validity flag.
pub struct ManagedDependencyHandle {
    endpoint: DependencyEndpoint,
    valid: bool,
    resource: Option<OwnedResource>,
}

impl ManagedDependencyHandle {
    pub closed spec fn spec_endpoint(self) -> DependencyEndpoint {
        self.endpoint
    }

    pub closed spec fn spec_valid(self) -> bool {
        self.valid
    }

    pub closed spec fn spec_resource(self) -> Option<OwnedResource> {
        self.resource
    }

    /// The handle is valid exactly as long as it still owns its resource:
    /// `stop` clears both in one step, and nothing else writes either.
    pub open spec fn wf(self) -> bool {
        self.spec_valid() <==> self.spec_resource() is Some
    }

    /// The state `stop` leaves behind, whatever state it found: no longer
    /// valid, no longer owning anything, endpoint untouched.
    pub closed spec fn spec_stop_state(self) -> ManagedDependencyHandle {
        ManagedDependencyHandle { endpoint: self.endpoint, valid: false, resource: None }
    }

    /// The terminate signal `stop` issues: the owned resource if the
    /// handle still held one, and nothing on a handle already stopped.
    pub open spec fn spec_stop_kill(self) -> Option<OwnedResource> {
        self.spec_resource()
    }

    /// Construction is launch: a handle begins life valid, owning the
    /// resource the chain produced, at the resolved endpoint.
    pub fn new(endpoint: DependencyEndpoint, resource: OwnedResource) -> (r: Self)
        ensures
            r.wf(),
            r.spec_valid(),
            r.spec_resource() == Some(resource),
            r.spec_endpoint() == endpoint,
    {
        ManagedDependencyHandle { endpoint, valid: true, resource: Some(resource) }
    }

    /// Defensive liveness check: fails exactly when the handle has been
    /// torn down.  The driver turns the error into a loud failure rather
    /// than letting a stale handle be used silently.
    pub fn assert_valid(&self) -> (r: Result<(), UseAfterInvalid>)
        ensures
            r is Ok <==> self.spec_valid(),
    {
        if self.valid {
            Ok(())
        } else {
            Err(UseAfterInvalid)
        }
    }

    /// Always safe, whatever the validity state.
    pub fn host(&self) -> (r: &String)
        ensures
            r@ == self.spec_endpoint().spec_host(),
    {
        self.endpoint.host()
    }

    /// Always safe, whatever the validity state.
    pub fn port(&self) -> (r: u16)
        ensures
            r == self.spec_endpoint().spec_port(),
    {
        self.endpoint.port()
    }

    /// Always safe, whatever the validity state.
    pub fn prefix(&self) -> (r: &String)
        ensures
            r@ == self.spec_endpoint().spec_prefix(),
    {
        self.endpoint.prefix()
    }

    /// Take the owned resource out of the handle, exactly once.
    ///
    /// Flips `valid` to `false` in the same step, so no observer of the
    /// stopped handle can still see it valid, and returns the resource
    /// for the driver to terminate.  On a handle already stopped this is
    /// a silent no-op: nothing is returned, so nothing is killed twice.
    pub fn stop(&mut self) -> (kill: Option<OwnedResource>)
        ensures
            *final(self) == old(self).spec_stop_state(),
            kill == old(self).spec_stop_kill(),
            final(self).wf(),
            !final(self).spec_valid(),
            final(self).spec_resource() is None,
            final(self).spec_endpoint() == old(self).spec_endpoint(),
    {
        self.valid = false;
        let kill = self.resource.take();
        kill
    }
}

/// How setup ends once the chain and the probe have spoken.
pub enum SetupCompletion {
    /// The dependency is running and reachable; the handle owns it.
    Ready { handle: ManagedDependencyHandle },
    /// Setup failed.  `terminate` is the resource that was already
    /// started, if any: the driver must terminate it before the error
    /// propagates, so that no process or container leaks on a failure
    /// path.
    Abort { error: SetupError, terminate: Option<OwnedResource> },
}

/// The resource a chain outcome started, if it started one.
pub open spec fn spec_outcome_resource(outcome: LaunchOutcome) -> Option<OwnedResource> {
    match outcome {
        LaunchOutcome::Process { resource, port } => Some(OwnedResource::Process { id: resource }),
        LaunchOutcome::Container { resource, port } => Some(
            OwnedResource::Container { id: resource },
        ),
        LaunchOutcome::Failure => None,
    }
}

/// The port a chain outcome resolved to, where it resolved one.
pub open spec fn spec_outcome_port(outcome: LaunchOutcome) -> u16 {
    match outcome {
        LaunchOutcome::Process { resource, port } => port,
        LaunchOutcome::Container { resource, port } => port,
        LaunchOutcome::Failure => 0,
    }
}

impl ManagedDependencyHandle {
    /// Decide how setup completes, given what the strategy chain produced
    /// and what the readiness probe decided about its endpoint.
    ///
    /// No partially initialized handle escapes: a handle comes back only
    /// when a resource was started and its endpoint proved reachable.  A
    /// failed chain aborts with [`SetupError::LaunchFailed`] and nothing
    /// to clean up.  A spent probe deadline aborts with
    /// [`SetupError::ReadinessTimeout`] and hands the already started
    /// resource back for termination: the failure path leaks nothing.
    pub fn complete_setup(
        host: String,
        prefix: String,
        outcome: LaunchOutcome,
        verdict: ProbeStep,
    ) -> (r: SetupCompletion)
        requires
            !(verdict is Retry),
        ensures
            outcome is Failure ==> r == (SetupCompletion::Abort {
                error: SetupError::LaunchFailed,
                terminate: None,
            }),
            !(outcome is Failure) && verdict is TimedOut ==> r == (SetupCompletion::Abort {
                error: SetupError::ReadinessTimeout,
                terminate: spec_outcome_resource(outcome),
            }),
            !(outcome is Failure) && verdict is Ready ==> (r matches SetupCompletion::Ready {
                handle,
            } && {
                &&& handle.wf()
                &&& handle.spec_valid()
                &&& handle.spec_resource() == spec_outcome_resource(outcome)
                &&& handle.spec_endpoint().spec_host() == host@
                &&& handle.spec_endpoint().spec_port() == spec_outcome_port(outcome)
                &&& handle.spec_endpoint().spec_prefix() == prefix@
            }),
    {
        match outcome {
            LaunchOutcome::Failure => SetupCompletion::Abort {
                error: SetupError::LaunchFailed,
                terminate: None,
            },
            LaunchOutcome::Process { resource, port } => {
                let owned = OwnedResource::Process { id: resource };
                if matches!(verdict, ProbeStep::Ready) {
                    let endpoint = DependencyEndpoint::new(host, port, prefix);
                    SetupCompletion::Ready { handle: ManagedDependencyHandle::new(endpoint, owned) }
                } else {
                    SetupCompletion::Abort {
                        error: SetupError::ReadinessTimeout,
                        terminate: Some(owned),
                    }
                }
            },
            LaunchOutcome::Container { resource, port } => {
                let owned = OwnedResource::Container { id: resource };
                if matches!(verdict, ProbeStep::Ready) {
                    let endpoint = DependencyEndpoint::new(host, port, prefix);
                    SetupCompletion::Ready { handle: ManagedDependencyHandle::new(endpoint, owned) }
                } else {
                    SetupCompletion::Abort {
                        error: SetupError::ReadinessTimeout,
                        terminate: Some(owned),
                    }
                }
            },
        }
    }
}

/// The handle after `n` successive stops, in the order the driver's lock
/// serialized them.
pub open spec fn spec_after_stops(h: ManagedDependencyHandle, n: nat) -> ManagedDependencyHandle
    decreases n,
{
    if n == 0 {
        h
    } else {
        spec_after_stops(h, (n - 1) as nat).spec_stop_state()
    }
}

/// How many terminate signals `n` successive stops issue in all: one for
/// each stop that still found the resource in place.
pub open spec fn spec_kills_issued(h: ManagedDependencyHandle, n: nat) -> nat
    decreases n,
{
    if n == 0 {
        0
    } else {
        (if spec_after_stops(h, (n - 1) as nat).spec_stop_kill() is Some {
            1nat
        } else {
            0nat
        }) + spec_kills_issued(h, (n - 1) as nat)
    }
}

/// Idempotence of teardown: however many times a handle is stopped, once
/// is enough and more changes nothing.  After any number of stops at
/// least one, the handle is exactly the once-stopped handle: no longer
/// valid — so `assert_valid` fails from then on — and owning no resource,
/// so nothing of it is left running.
pub proof fn lemma_stop_idempotent(h: ManagedDependencyHandle, n: nat)
    requires
        n >= 1,
    ensures
        spec_after_stops(h, n) == h.spec_stop_state(),
        !spec_after_stops(h, n).spec_valid(),
        spec_after_stops(h, n).spec_resource() is None,
        spec_after_stops(h, n).spec_endpoint() == h.spec_endpoint(),
    decreases n,
{
    if n == 1 {
        assert(spec_after_stops(h, 1) == spec_after_stops(h, 0).spec_stop_state());
        assert(spec_after_stops(h, 0) == h);
    } else {
        lemma_stop_idempotent(h, (n - 1) as nat);
        assert(spec_after_stops(h, n) == spec_after_stops(h, (n - 1) as nat).spec_stop_state());
        assert(h.spec_stop_state().spec_stop_state() == h.spec_stop_state());
    }
}

/// No double-kill: stops of a running handle, in whatever number the
/// driver's lock serialized them, issue exactly one terminate signal to
/// the underlying resource; stops of a handle already torn down issue
/// none.
pub proof fn lemma_stop_single_kill(h: ManagedDependencyHandle, n: nat)
    requires
        n >= 1,
    ensures
        h.spec_resource() is Some ==> spec_kills_issued(h, n) == 1,
        h.spec_resource() is None ==> spec_kills_issued(h, n) == 0,
    decreases n,
{
    if n == 1 {
        assert(spec_kills_issued(h, 0) == 0);
        assert(spec_after_stops(h, 0) == h);
    } else {
        lemma_stop_single_kill(h, (n - 1) as nat);
        lemma_stop_idempotent(h, (n - 1) as nat);
        assert(spec_after_stops(h, (n - 1) as nat).spec_stop_kill() is None);
    }
}

} // verus!
