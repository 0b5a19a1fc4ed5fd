//! The command-tail companion: an observational side-process.
//!
//! A companion attaches a command-line client to a running managed
//! dependency and streams its live command activity into the logs.  It
//! mirrors the chain's fallback philosophy — prefer an ordered list of
//! candidate client binaries, fall back to a one-line placeholder process
//! when none is present — but carries no readiness probe and no validity
//! flag, because nothing downstream depends on its liveness.  Its kill
//! follows the same idempotent take-once pattern as the primary handle's
//! teardown, and the two lifecycles are fully independent.

use crate::command::spec_decimal;
use crate::command::u16_decimal;
use crate::handle::spec_after_stops;
use crate::handle::ManagedDependencyHandle;
use vstd::prelude::*;

verus! {

/// One candidate command-line client, and whether this host has it.
/// Probing for the binary is the driver's outside work; the selection
/// over the probed list is verified.
pub struct ClientCandidate {
    pub name: String,
    pub available: bool,
}

/// Pick the first available client out of the ordered candidate list, or
/// nothing when the list has none — the caller then falls back to the
/// placeholder process.
pub fn select_client(candidates: &Vec<ClientCandidate>) -> (r: Option<usize>)
    ensures
        match r {
            Some(i) => {
                &&& i < candidates@.len()
                &&& candidates@[i as int].available
                &&& forall|j: int| 0 <= j < i ==> !candidates@[j].available
            },
            None => forall|j: int| 0 <= j < candidates@.len() ==> !candidates@[j].available,
        },
{
    let mut i: usize = 0;
    while i < candidates.len()
        invariant
            i <= candidates@.len(),
            forall|j: int| 0 <= j < i ==> !candidates@[j].available,
        decreases candidates@.len() - i,
    {
        if candidates[i].available {
            return Some(i);
        }
        i = i + 1;
    }
    None
}

/// The fixed argument vector that attaches a client to the primary's
/// endpoint and puts it in command-tail mode.
pub fn tail_command_args(host: &String, port: u16) -> (r: Vec<String>)
    ensures
        r@.len() == 5,
        r@[0]@ == "-h"@,
        r@[1]@ == host@,
        r@[2]@ == "-p"@,
        r@[3]@ == spec_decimal(port as nat),
        r@[4]@ == "monitor"@,
{
    let mut r: Vec<String> = Vec::new();
    r.push(String::from_str("-h"));
    r.push(host.clone());
    r.push(String::from_str("-p"));
    r.push(u16_decimal(port));
    r.push(String::from_str("monitor"));
    r
}

/// The companion's own handle: it owns its subordinate process and
/// nothing else.  No validity flag: nothing downstream depends on the
/// companion being alive, so there is nothing to defend.
pub struct CommandTailHandle {
    resource: Option<u64>,
}

impl CommandTailHandle {
    pub closed spec fn spec_resource(self) -> Option<u64> {
        self.resource
    }

    /// The companion after its own kill: owning nothing.
    pub closed spec fn spec_kill_state(self) -> CommandTailHandle {
        CommandTailHandle { resource: None }
    }

    /// The terminate signal its kill issues: the owned process if it is
    /// still in place, nothing on a companion already killed.
    pub open spec fn spec_kill_action(self) -> Option<u64> {
        self.spec_resource()
    }

    /// A companion begins life owning the process the driver attached.
    pub fn new(resource: u64) -> (r: Self)
        ensures
            r.spec_resource() == Some(resource),
    {
        CommandTailHandle { resource: Some(resource) }
    }

    /// Take the subordinate process out of the companion, exactly once,
    /// and hand it back for termination; a silent no-op on a companion
    /// already killed.
    pub fn kill(&mut self) -> (terminate: Option<u64>)
        ensures
            *final(self) == old(self).spec_kill_state(),
            terminate == old(self).spec_kill_action(),
            final(self).spec_resource() is None,
    {
        self.resource.take()
    }
}

/// The companion's lifecycle is independent of the primary's: however
/// many times the primary handle it observes is stopped, the companion
/// still owns its own process, and its own later kill still issues its
/// one terminate signal.
pub proof fn lemma_companion_survives_primary_stop(
    c: CommandTailHandle,
    h: ManagedDependencyHandle,
    n: nat,
)
    requires
        c.spec_resource() is Some,
    ensures
        c.spec_kill_action() == c.spec_resource(),
        c.spec_kill_action() is Some,
        spec_after_stops(h, n).spec_resource() is Some ==> n == 0,
{
    if n > 0 {
        crate::handle::lemma_stop_idempotent(h, n);
    }
}

} // verus!
