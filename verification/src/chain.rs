//! The launch strategy chain.
//!
//! A dependency can be obtained in several platform-dependent ways: run a
//! native binary directly, run it through a platform shim, or start a
//! managed container.  The chain evaluates an ordered list of such
//! candidates strictly in priority order and short-circuits on the first
//! one that produces a running resource.  A single candidate's failure is
//! expected and recoverable; only a chain that exhausts every candidate
//! fails as a whole.
//!
//! Attempting a candidate is outside work (spawning a process, talking to
//! a container engine), so the chain is a state machine: the driver
//! attempts the candidate the chain asks for and feeds the report back
//! into [`LaunchChain::step`], which decides what happens next.

use vstd::prelude::*;

verus! {

/// One way of obtaining a running instance of a dependency, in the order
/// a host may prefer them.
#[derive(PartialEq, Eq, Structural, Clone, Copy, Debug)]
pub enum StrategyKind {
    /// Run the dependency's native binary directly.
    NativeProcess,
    /// Run the binary through a platform shim.
    PlatformShim,
    /// Start a managed container and use its remapped port.
    ManagedContainer,
}

/// What one strategy reported when it was attempted.
///
/// A resource is named by a plain identifier; the driver that performed
/// the attempt keeps the actual process or container handle under that
/// identifier, and the handle owns it from then on.
#[derive(PartialEq, Eq, Structural, Clone, Copy, Debug)]
pub enum StrategyReport {
    /// A native process was started; it serves the requested port itself.
    Process { resource: u64 },
    /// A container was started; the requested port was remapped to
    /// `mapped_port` on the host.
    Container { resource: u64, mapped_port: u16 },
    /// The strategy cannot proceed on this host (missing binary, engine
    /// unreachable).  Recoverable: the next candidate is attempted.
    Unavailable,
}

/// What running the whole chain produced.
#[derive(PartialEq, Eq, Structural, Clone, Copy, Debug)]
pub enum LaunchOutcome {
    /// A native process, reachable on the port that was requested.
    Process { resource: u64, port: u16 },
    /// A container, reachable on the host port the engine mapped.
    Container { resource: u64, port: u16 },
    /// Every candidate was unavailable.
    Failure,
}

/// What the driver must do after feeding one report into the chain.
#[derive(PartialEq, Eq, Structural, Clone, Copy, Debug)]
pub enum ChainAction {
    /// Attempt the candidate at this position in the ordered list.
    Attempt { index: usize },
    /// The chain is finished, successfully or not.
    Done { outcome: LaunchOutcome },
}

/// The ordered candidate list for a host.  The ordering is data, not
/// compiled-in branching: the one environment-driven preference the
/// drivers recognize is whether to put the managed container first, and
/// in its absence the native binary is preferred, then the shim, then
/// the container.
pub fn default_strategy_order(prefer_container: bool) -> (r: Vec<StrategyKind>)
    ensures
        !prefer_container ==> r@ == seq![
            StrategyKind::NativeProcess,
            StrategyKind::PlatformShim,
            StrategyKind::ManagedContainer,
        ],
        prefer_container ==> r@ == seq![
            StrategyKind::ManagedContainer,
            StrategyKind::NativeProcess,
            StrategyKind::PlatformShim,
        ],
{
    let mut r: Vec<StrategyKind> = Vec::new();
    if prefer_container {
        r.push(StrategyKind::ManagedContainer);
        r.push(StrategyKind::NativeProcess);
        r.push(StrategyKind::PlatformShim);
        proof {
            assert(r@ =~= seq![
                StrategyKind::ManagedContainer,
                StrategyKind::NativeProcess,
                StrategyKind::PlatformShim,
            ]);
        }
    } else {
        r.push(StrategyKind::NativeProcess);
        r.push(StrategyKind::PlatformShim);
        r.push(StrategyKind::ManagedContainer);
        proof {
            assert(r@ =~= seq![
                StrategyKind::NativeProcess,
                StrategyKind::PlatformShim,
                StrategyKind::ManagedContainer,
            ]);
        }
    }
    r
}

/// The outcome a single successful report resolves to, given the port the
/// caller requested: a native process serves the requested port, a
/// container serves the remapped one.
pub open spec fn spec_resolved(requested: u16, report: StrategyReport) -> LaunchOutcome {
    match report {
        StrategyReport::Process { resource } => LaunchOutcome::Process {
            resource,
            port: requested,
        },
        StrategyReport::Container { resource, mapped_port } => LaunchOutcome::Container {
            resource,
            port: mapped_port,
        },
        StrategyReport::Unavailable => LaunchOutcome::Failure,
    }
}

/// The outcome of evaluating candidates in order, where `reports[i]` is
/// what the candidate at position `i` would report: the first success
/// decides, and a chain with no success fails.
pub open spec fn spec_chain_outcome(requested: u16, reports: Seq<StrategyReport>) -> LaunchOutcome
    decreases reports.len(),
{
    if reports.len() == 0 {
        LaunchOutcome::Failure
    } else if !(reports[0] is Unavailable) {
        spec_resolved(requested, reports[0])
    } else {
        spec_chain_outcome(requested, reports.drop_first())
    }
}

/// The ordered evaluation of launch candidates: tracks which position is
/// being attempted out of how many, and how the requested port resolves
/// once a candidate succeeds.
pub struct LaunchChain {
    requested_port: u16,
    total: usize,
    next: usize,
}

impl LaunchChain {
    pub closed spec fn spec_requested_port(self) -> u16 {
        self.requested_port
    }

    /// How many candidates the ordered list holds.
    pub closed spec fn spec_total(self) -> nat {
        self.total as nat
    }

    /// The position of the candidate currently being attempted.
    pub closed spec fn spec_next(self) -> nat {
        self.next as nat
    }

    pub closed spec fn wf(self) -> bool {
        self.next <= self.total
    }

    /// Begin evaluating a chain of `total` candidates for `requested_port`.
    /// The first candidate is attempted first; a chain of zero candidates
    /// is already exhausted.
    pub fn new(requested_port: u16, total: usize) -> (r: Self)
        ensures
            r.wf(),
            r.spec_requested_port() == requested_port,
            r.spec_total() == total,
            r.spec_next() == 0,
    {
        LaunchChain { requested_port, total, next: 0 }
    }

    /// The position the driver should attempt now, or `None` once the
    /// chain is exhausted.
    pub fn pending(&self) -> (r: Option<usize>)
        requires
            self.wf(),
        ensures
            match r {
                Some(i) => self.spec_next() < self.spec_total() && i == self.spec_next(),
                None => self.spec_next() == self.spec_total(),
            },
    {
        if self.next < self.total {
            Some(self.next)
        } else {
            None
        }
    }

    /// Feed in what the candidate at the pending position reported.
    ///
    /// A success finishes the chain at once with the resolved outcome; an
    /// unavailable candidate moves evaluation to the next position, and
    /// exhausting the last candidate finishes the chain with
    /// [`LaunchOutcome::Failure`].
    pub fn step(&mut self, report: StrategyReport) -> (r: ChainAction)
        requires
            old(self).wf(),
            old(self).spec_next() < old(self).spec_total(),
        ensures
            final(self).wf(),
            final(self).spec_requested_port() == old(self).spec_requested_port(),
            final(self).spec_total() == old(self).spec_total(),
            !(report is Unavailable) ==> {
                &&& r == (ChainAction::Done {
                    outcome: spec_resolved(old(self).spec_requested_port(), report),
                })
                &&& final(self).spec_next() == old(self).spec_next()
            },
            report is Unavailable ==> final(self).spec_next() == old(self).spec_next() + 1,
            report is Unavailable && old(self).spec_next() + 1 < old(self).spec_total() ==> r
                == (ChainAction::Attempt { index: (old(self).spec_next() + 1) as usize }),
            report is Unavailable && old(self).spec_next() + 1 == old(self).spec_total() ==> r
                == (ChainAction::Done { outcome: LaunchOutcome::Failure }),
    {
        match report {
            StrategyReport::Process { resource } => ChainAction::Done {
                outcome: LaunchOutcome::Process { resource, port: self.requested_port },
            },
            StrategyReport::Container { resource, mapped_port } => ChainAction::Done {
                outcome: LaunchOutcome::Container { resource, port: mapped_port },
            },
            StrategyReport::Unavailable => {
                self.next = self.next + 1;
                if self.next < self.total {
                    ChainAction::Attempt { index: self.next }
                } else {
                    ChainAction::Done { outcome: LaunchOutcome::Failure }
                }
            },
        }
    }
}

/// A chain whose every candidate is unavailable fails as a whole, and
/// with no success there is no resource in the outcome to leak.
pub proof fn lemma_all_unavailable_launch_fails(requested: u16, reports: Seq<StrategyReport>)
    requires
        forall|i: int| 0 <= i < reports.len() ==> reports[i] is Unavailable,
    ensures
        spec_chain_outcome(requested, reports) is Failure,
    decreases reports.len(),
{
    if reports.len() > 0 {
        lemma_all_unavailable_launch_fails(requested, reports.drop_first());
    }
}

/// Candidates are evaluated strictly in priority order: the first success
/// decides the outcome, whatever stands behind it in the list.
pub proof fn lemma_first_success_decides(requested: u16, reports: Seq<StrategyReport>, k: int)
    requires
        0 <= k < reports.len(),
        !(reports[k] is Unavailable),
        forall|i: int| 0 <= i < k ==> reports[i] is Unavailable,
    ensures
        spec_chain_outcome(requested, reports) == spec_resolved(requested, reports[k]),
    decreases k,
{
    if k > 0 {
        lemma_first_success_decides(requested, reports.drop_first(), k - 1);
    }
}

/// Every resource the chain hands out came from one of its candidates'
/// reports: the chain itself never conjures a resource, so a failed chain
/// has started nothing that could leak.
pub proof fn lemma_outcome_resource_has_a_source(requested: u16, reports: Seq<StrategyReport>)
    ensures
        forall|resource: u64, port: u16|
            spec_chain_outcome(requested, reports) == (LaunchOutcome::Process { resource, port })
                ==> exists|i: int|
                0 <= i < reports.len() && reports[i] == (StrategyReport::Process { resource }),
        forall|resource: u64, port: u16|
            spec_chain_outcome(requested, reports) == (LaunchOutcome::Container { resource, port })
                ==> exists|i: int|
                0 <= i < reports.len() && reports[i] == (StrategyReport::Container {
                    resource,
                    mapped_port: port,
                }),
    decreases reports.len(),
{
    if reports.len() > 0 && reports[0] is Unavailable {
        lemma_outcome_resource_has_a_source(requested, reports.drop_first());
        assert forall|resource: u64, port: u16|
            spec_chain_outcome(requested, reports) == (LaunchOutcome::Process { resource, port })
                implies exists|i: int|
            0 <= i < reports.len() && reports[i] == (StrategyReport::Process {
                resource,
            }) by {
            let j = choose|j: int|
                0 <= j < reports.drop_first().len() && reports.drop_first()[j]
                    == (StrategyReport::Process { resource });
            assert(reports[j + 1] == (StrategyReport::Process { resource }));
        }
        assert forall|resource: u64, port: u16|
            spec_chain_outcome(requested, reports) == (LaunchOutcome::Container { resource, port })
                implies exists|i: int|
            0 <= i < reports.len() && reports[i] == (StrategyReport::Container {
                resource,
                mapped_port: port,
            }) by {
            let j = choose|j: int|
                0 <= j < reports.drop_first().len() && reports.drop_first()[j]
                    == (StrategyReport::Container { resource, mapped_port: port });
            assert(reports[j + 1] == (StrategyReport::Container { resource, mapped_port: port }));
        }
    }
}

} // verus!
