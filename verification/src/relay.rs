//! The output relay plan: what gets logged where, under which tag.
//!
//! A relay attaches one background read loop to each output stream of a
//! launched process and forwards every line to the log sink.  Reading
//! the streams is outside work; verified here is the plan the loops
//! follow: which severity each stream's lines carry, which tag prefixes
//! them, and — for a resource that exposes no streams at all, such as a
//! container — the substitute source that keeps the "every handle has a
//! relay" invariant uniform for callers.

use crate::chain::LaunchOutcome;
use vstd::prelude::*;

verus! {

/// The severity a relayed line is logged at.
#[derive(PartialEq, Eq, Structural, Clone, Copy, Debug)]
pub enum LogLevel {
    Error,
    Warn,
    Info,
    Debug,
    Trace,
}

/// Which of the process's two output streams a line came from.
#[derive(PartialEq, Eq, Structural, Clone, Copy, Debug)]
pub enum StreamKind {
    Stdout,
    Stderr,
}

/// Where a handle's relay reads from.
#[derive(PartialEq, Eq, Structural, Clone, Copy, Debug)]
pub enum RelaySource {
    /// The launched process exposes its streams: read them.
    ProcessStreams { resource: u64 },
    /// The resource exposes no streams (a container does not).  The
    /// relay attaches to a substitute lightweight process that emits a
    /// one-line confirmation, so callers see a relay on every handle.
    SubstituteNotice,
}

/// The relay source a chain outcome calls for: process streams where
/// there is a process, the substitute notice where there is not.
pub fn relay_source_for(outcome: &LaunchOutcome) -> (r: RelaySource)
    requires
        !(*outcome is Failure),
    ensures
        *outcome matches LaunchOutcome::Process { resource, .. } ==> r
            == (RelaySource::ProcessStreams { resource }),
        *outcome is Container ==> r == RelaySource::SubstituteNotice,
{
    match outcome {
        LaunchOutcome::Process { resource, port } => RelaySource::ProcessStreams {
            resource: *resource,
        },
        LaunchOutcome::Container { .. } => RelaySource::SubstituteNotice,
        LaunchOutcome::Failure => RelaySource::SubstituteNotice,
    }
}

/// One handle's relay plan: the tag its lines carry and the severity for
/// each stream.
#[derive(Clone)]
pub struct RelayPlan {
    tag: String,
    out_level: LogLevel,
    err_level: LogLevel,
}

impl RelayPlan {
    pub closed spec fn spec_tag(self) -> Seq<char> {
        self.tag@
    }

    pub closed spec fn spec_out_level(self) -> LogLevel {
        self.out_level
    }

    pub closed spec fn spec_err_level(self) -> LogLevel {
        self.err_level
    }

    pub fn new(tag: String, out_level: LogLevel, err_level: LogLevel) -> (r: Self)
        ensures
            r.spec_tag() == tag@,
            r.spec_out_level() == out_level,
            r.spec_err_level() == err_level,
    {
        RelayPlan { tag, out_level, err_level }
    }

    pub fn tag(&self) -> (r: &String)
        ensures
            r@ == self.spec_tag(),
    {
        &self.tag
    }

    /// The severity lines from the given stream are logged at: standard
    /// output and standard error each keep their caller-configured
    /// level.
    pub fn level_for(&self, stream: StreamKind) -> (r: LogLevel)
        ensures
            stream is Stdout ==> r == self.spec_out_level(),
            stream is Stderr ==> r == self.spec_err_level(),
    {
        match stream {
            StreamKind::Stdout => self.out_level,
            StreamKind::Stderr => self.err_level,
        }
    }

    /// One relayed line as it reaches the log sink: the plan's tag, a
    /// separating space, then the line as the process wrote it.
    pub fn tagged_line(&self, line: &String) -> (r: String)
        ensures
            r@ == self.spec_tag() + " "@ + line@,
    {
        let mut r = self.tag.clone();
        r.append(" ");
        r.append(line.as_str());
        proof {
            assert(r@ =~= self.spec_tag() + " "@ + line@);
        }
        r
    }
}

} // verus!
