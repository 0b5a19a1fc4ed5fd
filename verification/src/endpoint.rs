//! The externally visible address of a managed dependency.

use vstd::prelude::*;

verus! {

/// The resolved address of a running dependency together with the logical
/// namespace prefix that keeps concurrently running harness instances from
/// colliding.  Immutable once resolved: the only operations are accessors,
/// and they are safe whatever the owning handle's validity state.
pub struct DependencyEndpoint {
    host: String,
    port: u16,
    prefix: String,
}

impl DependencyEndpoint {
    pub closed spec fn spec_host(self) -> Seq<char> {
        self.host@
    }

    pub closed spec fn spec_port(self) -> u16 {
        self.port
    }

    pub closed spec fn spec_prefix(self) -> Seq<char> {
        self.prefix@
    }

    pub fn new(host: String, port: u16, prefix: String) -> (r: Self)
        ensures
            r.spec_host() == host@,
            r.spec_port() == port,
            r.spec_prefix() == prefix@,
    {
        DependencyEndpoint { host, port, prefix }
    }

    pub fn host(&self) -> (r: &String)
        ensures
            r@ == self.spec_host(),
    {
        &self.host
    }

    pub fn port(&self) -> (r: u16)
        ensures
            r == self.spec_port(),
    {
        self.port
    }

    pub fn prefix(&self) -> (r: &String)
        ensures
            r@ == self.spec_prefix(),
    {
        &self.prefix
    }
}

} // verus!
