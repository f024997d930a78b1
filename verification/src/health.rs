//! Where the agent lists the instances of a service with their health.

use crate::text::join;
use vstd::prelude::*;
use vstd::string::StringExecFns;

verus! {

/// The health endpoint of the agent at one address.
pub struct Health {
    address: &'static str,
}

impl View for Health {
    type V = Seq<char>;

    closed spec fn view(&self) -> Seq<char> {
        self.address@
    }
}

/// The URL that lists the instances of the service `name` at `address`.
pub open spec fn service_url(address: Seq<char>, name: Seq<char>) -> Seq<char> {
    address + "/health/service/"@ + name
}

impl Health {
    /// The health endpoint of the agent at `address`.
    pub fn new(address: &'static str) -> (health: Health)
        ensures
            health@ == address@,
    {
        Health { address: address }
    }

    /// The URL to fetch for the instances of the service `name`: the
    /// address, the path of the endpoint and the name, one after another
    /// and unchanged.
    pub fn service(&self, name: &str) -> (url: String)
        ensures
            url@ == service_url(self@, name@),
    {
        join(self.address, "/health/service/").concat(name)
    }
}

} // verus!
