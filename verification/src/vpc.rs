//! The virtual network resource descriptor: an immutable value object,
//! fully constructed before submission.

use vstd::prelude::*;
use vstd::string::StringExecFns;

use crate::operation::spec_endpoint_root;
use crate::operation::endpoint_root;

verus! {

/// A virtual network to be created.
pub struct Vpc {
    pub auto_create_subnetworks: bool,
    pub name: String,
    pub routing_config: RoutingConfig,
}

/// The routing configuration of a virtual network.
pub struct RoutingConfig {
    pub routing_mode: String,
}

impl Vpc {
    /// A network under the given name with auto-created subnetworks and
    /// regional routing.
    pub fn new(name: &str) -> (r: Vpc)
        ensures
            r.auto_create_subnetworks == true,
            r.name@ == name@,
            r.routing_config.routing_mode@ == "REGIONAL"@,
    {
        Vpc {
            auto_create_subnetworks: true,
            name: name.to_owned(),
            routing_config: RoutingConfig { routing_mode: "REGIONAL".to_owned() },
        }
    }
}

/// The endpoint the network-create request is posted to.
pub open spec fn spec_vpc_create_url(project: Seq<char>) -> Seq<char> {
    spec_endpoint_root() + "/projects/"@ + project + "/global/networks"@
}

/// Composes the endpoint the network-create request is posted to.
pub fn vpc_create_url(project: &str) -> (r: String)
    ensures
        r@ == spec_vpc_create_url(project@),
{
    let mut u = endpoint_root().to_owned();
    u.append("/projects/");
    u.append(project);
    u.append("/global/networks");
    u
}

} // verus!
