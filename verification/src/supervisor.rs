//! Top-level supervision: the application-wide handle and the ordering
//! decisions its actor runtime follows. The actors themselves (engine,
//! exporter, embedded server) are orchestration outside the core; what
//! stands here is what they are told to do.

use vstd::prelude::*;

verus! {

/// The process-wide supervisor handle: remembers the application name
/// the engine announces itself under.
pub struct RillRate {
    pub app_name: String,
}

impl RillRate {
    /// Captures the application name offered to the engine's
    /// configuration.
    pub fn new(app_name: String) -> (r: RillRate)
        ensures
            r.app_name@ == app_name@,
    {
        RillRate { app_name }
    }
}

/// The supervisor's actor groups.
#[derive(Debug, Clone, PartialEq, Eq, Hash)]
pub enum Group {
    Tuning,
    Exporter,
    Provider,
    Hub,
}

/// The order in which the groups are torn down: tuning first, the hub
/// last, so providers stop feeding exporters before the hub goes away.
pub fn termination_sequence() -> (r: Vec<Group>)
    ensures
        r@ == seq![Group::Tuning, Group::Exporter, Group::Provider, Group::Hub],
{
    let mut order: Vec<Group> = Vec::new();
    order.push(Group::Tuning);
    order.push(Group::Exporter);
    order.push(Group::Provider);
    order.push(Group::Hub);
    proof {
        assert(order@ =~= seq![Group::Tuning, Group::Exporter, Group::Provider, Group::Hub]);
    }
    order
}

/// Where the engine connects.
#[derive(Debug, Clone, Copy, PartialEq, Eq, Structural)]
pub enum StartPlan {
    /// A remote node is configured: spawn the engine against it.
    RemoteNode,
    /// No node configured: spawn the embedded server, then the engine
    /// and the exporter against it.
    EmbeddedNode,
}

/// The supervisor's start decision for a configuration.
pub fn start_plan(node_specified: bool) -> (r: StartPlan)
    ensures
        r == (if node_specified {
            StartPlan::RemoteNode
        } else {
            StartPlan::EmbeddedNode
        }),
{
    if node_specified {
        StartPlan::RemoteNode
    } else {
        StartPlan::EmbeddedNode
    }
}

} // verus!
