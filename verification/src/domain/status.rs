use std::time::Duration;

use vstd::prelude::*;

use super::node_id::NodeId;

verus! {

/// What a daemon instance's status actually is: one of exactly three
/// states, so that "still starting" and "shutting down" are never
/// confused with "healthy".
#[derive(Debug, Clone, Copy, PartialEq, Eq, Structural)]
pub enum HealthState {
    /// Accepting connections is not yet safe: still initialising.
    Starting,
    /// Fully operational.
    Healthy,
    /// Shutdown has been requested; in-flight work is finishing.
    ShuttingDown,
}

/// The full answer to "how is this instance doing", in domain terms.
#[derive(Debug, Clone, Copy)]
pub struct DaemonInfo {
    pub node_id: NodeId,
    pub health: HealthState,
    pub uptime: Duration,
}

} // verus!
