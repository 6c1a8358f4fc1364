//! Domain values of the engine: identities, health and change events.

pub mod change_event;
pub mod node_id;
pub mod status;

pub use change_event::ChangeEvent;
pub use node_id::NodeId;
pub use status::{DaemonInfo, HealthState};
