//! The wire (protobuf) side of the status RPC: the message shapes of
//! `syncmesh.v1.SyncService/GetStatus` and the translation of the
//! engine's health into the wire enum.

use vstd::prelude::*;

use crate::domain::node_id::hyphenated_text;
use crate::domain::{HealthState, NodeId};

verus! {

/// The wire enum `syncmesh.v1.HealthState`.
#[derive(Debug, Clone, Copy, PartialEq, Eq, Structural)]
pub enum WireHealth {
    Unspecified,
    Starting,
    Healthy,
    ShuttingDown,
}

/// The numeric value of a wire health on the wire.
pub open spec fn wire_code(health: WireHealth) -> i32 {
    match health {
        WireHealth::Unspecified => 0,
        WireHealth::Starting => 1,
        WireHealth::Healthy => 2,
        WireHealth::ShuttingDown => 3,
    }
}

/// The wire health of a numeric value, if it names one.
pub open spec fn wire_from_code(code: i32) -> Option<WireHealth> {
    if code == 0 {
        Some(WireHealth::Unspecified)
    } else if code == 1 {
        Some(WireHealth::Starting)
    } else if code == 2 {
        Some(WireHealth::Healthy)
    } else if code == 3 {
        Some(WireHealth::ShuttingDown)
    } else {
        None
    }
}

/// The wire health that reports an engine health.
pub open spec fn spec_to_proto_health(health: HealthState) -> WireHealth {
    match health {
        HealthState::Starting => WireHealth::Starting,
        HealthState::Healthy => WireHealth::Healthy,
        HealthState::ShuttingDown => WireHealth::ShuttingDown,
    }
}

impl WireHealth {
    /// The numeric value sent on the wire.
    pub fn code(self) -> (code: i32)
        ensures
            code == wire_code(self),
    {
        match self {
            WireHealth::Unspecified => 0,
            WireHealth::Starting => 1,
            WireHealth::Healthy => 2,
            WireHealth::ShuttingDown => 3,
        }
    }

    /// Reads a numeric value received from the wire.
    pub fn from_code(code: i32) -> (health: Option<WireHealth>)
        ensures
            health == wire_from_code(code),
    {
        if code == 0 {
            Some(WireHealth::Unspecified)
        } else if code == 1 {
            Some(WireHealth::Starting)
        } else if code == 2 {
            Some(WireHealth::Healthy)
        } else if code == 3 {
            Some(WireHealth::ShuttingDown)
        } else {
            None
        }
    }
}

/// Translates the engine's health into the wire enum.
pub fn to_proto_health(health: HealthState) -> (wire: WireHealth)
    ensures
        wire == spec_to_proto_health(health),
{
    match health {
        HealthState::Starting => WireHealth::Starting,
        HealthState::Healthy => WireHealth::Healthy,
        HealthState::ShuttingDown => WireHealth::ShuttingDown,
    }
}

/// Law: every wire value is read back from its own numeric value, and
/// distinct wire values have distinct numeric values.
pub proof fn lemma_wire_code_round_trip(health: WireHealth, other: WireHealth)
    ensures
        wire_from_code(wire_code(health)) == Some(health),
        wire_code(health) == wire_code(other) ==> health == other,
{
}

/// Law: the translation never produces `Unspecified` and keeps distinct
/// engine states distinct on the wire.
pub proof fn lemma_to_proto_health_injective(a: HealthState, b: HealthState)
    ensures
        spec_to_proto_health(a) != WireHealth::Unspecified,
        spec_to_proto_health(a) == spec_to_proto_health(b) ==> a == b,
{
}

/// The request message of `GetStatus`; it carries nothing.
#[derive(Debug, Clone, Copy, PartialEq, Eq, Default)]
pub struct GetStatusRequest {}

/// The response message of `GetStatus`.
#[derive(Debug, PartialEq, Eq)]
pub struct GetStatusResponse {
    pub node_id: String,
    pub health: i32,
    pub uptime_seconds: u64,
}

impl GetStatusResponse {
    /// The response that reports a node, its health and its uptime.
    pub fn report(node_id: &NodeId, health: HealthState, uptime_seconds: u64) -> (response: Self)
        ensures
            response.node_id@ == hyphenated_text(node_id@),
            response.health == wire_code(spec_to_proto_health(health)),
            response.uptime_seconds == uptime_seconds,
    {
        GetStatusResponse {
            node_id: node_id.to_string(),
            health: to_proto_health(health).code(),
            uptime_seconds,
        }
    }
}

} // verus!
