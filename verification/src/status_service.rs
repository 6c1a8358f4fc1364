//! The state behind the status RPC: which node this is, when it started
//! and what its health is.

use std::sync::Arc;
use std::time::{Duration, Instant};

use vstd::prelude::*;

use crate::domain::node_id::hyphenated_text;
use crate::domain::{DaemonInfo, HealthState, NodeId};
use crate::ports::Clock;
use crate::wire::{spec_to_proto_health, wire_code, GetStatusResponse};

verus! {

/// The stored code of `HealthState::Starting`.
pub const HEALTH_STARTING: u8 = 0;

/// The stored code of `HealthState::Healthy`.
pub const HEALTH_HEALTHY: u8 = 1;

/// The stored code of `HealthState::ShuttingDown`.
pub const HEALTH_SHUTTING_DOWN: u8 = 2;

/// The health a stored code stands for; a code that names no state
/// reads as `Starting`.
pub open spec fn spec_decode_health(code: u8) -> HealthState {
    if code == HEALTH_HEALTHY {
        HealthState::Healthy
    } else if code == HEALTH_SHUTTING_DOWN {
        HealthState::ShuttingDown
    } else {
        HealthState::Starting
    }
}

/// The stored code of a health.
pub open spec fn spec_encode_health(health: HealthState) -> u8 {
    match health {
        HealthState::Starting => HEALTH_STARTING,
        HealthState::Healthy => HEALTH_HEALTHY,
        HealthState::ShuttingDown => HEALTH_SHUTTING_DOWN,
    }
}

/// Reads a stored health code.
pub fn decode_health(code: u8) -> (health: HealthState)
    ensures
        health == spec_decode_health(code),
{
    if code == HEALTH_HEALTHY {
        HealthState::Healthy
    } else if code == HEALTH_SHUTTING_DOWN {
        HealthState::ShuttingDown
    } else {
        HealthState::Starting
    }
}

/// Law: every health is read back from its own stored code, and every
/// code that names no state reads as `Starting`.
pub proof fn lemma_health_code_round_trip(health: HealthState, code: u8)
    ensures
        spec_decode_health(spec_encode_health(health)) == health,
        code > HEALTH_SHUTTING_DOWN ==> spec_decode_health(code) == HealthState::Starting,
{
}

/// What `std::time::Instant::duration_since` gives: the time from
/// `earlier` to `later` (zero where `earlier` is the later one).
pub uninterp spec fn elapsed(later: Instant, earlier: Instant) -> Duration;

/// What `std::time::Duration::as_secs` gives: the whole seconds of `d`.
pub uninterp spec fn duration_secs(d: Duration) -> u64;

/// Calls `std::time::Instant::duration_since`. Claims that its result
/// is `elapsed(later, earlier)`, a function of the two instants alone.
#[verifier::external_body]
fn elapsed_between(later: Instant, earlier: Instant) -> (d: Duration)
    ensures
        d == elapsed(later, earlier),
{
    later.duration_since(earlier)
}

/// Calls `std::time::Duration::as_secs`. Claims that its result is
/// `duration_secs(d)`, a function of the duration alone.
#[verifier::external_body]
fn whole_seconds(d: Duration) -> (secs: u64)
    ensures
        secs == duration_secs(d),
{
    d.as_secs()
}

/// The status of one daemon instance: its identity, the instant it
/// started (read from its clock) and its current health.
pub struct StatusService<C: Clock + ?Sized> {
    node_id: NodeId,
    clock: Arc<C>,
    started_at: Instant,
    health: u8,
}

impl<C: Clock + ?Sized> StatusService<C> {
    /// The identity this service reports.
    pub closed spec fn spec_node_id(&self) -> NodeId {
        self.node_id
    }

    /// The health this service currently reports.
    pub closed spec fn spec_health(&self) -> HealthState {
        spec_decode_health(self.health)
    }

    /// The instant the service was created at, as read from its clock.
    pub closed spec fn spec_started_at(&self) -> Instant {
        self.started_at
    }

    /// The clock the service reads.
    pub closed spec fn spec_clock(&self) -> Arc<C> {
        self.clock
    }

    /// A service for `node_id`, starting now (by `clock`) in `Starting`.
    pub fn new(node_id: NodeId, clock: Arc<C>) -> (service: Self)
        ensures
            service.spec_node_id() == node_id,
            service.spec_health() == HealthState::Starting,
            service.spec_clock() == clock,
            call_ensures(C::now, (&*clock,), service.spec_started_at()),
    {
        let started_at = clock.now();
        StatusService { node_id, clock, started_at, health: HEALTH_STARTING }
    }

    /// Records that the instance is fully operational.
    pub fn mark_healthy(&mut self)
        ensures
            final(self).spec_health() == HealthState::Healthy,
            final(self).spec_node_id() == old(self).spec_node_id(),
            final(self).spec_started_at() == old(self).spec_started_at(),
            final(self).spec_clock() == old(self).spec_clock(),
    {
        self.health = HEALTH_HEALTHY;
    }

    /// Records that shutdown has been requested.
    pub fn mark_shutting_down(&mut self)
        ensures
            final(self).spec_health() == HealthState::ShuttingDown,
            final(self).spec_node_id() == old(self).spec_node_id(),
            final(self).spec_started_at() == old(self).spec_started_at(),
            final(self).spec_clock() == old(self).spec_clock(),
    {
        self.health = HEALTH_SHUTTING_DOWN;
    }

    /// The health currently recorded.
    pub fn current_health(&self) -> (health: HealthState)
        ensures
            health == self.spec_health(),
    {
        decode_health(self.health)
    }

    /// The identity this service reports.
    pub fn node_id(&self) -> (id: NodeId)
        ensures
            id == self.spec_node_id(),
    {
        self.node_id
    }

    /// The instance's status in domain terms; its uptime is the time
    /// from the start to now, as read from the clock.
    pub fn daemon_info(&self) -> (info: DaemonInfo)
        ensures
            info.node_id == self.spec_node_id(),
            info.health == self.spec_health(),
            exists|now: Instant|
                call_ensures(C::now, (&*self.spec_clock(),), now) && info.uptime == elapsed(
                    now,
                    self.spec_started_at(),
                ),
    {
        let now = self.clock.now();
        let uptime = elapsed_between(now, self.started_at);
        assert(call_ensures(C::now, (&*self.spec_clock(),), now) && uptime == elapsed(now, self.spec_started_at()));
        DaemonInfo { node_id: self.node_id, health: self.current_health(), uptime }
    }

    /// The answer to `GetStatus`: the node's identity as text, its
    /// health on the wire, and its uptime in whole seconds.
    pub fn get_status(&self) -> (response: GetStatusResponse)
        ensures
            response.node_id@ == hyphenated_text(self.spec_node_id()@),
            response.health == wire_code(spec_to_proto_health(self.spec_health())),
            exists|now: Instant|
                call_ensures(C::now, (&*self.spec_clock(),), now) && response.uptime_seconds
                    == duration_secs(elapsed(now, self.spec_started_at())),
    {
        let info = self.daemon_info();
        let uptime_seconds = whole_seconds(info.uptime);
        GetStatusResponse::report(&info.node_id, info.health, uptime_seconds)
    }
}

} // verus!
