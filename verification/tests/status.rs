use std::sync::{Arc, Mutex};
use std::time::{Duration, Instant};

use sync_mesh_core::domain::{HealthState, NodeId};
use sync_mesh_core::ports::Clock;
use sync_mesh_core::status_service::{
    decode_health, StatusService, HEALTH_HEALTHY, HEALTH_SHUTTING_DOWN, HEALTH_STARTING,
};
use sync_mesh_core::system_clock::SystemClock;
use sync_mesh_core::wire::{to_proto_health, GetStatusResponse, WireHealth};

/// A clock the test moves by hand.
struct FakeClock {
    now: Mutex<Instant>,
}

impl FakeClock {
    fn new(start: Instant) -> Self {
        FakeClock { now: Mutex::new(start) }
    }

    fn set(&self, instant: Instant) {
        *self.now.lock().unwrap() = instant;
    }
}

impl Clock for FakeClock {
    fn now(&self) -> Instant {
        *self.now.lock().unwrap()
    }
}

#[test]
fn health_codes_read_back() {
    assert_eq!(decode_health(HEALTH_STARTING), HealthState::Starting);
    assert_eq!(decode_health(HEALTH_HEALTHY), HealthState::Healthy);
    assert_eq!(decode_health(HEALTH_SHUTTING_DOWN), HealthState::ShuttingDown);
    assert_eq!(decode_health(3), HealthState::Starting);
    assert_eq!(decode_health(255), HealthState::Starting);
}

#[test]
fn health_maps_onto_the_wire() {
    assert_eq!(to_proto_health(HealthState::Starting), WireHealth::Starting);
    assert_eq!(to_proto_health(HealthState::Healthy), WireHealth::Healthy);
    assert_eq!(to_proto_health(HealthState::ShuttingDown), WireHealth::ShuttingDown);
    assert_eq!(WireHealth::Unspecified.code(), 0);
    assert_eq!(WireHealth::Starting.code(), 1);
    assert_eq!(WireHealth::Healthy.code(), 2);
    assert_eq!(WireHealth::ShuttingDown.code(), 3);
}

#[test]
fn wire_codes_read_back() {
    for health in [
        WireHealth::Unspecified,
        WireHealth::Starting,
        WireHealth::Healthy,
        WireHealth::ShuttingDown,
    ] {
        assert_eq!(WireHealth::from_code(health.code()), Some(health));
    }
    assert_eq!(WireHealth::from_code(4), None);
    assert_eq!(WireHealth::from_code(-1), None);
}

#[test]
fn service_starts_then_becomes_healthy_then_shuts_down() {
    let start = Instant::now();
    let clock = Arc::new(FakeClock::new(start));
    let id = NodeId::new();
    let mut service = StatusService::new(id, clock.clone());
    assert_eq!(service.current_health(), HealthState::Starting);
    assert_eq!(service.get_status().health, WireHealth::Starting.code());

    service.mark_healthy();
    assert_eq!(service.current_health(), HealthState::Healthy);
    assert_eq!(service.get_status().health, WireHealth::Healthy.code());
    assert_eq!(service.node_id(), id);

    service.mark_shutting_down();
    assert_eq!(service.current_health(), HealthState::ShuttingDown);
    assert_eq!(service.get_status().health, WireHealth::ShuttingDown.code());
    assert_eq!(service.node_id(), id);
}

#[test]
fn status_reports_node_id_text_and_uptime() {
    let start = Instant::now();
    let clock = Arc::new(FakeClock::new(start));
    let id = NodeId::new();
    let mut service = StatusService::new(id, clock.clone());
    service.mark_healthy();

    clock.set(start + Duration::from_millis(7_900));
    let response = service.get_status();
    assert_eq!(
        response,
        GetStatusResponse {
            node_id: id.to_string(),
            health: 2,
            uptime_seconds: 7,
        }
    );
    assert!(!response.node_id.is_empty());

    let info = service.daemon_info();
    assert_eq!(info.node_id, id);
    assert_eq!(info.health, HealthState::Healthy);
    assert_eq!(info.uptime, Duration::from_millis(7_900));
}

#[test]
fn uptime_is_zero_when_the_clock_reads_before_the_start() {
    let start = Instant::now() + Duration::from_secs(10);
    let clock = Arc::new(FakeClock::new(start));
    let service = StatusService::new(NodeId::new(), clock.clone());
    clock.set(start - Duration::from_secs(3));
    assert_eq!(service.get_status().uptime_seconds, 0);
}

#[test]
fn report_states_its_inputs() {
    let id = NodeId::parse("550e8400-e29b-41d4-a716-446655440000").unwrap();
    let response = GetStatusResponse::report(&id, HealthState::ShuttingDown, 42);
    assert_eq!(response.node_id, "550e8400-e29b-41d4-a716-446655440000");
    assert_eq!(response.health, 3);
    assert_eq!(response.uptime_seconds, 42);
}

#[test]
fn system_clock_runs_the_service() {
    let clock: Arc<dyn Clock> = Arc::new(SystemClock);
    let service = StatusService::new(NodeId::new(), clock);
    let response = service.get_status();
    assert_eq!(response.health, WireHealth::Starting.code());
    assert!(response.uptime_seconds < 60);
}
