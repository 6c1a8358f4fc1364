use std::path::PathBuf;

use sync_mesh_core::backend::{new_test_run_id, NodeConfig};
use uuid::Uuid;

#[test]
fn run_id_text_is_the_hyphenated_uuid() {
    let config = NodeConfig {
        data_dir: PathBuf::from("/tmp/node"),
        test_run_id: Uuid::parse_str("A1A2A3A4-B1B2-C1C2-D1D2-D3D4D5D6D7D8").unwrap(),
    };
    assert_eq!(config.test_run_id_text(), "a1a2a3a4-b1b2-c1c2-d1d2-d3d4d5d6d7d8");
}

#[test]
fn fresh_run_ids_are_random_version_4() {
    let a = new_test_run_id();
    let b = new_test_run_id();
    assert_eq!(a.get_version_num(), 4);
    assert_eq!(a.get_variant(), uuid::Variant::RFC4122);
    assert_ne!(a, b);
    let config = NodeConfig { data_dir: PathBuf::from("x"), test_run_id: a };
    assert_eq!(config.test_run_id_text(), a.to_string());
}
