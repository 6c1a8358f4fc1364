use sync_mesh_core::domain::NodeId;
use uuid::Uuid;

#[test]
fn round_trips_through_display_and_from_str() {
    let id = NodeId::new();
    let text = id.to_string();
    let parsed: NodeId = text.parse().expect("valid NodeId text must parse");
    assert_eq!(id, parsed);
}

#[test]
fn two_fresh_ids_are_never_equal() {
    assert_ne!(NodeId::new(), NodeId::new());
}

#[test]
fn text_is_the_hyphenated_lower_case_uuid() {
    let uuid = Uuid::parse_str("550E8400-E29B-41D4-A716-446655440000").unwrap();
    let id = NodeId::from_uuid(uuid);
    assert_eq!(id.to_string(), "550e8400-e29b-41d4-a716-446655440000");
    assert_eq!(id.to_string().len(), 36);
}

#[test]
fn from_uuid_and_as_uuid_keep_the_uuid() {
    let uuid = Uuid::parse_str("a1a2a3a4-b1b2-c1c2-d1d2-d3d4d5d6d7d8").unwrap();
    let id = NodeId::from_uuid(uuid);
    assert_eq!(id.as_uuid(), uuid);
    assert_eq!(NodeId::from_uuid(id.as_uuid()), id);
}

#[test]
fn fresh_ids_are_random_version_4() {
    let id = NodeId::new();
    let uuid = id.as_uuid();
    assert_eq!(uuid.get_version_num(), 4);
    assert_eq!(uuid.get_variant(), uuid::Variant::RFC4122);
    let default_id = NodeId::default();
    assert_eq!(default_id.as_uuid().get_version_num(), 4);
}

#[test]
fn parse_accepts_every_uuid_format() {
    let hyphenated = NodeId::parse("550e8400-e29b-41d4-a716-446655440000").unwrap();
    let simple = NodeId::parse("550e8400e29b41d4a716446655440000").unwrap();
    let braced = NodeId::parse("{550e8400-e29b-41d4-a716-446655440000}").unwrap();
    let urn = NodeId::parse("urn:uuid:550e8400-e29b-41d4-a716-446655440000").unwrap();
    assert_eq!(hyphenated, simple);
    assert_eq!(hyphenated, braced);
    assert_eq!(hyphenated, urn);
    assert_eq!(
        hyphenated.as_uuid(),
        Uuid::parse_str("550e8400-e29b-41d4-a716-446655440000").unwrap()
    );
}

#[test]
fn parse_rejects_what_is_not_a_uuid() {
    assert!(NodeId::parse("not-a-uuid").is_err());
    assert!(NodeId::parse("").is_err());
    assert!("550e8400-e29b-41d4-a716-44665544000g".parse::<NodeId>().is_err());
}

#[test]
fn nil_id_text_is_all_zeros() {
    let id = NodeId::from_uuid(Uuid::nil());
    assert_eq!(id.to_string(), "00000000-0000-0000-0000-000000000000");
    assert_eq!(NodeId::parse("00000000-0000-0000-0000-000000000000").unwrap(), id);
}
