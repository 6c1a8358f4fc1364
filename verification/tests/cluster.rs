use sync_mesh_core::backend::BackendError;
use sync_mesh_core::cluster::NodeTable;

#[test]
fn inserted_nodes_are_found_by_name() {
    let mut table: NodeTable<u32> = NodeTable::new();
    assert_eq!(table.len(), 0);
    assert_eq!(table.insert("alice".to_string(), 1), None);
    assert_eq!(table.insert("bob".to_string(), 2), None);
    assert_eq!(table.insert("carol".to_string(), 3), None);
    assert_eq!(table.len(), 3);
    assert_eq!(table.get("alice"), Some(&1));
    assert_eq!(table.get("bob"), Some(&2));
    assert_eq!(table.get("carol"), Some(&3));
    assert_eq!(table.get("dave"), None);
}

#[test]
fn inserting_a_known_name_replaces_its_handle() {
    let mut table: NodeTable<u32> = NodeTable::new();
    table.insert("alice".to_string(), 1);
    assert_eq!(table.insert("alice".to_string(), 9), Some(1));
    assert_eq!(table.get("alice"), Some(&9));
    assert_eq!(table.len(), 1);
}

#[test]
fn removed_nodes_are_gone() {
    let mut table: NodeTable<u32> = NodeTable::new();
    for (i, name) in ["alice", "bob", "carol"].into_iter().enumerate() {
        table.insert(name.to_string(), i as u32);
    }
    for name in ["alice", "bob", "carol"] {
        assert!(table.remove(name).is_some());
    }
    for name in ["alice", "bob", "carol"] {
        assert!(table.lookup(name).is_err(), "{name} should no longer be known after removal");
    }
    assert_eq!(table.len(), 0);
    assert_eq!(table.remove("alice"), None);
}

#[test]
fn unknown_name_gives_a_spawn_error() {
    let mut table: NodeTable<u32> = NodeTable::new();
    table.insert("first".to_string(), 1);
    assert_eq!(table.lookup("first").ok(), Some(&1));
    match table.lookup("dave") {
        Err(BackendError::Spawn(message)) => {
            assert_eq!(message, "no node named \"dave\" in this cluster")
        }
        other => panic!("unexpected {other:?}"),
    }
    match table.lookup("a\"b") {
        Err(BackendError::Spawn(message)) => {
            assert_eq!(message, "no node named \"a\\\"b\" in this cluster")
        }
        other => panic!("unexpected {other:?}"),
    }
}

#[test]
fn names_lists_each_node_once() {
    let mut table: NodeTable<u32> = NodeTable::new();
    table.insert("alice".to_string(), 1);
    table.insert("bob".to_string(), 2);
    table.insert("alice".to_string(), 3);
    let mut names = table.names();
    names.sort();
    assert_eq!(names, vec!["alice".to_string(), "bob".to_string()]);
}
