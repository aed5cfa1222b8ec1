use fatherbox::dto::CommonBody;
use fatherbox::dto::CreateBody;
use fatherbox::dto::EnableBody;
use fatherbox::dto::ListBody;
use fatherbox::dto::SyncBody;
use fatherbox::dto::UpdateBody;
use fatherbox::file::FileError;
use fatherbox::file::FileTree;
use fatherbox::file::Model;

fn node(id: &str, name: &str, kind: &str, pid: &str, wid: &str) -> Model {
    Model {
        id: id.to_string(),
        name: name.to_string(),
        kind: kind.to_string(),
        pid: pid.to_string(),
        wid: wid.to_string(),
        size: 0,
        create_time: 10,
        update_time: 10,
        state: 1,
    }
}

#[test]
fn insert_builds_a_forest() {
    let mut tree = FileTree::new("ws-1".to_string());
    assert_eq!(tree.len(), 0);
    assert!(tree.try_insert(node("d1", "docs", "directory", "ws-1", "ws-1")).is_ok());
    assert!(tree.try_insert(node("f1", "abc.txt", "file", "d1", "ws-1")).is_ok());
    assert!(tree.try_insert(node("f2", "notes.txt", "file", "d1", "ws-1")).is_ok());
    assert_eq!(tree.len(), 3);
    assert_eq!(tree.find_index(&"f1".to_string()), Some(1));
    assert_eq!(tree.find_index(&"nope".to_string()), None);
}

#[test]
fn insert_rejects_foreign_workspace() {
    let mut tree = FileTree::new("ws-1".to_string());
    let r = tree.try_insert(node("d1", "docs", "directory", "ws-2", "ws-2"));
    assert_eq!(r.unwrap_err(), FileError::ForeignWorkspace);
    assert_eq!(tree.len(), 0);
}

#[test]
fn insert_rejects_empty_id() {
    let mut tree = FileTree::new("ws-1".to_string());
    let r = tree.try_insert(node("", "docs", "directory", "ws-1", "ws-1"));
    assert_eq!(r.unwrap_err(), FileError::EmptyId);
}

#[test]
fn insert_rejects_reserved_id() {
    let mut tree = FileTree::new("ws-1".to_string());
    let r = tree.try_insert(node("ws-1", "docs", "directory", "ws-1", "ws-1"));
    assert_eq!(r.unwrap_err(), FileError::ReservedId);
}

#[test]
fn insert_rejects_duplicate_id() {
    let mut tree = FileTree::new("ws-1".to_string());
    assert!(tree.try_insert(node("d1", "docs", "directory", "ws-1", "ws-1")).is_ok());
    let r = tree.try_insert(node("d1", "other", "directory", "ws-1", "ws-1"));
    assert_eq!(r.unwrap_err(), FileError::DuplicateId);
    assert_eq!(tree.len(), 1);
}

#[test]
fn insert_rejects_invalid_kind() {
    let mut tree = FileTree::new("ws-1".to_string());
    let r = tree.try_insert(node("d1", "docs", "folder", "ws-1", "ws-1"));
    assert_eq!(r.unwrap_err(), FileError::InvalidKind);
}

#[test]
fn insert_rejects_negative_size() {
    let mut tree = FileTree::new("ws-1".to_string());
    let mut n = node("f1", "abc.txt", "file", "ws-1", "ws-1");
    n.size = -1;
    let r = tree.try_insert(n);
    assert_eq!(r.unwrap_err(), FileError::NegativeSize);
}

#[test]
fn insert_rejects_missing_parent() {
    let mut tree = FileTree::new("ws-1".to_string());
    let r = tree.try_insert(node("f1", "abc.txt", "file", "d9", "ws-1"));
    assert_eq!(r.unwrap_err(), FileError::MissingParent);
}

#[test]
fn trans_models_resolve_parent_and_workspace_names() {
    let mut tree = FileTree::new("ws-1".to_string());
    assert!(tree.try_insert(node("d1", "docs", "directory", "ws-1", "ws-1")).is_ok());
    let mut f = node("f1", "abc.txt", "file", "d1", "ws-1");
    f.size = 7;
    assert!(tree.try_insert(f).is_ok());
    let rows = tree.trans_models(&"default".to_string());
    assert_eq!(rows.len(), 2);
    assert_eq!(rows[0].id, "d1");
    assert_eq!(rows[0].parent_file_name, None);
    assert_eq!(rows[0].workspace_name, "default");
    assert_eq!(rows[1].id, "f1");
    assert_eq!(rows[1].name, "abc.txt");
    assert_eq!(rows[1].kind, "file");
    assert_eq!(rows[1].pid, "d1");
    assert_eq!(rows[1].parent_file_name, Some("docs".to_string()));
    assert_eq!(rows[1].wid, "ws-1");
    assert_eq!(rows[1].workspace_name, "default");
    assert_eq!(rows[1].size, 7);
    assert_eq!(rows[1].create_time, 10);
    assert_eq!(rows[1].update_time, 10);
    assert_eq!(rows[1].state, 1);
}

#[test]
fn request_bodies_hold_their_fields() {
    let create = CreateBody { name: "m1".to_string(), source_id: "s1".to_string() };
    assert_eq!(create.name, "m1");
    assert_eq!(create.source_id, "s1");
    let update = UpdateBody { id: "m1".to_string(), name: "m2".to_string() };
    assert_eq!(update, update.clone());
    let enable = EnableBody { id: "m1".to_string(), enable: true };
    assert!(enable.enable);
    let sync = SyncBody { id: "m1".to_string(), sync: false };
    assert!(!sync.sync);
    let list = ListBody { source_id: "s1".to_string() };
    assert_eq!(list.source_id, "s1");
    let common = CommonBody { id: "m1".to_string() };
    assert_eq!(common.id, "m1");
}
