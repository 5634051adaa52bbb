use smap_registry::record::SMap;
use smap_registry::registry::Registry;

fn rec(id: &str) -> SMap {
    SMap::new(id.to_string(), format!("title {id}"), format!("/tmp/{id}"))
}

#[test]
fn new_registry_is_empty() {
    let reg = Registry::new();
    assert_eq!(reg.len(), 0);
    assert!(reg.snapshot().is_empty());
}

#[test]
fn snapshot_keeps_append_order() {
    let mut reg = Registry::new();
    for id in ["c", "a", "b"] {
        reg.append(rec(id));
    }
    let ids: Vec<String> = reg.snapshot().into_iter().map(|r| r.uuid).collect();
    assert_eq!(ids, vec!["c", "a", "b"]);
}

#[test]
fn earlier_snapshot_is_a_prefix_of_later_state() {
    let mut reg = Registry::new();
    reg.append(rec("x"));
    let early = reg.snapshot();
    reg.append(rec("y"));
    reg.append(rec("z"));
    let late = reg.snapshot();
    assert_eq!(early.len(), 1);
    assert_eq!(late.len(), 3);
    assert_eq!(early[0].uuid, late[0].uuid);
    assert_eq!(late[1].uuid, "y");
    assert_eq!(late[2].uuid, "z");
}

#[test]
fn snapshot_is_a_copy() {
    let mut reg = Registry::new();
    reg.append(rec("x"));
    let mut copy = reg.snapshot();
    copy[0].title = "changed".to_string();
    assert_eq!(reg.snapshot()[0].title, "title x");
    assert!(reg.contains_id(&"x".to_string()));
    assert!(!reg.contains_id(&"y".to_string()));
}

#[test]
fn cloned_record_keeps_fields() {
    let r = rec("q");
    let c = r.clone();
    assert_eq!((c.uuid, c.title, c.path), (r.uuid, r.title, r.path));
}
