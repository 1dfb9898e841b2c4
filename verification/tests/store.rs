use nmos_core::activation::{make_activation, ActivationMode};
use nmos_core::api_version::ApiVersion;
use nmos_core::document::Document;
use nmos_core::resource::Resource;
use nmos_core::store::ResourceStore;
use nmos_core::tai::Tai;
use nmos_core::types::ResourceType;

fn tai(seconds: u64, nanoseconds: u32) -> Tai {
    Tai { seconds, nanoseconds }
}

fn sender(id: &str) -> Resource {
    Resource::new(
        id.to_string(),
        ResourceType::Sender,
        ApiVersion::new(1, 2),
        ApiVersion::new(1, 0),
        tai(100, 0),
        Document::new(),
    )
}

#[test]
fn a_new_store_is_empty_and_running() {
    let store = ResourceStore::new(30);
    assert_eq!(store.len(), 0);
    assert!(!store.is_shutting_down());
    assert_eq!(store.immediate_activation_max(), 30);
    assert!(store.find("a", ResourceType::Sender).is_none());
}

#[test]
fn find_asks_for_the_id_and_the_type() {
    let mut store = ResourceStore::new(30);
    assert!(store.insert(sender("a")));
    assert!(store.insert(sender("b")));
    assert_eq!(store.len(), 2);
    assert_eq!(store.find("a", ResourceType::Sender), Some(&sender("a")));
    assert_eq!(store.find("b", ResourceType::Sender), Some(&sender("b")));
    assert_eq!(store.find("a", ResourceType::Receiver), None);
    assert_eq!(store.find("c", ResourceType::Sender), None);
}

#[test]
fn an_id_is_stored_once() {
    let mut store = ResourceStore::new(30);
    assert!(store.insert(sender("a")));
    let mut other = sender("a");
    other.type_ = ResourceType::Receiver;
    assert!(!store.insert(other));
    assert_eq!(store.len(), 1);
    assert_eq!(store.find("a", ResourceType::Sender), Some(&sender("a")));
}

#[test]
fn erase_takes_the_resource_out() {
    let mut store = ResourceStore::new(30);
    store.insert(sender("a"));
    store.insert(sender("b"));
    store.insert(sender("c"));
    assert_eq!(store.erase("b", ResourceType::Receiver), None);
    assert_eq!(store.len(), 3);
    assert_eq!(store.erase("b", ResourceType::Sender), Some(sender("b")));
    assert_eq!(store.len(), 2);
    assert_eq!(store.find("b", ResourceType::Sender), None);
    assert_eq!(store.find("a", ResourceType::Sender), Some(&sender("a")));
    assert_eq!(store.find("c", ResourceType::Sender), Some(&sender("c")));
    assert_eq!(store.erase("b", ResourceType::Sender), None);
}

#[test]
fn modify_applies_the_change_and_moves_the_token() {
    let mut store = ResourceStore::new(30);
    store.insert(sender("a"));
    store.insert(sender("b"));
    let changed = store.modify("a", ResourceType::Sender, &tai(200, 5), |mut r| {
        r.staged.mode = Some(ActivationMode::ActivateScheduledAbsolute);
        r.data.insert("label".to_string(), "x".to_string());
        r
    });
    assert!(changed);
    let a = store.find("a", ResourceType::Sender).unwrap();
    assert_eq!(a.updated, tai(200, 5));
    assert_eq!(a.staged.mode, Some(ActivationMode::ActivateScheduledAbsolute));
    assert_eq!(a.data.get("label"), Some(&"x".to_string()));
    assert_eq!(store.find("b", ResourceType::Sender), Some(&sender("b")));
    assert_eq!(store.len(), 2);
}

#[test]
fn the_token_moves_forward_even_when_the_clock_does_not() {
    let mut store = ResourceStore::new(30);
    store.insert(sender("a"));
    assert!(store.modify("a", ResourceType::Sender, &tai(100, 0), |r| r));
    assert_eq!(store.find("a", ResourceType::Sender).unwrap().updated, tai(100, 1));
    assert!(store.modify("a", ResourceType::Sender, &tai(50, 0), |r| r));
    assert_eq!(store.find("a", ResourceType::Sender).unwrap().updated, tai(100, 2));
}

#[test]
fn modify_keeps_the_id_and_the_type() {
    let mut store = ResourceStore::new(30);
    store.insert(sender("a"));
    assert!(store.modify("a", ResourceType::Sender, &tai(200, 0), |mut r| {
        r.id = "z".to_string();
        r.type_ = ResourceType::Flow;
        r.updated = Tai { seconds: 0, nanoseconds: 0 };
        r
    }));
    let a = store.find("a", ResourceType::Sender).unwrap();
    assert_eq!(a.id, "a");
    assert_eq!(a.type_, ResourceType::Sender);
    assert_eq!(a.updated, tai(200, 0));
    assert!(store.find("z", ResourceType::Flow).is_none());
}

#[test]
fn modify_without_the_resource_changes_nothing() {
    let mut store = ResourceStore::new(30);
    store.insert(sender("a"));
    assert!(!store.modify("b", ResourceType::Sender, &tai(200, 0), |r| r));
    assert!(!store.modify("a", ResourceType::Receiver, &tai(200, 0), |mut r| {
        r.staged = make_activation();
        r.data.insert("x".to_string(), "y".to_string());
        r
    }));
    assert_eq!(store.find("a", ResourceType::Sender), Some(&sender("a")));
}

#[test]
fn shut_down_sets_the_flag_and_keeps_the_resources() {
    let mut store = ResourceStore::new(3);
    store.insert(sender("a"));
    store.shut_down();
    assert!(store.is_shutting_down());
    assert_eq!(store.len(), 1);
    assert_eq!(store.immediate_activation_max(), 3);
    assert_eq!(store.find("a", ResourceType::Sender), Some(&sender("a")));
}
