use myclaw::registry::{ChannelId, Registry};

#[test]
fn an_empty_registry_holds_nothing() {
    let registry = Registry::new();
    assert_eq!(registry.len(), 0);
    assert_eq!(registry.get("a"), None);
    assert!(!registry.contains_key("a"));
}

#[test]
fn insert_then_get() {
    let mut registry = Registry::new();
    registry.insert("a", ChannelId(1));
    registry.insert("b", ChannelId(2));
    assert_eq!(registry.get("a"), Some(ChannelId(1)));
    assert_eq!(registry.get("b"), Some(ChannelId(2)));
    assert_eq!(registry.get("c"), None);
    assert_eq!(registry.len(), 2);
}

#[test]
fn insert_under_a_present_key_overwrites() {
    let mut registry = Registry::new();
    registry.insert("a", ChannelId(1));
    registry.insert("a", ChannelId(9));
    assert_eq!(registry.get("a"), Some(ChannelId(9)));
    assert_eq!(registry.len(), 1);
}

#[test]
fn remove_takes_only_the_named_key() {
    let mut registry = Registry::new();
    registry.insert("a", ChannelId(1));
    registry.insert("b", ChannelId(2));
    registry.insert("c", ChannelId(3));
    registry.remove("b");
    assert_eq!(registry.get("a"), Some(ChannelId(1)));
    assert_eq!(registry.get("b"), None);
    assert_eq!(registry.get("c"), Some(ChannelId(3)));
    registry.remove("missing");
    assert_eq!(registry.len(), 2);
}

#[test]
fn drop_channels_removes_the_owner_and_the_closed() {
    let mut registry = Registry::new();
    registry.insert("r1", ChannelId(1));
    registry.insert("r2", ChannelId(2));
    registry.insert("r3", ChannelId(1));
    registry.insert("r4", ChannelId(3));
    registry.insert("r5", ChannelId(4));
    registry.drop_channels(Some(ChannelId(1)), &vec![ChannelId(3), ChannelId(8)]);
    assert_eq!(registry.get("r1"), None);
    assert_eq!(registry.get("r2"), Some(ChannelId(2)));
    assert_eq!(registry.get("r3"), None);
    assert_eq!(registry.get("r4"), None);
    assert_eq!(registry.get("r5"), Some(ChannelId(4)));
    assert_eq!(registry.len(), 2);
}

#[test]
fn drop_channels_with_nothing_to_drop_keeps_all() {
    let mut registry = Registry::new();
    registry.insert("r1", ChannelId(1));
    registry.drop_channels(None, &vec![]);
    assert_eq!(registry.len(), 1);
}

#[test]
fn keys_are_compared_by_content() {
    let mut registry = Registry::new();
    registry.insert("", ChannelId(0));
    registry.insert("é", ChannelId(1));
    registry.insert("e", ChannelId(2));
    assert_eq!(registry.get(""), Some(ChannelId(0)));
    assert_eq!(registry.get("é"), Some(ChannelId(1)));
    assert_eq!(registry.get("e"), Some(ChannelId(2)));
}
