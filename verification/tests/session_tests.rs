use zerodrop::session::SessionTable;

#[test]
fn register_and_list() {
    let mut t: SessionTable<u32> = SessionTable::new();
    assert!(!t.is_connected("zd_a"));
    let r = t.register("zd_a".to_string(), Some("A".to_string()), 1, "wss_1".to_string(), 10);
    assert_eq!(r, Some("wss_1".to_string()));
    assert!(t.is_connected("zd_a"));
    assert_eq!(t.sender_of("zd_a"), Some(&1));
    let again = t.register("zd_a".to_string(), None, 2, "wss_2".to_string(), 11);
    assert_eq!(again, None);
    assert_eq!(t.sender_of("zd_a"), Some(&1));
    t.register("zd_b".to_string(), None, 3, "wss_3".to_string(), 12);
    let list = t.list_connections();
    assert_eq!(list.len(), 2);
    assert_eq!(list[0].peer_device_id, "zd_a");
    assert_eq!(list[0].peer_device_name, Some("A".to_string()));
    assert!(list[0].connected);
    assert_eq!(list[0].state, "connected");
    assert_eq!(list[0].last_event_at, Some(10));
    assert_eq!(list[1].peer_device_id, "zd_b");
    assert_eq!(list[1].last_event_at, Some(12));
}

#[test]
fn mark_event_updates_only_that_peer() {
    let mut t: SessionTable<u32> = SessionTable::new();
    t.register("zd_a".to_string(), None, 1, "wss_1".to_string(), 10);
    t.register("zd_b".to_string(), None, 2, "wss_2".to_string(), 10);
    t.mark_event("zd_b", 99);
    t.mark_event("zd_unknown", 100);
    let list = t.list_connections();
    assert_eq!(list[0].last_event_at, Some(10));
    assert_eq!(list[1].last_event_at, Some(99));
    assert_eq!(list.len(), 2);
}

#[test]
fn unregister_only_the_matching_session() {
    let mut t: SessionTable<u32> = SessionTable::new();
    t.register("zd_a".to_string(), None, 1, "wss_1".to_string(), 10);
    assert!(t.unregister("zd_a", Some("wss_old")).is_none());
    assert!(t.is_connected("zd_a"));
    let closed = t.unregister("zd_a", Some("wss_1")).unwrap();
    assert_eq!(closed.session_id, "wss_1");
    assert_eq!(closed.sender, 1);
    assert!(!t.is_connected("zd_a"));
    assert!(t.unregister("zd_a", None).is_none());
    t.register("zd_a".to_string(), None, 5, "wss_5".to_string(), 20);
    assert!(t.unregister("zd_a", None).is_some());
    assert!(t.list_connections().is_empty());
}
