use std::collections::HashSet;

use zerodrop::session::SessionTable;
use zerodrop::text::trim;
use zerodrop::transfer::{download_candidate, safe_file_name, sanitize_inbound_filename};

#[test]
fn register_then_unregister_restores_the_table() {
    let mut t: SessionTable<u8> = SessionTable::new();
    t.register("zd_a".to_string(), Some("A".to_string()), 1, "wss_a".to_string(), 1);
    let before: Vec<String> = t.list_connections().into_iter().map(|c| c.peer_device_id).collect();
    let sid = t
        .register("zd_b".to_string(), None, 2, "wss_b".to_string(), 2)
        .unwrap();
    assert!(t.is_connected("zd_b"));
    t.unregister("zd_b", Some(&sid)).unwrap();
    let after: Vec<String> = t.list_connections().into_iter().map(|c| c.peer_device_id).collect();
    assert_eq!(before, after);
    assert!(!t.is_connected("zd_b"));
}

#[test]
fn download_candidates_are_distinct() {
    for base in ["a.txt", "archive.tar.gz", ".bashrc", "README", "foo.", "x (1).txt"] {
        let names: HashSet<String> = (0..200).map(|i| download_candidate(base, i)).collect();
        assert_eq!(names.len(), 200, "{base}");
    }
}

#[test]
fn trimming_twice_changes_nothing() {
    for s in ["  a b ", "\u{2003}x\u{3000}", "", "   ", "abc"] {
        let once = trim(s);
        assert_eq!(trim(&once), once);
    }
}

#[test]
fn sender_names_are_accepted_by_the_receiver() {
    let name = safe_file_name("/home/u/Pictures/ cat.png").unwrap();
    assert_eq!(name, "cat.png");
    assert_eq!(sanitize_inbound_filename(&name), Ok(name.clone()));
    let odd = safe_file_name("/home/u/a\\b.txt").unwrap();
    assert_eq!(odd, "a\\b.txt");
    assert_eq!(sanitize_inbound_filename(&odd), Err("文件名不能包含路径".to_string()));
}
