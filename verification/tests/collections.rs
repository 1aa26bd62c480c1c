use garlemald::hash_table::{Efficient32BitHashTable, Efficient64BitHashTable};
use garlemald::server_list::{ServerEntry, ServerList};

fn entry(id: u32, name: &str, active: bool) -> ServerEntry {
    ServerEntry {
        id,
        name: name.to_string(),
        address: "127.0.0.1".to_string(),
        port: 54992,
        list_position: 1,
        max_chars: 5000,
        is_active: active,
    }
}

#[test]
fn active_filters_and_by_id_does_not() {
    let list = ServerList { servers: vec![entry(1, "A", true), entry(2, "B", false)] };
    assert_eq!(list.active().len(), 1);
    assert_eq!(list.active()[0].id, 1);
    assert_eq!(list.by_id(2).unwrap().name, "B");
    assert!(list.by_id(3).is_none());
}

#[test]
fn default_list_is_one_local_world() {
    let list = ServerList::default();
    assert_eq!(list.servers.len(), 1);
    let w = &list.servers[0];
    assert_eq!((w.id, w.port, w.is_active), (1, 54992, true));
    assert_eq!(w.name, "Fernehalwes");
}

#[test]
fn hash_tables_store_and_count() {
    let mut t: Efficient32BitHashTable<&str> = Efficient32BitHashTable::with_capacity(4);
    t.add(1, "a");
    t.add(1, "b");
    t.add(2, "c");
    assert_eq!(t.get(1), Some(&"b"));
    assert!(t.has(2));
    assert!(!t.has(3));
    assert_eq!(t.count(), 2);
    let mut u: Efficient64BitHashTable<u8> = Efficient64BitHashTable::new();
    u.add(1 << 40, 9);
    assert_eq!(u.get(1 << 40), Some(&9));
    assert_eq!(u.count(), 1);
}
