use nox::{AssetId, AssetStore, Handle};

#[test]
fn handle_keeps_id() {
    let h: Handle<u8> = Handle::new(17);
    assert_eq!(h.id, 17);
    let c = h;
    assert_eq!(c.id, 17);
}

#[test]
fn store_assigns_positions_in_order() {
    let mut store = AssetStore::new();
    let a = store.insert_bytes(AssetId(3), vec![1, 2, 3]);
    let b = store.insert_bytes(AssetId(4), vec![9]);
    assert_eq!(a.id, 0);
    assert_eq!(b.id, 1);
    assert_eq!(store.len(), 2);
    let item = store.value(b).unwrap();
    assert_eq!(item.asset_id, AssetId(4));
    assert_eq!(item.generation, 1);
    assert_eq!(item.bytes(), vec![9]);
    assert_eq!(store.value(a).unwrap().bytes(), vec![1, 2, 3]);
    assert_eq!(store.gen(a), Some(1));
}

#[test]
fn store_misses_unknown_handle() {
    let mut store = AssetStore::new();
    store.insert_bytes(AssetId(1), vec![]);
    let h: Handle<()> = Handle::new(5);
    assert!(store.value(h).is_none());
    assert_eq!(store.gen(h), None);
    assert_eq!(store.value(Handle::<()>::new(0)).unwrap().bytes(), Vec::<u8>::new());
}
