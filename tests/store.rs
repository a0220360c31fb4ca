use telegram_cloud::store::{FileRecord, MetadataStore};

fn record(name: &str, size: u64) -> FileRecord {
    FileRecord::new(name, &format!("tg_file_{}", name), "2024-01-02 03:04:05", size)
}

#[test]
fn insert_appends_in_order() {
    let mut store = MetadataStore::new();
    store.insert(record("a.txt", 1));
    store.insert(record("b.txt", 2));
    let snap = store.snapshot();
    assert_eq!(snap.len(), 2);
    assert_eq!(snap[0].filename, "a.txt");
    assert_eq!(snap[1].filename, "b.txt");
}

#[test]
fn reopened_store_keeps_records_and_order() {
    let mut store = MetadataStore::new();
    for (i, name) in ["one", "two", "three"].iter().enumerate() {
        store.insert(record(name, i as u64 * 100));
    }
    let reopened = MetadataStore::from_snapshot(Some(store.snapshot()));
    let snap = reopened.snapshot();
    let names: Vec<&str> = snap.iter().map(|r| r.filename.as_str()).collect();
    assert_eq!(names, ["one", "two", "three"]);
    assert_eq!(snap[2].file_size, 200);
    let newest_first: Vec<String> = reopened.read_all().into_iter().map(|r| r.filename).collect();
    assert_eq!(newest_first, ["three", "two", "one"]);
}

#[test]
fn missing_snapshot_gives_empty_store() {
    let store = MetadataStore::from_snapshot(None);
    assert_eq!(store.len(), 0);
    assert!(store.read_all().is_empty());
}

#[test]
fn malformed_snapshot_gives_empty_store() {
    let decoded: Option<Vec<FileRecord>> = serde_json::from_str::<serde_json::Value>("[{ not json")
        .ok()
        .map(|_| Vec::new());
    assert!(decoded.is_none());
    let store = MetadataStore::from_snapshot(decoded);
    assert_eq!(store.len(), 0);
}

#[test]
fn insert_file_stamps_local_time() {
    let mut store = MetadataStore::new();
    store.insert_file("photo.png", "tg_file_photo.png", 2048);
    let all = store.read_all();
    assert_eq!(all.len(), 1);
    assert_eq!(all[0].filename, "photo.png");
    assert_eq!(all[0].file_id, "tg_file_photo.png");
    assert_eq!(all[0].file_size, 2048);
    let d = all[0].upload_date.as_bytes();
    assert_eq!(d.len(), 19);
    assert_eq!(d[4], b'-');
    assert_eq!(d[10], b' ');
    assert_eq!(d[13], b':');
}

#[test]
fn entries_are_newest_first_with_human_sizes() {
    let mut store = MetadataStore::new();
    store.insert(record("small", 500));
    store.insert(record("big", 1_572_864));
    let entries = store.get_all_files();
    assert_eq!(entries.len(), 2);
    assert_eq!(entries[0].filename, "big");
    assert_eq!(entries[0].size, "1.50 MB");
    assert_eq!(entries[1].filename, "small");
    assert_eq!(entries[1].size, "500 B");
    assert_eq!(entries[1].upload_date, "2024-01-02 03:04:05");
}

#[test]
fn duplicate_copies_every_field() {
    let r = record("x", 7);
    let d = r.duplicate();
    assert_eq!(d.filename, "x");
    assert_eq!(d.file_id, "tg_file_x");
    assert_eq!(d.file_size, 7);
}
