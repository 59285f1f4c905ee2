use moddedboost::cache::{fresh_record, get_metadata, refresh, resolve, ObservedFile, RegularFile};
use moddedboost::checksum::checksum;
use moddedboost::store::{FileMetadata, MetadataStore};

fn present(path: &str, modified: u64, content: &[u8]) -> ObservedFile {
    ObservedFile {
        path: path.to_string(),
        file: Some(RegularFile { modified, content: content.to_vec() }),
    }
}

fn missing(path: &str) -> ObservedFile {
    ObservedFile { path: path.to_string(), file: None }
}

fn triple(record: &FileMetadata) -> (String, String, u64) {
    (record.path().to_string(), record.checksum().to_string(), record.last_modified())
}

fn triples(records: &Vec<FileMetadata>) -> Vec<(String, String, u64)> {
    records.iter().map(triple).collect()
}

#[test]
fn missing_paths_are_omitted() {
    let mut store = MetadataStore::load(Some(vec![FileMetadata::new(
        "/kept".to_string(),
        "abc".to_string(),
        7,
    )]));
    let files = vec![missing("/gone"), missing("/kept"), missing("")];
    let result = get_metadata(&mut store, &files, false);
    assert!(result.is_empty());
    assert_eq!(
        triples(store.records()),
        vec![("/kept".to_string(), "abc".to_string(), 7)]
    );
}

#[test]
fn missing_paths_between_present_ones_leave_no_gap() {
    let mut store = MetadataStore::new();
    let files = vec![
        missing("/m1"),
        present("/a", 1, b"a"),
        missing("/m2"),
        present("/b", 2, b"b"),
    ];
    let result = get_metadata(&mut store, &files, false);
    assert_eq!(
        triples(&result),
        vec![
            ("/a".to_string(), checksum(b"a"), 1),
            ("/b".to_string(), checksum(b"b"), 2),
        ]
    );
    assert_eq!(triples(store.records()), triples(&result));
}

#[test]
fn new_path_gets_checksum_and_epoch() {
    let mut store = MetadataStore::new();
    let result = get_metadata(&mut store, &vec![present("/new", 1234, b"abc")], false);
    assert_eq!(
        triples(&result),
        vec![("/new".to_string(), "900150983cd24fb0d6963f7d28e17f72".to_string(), 1234)]
    );
    assert_eq!(store.len(), 1);
    assert_eq!(triples(store.records()), triples(&result));
}

#[test]
fn fresh_record_is_not_recomputed_when_content_changes() {
    let mut store = MetadataStore::new();
    let first = get_metadata(&mut store, &vec![present("/f", 50, b"before")], false);
    let second = get_metadata(&mut store, &vec![present("/f", 50, b"after, and longer")], false);
    assert_eq!(triples(&first), triples(&second));
    assert_eq!(second[0].checksum(), checksum(b"before"));
    assert_eq!(store.len(), 1);
}

#[test]
fn ignore_modtime_always_recomputes() {
    let mut store = MetadataStore::new();
    get_metadata(&mut store, &vec![present("/f", 50, b"before")], false);
    let result = get_metadata(&mut store, &vec![present("/f", 50, b"after")], true);
    assert_eq!(triples(&result), vec![("/f".to_string(), checksum(b"after"), 50)]);
    assert_eq!(triples(store.records()), triples(&result));
}

#[test]
fn ignore_modtime_replaces_a_wrong_checksum_at_the_same_epoch() {
    let mut store = MetadataStore::load(Some(vec![FileMetadata::new(
        "/f".to_string(),
        "not a checksum".to_string(),
        9,
    )]));
    let result = get_metadata(&mut store, &vec![present("/f", 9, b"")], true);
    assert_eq!(
        triples(&result),
        vec![("/f".to_string(), "d41d8cd98f00b204e9800998ecf8427e".to_string(), 9)]
    );
}

#[test]
fn cleared_store_behaves_as_on_first_use() {
    let files = vec![present("/p", 3, b"content")];
    let mut first_use = MetadataStore::load(None);
    let expected = get_metadata(&mut first_use, &files, false);

    let mut store = MetadataStore::load(Some(vec![FileMetadata::new(
        "/p".to_string(),
        "stale".to_string(),
        3,
    )]));
    store.clear();
    assert_eq!(store.len(), 0);
    let result = get_metadata(&mut store, &files, false);
    assert_eq!(triples(&result), triples(&expected));
    assert_eq!(result[0].checksum(), checksum(b"content"));
    assert_eq!(triples(store.records()), triples(first_use.records()));
}

#[test]
fn stored_record_is_returned_unchanged_then_refreshed_when_mtime_moves() {
    let mut store = MetadataStore::load(Some(vec![FileMetadata::new(
        "/a".to_string(),
        "abc".to_string(),
        100,
    )]));
    let unchanged = get_metadata(&mut store, &vec![present("/a", 100, b"whatever")], false);
    assert_eq!(triples(&unchanged), vec![("/a".to_string(), "abc".to_string(), 100)]);
    assert_eq!(
        triples(store.records()),
        vec![("/a".to_string(), "abc".to_string(), 100)]
    );

    let refreshed = get_metadata(&mut store, &vec![present("/a", 200, b"whatever")], false);
    assert_eq!(
        triples(&refreshed),
        vec![("/a".to_string(), checksum(b"whatever"), 200)]
    );
    assert_ne!(refreshed[0].checksum(), "abc");
    assert_eq!(triples(store.records()), triples(&refreshed));
}

#[test]
fn stale_record_is_replaced_in_its_place() {
    let mut store = MetadataStore::load(Some(vec![
        FileMetadata::new("/x".to_string(), "xx".to_string(), 1),
        FileMetadata::new("/y".to_string(), "yy".to_string(), 2),
        FileMetadata::new("/z".to_string(), "zz".to_string(), 3),
    ]));
    let result = get_metadata(&mut store, &vec![present("/y", 20, b"y")], false);
    assert_eq!(triples(&result), vec![("/y".to_string(), checksum(b"y"), 20)]);
    assert_eq!(
        triples(store.records()),
        vec![
            ("/x".to_string(), "xx".to_string(), 1),
            ("/y".to_string(), checksum(b"y"), 20),
            ("/z".to_string(), "zz".to_string(), 3),
        ]
    );
}

#[test]
fn untouched_records_are_kept_for_the_rewrite() {
    let mut store = MetadataStore::load(Some(vec![
        FileMetadata::new("/old".to_string(), "o".to_string(), 1),
    ]));
    get_metadata(&mut store, &vec![present("/new", 2, b"n")], false);
    assert_eq!(
        triples(store.records()),
        vec![
            ("/old".to_string(), "o".to_string(), 1),
            ("/new".to_string(), checksum(b"n"), 2),
        ]
    );
}

#[test]
fn a_path_given_twice_is_hashed_once() {
    let mut store = MetadataStore::new();
    let files = vec![present("/d", 5, b"first"), present("/d", 5, b"second")];
    let result = get_metadata(&mut store, &files, false);
    assert_eq!(
        triples(&result),
        vec![
            ("/d".to_string(), checksum(b"first"), 5),
            ("/d".to_string(), checksum(b"first"), 5),
        ]
    );
    assert_eq!(store.len(), 1);
}

#[test]
fn duplicate_records_in_a_loaded_store_resolve_to_the_first() {
    let mut store = MetadataStore::load(Some(vec![
        FileMetadata::new("/d".to_string(), "one".to_string(), 1),
        FileMetadata::new("/d".to_string(), "two".to_string(), 2),
    ]));
    assert_eq!(store.find("/d"), Some(0));
    let result = get_metadata(&mut store, &vec![present("/d", 2, b"d")], false);
    assert_eq!(triples(&result), vec![("/d".to_string(), checksum(b"d"), 2)]);
    assert_eq!(
        triples(store.records()),
        vec![
            ("/d".to_string(), checksum(b"d"), 2),
            ("/d".to_string(), "two".to_string(), 2),
        ]
    );
}

#[test]
fn lookup_and_refresh_step_by_step() {
    let mut store = MetadataStore::new();
    assert!(fresh_record(&store, "/s", 1, false).is_none());
    let stored = refresh(&mut store, "/s", 1, "sum".to_string());
    assert_eq!(triple(&stored), ("/s".to_string(), "sum".to_string(), 1));
    let found = fresh_record(&store, "/s", 1, false).expect("fresh");
    assert_eq!(triple(&found), triple(&stored));
    assert!(fresh_record(&store, "/s", 2, false).is_none());
    assert!(fresh_record(&store, "/s", 1, true).is_none());
    assert!(fresh_record(&store, "/other", 1, false).is_none());
    let again = resolve(&mut store, "/s", 1, b"ignored", false);
    assert_eq!(triple(&again), triple(&stored));
    let moved = resolve(&mut store, "/s", 2, b"abc", false);
    assert_eq!(
        triple(&moved),
        ("/s".to_string(), "900150983cd24fb0d6963f7d28e17f72".to_string(), 2)
    );
}

#[test]
fn loading_keeps_records_and_order() {
    let records = vec![
        FileMetadata::new("/b".to_string(), "2".to_string(), 2),
        FileMetadata::new("/a".to_string(), "1".to_string(), 1),
    ];
    let expected = triples(&records);
    let mut store = MetadataStore::load(Some(records));
    assert_eq!(triples(store.records()), expected);
    let result = get_metadata(&mut store, &Vec::new(), false);
    assert!(result.is_empty());
    assert_eq!(triples(store.records()), expected);
    assert_eq!(MetadataStore::load(None).len(), 0);
}

#[test]
fn store_find_get_and_store() {
    let mut store = MetadataStore::new();
    assert_eq!(store.find("/a"), None);
    store.store(FileMetadata::new("/a".to_string(), "1".to_string(), 1));
    store.store(FileMetadata::new("/b".to_string(), "2".to_string(), 2));
    store.store(FileMetadata::new("/a".to_string(), "3".to_string(), 3));
    assert_eq!(store.len(), 2);
    assert_eq!(store.find("/a"), Some(0));
    assert_eq!(store.find("/b"), Some(1));
    assert_eq!(store.find("/A"), None);
    assert_eq!(triple(&store.get(0)), ("/a".to_string(), "3".to_string(), 3));
    let copy = store.get(1).clone();
    assert_eq!(triple(&copy), ("/b".to_string(), "2".to_string(), 2));
}
