use backend::session::Session;
use backend::store::{SessionStore, StoreFault};
use backend::time::{SignedDuration, Timestamp};

fn open_store() -> (sled::Db<1024>, sled::Tree<1024>, SessionStore) {
    let db: sled::Db<1024> = sled::Config::tmp().unwrap().open().unwrap();
    let tree = db.open_tree("tokens").unwrap();
    let store = SessionStore::new(tree.clone());
    (db, tree, store)
}

fn sample() -> Session {
    Session {
        token: String::from("tok"),
        username: String::from("ñandú"),
        created_on: Timestamp::from_nanosecond(-1_700_000_000_123_456_789),
        duration: SignedDuration::from_mins(10),
    }
}

#[test]
fn record_round_trips_through_bytes() {
    let s = sample();
    let bytes = s.to_bytes();
    let back = Session::from_bytes(&bytes).unwrap();
    assert_eq!(back.token, "tok");
    assert_eq!(back.username, "ñandú");
    assert_eq!(back.created_on.nanosecond, -1_700_000_000_123_456_789);
    assert_eq!(back.duration.nanos, 600_000_000_000);
}

#[test]
fn record_layout_is_length_prefixed() {
    let bytes = sample().to_bytes();
    // 8 + 3 + 8 + 7 (UTF-8 bytes of the username) + 16 + 16
    assert_eq!(bytes.len(), 58);
    assert_eq!(&bytes[0..8], &[3, 0, 0, 0, 0, 0, 0, 0]);
    assert_eq!(&bytes[8..11], b"tok");
}

#[test]
fn malformed_records_do_not_decode() {
    assert!(Session::from_bytes(b"").is_none());
    assert!(Session::from_bytes(b"garbage that is no record").is_none());
    let mut bytes = sample().to_bytes();
    bytes.push(0);
    assert!(Session::from_bytes(&bytes).is_none());
    let mut bytes = sample().to_bytes();
    bytes[8] = 0xff;
    assert!(Session::from_bytes(&bytes).is_none());
}

#[test]
fn store_insert_get_remove() {
    let (_db, _tree, mut store) = open_store();
    assert!(matches!(store.get("tok"), Ok(None)));
    store.insert("tok", &sample()).unwrap();
    let got = store.get("tok").unwrap().unwrap();
    assert_eq!(got.username, "ñandú");
    store.remove("tok").unwrap();
    assert!(matches!(store.get("tok"), Ok(None)));
    // removing an absent key is no error
    store.remove("tok").unwrap();
    assert!(matches!(store.get("tok"), Ok(None)));
}

#[test]
fn store_reports_corrupt_records() {
    let (_db, tree, store) = open_store();
    tree.insert("bad", b"not a record".to_vec()).unwrap();
    assert!(matches!(store.get("bad"), Err(StoreFault::Corrupt)));
}

#[test]
fn duration_and_expiry_arithmetic() {
    assert_eq!(SignedDuration::from_mins(10).nanos, 600_000_000_000);
    assert_eq!(SignedDuration::from_mins(-1).nanos, -60_000_000_000);
    let start = Timestamp::from_nanosecond(1_000);
    let span = SignedDuration { nanos: 500 };
    assert!(!Timestamp::from_nanosecond(1_499).reached(start, span));
    assert!(Timestamp::from_nanosecond(1_500).reached(start, span));
    let far = Timestamp::from_nanosecond(i128::MAX);
    assert!(!Timestamp::from_nanosecond(0).reached(far, SignedDuration { nanos: i128::MAX }));
    assert!(Timestamp::from_nanosecond(0).reached(Timestamp::from_nanosecond(i128::MIN), SignedDuration { nanos: -1 }));
}

#[test]
fn clock_is_after_the_epoch() {
    assert!(Timestamp::now().nanosecond > 1_600_000_000_000_000_000);
}
