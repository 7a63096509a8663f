use saildb::inner::{InnerSailDB, StoreRequest, ID};
use saildb::saildb::SailDB;

fn bytes(text: &str) -> Vec<u8> {
    text.as_bytes().to_vec()
}

#[test]
fn readme_insert_then_get() {
    let mut db = InnerSailDB::new();
    let (key, val) = (bytes("hello"), bytes("world!"));
    assert_eq!(db.insert(key.clone(), val.clone()), None);
    assert_eq!(db.get(&key), Some(bytes("world!")));
}

#[test]
fn new_database_is_empty() {
    let db = InnerSailDB::new();
    assert_eq!(db.get(&bytes("anything")), None);
    assert_eq!(db.get(&Vec::new()), None);
}

#[test]
fn insert_returns_previous_value() {
    let mut db = InnerSailDB::new();
    assert_eq!(db.insert(bytes("k"), bytes("one")), None);
    assert_eq!(db.insert(bytes("k"), bytes("two")), Some(bytes("one")));
    assert_eq!(db.get(&bytes("k")), Some(bytes("two")));
}

#[test]
fn insert_leaves_other_keys() {
    let mut db = InnerSailDB::new();
    db.insert(bytes("a"), bytes("1"));
    db.insert(bytes("b"), bytes("2"));
    assert_eq!(db.get(&bytes("a")), Some(bytes("1")));
    assert_eq!(db.get(&bytes("b")), Some(bytes("2")));
    assert_eq!(db.get(&bytes("c")), None);
}

#[test]
fn remove_returns_value_and_empties_key() {
    let mut db = InnerSailDB::new();
    db.insert(bytes("a"), bytes("1"));
    db.insert(bytes("b"), bytes("2"));
    assert_eq!(db.remove(&bytes("a")), Some(bytes("1")));
    assert_eq!(db.get(&bytes("a")), None);
    assert_eq!(db.get(&bytes("b")), Some(bytes("2")));
    assert_eq!(db.remove(&bytes("a")), None);
}

#[test]
fn remove_of_absent_key_is_none() {
    let mut db = InnerSailDB::new();
    assert_eq!(db.remove(&bytes("missing")), None);
}

#[test]
fn write_undone_by_its_answer() {
    let mut db = InnerSailDB::new();
    db.insert(bytes("k"), bytes("old"));
    let previous = db.insert(bytes("k"), bytes("new")).unwrap();
    db.insert(bytes("k"), previous);
    assert_eq!(db.get(&bytes("k")), Some(bytes("old")));
}

#[test]
fn empty_key_and_value_are_kept() {
    let mut db = InnerSailDB::new();
    assert_eq!(db.insert(Vec::new(), Vec::new()), None);
    assert_eq!(db.get(&Vec::new()), Some(Vec::new()));
}

#[test]
fn serve_answers_each_request() {
    let mut db = InnerSailDB::new();
    let got = db.serve(StoreRequest::Get { key: bytes("k") });
    assert_eq!(got, None);
    let put = db.serve(StoreRequest::Insert { key: bytes("k"), value: bytes("v") });
    assert_eq!(put, None);
    let put_again = db.serve(StoreRequest::Insert { key: bytes("k"), value: bytes("w") });
    assert_eq!(put_again, Some(bytes("v")));
    assert_eq!(db.serve(StoreRequest::Get { key: bytes("k") }), Some(bytes("w")));
    assert_eq!(db.serve(StoreRequest::Remove { key: bytes("k") }), Some(bytes("w")));
    assert_eq!(db.serve(StoreRequest::Get { key: bytes("k") }), None);
}

#[test]
fn default_service_id() {
    assert_eq!(ID, "sail");
}

#[test]
fn saildb_default_is_empty() {
    let db = SailDB::default();
    assert_eq!(db.get(&bytes("x")), None);
}

#[test]
fn saildb_insert_get_remove() {
    let mut db = SailDB::default();
    assert_eq!(db.insert(bytes("hello"), bytes("world!")), None);
    assert_eq!(db.get(&bytes("hello")), Some(bytes("world!")));
    assert_eq!(db.insert(bytes("hello"), bytes("there")), Some(bytes("world!")));
    assert_eq!(db.remove(&bytes("hello")), Some((bytes("hello"), bytes("there"))));
    assert_eq!(db.get(&bytes("hello")), None);
    assert_eq!(db.remove(&bytes("hello")), None);
}
