use quotes::quote::Quote;
use quotes::store::{QuoteStore, StoreError};

fn record(id: u128, book: &str, quote: &str, at: i64) -> Quote {
    Quote { id, book: book.to_string(), quote: quote.to_string(), created_at: at, updated_at: at }
}

#[test]
fn new_store_is_empty() {
    let store = QuoteStore::new();
    assert_eq!(store.len(), 0);
}

#[test]
fn insert_rejects_duplicate_id() {
    let mut store = QuoteStore::new();
    assert_eq!(store.insert(record(1, "A", "a", 10)), Ok(()));
    assert_eq!(store.len(), 1);
    assert_eq!(store.insert(record(1, "B", "b", 20)), Err(StoreError::DuplicateId));
    assert_eq!(store.len(), 1);
}

#[test]
fn update_record_rejects_unknown_id() {
    let mut store = QuoteStore::new();
    store.insert(record(1, "A", "a", 10)).unwrap();
    let r = store.update_record(2, Some("B".to_string()), None, 20);
    assert_eq!(r.unwrap_err(), StoreError::NoSuchId);
}

#[test]
fn update_record_replaces_present_fields() {
    let mut store = QuoteStore::new();
    store.insert(record(1, "A", "a", 10)).unwrap();
    store.insert(record(2, "B", "b", 10)).unwrap();
    let r = store.update_record(2, Some("C".to_string()), Some("c".to_string()), 30).unwrap();
    assert_eq!(r.id, 2);
    assert_eq!(r.book, "C");
    assert_eq!(r.quote, "c");
    assert_eq!(r.created_at, 10);
    assert_eq!(r.updated_at, 30);
    let listed = store.list();
    assert_eq!(listed.len(), 2);
    assert_eq!(listed[0].book, "A");
    assert_eq!(listed[1].book, "C");
}

#[test]
fn list_copies_records_in_order() {
    let mut store = QuoteStore::new();
    store.insert(record(5, "A", "a", 10)).unwrap();
    store.insert(record(6, "B", "b", 11)).unwrap();
    store.insert(record(7, "C", "c", 12)).unwrap();
    let listed = store.list();
    let ids: Vec<u128> = listed.iter().map(|q| q.id).collect();
    assert_eq!(ids, vec![5, 6, 7]);
}

#[test]
fn quote_new_sets_equal_timestamps() {
    let q = Quote::new("Dune".to_string(), "Fear is the mind-killer".to_string());
    assert_eq!(q.book, "Dune");
    assert_eq!(q.quote, "Fear is the mind-killer");
    assert_eq!(q.created_at, q.updated_at);
}

#[test]
fn quote_new_draws_distinct_ids() {
    let a = Quote::new("A".to_string(), "a".to_string());
    let b = Quote::new("A".to_string(), "a".to_string());
    assert_ne!(a.id, b.id);
}

#[test]
fn duplicate_copies_every_field() {
    let q = record(9, "Dune", "Fear", 42);
    let c = q.duplicate();
    assert_eq!(c.id, q.id);
    assert_eq!(c.book, q.book);
    assert_eq!(c.quote, q.quote);
    assert_eq!(c.created_at, q.created_at);
    assert_eq!(c.updated_at, q.updated_at);
}
