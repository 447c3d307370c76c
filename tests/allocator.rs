use meili_tracing_subscriber::{Credentials, DocumentIdAllocator, MeiliWriter};
use std::collections::HashSet;

#[test]
fn allocator_starts_at_offset() {
    let mut a = DocumentIdAllocator::new(40);
    assert_eq!(a.next(), 40);
    assert_eq!(a.next(), 41);
    assert_eq!(a.next(), 42);
}

#[test]
fn allocator_wraps_at_bound() {
    let mut a = DocumentIdAllocator::new(65534);
    assert_eq!(a.next(), 65534);
    assert_eq!(a.next(), 65535);
    assert_eq!(a.next(), 0);
    assert_eq!(a.next(), 1);
}

#[test]
fn allocator_ids_consecutive_without_duplicates() {
    let start: u16 = 60000;
    let mut a = DocumentIdAllocator::new(start);
    let mut seen = HashSet::new();
    for i in 0..10_000u32 {
        let id = a.next();
        assert_eq!(id as u32, (start as u32 + i) % 65536);
        assert!(seen.insert(id));
    }
    assert_eq!(seen.len(), 10_000);
}

#[test]
fn writers_from_one_allocator_get_distinct_ids() {
    let mut a = DocumentIdAllocator::new(0);
    let mut seen = HashSet::new();
    for _ in 0..10_000 {
        let mut w = MeiliWriter::from_allocator(0, Credentials::new("h", "k"), &mut a);
        let (_, req) = w.write(b"{}").unwrap();
        assert!(seen.insert(req.body));
    }
    assert_eq!(seen.len(), 10_000);
}

#[test]
fn writers_after_earlier_allocations_continue_the_count() {
    let mut a = DocumentIdAllocator::new(65530);
    for _ in 0..3 {
        a.next();
    }
    let mut bodies = Vec::new();
    for _ in 0..5 {
        let mut w = MeiliWriter::from_allocator(2, Credentials::new("h", "k"), &mut a);
        assert_eq!(w.flush(), Ok(()));
        let (_, req) = w.write(br#"{"m":1}"#).unwrap();
        bodies.push(String::from_utf8(req.body).unwrap());
    }
    let expected: Vec<String> = [65533u32, 65534, 65535, 0, 1]
        .iter()
        .map(|id| format!("{{\"m\":1,\"id\":{}}}", id))
        .collect();
    assert_eq!(bodies, expected);
    assert_eq!(a.next(), 2);
}
