use meili_tracing_subscriber::{Credentials, DocumentIdAllocator, MeiliWriter, WriteError};

fn writer_with_id(id: u16) -> MeiliWriter {
    MeiliWriter::new(3, Credentials::new("http://localhost:7700", "secret"), id)
}

#[test]
fn build_request_targets_documents_endpoint() {
    let creds = Credentials::new("http://localhost:7700", "masterKey");
    let t = creds.build_request(42);
    assert_eq!(t.method, "POST");
    assert_eq!(t.url, "http://localhost:7700/indexes/42/documents");
    assert_eq!(t.content_type, "application/json");
    assert_eq!(t.authorization, "Bearer masterKey");
}

#[test]
fn build_request_renders_index_bounds() {
    let creds = Credentials::new("h", "k");
    assert_eq!(creds.build_request(0).url, "h/indexes/0/documents");
    assert_eq!(creds.build_request(65535).url, "h/indexes/65535/documents");
    assert_eq!(creds.build_request(100).url, "h/indexes/100/documents");
}

#[test]
fn write_appends_id_field() {
    let mut w = writer_with_id(7);
    let payload = br#"{"msg":"hi"}"#;
    let (n, req) = w.write(payload).unwrap();
    assert_eq!(n, payload.len());
    assert_eq!(req.body, br#"{"msg":"hi","id":7}"#.to_vec());
    assert_eq!(req.template.url, "http://localhost:7700/indexes/3/documents");
    assert_eq!(req.template.authorization, "Bearer secret");
}

#[test]
fn write_overwrites_existing_id() {
    let mut w = writer_with_id(7);
    let (_, req) = w.write(br#"{"msg":"hi","id":99}"#).unwrap();
    assert_eq!(req.body, br#"{"msg":"hi","id":7}"#.to_vec());
}

#[test]
fn write_keeps_field_order_and_values() {
    let mut w = writer_with_id(12);
    let (_, req) = w.write(br#"{"z":1,"id":"x","a":[true,null]}"#).unwrap();
    assert_eq!(req.body, br#"{"z":1,"id":12,"a":[true,null]}"#.to_vec());
}

#[test]
fn write_reports_full_length_with_whitespace() {
    let mut w = writer_with_id(0);
    let payload = b"  {\"level\":\"INFO\"}\n";
    let (n, req) = w.write(payload).unwrap();
    assert_eq!(n, payload.len());
    assert_eq!(req.body, br#"{"level":"INFO","id":0}"#.to_vec());
}

#[test]
fn write_accepts_empty_object() {
    let mut w = writer_with_id(65535);
    let (n, req) = w.write(b"{}").unwrap();
    assert_eq!(n, 2);
    assert_eq!(req.body, br#"{"id":65535}"#.to_vec());
}

#[test]
fn write_rejects_array() {
    let mut w = writer_with_id(7);
    assert_eq!(w.write(b"[1,2,3]").err(), Some(WriteError::Parse));
}

#[test]
fn write_rejects_string() {
    let mut w = writer_with_id(7);
    assert_eq!(w.write(br#""just a string""#).err(), Some(WriteError::Parse));
}

#[test]
fn write_rejects_invalid_bytes() {
    let mut w = writer_with_id(7);
    assert_eq!(w.write(&[0xff, 0xfe, 0x00]).err(), Some(WriteError::Parse));
    assert_eq!(w.write(b"").err(), Some(WriteError::Parse));
    assert_eq!(w.write(br#"{"msg":"hi"} {"#).err(), Some(WriteError::Parse));
    assert_eq!(w.write(br#"{"msg":"hi""#).err(), Some(WriteError::Parse));
}

#[test]
fn writer_stays_usable_after_parse_error() {
    let mut alloc = DocumentIdAllocator::new(5);
    let mut w = MeiliWriter::from_allocator(1, Credentials::new("h", "k"), &mut alloc);
    assert_eq!(w.write(b"[1,2,3]").err(), Some(WriteError::Parse));
    let (_, req) = w.write(br#"{"a":1}"#).unwrap();
    assert_eq!(req.body, br#"{"a":1,"id":5}"#.to_vec());
    assert_eq!(alloc.next(), 6);
}

#[test]
fn flush_always_succeeds() {
    let mut w = writer_with_id(1);
    assert_eq!(w.flush(), Ok(()));
    assert_eq!(w.flush(), Ok(()));
    let _ = w.write(b"not json");
    assert_eq!(w.flush(), Ok(()));
    let _ = w.write(br#"{"a":1}"#).unwrap();
    assert_eq!(w.flush(), Ok(()));
    let (_, req) = w.write(br#"{"b":2}"#).unwrap();
    assert_eq!(req.body, br#"{"b":2,"id":1}"#.to_vec());
}

#[test]
fn tag_sets_id_on_parsed_record() {
    let w = writer_with_id(9);
    let mut record = serde_json::Map::new();
    record.insert("msg".to_string(), serde_json::Value::from("x"));
    record.insert("id".to_string(), serde_json::Value::from(1u8));
    record.insert("n".to_string(), serde_json::Value::from(2u8));
    w.tag(&mut record);
    let keys: Vec<&String> = record.keys().collect();
    assert_eq!(keys, vec!["msg", "id", "n"]);
    assert_eq!(record.get("id"), Some(&serde_json::Value::from(9u16)));
    assert_eq!(record.get("msg"), Some(&serde_json::Value::from("x")));
}

#[test]
fn shipping_request_carries_body() {
    let w = writer_with_id(9);
    let req = w.shipping_request(b"{\"a\":1}".to_vec());
    assert_eq!(req.body, b"{\"a\":1}".to_vec());
    assert_eq!(req.template.url, "http://localhost:7700/indexes/3/documents");
}
