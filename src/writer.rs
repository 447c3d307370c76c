//! The sink a logging framework writes records to: each record is tagged with
//! the writer's document id and turned into a request for the indexing service.
use vstd::prelude::*;
use vstd::string::*;
use crate::allocator::{
    lemma_window_consecutive_and_unique, nth_id, successor, DocumentIdAllocator,
};
use crate::credentials::{Credentials, RequestTemplate};
use crate::json::{
    encode_object, entries_of, insert_field, key_index, json_text, number, number_value, object_of,
    parse_object, put_field, Fields,
};

verus! {

/// The record's fields once its `"id"` field is set to `id`.
pub open spec fn tagged(fields: Fields, id: u16) -> Fields {
    put_field(fields, "id"@, number_value(id))
}

/// The body that `w.write(buf)` ships, or `None` where it refuses `buf`.
pub open spec fn write_body(w: MeiliWriter, buf: Seq<u8>) -> Option<Seq<u8>> {
    match object_of(buf) {
        Some(fields) => Some(json_text(tagged(fields, w.curr_id()))),
        None => None,
    }
}

/// One call made on a writer: a write of a payload, or a flush.
pub enum WriterCall {
    Write(Seq<u8>),
    Flush,
}

/// What the writes among `calls`, made in order on `w`, ship (or refuse).
pub open spec fn write_results(w: MeiliWriter, calls: Seq<WriterCall>) -> Seq<Option<Seq<u8>>>
    decreases calls.len(),
{
    if calls.len() == 0 {
        Seq::empty()
    } else {
        let done = write_results(w, calls.drop_last());
        match calls.last() {
            WriterCall::Write(buf) => done.push(write_body(w, buf)),
            WriterCall::Flush => done,
        }
    }
}

/// `calls` without its flushes.
pub open spec fn writes_only(calls: Seq<WriterCall>) -> Seq<WriterCall>
    decreases calls.len(),
{
    if calls.len() == 0 {
        Seq::empty()
    } else {
        let done = writes_only(calls.drop_last());
        match calls.last() {
            WriterCall::Write(_) => done.push(calls.last()),
            WriterCall::Flush => done,
        }
    }
}

/// Why a write was refused.
#[derive(Debug, Clone, Copy, PartialEq, Eq)]
pub enum WriteError {
    /// The payload is not valid JSON, or its top-level value is not an object.
    Parse,
}

/// A request ready to be sent: the template and the JSON body.
pub struct ShippingRequest {
    pub template: RequestTemplate,
    pub body: Vec<u8>,
}

/// Tags each record with one document id and ships it to one collection.
pub struct MeiliWriter {
    creds: Credentials,
    index: u16,
    curr_id: u16,
}

impl MeiliWriter {
    pub closed spec fn creds(&self) -> Credentials {
        self.creds
    }

    pub closed spec fn index(&self) -> u16 {
        self.index
    }

    pub closed spec fn curr_id(&self) -> u16 {
        self.curr_id
    }

    /// Whether `r` is the request for this writer's collection with `body`.
    pub open spec fn ships(&self, body: Seq<u8>, r: ShippingRequest) -> bool {
        &&& self.creds().is_request_for(self.index(), r.template)
        &&& r.body@ == body
    }

    /// A writer for collection `index` whose records get the id `curr_id`.
    pub fn new(index: u16, creds: Credentials, curr_id: u16) -> (r: Self)
        ensures
            r.index() == index,
            r.creds() == creds,
            r.curr_id() == curr_id,
    {
        MeiliWriter { index, creds, curr_id }
    }

    /// A writer whose id is drawn from `alloc` as it is built.
    pub fn from_allocator(index: u16, creds: Credentials, alloc: &mut DocumentIdAllocator) -> (r:
        Self)
        requires
            old(alloc).wf(),
        ensures
            final(alloc).wf(),
            r.index() == index,
            r.creds() == creds,
            r.curr_id() == old(alloc).peek(),
            final(alloc).peek() == successor(old(alloc).peek()),
            final(alloc).start() == old(alloc).start(),
            final(alloc).issued() == old(alloc).issued().push(r.curr_id()),
    {
        let id = alloc.next();
        MeiliWriter { index, creds, curr_id: id }
    }

    /// Sets the record's `"id"` field to this writer's id, overwriting one
    /// that is there; the other fields are left as they are.
    pub fn tag(&self, record: &mut serde_json::Map<String, serde_json::Value>)
        ensures
            entries_of(*final(record)) == tagged(entries_of(*old(record)), self.curr_id()),
    {
        proof {
            reveal_strlit("id");
        }
        let key = String::from_str("id");
        insert_field(record, key, number(self.curr_id));
    }

    /// The request that ships `body` to this writer's collection.
    pub fn shipping_request(&self, body: Vec<u8>) -> (r: ShippingRequest)
        ensures
            self.ships(body@, r),
    {
        ShippingRequest { template: self.creds.build_request(self.index), body }
    }

    /// Accepts one payload holding exactly one JSON object. On success returns
    /// the number of bytes consumed (all of them) and the request that ships
    /// the record, tagged with this writer's id. Anything else is refused with
    /// `WriteError::Parse` and leaves the writer as it was.
    pub fn write(&mut self, buf: &[u8]) -> (r: Result<(usize, ShippingRequest), WriteError>)
        ensures
            *final(self) == *old(self),
            r is Ok <==> object_of(buf@) is Some,
            r is Ok ==> write_body(*old(self), buf@) == Some(r->Ok_0.1.body@),
            r is Err ==> r == Err::<(usize, ShippingRequest), WriteError>(WriteError::Parse),
            r is Ok ==> {
                &&& r->Ok_0.0 == buf@.len()
                &&& old(self).ships(
                    json_text(tagged(object_of(buf@)->0, old(self).curr_id())),
                    r->Ok_0.1,
                )
            },
    {
        match parse_object(buf) {
            Err(_) => Err(WriteError::Parse),
            Ok(mut record) => {
                self.tag(&mut record);
                match encode_object(&record) {
                    Ok(body) => Ok((buf.len(), self.shipping_request(body))),
                    Err(_) => Err(WriteError::Parse),
                }
            },
        }
    }

    /// Nothing is buffered, so there is nothing to flush: always succeeds.
    pub fn flush(&mut self) -> (r: Result<(), WriteError>)
        ensures
            r is Ok,
            *final(self) == *old(self),
    {
        Ok(())
    }
}

proof fn lemma_put_field_contains(fields: Fields, key: Seq<char>, value: serde_json::Value)
    ensures
        put_field(fields, key, value).contains((key, value)),
{
    let r = put_field(fields, key, value);
    if exists|i: int| 0 <= i < fields.len() && #[trigger] fields[i].0 == key {
        let i = key_index(fields, key);
        assert(r[i] == (key, value));
    } else {
        assert(r[fields.len() as int] == (key, value));
    }
}

/// Writers built one after another from one allocator (by `from_allocator`,
/// or by `new` with ids that `next` returned), from state `before` to state
/// `after`, carry the consecutive ids counted from `before.peek()` (modulo the
/// wrap): no gap, and while there are at most 65536 of them, no duplicate.
/// Every record that the `i`-th of them tags holds the `"id"` field of the
/// `i`-th of those ids.
pub proof fn lemma_writers_consecutive_ids(
    before: &DocumentIdAllocator,
    after: &DocumentIdAllocator,
    writers: Seq<MeiliWriter>,
)
    requires
        before.wf(),
        after.wf(),
        after.start() == before.start(),
        before.issued().len() <= after.issued().len(),
        after.issued().subrange(0, before.issued().len() as int) == before.issued(),
        writers.len() == after.issued().len() - before.issued().len(),
        forall|i: int|
            0 <= i < writers.len() ==> #[trigger] writers[i].curr_id() == after.issued()[before.issued().len() + i],
    ensures
        forall|i: int|
            0 <= i < writers.len() ==> #[trigger] writers[i].curr_id() == nth_id(before.peek(), i),
        writers.len() <= 0x10000 ==> forall|i: int, j: int|
            0 <= i < j < writers.len() ==> #[trigger] writers[i].curr_id()
                != #[trigger] writers[j].curr_id(),
        forall|i: int, fields: Fields|
            0 <= i < writers.len() ==> #[trigger] tagged(fields, writers[i].curr_id()).contains(
                ("id"@, number_value(nth_id(before.peek(), i))),
            ),
{
    lemma_window_consecutive_and_unique(before, after);
    let m = before.issued().len() as int;
    assert forall|i: int, j: int|
        0 <= i < j < writers.len() && writers.len() <= 0x10000 implies #[trigger] writers[i].curr_id()
        != #[trigger] writers[j].curr_id() by {
        assert(after.issued()[m + i] != after.issued()[m + j]);
    }
    assert forall|i: int, fields: Fields| 0 <= i < writers.len() implies #[trigger] tagged(
        fields,
        writers[i].curr_id(),
    ).contains(("id"@, number_value(nth_id(before.peek(), i)))) by {
        lemma_put_field_contains(fields, "id"@, number_value(writers[i].curr_id()));
    }
}

/// Flushes change nothing: inserting flushes anywhere among a writer's
/// calls leaves what each write ships, and their order, as they were.
pub proof fn lemma_flush_transparent(w: MeiliWriter, calls: Seq<WriterCall>)
    ensures
        write_results(w, calls) == write_results(w, writes_only(calls)),
    decreases calls.len(),
{
    if calls.len() > 0 {
        let rest = calls.drop_last();
        lemma_flush_transparent(w, rest);
        if let WriterCall::Write(_) = calls.last() {
            let ws = writes_only(rest).push(calls.last());
            assert(ws.drop_last() =~= writes_only(rest));
        }
    }
}

} // verus!
