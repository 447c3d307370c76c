//! A source of document ids that counts up from an offset.
use vstd::prelude::*;
use vstd::arithmetic::div_mod::lemma_add_mod_noop_right;

verus! {

/// The id that follows `id`; after `u16::MAX` the count wraps to zero.
pub open spec fn successor(id: u16) -> u16 {
    ((id as int + 1) % 0x10000) as u16
}

/// The `i`-th id handed out by an allocator that started at `start`.
pub open spec fn nth_id(start: u16, i: int) -> u16 {
    ((start as int + i) % 0x10000) as u16
}

/// The ids handed out, in order, by `n` calls to `next` from `start`.
pub open spec fn ids_from(start: u16, n: nat) -> Seq<u16>
    decreases n,
{
    if n == 0 {
        Seq::empty()
    } else {
        ids_from(start, (n - 1) as nat).push(nth_id(start, n - 1))
    }
}

/// Hands out strictly increasing ids from a configured offset. Each call to
/// `next` returns the current counter and advances it by one; the counter wraps
/// to zero after `u16::MAX`, so the ids repeat after 65536 calls.
/// Callers that share one allocator across threads guard it with a lock, which
/// makes every `next` a single atomic step.
pub struct DocumentIdAllocator {
    counter: u16,
    start: Ghost<u16>,
    issued: Ghost<Seq<u16>>,
}

impl DocumentIdAllocator {
    /// The id that the next call to `next` returns.
    pub closed spec fn peek(&self) -> u16 {
        self.counter
    }

    /// The offset the allocator was created with.
    pub closed spec fn start(&self) -> u16 {
        self.start@
    }

    /// Every id handed out so far, in order.
    pub closed spec fn issued(&self) -> Seq<u16> {
        self.issued@
    }

    pub closed spec fn wf(&self) -> bool {
        &&& self.issued@ == ids_from(self.start@, self.issued@.len())
        &&& self.counter == nth_id(self.start@, self.issued@.len() as int)
    }

    pub fn new(start: u16) -> (r: Self)
        ensures
            r.wf(),
            r.start() == start,
            r.peek() == start,
            r.issued() == Seq::<u16>::empty(),
    {
        DocumentIdAllocator { counter: start, start: Ghost(start), issued: Ghost(Seq::empty()) }
    }

    /// Returns the current id and advances the counter, wrapping at the bound.
    pub fn next(&mut self) -> (r: u16)
        requires
            old(self).wf(),
        ensures
            final(self).wf(),
            r == old(self).peek(),
            final(self).peek() == successor(old(self).peek()),
            final(self).start() == old(self).start(),
            final(self).issued() == old(self).issued().push(r),
    {
        let r = self.counter;
        self.counter = if self.counter == u16::MAX { 0 } else { self.counter + 1 };
        self.issued = Ghost(self.issued@.push(r));
        proof {
            let n = old(self).issued@.len() as int;
            assert(self.issued@ =~= ids_from(self.start@, (n + 1) as nat));
        }
        r
    }
}

proof fn lemma_ids_from_index(start: u16, n: nat)
    ensures
        ids_from(start, n).len() == n,
        forall|i: int| 0 <= i < n ==> #[trigger] ids_from(start, n)[i] == nth_id(start, i),
    decreases n,
{
    if n > 0 {
        lemma_ids_from_index(start, (n - 1) as nat);
    }
}

/// Under any interleaving of callers, the ids an allocator has handed out are
/// the consecutive values `start, start + 1, ...` (modulo the wrap), with no gap
/// and, until the count reaches 65536, no duplicate.
pub proof fn lemma_issued_consecutive_and_unique(a: &DocumentIdAllocator)
    requires
        a.wf(),
    ensures
        forall|i: int| 0 <= i < a.issued().len() ==> #[trigger] a.issued()[i] == nth_id(a.start(), i),
        a.issued().len() <= 0x10000 ==> forall|i: int, j: int|
            0 <= i < j < a.issued().len() ==> #[trigger] a.issued()[i] != #[trigger] a.issued()[j],
        a.peek() == nth_id(a.start(), a.issued().len() as int),
{
    lemma_ids_from_index(a.start(), a.issued().len());
}

proof fn lemma_nth_id_shift(start: u16, m: int, i: int)
    requires
        0 <= m,
        0 <= i,
    ensures
        nth_id(start, m + i) == nth_id(nth_id(start, m), i),
{
    lemma_add_mod_noop_right(i, start as int + m, 0x10000);
    assert(i + (start as int + m) == start as int + (m + i));
}

/// Whatever ran in between, the ids an allocator handed out from state
/// `before` to state `after` are the consecutive values counted from the id
/// that `before` would have handed out next (modulo the wrap), with no gap and,
/// while there are at most 65536 of them, no duplicate.
pub proof fn lemma_window_consecutive_and_unique(
    before: &DocumentIdAllocator,
    after: &DocumentIdAllocator,
)
    requires
        before.wf(),
        after.wf(),
        after.start() == before.start(),
        before.issued().len() <= after.issued().len(),
        after.issued().subrange(0, before.issued().len() as int) == before.issued(),
    ensures
        forall|i: int|
            0 <= i < after.issued().len() - before.issued().len() ==> #[trigger] after.issued()[before.issued().len() + i]
                == nth_id(before.peek(), i),
        after.issued().len() - before.issued().len() <= 0x10000 ==> forall|i: int, j: int|
            before.issued().len() <= i < j < after.issued().len() ==> #[trigger] after.issued()[i]
                != #[trigger] after.issued()[j],
        after.peek() == nth_id(before.peek(), after.issued().len() - before.issued().len()),
{
    let m = before.issued().len() as int;
    let n = after.issued().len() as int;
    let p = before.peek();
    lemma_ids_from_index(after.start(), after.issued().len());
    assert forall|i: int| 0 <= i < n - m implies #[trigger] after.issued()[m + i] == nth_id(
        p,
        i,
    ) by {
        lemma_nth_id_shift(before.start(), m, i);
    }
    assert forall|i: int, j: int|
        m <= i < j < n && n - m <= 0x10000 implies #[trigger] after.issued()[i]
        != #[trigger] after.issued()[j] by {
        lemma_nth_id_shift(before.start(), m, i - m);
        lemma_nth_id_shift(before.start(), m, j - m);
    }
    lemma_nth_id_shift(before.start(), m, n - m);
}

} // verus!
