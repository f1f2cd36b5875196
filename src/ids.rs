use vstd::prelude::*;

verus! {

/// Hands out identifiers in increasing order, never the same one twice.
///
/// One allocator serves a whole process: the embedding application keeps it
/// behind a lock (or an atomic), so that concurrent creators are served one
/// after the other.
pub struct IdAllocator {
    next: u64,
    issued: Ghost<Seq<u64>>,
}

/// `ids` is what successive allocations returned, starting from an allocator
/// whose next identifier was `start`.
pub open spec fn issued_from(start: nat, ids: Seq<u64>) -> bool {
    forall|i: int| 0 <= i < ids.len() ==> ids[i] == start + i
}

impl IdAllocator {
    /// The identifier that the next allocation returns.
    pub closed spec fn next_id(&self) -> nat {
        self.next as nat
    }

    /// Every identifier handed out so far, in order.
    pub closed spec fn issued(&self) -> Seq<u64> {
        self.issued@
    }

    /// What was handed out is `0, 1, 2, ...`, up to the next identifier.
    pub open spec fn wf(&self) -> bool {
        issued_from(0, self.issued()) && self.next_id() == self.issued().len()
    }

    /// An allocator whose first identifier is zero.
    pub fn new() -> (r: IdAllocator)
        ensures
            r.wf(),
            r.next_id() == 0,
            r.issued() == Seq::<u64>::empty(),
    {
        IdAllocator { next: 0, issued: Ghost(Seq::empty()) }
    }

    /// Whether every identifier has been handed out.
    pub fn is_exhausted(&self) -> (r: bool)
        ensures
            r == (self.next_id() == u64::MAX),
    {
        self.next == u64::MAX
    }

    /// Returns a fresh identifier, or `None` once the identifier space is used up.
    pub fn allocate(&mut self) -> (r: Option<u64>)
        requires
            old(self).wf(),
        ensures
            final(self).wf(),
            r matches Some(id) ==> final(self).issued() == old(self).issued().push(id),
            r is None ==> final(self).issued() == old(self).issued(),
            old(self).next_id() < u64::MAX ==> r == Some(old(self).next_id() as u64)
                && final(self).next_id() == old(self).next_id() + 1,
            old(self).next_id() == u64::MAX ==> r is None && final(self).next_id()
                == old(self).next_id(),
            old(self).next_id() <= u64::MAX,
            r matches Some(id) ==> id == old(self).next_id(),
    {
        if self.next == u64::MAX {
            None
        } else {
            let id = self.next;
            proof {
                lemma_issue_one_more(0, self.issued@, id);
            }
            self.next = self.next + 1;
            self.issued = Ghost(self.issued@.push(id));
            Some(id)
        }
    }
}

/// Identifiers handed out one after the other by an allocator are pairwise
/// distinct, however many creators asked for them.
pub proof fn lemma_issued_ids_distinct(start: nat, ids: Seq<u64>)
    requires
        issued_from(start, ids),
    ensures
        forall|i: int, j: int| 0 <= i < ids.len() && 0 <= j < ids.len() && i != j ==> ids[i] != ids[j],
{
    assert forall|i: int, j: int| 0 <= i < ids.len() && 0 <= j < ids.len() && i != j implies ids[i] != ids[j] by {
        assert(ids[i] == start + i);
        assert(ids[j] == start + j);
    }
}

/// However many allocations were made, in whatever order creators asked,
/// no identifier was handed out twice.
pub proof fn lemma_allocator_ids_distinct(a: &IdAllocator)
    requires
        a.wf(),
    ensures
        forall|i: int, j: int|
            0 <= i < a.issued().len() && 0 <= j < a.issued().len() && i != j ==> a.issued()[i]
                != a.issued()[j],
{
    lemma_issued_ids_distinct(0, a.issued());
}

/// Allocating once more extends what was issued by the identifier just returned.
pub proof fn lemma_issue_one_more(start: nat, ids: Seq<u64>, id: u64)
    requires
        issued_from(start, ids),
        id == start + ids.len(),
    ensures
        issued_from(start, ids.push(id)),
{
    assert forall|i: int| 0 <= i < ids.push(id).len() implies ids.push(id)[i] == start + i by {
        if i < ids.len() {
            assert(ids.push(id)[i] == ids[i]);
        }
    }
}

} // verus!
