use vstd::prelude::*;

verus! {

/// Hands out connection ids 1, 2, 3, ...; 0 is never issued, because it
/// stands for "every connection" when a message is sent.
pub struct ConnIdAllocator {
    last: i32,
}

impl View for ConnIdAllocator {
    /// The last id issued, or 0 before the first.
    type V = int;

    closed spec fn view(&self) -> int {
        self.last as int
    }
}

impl ConnIdAllocator {
    #[verifier::type_invariant]
    spec fn inv(&self) -> bool {
        self.last >= 0
    }

    pub fn new() -> (r: ConnIdAllocator)
        ensures
            r@ == 0,
    {
        ConnIdAllocator { last: 0 }
    }

    pub proof fn lemma_range(&self)
        ensures
            self@ <= i32::MAX,
    {
    }

    /// No id has been issued yet, or the last one issued.
    pub fn last(&self) -> (r: i32)
        ensures
            r == self@,
            r >= 0,
    {
        proof {
            use_type_invariant(self);
        }
        self.last
    }
}

/// The ids that `n` successive calls of [`get_conn_id`] issue, starting from
/// an allocator whose last id is `last`.
pub open spec fn issued(last: int, n: nat) -> Seq<int>
    decreases n,
{
    if n == 0 {
        Seq::empty()
    } else {
        seq![last + 1] + issued(last + 1, (n - 1) as nat)
    }
}

/// Issues the next connection id: one more than the last, or `None` once
/// every positive `i32` has been issued.
pub fn get_conn_id(ids: &mut ConnIdAllocator) -> (r: Option<i32>)
    ensures
        old(ids)@ < i32::MAX ==> r == Some((old(ids)@ + 1) as i32) && final(ids)@ == old(ids)@ + 1,
        old(ids)@ == i32::MAX ==> r is None && final(ids)@ == old(ids)@,
        0 <= final(ids)@ <= i32::MAX,
        r matches Some(id) ==> id > 0,
{
    proof {
        use_type_invariant(&*ids);
    }
    if ids.last < i32::MAX {
        ids.last = ids.last + 1;
        Some(ids.last)
    } else {
        None
    }
}

/// `n` successive ids from an allocator whose last id is `last` are
/// `last + 1, ..., last + n`: all distinct, none of them 0 when `last` is not
/// negative, and exactly `1..=n` on a fresh allocator.
pub proof fn lemma_issued_ids(last: int, n: nat)
    ensures
        issued(last, n).len() == n,
        forall|i: int| 0 <= i < n ==> #[trigger] issued(last, n)[i] == last + 1 + i,
        forall|i: int, j: int| 0 <= i < j < n ==> issued(last, n)[i] != issued(last, n)[j],
        last >= 0 ==> forall|i: int| 0 <= i < n ==> issued(last, n)[i] > 0,
        last == 0 ==> issued(last, n) =~= Seq::new(n, |i: int| i + 1),
    decreases n,
{
    if n > 0 {
        lemma_issued_ids(last + 1, (n - 1) as nat);
        let rest = issued(last + 1, (n - 1) as nat);
        assert forall|i: int| 0 <= i < n implies #[trigger] issued(last, n)[i] == last + 1 + i by {
            if i > 0 {
                assert(issued(last, n)[i] == rest[i - 1]);
            }
        }
    }
}

} // verus!
