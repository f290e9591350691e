use vstd::prelude::*;

verus! {

/// The correlation indices of the requests that were dispatched and whose
/// response has not been delivered yet.
pub struct InFlight {
    pending: Vec<usize>,
}

impl InFlight {
    /// The indices in flight.
    pub closed spec fn indices(&self) -> Set<usize> {
        Set::new(|j: usize| self.pending@.contains(j))
    }

    /// Each index is recorded once.
    pub closed spec fn well_formed(&self) -> bool {
        self.pending@.no_duplicates()
    }

    /// No request in flight.
    pub fn new() -> (r: InFlight)
        ensures
            r.well_formed(),
            r.indices() == Set::<usize>::empty(),
    {
        let r = InFlight { pending: Vec::new() };
        assert(r.indices() =~= Set::<usize>::empty());
        r
    }

    /// Position of `index` in the record, if it is there.
    fn position(&self, index: usize) -> (r: Option<usize>)
        ensures
            match r {
                Some(k) => k < self.pending@.len() && self.pending@[k as int] == index,
                None => !self.pending@.contains(index),
            },
    {
        let mut k: usize = 0;
        while k < self.pending.len()
            invariant
                k <= self.pending@.len(),
                forall|j: int| 0 <= j < k ==> self.pending@[j] != index,
            decreases self.pending@.len() - k,
        {
            if self.pending[k] == index {
                return Some(k);
            }
            k = k + 1;
        }
        None
    }

    /// Whether `index` is in flight.
    pub fn contains(&self, index: usize) -> (r: bool)
        ensures
            r == self.indices().contains(index),
    {
        self.position(index).is_some()
    }

    /// Records a dispatch under `index`. An index already in flight is refused
    /// and nothing changes: indices must be unique among requests in flight.
    pub fn begin(&mut self, index: usize) -> (r: bool)
        requires
            old(self).well_formed(),
        ensures
            final(self).well_formed(),
            r == !old(self).indices().contains(index),
            final(self).indices() == old(self).indices().insert(index),
    {
        match self.position(index) {
            Some(_) => {
                assert(self.indices() =~= self.indices().insert(index));
                false
            },
            None => {
                let ghost before = self.pending@;
                self.pending.push(index);
                assert(self.pending@ == before.push(index));
                assert forall|a: int, b: int|
                    0 <= a < b < self.pending@.len() implies self.pending@[a] != self.pending@[b] by {
                    if b == before.len() {
                        assert(before[a] == self.pending@[a]);
                    }
                }
                assert forall|j: usize| #[trigger] self.pending@.contains(j) == (before.contains(j) || j == index) by {
                    if before.contains(j) {
                        let t = choose|t: int| 0 <= t < before.len() && before[t] == j;
                        assert(self.pending@[t] == j);
                    }
                    if j == index {
                        assert(self.pending@[before.len() as int] == j);
                    }
                }
                assert(self.indices() =~= old(self).indices().insert(index));
                true
            },
        }
    }

    /// Records the delivery of the response tagged `index`. Returns whether it
    /// is delivered: only while its request is in flight, so at most once.
    pub fn complete(&mut self, index: usize) -> (r: bool)
        requires
            old(self).well_formed(),
        ensures
            final(self).well_formed(),
            r == old(self).indices().contains(index),
            final(self).indices() == old(self).indices().remove(index),
    {
        match self.position(index) {
            Some(k) => {
                let ghost before = self.pending@;
                self.pending.remove(k);
                assert(self.pending@ == before.remove(k as int));
                assert forall|a: int, b: int|
                    0 <= a < b < self.pending@.len() implies self.pending@[a] != self.pending@[b] by {
                    let a0 = if a < k { a } else { a + 1 };
                    let b0 = if b < k { b } else { b + 1 };
                    assert(self.pending@[a] == before[a0]);
                    assert(self.pending@[b] == before[b0]);
                }
                assert forall|j: usize| #[trigger] self.pending@.contains(j) == (before.contains(j) && j != index) by {
                    if self.pending@.contains(j) {
                        let t = choose|t: int| 0 <= t < self.pending@.len() && self.pending@[t] == j;
                        let t0 = if t < k { t } else { t + 1 };
                        assert(before[t0] == j);
                        assert(t0 != k);
                    }
                    if before.contains(j) && j != index {
                        let t = choose|t: int| 0 <= t < before.len() && before[t] == j;
                        assert(t != k);
                        let t1 = if t < k { t } else { t - 1 };
                        assert(self.pending@[t1] == j);
                    }
                }
                assert(self.indices() =~= old(self).indices().remove(index));
                true
            },
            None => {
                assert(self.indices() =~= self.indices().remove(index));
                false
            },
        }
    }
}

/// Two requests in flight under distinct indices, answered in the opposite
/// order of dispatch: each response is delivered once, a repeated one is not,
/// and afterwards nothing of the two is left in flight.
pub proof fn lemma_out_of_order_responses(before: Set<usize>, first: usize, second: usize)
    requires
        first != second,
        !before.contains(first),
        !before.contains(second),
    ensures
        !before.contains(first) && !before.insert(first).contains(second),
        before.insert(first).insert(second).contains(second),
        before.insert(first).insert(second).remove(second).contains(first),
        !before.insert(first).insert(second).remove(second).remove(first).contains(first),
        !before.insert(first).insert(second).remove(second).remove(first).contains(second),
        before.insert(first).insert(second).remove(second).remove(first) == before,
{
    assert(before.insert(first).insert(second).remove(second).remove(first) =~= before);
}

} // verus!
