//! The batch loop's state: the cursor and the remaining budget, threaded through each batch.
use vstd::prelude::*;
use crate::builder::{SearchQueryBuilder, SearchRequest};
use crate::plan::{opt_view, ExtractionParameters, Hit};
use vstd::arithmetic::div_mod::{lemma_div_plus_one, lemma_div_by_self};

verus! {

/// The state between two batches.
pub struct PaginatorState {
    /// The sort key of the last hit emitted, as JSON text.
    pub cursor: Option<String>,
    /// Documents still to emit; `None` for no limit.
    pub remaining: Option<u32>,
    /// Whether the loop polls forever instead of stopping when a batch comes back empty.
    pub polling: bool,
}

/// The size of the next batch: the remaining budget, capped.
pub open spec fn batch_size_of(remaining: Option<u32>, polling: bool, cap: u32) -> u32 {
    match remaining {
        Some(n) if !polling => if n < cap {
            n
        } else {
            cap
        },
        _ => cap,
    }
}

/// The budget after `received` more documents, saturating at zero.
pub open spec fn budget_after(remaining: Option<u32>, received: nat) -> Option<u32> {
    match remaining {
        Some(n) => Some(
            if received >= n {
                0u32
            } else {
                (n - received) as u32
            },
        ),
        None => None,
    }
}

/// Whether the loop ends after a batch of `received` hits.
pub open spec fn stops_after(remaining: Option<u32>, polling: bool, received: nat) -> bool {
    !polling && (received == 0 || budget_after(remaining, received) == Some(0u32))
}

impl PaginatorState {
    /// The state before the first batch of a plan.
    pub fn new(params: &ExtractionParameters) -> (r: Self)
        ensures
            opt_view(r.cursor) == opt_view(params.search_after),
            r.remaining == params.total_docs,
            r.polling == params.sleep_between_batches,
    {
        let cursor = match &params.search_after {
            Some(c) => Some(c.clone()),
            None => None,
        };
        PaginatorState {
            cursor,
            remaining: params.total_docs,
            polling: params.sleep_between_batches,
        }
    }

    /// The size of the next batch, at most `cap`.
    pub fn batch_size(&self, cap: u32) -> (r: u32)
        ensures
            r == batch_size_of(self.remaining, self.polling, cap),
    {
        match self.remaining {
            Some(n) if !self.polling => if n < cap {
                n
            } else {
                cap
            },
            _ => cap,
        }
    }

    /// The next request: `base` with the batch size and, once there is one, the cursor.
    pub fn request(&self, base: SearchQueryBuilder, cap: u32) -> (r: SearchRequest)
        ensures
            r.size == batch_size_of(self.remaining, self.polling, cap),
            opt_view(r.search_after) == if self.cursor is Some {
                opt_view(self.cursor)
            } else {
                opt_view(base.search_after)
            },
            r.sort == base.sort_order,
            r.source == base.source_fields,
            r.query == crate::builder::compose(base.query_range, base.query_match),
    {
        let size = self.batch_size(cap);
        let b = base.with_size(size);
        let b = match &self.cursor {
            Some(c) => b.with_search_after(c.clone()),
            None => b,
        };
        b.build()
    }

    /// Takes in a batch; the cursor moves to its last hit, the budget shrinks by its length,
    /// and the result says whether the loop is over.
    pub fn advance(&mut self, hits: &Vec<Hit>) -> (stop: bool)
        ensures
            stop == stops_after(old(self).remaining, old(self).polling, hits@.len()),
            final(self).polling == old(self).polling,
            hits@.len() == 0 ==> final(self).remaining == old(self).remaining && opt_view(
                final(self).cursor,
            ) == opt_view(old(self).cursor),
            hits@.len() > 0 ==> opt_view(final(self).cursor) == opt_view(hits@.last().sort),
            hits@.len() > 0 && !old(self).polling ==> final(self).remaining == budget_after(
                old(self).remaining,
                hits@.len(),
            ),
            hits@.len() > 0 && old(self).polling ==> final(self).remaining == old(self).remaining,
    {
        let n = hits.len();
        if n == 0 {
            return !self.polling;
        }
        self.cursor = match &hits[n - 1].sort {
            Some(s) => Some(s.clone()),
            None => None,
        };
        if self.polling {
            return false;
        }
        match self.remaining {
            None => false,
            Some(left) => {
                let rest: u32 = if n >= left as usize {
                    0
                } else {
                    left - n as u32
                };
                self.remaining = Some(rest);
                rest == 0
            },
        }
    }
}

/// The sizes of the batches that a bounded, non-polling loop requests when every batch
/// comes back full, until the budget is spent.
pub open spec fn full_batches(remaining: u32, cap: u32) -> Seq<u32>
    decreases remaining,
{
    if remaining == 0 || cap == 0 {
        Seq::empty()
    } else {
        let size = batch_size_of(Some(remaining), false, cap);
        seq![size] + full_batches(budget_after(Some(remaining), size as nat)->0, cap)
    }
}

/// A budget of `b` documents served in full batches of at most `cap` takes `ceil(b / cap)`
/// requests: every one of them of size `cap` but the last, which takes what is left.
pub proof fn lemma_full_batches(b: u32, cap: u32)
    requires
        cap > 0,
    ensures
        full_batches(b, cap).len() == (b + cap - 1) / (cap as int),
        forall|i: int|
            0 <= i < full_batches(b, cap).len() - 1 ==> #[trigger] full_batches(b, cap)[i] == cap,
        b > 0 ==> full_batches(b, cap).last() == b - cap * (full_batches(b, cap).len() - 1),
    decreases b,
{
    if b == 0 {
        assert((cap - 1) / (cap as int) == 0) by {
            vstd::arithmetic::div_mod::lemma_basic_div((cap - 1) as int, cap as int);
        }
    } else if b <= cap {
        let rest = full_batches(0, cap);
        assert(full_batches(b, cap) =~= seq![b]);
        assert(full_batches(b, cap).len() == 1);
        assert(full_batches(b, cap).last() == b);
        assert(cap * (full_batches(b, cap).len() - 1) == 0) by (nonlinear_arith)
            requires
                full_batches(b, cap).len() == 1,
        ;
        assert((b + cap - 1) / (cap as int) == 1) by {
            lemma_div_plus_one((b - 1) as int, cap as int);
            vstd::arithmetic::div_mod::lemma_basic_div((b - 1) as int, cap as int);
        }
    } else {
        let next = (b - cap) as u32;
        lemma_full_batches(next, cap);
        let tail = full_batches(next, cap);
        assert(full_batches(b, cap) == seq![cap] + tail);
        assert((b + cap - 1) / (cap as int) == 1 + (next + cap - 1) / (cap as int)) by {
            lemma_div_plus_one((next + cap - 1) as int, cap as int);
        }
        let k = tail.len() as int;
        assert(tail.len() > 0);
        assert(full_batches(b, cap).last() == tail.last());
        assert(cap * (k - 1) + cap == cap * k) by (nonlinear_arith);
        assert(full_batches(b, cap).len() == k + 1);
        assert(tail.last() == next - cap * (k - 1));
        assert(full_batches(b, cap).last() == b - cap * (full_batches(b, cap).len() - 1));
        assert forall|i: int| 0 <= i < full_batches(b, cap).len() - 1 implies #[trigger] full_batches(
            b,
            cap,
        )[i] == cap by {
            if i > 0 {
                assert(full_batches(b, cap)[i] == tail[i - 1]);
            }
        }
    }
}

} // verus!
