//! A listing of transactions: newest first, cut to the window that was
//! asked for and kept under the size that one message may have.

use vstd::prelude::*;
use crate::protocol::LookupInvoiceResponse;

verus! {

/// `p` says where each item of `after` stood in `before`: it uses every
/// position once, later creation times come first, and items of one
/// creation time keep their order.
pub open spec fn arranges(
    p: Seq<int>,
    before: Seq<LookupInvoiceResponse>,
    after: Seq<LookupInvoiceResponse>,
) -> bool {
    &&& p.len() == before.len()
    &&& p.len() == after.len()
    &&& forall|i: int| 0 <= i < p.len() ==> 0 <= #[trigger] p[i] < before.len()
    &&& forall|i: int, j: int| 0 <= i < j < p.len() ==> #[trigger] p[i] != #[trigger] p[j]
    &&& forall|i: int| 0 <= i < p.len() ==> #[trigger] after[i] == before[p[i]]
    &&& forall|i: int, j: int|
        0 <= i < j < p.len() ==> before[#[trigger] p[i]].created_at > before[#[trigger] p[j]].created_at
            || (before[p[i]].created_at == before[p[j]].created_at && p[i] < p[j])
}

/// `after` holds the items of `before`, newest first, those of one creation
/// time in their old order.
pub open spec fn newest_first(
    before: Seq<LookupInvoiceResponse>,
    after: Seq<LookupInvoiceResponse>,
) -> bool {
    exists|p: Seq<int>| arranges(p, before, after)
}

/// The key by which transactions are ordered: the smaller, the newer.
pub fn recency_key(t: &LookupInvoiceResponse) -> (k: u64)
    ensures
        k == u64::MAX - t.created_at,
{
    u64::MAX - t.created_at
}

/// Calls `sort_by_key` of the standard library. Trusted: the sort is
/// stable and leaves the items in ascending order of their keys, which
/// here is newest first.
#[verifier::external_body]
fn sort_newest_first(transactions: &mut Vec<LookupInvoiceResponse>)
    ensures
        newest_first(old(transactions)@, final(transactions)@),
{
    transactions.sort_by_key(|t| recency_key(t));
}

/// The window of a listing: without its first `offset` items, and of what
/// is left at most `limit` items.
pub open spec fn windowed<T>(s: Seq<T>, offset: Option<u64>, limit: Option<u64>) -> Seq<T> {
    let rest = match offset {
        Some(o) => if o >= s.len() {
            Seq::empty()
        } else {
            s.skip(o as int)
        },
        None => s,
    };
    match limit {
        Some(l) => if l < rest.len() {
            rest.take(l as int)
        } else {
            rest
        },
        None => rest,
    }
}

/// Cuts a listing to its window.
pub fn window<T>(transactions: Vec<T>, offset: Option<u64>, limit: Option<u64>) -> (r: Vec<T>)
    ensures
        r@ == windowed(transactions@, offset, limit),
{
    let mut all = transactions;
    let mut rest: Vec<T> = match offset {
        Some(o) => {
            if o >= all.len() as u64 {
                Vec::new()
            } else {
                let kept = all.split_off(o as usize);
                proof {
                    assert(kept@ =~= transactions@.skip(o as int));
                }
                kept
            }
        },
        None => all,
    };
    match limit {
        Some(l) => {
            if l < rest.len() as u64 {
                let ghost whole = rest@;
                rest.truncate(l as usize);
                proof {
                    assert(rest@ =~= whole.take(l as int));
                }
            }
        },
        None => {},
    }
    rest
}

/// Orders a listing newest first and cuts it to its window.
pub fn arrange_transactions(
    transactions: Vec<LookupInvoiceResponse>,
    offset: Option<u64>,
    limit: Option<u64>,
) -> (r: Vec<LookupInvoiceResponse>)
    ensures
        exists|sorted: Seq<LookupInvoiceResponse>|
            newest_first(transactions@, sorted) && r@ == windowed(sorted, offset, limit),
{
    let mut all = transactions;
    sort_newest_first(&mut all);
    let ghost sorted = all@;
    let r = window(all, offset, limit);
    proof {
        assert(newest_first(transactions@, sorted) && r@ == windowed(sorted, offset, limit));
    }
    r
}

/// The size that a listing may have when written out, in bytes.
pub const MAX_LISTING_BYTES: usize = 127 * 1024;

/// The sum of the first `k` sizes.
pub open spec fn sizes_sum(sizes: Seq<usize>, k: int) -> int
    decreases k,
{
    if k <= 0 {
        0
    } else {
        sizes_sum(sizes, k - 1) + sizes[k - 1]
    }
}

/// The size of a listing of the first `k` items when written out: two
/// brackets, the items, and a comma between neighbours.
pub open spec fn listing_size(sizes: Seq<usize>, k: int) -> int {
    if k <= 0 {
        2
    } else {
        2 + sizes_sum(sizes, k) + (k - 1)
    }
}

/// How many items of a listing are kept under `max_size`: the longest
/// front part that fits when written out, or none where not even the first
/// item fits.
pub open spec fn fits(sizes: Seq<usize>, max_size: usize, k: int) -> bool {
    &&& 0 <= k <= sizes.len()
    &&& k > 0 ==> listing_size(sizes, k) <= max_size
    &&& forall|j: int| k < j <= sizes.len() ==> listing_size(sizes, j) > max_size
}

/// A longer listing is larger.
pub proof fn lemma_listing_size_grows(sizes: Seq<usize>, i: int, j: int)
    requires
        0 <= i <= j <= sizes.len(),
    ensures
        listing_size(sizes, i) <= listing_size(sizes, j),
    decreases j - i,
{
    if i < j {
        lemma_listing_size_grows(sizes, i, j - 1);
    }
}

/// The front of `transactions` that stays under `max_size` when written
/// out, given the size of each item when written out.
pub fn trim_to_size<T>(transactions: Vec<T>, sizes: &Vec<usize>, max_size: usize) -> (r: Vec<T>)
    requires
        sizes@.len() == transactions@.len(),
    ensures
        fits(sizes@, max_size, r@.len() as int),
        r@ == transactions@.take(r@.len() as int),
{
    let n: usize = sizes.len();
    let mut k: usize = 0;
    let mut used: usize = 2;
    let mut full: bool = false;
    while k < n && !full
        invariant
            n == sizes@.len(),
            0 <= k <= n,
            used == listing_size(sizes@, k as int),
            k > 0 ==> used <= max_size,
            full ==> k < n && listing_size(sizes@, k as int + 1) > max_size,
        decreases n - k + if full { 0int } else { 1int },
    {
        let comma: usize = if k > 0 {
            1
        } else {
            0
        };
        let next: Option<usize> = match used.checked_add(sizes[k]) {
            Some(with_item) => with_item.checked_add(comma),
            None => None,
        };
        proof {
            assert(sizes_sum(sizes@, k as int + 1) == sizes_sum(sizes@, k as int) + sizes@[k as int]);
        }
        match next {
            Some(total) => {
                if total > max_size {
                    full = true;
                } else {
                    used = total;
                    k = k + 1;
                }
            },
            None => {
                full = true;
            },
        }
    }
    proof {
        if k < n {
            assert forall|j: int| k < j <= sizes@.len() implies listing_size(sizes@, j)
                > max_size by {
                lemma_listing_size_grows(sizes@, k as int + 1, j);
            }
        }
    }
    let mut kept = transactions;
    kept.truncate(k);
    proof {
        assert(kept@ =~= transactions@.take(k as int));
    }
    kept
}

} // verus!
