//! Grid search over moving-average window pairs.
//!
//! The optimizer enumerates every window pair `(short, long)` with
//! `1 <= short < long < 200`, long ascending and short ascending within
//! it, and keeps the first pair whose score strictly exceeds every score
//! seen before it. Scores arrive as order-preserving integer keys, one
//! per pair in enumeration order; everything about which pair wins is
//! decided and proved here.

use vstd::prelude::*;

verus! {

/// Exclusive upper bound of the long-window search range.
pub const LONG_LIMIT: usize = 200;

/// Number of searched window pairs: one for every
/// `1 <= short < long < 200`.
pub const N_PAIRS: usize = 19701;

/// A window pair is valid when the short window is at least 1 and
/// strictly shorter than the long window, which stays under 200.
pub open spec fn valid_pair(short: int, long: int) -> bool {
    1 <= short && short < long && long < 200
}

/// Number of pairs enumerated before the first pair with this long
/// window: the triangular count of all pairs with a shorter long window.
pub open spec fn pairs_before(long: int) -> int
    decreases long,
{
    if long <= 2 {
        0
    } else {
        pairs_before(long - 1) + (long - 2)
    }
}

/// Position of a pair in the enumeration
/// (long ascending, short ascending).
pub open spec fn pair_index(short: int, long: int) -> int {
    pairs_before(long) + short - 1
}

/// The record index of a scan of `keys` that starts at record `floor`:
/// the key there strictly exceeds the floor and every earlier key, and
/// no later key exceeds it.
pub open spec fn is_selected(keys: Seq<u64>, floor: u64, idx: int) -> bool {
    &&& 0 <= idx < keys.len()
    &&& keys[idx] > floor
    &&& forall|j: int| 0 <= j < idx ==> keys[j] < keys[idx]
    &&& forall|j: int| idx < j < keys.len() ==> keys[j] <= keys[idx]
}

/// `pairs_before` has the closed form of a triangular number:
/// twice its value is `(long - 1) * (long - 2)`.
pub proof fn lemma_pairs_before_closed_form(long: int)
    requires
        long >= 2,
    ensures
        2 * pairs_before(long) == (long - 1) * (long - 2),
    decreases long,
{
    if long > 2 {
        lemma_pairs_before_closed_form(long - 1);
        assert(pairs_before(long) == pairs_before(long - 1) + (long - 2));
        assert((long - 2) * (long - 3) + 2 * (long - 2) == (long - 1) * (long - 2))
            by (nonlinear_arith);
    } else {
        assert(pairs_before(2) == 0);
    }
}

/// The enumeration position of any pair grows with the long window.
pub proof fn lemma_pairs_before_monotonic(a: int, b: int)
    requires
        2 <= a <= b,
    ensures
        pairs_before(a) <= pairs_before(b),
    decreases b - a,
{
    if a < b {
        lemma_pairs_before_monotonic(a, b - 1);
    }
}

/// Every valid pair's enumeration position lies below `N_PAIRS`.
pub proof fn lemma_pair_index_in_range(short: int, long: int)
    requires
        valid_pair(short, long),
    ensures
        0 <= pair_index(short, long) < N_PAIRS,
{
    lemma_pairs_before_monotonic(2, long);
    lemma_pairs_before_monotonic(long + 1, 200);
    lemma_pairs_before_closed_form(200);
}

/// Tie-break law: any other pair with the same key as the selected one
/// comes later in the enumeration — on exact ties the first pair
/// enumerated keeps the record.
pub proof fn lemma_tie_break_first(keys: Seq<u64>, floor: u64, i: int, sel: int)
    requires
        is_selected(keys, floor, sel),
        0 <= i < keys.len(),
        keys[i] == keys[sel],
        i != sel,
    ensures
        sel < i,
{
}

/// The window pair a grid search selects, with its position in the
/// enumeration.
pub struct Selection {
    /// The short window, at least 1 and below `long_term`.
    pub short_term: usize,
    /// The long window, below 200.
    pub long_term: usize,
    /// The pair's position in the enumeration, where the caller keeps
    /// its score.
    pub index: usize,
}

/// Scans the keys of all window pairs in enumeration order and returns
/// the pair holding the record at the end, exactly as a running
/// strictly-greater comparison against an initial record `floor` leaves
/// it. Returns `None` when no key exceeds the floor.
pub fn select_best_pair(keys: &Vec<u64>, floor: u64) -> (r: Option<Selection>)
    requires
        keys@.len() == N_PAIRS,
    ensures
        match r {
            Some(s) => {
                &&& valid_pair(s.short_term as int, s.long_term as int)
                &&& s.index == pair_index(s.short_term as int, s.long_term as int)
                &&& is_selected(keys@, floor, s.index as int)
            },
            None => forall|j: int| 0 <= j < keys@.len() ==> keys@[j] <= floor,
        },
{
    let mut best: u64 = floor;
    let mut found: bool = false;
    let mut best_short: usize = 0;
    let mut best_long: usize = 0;
    let mut best_index: usize = 0;
    let mut k: usize = 0;
    let mut ilong: usize = 2;
    while ilong < LONG_LIMIT
        invariant
            keys@.len() == N_PAIRS,
            2 <= ilong <= LONG_LIMIT,
            k == pairs_before(ilong as int),
            0 <= k <= N_PAIRS,
            !found ==> best == floor,
            !found ==> forall|j: int| 0 <= j < k ==> keys@[j] <= floor,
            found ==> {
                &&& best_index < k
                &&& keys@[best_index as int] == best
                &&& best > floor
                &&& forall|j: int| 0 <= j < best_index ==> keys@[j] < best
                &&& forall|j: int| best_index < j < k ==> keys@[j] <= best
                &&& valid_pair(best_short as int, best_long as int)
                &&& best_index == pair_index(best_short as int, best_long as int)
            },
        decreases LONG_LIMIT - ilong,
    {
        let mut ishort: usize = 1;
        while ishort < ilong
            invariant
                keys@.len() == N_PAIRS,
                2 <= ilong < LONG_LIMIT,
                1 <= ishort <= ilong,
                k == pairs_before(ilong as int) + ishort - 1,
                0 <= k <= N_PAIRS,
                !found ==> best == floor,
                !found ==> forall|j: int| 0 <= j < k ==> keys@[j] <= floor,
                found ==> {
                    &&& best_index < k
                    &&& keys@[best_index as int] == best
                    &&& best > floor
                    &&& forall|j: int| 0 <= j < best_index ==> keys@[j] < best
                    &&& forall|j: int| best_index < j < k ==> keys@[j] <= best
                    &&& valid_pair(best_short as int, best_long as int)
                    &&& best_index == pair_index(best_short as int, best_long as int)
                },
            decreases ilong - ishort,
        {
            proof {
                lemma_pair_index_in_range(ishort as int, ilong as int);
            }
            let key = keys[k];
            if key > best {
                best = key;
                found = true;
                best_short = ishort;
                best_long = ilong;
                best_index = k;
            }
            k += 1;
            ishort += 1;
        }
        ilong += 1;
    }
    proof {
        lemma_pairs_before_closed_form(200);
    }
    if found {
        Some(Selection { short_term: best_short, long_term: best_long, index: best_index })
    } else {
        None
    }
}

} // verus!
