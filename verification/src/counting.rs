//! The arithmetic of the counter store: what one increment does to the four
//! counters, and the law that increments accumulate modulo the counter width.

use vstd::prelude::*;
use vstd::arithmetic::div_mod::{lemma_add_mod_noop_right, lemma_mod_self_0, lemma_small_mod};

verus! {

/// One more than the largest counter value: counters wrap at this width.
pub open spec fn counter_width() -> int {
    0x1_0000_0000
}

/// A counter value bumped by one, wrapping at the counter width.
pub open spec fn wrap_inc(v: u32) -> u32 {
    if v == u32::MAX {
        0
    } else {
        (v + 1) as u32
    }
}

/// The four counters after one increment of the counter named `id`
/// (1 through 4).
pub open spec fn spec_increment_counters(c: (u32, u32, u32, u32), id: int) -> (u32, u32, u32, u32) {
    if id == 1 {
        (wrap_inc(c.0), c.1, c.2, c.3)
    } else if id == 2 {
        (c.0, wrap_inc(c.1), c.2, c.3)
    } else if id == 3 {
        (c.0, c.1, wrap_inc(c.2), c.3)
    } else {
        (c.0, c.1, c.2, wrap_inc(c.3))
    }
}

/// The counter named `k` (1 through 4) out of the tuple of four.
pub open spec fn counter_of(c: (u32, u32, u32, u32), k: int) -> u32 {
    if k == 1 {
        c.0
    } else if k == 2 {
        c.1
    } else if k == 3 {
        c.2
    } else {
        c.3
    }
}

/// The four counters after a whole sequence of increments, applied oldest
/// first.
pub open spec fn apply_increments(c: (u32, u32, u32, u32), ids: Seq<int>) -> (u32, u32, u32, u32)
    decreases ids.len(),
{
    if ids.len() == 0 {
        c
    } else {
        apply_increments(spec_increment_counters(c, ids[0]), ids.drop_first())
    }
}

/// How many increments in `ids` name the counter `k`.
pub open spec fn count_of(ids: Seq<int>, k: int) -> nat
    decreases ids.len(),
{
    if ids.len() == 0 {
        0
    } else {
        (if ids[0] == k {
            1nat
        } else {
            0nat
        }) + count_of(ids.drop_first(), k)
    }
}

/// Increments accumulate: after any sequence of increments with no reset in
/// between, a counter holds its starting value plus the number of increments
/// addressed to it, modulo the counter width.
pub proof fn lemma_increments_accumulate(c: (u32, u32, u32, u32), ids: Seq<int>, k: int)
    requires
        forall|x: int| 0 <= x < ids.len() ==> 1 <= #[trigger] ids[x] <= 4,
        1 <= k <= 4,
    ensures
        counter_of(apply_increments(c, ids), k) as int == (counter_of(c, k) + count_of(ids, k))
            % counter_width(),
    decreases ids.len(),
{
    let m = counter_width();
    if ids.len() == 0 {
        lemma_small_mod(counter_of(c, k) as nat, m as nat);
    } else {
        let c1 = spec_increment_counters(c, ids[0]);
        let rest = ids.drop_first();
        assert(forall|x: int| 0 <= x < rest.len() ==> 1 <= #[trigger] rest[x] <= 4);
        lemma_increments_accumulate(c1, rest, k);
        let v = counter_of(c, k) as int;
        let n = count_of(rest, k) as int;
        if ids[0] == k {
            // One step wraps exactly as adding one modulo the width does.
            assert(counter_of(c1, k) as int == (v + 1) % m) by {
                if v + 1 == m {
                    lemma_mod_self_0(m);
                } else {
                    lemma_small_mod((v + 1) as nat, m as nat);
                }
            };
            // Folding the inner modulus into the outer sum changes nothing.
            lemma_add_mod_noop_right(n, v + 1, m);
            assert(count_of(ids, k) == 1 + n);
        } else {
            assert(counter_of(c1, k) == counter_of(c, k));
        }
    }
}

} // verus!
