//! Laws of the kernel, stated over the spec-level model and proved once for
//! all inputs.

use vstd::prelude::*;
use crate::sim::{
    Body, BODIES_COUNT, INTERACTIONS, pairs, advance_n, advance1, energy_spec, kicks_upto,
    drift_body,
};

verus! {

/// Multi-step equivalence: advancing `m` steps and then `n` more is the same
/// state, bit for bit, as advancing `m + n` steps from the start. In
/// particular one call that performs `n` steps equals `n` single-step calls
/// in sequence.
pub proof fn lemma_multi_step_equivalence(bs: Seq<Body>, m: nat, n: nat)
    ensures
        advance_n(advance_n(bs, m), n) == advance_n(bs, m + n),
    decreases n,
{
    if n == 0 {
    } else {
        lemma_multi_step_equivalence(bs, m, (n - 1) as nat);
        assert(advance_n(advance_n(bs, m), n) == advance1(advance_n(advance_n(bs, m), (n - 1) as nat)));
        assert(advance_n(bs, m + n) == advance1(advance_n(bs, (m + n - 1) as nat)));
    }
}

/// One step of the multi-step recurrence is exactly the single-step function.
pub proof fn lemma_single_step(bs: Seq<Body>)
    ensures
        advance_n(bs, 1) == advance1(bs),
{
    assert(advance_n(bs, 0) == bs);
}

/// Cross-variant energy equality: two implementations that both meet the step
/// contract — their state after `k` steps is `advance_n` of the shared start
/// state — hold bit-identical states, so their energy diagnostics agree at
/// every step index (before any rounding).
pub proof fn lemma_cross_variant_energy(bs0: Seq<Body>, k: nat, a: Seq<Body>, b: Seq<Body>)
    requires
        a == advance_n(bs0, k),
        b == advance_n(bs0, k),
    ensures
        energy_spec(a) == energy_spec(b),
{
}

/// Pair-count invariant: the pair enumeration that every pairwise pass walks
/// holds exactly `INTERACTIONS` = `n * (n - 1) / 2` = 10 entries; each entry
/// is an in-bounds pair with the first index below the second; every unordered
/// pair of distinct bodies occurs; and the enumeration is strictly increasing
/// in lexicographic order, so no pair is visited twice.
/// The pair kicks change velocities only: after any prefix of the kick pass,
/// every body keeps its mass and its position, and the body count is kept.
proof fn lemma_kicks_shape(bs: Seq<Body>, k: nat)
    requires
        bs.len() == BODIES_COUNT,
        k <= INTERACTIONS,
    ensures
        kicks_upto(bs, k).len() == bs.len(),
        forall|t: int| 0 <= t < bs.len() ==> {
            &&& (#[trigger] kicks_upto(bs, k)[t]).mass == bs[t].mass
            &&& kicks_upto(bs, k)[t].position == bs[t].position
        },
    decreases k,
{
    if k == 0 {
    } else {
        lemma_kicks_shape(bs, (k - 1) as nat);
        lemma_pair_count();
    }
}

/// One integration step keeps the body count and every body's mass: the kick
/// pass changes velocities only and the drift pass changes positions only.
pub proof fn lemma_step_preserves_masses(bs: Seq<Body>)
    requires
        bs.len() == BODIES_COUNT,
    ensures
        advance1(bs).len() == bs.len(),
        forall|t: int| 0 <= t < bs.len() ==> (#[trigger] advance1(bs)[t]).mass == bs[t].mass,
{
    lemma_kicks_shape(bs, INTERACTIONS as nat);
    assert forall|t: int| 0 <= t < bs.len()
        implies (#[trigger] advance1(bs)[t]).mass == bs[t].mass by {
        assert(advance1(bs)[t] == drift_body(kicks_upto(bs, INTERACTIONS as nat)[t]));
    }
}

/// Any number of integration steps keeps the body count and every mass.
pub proof fn lemma_advance_preserves_masses(bs: Seq<Body>, n: nat)
    requires
        bs.len() == BODIES_COUNT,
    ensures
        advance_n(bs, n).len() == bs.len(),
        forall|t: int| 0 <= t < bs.len() ==> (#[trigger] advance_n(bs, n)[t]).mass == bs[t].mass,
    decreases n,
{
    if n == 0 {
    } else {
        lemma_advance_preserves_masses(bs, (n - 1) as nat);
        lemma_step_preserves_masses(advance_n(bs, (n - 1) as nat));
    }
}

/// Pair `(i, j)` occurs somewhere in the enumeration.
pub open spec fn pair_listed(i: int, j: int) -> bool {
    exists|k: int| 0 <= k < pairs().len() && #[trigger] pairs()[k] == (i, j)
}

pub proof fn lemma_pair_count()
    ensures
        pairs().len() == INTERACTIONS as int,
        forall|k: int| 0 <= k < pairs().len()
            ==> 0 <= (#[trigger] pairs()[k]).0 < pairs()[k].1 < BODIES_COUNT,
        forall|i: int, j: int| 0 <= i < j < BODIES_COUNT ==> #[trigger] pair_listed(i, j),
        forall|k1: int, k2: int| 0 <= k1 < k2 < pairs().len()
            ==> ((#[trigger] pairs()[k1]).0 < (#[trigger] pairs()[k2]).0
                || (pairs()[k1].0 == pairs()[k2].0 && pairs()[k1].1 < pairs()[k2].1)),
{
    assert(pairs()[0] == (0int, 1int));
    assert(pairs()[1] == (0int, 2int));
    assert(pairs()[2] == (0int, 3int));
    assert(pairs()[3] == (0int, 4int));
    assert(pairs()[4] == (1int, 2int));
    assert(pairs()[5] == (1int, 3int));
    assert(pairs()[6] == (1int, 4int));
    assert(pairs()[7] == (2int, 3int));
    assert(pairs()[8] == (2int, 4int));
    assert(pairs()[9] == (3int, 4int));
    assert forall|i: int, j: int| 0 <= i < j < BODIES_COUNT implies #[trigger] pair_listed(i, j) by {
        assert(pairs()[0] == (0int, 1int));
        assert(pairs()[1] == (0int, 2int));
        assert(pairs()[2] == (0int, 3int));
        assert(pairs()[3] == (0int, 4int));
        assert(pairs()[4] == (1int, 2int));
        assert(pairs()[5] == (1int, 3int));
        assert(pairs()[6] == (1int, 4int));
        assert(pairs()[7] == (2int, 3int));
        assert(pairs()[8] == (2int, 4int));
        assert(pairs()[9] == (3int, 4int));
    }
}

} // verus!
