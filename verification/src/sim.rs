//! The five-body system: canonical initial state, momentum offset, the
//! fixed-step integrator, and the total-energy diagnostic.
//!
//! The integration step is specified as a fold of the named double operations:
//! first the position delta and the `dt / d^3` magnitude of every unordered
//! body pair are taken from the state at the start of the step (the geometry is
//! frozen), then the pair kicks are applied to the velocities in lexicographic
//! pair order, then every position drifts by its new velocity times `dt`.

use vstd::prelude::*;
use crate::fp::{add_bits, sub_bits, mul_bits, div_bits, sqrt_bits, fp_add, fp_sub, fp_mul, fp_div, fp_sqrt};
use crate::triple::{Triple, triple_add, triple_sub, triple_scale, triple_sum_squared};

verus! {

/// Number of bodies in the system: the sun and four planets.
pub const BODIES_COUNT: usize = 5;

/// Number of unique unordered body pairs, `n * (n - 1) / 2`.
pub const INTERACTIONS: usize = BODIES_COUNT * (BODIES_COUNT - 1) / 2;

/// Bits of the time step, `0.01`.
pub const DT: u64 = 0x3F847AE147AE147B;

/// Bits of `0.5`, the kinetic-energy factor.
pub const HALF: u64 = 0x3FE0000000000000;

/// Bits of the solar mass in the unit system used here, `4 * pi * pi`.
pub const SOLAR_MASS: u64 = 0x4043BD3CC9BE45DE;

pub const JUPITER_PX: u64 = 0x40135DA0343CD92C;
pub const JUPITER_PY: u64 = 0xBFF290ABC01FDB7C;
pub const JUPITER_PZ: u64 = 0xBFBA86F96C25EBF0;
pub const JUPITER_VX: u64 = 0x3FE367069B93CCBC;
pub const JUPITER_VY: u64 = 0x40067EF2F57D949B;
pub const JUPITER_VZ: u64 = 0xBF99D2D79A5A0715;
pub const JUPITER_MASS: u64 = 0x3FA34C95D9AB33D8;

pub const SATURN_PX: u64 = 0x4020AFCDC332CA67;
pub const SATURN_PY: u64 = 0x40107FCB31DE01B0;
pub const SATURN_PZ: u64 = 0xBFD9D353E1EB467C;
pub const SATURN_VX: u64 = 0xBFF02C21B8879442;
pub const SATURN_VY: u64 = 0x3FFD35E9BF1F8F13;
pub const SATURN_VZ: u64 = 0x3F813C485F1123B4;
pub const SATURN_MASS: u64 = 0x3F871D490D07C637;

pub const URANUS_PX: u64 = 0x4029C9EACEA7D9CF;
pub const URANUS_PY: u64 = 0xC02E38E8D626667E;
pub const URANUS_PZ: u64 = 0xBFCC9557BE257DA0;
pub const URANUS_VX: u64 = 0x3FF1531CA9911BEF;
pub const URANUS_VY: u64 = 0x3FEBCC7F3E54BBC5;
pub const URANUS_VZ: u64 = 0xBF862F6BFAF23E7C;
pub const URANUS_MASS: u64 = 0x3F5C3DD29CF41EB3;

pub const NEPTUNE_PX: u64 = 0x402EC267A905572A;
pub const NEPTUNE_PY: u64 = 0xC039EB5833C8A220;
pub const NEPTUNE_PZ: u64 = 0x3FC6F1F393ABE540;
pub const NEPTUNE_VX: u64 = 0x3FEF54B61659BC4A;
pub const NEPTUNE_VY: u64 = 0x3FE307C631C4FBA3;
pub const NEPTUNE_VZ: u64 = 0xBFA1CB88587665F6;
pub const NEPTUNE_MASS: u64 = 0x3F60A8F3531799AC;

/// State of a single body: position, velocity and mass, all double bit patterns.
#[derive(Clone, Copy, PartialEq, Eq, Structural, Debug)]
pub struct Body {
    pub position: Triple,
    pub velocity: Triple,
    pub mass: u64,
}

/// The canonical initial state: the sun at rest at the origin, then Jupiter,
/// Saturn, Uranus and Neptune, in this fixed order.
pub open spec fn starting_state_spec() -> Seq<Body> {
    seq![
        Body {
            position: Triple(0, 0, 0),
            velocity: Triple(0, 0, 0),
            mass: SOLAR_MASS,
        },
        Body {
            position: Triple(JUPITER_PX, JUPITER_PY, JUPITER_PZ),
            velocity: Triple(JUPITER_VX, JUPITER_VY, JUPITER_VZ),
            mass: JUPITER_MASS,
        },
        Body {
            position: Triple(SATURN_PX, SATURN_PY, SATURN_PZ),
            velocity: Triple(SATURN_VX, SATURN_VY, SATURN_VZ),
            mass: SATURN_MASS,
        },
        Body {
            position: Triple(URANUS_PX, URANUS_PY, URANUS_PZ),
            velocity: Triple(URANUS_VX, URANUS_VY, URANUS_VZ),
            mass: URANUS_MASS,
        },
        Body {
            position: Triple(NEPTUNE_PX, NEPTUNE_PY, NEPTUNE_PZ),
            velocity: Triple(NEPTUNE_VX, NEPTUNE_VY, NEPTUNE_VZ),
            mass: NEPTUNE_MASS,
        },
    ]
}

/// The unique unordered body pairs `(i, j)` with `i < j`, in the lexicographic
/// order in which every pairwise pass of the kernel visits them.
pub open spec fn pairs() -> Seq<(int, int)> {
    seq![
        (0int, 1int), (0int, 2int), (0int, 3int), (0int, 4int),
        (1int, 2int), (1int, 3int), (1int, 4int),
        (2int, 3int), (2int, 4int),
        (3int, 4int),
    ]
}

/// An executable pair table agrees with `pairs()`, entry by entry, and every
/// entry is an in-bounds pair with the first index below the second.
pub open spec fn pair_table_matches(t: Seq<(usize, usize)>) -> bool {
    &&& t.len() == INTERACTIONS
    &&& forall|k: int| 0 <= k < INTERACTIONS ==> {
        &&& (#[trigger] t[k]).0 as int == pairs()[k].0
        &&& t[k].1 as int == pairs()[k].1
        &&& t[k].0 < t[k].1
        &&& t[k].1 < BODIES_COUNT
    }
}

/// The pair table in enumeration order: `(0,1), (0,2), ..., (3,4)`.
pub fn pair_list() -> (r: Vec<(usize, usize)>)
    ensures
        pair_table_matches(r@),
{
    let mut r: Vec<(usize, usize)> = Vec::new();
    let mut i: usize = 0;
    while i < BODIES_COUNT
        invariant
            i <= BODIES_COUNT,
            r@.len() <= INTERACTIONS,
            forall|k: int| 0 <= k < r@.len() ==> {
                &&& (#[trigger] r@[k]).0 as int == pairs()[k].0
                &&& r@[k].1 as int == pairs()[k].1
                &&& r@[k].0 < r@[k].1
                &&& r@[k].1 < BODIES_COUNT
            },
            r@.len() == pairs_before(i as int),
        decreases BODIES_COUNT - i,
    {
        let mut j: usize = i + 1;
        while j < BODIES_COUNT
            invariant
                i < j <= BODIES_COUNT,
                i < BODIES_COUNT,
                r@.len() <= INTERACTIONS,
                forall|k: int| 0 <= k < r@.len() ==> {
                    &&& (#[trigger] r@[k]).0 as int == pairs()[k].0
                    &&& r@[k].1 as int == pairs()[k].1
                    &&& r@[k].0 < r@[k].1
                    &&& r@[k].1 < BODIES_COUNT
                },
                r@.len() == pairs_before(i as int) + (j - i - 1),
            decreases BODIES_COUNT - j,
        {
            proof {
                assert(pairs_before(0) == 0);
                assert(pairs_before(1) == 4);
                assert(pairs_before(2) == 7);
                assert(pairs_before(3) == 9);
                assert(pairs()[pairs_before(i as int) + (j - i - 1)] == (i as int, j as int));
            }
            r.push((i, j));
            j = j + 1;
        }
        i = i + 1;
    }
    proof {
        assert(pairs_before(0) == 0);
        assert(pairs_before(1) == 4);
        assert(pairs_before(2) == 7);
        assert(pairs_before(3) == 9);
        assert(pairs_before(4) == 10);
        assert(pairs_before(5) == 10);
    }
    r
}

/// Number of pairs whose first index is below `i`.
pub open spec fn pairs_before(i: int) -> int
    decreases i when 0 <= i
{
    if i <= 0 {
        0
    } else {
        pairs_before(i - 1) + (BODIES_COUNT - i)
    }
}

/// The position delta of pair `k`, taken from the frozen state `bs`.
pub open spec fn delta_at(bs: Seq<Body>, k: int) -> Triple {
    triple_sub(bs[pairs()[k].0].position, bs[pairs()[k].1].position)
}

/// The `dt / d^3` magnitude for a pair with position delta `d`:
/// `dt / (ss * sqrt(ss))` where `ss` is the squared distance.
pub open spec fn mag_of(d: Triple) -> u64 {
    let ss = triple_sum_squared(d);
    div_bits(DT, mul_bits(ss, sqrt_bits(ss)))
}

/// The magnitude of pair `k`, taken from the frozen state `bs`.
pub open spec fn mag_at(bs: Seq<Body>, k: int) -> u64 {
    mag_of(delta_at(bs, k))
}

/// One pair kick: body `i` loses, and body `j` gains, velocity along the
/// pair's frozen position delta `d`, each scaled by the other body's mass
/// times the pair magnitude `m`. Only the two velocities change.
pub open spec fn kick_pair(bs: Seq<Body>, d: Triple, m: u64, i: int, j: int) -> Seq<Body> {
    let b1 = bs[i];
    let b2 = bs[j];
    let bs1 = bs.update(i, Body {
        position: b1.position,
        velocity: triple_sub(b1.velocity, triple_scale(d, mul_bits(b2.mass, m))),
        mass: b1.mass,
    });
    bs1.update(j, Body {
        position: b2.position,
        velocity: triple_add(b2.velocity, triple_scale(d, mul_bits(b1.mass, m))),
        mass: b2.mass,
    })
}

/// The state after the first `k` pair kicks, all geometry frozen at `bs`.
pub open spec fn kicks_upto(bs: Seq<Body>, k: nat) -> Seq<Body>
    decreases k
{
    if k == 0 {
        bs
    } else {
        kick_pair(
            kicks_upto(bs, (k - 1) as nat),
            delta_at(bs, k - 1),
            mag_at(bs, k - 1),
            pairs()[k - 1].0,
            pairs()[k - 1].1,
        )
    }
}

/// A body after the position drift: position plus velocity times `dt`.
pub open spec fn drift_body(b: Body) -> Body {
    Body {
        position: triple_add(b.position, triple_scale(b.velocity, DT)),
        velocity: b.velocity,
        mass: b.mass,
    }
}

/// Every body drifted once.
pub open spec fn drift_all(bs: Seq<Body>) -> Seq<Body> {
    bs.map_values(|b: Body| drift_body(b))
}

/// One full integration step: all pair kicks from the frozen geometry,
/// then the position drift.
pub open spec fn advance1(bs: Seq<Body>) -> Seq<Body> {
    drift_all(kicks_upto(bs, INTERACTIONS as nat))
}

/// `n` consecutive single integration steps.
pub open spec fn advance_n(bs: Seq<Body>, n: nat) -> Seq<Body>
    decreases n
{
    if n == 0 {
        bs
    } else {
        advance1(advance_n(bs, (n - 1) as nat))
    }
}

/// The sun velocity that offsets the momentum of planets `1 ..= t`: starting
/// from zero, each planet subtracts its velocity scaled by `mass / SOLAR_MASS`.
pub open spec fn offset_vel_upto(bs: Seq<Body>, t: nat) -> Triple
    decreases t
{
    if t == 0 {
        Triple(0, 0, 0)
    } else {
        triple_sub(
            offset_vel_upto(bs, (t - 1) as nat),
            triple_scale(bs[t as int].velocity, div_bits(bs[t as int].mass, SOLAR_MASS)),
        )
    }
}

/// The state after the momentum offset: only the sun's velocity changes.
pub open spec fn offset_momentum_spec(bs: Seq<Body>) -> Seq<Body> {
    let sun = bs[0];
    bs.update(0, Body {
        position: sun.position,
        velocity: offset_vel_upto(bs, (BODIES_COUNT - 1) as nat),
        mass: sun.mass,
    })
}

/// The kinetic energy of one body: `0.5 * mass * |velocity|^2`.
pub open spec fn kinetic_term(b: Body) -> u64 {
    mul_bits(mul_bits(HALF, b.mass), triple_sum_squared(b.velocity))
}

/// The potential-energy magnitude of pair `(i, j)`:
/// `mass_i * mass_j / distance`.
pub open spec fn potential_term(bs: Seq<Body>, i: int, j: int) -> u64 {
    div_bits(
        mul_bits(bs[i].mass, bs[j].mass),
        sqrt_bits(triple_sum_squared(triple_sub(bs[i].position, bs[j].position))),
    )
}

/// The energy fold continued over pairs `(i, j), (i, j+1), ...`: each pair's
/// potential term is subtracted from the accumulator in turn.
pub open spec fn pe_from(bs: Seq<Body>, e: u64, i: int, j: int) -> u64
    decreases BODIES_COUNT - j when j <= BODIES_COUNT
{
    if j >= BODIES_COUNT {
        e
    } else {
        pe_from(bs, sub_bits(e, potential_term(bs, i, j)), i, j + 1)
    }
}

/// The energy fold continued from body `i`: add body `i`'s kinetic term, then
/// subtract its pair potentials against every later body, then continue.
pub open spec fn energy_from(bs: Seq<Body>, e: u64, i: int) -> u64
    decreases BODIES_COUNT - i when i <= BODIES_COUNT
{
    if i >= BODIES_COUNT {
        e
    } else {
        energy_from(bs, pe_from(bs, add_bits(e, kinetic_term(bs[i])), i, i + 1), i + 1)
    }
}

/// Total mechanical energy: kinetic terms added, pair potentials subtracted,
/// in the kernel's fixed enumeration order, starting from `0.0`.
pub open spec fn energy_spec(bs: Seq<Body>) -> u64 {
    energy_from(bs, 0, 0)
}

/// The five-body system. The body count is an invariant of the type.
pub struct System {
    bodies: Vec<Body>,
}

impl View for System {
    type V = Seq<Body>;

    closed spec fn view(&self) -> Seq<Body> {
        self.bodies@
    }
}

impl System {
    /// Well-formed: exactly `BODIES_COUNT` bodies.
    pub open spec fn wf(&self) -> bool {
        self@.len() == BODIES_COUNT
    }

    /// A system in the canonical initial state.
    pub fn new() -> (s: System)
        ensures
            s.wf(),
            s@ == starting_state_spec(),
    {
        let mut bodies: Vec<Body> = Vec::new();
        bodies.push(Body {
            position: Triple(0, 0, 0),
            velocity: Triple(0, 0, 0),
            mass: SOLAR_MASS,
        });
        bodies.push(Body {
            position: Triple(JUPITER_PX, JUPITER_PY, JUPITER_PZ),
            velocity: Triple(JUPITER_VX, JUPITER_VY, JUPITER_VZ),
            mass: JUPITER_MASS,
        });
        bodies.push(Body {
            position: Triple(SATURN_PX, SATURN_PY, SATURN_PZ),
            velocity: Triple(SATURN_VX, SATURN_VY, SATURN_VZ),
            mass: SATURN_MASS,
        });
        bodies.push(Body {
            position: Triple(URANUS_PX, URANUS_PY, URANUS_PZ),
            velocity: Triple(URANUS_VX, URANUS_VY, URANUS_VZ),
            mass: URANUS_MASS,
        });
        bodies.push(Body {
            position: Triple(NEPTUNE_PX, NEPTUNE_PY, NEPTUNE_PZ),
            velocity: Triple(NEPTUNE_VX, NEPTUNE_VY, NEPTUNE_VZ),
            mass: NEPTUNE_MASS,
        });
        proof {
            assert(bodies@ =~= starting_state_spec());
        }
        System { bodies }
    }

    /// Read body `i`.
    pub fn body(&self, i: usize) -> (b: Body)
        requires
            self.wf(),
            i < BODIES_COUNT,
        ensures
            b == self@[i as int],
    {
        self.bodies[i]
    }
}

/// Recompute the sun's velocity so that the total momentum of the system as it
/// stands is offset to zero: the sun's velocity becomes the fold of
/// `-velocity * (mass / SOLAR_MASS)` over the four planets. Nothing else moves.
pub fn offset_momentum(sys: &mut System)
    requires
        old(sys).wf(),
    ensures
        final(sys).wf(),
        final(sys)@ == offset_momentum_spec(old(sys)@),
{
    let mut v: Triple = Triple(0, 0, 0);
    let mut i: usize = 1;
    while i < BODIES_COUNT
        invariant
            1 <= i <= BODIES_COUNT,
            sys@ == old(sys)@,
            old(sys).wf(),
            v == offset_vel_upto(sys@, (i - 1) as nat),
        decreases BODIES_COUNT - i,
    {
        let b: Body = sys.bodies[i];
        v = v.sub(b.velocity.scale(fp_div(b.mass, SOLAR_MASS)));
        i = i + 1;
    }
    let sun: Body = sys.bodies[0];
    sys.bodies.set(0, Body { position: sun.position, velocity: v, mass: sun.mass });
    proof {
        assert(sys@ =~= offset_momentum_spec(old(sys)@));
    }
}

/// Total mechanical energy of the system, as the bits of the double that the
/// kernel's fixed-order fold produces. Read-only.
pub fn compute_energy(sys: &System) -> (e: u64)
    requires
        sys.wf(),
    ensures
        e == energy_spec(sys@),
{
    let mut e: u64 = 0;
    let mut i: usize = 0;
    while i < BODIES_COUNT
        invariant
            i <= BODIES_COUNT,
            sys.wf(),
            energy_from(sys@, e, i as int) == energy_spec(sys@),
        decreases BODIES_COUNT - i,
    {
        let b1: Body = sys.bodies[i];
        e = fp_add(e, fp_mul(fp_mul(HALF, b1.mass), b1.velocity.sum_squared()));
        let mut j: usize = i + 1;
        while j < BODIES_COUNT
            invariant
                i < j <= BODIES_COUNT,
                i < BODIES_COUNT,
                sys.wf(),
                b1 == sys@[i as int],
                energy_from(sys@, pe_from(sys@, e, i as int, j as int), i as int + 1)
                    == energy_spec(sys@),
            decreases BODIES_COUNT - j,
        {
            let b2: Body = sys.bodies[j];
            let d: Triple = b1.position.sub(b2.position);
            e = fp_sub(e, fp_div(fp_mul(b1.mass, b2.mass), fp_sqrt(d.sum_squared())));
            j = j + 1;
        }
        i = i + 1;
    }
    e
}

/// One integration step, with fresh scratch storage for this call.
pub fn advance_once(sys: &mut System)
    requires
        old(sys).wf(),
    ensures
        final(sys).wf(),
        final(sys)@ == advance1(old(sys)@),
{
    let ghost bs0: Seq<Body> = sys@;
    let ps: Vec<(usize, usize)> = pair_list();

    // Point-to-point vectors between each unique pair of bodies, from the
    // frozen start-of-step positions.
    let mut deltas: Vec<Triple> = Vec::new();
    let mut k: usize = 0;
    while k < INTERACTIONS
        invariant
            sys@ == bs0,
            old(sys).wf(),
            bs0.len() == BODIES_COUNT,
            k <= INTERACTIONS,
            pair_table_matches(ps@),
            deltas@.len() == k as int,
            forall|t: int| 0 <= t < k ==> #[trigger] deltas@[t] == delta_at(bs0, t),
        decreases INTERACTIONS - k,
    {
        let p: (usize, usize) = ps[k];
        let b1: Body = sys.bodies[p.0];
        let b2: Body = sys.bodies[p.1];
        deltas.push(b1.position.sub(b2.position));
        k = k + 1;
    }

    // The `dt / d^3` magnitude of each pair.
    let mut mags: Vec<u64> = Vec::new();
    let mut k: usize = 0;
    while k < INTERACTIONS
        invariant
            sys@ == bs0,
            old(sys).wf(),
            bs0.len() == BODIES_COUNT,
            k <= INTERACTIONS,
            deltas@.len() == INTERACTIONS,
            forall|t: int| 0 <= t < INTERACTIONS ==> #[trigger] deltas@[t] == delta_at(bs0, t),
            mags@.len() == k as int,
            forall|t: int| 0 <= t < k ==> #[trigger] mags@[t] == mag_at(bs0, t),
        decreases INTERACTIONS - k,
    {
        let d: Triple = deltas[k];
        let ss: u64 = d.sum_squared();
        mags.push(fp_div(DT, fp_mul(ss, fp_sqrt(ss))));
        k = k + 1;
    }

    // Apply every pair's kick to the two velocities, in enumeration order,
    // using only the frozen deltas and magnitudes.
    let mut k: usize = 0;
    while k < INTERACTIONS
        invariant
            bs0.len() == BODIES_COUNT,
            sys@.len() == BODIES_COUNT,
            k <= INTERACTIONS,
            pair_table_matches(ps@),
            deltas@.len() == INTERACTIONS,
            forall|t: int| 0 <= t < INTERACTIONS ==> #[trigger] deltas@[t] == delta_at(bs0, t),
            mags@.len() == INTERACTIONS,
            forall|t: int| 0 <= t < INTERACTIONS ==> #[trigger] mags@[t] == mag_at(bs0, t),
            sys@ == kicks_upto(bs0, k as nat),
        decreases INTERACTIONS - k,
    {
        let p: (usize, usize) = ps[k];
        let d: Triple = deltas[k];
        let m: u64 = mags[k];
        let b1: Body = sys.bodies[p.0];
        let b2: Body = sys.bodies[p.1];
        sys.bodies.set(p.0, Body {
            position: b1.position,
            velocity: b1.velocity.sub(d.scale(fp_mul(b2.mass, m))),
            mass: b1.mass,
        });
        sys.bodies.set(p.1, Body {
            position: b2.position,
            velocity: b2.velocity.add(d.scale(fp_mul(b1.mass, m))),
            mass: b2.mass,
        });
        proof {
            assert(sys@ =~= kicks_upto(bs0, (k + 1) as nat));
        }
        k = k + 1;
    }

    // Drift every position by the newly updated velocity.
    let ghost mid: Seq<Body> = sys@;
    let mut i: usize = 0;
    while i < BODIES_COUNT
        invariant
            mid.len() == BODIES_COUNT,
            sys@.len() == BODIES_COUNT,
            i <= BODIES_COUNT,
            forall|t: int| 0 <= t < i ==> #[trigger] sys@[t] == drift_body(mid[t]),
            forall|t: int| i <= t < BODIES_COUNT ==> #[trigger] sys@[t] == mid[t],
        decreases BODIES_COUNT - i,
    {
        let b: Body = sys.bodies[i];
        sys.bodies.set(i, Body {
            position: b.position.add(b.velocity.scale(DT)),
            velocity: b.velocity,
            mass: b.mass,
        });
        i = i + 1;
    }
    proof {
        assert(sys@ =~= drift_all(mid));
    }
}

/// `steps` consecutive single integration steps, one after the other; no
/// shortcut across step boundaries.
pub fn advance(sys: &mut System, steps: usize)
    requires
        old(sys).wf(),
    ensures
        final(sys).wf(),
        final(sys)@ == advance_n(old(sys)@, steps as nat),
{
    let ghost bs0: Seq<Body> = sys@;
    let mut t: usize = 0;
    while t < steps
        invariant
            t <= steps,
            sys.wf(),
            sys@ == advance_n(bs0, t as nat),
        decreases steps - t,
    {
        advance_once(sys);
        t = t + 1;
    }
}

/// An advancer that owns its pairwise scratch storage and reuses it across
/// calls, writing each pass in place instead of allocating per step.
pub struct BodiesAdvance {
    pair_table: Vec<(usize, usize)>,
    d_positions: Vec<Triple>,
    magnitudes: Vec<u64>,
}

impl BodiesAdvance {
    /// Well-formed: the pair table is the fixed enumeration and the scratch
    /// buffers hold one slot per pair.
    pub closed spec fn wf(&self) -> bool {
        &&& pair_table_matches(self.pair_table@)
        &&& self.d_positions@.len() == INTERACTIONS
        &&& self.magnitudes@.len() == INTERACTIONS
    }

    /// A fresh advancer with zeroed scratch storage.
    pub fn new() -> (s: BodiesAdvance)
        ensures
            s.wf(),
    {
        let mut d_positions: Vec<Triple> = Vec::new();
        let mut magnitudes: Vec<u64> = Vec::new();
        let mut k: usize = 0;
        while k < INTERACTIONS
            invariant
                k <= INTERACTIONS,
                d_positions@.len() == k as int,
                magnitudes@.len() == k as int,
            decreases INTERACTIONS - k,
        {
            d_positions.push(Triple(0, 0, 0));
            magnitudes.push(0);
            k = k + 1;
        }
        BodiesAdvance { pair_table: pair_list(), d_positions, magnitudes }
    }

    /// One integration step, identical in result to `advance_once`, carried
    /// out in the advancer's own scratch storage.
    pub fn advance(&mut self, sys: &mut System)
        requires
            old(self).wf(),
            old(sys).wf(),
        ensures
            final(self).wf(),
            final(sys).wf(),
            final(sys)@ == advance1(old(sys)@),
    {
        let ghost bs0: Seq<Body> = sys@;

        let mut k: usize = 0;
        while k < INTERACTIONS
            invariant
                sys@ == bs0,
                old(sys).wf(),
                bs0.len() == BODIES_COUNT,
                k <= INTERACTIONS,
                pair_table_matches(self.pair_table@),
                self.d_positions@.len() == INTERACTIONS,
                self.magnitudes@.len() == INTERACTIONS,
                forall|t: int| 0 <= t < k ==> #[trigger] self.d_positions@[t] == delta_at(bs0, t),
            decreases INTERACTIONS - k,
        {
            let p: (usize, usize) = self.pair_table[k];
            let b1: Body = sys.bodies[p.0];
            let b2: Body = sys.bodies[p.1];
            self.d_positions.set(k, b1.position.sub(b2.position));
            k = k + 1;
        }

        let mut k: usize = 0;
        while k < INTERACTIONS
            invariant
                sys@ == bs0,
                old(sys).wf(),
                bs0.len() == BODIES_COUNT,
                k <= INTERACTIONS,
                pair_table_matches(self.pair_table@),
                self.d_positions@.len() == INTERACTIONS,
                self.magnitudes@.len() == INTERACTIONS,
                forall|t: int| 0 <= t < INTERACTIONS
                    ==> #[trigger] self.d_positions@[t] == delta_at(bs0, t),
                forall|t: int| 0 <= t < k ==> #[trigger] self.magnitudes@[t] == mag_at(bs0, t),
            decreases INTERACTIONS - k,
        {
            let d: Triple = self.d_positions[k];
            let ss: u64 = d.sum_squared();
            self.magnitudes.set(k, fp_div(DT, fp_mul(ss, fp_sqrt(ss))));
            k = k + 1;
        }

        let mut k: usize = 0;
        while k < INTERACTIONS
            invariant
                bs0.len() == BODIES_COUNT,
                sys@.len() == BODIES_COUNT,
                k <= INTERACTIONS,
                pair_table_matches(self.pair_table@),
                self.d_positions@.len() == INTERACTIONS,
                self.magnitudes@.len() == INTERACTIONS,
                forall|t: int| 0 <= t < INTERACTIONS
                    ==> #[trigger] self.d_positions@[t] == delta_at(bs0, t),
                forall|t: int| 0 <= t < INTERACTIONS
                    ==> #[trigger] self.magnitudes@[t] == mag_at(bs0, t),
                sys@ == kicks_upto(bs0, k as nat),
            decreases INTERACTIONS - k,
        {
            let p: (usize, usize) = self.pair_table[k];
            let d: Triple = self.d_positions[k];
            let m: u64 = self.magnitudes[k];
            let b1: Body = sys.bodies[p.0];
            let b2: Body = sys.bodies[p.1];
            sys.bodies.set(p.0, Body {
                position: b1.position,
                velocity: b1.velocity.sub(d.scale(fp_mul(b2.mass, m))),
                mass: b1.mass,
            });
            sys.bodies.set(p.1, Body {
                position: b2.position,
                velocity: b2.velocity.add(d.scale(fp_mul(b1.mass, m))),
                mass: b2.mass,
            });
            proof {
                assert(sys@ =~= kicks_upto(bs0, (k + 1) as nat));
            }
            k = k + 1;
        }

        let ghost mid: Seq<Body> = sys@;
        let mut i: usize = 0;
        while i < BODIES_COUNT
            invariant
                mid.len() == BODIES_COUNT,
                sys@.len() == BODIES_COUNT,
                i <= BODIES_COUNT,
                pair_table_matches(self.pair_table@),
                self.d_positions@.len() == INTERACTIONS,
                self.magnitudes@.len() == INTERACTIONS,
                forall|t: int| 0 <= t < i ==> #[trigger] sys@[t] == drift_body(mid[t]),
                forall|t: int| i <= t < BODIES_COUNT ==> #[trigger] sys@[t] == mid[t],
            decreases BODIES_COUNT - i,
        {
            let b: Body = sys.bodies[i];
            sys.bodies.set(i, Body {
                position: b.position.add(b.velocity.scale(DT)),
                velocity: b.velocity,
                mass: b.mass,
            });
            i = i + 1;
        }
        proof {
            assert(sys@ =~= drift_all(mid));
        }
    }
}

} // verus!
