//! The search for a free region near a hooked function, where its trampoline can be placed so
//! that rel32 operands copied into it stay representable. Regions are probed at allocation
//! granularity, alternately above and below the function, within 2 GB of it.

use vstd::prelude::*;

verus! {

/// Allocation granularity: candidate regions start at multiples of it.
pub const GRANULARITY: usize = 0x10000;

/// Largest distance from the function at which a region is probed.
pub const MAX_RANGE: usize = 0x7FFF_0000;

/// Number of rounds of the search (each probes at most one region above and one below).
pub const ROUNDS: usize = 0x7FFF;

/// `a + b`, or `usize::MAX` when that overflows.
pub open spec fn sat_add(a: usize, b: usize) -> usize {
    if a + b > usize::MAX {
        usize::MAX
    } else {
        (a + b) as usize
    }
}

/// `a - b`, or 0 when that underflows.
pub open spec fn sat_sub(a: usize, b: usize) -> usize {
    if a < b {
        0
    } else {
        (a - b) as usize
    }
}

/// The state of a search around `origin`: the next region above (`hi`) and below (`lo`) to
/// probe, and the rounds left.
pub struct NearSearch {
    origin: usize,
    lo: usize,
    hi: usize,
    rounds: usize,
}

/// The abstract state of a search.
pub struct NearSearchView {
    pub origin: usize,
    pub lo: usize,
    pub hi: usize,
    pub rounds: usize,
}

impl View for NearSearch {
    type V = NearSearchView;

    closed spec fn view(&self) -> NearSearchView {
        NearSearchView { origin: self.origin, lo: self.lo, hi: self.hi, rounds: self.rounds }
    }
}

/// Rounds `x` down to a multiple of `GRANULARITY`.
fn align_down(x: usize) -> (r: usize)
    ensures
        r == x - x % GRANULARITY,
        r % GRANULARITY == 0,
        r <= x,
        x - r < GRANULARITY,
{
    let r = x & !(GRANULARITY - 1);
    assert(r == x - x % 0x10000 && r % 0x10000 == 0 && r <= x && x - r < 0x10000) by (bit_vector)
        requires
            r == x & !0xFFFFusize,
    ;
    r
}

/// The search that `NearSearch::new` starts around `origin`: the first region above is the
/// next multiple of the granularity above `origin`, the first below is the multiple of the
/// granularity below the granule that holds `origin`.
pub open spec fn spec_new(origin: usize) -> NearSearchView {
    let below = sat_sub(origin, GRANULARITY);
    NearSearchView {
        origin,
        lo: (below - below % GRANULARITY) as usize,
        hi: ((origin + GRANULARITY) - (origin + GRANULARITY) % (GRANULARITY as int)) as usize,
        rounds: ROUNDS,
    }
}

/// The region above the origin that a search in state `v` probes, if it is still in range.
pub open spec fn candidate_above(v: NearSearchView) -> Option<usize> {
    if v.hi < sat_add(v.origin, MAX_RANGE) {
        Some(v.hi)
    } else {
        None
    }
}

/// The region below the origin that a search in state `v` probes, if it is still in range.
pub open spec fn candidate_below(v: NearSearchView) -> Option<usize> {
    if v.lo > sat_sub(v.origin, MAX_RANGE) {
        Some(v.lo)
    } else {
        None
    }
}

/// The state after a round that found nothing: each side that was in range moves one granule
/// further out.
pub open spec fn spec_advance(v: NearSearchView) -> NearSearchView {
    NearSearchView {
        hi: if candidate_above(v) is Some {
            sat_add(v.hi, GRANULARITY)
        } else {
            v.hi
        },
        lo: if candidate_below(v) is Some {
            sat_sub(v.lo, GRANULARITY)
        } else {
            v.lo
        },
        ..v
    }
}

/// The regions at hand in round `k` of the search around `origin` (counting from 0), when no
/// earlier round found a region.
pub open spec fn round_state(origin: usize, k: nat) -> NearSearchView
    decreases k,
{
    if k == 0 {
        spec_new(origin)
    } else {
        spec_advance(round_state(origin, (k - 1) as nat))
    }
}

impl NearSearch {
    #[verifier::type_invariant]
    spec fn inv(self) -> bool {
        &&& self.lo % GRANULARITY == 0
        &&& self.lo <= self.origin
        &&& self.hi % GRANULARITY == 0 || self.hi == usize::MAX
        &&& self.hi > self.origin
    }

    /// Starts a search around `origin`: the first region above is the next multiple of the
    /// granularity above it, the first below lies at least one granule below it.
    pub fn new(origin: usize) -> (r: NearSearch)
        requires
            origin + GRANULARITY <= usize::MAX,
        ensures
            r@ == spec_new(origin),
            r@.origin == origin,
            r@.rounds == ROUNDS,
            r@.lo % GRANULARITY == 0,
            r@.lo <= sat_sub(origin, GRANULARITY),
            sat_sub(origin, GRANULARITY) - r@.lo < GRANULARITY,
            r@.hi % GRANULARITY == 0,
            origin < r@.hi <= origin + GRANULARITY,
    {
        let below = if origin < GRANULARITY {
            0
        } else {
            origin - GRANULARITY
        };
        let lo = align_down(below);
        let hi = align_down(origin + GRANULARITY);
        NearSearch { origin, lo, hi, rounds: ROUNDS }
    }

    /// Starts the next round; `false` once all rounds are done.
    pub fn next_round(&mut self) -> (r: bool)
        ensures
            r == (old(self)@.rounds > 0),
            final(self)@ == (NearSearchView {
                rounds: if r {
                    (old(self)@.rounds - 1) as usize
                } else {
                    0
                },
                ..old(self)@
            }),
    {
        proof {
            use_type_invariant(&*self);
        }
        if self.rounds == 0 {
            return false;
        }
        self.rounds = self.rounds - 1;
        true
    }

    /// The region above the origin to probe in this round, if it is still in range.
    pub fn above(&self) -> (r: Option<usize>)
        ensures
            r == candidate_above(self@),
            r matches Some(c) ==> c % GRANULARITY == 0 && self@.origin < c < self@.origin + MAX_RANGE,
    {
        proof {
            use_type_invariant(self);
        }
        let limit = self.origin.saturating_add(MAX_RANGE);
        if self.hi < limit {
            Some(self.hi)
        } else {
            None
        }
    }

    /// The region below the origin to probe in this round, if it is still in range.
    pub fn below(&self) -> (r: Option<usize>)
        ensures
            r == candidate_below(self@),
            r matches Some(c) ==> c % GRANULARITY == 0 && self@.origin - MAX_RANGE < c <= self@.origin,
    {
        proof {
            use_type_invariant(self);
        }
        let limit = self.origin.saturating_sub(MAX_RANGE);
        if self.lo > limit {
            Some(self.lo)
        } else {
            None
        }
    }

    /// Ends a round that found nothing: each side that was in range moves one granule further
    /// out.
    pub fn advance(&mut self)
        ensures
            final(self)@ == spec_advance(old(self)@),
    {
        proof {
            use_type_invariant(&*self);
            assert(self.hi % 0x10000 == 0 ==> (self.hi + 0x10000 > usize::MAX || (self.hi + 0x10000)
                % 0x10000 == 0));
        }
        if self.hi < self.origin.saturating_add(MAX_RANGE) {
            self.hi = self.hi.saturating_add(GRANULARITY);
        }
        if self.lo > self.origin.saturating_sub(MAX_RANGE) {
            self.lo = self.lo.saturating_sub(GRANULARITY);
        }
    }
}

/// While the regions above stay in range, round `j` probes the `j`-th granule above the first.
proof fn lemma_hi_at_round(origin: usize, j: nat)
    requires
        origin + GRANULARITY <= usize::MAX,
        spec_new(origin).hi + j * GRANULARITY < sat_add(origin, MAX_RANGE),
    ensures
        round_state(origin, j).hi == spec_new(origin).hi + j * GRANULARITY,
        round_state(origin, j).origin == origin,
    decreases j,
{
    if j > 0 {
        lemma_hi_at_round(origin, (j - 1) as nat);
    }
}

/// While the regions below stay in range, round `j` probes the `j`-th granule below the first.
proof fn lemma_lo_at_round(origin: usize, j: nat)
    requires
        origin + GRANULARITY <= usize::MAX,
        spec_new(origin).lo - j * GRANULARITY > sat_sub(origin, MAX_RANGE),
    ensures
        round_state(origin, j).lo == spec_new(origin).lo - j * GRANULARITY,
        round_state(origin, j).origin == origin,
    decreases j,
{
    if j > 0 {
        lemma_lo_at_round(origin, (j - 1) as nat);
    }
}

/// The search proposes every region within range before it gives up: each address `q` other
/// than 0 that is a multiple of the granularity, lies less than `MAX_RANGE` away from `origin`
/// and is not the start of the granule that holds `origin`, is the region above or below in
/// one of the `ROUNDS` rounds.
pub proof fn lemma_search_covers_range(origin: usize, q: usize)
    requires
        origin + GRANULARITY <= usize::MAX,
        q != 0,
        q % GRANULARITY == 0,
        q != origin - origin % GRANULARITY,
        origin - MAX_RANGE < q < origin + MAX_RANGE,
    ensures
        exists|k: nat|
            #![trigger round_state(origin, k)]
            k < ROUNDS && (candidate_above(round_state(origin, k)) == Some(q) || candidate_below(
                round_state(origin, k),
            ) == Some(q)),
{
    let v0 = spec_new(origin);
    let x = q as int;
    let o = origin as int;
    let mx = usize::MAX as int;
    let qa = x / 0x10000;
    let oa = o / 0x10000;
    let orr = o % 0x10000;
    vstd::arithmetic::div_mod::lemma_fundamental_div_mod(x, 0x10000);
    vstd::arithmetic::div_mod::lemma_fundamental_div_mod(o, 0x10000);
    vstd::arithmetic::div_mod::lemma_mod_bound(o, 0x10000);
    assert(x == 0x10000 * qa);
    assert(o == 0x10000 * oa + orr && 0 <= orr < 0x10000);
    // a multiple of the granularity is never usize::MAX
    assert(mx == 0xFFFF_FFFF || mx == 0xFFFF_FFFF_FFFF_FFFF);
    vstd::arithmetic::div_mod::lemma_fundamental_div_mod(mx, 0x10000);
    vstd::arithmetic::div_mod::lemma_mod_bound(mx, 0x10000);
    assert(mx % 0x10000 == 0xFFFF) by {
        if mx == 0xFFFF_FFFF {
            vstd::arithmetic::div_mod::lemma_fundamental_div_mod_converse(mx, 0x10000, 0xFFFF, 0xFFFF);
        } else {
            vstd::arithmetic::div_mod::lemma_fundamental_div_mod_converse(
                mx,
                0x10000,
                0xFFFF_FFFF_FFFF,
                0xFFFF,
            );
        }
    }
    assert(x != mx);
    if q > origin {
        // q lies at or above the first region above, the next multiple above origin
        vstd::arithmetic::div_mod::lemma_fundamental_div_mod_converse(
            o + 0x10000,
            0x10000,
            oa + 1,
            orr,
        );
        assert(v0.hi == 0x10000 * (oa + 1));
        assert(qa >= oa + 1);
        let k = (qa - (oa + 1)) as nat;
        assert(x == v0.hi + 0x10000 * k);
        assert(k * GRANULARITY == 0x10000 * k);
        lemma_hi_at_round(origin, k);
        assert(k < ROUNDS);
        assert(candidate_above(round_state(origin, k)) == Some(q));
    } else {
        // q lies at or below the first region below, which exists
        assert(qa <= oa - 1);
        assert(o >= 0x10000);
        let b = o - 0x10000;
        vstd::arithmetic::div_mod::lemma_fundamental_div_mod_converse(b, 0x10000, oa - 1, orr);
        assert(v0.lo == 0x10000 * (oa - 1));
        let k = ((oa - 1) - qa) as nat;
        assert(x == v0.lo - 0x10000 * k);
        assert(k * GRANULARITY == 0x10000 * k);
        lemma_lo_at_round(origin, k);
        assert(k < ROUNDS);
        assert(candidate_below(round_state(origin, k)) == Some(q));
    }
}

} // verus!
