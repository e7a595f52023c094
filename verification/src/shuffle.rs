//! Queue shuffling: a Fisher–Yates pass driven by a 64-bit linear congruential
//! generator, so that a given seed always yields the same order.
use vstd::prelude::*;
use crate::models::Song;
use crate::sort::lemma_swap_multiset;

verus! {

/// Multiplier of the generator (Knuth's MMIX constants).
pub const LCG_MUL: u64 = 6364136223846793005;

/// Increment of the generator.
pub const LCG_INC: u64 = 1442695040888963407;

/// One step of the generator: `x * LCG_MUL + LCG_INC` modulo 2^64.
pub open spec fn lcg_step(x: u64) -> u64 {
    vstd::wrapping::u64_specs::wrapping_add(
        vstd::wrapping::u64_specs::wrapping_mul(x, LCG_MUL),
        LCG_INC,
    )
}

/// Advances the generator by one step.
pub fn lcg_next(x: u64) -> (r: u64)
    ensures
        r == lcg_step(x),
{
    x.wrapping_mul(LCG_MUL).wrapping_add(LCG_INC)
}

/// `s` with the items at `i` and `j` exchanged.
pub open spec fn swapped<A>(s: Seq<A>, i: int, j: int) -> Seq<A> {
    s.update(i, s[j]).update(j, s[i])
}

/// The position drawn for slot `i` from generator state `r`: uniform-ish in `base..=i`.
pub open spec fn draw(r: u64, i: int, base: int) -> int {
    (r >> 33u64) as int % (i + 1 - base) + base
}

/// Fisher–Yates over the slots `base..=i`, from the top down: each slot is exchanged
/// with a slot drawn at or below it, the generator advancing once per slot.
pub open spec fn fisher_yates<A>(s: Seq<A>, i: int, rng: u64, base: int) -> Seq<A>
    decreases i - base,
{
    if i <= base {
        s
    } else {
        let r = lcg_step(rng);
        fisher_yates(swapped(s, i, draw(r, i, base)), i - 1, r, base)
    }
}

/// A Fisher–Yates pass rearranges the items and leaves the slots below `base` alone.
pub proof fn lemma_fisher_yates<A>(s: Seq<A>, i: int, rng: u64, base: int)
    requires
        0 <= base,
        i < s.len(),
    ensures
        fisher_yates(s, i, rng, base).len() == s.len(),
        fisher_yates(s, i, rng, base).to_multiset() =~= s.to_multiset(),
        forall|k: int| 0 <= k < base && k < s.len() ==> #[trigger] fisher_yates(s, i, rng, base)[k]
            == s[k],
    decreases i - base,
{
    if i > base {
        let r = lcg_step(rng);
        let j = draw(r, i, base);
        assert(base <= j <= i);
        lemma_swap_multiset(s, i, j);
        lemma_fisher_yates(swapped(s, i, j), i - 1, r, base);
    }
}

/// Exchanges two songs of a list.
pub fn swap_songs(v: &mut Vec<Song>, i: usize, j: usize)
    requires
        i < old(v).len(),
        j < old(v).len(),
    ensures
        final(v)@ == swapped(old(v)@, i as int, j as int),
{
    let a = v[i].clone();
    let b = v[j].clone();
    v.set(i, b);
    v.set(j, a);
}

/// Runs the Fisher–Yates pass over slots `base..` of a non-empty list, starting from
/// generator state `rng`.
pub fn shuffle_songs(v: &mut Vec<Song>, base: usize, rng: u64)
    requires
        base < old(v).len(),
    ensures
        final(v)@ == fisher_yates(old(v)@, old(v)@.len() - 1, rng, base as int),
{
    let ghost target = fisher_yates(old(v)@, old(v)@.len() - 1, rng, base as int);
    let mut state = rng;
    let mut i = v.len() - 1;
    while i > base
        invariant
            base <= i < v.len(),
            fisher_yates(v@, i as int, state, base as int) == target,
        decreases i,
    {
        state = lcg_next(state);
        let hi: u64 = state >> 33u64;
        assert(hi < 0x8000_0000u64) by (bit_vector)
            requires
                hi == state >> 33u64,
        ;
        let j = (hi as usize) % (i + 1 - base) + base;
        assert(j == draw(state, i as int, base as int));
        swap_songs(v, i, j);
        i = i - 1;
    }
}

/// A Fisher–Yates pass from slot `i` down leaves the slots above `i` alone.
proof fn lemma_fisher_yates_above<A>(s: Seq<A>, i: int, rng: u64, base: int)
    requires
        0 <= base,
        i < s.len(),
    ensures
        forall|k: int| i < k < s.len() ==> #[trigger] fisher_yates(s, i, rng, base)[k] == s[k],
    decreases i - base,
{
    if i > base {
        let r = lcg_step(rng);
        let j = draw(r, i, base);
        lemma_fisher_yates_above(swapped(s, i, j), i - 1, r, base);
        lemma_fisher_yates(swapped(s, i, j), i - 1, r, base);
    }
}

/// The generator reaches every state: the state before `r` is found by undoing the
/// increment and multiplying by the inverse of the (odd) multiplier modulo 2^64.
proof fn lemma_lcg_onto(r: u64) -> (x: u64)
    ensures
        lcg_step(x) == r,
{
    let inv: u64 = 13877824140714322085;
    let d = vstd::wrapping::u64_specs::wrapping_sub(r, LCG_INC);
    let x = vstd::wrapping::u64_specs::wrapping_mul(d, inv);
    let m: int = 0x1_0000_0000_0000_0000;
    assert(inv as int * LCG_MUL as int == m * 4787856489426250814 + 1);
    vstd::arithmetic::div_mod::lemma_mul_mod_noop_left(d as int * inv as int, LCG_MUL as int, m);
    vstd::arithmetic::mul::lemma_mul_is_associative(d as int, inv as int, LCG_MUL as int);
    assert(d as int * (inv as int * LCG_MUL as int) == m * (d as int * 4787856489426250814) + d as int)
        by (nonlinear_arith)
        requires
            inv as int * LCG_MUL as int == m * 4787856489426250814 + 1,
    ;
    vstd::arithmetic::div_mod::lemma_mod_multiples_vanish(d as int * 4787856489426250814, d as int, m);
    vstd::arithmetic::div_mod::lemma_small_mod(d as nat, m as nat);
    assert(vstd::wrapping::u64_specs::wrapping_mul(x, LCG_MUL) == d);
    x
}

/// Any position in `base..=i` can be the one drawn for slot `i` (for `i - base` below
/// 2^31, the range of the generator's high bits).
pub proof fn law_draw_reaches_every_slot(i: int, base: int, j: int)
    requires
        0 <= base <= j <= i,
        i - base < 0x8000_0000,
    ensures
        exists|r: u64| #[trigger] draw(r, i, base) == j,
{
    let k: u64 = (j - base) as u64;
    let r: u64 = k << 33u64;
    assert((k << 33u64) >> 33u64 == k) by (bit_vector)
        requires
            k < 0x8000_0000,
    ;
    vstd::arithmetic::div_mod::lemma_small_mod(k as nat, (i + 1 - base) as nat);
    assert(draw(r, i, base) == j);
}

/// Shuffling can bring any item of the shuffled slots `base..=i` to slot `i`: for each
/// such position `j` some generator state puts `s[j]` there. In particular a queue of
/// two or more different songs is reordered by some seed.
pub proof fn law_shuffle_can_put_any_item_last<A>(s: Seq<A>, i: int, base: int, j: int)
    requires
        0 <= base <= j <= i < s.len(),
        i - base < 0x8000_0000,
    ensures
        exists|rng: u64| #[trigger] fisher_yates(s, i, rng, base)[i] == s[j],
{
    if i == base {
        assert(fisher_yates(s, i, 0, base)[i] == s[j]);
    } else {
        law_draw_reaches_every_slot(i, base, j);
        let r = choose|r: u64| #[trigger] draw(r, i, base) == j;
        let rng = lemma_lcg_onto(r);
        let t = swapped(s, i, j);
        lemma_fisher_yates_above(t, i - 1, r, base);
        assert(fisher_yates(s, i, rng, base) == fisher_yates(t, i - 1, r, base));
        assert(fisher_yates(t, i - 1, r, base)[i] == t[i]);
        assert(fisher_yates(s, i, rng, base)[i] == s[j]);
    }
}

/// The position drawn for slot `i` is the generator state's top 31 bits (the state
/// divided by 2^33), reduced into `base..=i`; it always lies in that range.
pub proof fn law_draw_in_range(r: u64, i: int, base: int)
    requires
        0 <= base <= i,
    ensures
        draw(r, i, base) == (r as int / 0x2_0000_0000) % (i + 1 - base) + base,
        base <= draw(r, i, base) <= i,
{
    assert(r >> 33u64 == r / 0x2_0000_0000u64) by (bit_vector);
}

} // verus!
