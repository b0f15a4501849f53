//! Sizes of the levels of a depth pyramid.
//!
//! Level 0 has the size of the source depth image. Every further level halves
//! both dimensions of the one before it, rounding down and never going below
//! one pixel. The chain ends with the first level of a single pixel, or when
//! it holds [`HIZ_MIPMAP_COUNT`] levels, whichever comes first.

use vstd::prelude::*;
use vstd::arithmetic::logarithm::{lemma_log0, lemma_log_s, log};
use vstd::arithmetic::power2::{lemma_pow2_pos, lemma_pow2_unfold, pow2};
use vstd::arithmetic::div_mod::lemma_div_denominator;

verus! {

/// Largest number of levels a pyramid may have: the number of storage images
/// that one compute stage can be handed at once.
pub const HIZ_MIPMAP_COUNT: u32 = 11;

/// One step down the pyramid for a single dimension: half, rounded down, but
/// never below one.
pub open spec fn halved(d: int) -> int {
    if d / 2 >= 1 {
        d / 2
    } else {
        1
    }
}

/// The larger of two dimensions.
pub open spec fn longer(a: int, b: int) -> int {
    if a >= b {
        a
    } else {
        b
    }
}

/// Halves one dimension of a level, keeping it at least one pixel.
pub fn halve(d: u32) -> (r: u32)
    ensures
        r == halved(d as int),
{
    if d / 2 >= 1 {
        d / 2
    } else {
        1
    }
}

/// Pixel dimensions of one level of a pyramid.
#[derive(Clone, Copy, Debug, PartialEq, Eq, Structural)]
pub struct LevelSize {
    pub width: u32,
    pub height: u32,
}

impl LevelSize {
    /// A level of a single pixel: the chain never continues past it.
    pub open spec fn is_unit(self) -> bool {
        self.width == 1 && self.height == 1
    }

    /// The size of the level below this one in the chain.
    pub open spec fn halved(self) -> LevelSize {
        LevelSize {
            width: halved(self.width as int) as u32,
            height: halved(self.height as int) as u32,
        }
    }

    /// The larger of the two dimensions.
    pub open spec fn longest(self) -> int {
        longer(self.width as int, self.height as int)
    }

    /// Both dimensions hold at least one pixel.
    pub open spec fn is_positive(self) -> bool {
        self.width >= 1 && self.height >= 1
    }

    /// The size of the next level: both dimensions halved.
    pub fn next(self) -> (r: LevelSize)
        ensures
            r == self.halved(),
    {
        LevelSize { width: halve(self.width), height: halve(self.height) }
    }

    /// Whether this level is a single pixel.
    pub fn is_single_pixel(&self) -> (r: bool)
        ensures
            r == self.is_unit(),
    {
        self.width == 1 && self.height == 1
    }
}

/// The size of level `k` of a chain that starts at `source`, were the chain
/// never cut off.
pub open spec fn level_at(source: LevelSize, k: nat) -> LevelSize
    decreases k,
{
    if k == 0 {
        source
    } else {
        level_at(source, (k - 1) as nat).halved()
    }
}

/// The chain that starts at `first` and holds at most `budget` levels.
pub open spec fn plan_from(first: LevelSize, budget: nat) -> Seq<LevelSize>
    decreases budget,
{
    if budget == 0 {
        Seq::empty()
    } else if budget == 1 || first.is_unit() {
        seq![first]
    } else {
        seq![first] + plan_from(first.halved(), (budget - 1) as nat)
    }
}

/// The size of a `width` by `height` source: level 0 of its pyramid.
pub open spec fn source_size(width: u32, height: u32) -> LevelSize {
    LevelSize { width, height }
}

/// The level sizes of the pyramid over a `width` by `height` source.
pub open spec fn plan_spec(width: u32, height: u32) -> Seq<LevelSize> {
    plan_from(source_size(width, height), HIZ_MIPMAP_COUNT as nat)
}

/// What makes a sequence of sizes the chain over `source` with at most
/// `budget` levels: it starts at the source, each level is its predecessor
/// halved, and it stops at the first single pixel or at the budget.
pub open spec fn is_chain(levels: Seq<LevelSize>, source: LevelSize, budget: nat) -> bool {
    &&& 1 <= levels.len() <= budget
    &&& levels[0] == source
    &&& forall|k: int| 0 < k < levels.len() ==> #[trigger] levels[k] == levels[k - 1].halved()
    &&& forall|k: int| 0 <= k < levels.len() - 1 ==> !(#[trigger] levels[k]).is_unit()
    &&& levels.last().is_unit() || levels.len() == budget
}

/// `plan_from` builds a chain, and level `k` of it is `level_at(first, k)`.
pub proof fn lemma_plan_from_is_chain(first: LevelSize, budget: nat)
    requires
        budget >= 1,
    ensures
        is_chain(plan_from(first, budget), first, budget),
        forall|k: int|
            0 <= k < plan_from(first, budget).len() ==> #[trigger] plan_from(first, budget)[k]
                == level_at(first, k as nat),
    decreases budget,
{
    let levels = plan_from(first, budget);
    if budget == 1 || first.is_unit() {
        assert(levels =~= seq![first]);
        assert(levels[0] == level_at(first, 0));
    } else {
        let rest = plan_from(first.halved(), (budget - 1) as nat);
        lemma_plan_from_is_chain(first.halved(), (budget - 1) as nat);
        assert(levels =~= seq![first] + rest);
        assert(levels.last() == rest.last());
        assert forall|k: int| 0 < k < levels.len() implies #[trigger] levels[k] == levels[k
            - 1].halved() by {
            if k == 1 {
                assert(levels[1] == rest[0]);
            } else {
                assert(levels[k] == rest[k - 1]);
                assert(levels[k - 1] == rest[k - 2]);
            }
        }
        assert forall|k: int| 0 <= k < levels.len() - 1 implies !(#[trigger] levels[k]).is_unit() by {
            if k > 0 {
                assert(levels[k] == rest[k - 1]);
            }
        }
        assert forall|k: int| 0 <= k < levels.len() implies #[trigger] levels[k] == level_at(
            first,
            k as nat,
        ) by {
            if k > 0 {
                assert(levels[k] == rest[k - 1]);
                lemma_level_at_shift(first, (k - 1) as nat);
            }
        }
    }
}

/// Going `k` levels down from the level below `source` is going `k + 1`
/// levels down from `source`.
pub proof fn lemma_level_at_shift(source: LevelSize, k: nat)
    ensures
        level_at(source.halved(), k) == level_at(source, k + 1),
    decreases k,
{
    assert(level_at(source, k + 1) == level_at(source, k).halved());
    if k > 0 {
        lemma_level_at_shift(source, (k - 1) as nat);
        assert(level_at(source, k) == level_at(source, (k - 1) as nat).halved());
    } else {
        assert(level_at(source, 0) == source);
    }
}

/// Plans the pyramid over a `width` by `height` source: the size of every
/// level, from the source's own size down.
pub fn plan(width: u32, height: u32) -> (levels: Vec<LevelSize>)
    ensures
        levels@ == plan_spec(width, height),
        is_chain(levels@, source_size(width, height), HIZ_MIPMAP_COUNT as nat),
        forall|k: int|
            0 <= k < levels.len() ==> #[trigger] levels[k] == level_at(
                source_size(width, height),
                k as nat,
            ),
{
    let source = LevelSize { width, height };
    let mut levels: Vec<LevelSize> = Vec::new();
    let mut current = source;
    levels.push(current);
    while levels.len() < HIZ_MIPMAP_COUNT as usize && !current.is_single_pixel()
        invariant
            1 <= levels.len() <= HIZ_MIPMAP_COUNT,
            current == levels[levels.len() - 1],
            plan_spec(width, height) == levels@.drop_last() + plan_from(
                current,
                (HIZ_MIPMAP_COUNT - levels.len() + 1) as nat,
            ),
        decreases HIZ_MIPMAP_COUNT - levels.len(),
    {
        let ghost before = levels@;
        current = current.next();
        levels.push(current);
        assert(levels@.drop_last() =~= before);
        assert(before =~= before.drop_last() + seq![before.last()]);
        assert(plan_spec(width, height) =~= levels@.drop_last() + plan_from(
            current,
            (HIZ_MIPMAP_COUNT - levels.len() + 1) as nat,
        ));
    }
    proof {
        assert(levels@ =~= levels@.drop_last() + seq![current]);
        lemma_plan_from_is_chain(source, HIZ_MIPMAP_COUNT as nat);
    }
    levels
}

/// Halving keeps a dimension of at least one pixel at least one pixel, and
/// never makes it larger.
pub proof fn lemma_halved_bounds(d: int)
    requires
        d >= 1,
    ensures
        1 <= halved(d) <= d,
        d >= 2 ==> halved(d) == d / 2 && halved(d) < d,
{
}

/// Every level of a chain over a source of at least one pixel each way has at
/// least one pixel each way.
pub proof fn lemma_level_at_positive(source: LevelSize, k: nat)
    requires
        source.is_positive(),
    ensures
        level_at(source, k).is_positive(),
    decreases k,
{
    if k > 0 {
        lemma_level_at_positive(source, (k - 1) as nat);
        let prev = level_at(source, (k - 1) as nat);
        lemma_halved_bounds(prev.width as int);
        lemma_halved_bounds(prev.height as int);
    }
}

/// The pyramid over a source of at least one pixel each way shrinks from
/// level to level: neither dimension ever grows, and the longer one becomes
/// strictly shorter.
pub proof fn lemma_plan_strictly_decreasing(width: u32, height: u32)
    requires
        width >= 1,
        height >= 1,
    ensures
        forall|k: int|
            #![trigger plan_spec(width, height)[k]]
            0 < k < plan_spec(width, height).len() ==> {
                let above = plan_spec(width, height)[k - 1];
                let below = plan_spec(width, height)[k];
                &&& 1 <= below.width <= above.width
                &&& 1 <= below.height <= above.height
                &&& below.longest() < above.longest()
            },
{
    let source = LevelSize { width, height };
    let levels = plan_spec(width, height);
    lemma_plan_from_is_chain(source, HIZ_MIPMAP_COUNT as nat);
    assert forall|k: int| #![trigger levels[k]] 0 < k < levels.len() implies {
        let above = levels[k - 1];
        let below = levels[k];
        &&& 1 <= below.width <= above.width
        &&& 1 <= below.height <= above.height
        &&& below.longest() < above.longest()
    } by {
        let above = levels[k - 1];
        assert(above == level_at(source, (k - 1) as nat));
        lemma_level_at_positive(source, (k - 1) as nat);
        assert(levels[k] == above.halved());
        assert(!above.is_unit());
        lemma_halved_bounds(above.width as int);
        lemma_halved_bounds(above.height as int);
    }
}

/// What `k` halvings leave of a dimension: the dimension divided by two to
/// the `k`, rounded down, but never below one; the dimension itself for
/// `k == 0`.
pub open spec fn shrunk(d: int, k: nat) -> int {
    if k == 0 {
        d
    } else if d / (pow2(k) as int) >= 1 {
        d / (pow2(k) as int)
    } else {
        1
    }
}

/// Level `k` of a chain has the source's dimensions, each divided by two to
/// the `k` and kept at one or more.
pub proof fn lemma_level_at_closed_form(source: LevelSize, k: nat)
    ensures
        level_at(source, k).width == shrunk(source.width as int, k),
        level_at(source, k).height == shrunk(source.height as int, k),
    decreases k,
{
    if k > 0 {
        lemma_level_at_closed_form(source, (k - 1) as nat);
        lemma_shrunk_step(source.width as int, (k - 1) as nat);
        lemma_shrunk_step(source.height as int, (k - 1) as nat);
    }
}

/// One more halving divides by two once more.
pub proof fn lemma_shrunk_step(d: int, k: nat)
    requires
        0 <= d,
    ensures
        halved(shrunk(d, k)) == shrunk(d, k + 1),
{
    lemma_pow2_pos(k);
    lemma_pow2_unfold(k + 1);
    if k == 0 {
        assert(pow2(0) == 1) by {
            vstd::arithmetic::power2::lemma2_to64();
        }
    } else {
        let p = pow2(k) as int;
        lemma_div_denominator(d, p, 2);
        assert(pow2(k + 1) as int == p * 2) by {
            assert(2 * pow2(k) == p * 2) by (nonlinear_arith)
                requires
                    p == pow2(k) as int,
            ;
        }
    }
}

/// The number of levels of the pyramid over a source of at least one pixel
/// each way: one more than the base-two logarithm of the longer side, rounded
/// down, and never more than [`HIZ_MIPMAP_COUNT`].
pub open spec fn level_count(width: u32, height: u32) -> int {
    let full = log(2, longer(width as int, height as int)) + 1;
    if full <= HIZ_MIPMAP_COUNT {
        full
    } else {
        HIZ_MIPMAP_COUNT as int
    }
}

/// The length of a chain over a first level of at least one pixel each way.
pub proof fn lemma_plan_from_len(first: LevelSize, budget: nat)
    requires
        first.is_positive(),
        budget >= 1,
    ensures
        plan_from(first, budget).len() == if log(2, first.longest()) + 1 <= budget {
            log(2, first.longest()) + 1
        } else {
            budget as int
        },
    decreases budget,
{
    vstd::arithmetic::logarithm::lemma_log_nonnegative(2, first.longest());
    if first.is_unit() {
        lemma_log0(2, 1);
    } else if budget == 1 {
    } else {
        let below = first.halved();
        lemma_halved_bounds(first.width as int);
        lemma_halved_bounds(first.height as int);
        assert(below.longest() == first.longest() / 2);
        lemma_log_s(2, first.longest());
        lemma_plan_from_len(below, (budget - 1) as nat);
        assert(plan_from(first, budget) =~= seq![first] + plan_from(below, (budget - 1) as nat));
    }
}

/// The pyramid over a source of at least one pixel each way has
/// `level_count` levels, and level `k` has the source's dimensions divided
/// by two to the `k`, each kept at one or more.
pub proof fn lemma_plan_closed_form(width: u32, height: u32)
    requires
        width >= 1,
        height >= 1,
    ensures
        plan_spec(width, height).len() == level_count(width, height),
        forall|k: int|
            #![trigger plan_spec(width, height)[k]]
            0 <= k < plan_spec(width, height).len() ==> {
                &&& plan_spec(width, height)[k].width == shrunk(width as int, k as nat)
                &&& plan_spec(width, height)[k].height == shrunk(height as int, k as nat)
            },
{
    let source = LevelSize { width, height };
    let levels = plan_spec(width, height);
    lemma_plan_from_len(source, HIZ_MIPMAP_COUNT as nat);
    lemma_plan_from_is_chain(source, HIZ_MIPMAP_COUNT as nat);
    assert forall|k: int| #![trigger levels[k]] 0 <= k < levels.len() implies {
        &&& levels[k].width == shrunk(width as int, k as nat)
        &&& levels[k].height == shrunk(height as int, k as nat)
    } by {
        assert(levels[k] == level_at(source, k as nat));
        lemma_level_at_closed_form(source, k as nat);
    }
}

} // verus!
