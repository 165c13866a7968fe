//! Resolution of reward draws.
//!
//! Probabilities and weights are fixed-point numbers in millionths:
//! `RATE_ONE` is certainty, `15_000` is 1.5 %. A roll is a number below
//! `RATE_ONE`. The functions here keep no state: the caller stores the pity
//! counter and moves it on with what a draw gave.

use crate::text::chars_of;
use crate::text::fields_view;
use crate::text::i32_value;
use crate::text::parse_i32;
use crate::text::split;
use crate::text::split_chars;
use vstd::prelude::*;

verus! {

/// Certainty, in millionths.
pub const RATE_ONE: u32 = 1_000_000;

/// Chance of a six-star result before the pity ramp, in millionths.
pub const RATE_6_BASE: u32 = 15_000;

/// Chance of a five-star result, in millionths.
pub const RATE_5: u32 = 85_000;

/// Chance of a four-star result, in millionths.
pub const RATE_4: u32 = 400_000;

/// Chance of a three-star result, in millionths.
pub const RATE_3: u32 = 450_000;

/// Chance of a two-star result, in millionths.
pub const RATE_2: u32 = 50_000;

/// Chance of a six-star result at the first pull of the ramp, in millionths.
pub const RAMP_START_RATE: u32 = 40_000;

/// What each further pull of the ramp adds, in millionths.
pub const RAMP_STEP_RATE: u32 = 25_000;

/// The pity count at which the ramp starts.
pub const RAMP_START_PITY: u32 = 60;

/// The pity count from which a six-star result is certain.
pub const HARD_PITY: u32 = 70;

/// Chance of a six-star result after `pity_6` pulls without one, in millionths:
/// the base rate below the ramp, a linear ramp from 60 to 69, certainty from 70.
pub open spec fn six_star_rate(pity_6: nat) -> nat {
    if pity_6 < 60 {
        15_000
    } else if pity_6 < 70 {
        (40_000 + (pity_6 - 60) * 25_000) as nat
    } else {
        1_000_000
    }
}

/// Chance of a six-star result after `pity_6` pulls without one, in millionths.
pub fn six_star_probability(pity_6: u32) -> (rate: u32)
    ensures
        rate == six_star_rate(pity_6 as nat),
        rate <= RATE_ONE,
{
    if pity_6 < RAMP_START_PITY {
        RATE_6_BASE
    } else if pity_6 < HARD_PITY {
        RAMP_START_RATE + (pity_6 - RAMP_START_PITY) * RAMP_STEP_RATE
    } else {
        RATE_ONE
    }
}

/// Below the ramp the chance is the base rate.
pub proof fn lemma_base_rate(pity_6: nat)
    requires
        pity_6 <= 59,
    ensures
        six_star_rate(pity_6) == 15_000,
{
}

/// On the ramp each pull adds the same step; the ramp starts at 4 % and ends
/// at 26.5 %.
pub proof fn lemma_ramp(pity_6: nat)
    requires
        60 <= pity_6 <= 69,
    ensures
        six_star_rate(pity_6) == 40_000 + (pity_6 - 60) * 25_000,
        pity_6 < 69 ==> six_star_rate(pity_6 + 1) == six_star_rate(pity_6) + 25_000,
        six_star_rate(pity_6) < six_star_rate(pity_6 + 1),
        six_star_rate(60) == 40_000,
        six_star_rate(61) == 65_000,
        six_star_rate(69) == 265_000,
{
}

/// From 70 pulls on a six-star result is certain.
pub proof fn lemma_hard_pity(pity_6: nat)
    requires
        pity_6 >= 70,
    ensures
        six_star_rate(pity_6) == 1_000_000,
{
}

/// The chance never falls as the pity count grows, and never exceeds certainty.
pub proof fn lemma_rate_monotonic(a: nat, b: nat)
    requires
        a <= b,
    ensures
        six_star_rate(a) <= six_star_rate(b),
        six_star_rate(b) <= 1_000_000,
{
}

/// Whether a roll gives a six-star result at the given pity count: the roll
/// is below the six-star chance.
pub open spec fn hits(pity_6: u32, roll: int) -> bool {
    roll < six_star_rate(pity_6 as nat)
}

/// Whether a roll gives a six-star result at the given pity count: one trial
/// with the six-star chance.
pub fn is_six_star(pity_6: u32, roll: u32) -> (hit: bool)
    ensures
        hit == hits(pity_6, roll as int),
{
    roll < six_star_probability(pity_6)
}

/// The pity count after a pull: 0 after a six-star result, one more otherwise.
pub open spec fn pity_after(pity_6: u32, six_star: bool) -> u32 {
    if six_star {
        0
    } else if pity_6 == u32::MAX {
        pity_6
    } else {
        (pity_6 + 1) as u32
    }
}

/// Moves the pity count on by one pull. The count stops at the largest value
/// it can hold; a caller that draws with `is_six_star` never gets past 70.
pub fn advance_pity(pity_6: u32, six_star: bool) -> (next: u32)
    ensures
        next == pity_after(pity_6, six_star),
        six_star ==> next == 0,
        !six_star && pity_6 < u32::MAX ==> next == pity_6 + 1,
{
    if six_star {
        0
    } else if pity_6 == u32::MAX {
        pity_6
    } else {
        pity_6 + 1
    }
}

/// A roll below certainty at hard pity gives a six-star result, so the count
/// returns to 0.
pub proof fn lemma_hard_pity_resets(pity_6: u32, roll: u32)
    requires
        pity_6 >= 70,
        roll < RATE_ONE,
    ensures
        roll < six_star_rate(pity_6 as nat),
        pity_after(pity_6, roll < six_star_rate(pity_6 as nat)) == 0,
{
}

/// Sum of the weights of the first `n` items.
pub open spec fn cumulative<T>(items: Seq<(T, u32)>, n: int) -> int
    decreases n,
{
    if n <= 0 {
        0
    } else {
        cumulative(items, n - 1) + items[n - 1].1
    }
}

/// The first index from `from` on whose cumulative weight exceeds the roll, or
/// the last index when there is none.
pub open spec fn first_exceeding<T>(items: Seq<(T, u32)>, roll: int, from: int) -> int
    decreases items.len() - from,
{
    if from >= items.len() - 1 {
        items.len() - 1
    } else if cumulative(items, from + 1) > roll {
        from
    } else {
        first_exceeding(items, roll, from + 1)
    }
}

/// The index that a roll picks: the first item whose cumulative weight exceeds
/// the roll, the last item when the weights sum to no more than the roll.
pub open spec fn pick_index<T>(items: Seq<(T, u32)>, roll: int) -> int {
    first_exceeding(items, roll, 0)
}

/// The picked index is in range, no earlier item's cumulative weight exceeds
/// the roll, and the picked item's does unless it is the last.
pub proof fn lemma_pick_index<T>(items: Seq<(T, u32)>, roll: int)
    requires
        items.len() > 0,
    ensures
        0 <= pick_index(items, roll) < items.len(),
        forall|j: int|
            0 <= j < pick_index(items, roll) ==> #[trigger] cumulative(items, j + 1) <= roll,
        pick_index(items, roll) < items.len() - 1 ==> cumulative(
            items,
            pick_index(items, roll) + 1,
        ) > roll,
{
    lemma_first_exceeding(items, roll, 0);
}

proof fn lemma_first_exceeding<T>(items: Seq<(T, u32)>, roll: int, from: int)
    requires
        items.len() > 0,
        0 <= from < items.len(),
    ensures
        from <= first_exceeding(items, roll, from) < items.len(),
        forall|j: int|
            from <= j < first_exceeding(items, roll, from) ==> #[trigger] cumulative(
                items,
                j + 1,
            ) <= roll,
        first_exceeding(items, roll, from) < items.len() - 1 ==> cumulative(
            items,
            first_exceeding(items, roll, from) + 1,
        ) > roll,
    decreases items.len() - from,
{
    if from < items.len() - 1 && cumulative(items, from + 1) <= roll {
        lemma_first_exceeding(items, roll, from + 1);
    }
}

/// Picks the item that a roll falls on.
///
/// The weights are walked in list order; the first item whose cumulative
/// weight exceeds the roll is returned, and the last item when the weights sum
/// to no more than the roll.
pub fn pick_weighted<T: Copy>(items: &[(T, u32)], roll: u32) -> (picked: T)
    requires
        items@.len() > 0,
    ensures
        picked == items@[pick_index(items@, roll as int)].0,
{
    let n = items.len();
    let mut acc: u64 = 0;
    let mut i: usize = 0;
    while i < n - 1
        invariant
            n == items@.len(),
            n > 0,
            i <= n - 1,
            acc == cumulative(items@, i as int),
            acc <= roll,
            first_exceeding(items@, roll as int, i as int) == pick_index(items@, roll as int),
        decreases n - i,
    {
        let weight: u32 = items[i].1;
        acc = acc + weight as u64;
        if (roll as u64) < acc {
            return items[i].0;
        }
        i = i + 1;
    }
    items[i].0
}

/// The numbers among the fields, in order; a field that spells no 32-bit
/// number is passed over.
pub open spec fn ids_of(fields: Seq<Seq<char>>) -> Seq<i32>
    decreases fields.len(),
{
    if fields.len() == 0 {
        Seq::<i32>::empty()
    } else {
        let before = ids_of(fields.drop_last());
        match i32_value(fields.last()) {
            Some(id) => before.push(id),
            None => before,
        }
    }
}

/// The identifiers in a `#`-separated list.
pub open spec fn id_list(s: Seq<char>) -> Seq<i32> {
    ids_of(split(s, '#'))
}

/// The boosted heroes of a banner: the identifiers of the first `|`-separated
/// segment are the six-star ones, those of the second the five-star ones.
/// Further segments are not read.
pub open spec fn up_heroes(s: Seq<char>) -> (Seq<i32>, Seq<i32>) {
    let segments = split(s, '|');
    (
        id_list(segments[0]),
        if segments.len() > 1 {
            id_list(segments[1])
        } else {
            Seq::<i32>::empty()
        },
    )
}

/// An empty configuration boosts no hero.
pub proof fn lemma_up_heroes_of_empty()
    ensures
        up_heroes(Seq::<char>::empty()) == (Seq::<i32>::empty(), Seq::<i32>::empty()),
        id_list(Seq::<char>::empty()) == Seq::<i32>::empty(),
{
    let e = Seq::<char>::empty();
    assert(split(e, '#') == seq![e]);
    assert(seq![e].drop_last() =~= Seq::<Seq<char>>::empty());
    assert(seq![e].last() == e);
    assert(i32_value(e) is None);
    assert(ids_of(seq![e].drop_last()) == Seq::<i32>::empty());
    assert(ids_of(seq![e]) == Seq::<i32>::empty());
    assert(split(e, '|') == seq![e]);
}

fn ids_from_chars(chars: &Vec<char>) -> (ids: Vec<i32>)
    ensures
        ids@ == id_list(chars@),
{
    let fields = split_chars(chars, '#');
    let mut ids: Vec<i32> = Vec::new();
    let n = fields.len();
    let mut i: usize = 0;
    let ghost all = fields_view(fields@);
    proof {
        assert(all.subrange(0, 0) =~= Seq::<Seq<char>>::empty());
    }
    while i < n
        invariant
            n == fields@.len(),
            i <= n,
            all == fields_view(fields@),
            ids@ == ids_of(all.subrange(0, i as int)),
        decreases n - i,
    {
        proof {
            assert(all.subrange(0, i + 1).drop_last() =~= all.subrange(0, i as int));
            assert(all.subrange(0, i + 1).last() == fields@[i as int]@);
        }
        match parse_i32(&fields[i]) {
            Some(id) => {
                ids.push(id);
            },
            None => {},
        }
        i = i + 1;
    }
    proof {
        assert(all.subrange(0, n as int) =~= all);
    }
    ids
}

/// Reads a `#`-separated list of identifiers. Fields that are not 32-bit
/// decimal numbers are passed over.
pub fn parse_id_list(s: &str) -> (ids: Vec<i32>)
    ensures
        ids@ == id_list(s@),
{
    let chars = chars_of(s);
    ids_from_chars(&chars)
}

/// Reads the boosted heroes of a banner from its configuration string, such
/// as `1#2#3|4#5`: the six-star identifiers, then the five-star ones.
pub fn parse_up_heroes(s: &str) -> (ups: (Vec<i32>, Vec<i32>))
    ensures
        (ups.0@, ups.1@) == up_heroes(s@),
{
    let chars = chars_of(s);
    let segments = split_chars(&chars, '|');
    proof {
        crate::text::lemma_split_nonempty(chars@, '|');
        assert(fields_view(segments@)[0] == segments@[0]@);
    }
    let six_up = ids_from_chars(&segments[0]);
    let five_up = if segments.len() > 1 {
        proof {
            assert(fields_view(segments@)[1] == segments@[1]@);
        }
        ids_from_chars(&segments[1])
    } else {
        Vec::new()
    };
    (six_up, five_up)
}

/// `rand::Rng::gen_range` on the thread's generator (`rand::thread_rng`), for
/// the range from 0 up to, not including, `bound`. The result is in the
/// range; which number it is is chance. The range must not be empty.
#[verifier::external_body]
fn random_below(bound: u32) -> (roll: u32)
    requires
        bound > 0,
    ensures
        roll < bound,
{
    rand::Rng::gen_range(&mut rand::thread_rng(), 0..bound)
}

/// Draws one item at random: rolls a number below certainty and picks the
/// item the roll falls on.
pub fn draw_weighted<T: Copy>(items: &[(T, u32)]) -> (picked: T)
    requires
        items@.len() > 0,
    ensures
        exists|roll: int|
            0 <= roll < RATE_ONE && picked == items@[#[trigger] pick_index(items@, roll)].0,
{
    let roll = random_below(RATE_ONE);
    let picked = pick_weighted(items, roll);
    assert(picked == items@[pick_index(items@, roll as int)].0);
    picked
}

/// Pulls once: rolls a number below certainty and says whether the pull
/// gives a six-star result at the given pity count, and the pity count after
/// the pull.
pub fn pull_six_star(pity_6: u32) -> (r: (bool, u32))
    ensures
        exists|roll: int| 0 <= roll < RATE_ONE && r.0 == #[trigger] hits(pity_6, roll),
        r.1 == pity_after(pity_6, r.0),
        pity_6 >= 70 ==> r.0,
{
    let roll = random_below(RATE_ONE);
    let hit = is_six_star(pity_6, roll);
    assert(hit == hits(pity_6, roll as int));
    (hit, advance_pity(pity_6, hit))
}

} // verus!
