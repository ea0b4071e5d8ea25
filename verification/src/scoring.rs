//! Scoring rules: how close a stopped counter came to its target.
//!
//! A target and a stopped counter value both live on a circular dial of
//! 0..=100. Their distance on the dial selects a base score from a fixed
//! table; the player's strength is added, and the sum is divided by one more
//! than the number of wraparounds (misses), rounded up.

use vstd::prelude::*;
use vstd::arithmetic::div_mod::{
    lemma_basic_div, lemma_div_nonincreasing, lemma_div_plus_one, lemma_div_pos_is_pos,
    lemma_fundamental_div_mod, lemma_mod_pos_bound,
};
use vstd::arithmetic::mul::lemma_mul_inequality;

verus! {

/// The distance between two points of the dial, ignoring the wraparound.
pub open spec fn direct_distance(target: int, counter_value: int) -> int {
    if target > counter_value {
        target - counter_value
    } else {
        counter_value - target
    }
}

/// The scoring distance on the dial of 0..=100: a full sweep of 100 counts
/// as 1 (the two ends of the dial are neighbours); otherwise the shorter of
/// the direct walk and the walk around the other side.
pub open spec fn dial_difference(target: int, counter_value: int) -> int {
    let d = direct_distance(target, counter_value);
    if d == 100 {
        1
    } else if d <= 100 - d {
        d
    } else {
        100 - d
    }
}

/// The base score awarded for a given dial difference.
pub open spec fn base_score(difference: int) -> int {
    if difference == 0 {
        100
    } else if difference <= 5 {
        80
    } else if difference <= 10 {
        60
    } else if difference <= 20 {
        40
    } else if difference <= 50 {
        20
    } else {
        0
    }
}

/// Division rounded towards positive infinity, for non-negative `a` and
/// positive `b`.
pub open spec fn ceil_div(a: int, b: int) -> int {
    (a + b - 1) / b
}

/// The score for one target: base score plus strength, divided by one more
/// than the miss count, rounded up.
pub open spec fn score(target: int, counter_value: int, strength: int, miss: int) -> int {
    ceil_div(base_score(dial_difference(target, counter_value)) + strength, miss + 1)
}

/// The sum of a sequence of scores.
pub open spec fn sum(s: Seq<u32>) -> int
    decreases s.len(),
{
    if s.len() == 0 {
        0
    } else {
        sum(s.drop_last()) + s.last()
    }
}

/// The average of a sequence of scores, rounded up; zero for an empty
/// sequence.
pub open spec fn average(s: Seq<u32>) -> int {
    if s.len() == 0 {
        0
    } else {
        ceil_div(sum(s), s.len() as int)
    }
}

/// For non-negative `a` and `m`, the rounded-up quotient of `a` by `m + 1`
/// never exceeds `a`.
proof fn lemma_ceil_div_le(a: int, m: int)
    requires
        a >= 0,
        m >= 0,
    ensures
        0 <= ceil_div(a, m + 1) <= a,
{
    let d = m + 1;
    let q = (a + m) / d;
    lemma_div_pos_is_pos(a + m, d);
    lemma_fundamental_div_mod(a + m, d);
    lemma_mod_pos_bound(a + m, d);
    if q > a {
        lemma_mul_inequality(a + 1, q, d);
        assert((a + 1) * d >= a + d) by (nonlinear_arith)
            requires
                a >= 0,
                d >= 1,
        ;
        assert(false);
    }
}

/// Calculates the score for a single target from the stopped counter value.
///
/// The result is `(base + strength) / (miss + 1)` rounded up, where the base
/// comes from the dial distance between target and counter value.
pub fn calculate_score(target: u32, counter_value: u32, strength: u32, miss: u32) -> (r: u32)
    requires
        target <= 100,
        counter_value <= 100,
        strength <= u32::MAX - 100,
    ensures
        r == score(target as int, counter_value as int, strength as int, miss as int),
{
    let direct: u32 = if target > counter_value {
        target - counter_value
    } else {
        counter_value - target
    };

    // On the dial, a direct distance of 100 means the two points are one
    // step apart around the other side; otherwise take the shorter walk.
    let difference: u32 = if direct == 100 {
        1
    } else if direct <= 100 - direct {
        direct
    } else {
        100 - direct
    };

    let base: u32 = if difference == 0 {
        100
    } else if difference <= 5 {
        80
    } else if difference <= 10 {
        60
    } else if difference <= 20 {
        40
    } else if difference <= 50 {
        20
    } else {
        0
    };

    let numerator: u32 = base + strength;
    // Rounded-up division: (a + b - 1) / b with b = miss + 1.
    let q: u64 = (numerator as u64 + miss as u64) / (miss as u64 + 1);
    proof {
        lemma_ceil_div_le(numerator as int, miss as int);
    }
    q as u32
}

/// The sum of a prefix never exceeds the sum of the whole sequence, and the
/// next element extends the prefix sum.
proof fn lemma_sum_take(s: Seq<u32>, i: int)
    requires
        0 <= i < s.len(),
    ensures
        sum(s.take(i + 1)) == sum(s.take(i)) + s[i],
        sum(s.take(i + 1)) <= sum(s),
    decreases s.len() - i,
{
    assert(s.take(i + 1).drop_last() =~= s.take(i));
    assert(s.take(i + 1).last() == s[i]);
    if i + 1 == s.len() {
        assert(s.take(i + 1) =~= s);
    } else {
        lemma_sum_take(s, i + 1);
        lemma_sum_nonneg(s.take(i + 2));
        assert(s.take(i + 2).drop_last() =~= s.take(i + 1));
    }
}

/// The sum of scores is never negative.
proof fn lemma_sum_nonneg(s: Seq<u32>)
    ensures
        sum(s) >= 0,
    decreases s.len(),
{
    if s.len() > 0 {
        lemma_sum_nonneg(s.drop_last());
    }
}

/// Calculates the average of a collection of scores, rounded up to the
/// nearest integer; an empty collection averages to zero.
pub fn calculate_average_score(scores: &[u32]) -> (r: u32)
    requires
        sum(scores@) <= u32::MAX,
    ensures
        r == average(scores@),
{
    let len = scores.len();
    if len == 0 {
        proof {
            assert(scores@.take(0) =~= scores@);
        }
        return 0;
    }

    let mut total: u32 = 0;
    let mut i: usize = 0;
    while i < len
        invariant
            0 <= i <= len,
            len == scores@.len(),
            sum(scores@) <= u32::MAX,
            total == sum(scores@.take(i as int)),
        decreases len - i,
    {
        proof {
            lemma_sum_take(scores@, i as int);
            lemma_sum_nonneg(scores@.take(i as int));
        }
        total = total + scores[i];
        i = i + 1;
    }
    proof {
        assert(scores@.take(len as int) =~= scores@);
    }
    if total == 0 {
        proof {
            lemma_basic_div(len as int - 1, len as int);
        }
        return 0;
    }
    // Rounded-up division, written as (sum - 1) / len + 1 so that the
    // intermediate values stay within bounds.
    let q: u64 = (total as u64 - 1) / (len as u64) + 1;
    proof {
        lemma_div_plus_one(total as int - 1, len as int);
        lemma_div_nonincreasing(total as int - 1, len as int);
        lemma_div_pos_is_pos(total as int - 1, len as int);
    }
    q as u32
}

} // verus!

