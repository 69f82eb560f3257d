//! Stake-weighted leader election.
//!
//! The selection point is drawn from a pseudo-random generator seeded
//! deterministically from the block height, so every honest node derives
//! the same producer for a given height and active set without
//! communication. The walk over the active set is verified: the first
//! validator whose cumulative stake exceeds the selection point wins, so
//! a validator with stake `s` out of a total `T` owns an interval of
//! length `s` out of `[0, T)`.

use vstd::prelude::*;
use crate::validator::Validator;
use crate::errors::ConsensusError;
use vstd::string::StringExecFns;

verus! {

/// The value drawn in `[0, bound)` by the generator seeded from `height`.
/// It is a pure function of the two arguments: every node computes the
/// same draw.
pub uninterp spec fn stake_draw(height: u64, bound: u64) -> u64;

/// Relies on rand::rngs::StdRng::from_seed and rand::Rng::gen_range:
/// StdRng is a deterministic pseudo-random generator for a fixed crate
/// version, so one draw from a generator seeded with the height is a pure
/// function of height and bound, and gen_range over `0..bound` returns a
/// value below `bound` (it panics on an empty range, hence the bound must
/// be positive).
#[verifier::external_body]
fn draw_selection_point(height: u64, bound: u64) -> (r: u64)
    requires
        bound > 0,
    ensures
        r == stake_draw(height, bound),
        r < bound,
{
    let mut seed = [0u8; 32];
    seed[..8].copy_from_slice(&height.to_le_bytes());
    let mut rng = <rand::rngs::StdRng as rand::SeedableRng>::from_seed(seed);
    rand::Rng::gen_range(&mut rng, 0..bound)
}

/// The total stake of a validator sequence.
pub open spec fn total_stake(s: Seq<Validator>) -> int
    decreases s.len(),
{
    if s.len() == 0 {
        0
    } else {
        total_stake(s.drop_last()) + s.last().stake
    }
}

/// The index of the first validator whose cumulative stake exceeds the
/// selection point.
pub open spec fn spec_pick(s: Seq<Validator>, point: int) -> int
    decreases s.len(),
{
    if s.len() == 0 {
        0
    } else if s.first().stake > point {
        0
    } else {
        1 + spec_pick(s.drop_first(), point - s.first().stake)
    }
}

/// The validator elected for a height over an active set: the owner of
/// the interval the height's draw falls into.
pub open spec fn spec_elect(height: u64, s: Seq<Validator>) -> Validator {
    s[spec_pick(s, stake_draw(height, total_stake(s) as u64) as int)]
}

/// Prefix sums of stakes grow with the prefix.
proof fn lemma_total_stake_mono(s: Seq<Validator>, i: int, j: int)
    requires
        0 <= i <= j <= s.len(),
    ensures
        total_stake(s.take(i)) <= total_stake(s.take(j)),
    decreases j - i,
{
    if i < j {
        lemma_total_stake_mono(s, i + 1, j);
        assert(s.take(i + 1).drop_last() =~= s.take(i));
    }
}

/// A prefix sum never exceeds the total.
proof fn lemma_total_stake_prefix(s: Seq<Validator>, i: int)
    requires
        0 <= i <= s.len(),
    ensures
        total_stake(s.take(i)) <= total_stake(s),
{
    lemma_total_stake_mono(s, i, s.len() as int);
    assert(s.take(s.len() as int) =~= s);
}

/// The total stake is nonnegative and at most one machine word per
/// validator.
pub proof fn lemma_total_stake_bound(s: Seq<Validator>)
    ensures
        0 <= total_stake(s) <= s.len() * (u64::MAX as int),
    decreases s.len(),
{
    if s.len() > 0 {
        lemma_total_stake_bound(s.drop_last());
    }
}

/// The walk's stopping index is the specified pick: the first index
/// whose cumulative stake exceeds the point.
proof fn lemma_pick_at(s: Seq<Validator>, point: int, i: int)
    requires
        0 <= i < s.len(),
        total_stake(s.take(i)) <= point,
        total_stake(s.take(i + 1)) > point,
    ensures
        spec_pick(s, point) == i,
    decreases i,
{
    lemma_take_one(s);
    if i == 0 {
        assert(s.first().stake > point);
    } else {
        lemma_total_stake_mono(s, 1, i);
        assert(s.first().stake <= point);
        let t = s.drop_first();
        assert(t.take(i - 1) =~= s.take(i).drop_first());
        assert(t.take(i) =~= s.take(i + 1).drop_first());
        lemma_drop_first_total(s.take(i));
        lemma_drop_first_total(s.take(i + 1));
        lemma_pick_at(t, point - s.first().stake, i - 1);
    }
}

/// The total stake of a one-element prefix is the first stake.
proof fn lemma_take_one(s: Seq<Validator>)
    requires
        s.len() > 0,
    ensures
        total_stake(s.take(1)) == s.first().stake,
{
    assert(s.take(1).drop_last() =~= Seq::<Validator>::empty());
    assert(total_stake(Seq::<Validator>::empty()) == 0);
    assert(s.take(1).last() == s.first());
}

/// Splitting a nonempty sequence at the front splits its total stake.
proof fn lemma_drop_first_total(s: Seq<Validator>)
    requires
        s.len() > 0,
    ensures
        total_stake(s) == s.first().stake + total_stake(s.drop_first()),
    decreases s.len(),
{
    if s.len() > 1 {
        assert(s.drop_last().first() == s.first());
        lemma_drop_first_total(s.drop_last());
        assert(s.drop_first().drop_last() =~= s.drop_last().drop_first());
        assert(s.drop_first().last() == s.last());
    } else {
        assert(s.drop_first() =~= Seq::<Validator>::empty());
        assert(s.drop_last() =~= Seq::<Validator>::empty());
    }
}

/// A point below the total stake falls into some validator's interval.
proof fn lemma_pick_in_range(s: Seq<Validator>, point: int)
    requires
        0 <= point < total_stake(s),
    ensures
        0 <= spec_pick(s, point) < s.len(),
    decreases s.len(),
{
    if s.len() > 0 {
        lemma_drop_first_total(s);
        if s.first().stake <= point {
            lemma_pick_in_range(s.drop_first(), point - s.first().stake);
        }
    }
}

/// Selects the producer for a height from an active set by weighted
/// interval selection. It fails exactly when the set is empty. The total
/// stake must fit the machine word, and a nonempty set must hold some
/// stake, or the draw below it would be ill-defined.
pub fn select_by_stake(active: &Vec<Validator>, height: u64) -> (r: Result<
    Validator,
    ConsensusError,
>)
    requires
        total_stake(active@) <= u64::MAX,
        active@.len() > 0 ==> total_stake(active@) > 0,
    ensures
        r is Ok <==> active@.len() > 0,
        r is Ok ==> r->Ok_0 == spec_elect(height, active@),
        r is Ok ==> exists|i: int| 0 <= i < active@.len() && (#[trigger] active@[i]) == r->Ok_0,
        r is Err ==> r matches Err(ConsensusError::ValidatorError(_)),
{
    let n = active.len();
    if n == 0 {
        return Err(ConsensusError::ValidatorError(String::from_str("No active validators")));
    }
    let mut total: u64 = 0;
    proof {
        assert(active@.take(0) =~= Seq::<Validator>::empty());
    }
    for i in 0..n
        invariant
            n == active@.len(),
            total == total_stake(active@.take(i as int)),
            total_stake(active@) <= u64::MAX,
        decreases n - i,
    {
        proof {
            assert(active@.take(i + 1).drop_last() =~= active@.take(i as int));
            assert(active@.take(i + 1).last() == active@[i as int]);
            lemma_total_stake_prefix(active@, i + 1);
        }
        total = total + active[i].stake;
    }
    proof {
        assert(active@.take(n as int) =~= active@);
    }
    let point = draw_selection_point(height, total);
    let ghost p = point as int;
    let mut cumulative: u64 = 0;
    proof {
        assert(active@.take(0) =~= Seq::<Validator>::empty());
        lemma_pick_in_range(active@, p);
    }
    for i in 0..n
        invariant
            n == active@.len(),
            cumulative == total_stake(active@.take(i as int)),
            cumulative <= p,
            p == point,
            p == stake_draw(height, total_stake(active@) as u64),
            p < total_stake(active@),
            total_stake(active@) <= u64::MAX,
        decreases n - i,
    {
        proof {
            assert(active@.take(i + 1).drop_last() =~= active@.take(i as int));
            assert(active@.take(i + 1).last() == active@[i as int]);
            lemma_total_stake_prefix(active@, i + 1);
        }
        cumulative = cumulative + active[i].stake;
        if cumulative > point {
            proof {
                lemma_pick_at(active@, p, i as int);
                assert(active@[i as int] == spec_elect(height, active@));
            }
            return Ok(active[i].duplicate());
        }
    }
    proof {
        assert(active@.take(n as int) =~= active@);
        assert(false);
    }
    vstd::pervasive::unreached()
}

/// Determinism of leader election: two elections for the same height
/// over the same active set name the same validator.
pub proof fn lemma_elect_deterministic(height: u64, s: Seq<Validator>, r1: Validator, r2: Validator)
    requires
        r1 == spec_elect(height, s),
        r2 == spec_elect(height, s),
    ensures
        r1 == r2,
{
}

} // verus!
