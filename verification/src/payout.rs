//! Integer-exact settlement arithmetic for claims.
//!
//! On resolution the per-vote winnings rate is the losing pool floor-
//! divided by the winning vote count; a claimer receives the rate for
//! each winning vote plus each such vote's principal back.  On a tie
//! every vote's principal is refunded and nothing more.  The floor
//! division's remainder ("dust") stays in the market's held balance.

use vstd::arithmetic::div_mod::lemma_fundamental_div_mod;
use vstd::prelude::*;

use crate::state::prediction_market::{MarketResolution, MarketView, PredictionMarket};
use crate::state::user_prediction::UserPrediction;

verus! {

/// The winnings paid per winning vote: the losing pool floor-divided by
/// the winning vote count; zero on a tie.
pub open spec fn spec_win_per_vote(m: MarketView) -> u64 {
    match m.resolution {
        MarketResolution::Yes => if m.num_yes == 0 {
            0
        } else {
            m.balance_no / m.num_yes
        },
        MarketResolution::No => if m.num_no == 0 {
            0
        } else {
            m.balance_yes / m.num_no
        },
        MarketResolution::Tie => 0,
        MarketResolution::Unresolved => 0,
    }
}

/// How many of this voter's votes the resolution pays for: the votes on
/// the winning side, or every vote on a tie.
pub open spec fn spec_votes_to_claim(m: MarketView, p: UserPrediction) -> int {
    match m.resolution {
        MarketResolution::Yes => p.num_votes_yes as int,
        MarketResolution::No => p.num_votes_no as int,
        MarketResolution::Tie => p.num_votes_yes + p.num_votes_no,
        MarketResolution::Unresolved => 0,
    }
}

/// What one claim pays out of the market's held balance: winnings plus
/// returned principal for each vote the resolution pays for.
pub open spec fn spec_payout(m: MarketView, p: UserPrediction, vote_price: u64) -> int {
    spec_win_per_vote(m) * spec_votes_to_claim(m, p) + spec_votes_to_claim(m, p) * vote_price
}

/// The winning side's cumulative vote count.
pub open spec fn spec_winning_count(m: MarketView) -> u64 {
    match m.resolution {
        MarketResolution::Yes => m.num_yes,
        MarketResolution::No => m.num_no,
        MarketResolution::Tie => 0,
        MarketResolution::Unresolved => 0,
    }
}

/// The losing side's cumulative staked pool.
pub open spec fn spec_losing_balance(m: MarketView) -> u64 {
    match m.resolution {
        MarketResolution::Yes => m.balance_no,
        MarketResolution::No => m.balance_yes,
        MarketResolution::Tie => 0,
        MarketResolution::Unresolved => 0,
    }
}

/// The accounting invariant of a market record: each pool is exactly
/// its side's cumulative vote count times the unit price.
pub open spec fn market_pools_consistent(m: MarketView, vote_price: u64) -> bool {
    m.balance_yes == m.num_yes * vote_price && m.balance_no == m.num_no * vote_price
}

/// Computes one claim's payout from the frozen market totals and the
/// claimer's own counts.
pub fn compute_payout(market: &PredictionMarket, prediction: &UserPrediction, vote_price: u64) -> (r:
    u64)
    requires
        market@.resolution == MarketResolution::Yes ==> market.num_yes > 0,
        market@.resolution == MarketResolution::No ==> market.num_no > 0,
        market@.resolution == MarketResolution::Tie ==> prediction.num_votes_yes
            + prediction.num_votes_no <= u64::MAX,
        spec_payout(market@, *prediction, vote_price) <= u64::MAX,
    ensures
        r == spec_payout(market@, *prediction, vote_price),
{
    let win_per_vote: u64;
    let votes_to_claim: u64;
    match market.resolution {
        MarketResolution::Unresolved => {
            win_per_vote = 0;
            votes_to_claim = 0;
        },
        MarketResolution::Yes => {
            win_per_vote = market.balance_no / market.num_yes;
            votes_to_claim = prediction.num_votes_yes;
        },
        MarketResolution::No => {
            win_per_vote = market.balance_yes / market.num_no;
            votes_to_claim = prediction.num_votes_no;
        },
        MarketResolution::Tie => {
            win_per_vote = 0;
            votes_to_claim = prediction.num_votes_no + prediction.num_votes_yes;
        },
    }
    proof {
        assert(win_per_vote * votes_to_claim >= 0 && votes_to_claim * vote_price >= 0) by (
        nonlinear_arith);
    }
    (win_per_vote * votes_to_claim) + (votes_to_claim * vote_price)
}

/// The total paid out when each record in `ps` is claimed once against
/// the frozen market `m`.
pub open spec fn spec_sum_payouts(m: MarketView, ps: Seq<UserPrediction>, vote_price: u64) -> int
    decreases ps.len(),
{
    if ps.len() == 0 {
        0
    } else {
        spec_payout(m, ps[0], vote_price) + spec_sum_payouts(m, ps.drop_first(), vote_price)
    }
}

/// The total number of votes the resolution pays for across `ps`.
pub open spec fn spec_sum_votes_to_claim(m: MarketView, ps: Seq<UserPrediction>) -> int
    decreases ps.len(),
{
    if ps.len() == 0 {
        0
    } else {
        spec_votes_to_claim(m, ps[0]) + spec_sum_votes_to_claim(m, ps.drop_first())
    }
}

/// Claim payouts are linear: the total paid is (rate + unit price)
/// times the total number of paid votes.
pub proof fn lemma_sum_payouts_linear(m: MarketView, ps: Seq<UserPrediction>, vote_price: u64)
    ensures
        spec_sum_payouts(m, ps, vote_price) == (spec_win_per_vote(m) + vote_price)
            * spec_sum_votes_to_claim(m, ps),
    decreases ps.len(),
{
    let rate = spec_win_per_vote(m) as int;
    let price = vote_price as int;
    if ps.len() == 0 {
        assert((rate + price) * 0 == 0) by (nonlinear_arith);
    } else {
        lemma_sum_payouts_linear(m, ps.drop_first(), vote_price);
        let v = spec_votes_to_claim(m, ps[0]);
        let rest = spec_sum_votes_to_claim(m, ps.drop_first());
        assert(rate * v + v * price == (rate + price) * v) by (nonlinear_arith);
        assert((rate + price) * v + (rate + price) * rest == (rate + price) * (v + rest)) by (
        nonlinear_arith);
    }
}

/// Settlement conserves the pools.  For any resolved (non-tie) market
/// and any family of prediction records whose winning-vote counts sum
/// to the market's winning total, the total paid to them never exceeds
/// the losing pool plus the winners' returned principal; the shortfall
/// is exactly the floor division's remainder, which never exceeds one
/// less than the winning vote count.
pub proof fn lemma_payouts_conserve_pools(m: MarketView, ps: Seq<UserPrediction>, vote_price: u64)
    requires
        m.resolution == MarketResolution::Yes || m.resolution == MarketResolution::No,
        spec_winning_count(m) > 0,
        spec_sum_votes_to_claim(m, ps) == spec_winning_count(m),
    ensures
        spec_sum_payouts(m, ps, vote_price) <= spec_losing_balance(m) + spec_winning_count(m)
            * vote_price,
        spec_losing_balance(m) + spec_winning_count(m) * vote_price - spec_sum_payouts(
            m,
            ps,
            vote_price,
        ) == spec_losing_balance(m) % spec_winning_count(m),
        spec_losing_balance(m) % spec_winning_count(m) <= spec_winning_count(m) - 1,
{
    let count = spec_winning_count(m) as int;
    let losing = spec_losing_balance(m) as int;
    let rate = spec_win_per_vote(m) as int;
    let price = vote_price as int;
    lemma_sum_payouts_linear(m, ps, vote_price);
    assert(rate == losing / count);
    lemma_fundamental_div_mod(losing, count);
    assert((rate + price) * count == rate * count + price * count) by (nonlinear_arith);
    assert(rate * count == count * rate) by (nonlinear_arith);
}

/// On a tie, settlement refunds exactly: any family of prediction
/// records is paid its total principal back, no more and no less.
pub proof fn lemma_tie_refunds_principal(m: MarketView, ps: Seq<UserPrediction>, vote_price: u64)
    requires
        m.resolution == MarketResolution::Tie,
    ensures
        spec_sum_payouts(m, ps, vote_price) == spec_sum_votes_to_claim(m, ps) * vote_price,
{
    lemma_sum_payouts_linear(m, ps, vote_price);
    assert((0 + vote_price) * spec_sum_votes_to_claim(m, ps) == spec_sum_votes_to_claim(m, ps)
        * vote_price) by (nonlinear_arith);
}

} // verus!
