use vstd::prelude::*;
use crate::error::ErrorCode;
use crate::math::{
    calculate_malus, calculate_quadratic_uplift, calculate_total_cost, calculate_unit_price,
    malus_result, total_cost_result, unit_price_result, uplift_result,
};
use crate::pubkey::Pubkey;
use crate::state::{BetAccount, Market, MarketStatus};
use crate::tally::{
    apply_votes, ids_after, lemma_record_keeps_consistency, locate_votes, record_result, votes_after,
};

verus! {

/// A bet: the market and the bettor's record, with the host's inputs.
#[derive(Debug)]
pub struct PlaceBet {
    /// Address of the market record, stored in a bettor's record on first use.
    pub market_key: Pubkey,
    pub market: Market,
    pub bet: BetAccount,
    /// The verified bettor.
    pub user: Pubkey,
    /// The trusted current time, in seconds.
    pub now: i64,
    /// Address-derivation bump for a bettor's record that is created by this bet.
    pub bet_bump: u8,
}

/// Outcome codes a bet starts from: none for a record no bet has written yet.
pub open spec fn start_ids(b: BetAccount) -> Seq<u32> {
    if b.is_fresh() {
        Seq::empty()
    } else {
        b.emoji_ids@
    }
}

/// Vote counts a bet starts from: none for a record no bet has written yet.
pub open spec fn start_votes(b: BetAccount) -> Seq<u64> {
    if b.is_fresh() {
        Seq::empty()
    } else {
        b.emoji_votes@
    }
}

/// Value spent before this bet: zero for a record no bet has written yet.
pub open spec fn start_spent(b: BetAccount) -> int {
    if b.is_fresh() {
        0
    } else {
        b.total_spent as int
    }
}

/// The cost of `qty` votes in market `m` at time `now`: the unit price from the time
/// malus and the demand uplift over the votes cast so far, times `qty`.
pub open spec fn cost_result(m: Market, now: i64, qty: u64) -> Result<u64, ErrorCode> {
    let elapsed = now - m.start_ts;
    let total_duration = m.end_ts - m.start_ts;
    if !(i64::MIN <= elapsed <= i64::MAX) || !(i64::MIN <= total_duration <= i64::MAX) {
        Err(ErrorCode::ArithmeticUnderflow)
    } else {
        match malus_result(elapsed as i64, total_duration as i64, m.malus_k_millis) {
            Err(e) => Err(e),
            Ok(malus) => match uplift_result(m.total_votes, m.quad_a_micros, m.quad_b_micros) {
                Err(e) => Err(e),
                Ok(uplift) => match unit_price_result(m.base_price_lamports, malus, uplift) {
                    Err(e) => Err(e),
                    Ok(price) => total_cost_result(price, qty),
                },
            },
        }
    }
}

/// The result of a bet: its cost, or the first check that fails.
pub open spec fn bet_result(ctx: PlaceBet, emoji_id: u32, vote_qty: u64) -> Result<u64, ErrorCode> {
    let m = ctx.market;
    if vote_qty < 1 {
        Err(ErrorCode::InvalidVoteQuantity)
    } else if m.status != MarketStatus::Active {
        Err(ErrorCode::MarketNotActive)
    } else if ctx.now >= m.end_ts {
        Err(ErrorCode::MarketEnded)
    } else {
        match cost_result(m, ctx.now, vote_qty) {
            Err(e) => Err(e),
            Ok(cost) => if m.total_pot + cost > u64::MAX || m.total_votes + vote_qty > u64::MAX {
                Err(ErrorCode::ArithmeticOverflow)
            } else {
                match record_result(m.emoji_ids@, m.emoji_votes@, emoji_id, vote_qty) {
                    Err(e) => Err(e),
                    Ok(_) => match record_result(
                        start_ids(ctx.bet),
                        start_votes(ctx.bet),
                        emoji_id,
                        vote_qty,
                    ) {
                        Err(e) => Err(e),
                        Ok(_) => if start_spent(ctx.bet) + cost > u64::MAX {
                            Err(ErrorCode::ArithmeticOverflow)
                        } else {
                            Ok(cost)
                        },
                    },
                }
            },
        }
    }
}

/// The fields of a market that no operation after its creation changes.
pub open spec fn same_identity(m1: Market, m2: Market) -> bool {
    &&& m1.creator == m2.creator
    &&& m1.title == m2.title
    &&& m1.image_url == m2.image_url
    &&& m1.start_ts == m2.start_ts
    &&& m1.end_ts == m2.end_ts
    &&& m1.base_price_lamports == m2.base_price_lamports
    &&& m1.malus_k_millis == m2.malus_k_millis
    &&& m1.quad_a_micros == m2.quad_a_micros
    &&& m1.quad_b_micros == m2.quad_b_micros
    &&& m1.platform_fee_bps == m2.platform_fee_bps
    &&& m1.creator_fee_bps == m2.creator_fee_bps
    &&& m1.min_duration_secs == m2.min_duration_secs
    &&& m1.max_duration_secs == m2.max_duration_secs
    &&& m1.bump == m2.bump
}

/// The settlement fields of two markets agree.
pub open spec fn same_settlement(m1: Market, m2: Market) -> bool {
    &&& m1.status == m2.status
    &&& m1.winner == m2.winner
    &&& m1.platform_fee_taken == m2.platform_fee_taken
    &&& m1.creator_fee_taken == m2.creator_fee_taken
}

/// The ledger fields of two markets agree.
pub open spec fn same_ledger(m1: Market, m2: Market) -> bool {
    &&& m1.total_pot == m2.total_pot
    &&& m1.total_votes == m2.total_votes
    &&& m1.emoji_ids@ == m2.emoji_ids@
    &&& m1.emoji_votes@ == m2.emoji_votes@
}

/// A successful bet of `vote_qty` votes on `emoji_id` costing `cost`, from `before` to `after`:
/// the market's pot, vote count and tally grow; the bettor's record, set up on first use,
/// grows by the same votes and cost.
pub open spec fn bet_committed(
    before: PlaceBet,
    after: PlaceBet,
    emoji_id: u32,
    vote_qty: u64,
    cost: u64,
) -> bool {
    let m = before.market;
    let m2 = after.market;
    let b = before.bet;
    let b2 = after.bet;
    let fresh = b.is_fresh();
    &&& m2.total_pot == m.total_pot + cost
    &&& m2.total_votes == m.total_votes + vote_qty
    &&& m2.emoji_ids@ == ids_after(m.emoji_ids@, emoji_id)
    &&& m2.emoji_votes@ == votes_after(m.emoji_ids@, m.emoji_votes@, emoji_id, vote_qty)
    &&& same_identity(m, m2)
    &&& same_settlement(m, m2)
    &&& b2.market == (if fresh {
        before.market_key
    } else {
        b.market
    })
    &&& b2.user == (if fresh {
        before.user
    } else {
        b.user
    })
    &&& b2.emoji_ids@ == ids_after(start_ids(b), emoji_id)
    &&& b2.emoji_votes@ == votes_after(start_ids(b), start_votes(b), emoji_id, vote_qty)
    &&& b2.total_spent == start_spent(b) + cost
    &&& b2.claimed == (if fresh {
        false
    } else {
        b.claimed
    })
    &&& b2.bump == (if fresh {
        before.bet_bump
    } else {
        b.bump
    })
    &&& after.market_key == before.market_key
    &&& after.user == before.user
    &&& after.now == before.now
    &&& after.bet_bump == before.bet_bump
}

/// Total value spent over a market's bettor records.
pub open spec fn spent_sum(bets: Seq<BetAccount>) -> int
    decreases bets.len(),
{
    if bets.len() == 0 {
        0
    } else {
        spent_sum(bets.drop_last()) + bets.last().total_spent
    }
}

/// Replacing one record changes the total by the difference in its spend.
proof fn lemma_spent_sum_update(bets: Seq<BetAccount>, i: int, b: BetAccount)
    requires
        0 <= i < bets.len(),
    ensures
        spent_sum(bets.update(i, b)) == spent_sum(bets) - bets[i].total_spent + b.total_spent,
    decreases bets.len(),
{
    let u = bets.update(i, b);
    if i == bets.len() - 1 {
        assert(u.drop_last() =~= bets.drop_last());
    } else {
        lemma_spent_sum_update(bets.drop_last(), i, b);
        assert(u.drop_last() =~= bets.drop_last().update(i, b));
    }
}

/// Law: the pot of a market equals the total spent over its bettor records, after any
/// sequence of successful bets. A new market has an empty pot and no records; each
/// successful bet, through an existing record of the market (`slot` within `bets`) or a
/// record that no bet has written yet (`slot == bets.len()`), keeps the equality.
pub proof fn lemma_pot_equals_total_spent(
    bets: Seq<BetAccount>,
    slot: int,
    before: PlaceBet,
    after: PlaceBet,
    emoji_id: u32,
    vote_qty: u64,
    cost: u64,
)
    requires
        spent_sum(bets) == before.market.total_pot,
        0 <= slot <= bets.len(),
        slot < bets.len() ==> bets[slot] == before.bet && !before.bet.is_fresh(),
        slot == bets.len() ==> before.bet.is_fresh(),
        bet_committed(before, after, emoji_id, vote_qty, cost),
    ensures
        spent_sum(
            if slot < bets.len() {
                bets.update(slot, after.bet)
            } else {
                bets.push(after.bet)
            },
        ) == after.market.total_pot,
{
    if slot < bets.len() {
        lemma_spent_sum_update(bets, slot, after.bet);
    } else {
        assert(bets.push(after.bet).drop_last() =~= bets);
    }
}

/// Places a bet of `vote_qty` votes on `emoji_id` while the market is active and open,
/// and returns its cost, which the host debits from the bettor. Either every update
/// below applies or, on an error, none does.
pub fn handler(ctx: &mut PlaceBet, emoji_id: u32, vote_qty: u64) -> (r: Result<u64, ErrorCode>)
    requires
        old(ctx).market.tallies_parallel(),
        old(ctx).bet.tallies_parallel(),
    ensures
        r == bet_result(*old(ctx), emoji_id, vote_qty),
        r is Err ==> *final(ctx) == *old(ctx),
        r matches Ok(cost) ==> bet_committed(*old(ctx), *final(ctx), emoji_id, vote_qty, cost),
        r is Ok && old(ctx).market.tallies_consistent() ==> final(ctx).market.tallies_consistent(),
        final(ctx).bet.tallies_parallel(),
{
    if vote_qty < 1 {
        return Err(ErrorCode::InvalidVoteQuantity);
    }
    if ctx.market.status != MarketStatus::Active {
        return Err(ErrorCode::MarketNotActive);
    }
    if ctx.now >= ctx.market.end_ts {
        return Err(ErrorCode::MarketEnded);
    }
    let elapsed = match ctx.now.checked_sub(ctx.market.start_ts) {
        Some(v) => v,
        None => {
            return Err(ErrorCode::ArithmeticUnderflow);
        },
    };
    let total_duration = match ctx.market.end_ts.checked_sub(ctx.market.start_ts) {
        Some(v) => v,
        None => {
            return Err(ErrorCode::ArithmeticUnderflow);
        },
    };
    let malus_nanos = match calculate_malus(elapsed, total_duration, ctx.market.malus_k_millis) {
        Ok(v) => v,
        Err(e) => {
            return Err(e);
        },
    };
    let quad_multiplier_nanos = match calculate_quadratic_uplift(
        ctx.market.total_votes,
        ctx.market.quad_a_micros,
        ctx.market.quad_b_micros,
    ) {
        Ok(v) => v,
        Err(e) => {
            return Err(e);
        },
    };
    let unit_price = match calculate_unit_price(
        ctx.market.base_price_lamports,
        malus_nanos,
        quad_multiplier_nanos,
    ) {
        Ok(v) => v,
        Err(e) => {
            return Err(e);
        },
    };
    let total_cost = match calculate_total_cost(unit_price, vote_qty) {
        Ok(v) => v,
        Err(e) => {
            return Err(e);
        },
    };
    if ctx.market.total_pot > u64::MAX - total_cost || ctx.market.total_votes > u64::MAX
        - vote_qty {
        return Err(ErrorCode::ArithmeticOverflow);
    }
    let market_slot = match locate_votes(
        &ctx.market.emoji_ids,
        &ctx.market.emoji_votes,
        emoji_id,
        vote_qty,
    ) {
        Ok(s) => s,
        Err(e) => {
            return Err(e);
        },
    };
    let fresh = ctx.bet.market.is_default();
    let bet_slot = if fresh {
        None
    } else {
        match locate_votes(&ctx.bet.emoji_ids, &ctx.bet.emoji_votes, emoji_id, vote_qty) {
            Ok(s) => s,
            Err(e) => {
                return Err(e);
            },
        }
    };
    let spent = if fresh {
        0
    } else {
        ctx.bet.total_spent
    };
    if spent > u64::MAX - total_cost {
        return Err(ErrorCode::ArithmeticOverflow);
    }
    proof {
        if ctx.market.tallies_consistent() {
            lemma_record_keeps_consistency(
                ctx.market.emoji_ids@,
                ctx.market.emoji_votes@,
                emoji_id,
                vote_qty,
            );
        }
    }
    ctx.market.total_pot = ctx.market.total_pot + total_cost;
    ctx.market.total_votes = ctx.market.total_votes + vote_qty;
    apply_votes(
        &mut ctx.market.emoji_ids,
        &mut ctx.market.emoji_votes,
        market_slot,
        emoji_id,
        vote_qty,
    );
    if fresh {
        ctx.bet.market = ctx.market_key;
        ctx.bet.user = ctx.user;
        ctx.bet.emoji_ids = Vec::new();
        ctx.bet.emoji_votes = Vec::new();
        ctx.bet.total_spent = 0;
        ctx.bet.claimed = false;
        ctx.bet.bump = ctx.bet_bump;
    }
    apply_votes(&mut ctx.bet.emoji_ids, &mut ctx.bet.emoji_votes, bet_slot, emoji_id, vote_qty);
    ctx.bet.total_spent = ctx.bet.total_spent + total_cost;
    Ok(total_cost)
}

} // verus!
