use vstd::prelude::*;
use crate::error::ErrorCode;
use crate::instructions::bet::{same_identity, same_ledger, same_settlement};
use crate::math::{calculate_user_share, user_share_result};
use crate::pubkey::Pubkey;
use crate::state::{BetAccount, Market, MarketStatus};
use crate::tally::{find_outcome, lemma_first_index, tally_of};

verus! {

/// A payout claim: the ended market and the bettor's record.
#[derive(Debug)]
pub struct Claim {
    pub market: Market,
    pub bet: BetAccount,
    /// The verified bettor.
    pub user: Pubkey,
}

/// The result of a claim on market `m` through record `b`: the bettor's share of the
/// pot after fees, in proportion to their votes on the winner, or the first check that fails.
pub open spec fn claim_result(m: Market, b: BetAccount) -> Result<u64, ErrorCode> {
    if m.status != MarketStatus::Ended {
        Err(ErrorCode::MarketNotEnded)
    } else if b.claimed {
        Err(ErrorCode::AlreadyClaimed)
    } else {
        match m.winner {
            None => Err(ErrorCode::NoWinningVotes),
            Some(w) => {
                let user_votes = b.tally(w);
                let total_votes = m.tally(w);
                if user_votes == 0 {
                    Err(ErrorCode::NoWinningVotes)
                } else if total_votes == 0 {
                    Err(ErrorCode::InvalidCalculation)
                } else if m.total_pot < m.platform_fee_taken || m.total_pot - m.platform_fee_taken
                    < m.creator_fee_taken {
                    Err(ErrorCode::ArithmeticUnderflow)
                } else {
                    user_share_result(
                        (m.total_pot - m.platform_fee_taken - m.creator_fee_taken) as u64,
                        user_votes as u64,
                        total_votes as u64,
                    )
                }
            },
        }
    }
}

/// A successful claim from `before` to `after`: the record is marked claimed and
/// nothing else changes.
pub open spec fn claim_committed(before: Claim, after: Claim) -> bool {
    let b = before.bet;
    let b2 = after.bet;
    &&& b2.claimed
    &&& b2.market == b.market
    &&& b2.user == b.user
    &&& b2.emoji_ids@ == b.emoji_ids@
    &&& b2.emoji_votes@ == b.emoji_votes@
    &&& b2.total_spent == b.total_spent
    &&& b2.bump == b.bump
    &&& after.market == before.market
    &&& after.user == before.user
}

/// The votes a tally records for `id`.
fn votes_for(ids: &Vec<u32>, votes: &Vec<u64>, id: u32) -> (r: u64)
    requires
        ids@.len() == votes@.len(),
    ensures
        r as int == tally_of(ids@, votes@, id),
{
    proof {
        lemma_first_index(ids@, id);
    }
    match find_outcome(ids, id) {
        Some(i) => votes[i],
        None => 0,
    }
}

/// Pays out a bettor's share of an ended market and returns it; the host moves that
/// amount from the market to the bettor. The record is marked claimed even where the
/// share is zero, so a claim is made once. On an error nothing changes.
pub fn handler(ctx: &mut Claim) -> (r: Result<u64, ErrorCode>)
    requires
        old(ctx).market.tallies_parallel(),
        old(ctx).bet.tallies_parallel(),
    ensures
        r == claim_result(old(ctx).market, old(ctx).bet),
        r is Err ==> *final(ctx) == *old(ctx),
        r is Ok ==> claim_committed(*old(ctx), *final(ctx)),
{
    if ctx.market.status != MarketStatus::Ended {
        return Err(ErrorCode::MarketNotEnded);
    }
    if ctx.bet.claimed {
        return Err(ErrorCode::AlreadyClaimed);
    }
    let winner_emoji = match ctx.market.winner {
        Some(w) => w,
        None => {
            return Err(ErrorCode::NoWinningVotes);
        },
    };
    let user_winning_votes = votes_for(&ctx.bet.emoji_ids, &ctx.bet.emoji_votes, winner_emoji);
    if user_winning_votes == 0 {
        return Err(ErrorCode::NoWinningVotes);
    }
    let total_winning_votes = votes_for(
        &ctx.market.emoji_ids,
        &ctx.market.emoji_votes,
        winner_emoji,
    );
    if total_winning_votes == 0 {
        return Err(ErrorCode::InvalidCalculation);
    }
    if ctx.market.total_pot < ctx.market.platform_fee_taken {
        return Err(ErrorCode::ArithmeticUnderflow);
    }
    let after_platform = ctx.market.total_pot - ctx.market.platform_fee_taken;
    if after_platform < ctx.market.creator_fee_taken {
        return Err(ErrorCode::ArithmeticUnderflow);
    }
    let payout_pool = after_platform - ctx.market.creator_fee_taken;
    let user_share = match calculate_user_share(
        payout_pool,
        user_winning_votes,
        total_winning_votes,
    ) {
        Ok(v) => v,
        Err(e) => {
            return Err(e);
        },
    };
    ctx.bet.claimed = true;
    Ok(user_share)
}

/// Law: once a claim has succeeded, another claim through the same record fails with
/// `AlreadyClaimed`, and so pays nothing.
pub proof fn lemma_second_claim_fails(before: Claim, after: Claim)
    requires
        claim_result(before.market, before.bet) is Ok,
        claim_committed(before, after),
    ensures
        claim_result(after.market, after.bet) == Err::<u64, ErrorCode>(ErrorCode::AlreadyClaimed),
{
}

} // verus!
