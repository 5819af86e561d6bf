use vstd::prelude::*;
use crate::error::ErrorCode;
use crate::instructions::bet::{same_identity, same_ledger};
use crate::math::{calculate_fee, fee_result};
use crate::pubkey::Pubkey;
use crate::state::{Config, Market, MarketStatus};
use crate::tally::{is_plurality_winner, plurality_winner};

verus! {

/// Closing a market: the configuration, the market, and the host's inputs.
#[derive(Debug)]
pub struct EndMarket {
    pub config: Config,
    pub market: Market,
    /// The verified caller.
    pub caller: Pubkey,
    /// The trusted current time, in seconds.
    pub now: i64,
}

/// The result of closing a market: success, or the first check that fails.
pub open spec fn end_market_result(ctx: EndMarket) -> Result<(), ErrorCode> {
    let m = ctx.market;
    if ctx.caller.bytes@ != ctx.config.admin_address.bytes@ && ctx.caller.bytes@ != m.creator.bytes@ {
        Err(ErrorCode::Unauthorized)
    } else if ctx.now < m.end_ts {
        Err(ErrorCode::MarketNotEnded)
    } else if m.status != MarketStatus::Active {
        Err(ErrorCode::MarketNotActive)
    } else if fee_result(m.total_pot, m.platform_fee_bps) is Err || fee_result(
        m.total_pot,
        m.creator_fee_bps,
    ) is Err {
        Err(ErrorCode::ArithmeticOverflow)
    } else {
        Ok(())
    }
}

/// A successful close from `before` to `after`: the plurality outcome is the winner, both
/// fees are recorded at the market's rates, and the market has ended.
pub open spec fn end_committed(before: EndMarket, after: EndMarket) -> bool {
    let m = before.market;
    let m2 = after.market;
    &&& m2.winner is None <==> m.emoji_ids@.len() == 0
    &&& m2.winner matches Some(w) ==> is_plurality_winner(m.emoji_ids@, m.emoji_votes@, w)
    &&& fee_result(m.total_pot, m.platform_fee_bps) == Ok::<u64, ErrorCode>(m2.platform_fee_taken)
    &&& fee_result(m.total_pot, m.creator_fee_bps) == Ok::<u64, ErrorCode>(m2.creator_fee_taken)
    &&& m2.status == MarketStatus::Ended
    &&& same_identity(m, m2)
    &&& same_ledger(m, m2)
    &&& after.config == before.config
    &&& after.caller == before.caller
    &&& after.now == before.now
}

/// Closes an active market once its time is over, at the request of the administrator or
/// the market's creator. The fees recorded on the market are what the host then moves
/// from the market to the administrator and to the creator. On an error nothing changes.
pub fn handler(ctx: &mut EndMarket) -> (r: Result<(), ErrorCode>)
    requires
        old(ctx).market.tallies_parallel(),
    ensures
        r == end_market_result(*old(ctx)),
        r is Err ==> *final(ctx) == *old(ctx),
        r is Ok ==> end_committed(*old(ctx), *final(ctx)),
{
    let is_admin = ctx.caller == ctx.config.admin_address;
    let is_creator = ctx.caller == ctx.market.creator;
    if !(is_admin || is_creator) {
        return Err(ErrorCode::Unauthorized);
    }
    if ctx.now < ctx.market.end_ts {
        return Err(ErrorCode::MarketNotEnded);
    }
    if ctx.market.status != MarketStatus::Active {
        return Err(ErrorCode::MarketNotActive);
    }
    let winner_emoji = plurality_winner(&ctx.market.emoji_ids, &ctx.market.emoji_votes);
    let platform_fee = match calculate_fee(ctx.market.total_pot, ctx.market.platform_fee_bps) {
        Ok(v) => v,
        Err(e) => {
            return Err(e);
        },
    };
    let creator_fee = match calculate_fee(ctx.market.total_pot, ctx.market.creator_fee_bps) {
        Ok(v) => v,
        Err(e) => {
            return Err(e);
        },
    };
    ctx.market.winner = winner_emoji;
    ctx.market.platform_fee_taken = platform_fee;
    ctx.market.creator_fee_taken = creator_fee;
    ctx.market.status = MarketStatus::Ended;
    Ok(())
}

} // verus!
