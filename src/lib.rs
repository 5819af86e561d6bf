//! Settlement core of an emoji prediction market: a fixed-point pricing engine, market
//! and bet ledgers, winner resolution, fee extraction and pull-based payouts.
//!
//! The host supplies what lies outside: record storage and addressing, the current
//! time, verified caller identities, and the movement of value. Each operation takes
//! the records it works on with those inputs, and returns either its effect or an
//! error with nothing changed.

pub mod error;
pub mod instruction;
pub mod instructions;
pub mod math;
pub mod pubkey;
pub mod state;
pub mod tally;

use vstd::prelude::*;
use crate::error::ErrorCode;
use crate::instructions::bet::{bet_committed, bet_result, PlaceBet};
use crate::instructions::claim::{claim_committed, claim_result, Claim};
use crate::instructions::create_market::{
    create_market_result, market_created, text_view, CreateMarket,
};
use crate::instructions::end_market::{end_committed, end_market_result, EndMarket};
use crate::instructions::initialize_config::{initialize_config_result, InitializeConfig};
use crate::pubkey::Pubkey;
use crate::state::{Config, Market};

verus! {

/// Validates the economic parameters and returns the configuration that holds them.
pub fn initialize_config(
    ctx: &InitializeConfig,
    admin_address: Pubkey,
    platform_fee_bps: u16,
    creator_fee_bps: u16,
    base_price_lamports: u64,
    malus_k_millis: u32,
    quad_a_micros: u64,
    quad_b_micros: u64,
    min_duration_secs: u32,
    max_duration_secs: u32,
) -> (r: Result<Config, ErrorCode>)
    ensures
        r is Ok <==> initialize_config_result(
            platform_fee_bps,
            creator_fee_bps,
            base_price_lamports,
            min_duration_secs,
            max_duration_secs,
        ) is Ok,
        r is Err ==> r->Err_0 == initialize_config_result(
            platform_fee_bps,
            creator_fee_bps,
            base_price_lamports,
            min_duration_secs,
            max_duration_secs,
        )->Err_0,
        r matches Ok(c) ==> c == (Config {
            admin_address,
            platform_fee_bps,
            creator_fee_bps,
            base_price_lamports,
            malus_k_millis,
            quad_a_micros,
            quad_b_micros,
            min_duration_secs,
            max_duration_secs,
            bump: ctx.bump,
        }),
        r matches Ok(c) ==> c.wf(),
{
    instructions::initialize_config::handler(
        ctx,
        admin_address,
        platform_fee_bps,
        creator_fee_bps,
        base_price_lamports,
        malus_k_millis,
        quad_a_micros,
        quad_b_micros,
        min_duration_secs,
        max_duration_secs,
    )
}

/// Creates a market that runs from now until `end_ts`.
pub fn create_market(
    ctx: &CreateMarket,
    market_id: u64,
    title: String,
    image_url: Option<String>,
    end_ts: i64,
) -> (r: Result<Market, ErrorCode>)
    ensures
        r is Ok <==> create_market_result(*ctx, title@, text_view(image_url), end_ts) is Ok,
        r is Err ==> r->Err_0 == create_market_result(
            *ctx,
            title@,
            text_view(image_url),
            end_ts,
        )->Err_0,
        r matches Ok(m) ==> market_created(m, *ctx, title@, text_view(image_url), end_ts),
        r matches Ok(m) ==> m.tallies_consistent(),
{
    instructions::create_market::handler(ctx, market_id, title, image_url, end_ts)
}

/// Places a bet and returns its cost, which the host debits from the bettor.
pub fn bet(ctx: &mut PlaceBet, _market_id: u64, emoji_id: u32, vote_qty: u64) -> (r: Result<
    u64,
    ErrorCode,
>)
    requires
        old(ctx).market.tallies_parallel(),
        old(ctx).bet.tallies_parallel(),
    ensures
        r == bet_result(*old(ctx), emoji_id, vote_qty),
        r is Err ==> *final(ctx) == *old(ctx),
        r matches Ok(cost) ==> bet_committed(*old(ctx), *final(ctx), emoji_id, vote_qty, cost),
{
    instructions::bet::handler(ctx, emoji_id, vote_qty)
}

/// Closes a market: resolves the winner and records the fees the host then pays out.
pub fn end_market(ctx: &mut EndMarket, _market_id: u64) -> (r: Result<(), ErrorCode>)
    requires
        old(ctx).market.tallies_parallel(),
    ensures
        r == end_market_result(*old(ctx)),
        r is Err ==> *final(ctx) == *old(ctx),
        r is Ok ==> end_committed(*old(ctx), *final(ctx)),
{
    instructions::end_market::handler(ctx)
}

/// Claims a bettor's share and returns it; the host pays it from the market.
pub fn claim(ctx: &mut Claim, _market_id: u64) -> (r: Result<u64, ErrorCode>)
    requires
        old(ctx).market.tallies_parallel(),
        old(ctx).bet.tallies_parallel(),
    ensures
        r == claim_result(old(ctx).market, old(ctx).bet),
        r is Err ==> *final(ctx) == *old(ctx),
        r is Ok ==> claim_committed(*old(ctx), *final(ctx)),
{
    instructions::claim::handler(ctx)
}

} // verus!
