use vstd::prelude::*;
use crate::error::ErrorCode;
use crate::pubkey::Pubkey;
use crate::state::{Config, Market, MarketStatus};

verus! {

/// The longest title, in bytes.
pub const MAX_TITLE_LEN: usize = 100;

/// The longest image reference, in bytes.
pub const MAX_IMAGE_URL_LEN: usize = 200;

/// Creating a market: the configuration to snapshot, and the host's inputs.
#[derive(Clone, Copy, Debug)]
pub struct CreateMarket {
    pub config: Config,
    /// The verified creator.
    pub creator: Pubkey,
    /// The trusted current time, in seconds; the market starts now.
    pub now: i64,
    /// Address-derivation bump of the new market record.
    pub bump: u8,
}

/// Length of a text in UTF-8 bytes.
pub open spec fn byte_len(s: Seq<char>) -> int {
    vstd::utf8::encode_utf8(s).len() as int
}

/// The result of creating a market: success, or the first check that fails.
pub open spec fn create_market_result(
    ctx: CreateMarket,
    title: Seq<char>,
    image_url: Option<Seq<char>>,
    end_ts: i64,
) -> Result<(), ErrorCode> {
    let duration = end_ts - ctx.now;
    if byte_len(title) > MAX_TITLE_LEN {
        Err(ErrorCode::TitleTooLong)
    } else if image_url matches Some(u) && byte_len(u) > MAX_IMAGE_URL_LEN {
        Err(ErrorCode::ImageUrlTooLong)
    } else if !(i64::MIN <= duration <= i64::MAX) {
        Err(ErrorCode::ArithmeticUnderflow)
    } else if duration <= 0 || duration < ctx.config.min_duration_secs {
        Err(ErrorCode::DurationTooShort)
    } else if duration > ctx.config.max_duration_secs {
        Err(ErrorCode::DurationTooLong)
    } else {
        Ok(())
    }
}

/// The view of an optional text.
pub open spec fn text_view(s: Option<String>) -> Option<Seq<char>> {
    match s {
        Some(t) => Some(t@),
        None => None,
    }
}

/// `m` is the market created from `ctx`: active from now until `end_ts`, with an empty
/// ledger and tally, no winner or fees yet, and the configuration's parameters copied in.
pub open spec fn market_created(
    m: Market,
    ctx: CreateMarket,
    title: Seq<char>,
    image_url: Option<Seq<char>>,
    end_ts: i64,
) -> bool {
    &&& m.creator == ctx.creator
    &&& m.title@ == title
    &&& text_view(m.image_url) == image_url
    &&& m.start_ts == ctx.now
    &&& m.end_ts == end_ts
    &&& m.status == MarketStatus::Active
    &&& m.total_pot == 0
    &&& m.total_votes == 0
    &&& m.emoji_ids@.len() == 0
    &&& m.emoji_votes@.len() == 0
    &&& m.winner is None
    &&& m.platform_fee_taken == 0
    &&& m.creator_fee_taken == 0
    &&& m.base_price_lamports == ctx.config.base_price_lamports
    &&& m.malus_k_millis == ctx.config.malus_k_millis
    &&& m.quad_a_micros == ctx.config.quad_a_micros
    &&& m.quad_b_micros == ctx.config.quad_b_micros
    &&& m.platform_fee_bps == ctx.config.platform_fee_bps
    &&& m.creator_fee_bps == ctx.config.creator_fee_bps
    &&& m.min_duration_secs == ctx.config.min_duration_secs
    &&& m.max_duration_secs == ctx.config.max_duration_secs
    &&& m.bump == ctx.bump
}

/// Creates a market that runs from now until `end_ts`, checking the title and image
/// reference lengths and the duration against the configured range. The market
/// identifier only addresses the record, which the host derives.
pub fn handler(
    ctx: &CreateMarket,
    _market_id: u64,
    title: String,
    image_url: Option<String>,
    end_ts: i64,
) -> (r: Result<Market, ErrorCode>)
    ensures
        r is Ok <==> create_market_result(*ctx, title@, text_view(image_url), end_ts) is Ok,
        r is Err ==> r->Err_0 == create_market_result(
            *ctx,
            title@,
            text_view(image_url),
            end_ts,
        )->Err_0,
        r matches Ok(m) ==> market_created(m, *ctx, title@, text_view(image_url), end_ts),
        r matches Ok(m) ==> m.tallies_consistent(),
{
    if title.as_str().as_bytes().len() > MAX_TITLE_LEN {
        return Err(ErrorCode::TitleTooLong);
    }
    match &image_url {
        Some(url) => {
            if url.as_str().as_bytes().len() > MAX_IMAGE_URL_LEN {
                return Err(ErrorCode::ImageUrlTooLong);
            }
        },
        None => {},
    }
    let start_ts = ctx.now;
    let duration_secs = match end_ts.checked_sub(start_ts) {
        Some(v) => v,
        None => {
            return Err(ErrorCode::ArithmeticUnderflow);
        },
    };
    if duration_secs <= 0 || duration_secs < ctx.config.min_duration_secs as i64 {
        return Err(ErrorCode::DurationTooShort);
    }
    if duration_secs > ctx.config.max_duration_secs as i64 {
        return Err(ErrorCode::DurationTooLong);
    }
    let market = Market {
        creator: ctx.creator,
        title,
        image_url,
        start_ts,
        end_ts,
        status: MarketStatus::Active,
        total_pot: 0,
        total_votes: 0,
        emoji_ids: Vec::new(),
        emoji_votes: Vec::new(),
        winner: None,
        platform_fee_taken: 0,
        creator_fee_taken: 0,
        base_price_lamports: ctx.config.base_price_lamports,
        malus_k_millis: ctx.config.malus_k_millis,
        quad_a_micros: ctx.config.quad_a_micros,
        quad_b_micros: ctx.config.quad_b_micros,
        platform_fee_bps: ctx.config.platform_fee_bps,
        creator_fee_bps: ctx.config.creator_fee_bps,
        min_duration_secs: ctx.config.min_duration_secs,
        max_duration_secs: ctx.config.max_duration_secs,
        bump: ctx.bump,
    };
    assert(market.emoji_ids@.no_duplicates());
    Ok(market)
}

} // verus!
