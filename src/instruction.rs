use vstd::prelude::*;

verus! {

/// Instructions of the token-escrow layout of the program, as plain data: no operation
/// of this crate takes them.
#[derive(Clone, Debug)]
pub enum EmojimarketInstruction {
    /// Create a post, with its window, creator fee and content identifier.
    CreatePost { post_id: u64, start_ts: i64, end_ts: i64, creator_fee_bps: u16, cid: String },
    /// Place a bet of `quantity` on `emoji_code` for `amount`.
    PlaceBet { post_id: u64, bet_id: u64, emoji_code: u32, quantity: u64, amount: u64 },
    /// Resolve a post to a winning emoji.
    ResolveMarket { post_id: u64, winner_emoji: u32 },
    /// Claim a payout.
    ClaimPayout { post_id: u64 },
}

} // verus!
