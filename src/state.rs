use vstd::prelude::*;
use crate::pubkey::Pubkey;

verus! {

/// The global economic parameters, written once at initialisation.
#[derive(Clone, Copy, Debug)]
pub struct Config {
    pub admin_address: Pubkey,
    pub platform_fee_bps: u16,
    pub creator_fee_bps: u16,
    pub base_price_lamports: u64,
    pub malus_k_millis: u32,
    pub quad_a_micros: u64,
    pub quad_b_micros: u64,
    pub min_duration_secs: u32,
    pub max_duration_secs: u32,
    pub bump: u8,
}

impl Config {
    /// Stored size of the record: discriminator, then each field.
    pub const LEN: usize = 8 + 32 + 2 + 2 + 8 + 4 + 8 + 8 + 4 + 4 + 1;

    /// The configuration's invariant: fees within 100%, a non-empty duration range and
    /// a positive base price.
    pub open spec fn wf(self) -> bool {
        &&& self.platform_fee_bps + self.creator_fee_bps <= 10000
        &&& self.min_duration_secs < self.max_duration_secs
        &&& self.base_price_lamports > 0
    }
}

/// The lifecycle state of a market.
#[derive(PartialEq, Eq, Structural, Clone, Copy, Debug)]
pub enum MarketStatus {
    Active,
    Ended,
}

/// One market: its window, aggregate ledger, per-outcome tallies, settlement result and
/// a snapshot of the configuration taken when it was created.
#[derive(Clone, Debug)]
pub struct Market {
    pub creator: Pubkey,
    pub title: String,
    pub image_url: Option<String>,
    pub start_ts: i64,
    pub end_ts: i64,
    pub status: MarketStatus,
    pub total_pot: u64,
    pub total_votes: u64,
    pub emoji_ids: Vec<u32>,
    pub emoji_votes: Vec<u64>,
    pub winner: Option<u32>,
    pub platform_fee_taken: u64,
    pub creator_fee_taken: u64,
    pub base_price_lamports: u64,
    pub malus_k_millis: u32,
    pub quad_a_micros: u64,
    pub quad_b_micros: u64,
    pub platform_fee_bps: u16,
    pub creator_fee_bps: u16,
    pub min_duration_secs: u32,
    pub max_duration_secs: u32,
    pub bump: u8,
}

/// Stored size of a market with the given title and image reference lengths.
pub open spec fn market_space(title_len: int, image_url_len: int) -> int {
    748 + (if title_len < 100 {
        title_len
    } else {
        100
    }) + (if image_url_len > 0 {
        4 + if image_url_len < 200 {
            image_url_len
        } else {
            200
        }
    } else {
        0
    })
}

impl Market {
    /// Stored size of the record at its largest title, image reference and tally.
    pub const BASE_LEN: usize = 8 + 32 + 4 + 100 + 1 + 4 + 200 + 8 + 8 + 1 + 8 + 8 + 4 + (4 * 50)
        + 4 + (8 * 50) + 1 + 4 + 8 + 8 + 8 + 4 + 8 + 8 + 2 + 2 + 4 + 4 + 1;

    /// The per-outcome arrays run in parallel.
    pub open spec fn tallies_parallel(self) -> bool {
        self.emoji_ids@.len() == self.emoji_votes@.len()
    }

    /// The tallies add up to the total vote count, with each code once and within the cap.
    pub open spec fn tallies_consistent(self) -> bool {
        &&& self.tallies_parallel()
        &&& self.emoji_ids@.no_duplicates()
        &&& self.emoji_ids@.len() <= crate::tally::MAX_OUTCOMES
        &&& crate::tally::votes_sum(self.emoji_votes@) == self.total_votes
    }

    /// Whether the per-outcome arrays run in parallel, as every operation on a market needs.
    pub fn has_parallel_tallies(&self) -> (r: bool)
        ensures
            r == self.tallies_parallel(),
    {
        self.emoji_ids.len() == self.emoji_votes.len()
    }

    /// Votes the market has recorded for an outcome.
    pub open spec fn tally(self, emoji_id: u32) -> int {
        crate::tally::tally_of(self.emoji_ids@, self.emoji_votes@, emoji_id)
    }

    /// Stored size of a market: the title is counted up to 100 bytes, and an image
    /// reference, where present, up to 200.
    pub fn space(title_len: usize, image_url_len: usize) -> (r: usize)
        ensures
            r == market_space(title_len as int, image_url_len as int),
    {
        let title = if title_len < 100 {
            title_len
        } else {
            100
        };
        let image = if image_url_len > 0 {
            4 + if image_url_len < 200 {
                image_url_len
            } else {
                200
            }
        } else {
            0
        };
        748 + title + image
    }
}

/// One bettor's record in one market.
#[derive(Clone, Debug)]
pub struct BetAccount {
    pub market: Pubkey,
    pub user: Pubkey,
    pub emoji_ids: Vec<u32>,
    pub emoji_votes: Vec<u64>,
    pub total_spent: u64,
    pub claimed: bool,
    pub bump: u8,
}

impl BetAccount {
    /// Stored size of the record at its largest tally.
    pub const BASE_LEN: usize = 8 + 32 + 32 + 4 + (4 * 50) + 4 + (8 * 50) + 8 + 1 + 1;

    /// The per-outcome arrays run in parallel.
    pub open spec fn tallies_parallel(self) -> bool {
        self.emoji_ids@.len() == self.emoji_votes@.len()
    }

    /// Whether the per-outcome arrays run in parallel, as every operation on a record needs.
    pub fn has_parallel_tallies(&self) -> (r: bool)
        ensures
            r == self.tallies_parallel(),
    {
        self.emoji_ids.len() == self.emoji_votes.len()
    }

    /// Votes this bettor has placed on an outcome.
    pub open spec fn tally(self, emoji_id: u32) -> int {
        crate::tally::tally_of(self.emoji_ids@, self.emoji_votes@, emoji_id)
    }

    /// A record that no bet has written yet has no owning market.
    pub open spec fn is_fresh(self) -> bool {
        self.market.is_unset()
    }

    /// Stored size of the record.
    pub fn space() -> (r: usize)
        ensures
            r == Self::BASE_LEN,
    {
        Self::BASE_LEN
    }
}

impl Default for BetAccount {
    /// A record as the host hands it out before its first bet: all zero.
    fn default() -> (r: BetAccount)
        ensures
            r.is_fresh(),
            r.user.is_unset(),
            r.emoji_ids@.len() == 0,
            r.emoji_votes@.len() == 0,
            r.total_spent == 0,
            !r.claimed,
            r.bump == 0,
    {
        BetAccount {
            market: Pubkey::default(),
            user: Pubkey::default(),
            emoji_ids: Vec::new(),
            emoji_votes: Vec::new(),
            total_spent: 0,
            claimed: false,
            bump: 0,
        }
    }
}

} // verus!
