use vstd::prelude::*;

verus! {

/// Every way an operation of the market can fail.
#[derive(PartialEq, Eq, Structural, Clone, Copy, Debug)]
pub enum ErrorCode {
    FeesTooHigh,
    InvalidDurationRange,
    InvalidBasePrice,
    DurationTooShort,
    DurationTooLong,
    MarketNotActive,
    MarketNotEnded,
    MarketEnded,
    InvalidVoteQuantity,
    NoWinningVotes,
    AlreadyClaimed,
    Unauthorized,
    ArithmeticOverflow,
    ArithmeticUnderflow,
    DivisionByZero,
    InvalidCalculation,
    TitleTooLong,
    ImageUrlTooLong,
    TooManyOutcomes,
}

impl ErrorCode {
    /// A human-readable description of the error.
    pub fn msg(&self) -> &'static str {
        match self {
            ErrorCode::FeesTooHigh => "Total fees exceed 100%",
            ErrorCode::InvalidDurationRange => "Invalid duration range",
            ErrorCode::InvalidBasePrice => "Base price must be greater than zero",
            ErrorCode::DurationTooShort => "Market duration is too short",
            ErrorCode::DurationTooLong => "Market duration is too long",
            ErrorCode::MarketNotActive => "Market is not active",
            ErrorCode::MarketNotEnded => "Market has not ended yet",
            ErrorCode::MarketEnded => "Market has already ended",
            ErrorCode::InvalidVoteQuantity => "Vote quantity must be at least 1",
            ErrorCode::NoWinningVotes => "User has no votes on winning emoji",
            ErrorCode::AlreadyClaimed => "Rewards already claimed",
            ErrorCode::Unauthorized => "Unauthorized: caller is not admin or creator",
            ErrorCode::ArithmeticOverflow => "Arithmetic overflow",
            ErrorCode::ArithmeticUnderflow => "Arithmetic underflow",
            ErrorCode::DivisionByZero => "Division by zero",
            ErrorCode::InvalidCalculation => "Invalid calculation result",
            ErrorCode::TitleTooLong => "Title too long",
            ErrorCode::ImageUrlTooLong => "Image URL too long",
            ErrorCode::TooManyOutcomes => "Too many distinct outcomes",
        }
    }
}

} // verus!
