use vstd::prelude::*;

verus! {

/// Why the market refuses an operation.
#[derive(Clone, Copy, Debug, PartialEq, Eq, Structural)]
pub enum MarketError {
    IncorrectFeedIDLength,
    ShortMarketDuration,
    UnauthorizedUser,
    BetIsClaimed,
    BetMarketMismatch,
    InvalidMarketInitialization,
    MarketDurationNotOver,
    MarketLockPeriodNotOver,
    MarketDurationOver,
    NonZeroPools,
    InvalidUtf8,
    InvalidPoolMint,
    NoneFinalPrice,
    InvalidFeedId,
    PriceAdjustmentOverflow,
}

impl MarketError {
    /// The sentence shown to a user for this error.
    pub open spec fn message_spec(self) -> Seq<char> {
        match self {
            MarketError::IncorrectFeedIDLength => "Pyth Solana Feed ID is expected to have 66 characters"@,
            MarketError::ShortMarketDuration => "Market Duration Can not be less than 1200 slots"@,
            MarketError::UnauthorizedUser => "Only the account creator can change account state"@,
            MarketError::BetIsClaimed => "Bet is already claimed before"@,
            MarketError::BetMarketMismatch => "Market key must match bet market key"@,
            MarketError::InvalidMarketInitialization => "Invalid market stage. Must perform instruction at correct time period"@,
            MarketError::MarketDurationNotOver => "Market betting Duration is not over yet"@,
            MarketError::MarketLockPeriodNotOver => "576000 slots must pass after Market betting period before closing market"@,
            MarketError::MarketDurationOver => "Bet Can only be placed during the market duration"@,
            MarketError::NonZeroPools => "Bet pools are non zero. Market can not cancel"@,
            MarketError::InvalidUtf8 => "Error during UTF8 conversion"@,
            MarketError::InvalidPoolMint => "The provided mint account is not allowed"@,
            MarketError::NoneFinalPrice => "Market Final price is empty. Error during getting price"@,
            MarketError::InvalidFeedId => "Error converting feedID to hex"@,
            MarketError::PriceAdjustmentOverflow => "Overflow occured when adjusting the oracle price data"@,
        }
    }

    /// The sentence shown to a user for this error.
    pub fn message(&self) -> (text: &'static str)
        ensures
            text@ == self.message_spec(),
    {
        match self {
            MarketError::IncorrectFeedIDLength => "Pyth Solana Feed ID is expected to have 66 characters",
            MarketError::ShortMarketDuration => "Market Duration Can not be less than 1200 slots",
            MarketError::UnauthorizedUser => "Only the account creator can change account state",
            MarketError::BetIsClaimed => "Bet is already claimed before",
            MarketError::BetMarketMismatch => "Market key must match bet market key",
            MarketError::InvalidMarketInitialization => "Invalid market stage. Must perform instruction at correct time period",
            MarketError::MarketDurationNotOver => "Market betting Duration is not over yet",
            MarketError::MarketLockPeriodNotOver => "576000 slots must pass after Market betting period before closing market",
            MarketError::MarketDurationOver => "Bet Can only be placed during the market duration",
            MarketError::NonZeroPools => "Bet pools are non zero. Market can not cancel",
            MarketError::InvalidUtf8 => "Error during UTF8 conversion",
            MarketError::InvalidPoolMint => "The provided mint account is not allowed",
            MarketError::NoneFinalPrice => "Market Final price is empty. Error during getting price",
            MarketError::InvalidFeedId => "Error converting feedID to hex",
            MarketError::PriceAdjustmentOverflow => "Overflow occured when adjusting the oracle price data",
        }
    }
}

} // verus!

verus! {

/// Why the oracle hands out no price.
#[derive(Clone, Copy, Debug, PartialEq, Eq, Structural)]
pub enum OracleError {
    /// The update was published too long ago.
    PriceTooOld,
    /// The update belongs to another feed.
    MismatchedFeedId,
    /// The update's signatures were not fully checked.
    InsufficientVerificationLevel,
}

impl OracleError {
    /// The number by which the oracle's own interface knows this error.
    pub open spec fn code(self) -> u32 {
        match self {
            OracleError::PriceTooOld => 10000,
            OracleError::MismatchedFeedId => 10002,
            OracleError::InsufficientVerificationLevel => 10003,
        }
    }

    /// The error that stands behind one of the three numbers of `code`.
    pub(crate) fn from_code(code: u32) -> (error: OracleError)
        requires
            code == 10000 || code == 10002 || code == 10003,
        ensures
            error.code() == code,
    {
        if code == 10000 {
            OracleError::PriceTooOld
        } else if code == 10002 {
            OracleError::MismatchedFeedId
        } else {
            OracleError::InsufficientVerificationLevel
        }
    }
}

/// Why a claim fails: a rule of the market, or the oracle.
#[derive(Clone, Copy, Debug, PartialEq, Eq, Structural)]
pub enum ClaimError {
    Market(MarketError),
    Oracle(OracleError),
}

} // verus!
