use vstd::prelude::*;

verus! {

/// Smallest contribution the protocol ever accepts: 0.1 SOL, in lamports.
pub const MIN_SOL_AMOUNT: u64 = 100_000_000;

/// Largest contribution the protocol ever accepts: 2 SOL, in lamports.
pub const MAX_SOL_AMOUNT: u64 = 2_000_000_000;

/// Largest total a campaign is initialized with: 20 SOL, in lamports.
pub const MAX_FUND_LIMIT: u64 = 20_000_000_000;

/// Largest commission, in percent of a contribution.
pub const MAX_COMMISSION_RATE: u8 = 10;

/// Longest wait between the end of a campaign and the first claim: 24 hours, in seconds.
pub const MAX_TOKEN_CLAIM_AVAILABLE_TIME: i64 = 86_400;

/// Longest token name, in bytes, that a launch accepts.
pub const MAX_NAME_LEN: usize = 32;

/// Longest token symbol, in bytes, that a launch accepts.
pub const MAX_SYMBOL_LEN: usize = 10;

} // verus!
