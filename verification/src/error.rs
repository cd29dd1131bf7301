use vstd::prelude::*;

verus! {

/// Every reason for which an operation is rejected. A rejected operation changes nothing.
#[derive(Clone, Copy, Debug, PartialEq, Eq, Structural)]
pub enum MemeError {
    InvalidFundDuration,
    InvalidBuyAmount,
    InvalidFeeRecipient,
    BelowMinAmount,
    ArithmeticOverflow,
    ExceedsMaxAmount,
    InvalidMemeId,
    FundExpired,
    InsufficientBalance,
    ExceedsMaxFundLimit,
    MaxContributorsReached,
    NameTooLong,
    SymbolTooLong,
    ATACreationFailed,
    AlreadyClaimed,
    ZeroContributionAmount,
    InsufficientVaultBalance,
    NoFundsInRegistry,
    ClaimTimeNotReached,
    ZeroClaimAmount,
    NotAllTokensClaimed,
    NoRewardsToClaim,
    SameWalletAddress,
    ExceedsMaxAllowedAmount,
    ExceedsMaxBuyAmount,
    BelowMinAllowedAmount,
    CommissionRateTooHigh,
    /// The caller is not the party that the operation is reserved for.
    Unauthorized,
    /// The campaign already has a token.
    AlreadyStarted,
    /// The mint presented is not the campaign's token.
    InvalidMint,
}

impl MemeError {
    /// The text shown to a user for each kind of rejection.
    pub open spec fn spec_message(self) -> Seq<char> {
        match self {
            MemeError::InvalidFundDuration => "Invalid fund duration"@,
            MemeError::InvalidBuyAmount => "Invalid buy amount: minimum exceeds maximum"@,
            MemeError::InvalidFeeRecipient => "Invalid fee recipient address"@,
            MemeError::BelowMinAmount => "Contribution is below the minimum allowed amount"@,
            MemeError::ArithmeticOverflow => "Arithmetic overflow"@,
            MemeError::ExceedsMaxAmount => "Contribution exceeds maximum allowed amount"@,
            MemeError::InvalidMemeId => "Invalid Meme ID"@,
            MemeError::FundExpired => "Fund has expired"@,
            MemeError::InsufficientBalance => "Insufficient balance"@,
            MemeError::ExceedsMaxFundLimit => "Exceeds maximum fund limit"@,
            MemeError::MaxContributorsReached => "Maximum number of contributors reached"@,
            MemeError::NameTooLong => "Name must be 32 characters or less"@,
            MemeError::SymbolTooLong => "Symbol must be 10 characters or less"@,
            MemeError::ATACreationFailed => "Failed to create Associated Token Account"@,
            MemeError::AlreadyClaimed => "Tokens have already been claimed"@,
            MemeError::ZeroContributionAmount => "Zero contribution amount"@,
            MemeError::InsufficientVaultBalance => "Insufficient vault balance"@,
            MemeError::NoFundsInRegistry => "No funds in registry"@,
            MemeError::ClaimTimeNotReached => "Token claim time has not been reached yet"@,
            MemeError::ZeroClaimAmount => "Zero claim amount"@,
            MemeError::NotAllTokensClaimed => "Not all tokens have been claimed yet"@,
            MemeError::NoRewardsToClaim => "No rewards to claim"@,
            MemeError::SameWalletAddress => "New wallet address is the same as the old one"@,
            MemeError::ExceedsMaxAllowedAmount => "Exceeds maximum allowed amount of 2 SOL"@,
            MemeError::ExceedsMaxBuyAmount => "New minimum buy amount exceeds the current maximum buy amount"@,
            MemeError::BelowMinAllowedAmount => "New minimum buy amount is below the allowed minimum of 0.1 SOL"@,
            MemeError::CommissionRateTooHigh => "Commission rate cannot exceed 10%"@,
            MemeError::Unauthorized => "Caller is not authorized for this operation"@,
            MemeError::AlreadyStarted => "Meme has already been started"@,
            MemeError::InvalidMint => "Mint does not match the registry"@,
        }
    }

    /// The text shown to a user for this rejection.
    pub fn message(&self) -> (r: &'static str)
        ensures
            r@ == self.spec_message(),
    {
        match self {
            MemeError::InvalidFundDuration => "Invalid fund duration",
            MemeError::InvalidBuyAmount => "Invalid buy amount: minimum exceeds maximum",
            MemeError::InvalidFeeRecipient => "Invalid fee recipient address",
            MemeError::BelowMinAmount => "Contribution is below the minimum allowed amount",
            MemeError::ArithmeticOverflow => "Arithmetic overflow",
            MemeError::ExceedsMaxAmount => "Contribution exceeds maximum allowed amount",
            MemeError::InvalidMemeId => "Invalid Meme ID",
            MemeError::FundExpired => "Fund has expired",
            MemeError::InsufficientBalance => "Insufficient balance",
            MemeError::ExceedsMaxFundLimit => "Exceeds maximum fund limit",
            MemeError::MaxContributorsReached => "Maximum number of contributors reached",
            MemeError::NameTooLong => "Name must be 32 characters or less",
            MemeError::SymbolTooLong => "Symbol must be 10 characters or less",
            MemeError::ATACreationFailed => "Failed to create Associated Token Account",
            MemeError::AlreadyClaimed => "Tokens have already been claimed",
            MemeError::ZeroContributionAmount => "Zero contribution amount",
            MemeError::InsufficientVaultBalance => "Insufficient vault balance",
            MemeError::NoFundsInRegistry => "No funds in registry",
            MemeError::ClaimTimeNotReached => "Token claim time has not been reached yet",
            MemeError::ZeroClaimAmount => "Zero claim amount",
            MemeError::NotAllTokensClaimed => "Not all tokens have been claimed yet",
            MemeError::NoRewardsToClaim => "No rewards to claim",
            MemeError::SameWalletAddress => "New wallet address is the same as the old one",
            MemeError::ExceedsMaxAllowedAmount => "Exceeds maximum allowed amount of 2 SOL",
            MemeError::ExceedsMaxBuyAmount => "New minimum buy amount exceeds the current maximum buy amount",
            MemeError::BelowMinAllowedAmount => "New minimum buy amount is below the allowed minimum of 0.1 SOL",
            MemeError::CommissionRateTooHigh => "Commission rate cannot exceed 10%",
            MemeError::Unauthorized => "Caller is not authorized for this operation",
            MemeError::AlreadyStarted => "Meme has already been started",
            MemeError::InvalidMint => "Mint does not match the registry",
        }
    }
}

} // verus!
