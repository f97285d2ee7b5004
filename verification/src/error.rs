//! What can go wrong in a quote, a swap or an update.

use vstd::prelude::*;

use crate::pubkey::Pubkey;

verus! {

/// An error that the pool's program reports, by its number.
#[derive(Clone, Copy, Debug, PartialEq, Eq, Structural)]
pub struct ProgramError {
    pub code: u32,
}

/// Why a swap has no result.
#[derive(Clone, Copy, Debug, PartialEq, Eq, Structural)]
pub enum SwapError {
    /// A sum, product, difference or quotient has no value of its type.
    MathOverflow,
    /// The protocol's or the fund's share of the fee has no value.
    InvalidFee,
    /// The price after the swap is outside the pool's price range.
    SwapNotAllowed,
    /// The pool's program refused a step of the swap.
    Program(ProgramError),
}

impl SwapError {
    /// The error in words.
    pub fn message(&self) -> (text: &'static str)
        ensures
            text@ == (match *self {
                SwapError::MathOverflow => "Math overflow"@,
                SwapError::InvalidFee => "Invalid fee"@,
                SwapError::SwapNotAllowed => "Swap in not allowed"@,
                SwapError::Program(_) => "Program error"@,
            }),
    {
        match self {
            SwapError::MathOverflow => "Math overflow",
            SwapError::InvalidFee => "Invalid fee",
            SwapError::SwapNotAllowed => "Swap in not allowed",
            SwapError::Program(_) => "Program error",
        }
    }
}

/// Why a pool cannot be read, updated, quoted or swapped.
#[derive(Clone, Copy, Debug, PartialEq, Eq)]
pub enum Error {
    PoolNotTrading,
    MissingAmmConfig,
    MissingTokenMints,
    MissingObservationState,
    FeeCalculationFailure,
    AmountTooLow,
    SwapFailed(SwapError),
    /// The amount out does not fit the type of a token amount.
    AmountOutOfRange,
    MathOverflow,
    FailedToDivide,
    InvalidDiscriminator,
    /// The account is shorter than a pool state.
    UnexpectedLengthOfInput,
    AccountNotFound(Pubkey),
    Token0MintNotFound,
    Token1MintNotFound,
    /// The pool's program did not accept the data of an account.
    Program(ProgramError),
    /// The pool's bump does not give an authority address.
    NoAuthority,
}

impl Error {
    /// The error in words.
    pub fn message(&self) -> (text: &'static str)
        ensures
            text@ == (match *self {
                Error::PoolNotTrading => "Pool is not trading"@,
                Error::MissingAmmConfig => "Missing AmmConfig"@,
                Error::MissingTokenMints => "Missing token mints and token programs"@,
                Error::MissingObservationState => "Missing observation state"@,
                Error::FeeCalculationFailure => "Fee calculation failure"@,
                Error::AmountTooLow => "Amount too low"@,
                Error::SwapFailed(_) => "swap failed"@,
                Error::AmountOutOfRange => "out of range integral type conversion attempted"@,
                Error::MathOverflow => "Math overflow"@,
                Error::FailedToDivide => "Failed to divide"@,
                Error::InvalidDiscriminator => "Invalid discriminator"@,
                Error::UnexpectedLengthOfInput => "Unexpected length of input"@,
                Error::AccountNotFound(_) => "Could not find address"@,
                Error::Token0MintNotFound => "Token 0 mint not found"@,
                Error::Token1MintNotFound => "Token 1 mint not found"@,
                Error::Program(_) => "Program error"@,
                Error::NoAuthority => "No authority"@,
            }),
    {
        match self {
            Error::PoolNotTrading => "Pool is not trading",
            Error::MissingAmmConfig => "Missing AmmConfig",
            Error::MissingTokenMints => "Missing token mints and token programs",
            Error::MissingObservationState => "Missing observation state",
            Error::FeeCalculationFailure => "Fee calculation failure",
            Error::AmountTooLow => "Amount too low",
            Error::SwapFailed(_) => "swap failed",
            Error::AmountOutOfRange => "out of range integral type conversion attempted",
            Error::MathOverflow => "Math overflow",
            Error::FailedToDivide => "Failed to divide",
            Error::InvalidDiscriminator => "Invalid discriminator",
            Error::UnexpectedLengthOfInput => "Unexpected length of input",
            Error::AccountNotFound(_) => "Could not find address",
            Error::Token0MintNotFound => "Token 0 mint not found",
            Error::Token1MintNotFound => "Token 1 mint not found",
            Error::Program(_) => "Program error",
            Error::NoAuthority => "No authority",
        }
    }
}

} // verus!
