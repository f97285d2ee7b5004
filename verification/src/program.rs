//! What a swap has from the pool's program: its curve, its fees, and its way
//! of reading its own accounts.

use vstd::prelude::*;

use crate::error::ProgramError;
use crate::states::{AmmConfig, ObservationState, PoolState};

verus! {

/// Fee rates and price differences are counted in parts of this many.
pub const FEE_RATE_DENOMINATOR_VALUE: u64 = 1_000_000;

/// Which token goes into the pool.
#[derive(Clone, Copy, Debug, PartialEq, Eq, Structural)]
pub enum TradeDirection {
    ZeroForOne,
    OneForZero,
}

/// How the dynamic part of a fee is computed.
#[derive(Clone, Copy, Debug, PartialEq, Eq, Structural)]
pub enum FeeType {
    Volatility,
}

/// The outcome of a swap.
#[derive(Clone, Copy, Debug, PartialEq, Eq, Structural)]
pub struct SwapResult {
    /// The pool's source token after the swap.
    pub new_swap_source_amount: u128,
    /// The pool's destination token after the swap.
    pub new_swap_destination_amount: u128,
    /// The source token that was put in, fees included.
    pub source_amount_swapped: u128,
    /// The destination token that comes out.
    pub destination_amount_swapped: u128,
    /// The fee, in the source token.
    pub dynamic_fee: u128,
    /// The part of the fee that goes to the protocol.
    pub protocol_fee: u128,
    /// The part of the fee that goes to the fund.
    pub fund_fee: u128,
    /// The fee as a share of what was put in.
    pub dynamic_fee_rate: u64,
}

/// The calculations and account formats of a pool's program. Nothing is taken
/// for granted of what they return.
pub trait PoolProgram {
    /// Swaps the whole amount on the invariant curve.
    fn curve_swap_base_input(
        source_amount_to_be_swapped: u128,
        swap_source_amount: u128,
        swap_destination_amount: u128,
        amm_config: &AmmConfig,
        pool_state: &PoolState,
        block_timestamp: u64,
        observation_state: &ObservationState,
        is_invoked_by_signed_segmenter: bool,
    ) -> Result<SwapResult, ProgramError>;

    /// The fee rate of a trade at this time.
    fn dynamic_fee_rate(
        block_timestamp: u64,
        observation_state: &ObservationState,
        fee_type: FeeType,
        base_fees: u64,
        pool_state: &PoolState,
        is_invoked_by_signed_segmenter: bool,
    ) -> Result<u64, ProgramError>;

    /// The fee on an amount, rounded up.
    fn ceil_div(
        token_amount: u128,
        fee_numerator: u128,
        fee_denominator: u128,
    ) -> Option<u128>;

    /// What comes out of the constant product curve when no fee is taken.
    fn swap_base_input_without_fees(
        source_amount: u128,
        swap_source_amount: u128,
        swap_destination_amount: u128,
    ) -> Result<u128, ProgramError>;

    /// The part of a trade fee that goes to the protocol.
    fn protocol_fee(amount: u128, protocol_fee_rate: u64) -> Option<u128>;

    /// The part of a trade fee that goes to the fund.
    fn fund_fee(amount: u128, fund_fee_rate: u64) -> Option<u128>;

    /// Reads a configuration from the data of its account.
    fn try_deserialize_amm_config(data: &[u8]) -> Result<AmmConfig, ProgramError>;

    /// Reads price observations from the data of their account.
    fn try_deserialize_observation_state(data: &[u8]) -> Result<ObservationState, ProgramError>;
}

} // verus!
