//! The records of the pool's program that a swap reads.

use vstd::prelude::*;

use crate::pubkey::Pubkey;

verus! {

/// A pool's configuration: the fee rates, in millionths, that a swap reads, and
/// the whole record in the form its program keeps it.
#[derive(Clone, Debug, PartialEq, Eq)]
pub struct AmmConfig {
    pub trade_fee_rate: u64,
    pub protocol_fee_rate: u64,
    pub fund_fee_rate: u64,
    /// The record. It is handed on to the program and not read here.
    pub data: Vec<u8>,
}

/// The price observations of a pool, in the form its program keeps them. They
/// are handed on to the program and not read here.
#[derive(Clone, Debug, PartialEq, Eq)]
pub struct ObservationState {
    pub data: Vec<u8>,
}

/// The bits of a pool's status, from the least significant one on. A set bit
/// switches its operation off.
#[derive(Clone, Copy, Debug, PartialEq, Eq, Structural)]
pub enum PoolStatusBitIndex {
    Deposit,
    Withdraw,
    Swap,
}

/// The record of a partner, as the bytes that it takes up in a pool's account.
#[derive(Clone, Copy, Debug, PartialEq, Eq)]
pub struct PartnerInfo {
    pub bytes: [u8; 32],
}

/// A pool's state in the form that the fee and curve calculations of its
/// program take.
#[derive(Clone, Copy, Debug)]
pub struct PoolState {
    pub amm_config: Pubkey,
    pub pool_creator: Pubkey,
    pub token_0_vault: Pubkey,
    pub token_1_vault: Pubkey,
    pub _padding1: [u8; 32],
    pub token_0_mint: Pubkey,
    pub token_1_mint: Pubkey,
    pub token_0_program: Pubkey,
    pub token_1_program: Pubkey,
    pub observation_key: Pubkey,
    pub auth_bump: u8,
    pub status: u8,
    pub _padding2: u8,
    pub mint_0_decimals: u8,
    pub mint_1_decimals: u8,
    pub lp_supply: u64,
    pub protocol_fees_token_0: u64,
    pub protocol_fees_token_1: u64,
    pub fund_fees_token_0: u64,
    pub fund_fees_token_1: u64,
    pub open_time: u64,
    pub recent_epoch: u64,
    pub cumulative_trade_fees_token_0: u128,
    pub cumulative_trade_fees_token_1: u128,
    pub cumulative_volume_token_0: u128,
    pub cumulative_volume_token_1: u128,
    pub latest_dynamic_fee_rate: u64,
    pub max_trade_fee_rate: u64,
    pub volatility_factor: u64,
    pub token_0_vault_amount: u64,
    pub token_1_vault_amount: u64,
    pub max_shared_token0: u64,
    pub max_shared_token1: u64,
    pub partners: [PartnerInfo; 1],
    pub token_0_amount_in_kamino: u64,
    pub token_1_amount_in_kamino: u64,
    pub withdrawn_kamino_profit_token_0: u64,
    pub withdrawn_kamino_profit_token_1: u64,
    pub padding: [u64; 8],
}

} // verus!
