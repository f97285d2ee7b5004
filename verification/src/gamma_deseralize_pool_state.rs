//! A pool's state with the fields that oracle swaps use.

use vstd::prelude::*;

use crate::account_reader::{le_value, AccountReader};
use crate::error::Error;
use crate::pubkey::{zero_key, Pubkey};
use crate::states;
use crate::states::{PartnerInfo, PoolStatusBitIndex};

verus! {

/// The bytes that the account of a pool starts with.
pub const ACCOUNT_DISCRIMINATOR: [u8; 8] = [247, 237, 227, 245, 215, 195, 222, 70];

/// How many bytes the fields of a pool take up.
pub const POOL_STATE_SIZE: usize = 629;

#[derive(Clone, Copy, Debug)]
pub struct PoolState {
    pub amm_config: Pubkey,
    pub pool_creator: Pubkey,
    pub token_0_vault: Pubkey,
    pub token_1_vault: Pubkey,
    pub oracle_price_token_0_by_token_1: u128,
    pub oracle_price_updated_at: u64,
    pub acceptable_price_difference: u32,
    pub max_amount_swappable_at_oracle_price: u32,
    pub token_0_mint: Pubkey,
    pub token_1_mint: Pubkey,
    pub token_0_program: Pubkey,
    pub token_1_program: Pubkey,
    pub observation_key: Pubkey,
    pub auth_bump: u8,
    pub status: u8,
    pub _padding2: u8,
    pub mint_0_decimals: u8,
    pub mint_1_decimals: u8,
    pub lp_supply: u64,
    pub protocol_fees_token_0: u64,
    pub protocol_fees_token_1: u64,
    pub fund_fees_token_0: u64,
    pub fund_fees_token_1: u64,
    pub open_time: u64,
    pub recent_epoch: u64,
    pub cumulative_trade_fees_token_0: u128,
    pub cumulative_trade_fees_token_1: u128,
    pub cumulative_volume_token_0: u128,
    pub cumulative_volume_token_1: u128,
    pub latest_dynamic_fee_rate: u64,
    pub max_trade_fee_rate: u64,
    pub volatility_factor: u64,
    pub token_0_vault_amount: u64,
    pub token_1_vault_amount: u64,
    pub max_shared_token0: u64,
    pub max_shared_token1: u64,
    pub min_trade_rate_at_oracle_price: u32,
    pub drift_factor: u32,
    pub max_oracle_price_update_time_diff: u32,
    pub max_drift_factor: u32,
    pub oracle_price_delay_fee_rate_per_second: u32,
    pub max_oracle_price_delay_fee: u32,
    pub _padding3: [u8; 8],
    pub token_0_amount_in_kamino: u64,
    pub token_1_amount_in_kamino: u64,
    pub withdrawn_kamino_profit_token_0: u64,
    pub withdrawn_kamino_profit_token_1: u64,
    pub partner_share_rate: u64,
    pub partner_protocol_fees_token_0: u64,
    pub partner_protocol_fees_token_1: u64,
    pub min_swap_at_spot_price: u64,
    pub max_swap_at_spot_price: u64,
    pub padding: [u64; 3],
}

/// The state in which every number is zero and every address is all zeros.
pub open spec fn default_pool_state() -> PoolState {
    PoolState {
        amm_config: zero_key(),
        pool_creator: zero_key(),
        token_0_vault: zero_key(),
        token_1_vault: zero_key(),
        oracle_price_token_0_by_token_1: 0,
        oracle_price_updated_at: 0,
        acceptable_price_difference: 0,
        max_amount_swappable_at_oracle_price: 0,
        token_0_mint: zero_key(),
        token_1_mint: zero_key(),
        token_0_program: zero_key(),
        token_1_program: zero_key(),
        observation_key: zero_key(),
        auth_bump: 0,
        status: 0,
        _padding2: 0,
        mint_0_decimals: 0,
        mint_1_decimals: 0,
        lp_supply: 0,
        protocol_fees_token_0: 0,
        protocol_fees_token_1: 0,
        fund_fees_token_0: 0,
        fund_fees_token_1: 0,
        open_time: 0,
        recent_epoch: 0,
        cumulative_trade_fees_token_0: 0,
        cumulative_trade_fees_token_1: 0,
        cumulative_volume_token_0: 0,
        cumulative_volume_token_1: 0,
        latest_dynamic_fee_rate: 0,
        max_trade_fee_rate: 0,
        volatility_factor: 0,
        token_0_vault_amount: 0,
        token_1_vault_amount: 0,
        max_shared_token0: 0,
        max_shared_token1: 0,
        min_trade_rate_at_oracle_price: 0,
        drift_factor: 0,
        max_oracle_price_update_time_diff: 0,
        max_drift_factor: 0,
        oracle_price_delay_fee_rate_per_second: 0,
        max_oracle_price_delay_fee: 0,
        _padding3: vstd::array::spec_array_fill_for_copy_type::<u8, 8>(0u8),
        token_0_amount_in_kamino: 0,
        token_1_amount_in_kamino: 0,
        withdrawn_kamino_profit_token_0: 0,
        withdrawn_kamino_profit_token_1: 0,
        partner_share_rate: 0,
        partner_protocol_fees_token_0: 0,
        partner_protocol_fees_token_1: 0,
        min_swap_at_spot_price: 0,
        max_swap_at_spot_price: 0,
        padding: vstd::array::spec_array_fill_for_copy_type::<u64, 3>(0u64),
    }
}

impl Default for PoolState {
    fn default() -> (pool: Self)
        ensures
            pool == default_pool_state(),
    {
        let key = Pubkey::default();
        PoolState {
            amm_config: key,
            pool_creator: key,
            token_0_vault: key,
            token_1_vault: key,
            oracle_price_token_0_by_token_1: 0,
            oracle_price_updated_at: 0,
            acceptable_price_difference: 0,
            max_amount_swappable_at_oracle_price: 0,
            token_0_mint: key,
            token_1_mint: key,
            token_0_program: key,
            token_1_program: key,
            observation_key: key,
            auth_bump: 0,
            status: 0,
            _padding2: 0,
            mint_0_decimals: 0,
            mint_1_decimals: 0,
            lp_supply: 0,
            protocol_fees_token_0: 0,
            protocol_fees_token_1: 0,
            fund_fees_token_0: 0,
            fund_fees_token_1: 0,
            open_time: 0,
            recent_epoch: 0,
            cumulative_trade_fees_token_0: 0,
            cumulative_trade_fees_token_1: 0,
            cumulative_volume_token_0: 0,
            cumulative_volume_token_1: 0,
            latest_dynamic_fee_rate: 0,
            max_trade_fee_rate: 0,
            volatility_factor: 0,
            token_0_vault_amount: 0,
            token_1_vault_amount: 0,
            max_shared_token0: 0,
            max_shared_token1: 0,
            min_trade_rate_at_oracle_price: 0,
            drift_factor: 0,
            max_oracle_price_update_time_diff: 0,
            max_drift_factor: 0,
            oracle_price_delay_fee_rate_per_second: 0,
            max_oracle_price_delay_fee: 0,
            _padding3: [0u8; 8],
            token_0_amount_in_kamino: 0,
            token_1_amount_in_kamino: 0,
            withdrawn_kamino_profit_token_0: 0,
            withdrawn_kamino_profit_token_1: 0,
            partner_share_rate: 0,
            partner_protocol_fees_token_0: 0,
            partner_protocol_fees_token_1: 0,
            min_swap_at_spot_price: 0,
            max_swap_at_spot_price: 0,
            padding: [0u64; 3],
        }
    }
}

/// The pool's state as the program's fee and curve calculations see it: the
/// fields that both forms have, and zeros for the rest.
pub open spec fn program_pool_state(pool: PoolState) -> states::PoolState {
    states::PoolState {
        amm_config: pool.amm_config,
        pool_creator: pool.pool_creator,
        token_0_vault: pool.token_0_vault,
        token_1_vault: pool.token_1_vault,
        _padding1: vstd::array::spec_array_fill_for_copy_type::<u8, 32>(0u8),
        token_0_mint: pool.token_0_mint,
        token_1_mint: pool.token_1_mint,
        token_0_program: pool.token_0_program,
        token_1_program: pool.token_1_program,
        observation_key: pool.observation_key,
        auth_bump: pool.auth_bump,
        status: pool.status,
        _padding2: 0,
        mint_0_decimals: pool.mint_0_decimals,
        mint_1_decimals: pool.mint_1_decimals,
        lp_supply: pool.lp_supply,
        protocol_fees_token_0: pool.protocol_fees_token_0,
        protocol_fees_token_1: pool.protocol_fees_token_1,
        fund_fees_token_0: pool.fund_fees_token_0,
        fund_fees_token_1: pool.fund_fees_token_1,
        open_time: pool.open_time,
        recent_epoch: pool.recent_epoch,
        cumulative_trade_fees_token_0: pool.cumulative_trade_fees_token_0,
        cumulative_trade_fees_token_1: pool.cumulative_trade_fees_token_1,
        cumulative_volume_token_0: pool.cumulative_volume_token_0,
        cumulative_volume_token_1: pool.cumulative_volume_token_1,
        latest_dynamic_fee_rate: pool.latest_dynamic_fee_rate,
        max_trade_fee_rate: pool.max_trade_fee_rate,
        volatility_factor: pool.volatility_factor,
        token_0_vault_amount: pool.token_0_vault_amount,
        token_1_vault_amount: pool.token_1_vault_amount,
        max_shared_token0: pool.max_shared_token0,
        max_shared_token1: pool.max_shared_token1,
        partners: [
            PartnerInfo { bytes: vstd::array::spec_array_fill_for_copy_type::<u8, 32>(0u8) },
        ],
        token_0_amount_in_kamino: pool.token_0_amount_in_kamino,
        token_1_amount_in_kamino: pool.token_1_amount_in_kamino,
        withdrawn_kamino_profit_token_0: pool.withdrawn_kamino_profit_token_0,
        withdrawn_kamino_profit_token_1: pool.withdrawn_kamino_profit_token_1,
        padding: vstd::array::spec_array_fill_for_copy_type::<u64, 8>(0u64),
    }
}

impl From<&PoolState> for states::PoolState {
    fn from(pool: &PoolState) -> (program_pool: states::PoolState) {
        states::PoolState {
            amm_config: pool.amm_config,
            pool_creator: pool.pool_creator,
            token_0_vault: pool.token_0_vault,
            token_1_vault: pool.token_1_vault,
            _padding1: [0u8; 32],
            token_0_mint: pool.token_0_mint,
            token_1_mint: pool.token_1_mint,
            token_0_program: pool.token_0_program,
            token_1_program: pool.token_1_program,
            observation_key: pool.observation_key,
            auth_bump: pool.auth_bump,
            status: pool.status,
            _padding2: 0,
            mint_0_decimals: pool.mint_0_decimals,
            mint_1_decimals: pool.mint_1_decimals,
            lp_supply: pool.lp_supply,
            protocol_fees_token_0: pool.protocol_fees_token_0,
            protocol_fees_token_1: pool.protocol_fees_token_1,
            fund_fees_token_0: pool.fund_fees_token_0,
            fund_fees_token_1: pool.fund_fees_token_1,
            open_time: pool.open_time,
            recent_epoch: pool.recent_epoch,
            cumulative_trade_fees_token_0: pool.cumulative_trade_fees_token_0,
            cumulative_trade_fees_token_1: pool.cumulative_trade_fees_token_1,
            cumulative_volume_token_0: pool.cumulative_volume_token_0,
            cumulative_volume_token_1: pool.cumulative_volume_token_1,
            latest_dynamic_fee_rate: pool.latest_dynamic_fee_rate,
            max_trade_fee_rate: pool.max_trade_fee_rate,
            volatility_factor: pool.volatility_factor,
            token_0_vault_amount: pool.token_0_vault_amount,
            token_1_vault_amount: pool.token_1_vault_amount,
            max_shared_token0: pool.max_shared_token0,
            max_shared_token1: pool.max_shared_token1,
            partners: [PartnerInfo { bytes: [0u8; 32] }],
            token_0_amount_in_kamino: pool.token_0_amount_in_kamino,
            token_1_amount_in_kamino: pool.token_1_amount_in_kamino,
            withdrawn_kamino_profit_token_0: pool.withdrawn_kamino_profit_token_0,
            withdrawn_kamino_profit_token_1: pool.withdrawn_kamino_profit_token_1,
            padding: [0u64; 8],
        }
    }
}

impl vstd::std_specs::convert::FromSpecImpl<&PoolState> for states::PoolState {
    open spec fn obeys_from_spec() -> bool {
        true
    }

    open spec fn from_spec(pool: &PoolState) -> states::PoolState {
        program_pool_state(*pool)
    }
}

/// The number of type `u32`, `u64` or `u128` that stands at a place in the data.
pub open spec fn number_at(data: Seq<u8>, at: int, size: int) -> nat {
    le_value(data.subrange(at, at + size))
}

/// Whether these are the data of the pool, field after field, with nothing
/// between the fields. More may follow.
pub open spec fn holds_pool_state(data: Seq<u8>, pool: PoolState) -> bool {
    &&& POOL_STATE_SIZE <= data.len()
    &&& pool.amm_config@ == data.subrange(0, 32)
    &&& pool.pool_creator@ == data.subrange(32, 64)
    &&& pool.token_0_vault@ == data.subrange(64, 96)
    &&& pool.token_1_vault@ == data.subrange(96, 128)
    &&& pool.oracle_price_token_0_by_token_1 == number_at(data, 128, 16)
    &&& pool.oracle_price_updated_at == number_at(data, 144, 8)
    &&& pool.acceptable_price_difference == number_at(data, 152, 4)
    &&& pool.max_amount_swappable_at_oracle_price == number_at(data, 156, 4)
    &&& pool.token_0_mint@ == data.subrange(160, 192)
    &&& pool.token_1_mint@ == data.subrange(192, 224)
    &&& pool.token_0_program@ == data.subrange(224, 256)
    &&& pool.token_1_program@ == data.subrange(256, 288)
    &&& pool.observation_key@ == data.subrange(288, 320)
    &&& pool.auth_bump == data[320]
    &&& pool.status == data[321]
    &&& pool._padding2 == data[322]
    &&& pool.mint_0_decimals == data[323]
    &&& pool.mint_1_decimals == data[324]
    &&& pool.lp_supply == number_at(data, 325, 8)
    &&& pool.protocol_fees_token_0 == number_at(data, 333, 8)
    &&& pool.protocol_fees_token_1 == number_at(data, 341, 8)
    &&& pool.fund_fees_token_0 == number_at(data, 349, 8)
    &&& pool.fund_fees_token_1 == number_at(data, 357, 8)
    &&& pool.open_time == number_at(data, 365, 8)
    &&& pool.recent_epoch == number_at(data, 373, 8)
    &&& pool.cumulative_trade_fees_token_0 == number_at(data, 381, 16)
    &&& pool.cumulative_trade_fees_token_1 == number_at(data, 397, 16)
    &&& pool.cumulative_volume_token_0 == number_at(data, 413, 16)
    &&& pool.cumulative_volume_token_1 == number_at(data, 429, 16)
    &&& pool.latest_dynamic_fee_rate == number_at(data, 445, 8)
    &&& pool.max_trade_fee_rate == number_at(data, 453, 8)
    &&& pool.volatility_factor == number_at(data, 461, 8)
    &&& pool.token_0_vault_amount == number_at(data, 469, 8)
    &&& pool.token_1_vault_amount == number_at(data, 477, 8)
    &&& pool.max_shared_token0 == number_at(data, 485, 8)
    &&& pool.max_shared_token1 == number_at(data, 493, 8)
    &&& pool.min_trade_rate_at_oracle_price == number_at(data, 501, 4)
    &&& pool.drift_factor == number_at(data, 505, 4)
    &&& pool.max_oracle_price_update_time_diff == number_at(data, 509, 4)
    &&& pool.max_drift_factor == number_at(data, 513, 4)
    &&& pool.oracle_price_delay_fee_rate_per_second == number_at(data, 517, 4)
    &&& pool.max_oracle_price_delay_fee == number_at(data, 521, 4)
    &&& pool._padding3@ == data.subrange(525, 533)
    &&& pool.token_0_amount_in_kamino == number_at(data, 533, 8)
    &&& pool.token_1_amount_in_kamino == number_at(data, 541, 8)
    &&& pool.withdrawn_kamino_profit_token_0 == number_at(data, 549, 8)
    &&& pool.withdrawn_kamino_profit_token_1 == number_at(data, 557, 8)
    &&& pool.partner_share_rate == number_at(data, 565, 8)
    &&& pool.partner_protocol_fees_token_0 == number_at(data, 573, 8)
    &&& pool.partner_protocol_fees_token_1 == number_at(data, 581, 8)
    &&& pool.min_swap_at_spot_price == number_at(data, 589, 8)
    &&& pool.max_swap_at_spot_price == number_at(data, 597, 8)
    &&& pool.padding[0] == number_at(data, 605, 8)
    &&& pool.padding[1] == number_at(data, 613, 8)
    &&& pool.padding[2] == number_at(data, 621, 8)
}

/// What is wrong with the data of a pool's account, if anything is.
pub open spec fn account_error(data: Seq<u8>) -> Option<Error> {
    if data.take(8) != ACCOUNT_DISCRIMINATOR@ {
        Some(Error::InvalidDiscriminator)
    } else if data.len() < 8 + POOL_STATE_SIZE {
        Some(Error::UnexpectedLengthOfInput)
    } else {
        None
    }
}

/// Whether a status has the given bit clear.
pub open spec fn status_bit_clear(status: u8, bit: PoolStatusBitIndex) -> bool {
    match bit {
        PoolStatusBitIndex::Deposit => status % 2 == 0,
        PoolStatusBitIndex::Withdraw => (status / 2) % 2 == 0,
        PoolStatusBitIndex::Swap => (status / 4) % 2 == 0,
    }
}

impl PoolState {
    /// Reads the fields of a pool one after the other.
    fn deserialize(data: &[u8]) -> (result: Result<PoolState, Error>)
        ensures
            result is Ok <==> POOL_STATE_SIZE <= data@.len(),
            result matches Ok(pool) ==> holds_pool_state(data@, pool),
            result matches Err(error) ==> error == Error::UnexpectedLengthOfInput,
    {
        let mut reader = AccountReader::new(data);
        let amm_config = match reader.read_pubkey() {
            Ok(value) => value,
            Err(error) => return Err(error),
        };
        let pool_creator = match reader.read_pubkey() {
            Ok(value) => value,
            Err(error) => return Err(error),
        };
        let token_0_vault = match reader.read_pubkey() {
            Ok(value) => value,
            Err(error) => return Err(error),
        };
        let token_1_vault = match reader.read_pubkey() {
            Ok(value) => value,
            Err(error) => return Err(error),
        };
        let oracle_price_token_0_by_token_1 = match reader.read_u128() {
            Ok(value) => value,
            Err(error) => return Err(error),
        };
        let oracle_price_updated_at = match reader.read_u64() {
            Ok(value) => value,
            Err(error) => return Err(error),
        };
        let acceptable_price_difference = match reader.read_u32() {
            Ok(value) => value,
            Err(error) => return Err(error),
        };
        let max_amount_swappable_at_oracle_price = match reader.read_u32() {
            Ok(value) => value,
            Err(error) => return Err(error),
        };
        let token_0_mint = match reader.read_pubkey() {
            Ok(value) => value,
            Err(error) => return Err(error),
        };
        let token_1_mint = match reader.read_pubkey() {
            Ok(value) => value,
            Err(error) => return Err(error),
        };
        let token_0_program = match reader.read_pubkey() {
            Ok(value) => value,
            Err(error) => return Err(error),
        };
        let token_1_program = match reader.read_pubkey() {
            Ok(value) => value,
            Err(error) => return Err(error),
        };
        let observation_key = match reader.read_pubkey() {
            Ok(value) => value,
            Err(error) => return Err(error),
        };
        let auth_bump = match reader.read_u8() {
            Ok(value) => value,
            Err(error) => return Err(error),
        };
        let status = match reader.read_u8() {
            Ok(value) => value,
            Err(error) => return Err(error),
        };
        let _padding2 = match reader.read_u8() {
            Ok(value) => value,
            Err(error) => return Err(error),
        };
        let mint_0_decimals = match reader.read_u8() {
            Ok(value) => value,
            Err(error) => return Err(error),
        };
        let mint_1_decimals = match reader.read_u8() {
            Ok(value) => value,
            Err(error) => return Err(error),
        };
        let lp_supply = match reader.read_u64() {
            Ok(value) => value,
            Err(error) => return Err(error),
        };
        let protocol_fees_token_0 = match reader.read_u64() {
            Ok(value) => value,
            Err(error) => return Err(error),
        };
        let protocol_fees_token_1 = match reader.read_u64() {
            Ok(value) => value,
            Err(error) => return Err(error),
        };
        let fund_fees_token_0 = match reader.read_u64() {
            Ok(value) => value,
            Err(error) => return Err(error),
        };
        let fund_fees_token_1 = match reader.read_u64() {
            Ok(value) => value,
            Err(error) => return Err(error),
        };
        let open_time = match reader.read_u64() {
            Ok(value) => value,
            Err(error) => return Err(error),
        };
        let recent_epoch = match reader.read_u64() {
            Ok(value) => value,
            Err(error) => return Err(error),
        };
        let cumulative_trade_fees_token_0 = match reader.read_u128() {
            Ok(value) => value,
            Err(error) => return Err(error),
        };
        let cumulative_trade_fees_token_1 = match reader.read_u128() {
            Ok(value) => value,
            Err(error) => return Err(error),
        };
        let cumulative_volume_token_0 = match reader.read_u128() {
            Ok(value) => value,
            Err(error) => return Err(error),
        };
        let cumulative_volume_token_1 = match reader.read_u128() {
            Ok(value) => value,
            Err(error) => return Err(error),
        };
        let latest_dynamic_fee_rate = match reader.read_u64() {
            Ok(value) => value,
            Err(error) => return Err(error),
        };
        let max_trade_fee_rate = match reader.read_u64() {
            Ok(value) => value,
            Err(error) => return Err(error),
        };
        let volatility_factor = match reader.read_u64() {
            Ok(value) => value,
            Err(error) => return Err(error),
        };
        let token_0_vault_amount = match reader.read_u64() {
            Ok(value) => value,
            Err(error) => return Err(error),
        };
        let token_1_vault_amount = match reader.read_u64() {
            Ok(value) => value,
            Err(error) => return Err(error),
        };
        let max_shared_token0 = match reader.read_u64() {
            Ok(value) => value,
            Err(error) => return Err(error),
        };
        let max_shared_token1 = match reader.read_u64() {
            Ok(value) => value,
            Err(error) => return Err(error),
        };
        let min_trade_rate_at_oracle_price = match reader.read_u32() {
            Ok(value) => value,
            Err(error) => return Err(error),
        };
        let drift_factor = match reader.read_u32() {
            Ok(value) => value,
            Err(error) => return Err(error),
        };
        let max_oracle_price_update_time_diff = match reader.read_u32() {
            Ok(value) => value,
            Err(error) => return Err(error),
        };
        let max_drift_factor = match reader.read_u32() {
            Ok(value) => value,
            Err(error) => return Err(error),
        };
        let oracle_price_delay_fee_rate_per_second = match reader.read_u32() {
            Ok(value) => value,
            Err(error) => return Err(error),
        };
        let max_oracle_price_delay_fee = match reader.read_u32() {
            Ok(value) => value,
            Err(error) => return Err(error),
        };
        let _padding3 = match reader.read_8_bytes() {
            Ok(value) => value,
            Err(error) => return Err(error),
        };
        let token_0_amount_in_kamino = match reader.read_u64() {
            Ok(value) => value,
            Err(error) => return Err(error),
        };
        let token_1_amount_in_kamino = match reader.read_u64() {
            Ok(value) => value,
            Err(error) => return Err(error),
        };
        let withdrawn_kamino_profit_token_0 = match reader.read_u64() {
            Ok(value) => value,
            Err(error) => return Err(error),
        };
        let withdrawn_kamino_profit_token_1 = match reader.read_u64() {
            Ok(value) => value,
            Err(error) => return Err(error),
        };
        let partner_share_rate = match reader.read_u64() {
            Ok(value) => value,
            Err(error) => return Err(error),
        };
        let partner_protocol_fees_token_0 = match reader.read_u64() {
            Ok(value) => value,
            Err(error) => return Err(error),
        };
        let partner_protocol_fees_token_1 = match reader.read_u64() {
            Ok(value) => value,
            Err(error) => return Err(error),
        };
        let min_swap_at_spot_price = match reader.read_u64() {
            Ok(value) => value,
            Err(error) => return Err(error),
        };
        let max_swap_at_spot_price = match reader.read_u64() {
            Ok(value) => value,
            Err(error) => return Err(error),
        };
        let padding_0 = match reader.read_u64() {
            Ok(value) => value,
            Err(error) => return Err(error),
        };
        let padding_1 = match reader.read_u64() {
            Ok(value) => value,
            Err(error) => return Err(error),
        };
        let padding_2 = match reader.read_u64() {
            Ok(value) => value,
            Err(error) => return Err(error),
        };
        Ok(
            PoolState {
                amm_config,
                pool_creator,
                token_0_vault,
                token_1_vault,
                oracle_price_token_0_by_token_1,
                oracle_price_updated_at,
                acceptable_price_difference,
                max_amount_swappable_at_oracle_price,
                token_0_mint,
                token_1_mint,
                token_0_program,
                token_1_program,
                observation_key,
                auth_bump,
                status,
                _padding2,
                mint_0_decimals,
                mint_1_decimals,
                lp_supply,
                protocol_fees_token_0,
                protocol_fees_token_1,
                fund_fees_token_0,
                fund_fees_token_1,
                open_time,
                recent_epoch,
                cumulative_trade_fees_token_0,
                cumulative_trade_fees_token_1,
                cumulative_volume_token_0,
                cumulative_volume_token_1,
                latest_dynamic_fee_rate,
                max_trade_fee_rate,
                volatility_factor,
                token_0_vault_amount,
                token_1_vault_amount,
                max_shared_token0,
                max_shared_token1,
                min_trade_rate_at_oracle_price,
                drift_factor,
                max_oracle_price_update_time_diff,
                max_drift_factor,
                oracle_price_delay_fee_rate_per_second,
                max_oracle_price_delay_fee,
                _padding3,
                token_0_amount_in_kamino,
                token_1_amount_in_kamino,
                withdrawn_kamino_profit_token_0,
                withdrawn_kamino_profit_token_1,
                partner_share_rate,
                partner_protocol_fees_token_0,
                partner_protocol_fees_token_1,
                min_swap_at_spot_price,
                max_swap_at_spot_price,
                padding: [padding_0, padding_1, padding_2],
            },
        )
    }

    /// Reads a pool from the data of its account: the discriminator, then the
    /// fields. Data behind the last field are ignored.
    pub fn deserialize_account(data: &[u8]) -> (result: Result<PoolState, Error>)
        requires
            data@.len() >= 8,
        ensures
            match account_error(data@) {
                Some(error) => result == Err::<PoolState, Error>(error),
                None => result matches Ok(pool) && holds_pool_state(data@.skip(8), pool),
            },
    {
        let mut i: usize = 0;
        while i < 8
            invariant
                i <= 8 <= data@.len(),
                forall|j: int| 0 <= j < i ==> data@[j] == ACCOUNT_DISCRIMINATOR@[j],
            decreases 8 - i,
        {
            if data[i] != ACCOUNT_DISCRIMINATOR[i] {
                assert(data@.take(8)[i as int] != ACCOUNT_DISCRIMINATOR@[i as int]);
                return Err(Error::InvalidDiscriminator);
            }
            i = i + 1;
        }
        assert(data@.take(8) =~= ACCOUNT_DISCRIMINATOR@);
        let fields = vstd::slice::slice_subrange(data, 8, data.len());
        assert(fields@ =~= data@.skip(8));
        Self::deserialize(fields)
    }

    /// Whether the operation that the bit stands for is switched on.
    pub fn get_status_by_bit(&self, bit: PoolStatusBitIndex) -> (enabled: bool)
        ensures
            enabled == status_bit_clear(self.status, bit),
    {
        let status: u8 = self.status;
        assert((status & (1u8 << 0u8) == 0) == (status % 2 == 0)) by (bit_vector);
        assert((status & (1u8 << 1u8) == 0) == ((status / 2) % 2 == 0)) by (bit_vector);
        assert((status & (1u8 << 2u8) == 0) == ((status / 4) % 2 == 0)) by (bit_vector);
        let index: u8 = match bit {
            PoolStatusBitIndex::Deposit => 0,
            PoolStatusBitIndex::Withdraw => 1,
            PoolStatusBitIndex::Swap => 2,
        };
        status & (1u8 << index) == 0
    }

    /// The amounts of token 0 and token 1 that the pool's vaults hold for
    /// liquidity providers.
    pub fn vault_amount_without_fee(&self) -> (amounts: Result<(u64, u64), Error>)
        ensures
            amounts == Ok::<(u64, u64), Error>(
                (self.token_0_vault_amount, self.token_1_vault_amount),
            ),
    {
        Ok((self.token_0_vault_amount, self.token_1_vault_amount))
    }
}

} // verus!
