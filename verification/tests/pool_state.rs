use gamma_amm::error::Error;
use gamma_amm::gamma_deseralize_pool_state::{PoolState, ACCOUNT_DISCRIMINATOR, POOL_STATE_SIZE};
use gamma_amm::pubkey::Pubkey;
use gamma_amm::states;
use gamma_amm::states::PoolStatusBitIndex;

fn key(byte: u8) -> Pubkey {
    Pubkey { bytes: [byte; 32] }
}

/// A pool in which every field has a value of its own.
fn distinct_pool() -> PoolState {
    PoolState {
        amm_config: key(1),
        pool_creator: key(2),
        token_0_vault: key(3),
        token_1_vault: key(4),
        oracle_price_token_0_by_token_1: 0x0102_0304_0506_0708_090a_0b0c_0d0e_0f10,
        oracle_price_updated_at: 0x1112_1314_1516_1718,
        acceptable_price_difference: 0x2122_2324,
        max_amount_swappable_at_oracle_price: 0x3132_3334,
        token_0_mint: key(5),
        token_1_mint: key(6),
        token_0_program: key(7),
        token_1_program: key(8),
        observation_key: key(9),
        auth_bump: 10,
        status: 11,
        _padding2: 12,
        mint_0_decimals: 13,
        mint_1_decimals: 14,
        lp_supply: 15,
        protocol_fees_token_0: 16,
        protocol_fees_token_1: 17,
        fund_fees_token_0: 18,
        fund_fees_token_1: 19,
        open_time: 20,
        recent_epoch: 21,
        cumulative_trade_fees_token_0: 22,
        cumulative_trade_fees_token_1: 23,
        cumulative_volume_token_0: 24,
        cumulative_volume_token_1: u128::MAX,
        latest_dynamic_fee_rate: 26,
        max_trade_fee_rate: 27,
        volatility_factor: 28,
        token_0_vault_amount: 29,
        token_1_vault_amount: u64::MAX,
        max_shared_token0: 31,
        max_shared_token1: 32,
        min_trade_rate_at_oracle_price: 33,
        drift_factor: 34,
        max_oracle_price_update_time_diff: 35,
        max_drift_factor: 36,
        oracle_price_delay_fee_rate_per_second: 37,
        max_oracle_price_delay_fee: u32::MAX,
        _padding3: [39, 40, 41, 42, 43, 44, 45, 46],
        token_0_amount_in_kamino: 47,
        token_1_amount_in_kamino: 48,
        withdrawn_kamino_profit_token_0: 49,
        withdrawn_kamino_profit_token_1: 50,
        partner_share_rate: 51,
        partner_protocol_fees_token_0: 52,
        partner_protocol_fees_token_1: 53,
        min_swap_at_spot_price: 54,
        max_swap_at_spot_price: 55,
        padding: [56, 57, 58],
    }
}

/// The account data of a pool.
fn account_data(pool: &PoolState) -> Vec<u8> {
    let mut data = ACCOUNT_DISCRIMINATOR.to_vec();
    data.extend(pool.amm_config.bytes);
    data.extend(pool.pool_creator.bytes);
    data.extend(pool.token_0_vault.bytes);
    data.extend(pool.token_1_vault.bytes);
    data.extend(pool.oracle_price_token_0_by_token_1.to_le_bytes());
    data.extend(pool.oracle_price_updated_at.to_le_bytes());
    data.extend(pool.acceptable_price_difference.to_le_bytes());
    data.extend(pool.max_amount_swappable_at_oracle_price.to_le_bytes());
    data.extend(pool.token_0_mint.bytes);
    data.extend(pool.token_1_mint.bytes);
    data.extend(pool.token_0_program.bytes);
    data.extend(pool.token_1_program.bytes);
    data.extend(pool.observation_key.bytes);
    data.extend([pool.auth_bump, pool.status, pool._padding2]);
    data.extend([pool.mint_0_decimals, pool.mint_1_decimals]);
    for number in [
        pool.lp_supply,
        pool.protocol_fees_token_0,
        pool.protocol_fees_token_1,
        pool.fund_fees_token_0,
        pool.fund_fees_token_1,
        pool.open_time,
        pool.recent_epoch,
    ] {
        data.extend(number.to_le_bytes());
    }
    for number in [
        pool.cumulative_trade_fees_token_0,
        pool.cumulative_trade_fees_token_1,
        pool.cumulative_volume_token_0,
        pool.cumulative_volume_token_1,
    ] {
        data.extend(number.to_le_bytes());
    }
    for number in [
        pool.latest_dynamic_fee_rate,
        pool.max_trade_fee_rate,
        pool.volatility_factor,
        pool.token_0_vault_amount,
        pool.token_1_vault_amount,
        pool.max_shared_token0,
        pool.max_shared_token1,
    ] {
        data.extend(number.to_le_bytes());
    }
    for number in [
        pool.min_trade_rate_at_oracle_price,
        pool.drift_factor,
        pool.max_oracle_price_update_time_diff,
        pool.max_drift_factor,
        pool.oracle_price_delay_fee_rate_per_second,
        pool.max_oracle_price_delay_fee,
    ] {
        data.extend(number.to_le_bytes());
    }
    data.extend(pool._padding3);
    for number in [
        pool.token_0_amount_in_kamino,
        pool.token_1_amount_in_kamino,
        pool.withdrawn_kamino_profit_token_0,
        pool.withdrawn_kamino_profit_token_1,
        pool.partner_share_rate,
        pool.partner_protocol_fees_token_0,
        pool.partner_protocol_fees_token_1,
        pool.min_swap_at_spot_price,
        pool.max_swap_at_spot_price,
        pool.padding[0],
        pool.padding[1],
        pool.padding[2],
    ] {
        data.extend(number.to_le_bytes());
    }
    data
}

#[test]
fn every_field_is_read_from_its_place() {
    let pool = distinct_pool();
    let data = account_data(&pool);
    assert_eq!(data.len(), 8 + POOL_STATE_SIZE);
    let read = PoolState::deserialize_account(&data).unwrap();
    assert_eq!(format!("{:?}", read), format!("{:?}", pool));
    assert_eq!(
        read.oracle_price_token_0_by_token_1,
        0x0102_0304_0506_0708_090a_0b0c_0d0e_0f10
    );
}

#[test]
fn data_behind_the_last_field_are_ignored() {
    let pool = distinct_pool();
    let mut data = account_data(&pool);
    data.extend([1, 2, 3]);
    let read = PoolState::deserialize_account(&data).unwrap();
    assert_eq!(format!("{:?}", read), format!("{:?}", pool));
}

#[test]
fn wrong_discriminator_is_refused() {
    let data = account_data(&distinct_pool());
    for i in 0..8 {
        let mut other = data.clone();
        other[i] ^= 1;
        let error = PoolState::deserialize_account(&other).err();
        assert_eq!(error, Some(Error::InvalidDiscriminator));
    }
    // Nothing behind the discriminator is looked at.
    assert_eq!(
        PoolState::deserialize_account(&[0; 8]).err(),
        Some(Error::InvalidDiscriminator)
    );
}

#[test]
fn short_data_are_refused() {
    let data = account_data(&distinct_pool());
    for len in 8..data.len() {
        let error = PoolState::deserialize_account(&data[..len]).err();
        assert_eq!(error, Some(Error::UnexpectedLengthOfInput));
    }
}

#[test]
fn default_pool_is_all_zeros() {
    let mut data = ACCOUNT_DISCRIMINATOR.to_vec();
    data.extend([0; POOL_STATE_SIZE]);
    let read = PoolState::deserialize_account(&data).unwrap();
    assert_eq!(format!("{:?}", read), format!("{:?}", PoolState::default()));
}

#[test]
fn status_bits_switch_operations_off() {
    for status in 0..8u8 {
        let pool = PoolState { status, ..PoolState::default() };
        assert_eq!(pool.get_status_by_bit(PoolStatusBitIndex::Deposit), status & 1 == 0);
        assert_eq!(pool.get_status_by_bit(PoolStatusBitIndex::Withdraw), status & 2 == 0);
        assert_eq!(pool.get_status_by_bit(PoolStatusBitIndex::Swap), status & 4 == 0);
    }
    let other_bits = PoolState { status: 0xf8, ..PoolState::default() };
    assert!(other_bits.get_status_by_bit(PoolStatusBitIndex::Swap));
}

#[test]
fn vault_amounts_are_those_of_the_pool() {
    assert_eq!(distinct_pool().vault_amount_without_fee(), Ok((29, u64::MAX)));
}

#[test]
fn program_sees_the_shared_fields() {
    let pool = distinct_pool();
    let seen = states::PoolState::from(&pool);
    assert_eq!(seen.amm_config, pool.amm_config);
    assert_eq!(seen.token_1_vault, pool.token_1_vault);
    assert_eq!(seen.observation_key, pool.observation_key);
    assert_eq!(seen.status, 11);
    assert_eq!(seen.cumulative_volume_token_1, u128::MAX);
    assert_eq!(seen.token_0_vault_amount, 29);
    assert_eq!(seen.max_shared_token1, 32);
    assert_eq!(seen.withdrawn_kamino_profit_token_1, 50);
    // What only one of the two forms has is zero.
    assert_eq!(seen._padding1, [0; 32]);
    assert_eq!(seen._padding2, 0);
    assert_eq!(seen.partners[0].bytes, [0; 32]);
    assert_eq!(seen.padding, [0; 8]);
    let converted: states::PoolState = (&pool).into();
    assert_eq!(format!("{:?}", converted), format!("{:?}", seen));
}

#[test]
fn keys_are_compared_byte_by_byte() {
    assert!(key(3).same_as(&key(3)));
    assert!(!key(3).same_as(&key(4)));
    let mut almost = key(3);
    almost.bytes[31] = 0;
    assert!(!key(3).same_as(&almost));
    assert_eq!(Pubkey::default(), key(0));
}
