use gamma_amm::error::{ProgramError, SwapError};
use gamma_amm::gamma_deseralize_pool_state::PoolState;
use gamma_amm::oracle_swap::OracleBasedSwapCalculator;
use gamma_amm::program::{FeeType, PoolProgram, SwapResult, TradeDirection};
use gamma_amm::states;
use gamma_amm::states::{AmmConfig, ObservationState};
use gamma_amm::swap_model::{OracleLeg, OraclePart, SwapRequest, SwapRoute};

const NO_FAULT: u8 = 0;
const CURVE_SWAP_FAILS: u8 = 1;
const FEE_RATE_FAILS: u8 = 2;
const FEE_OVERFLOWS: u8 = 3;
const CURVE_FAILS: u8 = 4;
const NO_PROTOCOL_FEE: u8 = 5;
const NO_FUND_FEE: u8 = 6;
const FEE_EXCEEDS_AMOUNT: u8 = 7;
const CURVE_GIVES_TOO_MUCH: u8 = 8;

/// A constant product program that fails in one place.
struct Program<const FAULT: u8>;

impl<const FAULT: u8> PoolProgram for Program<FAULT> {
    fn curve_swap_base_input(
        source_amount_to_be_swapped: u128,
        swap_source_amount: u128,
        swap_destination_amount: u128,
        amm_config: &AmmConfig,
        pool_state: &states::PoolState,
        block_timestamp: u64,
        observation_state: &ObservationState,
        is_invoked_by_signed_segmenter: bool,
    ) -> Result<SwapResult, ProgramError> {
        if FAULT == CURVE_SWAP_FAILS {
            return Err(ProgramError { code: 1 });
        }
        Ok(SwapResult {
            new_swap_source_amount: swap_source_amount + source_amount_to_be_swapped,
            new_swap_destination_amount: swap_destination_amount - amm_config.data.len() as u128,
            source_amount_swapped: source_amount_to_be_swapped,
            destination_amount_swapped: pool_state.token_0_vault_amount as u128,
            dynamic_fee: block_timestamp as u128,
            protocol_fee: observation_state.data.len() as u128,
            fund_fee: is_invoked_by_signed_segmenter as u128,
            dynamic_fee_rate: amm_config.trade_fee_rate,
        })
    }

    fn dynamic_fee_rate(
        _block_timestamp: u64,
        _observation_state: &ObservationState,
        fee_type: FeeType,
        base_fees: u64,
        _pool_state: &states::PoolState,
        _is_invoked_by_signed_segmenter: bool,
    ) -> Result<u64, ProgramError> {
        if FAULT == FEE_RATE_FAILS {
            return Err(ProgramError { code: 2 });
        }
        match fee_type {
            FeeType::Volatility => Ok(base_fees),
        }
    }

    fn ceil_div(
        token_amount: u128,
        fee_numerator: u128,
        fee_denominator: u128,
    ) -> Option<u128> {
        if FAULT == FEE_OVERFLOWS {
            return None;
        }
        if FAULT == FEE_EXCEEDS_AMOUNT {
            return Some(token_amount + 1);
        }
        Some((token_amount * fee_numerator + fee_denominator - 1) / fee_denominator)
    }

    fn swap_base_input_without_fees(
        source_amount: u128,
        swap_source_amount: u128,
        swap_destination_amount: u128,
    ) -> Result<u128, ProgramError> {
        if FAULT == CURVE_FAILS {
            return Err(ProgramError { code: 3 });
        }
        if FAULT == CURVE_GIVES_TOO_MUCH {
            return Ok(swap_destination_amount + 1);
        }
        Ok(swap_destination_amount * source_amount / (swap_source_amount + source_amount))
    }

    fn protocol_fee(amount: u128, protocol_fee_rate: u64) -> Option<u128> {
        if FAULT == NO_PROTOCOL_FEE {
            return None;
        }
        Some(amount * protocol_fee_rate as u128 / 1_000_000)
    }

    fn fund_fee(amount: u128, fund_fee_rate: u64) -> Option<u128> {
        if FAULT == NO_FUND_FEE {
            return None;
        }
        Some(amount * fund_fee_rate as u128 / 1_000_000)
    }

    fn try_deserialize_amm_config(_data: &[u8]) -> Result<AmmConfig, ProgramError> {
        Ok(config())
    }

    fn try_deserialize_observation_state(data: &[u8]) -> Result<ObservationState, ProgramError> {
        Ok(ObservationState { data: data.to_vec() })
    }
}

const TOKEN_0: u128 = 1_000_000_000;
const TOKEN_1: u128 = 2_000_000_000;
const NOW: u64 = 1_000_030;

fn config() -> AmmConfig {
    AmmConfig {
        trade_fee_rate: 2_500,
        protocol_fee_rate: 120_000,
        fund_fee_rate: 40_000,
        data: vec![4, 5],
    }
}

fn observations() -> ObservationState {
    ObservationState { data: vec![1, 2, 3] }
}

/// Half a token 0 per token 1, as in the vaults, and an oracle that agrees.
fn pool() -> PoolState {
    PoolState {
        token_0_vault_amount: TOKEN_0 as u64,
        token_1_vault_amount: TOKEN_1 as u64,
        oracle_price_token_0_by_token_1: 500_000_000,
        oracle_price_updated_at: 1_000_000,
        max_oracle_price_update_time_diff: 60,
        acceptable_price_difference: 10_000,
        max_amount_swappable_at_oracle_price: 100_000,
        min_trade_rate_at_oracle_price: 3_000,
        drift_factor: 2,
        max_drift_factor: 20_000,
        oracle_price_delay_fee_rate_per_second: 10,
        max_oracle_price_delay_fee: 500,
        ..PoolState::default()
    }
}

fn swap_0_for_1<const FAULT: u8>(
    amount: u128,
    pool: &PoolState,
    now: u64,
) -> Result<SwapResult, SwapError> {
    OracleBasedSwapCalculator::swap_base_input::<Program<FAULT>>(
        amount,
        TOKEN_0,
        TOKEN_1,
        &config(),
        pool,
        now,
        &observations(),
        true,
    )
}

fn swap_1_for_0(amount: u128, pool: &PoolState) -> Result<SwapResult, SwapError> {
    OracleBasedSwapCalculator::swap_base_input::<Program<NO_FAULT>>(
        amount,
        TOKEN_1,
        TOKEN_0,
        &config(),
        pool,
        NOW,
        &observations(),
        true,
    )
}

fn curve_result(amount: u128, now: u64) -> SwapResult {
    SwapResult {
        new_swap_source_amount: TOKEN_0 + amount,
        new_swap_destination_amount: TOKEN_1 - 2,
        source_amount_swapped: amount,
        destination_amount_swapped: TOKEN_0,
        dynamic_fee: now as u128,
        protocol_fee: 3,
        fund_fee: 1,
        dynamic_fee_rate: 2_500,
    }
}

fn amount_at_oracle_price(amount: u128, pool: &PoolState) -> Result<u128, SwapError> {
    OracleBasedSwapCalculator::get_amount_to_be_swapped_at_oracle_price(
        amount,
        TOKEN_0,
        TOKEN_1,
        2_000_000_000,
        pool,
    )
}

#[test]
fn amount_is_capped_by_the_limit_price() {
    assert_eq!(amount_at_oracle_price(50_000_000, &pool()), Ok(5_025_125));
}

#[test]
fn amount_is_capped_by_what_is_asked_for() {
    assert_eq!(amount_at_oracle_price(1_000_000, &pool()), Ok(1_000_000));
    assert_eq!(amount_at_oracle_price(0, &pool()), Ok(0));
}

#[test]
fn amount_is_capped_by_the_share_of_the_pool() {
    let pool = PoolState { max_amount_swappable_at_oracle_price: 1_000, ..pool() };
    assert_eq!(amount_at_oracle_price(50_000_000, &pool), Ok(1_000_000));
}

#[test]
fn amount_of_a_pool_below_the_limit_price_is_the_distance_to_it() {
    // The limit price is 1.98, the spot price 1.9.
    let amount = OracleBasedSwapCalculator::get_amount_to_be_swapped_at_oracle_price(
        u128::MAX,
        TOKEN_0,
        1_900_000_000,
        2_000_000_000,
        &pool(),
    );
    assert_eq!(amount, Ok(80_000_000 * 1_000_000_000 / 3_980_000_000));
}

#[test]
fn amount_overflows() {
    let calculate = OracleBasedSwapCalculator::get_amount_to_be_swapped_at_oracle_price;
    let pool = pool();
    // The share of the pool, the limit price, the pool's worth at it, the
    // destination amount, and the sum of the prices.
    assert_eq!(calculate(1, u128::MAX, 1, 1, &pool), Err(SwapError::MathOverflow));
    assert_eq!(calculate(1, 1, 1, u128::MAX, &pool), Err(SwapError::MathOverflow));
    assert_eq!(calculate(1, 1 << 100, 1, 1 << 60, &pool), Err(SwapError::MathOverflow));
    assert_eq!(calculate(1, 1, u128::MAX, 1, &pool), Err(SwapError::MathOverflow));
    assert_eq!(calculate(1, 1, 1, 0, &pool), Err(SwapError::MathOverflow));
    let too_tolerant = PoolState { acceptable_price_difference: 1_000_001, ..pool };
    assert_eq!(calculate(1, 1, 1, 1, &too_tolerant), Err(SwapError::MathOverflow));
    let tolerant = PoolState { acceptable_price_difference: 1_000_000, ..pool };
    assert_eq!(calculate(1, 1_000, 1, 1, &tolerant), Ok(1));
}

#[test]
fn rate_difference_is_symmetric_and_rounded_down() {
    let difference = OracleBasedSwapCalculator::get_spot_price_and_oracle_price_rate_difference;
    assert_eq!(difference(2_000_000_000, 1_980_000_000), Ok(10_000));
    assert_eq!(difference(2_000_000_000, 2_020_000_000), Ok(10_000));
    assert_eq!(difference(3, 4), Ok(333_333));
    assert_eq!(difference(5, 5), Ok(0));
}

#[test]
fn rate_difference_grows_with_distance() {
    let difference = OracleBasedSwapCalculator::get_spot_price_and_oracle_price_rate_difference;
    assert_eq!(difference(1_000, 900), Ok(100_000));
    assert_eq!(difference(1_000, 800), Ok(200_000));
}

#[test]
fn rate_difference_overflows() {
    let difference = OracleBasedSwapCalculator::get_spot_price_and_oracle_price_rate_difference;
    assert_eq!(difference(0, 1), Err(SwapError::MathOverflow));
    assert_eq!(difference(1, u128::MAX), Err(SwapError::MathOverflow));
}

#[test]
fn drift_fee_is_the_distance_after_the_swap_times_the_factor() {
    let fee = OracleBasedSwapCalculator::get_drift_fee(
        5_000_000,
        TOKEN_0,
        TOKEN_1,
        2_000_000_000,
        &pool(),
    );
    assert_eq!(fee, Ok(19_900));
}

#[test]
fn drift_fee_is_capped() {
    let pool = PoolState { max_drift_factor: 5_000, ..pool() };
    let fee = OracleBasedSwapCalculator::get_drift_fee(
        5_000_000,
        TOKEN_0,
        TOKEN_1,
        2_000_000_000,
        &pool,
    );
    assert_eq!(fee, Ok(5_000));
}

#[test]
fn drift_fee_overflows() {
    let fee = OracleBasedSwapCalculator::get_drift_fee;
    let pool = pool();
    assert_eq!(fee(2, 1, 1, u128::MAX, &pool), Err(SwapError::MathOverflow));
    assert_eq!(fee(1, u128::MAX, 1, 1, &pool), Err(SwapError::MathOverflow));
    // More would come out than there is.
    assert_eq!(fee(2, 1, 1, 1_000_000_000, &pool), Err(SwapError::MathOverflow));
    assert_eq!(fee(1, 1, u128::MAX, 1, &pool), Err(SwapError::MathOverflow));
    assert_eq!(fee(0, 0, 1, 1, &pool), Err(SwapError::MathOverflow));
    assert_eq!(fee(1, 1, 1, 0, &pool), Err(SwapError::MathOverflow));
    let steep = PoolState { drift_factor: u32::MAX, ..pool };
    assert_eq!(fee(0, 1, 1 << 70, 1, &steep), Err(SwapError::MathOverflow));
}

#[test]
fn price_delay_fee_grows_with_age_up_to_a_cap() {
    let fee = OracleBasedSwapCalculator::get_price_delay_fee;
    assert_eq!(fee(1_000_030, &pool()), Ok(300));
    assert_eq!(fee(1_000_031, &pool()), Ok(310));
    assert_eq!(fee(2_000_000, &pool()), Ok(500));
    // A price from the future.
    assert_eq!(fee(999_999, &pool()), Ok(0));
    assert_eq!(fee(u64::MAX, &pool()), Err(SwapError::MathOverflow));
}

#[test]
fn swap_is_split_between_oracle_price_and_curve() {
    assert_eq!(
        swap_0_for_1::<NO_FAULT>(50_000_000, &pool(), NOW),
        Ok(SwapResult {
            new_swap_source_amount: 1_050_000_000,
            new_swap_destination_amount: 1_905_141_939,
            source_amount_swapped: 50_000_000,
            destination_amount_swapped: 94_858_061,
            dynamic_fee: 229_514,
            protocol_fee: 27_541,
            fund_fee: 9_180,
            dynamic_fee_rate: 4_590,
        })
    );
}

#[test]
fn swap_in_the_other_direction_uses_the_price_as_it_is() {
    let pool = PoolState { min_trade_rate_at_oracle_price: 1_000, ..pool() };
    assert_eq!(
        swap_1_for_0(50_000_000, &pool),
        Ok(SwapResult {
            new_swap_source_amount: 2_050_000_000,
            new_swap_destination_amount: 975_744_999,
            source_amount_swapped: 50_000_000,
            destination_amount_swapped: 24_255_001,
            dynamic_fee: 329_021,
            protocol_fee: 39_482,
            fund_fee: 13_160,
            dynamic_fee_rate: 6_580,
        })
    );
}

#[test]
fn small_swap_is_settled_at_the_oracle_price() {
    assert_eq!(
        swap_0_for_1::<NO_FAULT>(1_000_000, &pool(), NOW),
        Ok(SwapResult {
            new_swap_source_amount: 1_001_000_000,
            new_swap_destination_amount: 1_998_014_592,
            source_amount_swapped: 1_000_000,
            destination_amount_swapped: 1_985_408,
            dynamic_fee: 7_296,
            protocol_fee: 875,
            fund_fee: 291,
            dynamic_fee_rate: 7_296,
        })
    );
}

#[test]
fn swap_without_a_usable_oracle_price_goes_to_the_curve() {
    let amount = 1_000_000;
    let on_curve = Ok(curve_result(amount, NOW));
    let old = PoolState { max_oracle_price_update_time_diff: 29, ..pool() };
    assert_eq!(swap_0_for_1::<NO_FAULT>(amount, &old, NOW), on_curve);
    let never = PoolState { oracle_price_updated_at: 0, ..pool() };
    assert_eq!(swap_0_for_1::<NO_FAULT>(amount, &never, NOW), on_curve);
    let none = PoolState { oracle_price_token_0_by_token_1: 0, ..pool() };
    assert_eq!(swap_0_for_1::<NO_FAULT>(amount, &none, NOW), on_curve);
    assert_eq!(
        swap_0_for_1::<NO_FAULT>(amount, &pool(), 999_999),
        Ok(curve_result(amount, 999_999))
    );
    // On the last second of the oracle price it is still used.
    let fresh = PoolState { max_oracle_price_update_time_diff: 30, ..pool() };
    assert_ne!(swap_0_for_1::<NO_FAULT>(amount, &fresh, NOW), on_curve);
}

#[test]
fn swap_at_a_price_far_below_the_oracle_goes_to_the_curve() {
    // The oracle says 2.5 for a spot price of 2.
    let pool = PoolState { oracle_price_token_0_by_token_1: 400_000_000, ..pool() };
    assert_eq!(
        swap_0_for_1::<NO_FAULT>(1_000_000, &pool, NOW),
        Ok(curve_result(1_000_000, NOW))
    );
}

#[test]
fn swap_at_a_price_above_the_oracle_is_not_left_to_the_curve() {
    // The oracle says 1.6 for a spot price of 2.
    let pool = PoolState {
        oracle_price_token_0_by_token_1: 625_000_000,
        max_drift_factor: 0,
        ..pool()
    };
    let result = swap_0_for_1::<NO_FAULT>(1_000_000, &pool, NOW);
    // A fee of 3300 millionths, and 1.6 for the rest.
    assert_eq!(
        result,
        Ok(SwapResult {
            new_swap_source_amount: 1_001_000_000,
            new_swap_destination_amount: 1_998_405_280,
            source_amount_swapped: 1_000_000,
            destination_amount_swapped: 1_594_720,
            dynamic_fee: 3_300,
            protocol_fee: 396,
            fund_fee: 132,
            dynamic_fee_rate: 3_300,
        })
    );
}

#[test]
fn swap_of_which_nothing_can_be_at_the_oracle_price_goes_to_the_curve() {
    let pool = PoolState { max_amount_swappable_at_oracle_price: 0, ..pool() };
    assert_eq!(
        swap_0_for_1::<NO_FAULT>(1_000_000, &pool, NOW),
        Ok(curve_result(1_000_000, NOW))
    );
    assert_eq!(swap_0_for_1::<NO_FAULT>(0, &pool, NOW), Ok(curve_result(0, NOW)));
}

#[test]
fn equal_vaults_are_taken_as_token_0_going_in() {
    let pool = PoolState {
        token_0_vault_amount: TOKEN_0 as u64,
        token_1_vault_amount: TOKEN_0 as u64,
        oracle_price_token_0_by_token_1: 1_000_000_000,
        ..pool()
    };
    let request = SwapRequest {
        source_amount_to_be_swapped: 1_000,
        swap_source_amount: TOKEN_0,
        swap_destination_amount: TOKEN_0,
        amm_config: &config(),
        pool_state: &pool,
        block_timestamp: NOW,
    };
    assert_eq!(
        request.find_route(),
        Ok(SwapRoute::Oracle(OraclePart {
            trade_direction: TradeDirection::ZeroForOne,
            oracle_price: 1_000_000_000,
            amount_to_be_swapped_at_oracle_price: 1_000,
            amount_to_be_swapped_with_invariant_curve: 0,
        }))
    );
}

#[test]
fn program_errors_are_passed_on() {
    let none = PoolState { oracle_price_token_0_by_token_1: 0, ..pool() };
    let program_error = |code| Err(SwapError::Program(ProgramError { code }));
    assert_eq!(swap_0_for_1::<CURVE_SWAP_FAILS>(1, &none, NOW), program_error(1));
    assert_eq!(swap_0_for_1::<FEE_RATE_FAILS>(1_000, &pool(), NOW), program_error(2));
    assert_eq!(swap_0_for_1::<CURVE_FAILS>(1_000, &pool(), NOW), program_error(3));
}

#[test]
fn fees_without_a_value_are_refused() {
    let overflow = Err(SwapError::MathOverflow);
    let invalid = Err(SwapError::InvalidFee);
    assert_eq!(swap_0_for_1::<FEE_OVERFLOWS>(1_000, &pool(), NOW), overflow);
    assert_eq!(swap_0_for_1::<FEE_EXCEEDS_AMOUNT>(1_000, &pool(), NOW), overflow);
    assert_eq!(swap_0_for_1::<NO_PROTOCOL_FEE>(1_000, &pool(), NOW), invalid);
    assert_eq!(swap_0_for_1::<NO_FUND_FEE>(1_000, &pool(), NOW), invalid);
}

#[test]
fn more_than_the_pool_has_is_refused() {
    assert_eq!(
        swap_0_for_1::<CURVE_GIVES_TOO_MUCH>(1_000, &pool(), NOW),
        Err(SwapError::MathOverflow)
    );
}

#[test]
fn swap_of_an_empty_pool_overflows() {
    let result = OracleBasedSwapCalculator::swap_base_input::<Program<NO_FAULT>>(
        1,
        0,
        TOKEN_1,
        &config(),
        &pool(),
        NOW,
        &observations(),
        false,
    );
    assert_eq!(result, Err(SwapError::MathOverflow));
}

#[test]
fn price_range_is_kept() {
    // Token 1 goes in; the price afterwards is 475973170.
    let within = PoolState {
        min_trade_rate_at_oracle_price: 1_000,
        min_swap_at_spot_price: 475_973_170,
        max_swap_at_spot_price: 475_973_170,
        ..pool()
    };
    assert!(swap_1_for_0(50_000_000, &within).is_ok());
    let too_low = PoolState {
        min_swap_at_spot_price: 475_973_171,
        max_swap_at_spot_price: 500_000_000,
        ..within
    };
    assert_eq!(swap_1_for_0(50_000_000, &too_low), Err(SwapError::SwapNotAllowed));
    let too_high = PoolState {
        min_swap_at_spot_price: 1,
        max_swap_at_spot_price: 475_973_169,
        ..within
    };
    assert_eq!(swap_1_for_0(50_000_000, &too_high), Err(SwapError::SwapNotAllowed));
}

#[test]
fn price_range_with_one_end_is_no_range() {
    let no_maximum = PoolState { min_swap_at_spot_price: u64::MAX, ..pool() };
    assert!(swap_1_for_0(50_000_000, &no_maximum).is_ok());
    let no_minimum = PoolState { max_swap_at_spot_price: 1, ..pool() };
    assert!(swap_1_for_0(50_000_000, &no_minimum).is_ok());
}

#[test]
fn proper_price_range_refuses_token_0() {
    // The inverses of 0.4 and 0.6 are the wrong way round.
    let pool = PoolState {
        min_swap_at_spot_price: 400_000_000,
        max_swap_at_spot_price: 600_000_000,
        ..pool()
    };
    assert_eq!(
        swap_0_for_1::<NO_FAULT>(1_000_000, &pool, NOW),
        Err(SwapError::SwapNotAllowed)
    );
    assert!(swap_1_for_0(1_000_000, &pool).is_ok());
}

fn request_of<'a>(pool: &'a PoolState, config: &'a AmmConfig) -> SwapRequest<'a> {
    SwapRequest {
        source_amount_to_be_swapped: 50_000_000,
        swap_source_amount: TOKEN_0,
        swap_destination_amount: TOKEN_1,
        amm_config: config,
        pool_state: pool,
        block_timestamp: NOW,
    }
}

fn split() -> OraclePart {
    OraclePart {
        trade_direction: TradeDirection::ZeroForOne,
        oracle_price: 2_000_000_000,
        amount_to_be_swapped_at_oracle_price: 5_025_125,
        amount_to_be_swapped_with_invariant_curve: 44_974_875,
    }
}

#[test]
fn route_splits_the_amount() {
    let (pool, config) = (pool(), config());
    assert_eq!(request_of(&pool, &config).find_route(), Ok(SwapRoute::Oracle(split())));
}

#[test]
fn trade_rate_adds_drift_and_delay_to_the_larger_rate() {
    let (pool, config) = (pool(), config());
    let request = request_of(&pool, &config);
    assert_eq!(request.find_oracle_trade_rate(&split(), 2_500), Ok(3_000 + 19_998 + 300));
    assert_eq!(request.find_oracle_trade_rate(&split(), 7_000), Ok(7_000 + 19_998 + 300));
    assert_eq!(
        request.find_oracle_trade_rate(&split(), u64::MAX),
        Err(SwapError::MathOverflow)
    );
    assert_eq!(
        request.find_oracle_trade_rate(&split(), u64::MAX - 19_998),
        Err(SwapError::MathOverflow)
    );
}

#[test]
fn oracle_part_keeps_the_limit_price() {
    let (pool, config) = (pool(), config());
    let request = request_of(&pool, &config);
    let leg = request.swap_at_oracle_price(&split(), Some(117_076));
    assert_eq!(
        leg,
        Ok(OracleLeg {
            trade_fees: 117_076,
            output_tokens: 9_816_098,
            new_swap_source_amount: 1_005_025_125,
            new_swap_destination_amount: 1_990_183_902,
        })
    );
    assert!(1_990_183_902 * 1_000_000_000 / 1_005_025_125 >= 1_980_000_000u128);
    assert_eq!(request.swap_at_oracle_price(&split(), None), Err(SwapError::MathOverflow));
}

#[test]
fn fees_of_both_parts_are_charged() {
    let (pool, config) = (pool(), config());
    let request = request_of(&pool, &config);
    let leg = request.swap_at_oracle_price(&split(), Some(117_076)).unwrap();
    let curve = request.prepare_curve(&split(), &leg, Some(112_438)).unwrap();
    assert_eq!(curve.source_amount_after_fees, 44_862_437);
    assert_eq!(curve.trade_fee_charged, 229_514);
    assert_eq!(curve.trade_fee_rate, 4_590);
    assert_eq!(
        request.prepare_curve(&split(), &leg, None),
        Err(SwapError::MathOverflow)
    );
    let nothing = SwapRequest { source_amount_to_be_swapped: 0, ..request };
    assert_eq!(
        nothing.prepare_curve(&split(), &leg, Some(1)),
        Err(SwapError::MathOverflow)
    );
    let huge = OracleLeg { trade_fees: u128::MAX / 1_000_000, ..leg };
    assert_eq!(
        nothing.prepare_curve(&split(), &huge, Some(1)),
        Err(SwapError::MathOverflow)
    );
}

#[test]
fn outputs_are_added_up() {
    let (pool, config) = (pool(), config());
    let request = request_of(&pool, &config);
    let leg = request.swap_at_oracle_price(&split(), Some(117_076)).unwrap();
    assert_eq!(request.add_outputs(&leg, Ok(85_041_963)), Ok(94_858_061));
    assert_eq!(request.add_outputs(&leg, Ok(u128::MAX)), Err(SwapError::MathOverflow));
    assert_eq!(
        request.add_outputs(&leg, Err(ProgramError { code: 9 })),
        Err(SwapError::Program(ProgramError { code: 9 }))
    );
}

#[test]
fn swap_errors_have_words() {
    assert_eq!(SwapError::MathOverflow.message(), "Math overflow");
    assert_eq!(SwapError::InvalidFee.message(), "Invalid fee");
    assert_eq!(SwapError::SwapNotAllowed.message(), "Swap in not allowed");
    assert_eq!(SwapError::Program(ProgramError { code: 0 }).message(), "Program error");
}

#[test]
fn same_swap_has_the_same_result() {
    let once = swap_0_for_1::<NO_FAULT>(50_000_000, &pool(), NOW);
    assert!(once.is_ok());
    assert_eq!(swap_0_for_1::<NO_FAULT>(50_000_000, &pool(), NOW), once);
}
