use gamma_amm::accounts::{
    find_mint, get_unfrozen_token_amount, try_get_account_data, AccountData,
};
use gamma_amm::decimal::Fraction;
use gamma_amm::error::{Error, ProgramError, SwapError};
use gamma_amm::gamma::{
    ClockReading, Gamma, Quote, QuoteParams, QuotePlan, SwapParams, TokenMints,
};
use gamma_amm::gamma_deseralize_pool_state::{PoolState, ACCOUNT_DISCRIMINATOR};
use gamma_amm::program::{FeeType, PoolProgram, SwapResult};
use gamma_amm::pubkey::Pubkey;
use gamma_amm::states;
use gamma_amm::states::{AmmConfig, ObservationState};
use gamma_amm::token::{deduct_transfer_fee, MintState, TransferFee, TransferFeeConfig};

/// A constant product program. A swap of a whole amount gives what the
/// observations say: the amount that comes out, then the fee.
struct Program;

impl PoolProgram for Program {
    fn curve_swap_base_input(
        source_amount_to_be_swapped: u128,
        swap_source_amount: u128,
        swap_destination_amount: u128,
        _amm_config: &AmmConfig,
        _pool_state: &states::PoolState,
        _block_timestamp: u64,
        observation_state: &ObservationState,
        _is_invoked_by_signed_segmenter: bool,
    ) -> Result<SwapResult, ProgramError> {
        let data = &observation_state.data;
        if data.len() != 32 {
            return Err(ProgramError { code: 5 });
        }
        let number = |at: usize| u128::from_le_bytes(data[at..at + 16].try_into().unwrap());
        Ok(SwapResult {
            new_swap_source_amount: swap_source_amount,
            new_swap_destination_amount: swap_destination_amount,
            source_amount_swapped: source_amount_to_be_swapped,
            destination_amount_swapped: number(0),
            dynamic_fee: number(16),
            protocol_fee: 0,
            fund_fee: 0,
            dynamic_fee_rate: 0,
        })
    }

    fn dynamic_fee_rate(
        _block_timestamp: u64,
        _observation_state: &ObservationState,
        _fee_type: FeeType,
        base_fees: u64,
        _pool_state: &states::PoolState,
        _is_invoked_by_signed_segmenter: bool,
    ) -> Result<u64, ProgramError> {
        Ok(base_fees)
    }

    fn ceil_div(
        token_amount: u128,
        fee_numerator: u128,
        fee_denominator: u128,
    ) -> Option<u128> {
        Some((token_amount * fee_numerator + fee_denominator - 1) / fee_denominator)
    }

    fn swap_base_input_without_fees(
        source_amount: u128,
        swap_source_amount: u128,
        swap_destination_amount: u128,
    ) -> Result<u128, ProgramError> {
        Ok(swap_destination_amount * source_amount / (swap_source_amount + source_amount))
    }

    fn protocol_fee(amount: u128, protocol_fee_rate: u64) -> Option<u128> {
        Some(amount * protocol_fee_rate as u128 / 1_000_000)
    }

    fn fund_fee(amount: u128, fund_fee_rate: u64) -> Option<u128> {
        Some(amount * fund_fee_rate as u128 / 1_000_000)
    }

    fn try_deserialize_amm_config(data: &[u8]) -> Result<AmmConfig, ProgramError> {
        if data.len() != 3 {
            return Err(ProgramError { code: 6 });
        }
        Ok(AmmConfig {
            trade_fee_rate: data[0] as u64,
            protocol_fee_rate: data[1] as u64,
            fund_fee_rate: data[2] as u64,
            data: data.to_vec(),
        })
    }

    fn try_deserialize_observation_state(data: &[u8]) -> Result<ObservationState, ProgramError> {
        if data.is_empty() {
            return Err(ProgramError { code: 7 });
        }
        Ok(ObservationState { data: data.to_vec() })
    }
}

const NOW: ClockReading = ClockReading { epoch: 100, unix_timestamp: 1_000_030 };

fn key(byte: u8) -> Pubkey {
    Pubkey { bytes: [byte; 32] }
}

const POOL: u8 = 1;
const CONFIG: u8 = 2;
const VAULT_0: u8 = 3;
const VAULT_1: u8 = 4;
const MINT_0: u8 = 5;
const MINT_1: u8 = 6;
const TOKEN_PROGRAM_0: u8 = 7;
const TOKEN_PROGRAM_1: u8 = 8;
const OBSERVATIONS: u8 = 9;

fn pool_state() -> PoolState {
    PoolState {
        amm_config: key(CONFIG),
        token_0_vault: key(VAULT_0),
        token_1_vault: key(VAULT_1),
        oracle_price_token_0_by_token_1: 500_000_000,
        oracle_price_updated_at: 1_000_000,
        acceptable_price_difference: 10_000,
        max_amount_swappable_at_oracle_price: 100_000,
        token_0_mint: key(MINT_0),
        token_1_mint: key(MINT_1),
        token_0_program: key(TOKEN_PROGRAM_0),
        token_1_program: key(TOKEN_PROGRAM_1),
        observation_key: key(OBSERVATIONS),
        auth_bump: 254,
        open_time: 1_000_000,
        token_0_vault_amount: 1_000_000_000,
        token_1_vault_amount: 2_000_000_000,
        min_trade_rate_at_oracle_price: 3_000,
        drift_factor: 2,
        max_oracle_price_update_time_diff: 60,
        max_drift_factor: 20_000,
        oracle_price_delay_fee_rate_per_second: 10,
        max_oracle_price_delay_fee: 500,
        ..PoolState::default()
    }
}

fn pool_account_data() -> Vec<u8> {
    let pool = pool_state();
    let mut data = vec![0; 637];
    let mut put = |at: usize, bytes: &[u8]| {
        data[8 + at..8 + at + bytes.len()].copy_from_slice(bytes);
    };
    put(0, &pool.amm_config.bytes);
    put(64, &pool.token_0_vault.bytes);
    put(96, &pool.token_1_vault.bytes);
    put(128, &pool.oracle_price_token_0_by_token_1.to_le_bytes());
    put(144, &pool.oracle_price_updated_at.to_le_bytes());
    put(152, &pool.acceptable_price_difference.to_le_bytes());
    put(156, &pool.max_amount_swappable_at_oracle_price.to_le_bytes());
    put(160, &pool.token_0_mint.bytes);
    put(192, &pool.token_1_mint.bytes);
    put(224, &pool.token_0_program.bytes);
    put(256, &pool.token_1_program.bytes);
    put(288, &pool.observation_key.bytes);
    put(320, &[pool.auth_bump]);
    put(365, &pool.open_time.to_le_bytes());
    put(469, &pool.token_0_vault_amount.to_le_bytes());
    put(477, &pool.token_1_vault_amount.to_le_bytes());
    put(501, &pool.min_trade_rate_at_oracle_price.to_le_bytes());
    put(505, &pool.drift_factor.to_le_bytes());
    put(509, &pool.max_oracle_price_update_time_diff.to_le_bytes());
    put(513, &pool.max_drift_factor.to_le_bytes());
    put(517, &pool.oracle_price_delay_fee_rate_per_second.to_le_bytes());
    put(521, &pool.max_oracle_price_delay_fee.to_le_bytes());
    data[..8].copy_from_slice(&ACCOUNT_DISCRIMINATOR);
    data
}

const OLDER_FEE: TransferFee =
    TransferFee { epoch: 10, maximum_fee: u64::MAX, transfer_fee_basis_points: 50 };
const NEWER_FEE: TransferFee =
    TransferFee { epoch: 100, maximum_fee: 1_000, transfer_fee_basis_points: 100 };
const FEES: TransferFeeConfig =
    TransferFeeConfig { older_transfer_fee: OLDER_FEE, newer_transfer_fee: NEWER_FEE };

/// A mint without extensions.
fn mint_data() -> Vec<u8> {
    let mut data = vec![0; 82];
    data[44] = 6;
    data[45] = 1;
    data
}

/// A mint with a fee on transfers.
fn mint_data_with_fees() -> Vec<u8> {
    let mut data = mint_data();
    data.resize(165, 0);
    // The type of the account, then the type and the length of the extension.
    data.push(1);
    data.extend(1u16.to_le_bytes());
    data.extend(108u16.to_le_bytes());
    data.extend([0; 72]);
    for fee in [OLDER_FEE, NEWER_FEE] {
        data.extend(fee.epoch.to_le_bytes());
        data.extend(fee.maximum_fee.to_le_bytes());
        data.extend(fee.transfer_fee_basis_points.to_le_bytes());
    }
    data
}

fn token_account_data(amount: u64, frozen: bool) -> Vec<u8> {
    let mut data = vec![0; 165];
    data[64..72].copy_from_slice(&amount.to_le_bytes());
    data[108] = if frozen { 2 } else { 1 };
    data
}

fn account(byte: u8, data: Vec<u8>) -> AccountData {
    AccountData { key: key(byte), data }
}

fn all_accounts() -> Vec<AccountData> {
    vec![
        account(POOL, pool_account_data()),
        account(VAULT_0, token_account_data(1_234, false)),
        account(VAULT_1, token_account_data(5_678, true)),
        account(CONFIG, vec![250, 12, 4]),
        account(MINT_0, mint_data_with_fees()),
        account(MINT_1, mint_data()),
        account(OBSERVATIONS, vec![1, 2, 3]),
    ]
}

fn accounts_without(byte: u8) -> Vec<AccountData> {
    all_accounts().into_iter().filter(|account| account.key != key(byte)).collect()
}

fn accounts_with(byte: u8, data: Vec<u8>) -> Vec<AccountData> {
    let mut accounts = accounts_without(byte);
    accounts.push(account(byte, data));
    accounts
}

fn new_pool() -> Gamma {
    Gamma::from_keyed_account(key(POOL), &pool_account_data()).unwrap()
}

fn mints(fees_0: Option<TransferFeeConfig>, fees_1: Option<TransferFeeConfig>) -> TokenMints {
    TokenMints {
        token0: key(MINT_0),
        token1: key(MINT_1),
        token0_mint: MintState { transfer_fee_config: fees_0 },
        token1_mint: MintState { transfer_fee_config: fees_1 },
        token0_program: key(TOKEN_PROGRAM_0),
        token1_program: key(TOKEN_PROGRAM_1),
    }
}

/// A pool with all that a quote needs, and no fees on transfers.
fn known_pool() -> Gamma {
    Gamma {
        key: key(POOL),
        pool_state: pool_state(),
        amm_config: Some(AmmConfig {
            trade_fee_rate: 2_500,
            protocol_fee_rate: 120_000,
            fund_fee_rate: 40_000,
            data: vec![],
        }),
        vault_0_amount: None,
        vault_1_amount: None,
        token_mints_and_token_programs: Some(mints(None, None)),
        observation_state: Some(ObservationState { data: vec![1] }),
    }
}

/// The same without an oracle price: what comes out and the fee are given.
fn curve_pool(destination: u128, fee: u128) -> Gamma {
    let mut data = destination.to_le_bytes().to_vec();
    data.extend(fee.to_le_bytes());
    let mut pool = known_pool();
    pool.pool_state.oracle_price_token_0_by_token_1 = 0;
    pool.observation_state = Some(ObservationState { data });
    pool
}

fn quote_of(pool: &Gamma, amount: u64, mint: u8) -> Result<Quote, Error> {
    pool.quote::<Program>(&QuoteParams { amount, input_mint: key(mint) }, &NOW)
}

fn quote_error(pool: &Gamma, amount: u64) -> Option<Error> {
    quote_of(pool, amount, MINT_0).err()
}

#[test]
fn quote_of_a_split_swap() {
    let quote = quote_of(&known_pool(), 50_000_000, MINT_0).unwrap();
    assert_eq!(quote.in_amount, 50_000_000);
    assert_eq!(quote.out_amount, 94_858_061);
    assert_eq!(quote.fee_amount, 229_514);
    assert_eq!(quote.fee_mint, key(MINT_0));
    assert_eq!(quote.fee_pct, Fraction { mantissa: 459_028, scale: 8 });
}

#[test]
fn quote_in_the_other_direction() {
    let mut pool = known_pool();
    pool.pool_state.min_trade_rate_at_oracle_price = 1_000;
    let quote = quote_of(&pool, 50_000_000, MINT_1).unwrap();
    assert_eq!(quote.out_amount, 24_255_001);
    assert_eq!(quote.fee_amount, 329_021);
    assert_eq!(quote.fee_mint, key(MINT_1));
    // Any other mint is taken for token 1.
    let other = quote_of(&pool, 50_000_000, 77).unwrap();
    assert_eq!(other.out_amount, 24_255_001);
    assert_eq!(other.fee_mint, key(77));
}

#[test]
fn quote_takes_off_the_fee_of_the_transfer_in() {
    let mut pool = known_pool();
    pool.token_mints_and_token_programs = Some(mints(Some(FEES), None));
    let quote = quote_of(&pool, 50_001_000, MINT_0).unwrap();
    assert_eq!(quote.in_amount, 50_000_000);
    assert_eq!(quote.out_amount, 94_858_061);
}

#[test]
fn quote_takes_off_the_fee_of_the_transfer_out() {
    let mut pool = known_pool();
    pool.token_mints_and_token_programs = Some(mints(None, Some(FEES)));
    let quote = quote_of(&pool, 50_000_000, MINT_0).unwrap();
    assert_eq!(quote.in_amount, 50_000_000);
    assert_eq!(quote.out_amount, 94_858_061 - 1_000);
    let earlier = ClockReading { epoch: 99, ..NOW };
    let params = QuoteParams { amount: 50_000_000, input_mint: key(MINT_0) };
    let quote = pool.quote::<Program>(&params, &earlier).unwrap();
    assert_eq!(quote.out_amount, 94_858_061 - 474_291);
}

#[test]
fn pool_that_is_switched_off_is_not_quoted() {
    let mut pool = known_pool();
    pool.pool_state.status = 4;
    assert_eq!(quote_error(&pool, 1_000), Some(Error::PoolNotTrading));
    pool.pool_state.status = 3;
    assert_eq!(quote_error(&pool, 1_000), None);
}

#[test]
fn pool_is_quoted_from_its_open_time_on() {
    let mut pool = known_pool();
    pool.pool_state.open_time = 1_000_030;
    assert_eq!(quote_error(&pool, 1_000), None);
    pool.pool_state.open_time = 1_000_031;
    assert_eq!(quote_error(&pool, 1_000), Some(Error::PoolNotTrading));
}

#[test]
fn time_before_the_epoch_is_far_in_the_future() {
    let mut pool = curve_pool(7, 0);
    pool.pool_state.open_time = u64::MAX;
    let params = QuoteParams { amount: 1_000, input_mint: key(MINT_0) };
    let clock = ClockReading { unix_timestamp: -1, ..NOW };
    assert_eq!(pool.quote::<Program>(&params, &clock).unwrap().out_amount, 7);
    let clock = ClockReading { unix_timestamp: -2, ..NOW };
    assert_eq!(pool.quote::<Program>(&params, &clock).err(), Some(Error::PoolNotTrading));
}

#[test]
fn quote_of_an_unknown_pool_misses_something() {
    let no_config = Gamma { amm_config: None, ..known_pool() };
    assert_eq!(quote_error(&no_config, 1_000), Some(Error::MissingAmmConfig));
    let no_mints = Gamma { token_mints_and_token_programs: None, ..known_pool() };
    assert_eq!(quote_error(&no_mints, 1_000), Some(Error::MissingTokenMints));
    let no_observations = Gamma { observation_state: None, ..known_pool() };
    assert_eq!(quote_error(&no_observations, 1_000), Some(Error::MissingObservationState));
    assert_eq!(quote_error(&no_observations, 0), Some(Error::AmountTooLow));
    assert_eq!(quote_error(&new_pool(), 1_000), Some(Error::MissingAmmConfig));
}

#[test]
fn quote_of_nothing_is_refused() {
    assert_eq!(quote_error(&known_pool(), 0), Some(Error::AmountTooLow));
    let all = TransferFee { epoch: 0, maximum_fee: u64::MAX, transfer_fee_basis_points: 10_000 };
    let fees = TransferFeeConfig { older_transfer_fee: all, newer_transfer_fee: all };
    let mut pool = known_pool();
    pool.token_mints_and_token_programs = Some(mints(Some(fees), None));
    assert_eq!(quote_error(&pool, 1_000), Some(Error::AmountTooLow));
}

#[test]
fn fee_that_is_no_amount_is_refused() {
    let absurd =
        TransferFee { epoch: 0, maximum_fee: u64::MAX, transfer_fee_basis_points: u16::MAX };
    let fees = TransferFeeConfig { older_transfer_fee: absurd, newer_transfer_fee: absurd };
    let mut pool = known_pool();
    pool.token_mints_and_token_programs = Some(mints(Some(fees), None));
    assert_eq!(quote_error(&pool, u64::MAX), Some(Error::FeeCalculationFailure));
    let mut pool = curve_pool(u64::MAX as u128, 0);
    pool.token_mints_and_token_programs = Some(mints(None, Some(fees)));
    assert_eq!(quote_error(&pool, 1_000), Some(Error::FeeCalculationFailure));
}

#[test]
fn failed_swap_fails_the_quote() {
    let mut pool = known_pool();
    pool.pool_state.oracle_price_token_0_by_token_1 = 0;
    assert_eq!(
        quote_error(&pool, 1_000),
        Some(Error::SwapFailed(SwapError::Program(ProgramError { code: 5 })))
    );
}

#[test]
fn amount_out_must_be_a_token_amount() {
    let most = u64::MAX as u128;
    assert_eq!(quote_of(&curve_pool(most, 0), 1_000, MINT_0).unwrap().out_amount, u64::MAX);
    assert_eq!(quote_error(&curve_pool(most + 1, 0), 1_000), Some(Error::AmountOutOfRange));
}

#[test]
fn fee_must_be_a_decimal() {
    assert_eq!(quote_error(&curve_pool(1, 1 << 96), 1_000), Some(Error::MathOverflow));
    let quote = quote_of(&curve_pool(1, (1 << 96) - 1), 1, MINT_0).unwrap();
    assert_eq!(quote.fee_pct, Fraction { mantissa: (1 << 96) - 1, scale: 0 });
    // The fee amount keeps the lower sixty-four bits.
    assert_eq!(quote.fee_amount, u64::MAX);
    let quote = quote_of(&curve_pool(1, (1 << 64) + 5), 1, MINT_0).unwrap();
    assert_eq!(quote.fee_amount, 5);
}

#[test]
fn fee_share_is_a_decimal_fraction() {
    let share = |fee, amount| quote_of(&curve_pool(1, fee), amount, MINT_0).unwrap().fee_pct;
    assert_eq!(share(25, 1_000), Fraction { mantissa: 25, scale: 3 });
    assert_eq!(share(0, 1_000), Fraction { mantissa: 0, scale: 0 });
    assert_eq!(share(6, 3), Fraction { mantissa: 2, scale: 0 });
    assert_eq!(
        share(1, 3),
        Fraction { mantissa: 3_333_333_333_333_333_333_333_333_333, scale: 28 }
    );
}

#[test]
fn quote_with_nothing_in_has_no_fee_share() {
    let plan = QuotePlan {
        amount_in: 0,
        source_amount: 1,
        destination_amount: 1,
        destination_fee_config: None,
    };
    let swap = SwapResult {
        new_swap_source_amount: 1,
        new_swap_destination_amount: 1,
        source_amount_swapped: 0,
        destination_amount_swapped: 0,
        dynamic_fee: 0,
        protocol_fee: 0,
        fund_fee: 0,
        dynamic_fee_rate: 0,
    };
    let error = plan.make_quote(&key(MINT_0), 0, &swap).err();
    assert_eq!(error, Some(Error::FailedToDivide));
}

#[test]
fn plan_names_the_amounts_of_both_tokens() {
    let mut pool = known_pool();
    pool.token_mints_and_token_programs = Some(mints(None, Some(FEES)));
    let params = QuoteParams { amount: 9, input_mint: key(MINT_0) };
    let plan = pool.plan_quote(&params, &NOW).unwrap();
    assert_eq!((plan.amount_in, plan.source_amount), (9, 1_000_000_000));
    assert_eq!(plan.destination_amount, 2_000_000_000);
    assert_eq!(plan.destination_fee_config, Some(FEES));
    let params = QuoteParams { amount: 100, input_mint: key(MINT_1) };
    let plan = pool.plan_quote(&params, &NOW).unwrap();
    assert_eq!((plan.amount_in, plan.source_amount), (99, 2_000_000_000));
    assert_eq!(plan.destination_amount, 1_000_000_000);
    assert_eq!(plan.destination_fee_config, None);
}

#[test]
fn new_pool_knows_its_state_alone() {
    let pool = new_pool();
    assert_eq!(pool.key(), key(POOL));
    assert_eq!(format!("{:?}", pool.pool_state), format!("{:?}", pool_state()));
    assert!(pool.amm_config.is_none());
    assert!(pool.vault_0_amount.is_none() && pool.vault_1_amount.is_none());
    assert!(pool.token_mints_and_token_programs.is_none());
    assert!(pool.observation_state.is_none());
    let bad = Gamma::from_keyed_account(key(POOL), &[0; 637]);
    assert_eq!(bad.err(), Some(Error::InvalidDiscriminator));
    let short = Gamma::from_keyed_account(key(POOL), &ACCOUNT_DISCRIMINATOR);
    assert_eq!(short.err(), Some(Error::UnexpectedLengthOfInput));
}

#[test]
fn pool_names_itself_and_its_accounts() {
    let pool = new_pool();
    assert_eq!(pool.label(), "GAMMA");
    assert_eq!(pool.get_reserve_mints(), vec![key(MINT_0), key(MINT_1)]);
    assert_eq!(
        pool.get_accounts_to_update(),
        vec![key(POOL), key(VAULT_0), key(VAULT_1), key(CONFIG), key(MINT_0), key(MINT_1)]
    );
    assert_eq!(pool.get_accounts_len(), 14);
}

#[test]
fn update_reads_all_accounts() {
    let mut pool = new_pool();
    pool.pool_state = PoolState::default();
    assert_eq!(pool.update::<Program>(&all_accounts()), Ok(()));
    assert_eq!(pool.key(), key(POOL));
    assert_eq!(format!("{:?}", pool.pool_state), format!("{:?}", pool_state()));
    let config = AmmConfig {
        trade_fee_rate: 250,
        protocol_fee_rate: 12,
        fund_fee_rate: 4,
        data: vec![250, 12, 4],
    };
    assert_eq!(pool.amm_config, Some(config));
    assert_eq!(pool.vault_0_amount, Some(1_234));
    // A frozen vault has nothing to give.
    assert_eq!(pool.vault_1_amount, None);
    let known = pool.token_mints_and_token_programs.unwrap();
    assert_eq!(format!("{:?}", known), format!("{:?}", mints(Some(FEES), None)));
    assert_eq!(pool.observation_state, Some(ObservationState { data: vec![1, 2, 3] }));
    assert_eq!(quote_error(&pool, 50_000_000), None);
}

#[test]
fn second_update_finds_the_same() {
    let mut pool = new_pool();
    pool.update::<Program>(&all_accounts()).unwrap();
    let once = format!("{:?}", pool);
    pool.update::<Program>(&all_accounts()).unwrap();
    assert_eq!(format!("{:?}", pool), once);
    let mut reversed = all_accounts();
    reversed.reverse();
    pool.update::<Program>(&reversed).unwrap();
    assert_eq!(format!("{:?}", pool), once);
}

#[test]
fn update_forgets_the_earlier_pool() {
    let mut pool = new_pool();
    pool.update::<Program>(&all_accounts()).unwrap();
    let mut other = curve_pool(1, 2);
    other.pool_state = PoolState::default();
    other.vault_0_amount = Some(9);
    other.vault_1_amount = Some(9);
    other.update::<Program>(&all_accounts()).unwrap();
    assert_eq!(format!("{:?}", other), format!("{:?}", pool));
}

#[test]
fn quote_ignores_key_and_vault_balances() {
    let pool = known_pool();
    let other = Gamma {
        key: key(99),
        vault_0_amount: Some(1),
        vault_1_amount: Some(2),
        ..known_pool()
    };
    let quote = quote_of(&pool, 50_000_000, MINT_0).unwrap();
    let same = quote_of(&other, 50_000_000, MINT_0).unwrap();
    assert_eq!(format!("{:?}", quote), format!("{:?}", same));
    assert_eq!(quote_error(&other, 0), quote_error(&pool, 0));
}

fn failed_update(accounts: Vec<AccountData>) -> (Gamma, Error) {
    let mut pool = new_pool();
    let error = pool.update::<Program>(&accounts).unwrap_err();
    assert_eq!(pool.key(), key(POOL));
    (pool, error)
}

#[test]
fn update_without_the_pool_changes_nothing() {
    let unchanged = format!("{:?}", new_pool());
    let (pool, error) = failed_update(accounts_without(POOL));
    assert_eq!(error, Error::AccountNotFound(key(POOL)));
    assert_eq!(format!("{:?}", pool), unchanged);
    let (pool, error) = failed_update(accounts_with(POOL, vec![0; 637]));
    assert_eq!(error, Error::InvalidDiscriminator);
    assert_eq!(format!("{:?}", pool), unchanged);
    let (pool, error) = failed_update(accounts_with(POOL, ACCOUNT_DISCRIMINATOR.to_vec()));
    assert_eq!(error, Error::UnexpectedLengthOfInput);
    assert_eq!(format!("{:?}", pool), unchanged);
}

#[test]
fn update_needs_both_mints() {
    let (pool, error) = failed_update(accounts_without(MINT_0));
    assert_eq!(error, Error::Token0MintNotFound);
    assert!(pool.token_mints_and_token_programs.is_none());
    assert_eq!(failed_update(accounts_with(MINT_0, vec![0; 82])).1, Error::Token0MintNotFound);
    assert_eq!(failed_update(accounts_without(MINT_1)).1, Error::Token1MintNotFound);
    assert_eq!(failed_update(accounts_with(MINT_1, vec![])).1, Error::Token1MintNotFound);
}

#[test]
fn update_keeps_what_it_has_read() {
    let (pool, error) = failed_update(accounts_without(CONFIG));
    assert_eq!(error, Error::AccountNotFound(key(CONFIG)));
    assert!(pool.token_mints_and_token_programs.is_some());
    assert!(pool.amm_config.is_none());
    let (_, error) = failed_update(accounts_with(CONFIG, vec![]));
    assert_eq!(error, Error::Program(ProgramError { code: 6 }));
    let (pool, error) = failed_update(accounts_without(OBSERVATIONS));
    assert_eq!(error, Error::AccountNotFound(key(OBSERVATIONS)));
    assert!(pool.amm_config.is_some());
    assert!(pool.observation_state.is_none());
    let (pool, error) = failed_update(accounts_with(OBSERVATIONS, vec![]));
    assert_eq!(error, Error::Program(ProgramError { code: 7 }));
    assert!(pool.vault_0_amount.is_none());
}

#[test]
fn listed_accounts_lack_the_observations() {
    let listed = new_pool().get_accounts_to_update();
    let accounts: Vec<AccountData> =
        all_accounts().into_iter().filter(|account| listed.contains(&account.key)).collect();
    assert_eq!(accounts.len(), 6);
    assert_eq!(failed_update(accounts).1, Error::AccountNotFound(key(OBSERVATIONS)));
}

#[test]
fn update_does_not_need_the_vaults() {
    let mut pool = new_pool();
    let mut accounts = accounts_without(VAULT_0);
    accounts.retain(|account| account.key != key(VAULT_1));
    accounts.push(account(VAULT_1, vec![1, 2, 3]));
    assert_eq!(pool.update::<Program>(&accounts), Ok(()));
    assert_eq!(pool.vault_0_amount, None);
    assert_eq!(pool.vault_1_amount, None);
}

#[test]
fn accounts_are_found_by_address() {
    let accounts = all_accounts();
    assert_eq!(try_get_account_data(&accounts, &key(CONFIG)).unwrap(), &[250, 12, 4]);
    assert_eq!(
        try_get_account_data(&accounts, &key(99)).unwrap_err(),
        Error::AccountNotFound(key(99))
    );
    // The first of two counts.
    let twice = vec![account(1, vec![10]), account(1, vec![20])];
    assert_eq!(try_get_account_data(&twice, &key(1)).unwrap(), &[10]);
}

#[test]
fn mints_and_token_accounts_are_unpacked() {
    let accounts = all_accounts();
    let with_fees = MintState { transfer_fee_config: Some(FEES) };
    assert_eq!(find_mint(&accounts, &key(MINT_0)), Some(with_fees));
    assert_eq!(
        find_mint(&accounts, &key(MINT_1)),
        Some(MintState { transfer_fee_config: None })
    );
    assert_eq!(find_mint(&accounts, &key(CONFIG)), None);
    assert_eq!(find_mint(&accounts, &key(99)), None);
    assert_eq!(get_unfrozen_token_amount(&accounts, &key(VAULT_0)), Some(1_234));
    assert_eq!(get_unfrozen_token_amount(&accounts, &key(VAULT_1)), None);
    assert_eq!(get_unfrozen_token_amount(&accounts, &key(MINT_1)), None);
}

#[test]
fn transfer_fee_is_that_of_the_epoch() {
    let config = Some(FEES);
    assert_eq!(deduct_transfer_fee(&config, 99, 1_000_001), Some(1_000_001 - 5_001));
    assert_eq!(deduct_transfer_fee(&config, 100, 1_000_001), Some(1_000_001 - 1_000));
    assert_eq!(deduct_transfer_fee(&config, 100, 1_001), Some(1_001 - 11));
    assert_eq!(deduct_transfer_fee(&config, 100, 0), Some(0));
    assert_eq!(deduct_transfer_fee(&None, 100, 1_001), Some(1_001));
}

#[test]
fn transfer_fee_above_the_amount_leaves_nothing() {
    let fee = TransferFee { epoch: 0, maximum_fee: u64::MAX, transfer_fee_basis_points: 20_000 };
    let config = Some(TransferFeeConfig { older_transfer_fee: fee, newer_transfer_fee: fee });
    assert_eq!(deduct_transfer_fee(&config, 0, 1_000), Some(0));
    assert_eq!(deduct_transfer_fee(&config, 0, u64::MAX), None);
    let fee = TransferFee { maximum_fee: 1, transfer_fee_basis_points: 0, ..fee };
    let config = Some(TransferFeeConfig { older_transfer_fee: fee, newer_transfer_fee: fee });
    assert_eq!(deduct_transfer_fee(&config, 0, 1_000), Some(1_000));
}

#[test]
fn authority_is_the_program_address_of_seed_and_bump() {
    let seed = b"vault_and_lp_mint_auth_seed";
    let id = solana_pubkey::Pubkey::new_from_array([11; 32]);
    let (found, bump) = solana_pubkey::Pubkey::find_program_address(&[seed], &id);
    let mut pool = new_pool();
    pool.pool_state.auth_bump = bump;
    let expected = Pubkey { bytes: found.to_bytes() };
    assert_eq!(pool.get_authority(seed, &key(11)), Some(expected));
    let mut without = 0;
    for bump in 0..=255u8 {
        pool.pool_state.auth_bump = bump;
        let direct = solana_pubkey::Pubkey::create_program_address(&[seed, &[bump]], &id).ok();
        let authority = pool.get_authority(seed, &key(11));
        assert_eq!(authority.map(|key| key.bytes), direct.map(|key| key.to_bytes()));
        without += authority.is_none() as u32;
    }
    assert!(0 < without && without < 256);
}

fn swap_params(mint: u8) -> SwapParams {
    SwapParams {
        source_mint: key(mint),
        source_token_account: key(21),
        destination_token_account: key(22),
        token_transfer_authority: key(23),
    }
}

#[test]
fn swap_accounts_follow_the_direction() {
    let pool = known_pool();
    let accounts = pool.list_swap_accounts(&swap_params(MINT_0), Some(key(24))).unwrap();
    assert_eq!(accounts.payer, key(23));
    assert_eq!(accounts.authority, key(24));
    assert_eq!(accounts.amm_config, key(CONFIG));
    assert_eq!(accounts.pool_state, key(POOL));
    assert_eq!(accounts.input_token_account, key(21));
    assert_eq!(accounts.output_token_account, key(22));
    assert_eq!(accounts.input_vault, key(VAULT_0));
    assert_eq!(accounts.output_vault, key(VAULT_1));
    assert_eq!(accounts.input_token_program, key(TOKEN_PROGRAM_0));
    assert_eq!(accounts.output_token_program, key(TOKEN_PROGRAM_1));
    assert_eq!(accounts.input_token_mint, key(MINT_0));
    assert_eq!(accounts.output_token_mint, key(MINT_1));
    assert_eq!(accounts.observation_state, key(OBSERVATIONS));
    let opposite = pool.list_swap_accounts(&swap_params(MINT_1), Some(key(24))).unwrap();
    assert_eq!(opposite.input_vault, accounts.output_vault);
    assert_eq!(opposite.output_vault, accounts.input_vault);
    assert_eq!(opposite.input_token_program, accounts.output_token_program);
    assert_eq!(opposite.output_token_program, accounts.input_token_program);
    assert_eq!(opposite.input_token_mint, accounts.output_token_mint);
    assert_eq!(opposite.output_token_mint, accounts.input_token_mint);
}

#[test]
fn swap_accounts_need_mints_and_an_authority() {
    let params = swap_params(MINT_0);
    let no_mints = Gamma { token_mints_and_token_programs: None, ..known_pool() };
    assert_eq!(
        no_mints.list_swap_accounts(&params, None).err(),
        Some(Error::MissingTokenMints)
    );
    assert_eq!(
        known_pool().list_swap_accounts(&params, None).err(),
        Some(Error::NoAuthority)
    );
    let seed = b"seed";
    let id = solana_pubkey::Pubkey::new_from_array([11; 32]);
    let (_, bump) = solana_pubkey::Pubkey::find_program_address(&[seed], &id);
    let mut pool = known_pool();
    pool.pool_state.auth_bump = bump;
    let accounts = pool.get_swap_and_account_metas(&params, seed, &key(11)).unwrap();
    assert_eq!(Some(accounts.authority), pool.get_authority(seed, &key(11)));
    assert_eq!(accounts.input_vault, key(VAULT_0));
    // A seed that is too long gives no address.
    let error = pool.get_swap_and_account_metas(&params, &[0; 33], &key(11)).err();
    assert_eq!(error, Some(Error::NoAuthority));
}

#[test]
fn errors_have_words() {
    assert_eq!(Error::PoolNotTrading.message(), "Pool is not trading");
    assert_eq!(Error::MissingAmmConfig.message(), "Missing AmmConfig");
    assert_eq!(Error::MissingTokenMints.message(), "Missing token mints and token programs");
    assert_eq!(Error::MissingObservationState.message(), "Missing observation state");
    assert_eq!(Error::FeeCalculationFailure.message(), "Fee calculation failure");
    assert_eq!(Error::AmountTooLow.message(), "Amount too low");
    assert_eq!(Error::SwapFailed(SwapError::InvalidFee).message(), "swap failed");
    assert_eq!(Error::MathOverflow.message(), "Math overflow");
    assert_eq!(Error::FailedToDivide.message(), "Failed to divide");
    assert_eq!(Error::InvalidDiscriminator.message(), "Invalid discriminator");
    assert_eq!(Error::UnexpectedLengthOfInput.message(), "Unexpected length of input");
    assert_eq!(Error::Token0MintNotFound.message(), "Token 0 mint not found");
    assert_eq!(Error::Token1MintNotFound.message(), "Token 1 mint not found");
    let failed: Result<u64, _> = u64::try_from(u128::MAX);
    assert_eq!(Error::AmountOutOfRange.message(), format!("{}", failed.unwrap_err()));
}
