//! A Gamma pool, as a router sees it.

use vstd::prelude::*;

use crate::accounts;
use crate::accounts::AccountData;
use crate::decimal;
use crate::decimal::Fraction;
use crate::error::{Error, ProgramError, SwapError};
use crate::gamma_deseralize_pool_state;
use crate::gamma_deseralize_pool_state::PoolState;
use crate::oracle_swap::OracleBasedSwapCalculator;
use crate::program::{PoolProgram, SwapResult};
use crate::pubkey;
use crate::pubkey::Pubkey;
use crate::states::{AmmConfig, ObservationState, PoolStatusBitIndex};
use crate::swap_model;
use crate::swap_model::SwapRequest;
use crate::token;
use crate::token::{MintState, TransferFeeConfig};

verus! {

/// The two tokens of a pool.
#[derive(Clone, Copy, Debug)]
pub struct TokenMints {
    pub token0: Pubkey,
    pub token1: Pubkey,
    pub token0_mint: MintState,
    pub token1_mint: MintState,
    pub token0_program: Pubkey,
    pub token1_program: Pubkey,
}

/// A pool and what was last read about it.
#[derive(Clone, Debug)]
pub struct Gamma {
    pub key: Pubkey,
    pub pool_state: PoolState,
    pub amm_config: Option<AmmConfig>,
    pub vault_0_amount: Option<u64>,
    pub vault_1_amount: Option<u64>,
    pub token_mints_and_token_programs: Option<TokenMints>,
    pub observation_state: Option<ObservationState>,
}

/// The time at which a quote is made.
#[derive(Clone, Copy, Debug)]
pub struct ClockReading {
    pub epoch: u64,
    pub unix_timestamp: i64,
}

/// What a quote is asked for.
#[derive(Clone, Copy, Debug)]
pub struct QuoteParams {
    pub amount: u64,
    pub input_mint: Pubkey,
}

/// What a swap would give.
#[derive(Clone, Copy, Debug)]
pub struct Quote {
    pub in_amount: u64,
    pub out_amount: u64,
    pub fee_amount: u64,
    pub fee_mint: Pubkey,
    /// The fee as a fraction of the amount that goes in.
    pub fee_pct: Fraction,
}

/// What is known of a quote before the swap is computed.
#[derive(Clone, Copy, Debug)]
pub struct QuotePlan {
    /// What arrives in the pool.
    pub amount_in: u64,
    /// The pool's amounts of the two tokens.
    pub source_amount: u64,
    pub destination_amount: u64,
    /// The fee on the transfer out of the pool.
    pub destination_fee_config: Option<TransferFeeConfig>,
}

impl ClockReading {
    /// The seconds, with a time before the epoch wrapped round to the far end.
    pub open spec fn seconds(self) -> int {
        if self.unix_timestamp >= 0 {
            self.unix_timestamp as int
        } else {
            self.unix_timestamp + 0x1_0000_0000_0000_0000
        }
    }

    fn timestamp(&self) -> (seconds: u64)
        ensures
            seconds == self.seconds(),
    {
        let time: i64 = self.unix_timestamp;
        assert(time < 0 ==> time as u64 == time + 0x1_0000_0000_0000_0000) by (bit_vector);
        #[verifier::truncate]
        (time as u64)
    }
}

impl QuotePlan {
    /// The swap on which the quote is based.
    pub open spec fn request<'a>(
        self,
        amm_config: &'a AmmConfig,
        pool_state: &'a PoolState,
        block_timestamp: u64,
    ) -> SwapRequest<'a> {
        SwapRequest {
            source_amount_to_be_swapped: self.amount_in as u128,
            swap_source_amount: self.source_amount as u128,
            swap_destination_amount: self.destination_amount as u128,
            amm_config,
            pool_state,
            block_timestamp,
        }
    }

    /// The quote, once the swap has a result.
    pub open spec fn quote(self, input_mint: Pubkey, epoch: u64, swap: SwapResult) -> Result<
        Quote,
        Error,
    > {
        let destination = swap.destination_amount_swapped;
        let amount_out = token::amount_after_transfer(
            self.destination_fee_config,
            epoch,
            destination as u64,
        );
        let fee_pct = decimal::quotient(
            Fraction { mantissa: swap.dynamic_fee as i128, scale: 0 },
            Fraction { mantissa: self.amount_in as i128, scale: 0 },
        );
        if destination > u64::MAX {
            Err(Error::AmountOutOfRange)
        } else if amount_out is None {
            Err(Error::FeeCalculationFailure)
        } else if swap.dynamic_fee >= decimal::MANTISSA_BOUND {
            Err(Error::MathOverflow)
        } else if fee_pct is None {
            Err(Error::FailedToDivide)
        } else {
            Ok(
                Quote {
                    in_amount: self.amount_in,
                    out_amount: amount_out->0,
                    fee_amount: (swap.dynamic_fee % 0x1_0000_0000_0000_0000) as u64,
                    fee_mint: input_mint,
                    fee_pct: fee_pct->0,
                },
            )
        }
    }

    /// Makes the quote of a swap's result.
    pub fn make_quote(&self, input_mint: &Pubkey, epoch: u64, swap: &SwapResult) -> (result: Result<
        Quote,
        Error,
    >)
        ensures
            result == self.quote(*input_mint, epoch, *swap),
            self.amount_in > 0 ==> result != Err::<Quote, Error>(Error::FailedToDivide),
    {
        if swap.destination_amount_swapped > u64::MAX as u128 {
            return Err(Error::AmountOutOfRange);
        }
        let amount_out: u64 = swap.destination_amount_swapped as u64;
        let actual_amount_out = match token::deduct_transfer_fee(
            &self.destination_fee_config,
            epoch,
            amount_out,
        ) {
            Some(value) => value,
            None => return Err(Error::FeeCalculationFailure),
        };
        let fee = match decimal::from_u128(swap.dynamic_fee) {
            Some(value) => value,
            None => return Err(Error::MathOverflow),
        };
        let amount_in = match decimal::from_u64(self.amount_in) {
            Some(value) => value,
            None => return Err(Error::MathOverflow),
        };
        let fee_pct = match decimal::checked_div(fee, amount_in) {
            Some(value) => value,
            None => return Err(Error::FailedToDivide),
        };
        let dynamic_fee: u128 = swap.dynamic_fee;
        assert(dynamic_fee as u64 == dynamic_fee % 0x1_0000_0000_0000_0000u128) by (bit_vector);
        Ok(
            Quote {
                in_amount: self.amount_in,
                out_amount: actual_amount_out,
                fee_amount: #[verifier::truncate] (dynamic_fee as u64),
                fee_mint: *input_mint,
                fee_pct,
            },
        )
    }
}

impl Gamma {
    /// Whether the pool can be traded at this time.
    pub open spec fn is_trading(self, clock: ClockReading) -> bool {
        &&& gamma_deseralize_pool_state::status_bit_clear(
            self.pool_state.status,
            PoolStatusBitIndex::Swap,
        )
        &&& self.pool_state.open_time <= clock.seconds()
    }

    /// What is known of a quote before the swap is computed.
    pub open spec fn quote_plan(self, params: QuoteParams, clock: ClockReading) -> Result<
        QuotePlan,
        Error,
    > {
        let zero_for_one = params.input_mint == self.pool_state.token_0_mint;
        let mints = self.token_mints_and_token_programs->0;
        let config_0 = mints.token0_mint.transfer_fee_config;
        let config_1 = mints.token1_mint.transfer_fee_config;
        let (source_config, destination_config) = if zero_for_one {
            (config_0, config_1)
        } else {
            (config_1, config_0)
        };
        let amount_in = token::amount_after_transfer(source_config, clock.epoch, params.amount);
        if !self.is_trading(clock) {
            Err(Error::PoolNotTrading)
        } else if self.amm_config is None {
            Err(Error::MissingAmmConfig)
        } else if self.token_mints_and_token_programs is None {
            Err(Error::MissingTokenMints)
        } else if amount_in is None {
            Err(Error::FeeCalculationFailure)
        } else if amount_in == Some(0u64) {
            Err(Error::AmountTooLow)
        } else if self.observation_state is None {
            Err(Error::MissingObservationState)
        } else {
            Ok(
                QuotePlan {
                    amount_in: amount_in->0,
                    source_amount: if zero_for_one {
                        self.pool_state.token_0_vault_amount
                    } else {
                        self.pool_state.token_1_vault_amount
                    },
                    destination_amount: if zero_for_one {
                        self.pool_state.token_1_vault_amount
                    } else {
                        self.pool_state.token_0_vault_amount
                    },
                    destination_fee_config: destination_config,
                },
            )
        }
    }

    /// Checks that the pool can be quoted and works out what goes into it.
    pub fn plan_quote(&self, params: &QuoteParams, clock: &ClockReading) -> (result: Result<
        QuotePlan,
        Error,
    >)
        ensures
            result == self.quote_plan(*params, *clock),
    {
        if !self.pool_state.get_status_by_bit(PoolStatusBitIndex::Swap) || clock.timestamp()
            < self.pool_state.open_time {
            return Err(Error::PoolNotTrading);
        }
        if self.amm_config.is_none() {
            return Err(Error::MissingAmmConfig);
        }
        let zero_for_one: bool = params.input_mint.same_as(&self.pool_state.token_0_mint);
        let mints = match &self.token_mints_and_token_programs {
            Some(mints) => mints,
            None => return Err(Error::MissingTokenMints),
        };
        let (source_config, destination_config) = if zero_for_one {
            (mints.token0_mint.transfer_fee_config, mints.token1_mint.transfer_fee_config)
        } else {
            (mints.token1_mint.transfer_fee_config, mints.token0_mint.transfer_fee_config)
        };
        let actual_amount_in = match token::deduct_transfer_fee(
            &source_config,
            clock.epoch,
            params.amount,
        ) {
            Some(value) => value,
            None => return Err(Error::FeeCalculationFailure),
        };
        if actual_amount_in == 0 {
            return Err(Error::AmountTooLow);
        }
        let (total_token_0_amount, total_token_1_amount) =
            match self.pool_state.vault_amount_without_fee() {
            Ok(amounts) => amounts,
            Err(error) => return Err(error),
        };
        if self.observation_state.is_none() {
            return Err(Error::MissingObservationState);
        }
        Ok(
            QuotePlan {
                amount_in: actual_amount_in,
                source_amount: if zero_for_one {
                    total_token_0_amount
                } else {
                    total_token_1_amount
                },
                destination_amount: if zero_for_one {
                    total_token_1_amount
                } else {
                    total_token_0_amount
                },
                destination_fee_config: destination_config,
            },
        )
    }

    /// Whether a quote can end in this result: it follows from a result that
    /// the swap can have.
    pub open spec fn quote_gives<P: PoolProgram>(
        self,
        params: QuoteParams,
        clock: ClockReading,
        result: Result<Quote, Error>,
    ) -> bool {
        match self.quote_plan(params, clock) {
            Err(error) => result == Err::<Quote, Error>(error),
            Ok(plan) => exists|swap: Result<SwapResult, SwapError>|
                #[trigger] swap_model::swap_gives::<P>(
                    plan.request(
                        &self.amm_config->0,
                        &self.pool_state,
                        clock.seconds() as u64,
                    ),
                    self.observation_state->0,
                    false,
                    swap,
                ) && result == (match swap {
                    Err(error) => Err(Error::SwapFailed(error)),
                    Ok(swap) => plan.quote(params.input_mint, clock.epoch, swap),
                }),
        }
    }

    /// Quotes a swap of an amount of one of the pool's tokens.
    pub fn quote<P: PoolProgram>(&self, params: &QuoteParams, clock: &ClockReading) -> (result:
        Result<Quote, Error>)
        ensures
            self.quote_gives::<P>(*params, *clock, result),
            result != Err::<Quote, Error>(Error::FailedToDivide),
    {
        let plan = match self.plan_quote(params, clock) {
            Ok(plan) => plan,
            Err(error) => return Err(error),
        };
        let amm_config = match &self.amm_config {
            Some(value) => value,
            None => return Err(Error::MissingAmmConfig),
        };
        let observation_state = match &self.observation_state {
            Some(value) => value,
            None => return Err(Error::MissingObservationState),
        };
        let swap = OracleBasedSwapCalculator::swap_base_input::<P>(
            plan.amount_in as u128,
            plan.source_amount as u128,
            plan.destination_amount as u128,
            amm_config,
            &self.pool_state,
            clock.timestamp(),
            observation_state,
            false,
        );
        assert(swap_model::swap_gives::<P>(
            plan.request(amm_config, &self.pool_state, clock.seconds() as u64),
            *observation_state,
            false,
            swap,
        ));
        match swap {
            Ok(result) => plan.make_quote(&params.input_mint, clock.epoch, &result),
            Err(error) => Err(Error::SwapFailed(error)),
        }
    }

    /// The pool whose account has this address and these data. Nothing else is
    /// known of it yet.
    pub fn from_keyed_account(key: Pubkey, data: &[u8]) -> (result: Result<Gamma, Error>)
        requires
            data@.len() >= 8,
        ensures
            match gamma_deseralize_pool_state::account_error(data@) {
                Some(error) => result == Err::<Gamma, Error>(error),
                None => result matches Ok(gamma) && {
                    &&& gamma_deseralize_pool_state::holds_pool_state(
                        data@.skip(8),
                        gamma.pool_state,
                    )
                    &&& gamma == Gamma {
                        key,
                        pool_state: gamma.pool_state,
                        amm_config: None,
                        vault_0_amount: None,
                        vault_1_amount: None,
                        token_mints_and_token_programs: None,
                        observation_state: None,
                    }
                },
            },
    {
        match PoolState::deserialize_account(data) {
            Ok(pool_state) => Ok(
                Gamma {
                    key,
                    pool_state,
                    amm_config: None,
                    vault_0_amount: None,
                    vault_1_amount: None,
                    token_mints_and_token_programs: None,
                    observation_state: None,
                },
            ),
            Err(error) => Err(error),
        }
    }

    /// The name of the exchange.
    pub fn label(&self) -> (label: &'static str)
        ensures
            label@ == "GAMMA"@,
    {
        "GAMMA"
    }

    /// The address of the pool.
    pub fn key(&self) -> (key: Pubkey)
        ensures
            key == self.key,
    {
        self.key
    }

    /// The mints that can be traded.
    pub fn get_reserve_mints(&self) -> (mints: Vec<Pubkey>)
        ensures
            mints@ == seq![self.pool_state.token_0_mint, self.pool_state.token_1_mint],
    {
        vec![self.pool_state.token_0_mint, self.pool_state.token_1_mint]
    }

    /// The accounts that an update is based on.
    pub fn get_accounts_to_update(&self) -> (keys: Vec<Pubkey>)
        ensures
            keys@ == seq![
                self.key,
                self.pool_state.token_0_vault,
                self.pool_state.token_1_vault,
                self.pool_state.amm_config,
                self.pool_state.token_0_mint,
                self.pool_state.token_1_mint,
            ],
    {
        vec![
            self.key,
            self.pool_state.token_0_vault,
            self.pool_state.token_1_vault,
            self.pool_state.amm_config,
            self.pool_state.token_0_mint,
            self.pool_state.token_1_mint,
        ]
    }

    /// How many accounts a swap needs.
    pub fn get_accounts_len(&self) -> (len: usize)
        ensures
            len == 14,
    {
        14
    }

    /// The two tokens of the pool, given their mints.
    pub open spec fn token_mints(self, token0_mint: MintState, token1_mint: MintState)
        -> TokenMints {
        TokenMints {
            token0: self.pool_state.token_0_mint,
            token1: self.pool_state.token_1_mint,
            token0_mint,
            token1_mint,
            token0_program: self.pool_state.token_0_program,
            token1_program: self.pool_state.token_1_program,
        }
    }

    /// Whether an update can lead from this pool to `after`. It stops at the
    /// first account that is missing or cannot be read, and keeps what it has
    /// read up to there.
    pub open spec fn updates_to<P: PoolProgram>(
        self,
        accounts: Seq<AccountData>,
        after: Gamma,
        result: Result<(), Error>,
    ) -> bool {
        match accounts::data_of(accounts, self.key) {
            None => after == self && result == Err::<(), Error>(Error::AccountNotFound(self.key)),
            Some(data) => match gamma_deseralize_pool_state::account_error(data) {
                Some(error) => after == self && result == Err::<(), Error>(error),
                None => {
                    &&& gamma_deseralize_pool_state::holds_pool_state(
                        data.skip(8),
                        after.pool_state,
                    )
                    &&& (Gamma { pool_state: after.pool_state, ..self }).updates_mints_to::<P>(
                        accounts,
                        after,
                        result,
                    )
                },
            },
        }
    }

    /// The part of an update that follows the pool's state.
    pub open spec fn updates_mints_to<P: PoolProgram>(
        self,
        accounts: Seq<AccountData>,
        after: Gamma,
        result: Result<(), Error>,
    ) -> bool {
        match accounts::mint_of(accounts, self.pool_state.token_0_mint) {
            None => after == self && result == Err::<(), Error>(Error::Token0MintNotFound),
            Some(mint_0) => match accounts::mint_of(accounts, self.pool_state.token_1_mint) {
                None => after == self && result == Err::<(), Error>(Error::Token1MintNotFound),
                Some(mint_1) => (Gamma {
                    token_mints_and_token_programs: Some(self.token_mints(mint_0, mint_1)),
                    ..self
                }).updates_config_to::<P>(accounts, after, result),
            },
        }
    }

    /// The part of an update that follows the mints.
    pub open spec fn updates_config_to<P: PoolProgram>(
        self,
        accounts: Seq<AccountData>,
        after: Gamma,
        result: Result<(), Error>,
    ) -> bool {
        let address = self.pool_state.amm_config;
        match accounts::data_of(accounts, address) {
            None => after == self && result == Err::<(), Error>(Error::AccountNotFound(address)),
            Some(data) => exists|config: Result<AmmConfig, ProgramError>|
                #[trigger] reads_amm_config::<P>(data, config) && match config {
                    Err(error) => after == self && result == Err::<(), Error>(
                        Error::Program(error),
                    ),
                    Ok(config) => (Gamma {
                        amm_config: Some(config),
                        ..self
                    }).updates_observation_to::<P>(accounts, after, result),
                },
        }
    }

    /// The part of an update that follows the configuration.
    pub open spec fn updates_observation_to<P: PoolProgram>(
        self,
        accounts: Seq<AccountData>,
        after: Gamma,
        result: Result<(), Error>,
    ) -> bool {
        let address = self.pool_state.observation_key;
        match accounts::data_of(accounts, address) {
            None => after == self && result == Err::<(), Error>(Error::AccountNotFound(address)),
            Some(data) => exists|observation: Result<ObservationState, ProgramError>|
                #[trigger] reads_observation_state::<P>(data, observation) && match observation {
                    Err(error) => after == self && result == Err::<(), Error>(
                        Error::Program(error),
                    ),
                    Ok(observation) => after == (Gamma {
                        observation_state: Some(observation),
                        vault_0_amount: accounts::unfrozen_amount_of(
                            accounts,
                            self.pool_state.token_0_vault,
                        ),
                        vault_1_amount: accounts::unfrozen_amount_of(
                            accounts,
                            self.pool_state.token_1_vault,
                        ),
                        ..self
                    }) && result == Ok::<(), Error>(()),
                },
        }
    }

    /// Reads the pool anew from the accounts.
    pub fn update<P: PoolProgram>(&mut self, accounts: &Vec<AccountData>) -> (result: Result<
        (),
        Error,
    >)
        requires
            accounts::data_of(accounts@, old(self).key) matches Some(data) ==> data.len() >= 8,
        ensures
            old(self).updates_to::<P>(accounts@, *final(self), result),
    {
        let data = match accounts::try_get_account_data(accounts, &self.key) {
            Ok(data) => data,
            Err(error) => return Err(error),
        };
        self.pool_state =
        match PoolState::deserialize_account(data) {
            Ok(pool_state) => pool_state,
            Err(error) => return Err(error),
        };
        let token0_mint = match accounts::find_mint(accounts, &self.pool_state.token_0_mint) {
            Some(mint) => mint,
            None => return Err(Error::Token0MintNotFound),
        };
        let token1_mint = match accounts::find_mint(accounts, &self.pool_state.token_1_mint) {
            Some(mint) => mint,
            None => return Err(Error::Token1MintNotFound),
        };
        self.token_mints_and_token_programs =
        Some(
            TokenMints {
                token0: self.pool_state.token_0_mint,
                token1: self.pool_state.token_1_mint,
                token0_mint,
                token1_mint,
                token0_program: self.pool_state.token_0_program,
                token1_program: self.pool_state.token_1_program,
            },
        );
        let config_data = match accounts::try_get_account_data(
            accounts,
            &self.pool_state.amm_config,
        ) {
            Ok(data) => data,
            Err(error) => return Err(error),
        };
        let config = P::try_deserialize_amm_config(config_data);
        assert(reads_amm_config::<P>(config_data@, config));
        self.amm_config =
        match config {
            Ok(config) => Some(config),
            Err(error) => return Err(Error::Program(error)),
        };
        let observation_data = match accounts::try_get_account_data(
            accounts,
            &self.pool_state.observation_key,
        ) {
            Ok(data) => data,
            Err(error) => return Err(error),
        };
        let observation = P::try_deserialize_observation_state(observation_data);
        assert(reads_observation_state::<P>(observation_data@, observation));
        self.observation_state =
        match observation {
            Ok(observation) => Some(observation),
            Err(error) => return Err(Error::Program(error)),
        };
        self.vault_0_amount = accounts::get_unfrozen_token_amount(
            accounts,
            &self.pool_state.token_0_vault,
        );
        self.vault_1_amount = accounts::get_unfrozen_token_amount(
            accounts,
            &self.pool_state.token_1_vault,
        );
        Ok(())
    }

    /// The address that owns the pool's vaults, if the pool's bump gives one.
    pub fn get_authority(&self, auth_seed: &[u8], program_id: &Pubkey) -> (authority: Option<
        Pubkey,
    >)
        ensures
            pubkey::program_address(auth_seed@, self.pool_state.auth_bump, program_id@) == (
            match authority {
                Some(key) => Some(key@),
                None => None,
            }),
    {
        pubkey::create_program_address(auth_seed, self.pool_state.auth_bump, program_id)
    }

    /// The accounts of a swap, given the pool's authority.
    pub open spec fn swap_accounts(self, params: SwapParams, authority: Pubkey) -> SwapAccounts {
        let pool = self.pool_state;
        let mints = self.token_mints_and_token_programs->0;
        let zero_for_one = params.source_mint == pool.token_0_mint;
        SwapAccounts {
            payer: params.token_transfer_authority,
            authority,
            amm_config: pool.amm_config,
            pool_state: self.key,
            input_token_account: params.source_token_account,
            output_token_account: params.destination_token_account,
            input_vault: if zero_for_one {
                pool.token_0_vault
            } else {
                pool.token_1_vault
            },
            output_vault: if zero_for_one {
                pool.token_1_vault
            } else {
                pool.token_0_vault
            },
            input_token_program: if zero_for_one {
                mints.token0_program
            } else {
                mints.token1_program
            },
            output_token_program: if zero_for_one {
                mints.token1_program
            } else {
                mints.token0_program
            },
            input_token_mint: if zero_for_one {
                pool.token_0_mint
            } else {
                pool.token_1_mint
            },
            output_token_mint: if zero_for_one {
                pool.token_1_mint
            } else {
                pool.token_0_mint
            },
            observation_state: pool.observation_key,
        }
    }

    /// Lists the accounts of a swap, given the pool's authority.
    pub fn list_swap_accounts(&self, params: &SwapParams, authority: Option<Pubkey>) -> (result:
        Result<SwapAccounts, Error>)
        ensures
            result == (match (self.token_mints_and_token_programs, authority) {
                (None, _) => Err(Error::MissingTokenMints),
                (Some(_), None) => Err(Error::NoAuthority),
                (Some(_), Some(authority)) => Ok(self.swap_accounts(*params, authority)),
            }),
    {
        let mints = match &self.token_mints_and_token_programs {
            Some(mints) => mints,
            None => return Err(Error::MissingTokenMints),
        };
        let authority = match authority {
            Some(authority) => authority,
            None => return Err(Error::NoAuthority),
        };
        let pool = &self.pool_state;
        let (
            input_token_program,
            input_vault,
            input_token_mint,
            output_token_program,
            output_vault,
            output_token_mint,
        ) = if params.source_mint.same_as(&pool.token_0_mint) {
            (
                mints.token0_program,
                pool.token_0_vault,
                pool.token_0_mint,
                mints.token1_program,
                pool.token_1_vault,
                pool.token_1_mint,
            )
        } else {
            (
                mints.token1_program,
                pool.token_1_vault,
                pool.token_1_mint,
                mints.token0_program,
                pool.token_0_vault,
                pool.token_0_mint,
            )
        };
        Ok(
            SwapAccounts {
                payer: params.token_transfer_authority,
                authority,
                amm_config: pool.amm_config,
                pool_state: self.key,
                input_token_account: params.source_token_account,
                output_token_account: params.destination_token_account,
                input_vault,
                output_vault,
                input_token_program,
                output_token_program,
                input_token_mint,
                output_token_mint,
                observation_state: pool.observation_key,
            },
        )
    }

    /// Lists the accounts of a swap with the program at this address.
    pub fn get_swap_and_account_metas(
        &self,
        params: &SwapParams,
        auth_seed: &[u8],
        program_id: &Pubkey,
    ) -> (result: Result<SwapAccounts, Error>)
        ensures
            match (
                self.token_mints_and_token_programs,
                pubkey::program_address(auth_seed@, self.pool_state.auth_bump, program_id@),
            ) {
                (None, _) => result == Err::<SwapAccounts, Error>(Error::MissingTokenMints),
                (Some(_), None) => result == Err::<SwapAccounts, Error>(Error::NoAuthority),
                (Some(_), Some(authority)) => result matches Ok(accounts) && {
                    &&& accounts.authority@ == authority
                    &&& accounts == self.swap_accounts(*params, accounts.authority)
                },
            },
    {
        let authority = self.get_authority(auth_seed, program_id);
        self.list_swap_accounts(params, authority)
    }
}

/// Whether the program `P` can read these data of a configuration as this.
pub open spec fn reads_amm_config<P: PoolProgram>(
    data: Seq<u8>,
    config: Result<AmmConfig, ProgramError>,
) -> bool {
    exists|slice: &[u8]|
        slice@ == data && #[trigger] call_ensures(P::try_deserialize_amm_config, (slice,), config)
}

/// Whether the program `P` can read these data of price observations as this.
pub open spec fn reads_observation_state<P: PoolProgram>(
    data: Seq<u8>,
    observation: Result<ObservationState, ProgramError>,
) -> bool {
    exists|slice: &[u8]|
        slice@ == data && #[trigger] call_ensures(
            P::try_deserialize_observation_state,
            (slice,),
            observation,
        )
}

/// What a swap is asked for.
#[derive(Clone, Copy, Debug)]
pub struct SwapParams {
    pub source_mint: Pubkey,
    pub source_token_account: Pubkey,
    pub destination_token_account: Pubkey,
    pub token_transfer_authority: Pubkey,
}

/// The accounts of a swap, in the order in which the program takes them.
#[derive(Clone, Copy, Debug)]
pub struct SwapAccounts {
    pub payer: Pubkey,
    pub authority: Pubkey,
    pub amm_config: Pubkey,
    pub pool_state: Pubkey,
    pub input_token_account: Pubkey,
    pub output_token_account: Pubkey,
    pub input_vault: Pubkey,
    pub output_vault: Pubkey,
    pub input_token_program: Pubkey,
    pub output_token_program: Pubkey,
    pub input_token_mint: Pubkey,
    pub output_token_mint: Pubkey,
    pub observation_state: Pubkey,
}

} // verus!
