//! What reading, updating and quoting a pool come to, stated with what goes in
//! and what comes out.

use vstd::prelude::*;

use vstd::arithmetic::div_mod::lemma_fundamental_div_mod;

use crate::account_reader::le_value;
use crate::accounts::{data_of, mint_of, unfrozen_amount_of, AccountData};
use crate::decimal::{quotient, Fraction};
use crate::error::{Error, ProgramError, SwapError};
use crate::gamma::{
    reads_amm_config, reads_observation_state, ClockReading, Gamma, Quote, QuoteParams, QuotePlan,
    SwapParams, TokenMints,
};
use crate::gamma_deseralize_pool_state::{
    account_error, holds_pool_state, number_at, PoolState,
};
use crate::program::{PoolProgram, SwapResult};
use crate::pubkey::Pubkey;
use crate::states::{AmmConfig, ObservationState};
use crate::swap_model::{swap_gives, SwapRequest};
use crate::token::{
    amount_after_transfer, unpacked_mint, unpacked_token_account, TransferFee,
    TransferFeeConfig,
};

verus! {

/// The fee on a transfer is the smallest number of units that is no less than
/// the share of the amount, in ten-thousandths, but no more than the maximum.
/// There is none exactly if that number is not a token amount.
pub proof fn law_transfer_fee_is_rounded_up(fee: TransferFee, amount: u64, share: int)
    requires
        (share - 1) * 10_000 < amount * fee.transfer_fee_basis_points <= share * 10_000,
    ensures
        share > u64::MAX ==> fee.on(amount) is None,
        share <= u64::MAX && share <= fee.maximum_fee ==> fee.on(amount) == Some(share as u64),
        share <= u64::MAX && share >= fee.maximum_fee ==> fee.on(amount) == Some(fee.maximum_fee),
{
    let points = fee.transfer_fee_basis_points as int;
    if amount == 0 || points == 0 {
        assert(amount * points == 0) by (nonlinear_arith)
            requires
                amount == 0 || points == 0,
        ;
    } else {
        assert(0 < amount * points) by (nonlinear_arith)
            requires
                0 < amount,
                0 < points,
        ;
    }
}

/// The newer fee counts from its epoch on, the older one before.
pub proof fn law_newer_transfer_fee_counts_from_its_epoch(config: TransferFeeConfig, epoch: u64)
    ensures
        config.newer_transfer_fee.epoch <= epoch ==> config.in_epoch(epoch)
            == config.newer_transfer_fee,
        epoch < config.newer_transfer_fee.epoch ==> config.in_epoch(epoch)
            == config.older_transfer_fee,
{
}

/// What arrives of a transfer and the fee of the epoch are together the amount,
/// unless the fee is larger and nothing arrives. A mint without fees delivers
/// everything. Nothing is known of a transfer whose fee is not a token amount.
pub proof fn law_transfer_delivers_the_rest(
    config: TransferFeeConfig,
    epoch: u64,
    amount: u64,
    arrives: u64,
)
    ensures
        amount_after_transfer(None, epoch, amount) == Some(amount),
        config.in_epoch(epoch).on(amount) is None <==> amount_after_transfer(
            Some(config),
            epoch,
            amount,
        ) is None,
        config.in_epoch(epoch).on(amount) matches Some(fee) ==> (amount_after_transfer(
            Some(config),
            epoch,
            amount,
        ) == Some(arrives) <==> arrives + fee == amount || (arrives == 0 && amount <= fee)),
{
}

/// The account that counts for an address is the first that has it. There is
/// none exactly if no account has it.
pub proof fn law_first_account_counts(accounts: Seq<AccountData>, key: Pubkey, i: int)
    requires
        0 <= i <= accounts.len(),
        forall|j: int| 0 <= j < i ==> accounts[j].key != key,
    ensures
        i == accounts.len() ==> data_of(accounts, key) is None,
        i < accounts.len() && accounts[i].key == key ==> data_of(accounts, key) == Some(
            accounts[i].data@,
        ),
    decreases accounts.len(),
{
    if i > 0 {
        assert forall|j: int| 0 <= j < i - 1 implies accounts.drop_first()[j].key != key by {
            assert(accounts.drop_first()[j] == accounts[j + 1]);
        }
        assert(accounts[0].key != key);
        if i < accounts.len() {
            assert(accounts.drop_first()[i - 1] == accounts[i]);
        }
        law_first_account_counts(accounts.drop_first(), key, i - 1);
    }
}

/// A mint is what its account unpacks to, with its fees, and a token amount is
/// that of an account that unpacks and is not frozen.
pub proof fn law_mints_and_amounts_are_unpacked(accounts: Seq<AccountData>, key: Pubkey)
    ensures
        data_of(accounts, key) is None ==> mint_of(accounts, key) is None && unfrozen_amount_of(
            accounts,
            key,
        ) is None,
        data_of(accounts, key) matches Some(data) ==> {
            &&& mint_of(accounts, key) == unpacked_mint(data)
            &&& unpacked_token_account(data) is None ==> unfrozen_amount_of(accounts, key) is None
            &&& unpacked_token_account(data) matches Some(account) ==> {
                &&& account.frozen ==> unfrozen_amount_of(accounts, key) is None
                &&& !account.frozen ==> unfrozen_amount_of(accounts, key) == Some(account.amount)
            }
        },
{
}

/// The data of a pool's account start with the eight bytes of a pool, and hold
/// at least its fields. A wrong start is reported before a short account.
pub proof fn law_pool_accounts_start_with_their_discriminator(data: Seq<u8>)
    requires
        8 <= data.len(),
    ensures
        ({
            let starts = data[0] == 247 && data[1] == 237 && data[2] == 227 && data[3] == 245
                && data[4] == 215 && data[5] == 195 && data[6] == 222 && data[7] == 70;
            &&& !starts ==> account_error(data) == Some(Error::InvalidDiscriminator)
            &&& starts && data.len() < 637 ==> account_error(data) == Some(
                Error::UnexpectedLengthOfInput,
            )
            &&& starts && data.len() >= 637 ==> account_error(data) is None
        }),
{
    let start = seq![247u8, 237, 227, 245, 215, 195, 222, 70];
    assert(crate::gamma_deseralize_pool_state::ACCOUNT_DISCRIMINATOR@ =~= start);
    if data.take(8) == start {
        assert forall|i: int| 0 <= i < 8 implies data[i] == start[i] by {
            assert(data.take(8)[i] == start[i]);
        }
    }
    if data[0] == 247 && data[1] == 237 && data[2] == 227 && data[3] == 245 && data[4] == 215
        && data[5] == 195 && data[6] == 222 && data[7] == 70 {
        assert(data.take(8) =~= start);
    }
}

/// Bytes that stand for the same number are the same.
proof fn lemma_le_value_is_injective(one: Seq<u8>, other: Seq<u8>)
    requires
        one.len() == other.len(),
        le_value(one) == le_value(other),
    ensures
        one == other,
    decreases one.len(),
{
    if one.len() > 0 {
        lemma_le_value_is_injective(one.drop_first(), other.drop_first());
        assert(one =~= seq![one[0]] + one.drop_first());
        assert(other =~= seq![other[0]] + other.drop_first());
    } else {
        assert(one =~= other);
    }
}

proof fn lemma_same_number(one: Seq<u8>, other: Seq<u8>, at: int, size: int)
    requires
        0 <= at <= at + size <= one.len(),
        at + size <= other.len(),
        number_at(one, at, size) == number_at(other, at, size),
    ensures
        forall|i: int| at <= i < at + size ==> one[i] == other[i],
{
    lemma_le_value_is_injective(one.subrange(at, at + size), other.subrange(at, at + size));
    lemma_same_bytes(one, other, at, at + size);
}

proof fn lemma_same_bytes(one: Seq<u8>, other: Seq<u8>, start: int, end: int)
    requires
        0 <= start <= end <= one.len(),
        end <= other.len(),
        one.subrange(start, end) == other.subrange(start, end),
    ensures
        forall|i: int| start <= i < end ==> one[i] == other[i],
{
    assert forall|i: int| start <= i < end implies one[i] == other[i] by {
        assert(one.subrange(start, end)[i - start] == one[i]);
        assert(other.subrange(start, end)[i - start] == other[i]);
    }
}

/// Every byte of a pool's data counts: data that hold the same pool are the same.
pub proof fn law_every_byte_of_a_pool_counts(one: Seq<u8>, other: Seq<u8>, pool: PoolState)
    requires
        holds_pool_state(one, pool),
        holds_pool_state(other, pool),
    ensures
        one.take(629) == other.take(629),
{
    lemma_same_bytes(one, other, 0, 32);
    lemma_same_bytes(one, other, 32, 64);
    lemma_same_bytes(one, other, 64, 96);
    lemma_same_bytes(one, other, 96, 128);
    lemma_same_number(one, other, 128, 16);
    lemma_same_number(one, other, 144, 8);
    lemma_same_number(one, other, 152, 4);
    lemma_same_number(one, other, 156, 4);
    lemma_same_bytes(one, other, 160, 192);
    lemma_same_bytes(one, other, 192, 224);
    lemma_same_bytes(one, other, 224, 256);
    lemma_same_bytes(one, other, 256, 288);
    lemma_same_bytes(one, other, 288, 320);
    lemma_same_number(one, other, 325, 8);
    lemma_same_number(one, other, 333, 8);
    lemma_same_number(one, other, 341, 8);
    lemma_same_number(one, other, 349, 8);
    lemma_same_number(one, other, 357, 8);
    lemma_same_number(one, other, 365, 8);
    lemma_same_number(one, other, 373, 8);
    lemma_same_number(one, other, 381, 16);
    lemma_same_number(one, other, 397, 16);
    lemma_same_number(one, other, 413, 16);
    lemma_same_number(one, other, 429, 16);
    lemma_same_number(one, other, 445, 8);
    lemma_same_number(one, other, 453, 8);
    lemma_same_number(one, other, 461, 8);
    lemma_same_number(one, other, 469, 8);
    lemma_same_number(one, other, 477, 8);
    lemma_same_number(one, other, 485, 8);
    lemma_same_number(one, other, 493, 8);
    lemma_same_number(one, other, 501, 4);
    lemma_same_number(one, other, 505, 4);
    lemma_same_number(one, other, 509, 4);
    lemma_same_number(one, other, 513, 4);
    lemma_same_number(one, other, 517, 4);
    lemma_same_number(one, other, 521, 4);
    lemma_same_bytes(one, other, 525, 533);
    lemma_same_number(one, other, 533, 8);
    lemma_same_number(one, other, 541, 8);
    lemma_same_number(one, other, 549, 8);
    lemma_same_number(one, other, 557, 8);
    lemma_same_number(one, other, 565, 8);
    lemma_same_number(one, other, 573, 8);
    lemma_same_number(one, other, 581, 8);
    lemma_same_number(one, other, 589, 8);
    lemma_same_number(one, other, 597, 8);
    lemma_same_number(one, other, 605, 8);
    lemma_same_number(one, other, 613, 8);
    lemma_same_number(one, other, 621, 8);
    assert(one.take(629) =~= other.take(629));
}

/// A quote is planned exactly if the pool trades, that is if the swap bit of its
/// status is clear and its open time has come, if all that a quote needs is
/// known, and if something arrives. The plan has what arrives, the pool's amount
/// of the token that goes in as the source and that of the other one as the
/// destination, and the fees of the mint that comes out.
pub proof fn law_plan_follows_the_direction(
    pool: Gamma,
    params: QuoteParams,
    clock: ClockReading,
    seconds: int,
    mints: TokenMints,
)
    requires
        0 <= clock.unix_timestamp ==> seconds == clock.unix_timestamp,
        clock.unix_timestamp < 0 ==> seconds == clock.unix_timestamp + 0x1_0000_0000_0000_0000,
        pool.token_mints_and_token_programs is Some ==> pool.token_mints_and_token_programs
            == Some(mints),
    ensures
        ({
            let state = pool.pool_state;
            let planned = pool.quote_plan(params, clock);
            let trades = (state.status / 4) % 2 == 0 && state.open_time <= seconds;
            let known = pool.amm_config is Some && pool.token_mints_and_token_programs is Some;
            let of_token_0 = params.input_mint == state.token_0_mint;
            let fees_0 = mints.token0_mint.transfer_fee_config;
            let fees_1 = mints.token1_mint.transfer_fee_config;
            let arrives = amount_after_transfer(
                if of_token_0 {
                    fees_0
                } else {
                    fees_1
                },
                clock.epoch,
                params.amount,
            );
            &&& clock.seconds() == seconds
            &&& !trades ==> planned == Err::<QuotePlan, Error>(Error::PoolNotTrading)
            &&& trades && pool.amm_config is None ==> planned == Err::<QuotePlan, Error>(
                Error::MissingAmmConfig,
            )
            &&& trades && pool.amm_config is Some && pool.token_mints_and_token_programs is None
                ==> planned == Err::<QuotePlan, Error>(Error::MissingTokenMints)
            &&& trades && known && arrives is None ==> planned == Err::<QuotePlan, Error>(
                Error::FeeCalculationFailure,
            )
            &&& trades && known && arrives == Some(0u64) ==> planned == Err::<QuotePlan, Error>(
                Error::AmountTooLow,
            )
            &&& trades && known && arrives is Some && arrives->0 > 0 && pool.observation_state
                is None ==> planned == Err::<QuotePlan, Error>(Error::MissingObservationState)
            &&& trades && known && arrives is Some && arrives->0 > 0 && pool.observation_state
                is Some ==> (planned matches Ok(plan) && {
                &&& plan.amount_in == arrives->0
                &&& of_token_0 ==> {
                    &&& plan.source_amount == state.token_0_vault_amount
                    &&& plan.destination_amount == state.token_1_vault_amount
                    &&& plan.destination_fee_config == fees_1
                }
                &&& !of_token_0 ==> {
                    &&& plan.source_amount == state.token_1_vault_amount
                    &&& plan.destination_amount == state.token_0_vault_amount
                    &&& plan.destination_fee_config == fees_0
                }
            })
        }),
{
}

/// The quote of a swap's result gives what is left of it after the transfer out,
/// the lower sixty-four bits of the fee, and the fee as a share of what goes in.
/// It fails exactly if what comes out is not a token amount, the fee of the
/// transfer is not, or the fee or its share is not a decimal.
pub proof fn law_quote_states_the_swap(
    plan: QuotePlan,
    input_mint: Pubkey,
    epoch: u64,
    swap: SwapResult,
)
    ensures
        ({
            let quoted = plan.quote(input_mint, epoch, swap);
            let comes_out = swap.destination_amount_swapped;
            let left = amount_after_transfer(
                plan.destination_fee_config,
                epoch,
                comes_out as u64,
            );
            let share = quotient(
                Fraction { mantissa: swap.dynamic_fee as i128, scale: 0 },
                Fraction { mantissa: plan.amount_in as i128, scale: 0 },
            );
            let decimal = swap.dynamic_fee < 0x1_0000_0000_0000_0000_0000_0000;
            &&& comes_out > u64::MAX ==> quoted == Err::<Quote, Error>(Error::AmountOutOfRange)
            &&& comes_out <= u64::MAX && left is None ==> quoted == Err::<Quote, Error>(
                Error::FeeCalculationFailure,
            )
            &&& comes_out <= u64::MAX && left is Some && !decimal ==> quoted == Err::<Quote, Error>(
                Error::MathOverflow,
            )
            &&& comes_out <= u64::MAX && left is Some && decimal && share is None ==> quoted
                == Err::<Quote, Error>(Error::FailedToDivide)
            &&& comes_out <= u64::MAX && left is Some && decimal && share is Some ==> (
            quoted matches Ok(quote) && {
                &&& quote.in_amount == plan.amount_in
                &&& Some(quote.out_amount) == left
                &&& quote.fee_mint == input_mint
                &&& Some(quote.fee_pct) == share
                &&& swap.dynamic_fee <= u64::MAX ==> quote.fee_amount == swap.dynamic_fee
                &&& exists|high_bits: int|
                    swap.dynamic_fee == #[trigger] (high_bits * 0x1_0000_0000_0000_0000)
                        + quote.fee_amount
            })
        }),
{
    lemma_fundamental_div_mod(swap.dynamic_fee as int, 0x1_0000_0000_0000_0000);
    let high_bits = swap.dynamic_fee as int / 0x1_0000_0000_0000_0000;
    assert(swap.dynamic_fee == high_bits * 0x1_0000_0000_0000_0000 + swap.dynamic_fee
        % 0x1_0000_0000_0000_0000);
}

/// A quote that is planned is that of a swap of what arrives, in the pool's
/// amounts, with the pool's configuration and observations, at this time, and by
/// no segmenter. If the swap fails, so does the quote.
pub proof fn law_quote_is_of_a_swap<P: PoolProgram>(
    pool: Gamma,
    params: QuoteParams,
    clock: ClockReading,
    plan: QuotePlan,
    seconds: u64,
    config: AmmConfig,
    observations: ObservationState,
    result: Result<Quote, Error>,
) -> (swap: Result<SwapResult, SwapError>)
    requires
        pool.quote_gives::<P>(params, clock, result),
        pool.quote_plan(params, clock) == Ok::<QuotePlan, Error>(plan),
        0 <= clock.unix_timestamp ==> seconds == clock.unix_timestamp,
        clock.unix_timestamp < 0 ==> seconds == clock.unix_timestamp + 0x1_0000_0000_0000_0000,
        pool.amm_config == Some(config),
        pool.observation_state == Some(observations),
    ensures
        swap_gives::<P>(
            SwapRequest {
                source_amount_to_be_swapped: plan.amount_in as u128,
                swap_source_amount: plan.source_amount as u128,
                swap_destination_amount: plan.destination_amount as u128,
                amm_config: &config,
                pool_state: &pool.pool_state,
                block_timestamp: seconds,
            },
            observations,
            false,
            swap,
        ),
        swap matches Err(error) ==> result == Err::<Quote, Error>(Error::SwapFailed(error)),
        swap matches Ok(outcome) ==> result == plan.quote(params.input_mint, clock.epoch, outcome),
{
    choose|swap: Result<SwapResult, SwapError>|
        #[trigger] swap_gives::<P>(
            plan.request(&pool.amm_config->0, &pool.pool_state, clock.seconds() as u64),
            pool.observation_state->0,
            false,
            swap,
        ) && result == (match swap {
            Err(error) => Err(Error::SwapFailed(error)),
            Ok(swap) => plan.quote(params.input_mint, clock.epoch, swap),
        })
}

/// A quote that cannot be planned fails for that reason.
pub proof fn law_quote_without_plan_fails<P: PoolProgram>(
    pool: Gamma,
    params: QuoteParams,
    clock: ClockReading,
    error: Error,
    result: Result<Quote, Error>,
)
    requires
        pool.quote_gives::<P>(params, clock, result),
        pool.quote_plan(params, clock) == Err::<QuotePlan, Error>(error),
    ensures
        result == Err::<Quote, Error>(error),
{
}

/// A quote gives what is left of what a swap gives after a transfer of the mint
/// that comes out: token 1 if token 0 goes in, and token 0 otherwise. The swap is
/// of what is left of the asked amount after a transfer of the mint that goes
/// in, and puts it into the pool's amount of that token.
pub proof fn law_quote_gives_what_is_left_of_the_swap<P: PoolProgram>(
    pool: Gamma,
    params: QuoteParams,
    clock: ClockReading,
    quote: Quote,
    seconds: u64,
    mints: TokenMints,
    config: AmmConfig,
    observations: ObservationState,
) -> (swap: SwapResult)
    requires
        pool.quote_gives::<P>(params, clock, Ok(quote)),
        0 <= clock.unix_timestamp ==> seconds == clock.unix_timestamp,
        clock.unix_timestamp < 0 ==> seconds == clock.unix_timestamp + 0x1_0000_0000_0000_0000,
        pool.token_mints_and_token_programs == Some(mints),
        pool.amm_config == Some(config),
        pool.observation_state == Some(observations),
    ensures
        ({
            let state = pool.pool_state;
            let of_token_0 = params.input_mint == state.token_0_mint;
            let amount_0 = state.token_0_vault_amount as u128;
            let amount_1 = state.token_1_vault_amount as u128;
            let fees_0 = mints.token0_mint.transfer_fee_config;
            let fees_1 = mints.token1_mint.transfer_fee_config;
            &&& swap_gives::<P>(
                SwapRequest {
                    source_amount_to_be_swapped: quote.in_amount as u128,
                    swap_source_amount: if of_token_0 {
                        amount_0
                    } else {
                        amount_1
                    },
                    swap_destination_amount: if of_token_0 {
                        amount_1
                    } else {
                        amount_0
                    },
                    amm_config: &config,
                    pool_state: &state,
                    block_timestamp: seconds,
                },
                observations,
                false,
                Ok(swap),
            )
            &&& 0 < quote.in_amount
            &&& of_token_0 ==> {
                &&& Some(quote.in_amount) == amount_after_transfer(
                    fees_0,
                    clock.epoch,
                    params.amount,
                )
                &&& Some(quote.out_amount) == amount_after_transfer(
                    fees_1,
                    clock.epoch,
                    swap.destination_amount_swapped as u64,
                )
            }
            &&& !of_token_0 ==> {
                &&& Some(quote.in_amount) == amount_after_transfer(
                    fees_1,
                    clock.epoch,
                    params.amount,
                )
                &&& Some(quote.out_amount) == amount_after_transfer(
                    fees_0,
                    clock.epoch,
                    swap.destination_amount_swapped as u64,
                )
            }
            &&& swap.destination_amount_swapped <= u64::MAX
            &&& swap.dynamic_fee <= u64::MAX ==> quote.fee_amount == swap.dynamic_fee
            &&& quote.fee_mint == params.input_mint
            &&& Some(quote.fee_pct) == quotient(
                Fraction { mantissa: swap.dynamic_fee as i128, scale: 0 },
                Fraction { mantissa: quote.in_amount as i128, scale: 0 },
            )
        }),
{
    let plan = pool.quote_plan(params, clock)->Ok_0;
    let swap = law_quote_is_of_a_swap::<P>(
        pool,
        params,
        clock,
        plan,
        seconds,
        config,
        observations,
        Ok(quote),
    );
    law_plan_follows_the_direction(pool, params, clock, seconds as int, mints);
    law_quote_states_the_swap(plan, params.input_mint, clock.epoch, swap->Ok_0);
    swap->Ok_0
}

/// A successful update has the pool's state from its account, the mints as their
/// accounts unpack, with their fees, under the addresses and with the token
/// programs of that state, the configuration and the observations as the program
/// reads them from their accounts, and the amounts of the vaults that are not
/// frozen.
pub proof fn law_update_has_what_the_accounts_hold<P: PoolProgram>(
    before: Gamma,
    accounts: Seq<AccountData>,
    after: Gamma,
)
    requires
        before.updates_to::<P>(accounts, after, Ok(())),
    ensures
        ({
            let state = after.pool_state;
            &&& after.key == before.key
            &&& data_of(accounts, before.key) matches Some(data) && account_error(data) is None
                && holds_pool_state(data.skip(8), state)
            &&& after.token_mints_and_token_programs matches Some(mints) && {
                &&& mints.token0 == state.token_0_mint
                &&& mints.token1 == state.token_1_mint
                &&& mint_of(accounts, state.token_0_mint) == Some(mints.token0_mint)
                &&& mint_of(accounts, state.token_1_mint) == Some(mints.token1_mint)
                &&& mints.token0_program == state.token_0_program
                &&& mints.token1_program == state.token_1_program
            }
            &&& after.vault_0_amount == unfrozen_amount_of(accounts, state.token_0_vault)
            &&& after.vault_1_amount == unfrozen_amount_of(accounts, state.token_1_vault)
        }),
        after.amm_config is Some,
        data_of(accounts, after.pool_state.amm_config) is Some,
        exists|slice: &[u8]|
            slice@ == data_of(accounts, after.pool_state.amm_config)->0 && #[trigger] call_ensures(
                P::try_deserialize_amm_config,
                (slice,),
                Ok(after.amm_config->0),
            ),
        after.observation_state is Some,
        data_of(accounts, after.pool_state.observation_key) is Some,
        exists|slice: &[u8]|
            slice@ == data_of(accounts, after.pool_state.observation_key)->0
                && #[trigger] call_ensures(
                P::try_deserialize_observation_state,
                (slice,),
                Ok(after.observation_state->0),
            ),
{
    assert(reads_amm_config::<P>(
        data_of(accounts, after.pool_state.amm_config)->0,
        Ok(after.amm_config->0),
    ));
    assert(reads_observation_state::<P>(
        data_of(accounts, after.pool_state.observation_key)->0,
        Ok(after.observation_state->0),
    ));
}

/// A failed update names the first account that is missing or cannot be read:
/// the pool, mint 0, mint 1, the configuration, the observations. What comes
/// before it is read anew, and the rest stays as it was.
pub proof fn law_failed_update_stops_at_the_first_fault<P: PoolProgram>(
    before: Gamma,
    accounts: Seq<AccountData>,
    after: Gamma,
    error: Error,
)
    requires
        before.updates_to::<P>(accounts, after, Err(error)),
    ensures
        ({
            let state = after.pool_state;
            let pool_data = data_of(accounts, before.key);
            let pool_read = pool_data is Some && account_error(pool_data->0) is None;
            let mint_0 = mint_of(accounts, state.token_0_mint);
            let mint_1 = mint_of(accounts, state.token_1_mint);
            let mints_read = pool_read && mint_0 is Some && mint_1 is Some;
            let config_data = data_of(accounts, state.amm_config);
            let observation_data = data_of(accounts, state.observation_key);
            &&& after.key == before.key
            &&& after.observation_state == before.observation_state
            &&& after.vault_0_amount == before.vault_0_amount
            &&& after.vault_1_amount == before.vault_1_amount
            &&& pool_data is None ==> error == Error::AccountNotFound(before.key)
            &&& pool_data is Some && !pool_read ==> Some(error) == account_error(pool_data->0)
            &&& !pool_read ==> state == before.pool_state
            &&& pool_read ==> holds_pool_state(pool_data->0.skip(8), state)
            &&& pool_read && mint_0 is None ==> error == Error::Token0MintNotFound
            &&& pool_read && mint_0 is Some && mint_1 is None ==> error
                == Error::Token1MintNotFound
            &&& !mints_read ==> after.token_mints_and_token_programs
                == before.token_mints_and_token_programs && after.amm_config == before.amm_config
            &&& mints_read ==> (after.token_mints_and_token_programs matches Some(mints) && {
                &&& mints.token0 == state.token_0_mint
                &&& mints.token1 == state.token_1_mint
                &&& Some(mints.token0_mint) == mint_0
                &&& Some(mints.token1_mint) == mint_1
                &&& mints.token0_program == state.token_0_program
                &&& mints.token1_program == state.token_1_program
            })
            &&& mints_read && config_data is None ==> error == Error::AccountNotFound(
                state.amm_config,
            ) && after.amm_config == before.amm_config
            &&& mints_read && config_data is Some ==> {
                ||| after.amm_config == before.amm_config && error is Program
                ||| after.amm_config is Some && observation_data is None && error
                    == Error::AccountNotFound(state.observation_key)
                ||| after.amm_config is Some && observation_data is Some && error is Program
            }
        }),
{
}

/// An update that fails because the program refuses an account has the program's
/// error. It is about the configuration, which then stays as it was, or about the
/// observations, and then the configuration is what the program read.
pub proof fn law_refused_account_fails_the_update<P: PoolProgram>(
    before: Gamma,
    accounts: Seq<AccountData>,
    after: Gamma,
    error: ProgramError,
)
    requires
        before.updates_to::<P>(accounts, after, Err(Error::Program(error))),
    ensures
        ({
            let config_data = data_of(accounts, after.pool_state.amm_config);
            let observation_data = data_of(accounts, after.pool_state.observation_key);
            &&& config_data is Some
            &&& {
                ||| after.amm_config == before.amm_config && exists|slice: &[u8]|
                    slice@ == config_data->0 && #[trigger] call_ensures(
                        P::try_deserialize_amm_config,
                        (slice,),
                        Err(error),
                    )
                ||| observation_data is Some && after.amm_config is Some && (exists|slice: &[u8]|
                    slice@ == observation_data->0 && #[trigger] call_ensures(
                        P::try_deserialize_observation_state,
                        (slice,),
                        Err(error),
                    )) && (exists|slice: &[u8]|
                    slice@ == config_data->0 && #[trigger] call_ensures(
                        P::try_deserialize_amm_config,
                        (slice,),
                        Ok(after.amm_config->0),
                    ))
            }
        }),
{
    let config_data = data_of(accounts, after.pool_state.amm_config)->0;
    let observation_data = data_of(accounts, after.pool_state.observation_key)->0;
    if !reads_amm_config::<P>(config_data, Err(error)) {
        assert(reads_amm_config::<P>(config_data, Ok(after.amm_config->0)));
        assert(reads_observation_state::<P>(observation_data, Err(error)));
    } else if after.amm_config != before.amm_config {
        assert(reads_amm_config::<P>(config_data, Ok(after.amm_config->0)));
        assert(reads_observation_state::<P>(observation_data, Err(error)));
    }
}

/// An update that misses the observations has the configuration that the program
/// read.
pub proof fn law_update_without_observations_has_the_configuration<P: PoolProgram>(
    before: Gamma,
    accounts: Seq<AccountData>,
    after: Gamma,
    error: Error,
)
    requires
        before.updates_to::<P>(accounts, after, Err(error)),
        error is AccountNotFound,
        data_of(accounts, before.key) is Some,
        data_of(accounts, after.pool_state.amm_config) is Some,
    ensures
        error == Error::AccountNotFound(after.pool_state.observation_key),
        after.amm_config is Some,
        exists|slice: &[u8]|
            slice@ == data_of(accounts, after.pool_state.amm_config)->0 && #[trigger] call_ensures(
                P::try_deserialize_amm_config,
                (slice,),
                Ok(after.amm_config->0),
            ),
{
    assert(reads_amm_config::<P>(
        data_of(accounts, after.pool_state.amm_config)->0,
        Ok(after.amm_config->0),
    ));
}

/// An update from accounts that are all there and can all be read succeeds.
pub proof fn law_update_from_readable_accounts_succeeds<P: PoolProgram>(
    before: Gamma,
    accounts: Seq<AccountData>,
    after: Gamma,
    result: Result<(), Error>,
)
    requires
        before.updates_to::<P>(accounts, after, result),
        data_of(accounts, before.key) matches Some(data) && account_error(data) is None,
        mint_of(accounts, after.pool_state.token_0_mint) is Some,
        mint_of(accounts, after.pool_state.token_1_mint) is Some,
        data_of(accounts, after.pool_state.amm_config) is Some,
        data_of(accounts, after.pool_state.observation_key) is Some,
        forall|slice: &[u8], config: Result<AmmConfig, ProgramError>|
            slice@ == data_of(accounts, after.pool_state.amm_config)->0
                && #[trigger] call_ensures(P::try_deserialize_amm_config, (slice,), config)
                ==> config is Ok,
        forall|slice: &[u8], observations: Result<ObservationState, ProgramError>|
            slice@ == data_of(accounts, after.pool_state.observation_key)->0
                && #[trigger] call_ensures(
                P::try_deserialize_observation_state,
                (slice,),
                observations,
            ) ==> observations is Ok,
    ensures
        result == Ok::<(), Error>(()),
{
}

/// A swap takes the source token from the trader's account into the vault of
/// that token, and pays the other one out of its vault. Each side has the mint
/// and the token program of its token. A source that is not token 0 is taken for
/// token 1.
pub proof fn law_swap_accounts_are_those_of_the_sides(
    pool: Gamma,
    params: SwapParams,
    authority: Pubkey,
    mints: TokenMints,
)
    requires
        pool.token_mints_and_token_programs == Some(mints),
    ensures
        ({
            let state = pool.pool_state;
            let listed = pool.swap_accounts(params, authority);
            &&& listed.payer == params.token_transfer_authority
            &&& listed.authority == authority
            &&& listed.amm_config == state.amm_config
            &&& listed.pool_state == pool.key
            &&& listed.observation_state == state.observation_key
            &&& listed.input_token_account == params.source_token_account
            &&& listed.output_token_account == params.destination_token_account
            &&& params.source_mint == state.token_0_mint ==> {
                &&& listed.input_token_mint == state.token_0_mint
                &&& listed.input_vault == state.token_0_vault
                &&& listed.input_token_program == mints.token0_program
                &&& listed.output_token_mint == state.token_1_mint
                &&& listed.output_vault == state.token_1_vault
                &&& listed.output_token_program == mints.token1_program
            }
            &&& params.source_mint != state.token_0_mint ==> {
                &&& listed.input_token_mint == state.token_1_mint
                &&& listed.input_vault == state.token_1_vault
                &&& listed.input_token_program == mints.token1_program
                &&& listed.output_token_mint == state.token_0_mint
                &&& listed.output_vault == state.token_0_vault
                &&& listed.output_token_program == mints.token0_program
            }
        }),
{
}

} // verus!
