//! What holds of every pool, update and quote.

use vstd::prelude::*;

use crate::accounts::{data_of, mint_of, AccountData};
use crate::decimal::{quotient, Fraction};
use crate::error::{Error, ProgramError, SwapError};
use crate::gamma::{
    reads_amm_config, reads_observation_state, ClockReading, Gamma, Quote, QuoteParams, QuotePlan,
    SwapParams, TokenMints,
};
use crate::gamma_deseralize_pool_state::{
    account_error, holds_pool_state, status_bit_clear, PoolState, POOL_STATE_SIZE,
};
use crate::program::{PoolProgram, SwapResult, TradeDirection};
use crate::pubkey::Pubkey;
use crate::states::{AmmConfig, ObservationState, PoolStatusBitIndex};
use crate::swap_laws::{
    calculations_are_functions, law_fee_is_part_of_what_is_put_in, law_swap_conserves_tokens,
    law_swap_is_determined,
};
use crate::swap_model::{swap_gives, OraclePart, ProgramAnswers, SwapRoute};
use crate::token::{amount_after_transfer, TransferFee, TransferFeeConfig};

verus! {

/// The bits of a status are independent: each switches off its own operation
/// and no other.
pub proof fn law_status_bits_are_independent(
    status: u8,
    deposit: nat,
    withdraw: nat,
    swap: nat,
    rest: nat,
)
    requires
        deposit <= 1,
        withdraw <= 1,
        swap <= 1,
        status == deposit + 2 * withdraw + 4 * swap + 8 * rest,
    ensures
        status_bit_clear(status, PoolStatusBitIndex::Deposit) == (deposit == 0),
        status_bit_clear(status, PoolStatusBitIndex::Withdraw) == (withdraw == 0),
        status_bit_clear(status, PoolStatusBitIndex::Swap) == (swap == 0),
{
}

/// Account data hold at most one pool.
pub proof fn law_data_determine_the_pool(data: Seq<u8>, one: PoolState, other: PoolState)
    requires
        holds_pool_state(data, one),
        holds_pool_state(data, other),
    ensures
        one == other,
{
    lemma_same_key(one.amm_config, other.amm_config);
    lemma_same_key(one.pool_creator, other.pool_creator);
    lemma_same_key(one.token_0_vault, other.token_0_vault);
    lemma_same_key(one.token_1_vault, other.token_1_vault);
    lemma_same_key(one.token_0_mint, other.token_0_mint);
    lemma_same_key(one.token_1_mint, other.token_1_mint);
    lemma_same_key(one.token_0_program, other.token_0_program);
    lemma_same_key(one.token_1_program, other.token_1_program);
    lemma_same_key(one.observation_key, other.observation_key);
    assert(one._padding3 =~= other._padding3) by {
        assert forall|i: int| 0 <= i < 8 implies one._padding3[i] == other._padding3[i] by {
            assert(one._padding3@[i] == other._padding3@[i]);
        }
    }
    assert(one.padding =~= other.padding);
}

proof fn lemma_same_key(one: Pubkey, other: Pubkey)
    requires
        one@ == other@,
    ensures
        one == other,
{
    assert forall|i: int| 0 <= i < 32 implies one.bytes[i] == other.bytes[i] by {
        assert(one@[i] == other@[i]);
    }
    assert(one.bytes =~= other.bytes);
}

/// Data behind the last field of a pool do not count.
pub proof fn law_trailing_data_are_ignored(data: Seq<u8>, more: Seq<u8>, pool: PoolState)
    requires
        holds_pool_state(data, pool),
    ensures
        holds_pool_state(data + more, pool),
{
    assert forall|start: int, end: int|
        0 <= start <= end <= POOL_STATE_SIZE implies #[trigger] (data + more).subrange(start, end)
        == data.subrange(start, end) by {
        assert((data + more).subrange(start, end) =~= data.subrange(start, end));
    }
}

/// The fee on a transfer is at most the maximum. A share of at most the whole
/// amount always gives a fee, and the fee is at most the amount.
pub proof fn law_transfer_fee_is_capped(fee: TransferFee, amount: u64)
    ensures
        fee.on(amount) matches Some(paid) ==> paid <= fee.maximum_fee,
        fee.transfer_fee_basis_points <= 10_000 ==> (fee.on(amount) matches Some(paid) && paid
            <= amount),
{
    let points = fee.transfer_fee_basis_points as int;
    if points <= 10_000 {
        assert(amount * points <= amount * 10_000) by (nonlinear_arith)
            requires
                0 <= points <= 10_000,
        ;
    }
}

/// A larger amount never pays a smaller fee.
pub proof fn law_transfer_fee_grows_with_amount(fee: TransferFee, smaller: u64, larger: u64)
    requires
        smaller <= larger,
    ensures
        fee.on(larger) matches Some(on_larger) ==> (fee.on(smaller) matches Some(on_smaller)
            && on_smaller <= on_larger),
{
    let points = fee.transfer_fee_basis_points as int;
    assert(smaller * points <= larger * points) by (nonlinear_arith)
        requires
            0 <= points,
            smaller <= larger,
    ;
}

/// A transfer never delivers more than was sent, and all of it where the mint
/// takes no fee.
pub proof fn law_transfer_does_not_create_tokens(
    config: Option<TransferFeeConfig>,
    epoch: u64,
    amount: u64,
)
    ensures
        amount_after_transfer(config, epoch, amount) matches Some(left) ==> left <= amount,
        config is None ==> amount_after_transfer(config, epoch, amount) == Some(amount),
{
}

/// A quote is refused for the pool's status or open time exactly when the pool
/// is not trading.
pub proof fn law_quote_needs_a_trading_pool<P: PoolProgram>(
    pool: Gamma,
    params: QuoteParams,
    clock: ClockReading,
    result: Result<Quote, Error>,
)
    requires
        pool.quote_gives::<P>(params, clock, result),
    ensures
        !pool.is_trading(clock) <==> result == Err::<Quote, Error>(Error::PoolNotTrading),
{
}

/// A quote takes in something, and what is left of the asked amount after the
/// transfer into the pool. Its fee is in the token that goes in.
pub proof fn law_quote_takes_what_arrives<P: PoolProgram>(
    pool: Gamma,
    params: QuoteParams,
    clock: ClockReading,
    quote: Quote,
    mints: TokenMints,
)
    requires
        pool.quote_gives::<P>(params, clock, Ok(quote)),
        pool.token_mints_and_token_programs == Some(mints),
    ensures
        0 < quote.in_amount <= params.amount,
        quote.fee_mint == params.input_mint,
        Some(quote.in_amount) == amount_after_transfer(
            if params.input_mint == pool.pool_state.token_0_mint {
                mints.token0_mint.transfer_fee_config
            } else {
                mints.token1_mint.transfer_fee_config
            },
            clock.epoch,
            params.amount,
        ),
{
}

/// The fee of a quote of a swap of which a part is at the oracle price is not
/// cut off and is part of what goes in, and no more comes out than the pool has.
pub proof fn law_split_quote_is_within_bounds<P: PoolProgram>(
    pool: Gamma,
    params: QuoteParams,
    clock: ClockReading,
    plan: QuotePlan,
    part: OraclePart,
    quote: Quote,
)
    requires
        pool.quote_gives::<P>(params, clock, Ok(quote)),
        pool.quote_plan(params, clock) == Ok::<QuotePlan, Error>(plan),
        plan.request(&pool.amm_config->0, &pool.pool_state, clock.seconds() as u64).route() == Ok::<
            SwapRoute,
            SwapError,
        >(SwapRoute::Oracle(part)),
    ensures
        quote.fee_amount <= quote.in_amount,
        quote.out_amount <= plan.destination_amount,
        quote.fee_pct == quotient(
            Fraction { mantissa: quote.fee_amount as i128, scale: 0 },
            Fraction { mantissa: quote.in_amount as i128, scale: 0 },
        )->0,
{
    let request = plan.request(&pool.amm_config->0, &pool.pool_state, clock.seconds() as u64);
    let swap = choose|swap: Result<SwapResult, SwapError>|
        #[trigger] swap_gives::<P>(request, pool.observation_state->0, false, swap) && Ok::<
            Quote,
            Error,
        >(quote) == (match swap {
            Err(error) => Err(Error::SwapFailed(error)),
            Ok(swap) => plan.quote(params.input_mint, clock.epoch, swap),
        });
    let answers = choose|answers: ProgramAnswers|
        #[trigger] request.answered_by::<P>(pool.observation_state->0, false, answers) && swap
            == request.result(answers);
    law_fee_is_part_of_what_is_put_in(request, part, answers, swap->Ok_0);
    law_swap_conserves_tokens(request, part, answers, swap->Ok_0);
    law_transfer_does_not_create_tokens(
        plan.destination_fee_config,
        clock.epoch,
        (swap->Ok_0).destination_amount_swapped as u64,
    );
}

/// The swap on which a quote is based puts in token 0 exactly when the quote is
/// asked for token 0, as long as the two vaults do not hold the same amount.
pub proof fn law_quote_swaps_in_the_asked_direction(
    pool: Gamma,
    params: QuoteParams,
    clock: ClockReading,
    plan: QuotePlan,
)
    requires
        pool.quote_plan(params, clock) == Ok::<QuotePlan, Error>(plan),
        pool.pool_state.token_0_vault_amount != pool.pool_state.token_1_vault_amount,
    ensures
        plan.request(&pool.amm_config->0, &pool.pool_state, clock.seconds() as u64).direction()
            == TradeDirection::ZeroForOne <==> params.input_mint == pool.pool_state.token_0_mint,
{
}

/// A quote depends neither on the pool's address nor on the balances of the two
/// vaults: it goes by the amounts in the pool's state, and a frozen vault does
/// not stop it.
pub proof fn law_quote_ignores_key_and_vault_balances<P: PoolProgram>(
    pool: Gamma,
    other: Gamma,
    params: QuoteParams,
    clock: ClockReading,
    result: Result<Quote, Error>,
)
    requires
        other == (Gamma {
            key: other.key,
            vault_0_amount: other.vault_0_amount,
            vault_1_amount: other.vault_1_amount,
            ..pool
        }),
    ensures
        pool.quote_gives::<P>(params, clock, result) <==> other.quote_gives::<P>(
            params,
            clock,
            result,
        ),
{
}

/// Where the program's calculations are functions of their arguments, pools that
/// differ in nothing but the address and the balances of the two vaults have the
/// same quote.
pub proof fn law_quote_is_determined<P: PoolProgram>(
    pool: Gamma,
    other: Gamma,
    params: QuoteParams,
    clock: ClockReading,
    result: Result<Quote, Error>,
    other_result: Result<Quote, Error>,
)
    requires
        calculations_are_functions::<P>(),
        other == (Gamma {
            key: other.key,
            vault_0_amount: other.vault_0_amount,
            vault_1_amount: other.vault_1_amount,
            ..pool
        }),
        pool.quote_gives::<P>(params, clock, result),
        other.quote_gives::<P>(params, clock, other_result),
    ensures
        result == other_result,
{
    if let Ok(plan) = pool.quote_plan(params, clock) {
        let request = plan.request(&pool.amm_config->0, &pool.pool_state, clock.seconds() as u64);
        let observation = pool.observation_state->0;
        assert forall|one: Result<SwapResult, SwapError>, two: Result<SwapResult, SwapError>|
            #[trigger] swap_gives::<P>(request, observation, false, one) && #[trigger] swap_gives::<
                P,
            >(request, observation, false, two) implies one == two by {
            law_swap_is_determined::<P>(request, observation, false, one, two);
        }
    }
}

/// Whether the pool has all that a quote needs besides the pool's state.
pub open spec fn is_complete(pool: Gamma) -> bool {
    &&& pool.amm_config is Some
    &&& pool.token_mints_and_token_programs is Some
    &&& pool.observation_state is Some
}

/// A quote of a complete pool never fails because something is missing.
pub proof fn law_complete_pool_misses_nothing(
    pool: Gamma,
    params: QuoteParams,
    clock: ClockReading,
)
    requires
        is_complete(pool),
    ensures
        pool.quote_plan(params, clock) != Err::<QuotePlan, Error>(Error::MissingAmmConfig),
        pool.quote_plan(params, clock) != Err::<QuotePlan, Error>(Error::MissingTokenMints),
        pool.quote_plan(params, clock) != Err::<QuotePlan, Error>(Error::MissingObservationState),
{
}

/// An update never changes the pool's address, leaves a complete pool complete
/// even if it fails, and makes the pool complete if it succeeds.
pub proof fn law_update_keeps_key_and_completes_pool<P: PoolProgram>(
    before: Gamma,
    accounts: Seq<AccountData>,
    after: Gamma,
    result: Result<(), Error>,
)
    requires
        before.updates_to::<P>(accounts, after, result),
    ensures
        after.key == before.key,
        is_complete(before) ==> is_complete(after),
        result is Ok ==> is_complete(after),
{
}

/// A successful update has read the accounts of the pool, of its mints, of its
/// configuration and of its observations.
pub proof fn law_update_needs_its_accounts<P: PoolProgram>(
    before: Gamma,
    accounts: Seq<AccountData>,
    after: Gamma,
)
    requires
        before.updates_to::<P>(accounts, after, Ok(())),
    ensures
        data_of(accounts, before.key) matches Some(data) && account_error(data) is None
            && holds_pool_state(data.skip(8), after.pool_state),
        data_of(accounts, after.pool_state.token_0_mint) is Some,
        data_of(accounts, after.pool_state.token_1_mint) is Some,
        data_of(accounts, after.pool_state.amm_config) is Some,
        data_of(accounts, after.pool_state.observation_key) is Some,
{
}

/// A successful update leaves nothing of the earlier pool but its address: from
/// any other pool with that address it can lead to the same.
pub proof fn law_update_forgets_the_earlier_pool<P: PoolProgram>(
    before: Gamma,
    other: Gamma,
    accounts: Seq<AccountData>,
    after: Gamma,
)
    requires
        other.key == before.key,
        before.updates_to::<P>(accounts, after, Ok(())),
    ensures
        other.updates_to::<P>(accounts, after, Ok(())),
{
    let mint_0 = mint_of(accounts, after.pool_state.token_0_mint)->0;
    let mint_1 = mint_of(accounts, after.pool_state.token_1_mint)->0;
    let with_mints = Gamma {
        pool_state: after.pool_state,
        token_mints_and_token_programs: Some(after.token_mints(mint_0, mint_1)),
        ..other
    };
    assert(with_mints.updates_config_to::<P>(accounts, after, Ok(())));
}

/// Two successful updates from the same accounts find the same pool, mints and
/// vault amounts, whatever was known before.
pub proof fn law_updates_find_the_same<P: PoolProgram>(
    before: Gamma,
    other: Gamma,
    accounts: Seq<AccountData>,
    after: Gamma,
    other_after: Gamma,
)
    requires
        other.key == before.key,
        before.updates_to::<P>(accounts, after, Ok(())),
        other.updates_to::<P>(accounts, other_after, Ok(())),
    ensures
        other_after.key == after.key,
        other_after.pool_state == after.pool_state,
        other_after.token_mints_and_token_programs == after.token_mints_and_token_programs,
        other_after.vault_0_amount == after.vault_0_amount,
        other_after.vault_1_amount == after.vault_1_amount,
{
    let data = data_of(accounts, before.key)->0;
    law_data_determine_the_pool(data.skip(8), after.pool_state, other_after.pool_state);
}

/// Whether what the program reads from an account is a function of its data.
pub open spec fn readers_are_functions<P: PoolProgram>() -> bool {
    &&& forall|
        data: Seq<u8>,
        one: Result<AmmConfig, ProgramError>,
        other: Result<AmmConfig, ProgramError>,
    | #[trigger]
        reads_amm_config::<P>(data, one) && #[trigger] reads_amm_config::<P>(data, other) ==> one
            == other
    &&& forall|
        data: Seq<u8>,
        one: Result<ObservationState, ProgramError>,
        other: Result<ObservationState, ProgramError>,
    | #[trigger]
        reads_observation_state::<P>(data, one) && #[trigger] reads_observation_state::<P>(
            data,
            other,
        ) ==> one == other
}

/// Where what the program reads is a function of the data, an update from the
/// same accounts succeeds for every pool with the address if it does for one,
/// and ends in the same pool. So a second update changes nothing.
pub proof fn law_update_is_repeatable<P: PoolProgram>(
    before: Gamma,
    other: Gamma,
    accounts: Seq<AccountData>,
    after: Gamma,
    other_after: Gamma,
    result: Result<(), Error>,
)
    requires
        readers_are_functions::<P>(),
        other.key == before.key,
        before.updates_to::<P>(accounts, after, Ok(())),
        other.updates_to::<P>(accounts, other_after, result),
    ensures
        result == Ok::<(), Error>(()),
        other_after == after,
{
    let data = data_of(accounts, before.key)->0;
    law_data_determine_the_pool(data.skip(8), after.pool_state, other_after.pool_state);
}

/// Accounts with different addresses are each found by their address.
pub proof fn law_every_account_is_found(accounts: Seq<AccountData>, i: int)
    requires
        0 <= i < accounts.len(),
        forall|j: int, k: int|
            0 <= j < k < accounts.len() ==> accounts[j].key != accounts[k].key,
    ensures
        data_of(accounts, accounts[i].key) == Some(accounts[i].data@),
    decreases accounts.len(),
{
    if i > 0 {
        assert(accounts[0].key != accounts[i].key);
        assert(accounts.drop_first()[i - 1] == accounts[i]);
        law_every_account_is_found(accounts.drop_first(), i - 1);
    }
}

/// An update depends on nothing but what is found under each address, not on
/// the order of the accounts.
pub proof fn law_update_depends_on_addresses<P: PoolProgram>(
    before: Gamma,
    accounts: Seq<AccountData>,
    others: Seq<AccountData>,
    after: Gamma,
    result: Result<(), Error>,
)
    requires
        forall|key: Pubkey| data_of(accounts, key) == data_of(others, key),
        before.updates_to::<P>(accounts, after, result),
    ensures
        before.updates_to::<P>(others, after, result),
{
}

/// Swaps in the two directions have each other's input for output.
pub proof fn law_swap_accounts_mirror_each_other(
    pool: Gamma,
    params: SwapParams,
    opposite: SwapParams,
    authority: Pubkey,
)
    requires
        params.source_mint == pool.pool_state.token_0_mint,
        opposite.source_mint != pool.pool_state.token_0_mint,
    ensures
        ({
            let one = pool.swap_accounts(params, authority);
            let other = pool.swap_accounts(opposite, authority);
            &&& one.input_vault == other.output_vault
            &&& one.output_vault == other.input_vault
            &&& one.input_token_mint == other.output_token_mint
            &&& one.output_token_mint == other.input_token_mint
            &&& one.input_token_program == other.output_token_program
            &&& one.output_token_program == other.input_token_program
        }),
{
}

} // verus!
