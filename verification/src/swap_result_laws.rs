//! What the prices, fees and results of a swap come to, stated with products
//! and sums.

use vstd::prelude::*;

use vstd::arithmetic::div_mod::{
    lemma_fundamental_div_mod, lemma_fundamental_div_mod_converse,
};

use crate::error::{ProgramError, SwapError};
use crate::gamma_deseralize_pool_state::{program_pool_state, PoolState};
use crate::program::{FeeType, PoolProgram, SwapResult, TradeDirection};
use crate::states::ObservationState;
use crate::swap_laws::{
    law_drift_fee_is_capped, law_fee_is_part_of_what_is_put_in,
    law_price_delay_fee_is_capped_and_grows,
};
use crate::swap_model::{
    amount_at_oracle_price, amount_at_oracle_price_defined, drift_fee, drift_fee_defined,
    price_delay_fee, price_delay_fee_defined, rate_difference, rate_difference_defined,
    swap_gives, CurveLeg, OracleLeg, OraclePart, ProgramAnswers, SwapRequest, SwapRoute,
};

verus! {

/// A number is the quotient if the dividend lies between its multiple and the
/// next one.
proof fn lemma_is_quotient(number: int, dividend: int, divisor: int)
    requires
        0 < divisor,
        number * divisor <= dividend < (number + 1) * divisor,
    ensures
        dividend / divisor == number,
{
    assert((number + 1) * divisor == number * divisor + divisor) by (nonlinear_arith);
    lemma_fundamental_div_mod_converse(
        dividend,
        divisor,
        number,
        dividend - number * divisor,
    );
}

/// The quotient lies between its multiple and the next one.
proof fn lemma_quotient_bounds(dividend: int, divisor: int)
    requires
        0 < divisor,
    ensures
        (dividend / divisor) * divisor <= dividend < (dividend / divisor + 1) * divisor,
{
    lemma_fundamental_div_mod(dividend, divisor);
    let q = dividend / divisor;
    assert(q * divisor == divisor * q) by (nonlinear_arith);
    assert((q + 1) * divisor == q * divisor + divisor) by (nonlinear_arith);
}

/// A quotient reaches a number exactly when the dividend reaches its multiple.
proof fn lemma_quotient_reaches(dividend: int, divisor: int, number: int)
    requires
        0 < divisor,
    ensures
        number <= dividend / divisor <==> number * divisor <= dividend,
{
    lemma_quotient_bounds(dividend, divisor);
    let q = dividend / divisor;
    assert(number <= q <==> number * divisor <= dividend) by (nonlinear_arith)
        requires
            0 < divisor,
            q * divisor <= dividend < (q + 1) * divisor,
    ;
}

/// The rate difference is the largest number of millionths of the oracle price
/// that is not more than the distance of the two prices. It can be computed if
/// the oracle price is not zero and the distance in millionths has a value.
pub proof fn law_rate_difference_is_in_millionths(
    oracle_price: int,
    price: int,
    distance: int,
    rate: int,
)
    requires
        0 < oracle_price,
        0 <= distance,
        price == oracle_price + distance || price == oracle_price - distance,
    ensures
        rate == rate_difference(oracle_price, price) <==> rate * oracle_price <= distance
            * 1_000_000 < (rate + 1) * oracle_price,
        rate_difference_defined(oracle_price, price) <==> distance * 1_000_000 <= u128::MAX,
        !rate_difference_defined(0, price),
{
    lemma_quotient_bounds(distance * 1_000_000, oracle_price);
    if rate * oracle_price <= distance * 1_000_000 < (rate + 1) * oracle_price {
        lemma_is_quotient(rate, distance * 1_000_000, oracle_price);
    }
}

/// The amount at the oracle price is the largest that is within what is asked
/// for, within the millionths of the pool's source token that one swap may add,
/// and within what moves the pool to the lowest accepted price. That price is
/// the oracle price less the accepted millionths of it.
pub proof fn law_oracle_amount_is_the_largest(
    asked: int,
    source_amount: int,
    destination_amount: int,
    oracle_price: int,
    pool: PoolState,
    lowest_price: int,
    distance: int,
    amount: int,
)
    requires
        0 <= asked,
        0 <= source_amount,
        0 <= oracle_price,
        0 < oracle_price + lowest_price,
        lowest_price * 1_000_000 <= oracle_price * (1_000_000 - pool.acceptable_price_difference)
            < (lowest_price + 1) * 1_000_000,
        0 <= distance,
        distance == destination_amount * 1_000_000_000 - lowest_price * source_amount || distance
            == lowest_price * source_amount - destination_amount * 1_000_000_000,
    ensures
        amount == amount_at_oracle_price(
            asked,
            source_amount,
            destination_amount,
            oracle_price,
            pool,
        ) <==> {
            &&& amount <= asked
            &&& amount * 1_000_000 <= source_amount * pool.max_amount_swappable_at_oracle_price
            &&& amount * (oracle_price + lowest_price) <= distance
            &&& {
                ||| amount == asked
                ||| (amount + 1) * 1_000_000 > source_amount
                    * pool.max_amount_swappable_at_oracle_price
                ||| (amount + 1) * (oracle_price + lowest_price) > distance
            }
        },
        0 <= amount_at_oracle_price(
            asked,
            source_amount,
            destination_amount,
            oracle_price,
            pool,
        ),
{
    let z = lowest_price;
    lemma_is_quotient(
        z,
        oracle_price * (1_000_000 - pool.acceptable_price_difference),
        1_000_000,
    );
    let shares = source_amount * pool.max_amount_swappable_at_oracle_price;
    assert(0 <= shares) by (nonlinear_arith)
        requires
            shares == source_amount * pool.max_amount_swappable_at_oracle_price,
            0 <= source_amount,
            0 <= pool.max_amount_swappable_at_oracle_price,
    ;
    lemma_quotient_reaches(shares, 1_000_000, amount);
    lemma_quotient_reaches(shares, 1_000_000, amount + 1);
    lemma_quotient_reaches(shares, 1_000_000, 0);
    lemma_quotient_reaches(distance, oracle_price + z, amount);
    lemma_quotient_reaches(distance, oracle_price + z, amount + 1);
    lemma_quotient_reaches(distance, oracle_price + z, 0);
}

/// The amount at the oracle price can be computed exactly if the accepted
/// difference is at most the whole price and every product and sum has a value.
pub proof fn law_oracle_amount_can_be_computed(
    source_amount: int,
    destination_amount: int,
    oracle_price: int,
    pool: PoolState,
    lowest_price: int,
)
    requires
        0 <= source_amount,
        0 <= destination_amount,
        0 <= oracle_price,
        pool.acceptable_price_difference <= 1_000_000 ==> lowest_price * 1_000_000 <= oracle_price
            * (1_000_000 - pool.acceptable_price_difference) < (lowest_price + 1) * 1_000_000,
    ensures
        amount_at_oracle_price_defined(source_amount, destination_amount, oracle_price, pool)
            <==> {
            &&& source_amount * pool.max_amount_swappable_at_oracle_price <= u128::MAX
            &&& pool.acceptable_price_difference <= 1_000_000
            &&& oracle_price * (1_000_000 - pool.acceptable_price_difference) <= u128::MAX
            &&& lowest_price * source_amount <= u128::MAX
            &&& destination_amount * 1_000_000_000 <= u128::MAX
            &&& 0 < oracle_price + lowest_price <= u128::MAX
        },
{
    let shares = source_amount * pool.max_amount_swappable_at_oracle_price;
    assert(0 <= shares) by (nonlinear_arith)
        requires
            shares == source_amount * pool.max_amount_swappable_at_oracle_price,
            0 <= source_amount,
            0 <= pool.max_amount_swappable_at_oracle_price,
    ;
    if pool.acceptable_price_difference <= 1_000_000 {
        let kept = 1_000_000 - pool.acceptable_price_difference;
        assert(0 <= oracle_price * kept) by (nonlinear_arith)
            requires
                0 <= oracle_price,
                0 <= kept,
        ;
        lemma_is_quotient(lowest_price, oracle_price * kept, 1_000_000);
        assert(0 <= lowest_price * source_amount) by (nonlinear_arith)
            requires
                0 <= lowest_price,
                0 <= source_amount,
        ;
    }
}

/// The fee rate for drift is the drift factor times the distance, in millionths
/// of the oracle price, of the price that the swap leaves from the oracle price,
/// but no more than the pool's maximum.
pub proof fn law_drift_fee_follows_the_price_after(
    amount: int,
    source_amount: int,
    destination_amount: int,
    oracle_price: int,
    pool: PoolState,
    output: int,
    price_after: int,
    distance: int,
    rate: int,
)
    requires
        0 < oracle_price,
        0 < source_amount + amount,
        output * 1_000_000_000 <= oracle_price * amount < (output + 1) * 1_000_000_000,
        price_after * (source_amount + amount) <= (destination_amount - output) * 1_000_000_000
            < (price_after + 1) * (source_amount + amount),
        0 <= distance,
        price_after == oracle_price + distance || price_after == oracle_price - distance,
        rate * oracle_price <= distance * 1_000_000 < (rate + 1) * oracle_price,
    ensures
        rate * pool.drift_factor <= pool.max_drift_factor ==> drift_fee(
            amount,
            source_amount,
            destination_amount,
            oracle_price,
            pool,
        ) == rate * pool.drift_factor,
        rate * pool.drift_factor >= pool.max_drift_factor ==> drift_fee(
            amount,
            source_amount,
            destination_amount,
            oracle_price,
            pool,
        ) == pool.max_drift_factor,
{
    lemma_is_quotient(output, oracle_price * amount, 1_000_000_000);
    lemma_is_quotient(
        price_after,
        (destination_amount - output) * 1_000_000_000,
        source_amount + amount,
    );
    lemma_is_quotient(rate, distance * 1_000_000, oracle_price);
}

/// The fee rate for drift can be computed exactly if the pool has what comes
/// out, the pool is not empty afterwards, and every product and sum has a value.
pub proof fn law_drift_fee_can_be_computed(
    amount: int,
    source_amount: int,
    destination_amount: int,
    oracle_price: int,
    pool: PoolState,
    output: int,
    price_after: int,
    distance: int,
    rate: int,
)
    requires
        0 <= amount,
        0 <= source_amount,
        0 <= oracle_price,
        output * 1_000_000_000 <= oracle_price * amount < (output + 1) * 1_000_000_000,
        0 < source_amount + amount ==> price_after * (source_amount + amount) <= (
        destination_amount - output) * 1_000_000_000 < (price_after + 1) * (source_amount + amount),
        0 <= distance,
        price_after == oracle_price + distance || price_after == oracle_price - distance,
        0 < oracle_price ==> rate * oracle_price <= distance * 1_000_000 < (rate + 1)
            * oracle_price,
    ensures
        drift_fee_defined(amount, source_amount, destination_amount, oracle_price, pool) <==> {
            &&& 0 < oracle_price
            &&& oracle_price * amount <= u128::MAX
            &&& 0 < source_amount + amount <= u128::MAX
            &&& output <= destination_amount
            &&& (destination_amount - output) * 1_000_000_000 <= u128::MAX
            &&& distance * 1_000_000 <= u128::MAX
            &&& rate * pool.drift_factor <= u128::MAX
        },
{
    assert(0 <= oracle_price * amount) by (nonlinear_arith)
        requires
            0 <= oracle_price,
            0 <= amount,
    ;
    lemma_is_quotient(output, oracle_price * amount, 1_000_000_000);
    if 0 < source_amount + amount {
        lemma_is_quotient(
            price_after,
            (destination_amount - output) * 1_000_000_000,
            source_amount + amount,
        );
    }
    if 0 < oracle_price {
        lemma_is_quotient(rate, distance * 1_000_000, oracle_price);
        lemma_quotient_reaches(distance * 1_000_000, oracle_price, 0);
        assert(0 <= rate * pool.drift_factor) by (nonlinear_arith)
            requires
                0 <= rate,
                0 <= pool.drift_factor,
        ;
    }
}

/// For one oracle price, swaps that leave the same price have the same fee rate
/// for drift, whatever the pools held before.
pub proof fn law_equal_prices_after_have_equal_drift_fees(
    amount: int,
    source_amount: int,
    destination_amount: int,
    other_amount: int,
    other_source_amount: int,
    other_destination_amount: int,
    oracle_price: int,
    pool: PoolState,
    output: int,
    other_output: int,
    price_after: int,
)
    requires
        0 < oracle_price,
        0 < source_amount + amount,
        0 < other_source_amount + other_amount,
        output * 1_000_000_000 <= oracle_price * amount < (output + 1) * 1_000_000_000,
        other_output * 1_000_000_000 <= oracle_price * other_amount < (other_output + 1)
            * 1_000_000_000,
        price_after * (source_amount + amount) <= (destination_amount - output) * 1_000_000_000
            < (price_after + 1) * (source_amount + amount),
        price_after * (other_source_amount + other_amount) <= (other_destination_amount
            - other_output) * 1_000_000_000 < (price_after + 1) * (other_source_amount
            + other_amount),
    ensures
        drift_fee(amount, source_amount, destination_amount, oracle_price, pool) == drift_fee(
            other_amount,
            other_source_amount,
            other_destination_amount,
            oracle_price,
            pool,
        ),
{
    lemma_is_quotient(output, oracle_price * amount, 1_000_000_000);
    lemma_is_quotient(other_output, oracle_price * other_amount, 1_000_000_000);
    lemma_is_quotient(
        price_after,
        (destination_amount - output) * 1_000_000_000,
        source_amount + amount,
    );
    lemma_is_quotient(
        price_after,
        (other_destination_amount - other_output) * 1_000_000_000,
        other_source_amount + other_amount,
    );
}

/// The fee rate for an old price is the rate per second times the seconds since
/// the price was updated, none if that is still to come, but no more than the
/// pool's maximum. It can be computed exactly if that product is a `u64`.
pub proof fn law_price_delay_fee_follows_the_age(current_time: u64, pool: PoolState, age: int)
    requires
        pool.oracle_price_updated_at <= current_time ==> age + pool.oracle_price_updated_at
            == current_time,
        current_time < pool.oracle_price_updated_at ==> age == 0,
    ensures
        price_delay_fee_defined(current_time, pool) <==> age
            * pool.oracle_price_delay_fee_rate_per_second <= u64::MAX,
        age * pool.oracle_price_delay_fee_rate_per_second <= pool.max_oracle_price_delay_fee
            ==> price_delay_fee(current_time, pool) == age
            * pool.oracle_price_delay_fee_rate_per_second,
        age * pool.oracle_price_delay_fee_rate_per_second >= pool.max_oracle_price_delay_fee
            ==> price_delay_fee(current_time, pool) == pool.max_oracle_price_delay_fee,
{
}

/// Without an oracle price, or with one that was never updated, is from the
/// future, or is older than the pool allows, the whole swap goes to the curve.
pub proof fn law_swap_without_recent_price_goes_to_curve(request: SwapRequest)
    requires
        ({
            ||| request.pool_state.oracle_price_token_0_by_token_1 == 0
            ||| request.pool_state.oracle_price_updated_at == 0
            ||| request.block_timestamp < request.pool_state.oracle_price_updated_at
            ||| request.block_timestamp > request.pool_state.oracle_price_updated_at
                + request.pool_state.max_oracle_price_update_time_diff
        }),
    ensures
        request.route() == Ok::<SwapRoute, SwapError>(SwapRoute::Curve),
{
}

/// With a recent oracle price, a swap goes to the curve exactly if the spot
/// price is below the oracle price by more than the accepted millionths of it,
/// or if not one unit can be swapped at the oracle price. Otherwise the largest
/// amount that can be is, at the oracle price, and the rest is left to the curve.
/// The prices are those of the token that goes in, which is token 0 if the pool
/// has as much of it as vault 0 holds.
pub proof fn law_route_follows_the_price(
    request: SwapRequest,
    oracle_price: int,
    spot_price: int,
    lowest_price: int,
    distance: int,
)
    requires
        request.pool_state.oracle_price_token_0_by_token_1 != 0,
        request.pool_state.oracle_price_updated_at != 0,
        request.pool_state.oracle_price_updated_at <= request.block_timestamp,
        request.block_timestamp <= request.pool_state.oracle_price_updated_at
            + request.pool_state.max_oracle_price_update_time_diff,
        0 < request.swap_source_amount,
        spot_price * request.swap_source_amount <= request.swap_destination_amount * 1_000_000_000
            < (spot_price + 1) * request.swap_source_amount,
        request.swap_source_amount == request.pool_state.token_0_vault_amount ==> oracle_price
            * request.pool_state.oracle_price_token_0_by_token_1 <= 1_000_000_000_000_000_000 < (
        oracle_price + 1) * request.pool_state.oracle_price_token_0_by_token_1,
        request.swap_source_amount != request.pool_state.token_0_vault_amount ==> oracle_price
            == request.pool_state.oracle_price_token_0_by_token_1,
        lowest_price * 1_000_000 <= oracle_price * (1_000_000
            - request.pool_state.acceptable_price_difference) < (lowest_price + 1) * 1_000_000,
        0 <= distance,
        distance == request.swap_destination_amount * 1_000_000_000 - lowest_price
            * request.swap_source_amount || distance == lowest_price * request.swap_source_amount
            - request.swap_destination_amount * 1_000_000_000,
        request.route() is Ok,
    ensures
        ({
            let pool = *request.pool_state;
            let source = request.swap_source_amount as int;
            let too_low = spot_price <= oracle_price && (oracle_price - spot_price) * 1_000_000 >= (
            pool.acceptable_price_difference + 1) * oracle_price;
            let nothing = {
                ||| request.source_amount_to_be_swapped == 0
                ||| source * pool.max_amount_swappable_at_oracle_price < 1_000_000
                ||| distance < oracle_price + lowest_price
            };
            &&& request.route() == Ok::<SwapRoute, SwapError>(SwapRoute::Curve) <==> too_low
                || nothing
            &&& request.route() matches Ok(SwapRoute::Oracle(part)) ==> {
                let amount = part.amount_to_be_swapped_at_oracle_price as int;
                &&& part.oracle_price == oracle_price
                &&& part.trade_direction == TradeDirection::ZeroForOne <==> source
                    == pool.token_0_vault_amount
                &&& amount + part.amount_to_be_swapped_with_invariant_curve
                    == request.source_amount_to_be_swapped
                &&& amount * 1_000_000 <= source * pool.max_amount_swappable_at_oracle_price
                &&& amount * (oracle_price + lowest_price) <= distance
                &&& {
                    ||| part.amount_to_be_swapped_with_invariant_curve == 0
                    ||| (amount + 1) * 1_000_000 > source
                        * pool.max_amount_swappable_at_oracle_price
                    ||| (amount + 1) * (oracle_price + lowest_price) > distance
                }
            }
        }),
{
    let pool = *request.pool_state;
    let x = request.swap_source_amount as int;
    let y = request.swap_destination_amount as int;
    lemma_is_quotient(spot_price, y * 1_000_000_000, x);
    lemma_oracle_price(request, oracle_price);
    assert(request.oracle_price() == oracle_price);
    assert(request.spot_price() == spot_price);
    assert(0 < oracle_price);
    if spot_price <= oracle_price {
        lemma_quotient_reaches(
            (oracle_price - spot_price) * 1_000_000,
            oracle_price,
            pool.acceptable_price_difference + 1,
        );
    }
    if !request.price_unacceptable() {
        let asked = request.source_amount_to_be_swapped as int;
        let amount = request.oracle_amount();
        law_oracle_amount_can_be_computed(x, y, oracle_price, pool, lowest_price);
        law_oracle_amount_is_the_largest(
            asked,
            x,
            y,
            oracle_price,
            pool,
            lowest_price,
            distance,
            amount,
        );
        assert((amount + 1) * (oracle_price + lowest_price) == amount * (oracle_price
            + lowest_price) + oracle_price + lowest_price) by (nonlinear_arith);
        assert(amount >= 1 ==> amount * (oracle_price + lowest_price) >= oracle_price
            + lowest_price) by (nonlinear_arith)
            requires
                0 < oracle_price + lowest_price,
        ;
        assert(amount == 0 ==> amount * (oracle_price + lowest_price) == 0) by (nonlinear_arith);
    }
}

/// The oracle price of a request, from the oracle price of the pool.
proof fn lemma_oracle_price(request: SwapRequest, oracle_price: int)
    requires
        request.pool_state.oracle_price_token_0_by_token_1 != 0,
        request.swap_source_amount == request.pool_state.token_0_vault_amount ==> oracle_price
            * request.pool_state.oracle_price_token_0_by_token_1 <= 1_000_000_000_000_000_000 < (
        oracle_price + 1) * request.pool_state.oracle_price_token_0_by_token_1,
        request.swap_source_amount != request.pool_state.token_0_vault_amount ==> oracle_price
            == request.pool_state.oracle_price_token_0_by_token_1,
    ensures
        request.oracle_price() == oracle_price,
        0 <= oracle_price <= u128::MAX,
{
    let price = request.pool_state.oracle_price_token_0_by_token_1 as int;
    if request.swap_source_amount == request.pool_state.token_0_vault_amount {
        lemma_is_quotient(oracle_price, 1_000_000_000_000_000_000, price);
        lemma_quotient_reaches(1_000_000_000_000_000_000, price, 0);
        assert(oracle_price <= 1_000_000_000_000_000_000) by (nonlinear_arith)
            requires
                1 <= price,
                0 <= oracle_price,
                oracle_price * price <= 1_000_000_000_000_000_000,
        ;
    }
}

/// With a recent oracle price, a swap has no route exactly if the pool is empty,
/// the oracle price is zero in the direction of the swap, a price or the distance
/// of the prices has no value, or the amount at the oracle price is asked for and
/// cannot be computed.
pub proof fn law_route_fails_without_a_value(
    request: SwapRequest,
    oracle_price: int,
    spot_price: int,
    lowest_price: int,
)
    requires
        request.pool_state.oracle_price_token_0_by_token_1 != 0,
        request.pool_state.oracle_price_updated_at != 0,
        request.pool_state.oracle_price_updated_at <= request.block_timestamp,
        request.block_timestamp <= request.pool_state.oracle_price_updated_at
            + request.pool_state.max_oracle_price_update_time_diff,
        0 < request.swap_source_amount ==> spot_price * request.swap_source_amount
            <= request.swap_destination_amount * 1_000_000_000 < (spot_price + 1)
            * request.swap_source_amount,
        request.swap_source_amount == request.pool_state.token_0_vault_amount ==> oracle_price
            * request.pool_state.oracle_price_token_0_by_token_1 <= 1_000_000_000_000_000_000 < (
        oracle_price + 1) * request.pool_state.oracle_price_token_0_by_token_1,
        request.swap_source_amount != request.pool_state.token_0_vault_amount ==> oracle_price
            == request.pool_state.oracle_price_token_0_by_token_1,
        lowest_price * 1_000_000 <= oracle_price * (1_000_000
            - request.pool_state.acceptable_price_difference) < (lowest_price + 1) * 1_000_000,
    ensures
        request.route() matches Err(error) ==> error == SwapError::MathOverflow,
        request.route() is Err <==> {
            ||| request.swap_source_amount == 0
            ||| request.swap_destination_amount * 1_000_000_000 > u128::MAX
            ||| oracle_price == 0
            ||| (spot_price - oracle_price) * 1_000_000 > u128::MAX
            ||| (oracle_price - spot_price) * 1_000_000 > u128::MAX
            ||| {
                &&& spot_price > oracle_price || (oracle_price - spot_price) * 1_000_000 < (
                request.pool_state.acceptable_price_difference + 1) * oracle_price
                &&& {
                    ||| request.swap_source_amount
                        * request.pool_state.max_amount_swappable_at_oracle_price > u128::MAX
                    ||| request.pool_state.acceptable_price_difference > 1_000_000
                    ||| oracle_price * (1_000_000 - request.pool_state.acceptable_price_difference)
                        > u128::MAX
                    ||| lowest_price * request.swap_source_amount > u128::MAX
                    ||| oracle_price + lowest_price > u128::MAX
                }
            }
        },
{
    let pool = *request.pool_state;
    let x = request.swap_source_amount as int;
    let y = request.swap_destination_amount as int;
    lemma_oracle_price(request, oracle_price);
    if 0 < x && 0 < oracle_price && y * 1_000_000_000 <= u128::MAX {
        lemma_is_quotient(spot_price, y * 1_000_000_000, x);
        if spot_price <= oracle_price {
            lemma_quotient_reaches(
                (oracle_price - spot_price) * 1_000_000,
                oracle_price,
                pool.acceptable_price_difference + 1,
            );
        }
        law_oracle_amount_can_be_computed(x, y, oracle_price, pool, lowest_price);
        if pool.acceptable_price_difference <= 1_000_000 {
            let kept = 1_000_000 - pool.acceptable_price_difference;
            assert(0 <= oracle_price * kept) by (nonlinear_arith)
                requires
                    0 <= oracle_price,
                    0 <= kept,
            ;
        }
    }
}

/// The fee rate at the oracle price is the sum of the larger of the dynamic rate
/// and the pool's minimum, the fee rate for drift and the fee rate for an old
/// price. There is one exactly if each of these and the sum have a value.
pub proof fn law_oracle_trade_rate_is_a_sum(
    request: SwapRequest,
    part: OraclePart,
    dynamic_fee_rate: u64,
    larger: int,
    drift: int,
    delay: int,
    rate: u64,
)
    requires
        larger == dynamic_fee_rate || larger == request.pool_state.min_trade_rate_at_oracle_price,
        dynamic_fee_rate <= larger,
        request.pool_state.min_trade_rate_at_oracle_price <= larger,
        drift == drift_fee(
            part.amount_to_be_swapped_at_oracle_price as int,
            request.swap_source_amount as int,
            request.swap_destination_amount as int,
            part.oracle_price as int,
            *request.pool_state,
        ),
        delay == price_delay_fee(request.block_timestamp, *request.pool_state),
    ensures
        request.oracle_trade_rate(part, dynamic_fee_rate) == Ok::<u64, SwapError>(rate) <==> {
            &&& rate == larger + drift + delay
            &&& price_delay_fee_defined(request.block_timestamp, *request.pool_state)
            &&& drift_fee_defined(
                part.amount_to_be_swapped_at_oracle_price as int,
                request.swap_source_amount as int,
                request.swap_destination_amount as int,
                part.oracle_price as int,
                *request.pool_state,
            )
        },
        request.oracle_trade_rate(part, dynamic_fee_rate) matches Err(error) ==> error
            == SwapError::MathOverflow,
{
    law_price_delay_fee_is_capped_and_grows(
        request.block_timestamp,
        request.block_timestamp,
        *request.pool_state,
    );
    if 0 < part.oracle_price {
        law_drift_fee_is_capped(
            part.amount_to_be_swapped_at_oracle_price as int,
            request.swap_source_amount as int,
            request.swap_destination_amount as int,
            part.oracle_price as int,
            *request.pool_state,
        );
    }
}

/// The swap at the oracle price takes the fees off the amount and gives what the
/// rest is worth, in whole units. The pool gains the amount, fees included, and
/// loses what is given. It fails exactly if there are no fees, the fees exceed
/// the amount, the pool has too little, or a product or sum has no value.
pub proof fn law_oracle_leg_pays_the_oracle_price(
    request: SwapRequest,
    part: OraclePart,
    trade_fees: Option<u128>,
    leg: OracleLeg,
)
    ensures
        request.oracle_leg(part, trade_fees) == Ok::<OracleLeg, SwapError>(leg) <==> {
            let amount = part.amount_to_be_swapped_at_oracle_price as int;
            &&& trade_fees == Some(leg.trade_fees)
            &&& leg.trade_fees <= amount
            &&& part.oracle_price * (amount - leg.trade_fees) <= u128::MAX
            &&& leg.output_tokens * 1_000_000_000 <= part.oracle_price * (amount - leg.trade_fees)
                < (leg.output_tokens + 1) * 1_000_000_000
            &&& leg.new_swap_source_amount == request.swap_source_amount + amount
            &&& leg.new_swap_destination_amount + leg.output_tokens
                == request.swap_destination_amount
        },
        request.oracle_leg(part, trade_fees) matches Err(error) ==> error
            == SwapError::MathOverflow,
{
    let amount = part.amount_to_be_swapped_at_oracle_price as int;
    if trade_fees is Some && trade_fees->0 <= amount {
        let kept = amount - trade_fees->0;
        assert(0 <= part.oracle_price * kept) by (nonlinear_arith)
            requires
                0 <= part.oracle_price,
                0 <= kept,
        ;
        lemma_quotient_bounds(part.oracle_price * kept, 1_000_000_000);
        if leg.output_tokens * 1_000_000_000 <= part.oracle_price * kept < (leg.output_tokens + 1)
            * 1_000_000_000 {
            lemma_is_quotient(leg.output_tokens as int, part.oracle_price * kept, 1_000_000_000);
        }
    }
}

/// Before the curve, the fees on the rest are taken off it and added to the fees
/// on the other part. The rate of both is in millionths of the whole amount.
pub proof fn law_curve_leg_adds_the_fees(
    request: SwapRequest,
    part: OraclePart,
    leg: OracleLeg,
    trade_fees: Option<u128>,
    curve: CurveLeg,
)
    ensures
        request.curve_leg(part, leg, trade_fees) == Ok::<CurveLeg, SwapError>(curve) <==> {
            let asked = request.source_amount_to_be_swapped as int;
            let charged = curve.trade_fee_charged as int;
            &&& trade_fees is Some
            &&& curve.source_amount_after_fees + trade_fees->0
                == part.amount_to_be_swapped_with_invariant_curve
            &&& charged == trade_fees->0 + leg.trade_fees
            &&& charged * 1_000_000 <= u128::MAX
            &&& 0 < asked
            &&& curve.trade_fee_rate * asked <= charged * 1_000_000 < (curve.trade_fee_rate + 1)
                * asked
        },
        request.curve_leg(part, leg, trade_fees) matches Err(error) ==> error
            == SwapError::MathOverflow,
{
    let asked = request.source_amount_to_be_swapped as int;
    if trade_fees is Some && 0 < asked {
        let charged = trade_fees->0 + leg.trade_fees;
        lemma_quotient_bounds(charged * 1_000_000, asked);
        lemma_quotient_reaches(charged * 1_000_000, asked, 0);
        let q = charged * 1_000_000 / asked;
        assert(q <= charged * 1_000_000) by (nonlinear_arith)
            requires
                1 <= asked,
                0 <= q,
                q * asked <= charged * 1_000_000,
        ;
        if curve.trade_fee_rate * asked <= charged * 1_000_000 < (curve.trade_fee_rate + 1)
            * asked {
            lemma_is_quotient(curve.trade_fee_rate as int, charged * 1_000_000, asked);
        }
    }
}

/// What comes out is what the curve gives and what the part at the oracle price
/// gives. An error of the curve is passed on.
pub proof fn law_outputs_add_up(
    request: SwapRequest,
    leg: OracleLeg,
    curve_output: Result<u128, ProgramError>,
    destination: u128,
)
    ensures
        request.destination_amount(leg, curve_output) == Ok::<u128, SwapError>(destination) <==> (
        curve_output matches Ok(output) && destination == output + leg.output_tokens),
        curve_output matches Err(error) ==> request.destination_amount(leg, curve_output) == Err::<
            u128,
            SwapError,
        >(SwapError::Program(error)),
        curve_output is Ok ==> (request.destination_amount(leg, curve_output) matches Err(error)
            ==> error == SwapError::MathOverflow),
{
}

/// A swap settles if both shares of the fee have a value, the pool has what
/// comes out, and the price that is left is within the pool's price range, if it
/// has one. The pool gains the whole amount and loses what comes out, and the
/// result names the fees and their rate.
pub proof fn law_settlement_keeps_the_price_range(
    request: SwapRequest,
    part: OraclePart,
    curve: CurveLeg,
    destination: u128,
    protocol_fee: Option<u128>,
    fund_fee: Option<u128>,
    new_source: int,
    new_destination: int,
)
    requires
        new_source == request.swap_source_amount + request.source_amount_to_be_swapped,
        new_destination + destination == request.swap_destination_amount,
    ensures
        ({
            let pool = *request.pool_state;
            let low = pool.min_swap_at_spot_price as int;
            let high = pool.max_swap_at_spot_price as int;
            let one = 1_000_000_000_000_000_000int;
            let fees = protocol_fee is Some && fund_fee is Some;
            let computable = 0 < new_source <= u128::MAX && 0 <= new_destination && new_destination
                * 1_000_000_000 <= u128::MAX;
            let within = {
                ||| low == 0
                ||| high == 0
                ||| part.trade_direction == TradeDirection::OneForZero && low * new_source
                    <= new_destination * 1_000_000_000 < (high + 1) * new_source
                ||| part.trade_direction == TradeDirection::ZeroForOne && (one / low) * new_source
                    <= new_destination * 1_000_000_000 < (one / high + 1) * new_source
            };
            let settled = request.settlement(part, curve, destination, protocol_fee, fund_fee);
            &&& !fees ==> settled == Err::<SwapResult, SwapError>(SwapError::InvalidFee)
            &&& fees && !computable ==> settled == Err::<SwapResult, SwapError>(
                SwapError::MathOverflow,
            )
            &&& fees && computable && !within ==> settled == Err::<SwapResult, SwapError>(
                SwapError::SwapNotAllowed,
            )
            &&& fees && computable && within ==> (settled matches Ok(result) && {
                &&& result.new_swap_source_amount == new_source
                &&& result.new_swap_destination_amount == new_destination
                &&& result.source_amount_swapped == request.source_amount_to_be_swapped
                &&& result.destination_amount_swapped == destination
                &&& result.dynamic_fee == curve.trade_fee_charged
                &&& Some(result.protocol_fee) == protocol_fee
                &&& Some(result.fund_fee) == fund_fee
                &&& curve.trade_fee_rate <= u64::MAX ==> result.dynamic_fee_rate
                    == curve.trade_fee_rate
                &&& exists|high_bits: int|
                    curve.trade_fee_rate == #[trigger] (high_bits * 0x1_0000_0000_0000_0000)
                        + result.dynamic_fee_rate
            })
        }),
{
    let low = request.pool_state.min_swap_at_spot_price as int;
    let high = request.pool_state.max_swap_at_spot_price as int;
    let one = 1_000_000_000_000_000_000int;
    let scaled = new_destination * 1_000_000_000;
    if 0 < new_source {
        lemma_quotient_reaches(scaled, new_source, low);
        lemma_quotient_reaches(scaled, new_source, high + 1);
        lemma_quotient_reaches(scaled, new_source, one / low);
        lemma_quotient_reaches(scaled, new_source, one / high + 1);
    }
    lemma_fundamental_div_mod(
        curve.trade_fee_rate as int,
        0x1_0000_0000_0000_0000,
    );
    let high_bits = curve.trade_fee_rate as int / 0x1_0000_0000_0000_0000;
    assert(curve.trade_fee_rate == high_bits * 0x1_0000_0000_0000_0000 + curve.trade_fee_rate
        % 0x1_0000_0000_0000_0000);
}

/// A swap that goes to the curve asks the program for the swap of the whole
/// amount, with all that the request holds, and passes its answer on.
pub proof fn law_curve_swap_is_the_programs<P: PoolProgram>(
    request: SwapRequest,
    observation_state: ObservationState,
    is_invoked_by_signed_segmenter: bool,
    result: Result<SwapResult, SwapError>,
) -> (answer: Result<SwapResult, ProgramError>)
    requires
        request.route() == Ok::<SwapRoute, SwapError>(SwapRoute::Curve),
        swap_gives::<P>(request, observation_state, is_invoked_by_signed_segmenter, result),
    ensures
        call_ensures(
            P::curve_swap_base_input,
            (
                request.source_amount_to_be_swapped,
                request.swap_source_amount,
                request.swap_destination_amount,
                request.amm_config,
                &program_pool_state(*request.pool_state),
                request.block_timestamp,
                &observation_state,
                is_invoked_by_signed_segmenter,
            ),
            answer,
        ),
        answer matches Ok(swap) ==> result == Ok::<SwapResult, SwapError>(swap),
        answer matches Err(error) ==> result == Err::<SwapResult, SwapError>(
            SwapError::Program(error),
        ),
{
    let answers = choose|answers: ProgramAnswers|
        #[trigger] request.answered_by::<P>(
            observation_state,
            is_invoked_by_signed_segmenter,
            answers,
        ) && result == request.result(answers);
    answers.curve_swap
}

/// A swap without a route fails with the error of the route.
pub proof fn law_swap_without_route_fails<P: PoolProgram>(
    request: SwapRequest,
    observation_state: ObservationState,
    is_invoked_by_signed_segmenter: bool,
    result: Result<SwapResult, SwapError>,
    error: SwapError,
)
    requires
        request.route() == Err::<SwapRoute, SwapError>(error),
        swap_gives::<P>(request, observation_state, is_invoked_by_signed_segmenter, result),
    ensures
        result == Err::<SwapResult, SwapError>(error),
{
}

/// A split swap asks the program for the dynamic fee rate, for the fees on the
/// part at the oracle price at its trade rate, for the fees on the rest at the
/// dynamic rate, for what the curve gives for the rest less its fees in the pool
/// that the first part leaves, and for the two shares of all fees. It fails with
/// the first of these steps that fails, and settles what they add up to.
pub proof fn law_split_swap_follows_its_steps<P: PoolProgram>(
    request: SwapRequest,
    observation_state: ObservationState,
    is_invoked_by_signed_segmenter: bool,
    part: OraclePart,
    result: Result<SwapResult, SwapError>,
) -> (answers: ProgramAnswers)
    requires
        request.route() == Ok::<SwapRoute, SwapError>(SwapRoute::Oracle(part)),
        swap_gives::<P>(request, observation_state, is_invoked_by_signed_segmenter, result),
    ensures
        call_ensures(
            P::dynamic_fee_rate,
            (
                request.block_timestamp,
                &observation_state,
                FeeType::Volatility,
                request.amm_config.trade_fee_rate,
                &program_pool_state(*request.pool_state),
                is_invoked_by_signed_segmenter,
            ),
            answers.dynamic_fee_rate,
        ),
        answers.dynamic_fee_rate matches Err(error) ==> result == Err::<SwapResult, SwapError>(
            SwapError::Program(error),
        ),
        answers.dynamic_fee_rate matches Ok(dynamic_rate) ==> {
            &&& request.oracle_trade_rate(part, dynamic_rate) matches Err(error) ==> result == Err::<
                SwapResult,
                SwapError,
            >(error)
            &&& request.oracle_trade_rate(part, dynamic_rate) matches Ok(rate) ==> {
                &&& call_ensures(
                    P::ceil_div,
                    (part.amount_to_be_swapped_at_oracle_price, rate as u128, 1_000_000u128),
                    answers.oracle_trade_fees,
                )
                &&& request.oracle_leg(part, answers.oracle_trade_fees) matches Err(error)
                    ==> result == Err::<SwapResult, SwapError>(error)
                &&& request.oracle_leg(part, answers.oracle_trade_fees) matches Ok(leg) ==> {
                    &&& call_ensures(
                        P::ceil_div,
                        (
                            part.amount_to_be_swapped_with_invariant_curve,
                            dynamic_rate as u128,
                            1_000_000u128,
                        ),
                        answers.curve_trade_fees,
                    )
                    &&& request.curve_leg(part, leg, answers.curve_trade_fees) matches Err(error)
                        ==> result == Err::<SwapResult, SwapError>(error)
                    &&& request.curve_leg(part, leg, answers.curve_trade_fees) matches Ok(curve)
                        ==> {
                        &&& call_ensures(
                            P::swap_base_input_without_fees,
                            (
                                curve.source_amount_after_fees,
                                leg.new_swap_source_amount,
                                leg.new_swap_destination_amount,
                            ),
                            answers.curve_output,
                        )
                        &&& request.destination_amount(leg, answers.curve_output) matches Err(error)
                            ==> result == Err::<SwapResult, SwapError>(error)
                        &&& request.destination_amount(leg, answers.curve_output) matches Ok(
                            destination,
                        ) ==> {
                            &&& call_ensures(
                                P::protocol_fee,
                                (curve.trade_fee_charged, request.amm_config.protocol_fee_rate),
                                answers.protocol_fee,
                            )
                            &&& answers.protocol_fee is Some ==> call_ensures(
                                P::fund_fee,
                                (curve.trade_fee_charged, request.amm_config.fund_fee_rate),
                                answers.fund_fee,
                            )
                            &&& result == request.settlement(
                                part,
                                curve,
                                destination,
                                answers.protocol_fee,
                                answers.fund_fee,
                            )
                        }
                    }
                }
            }
        },
{
    choose|answers: ProgramAnswers|
        #[trigger] request.answered_by::<P>(
            observation_state,
            is_invoked_by_signed_segmenter,
            answers,
        ) && result == request.result(answers)
}

/// A split swap that succeeds puts in the whole amount, fees included, and gives
/// what the curve gives for the rest less its fees, and what the part at the
/// oracle price less its fees is worth. What the pool loses is what comes out.
pub proof fn law_split_swap_adds_up<P: PoolProgram>(
    request: SwapRequest,
    observation_state: ObservationState,
    is_invoked_by_signed_segmenter: bool,
    part: OraclePart,
    result: SwapResult,
) -> (answers: ProgramAnswers)
    requires
        request.route() == Ok::<SwapRoute, SwapError>(SwapRoute::Oracle(part)),
        swap_gives::<P>(request, observation_state, is_invoked_by_signed_segmenter, Ok(result)),
    ensures
        ({
            let amount = part.amount_to_be_swapped_at_oracle_price as int;
            let rest = part.amount_to_be_swapped_with_invariant_curve as int;
            let fees = answers.oracle_trade_fees->0 as int;
            let rest_fees = answers.curve_trade_fees->0 as int;
            let from_curve = answers.curve_output->Ok_0 as int;
            let from_oracle = result.destination_amount_swapped - from_curve;
            let asked = request.source_amount_to_be_swapped as int;
            &&& fees <= amount
            &&& rest_fees <= rest
            &&& from_oracle * 1_000_000_000 <= part.oracle_price * (amount - fees) < (from_oracle
                + 1) * 1_000_000_000
            &&& call_ensures(
                P::swap_base_input_without_fees,
                (
                    (rest - rest_fees) as u128,
                    (request.swap_source_amount + amount) as u128,
                    (request.swap_destination_amount - from_oracle) as u128,
                ),
                answers.curve_output,
            )
            &&& call_ensures(
                P::protocol_fee,
                ((fees + rest_fees) as u128, request.amm_config.protocol_fee_rate),
                Some(result.protocol_fee),
            )
            &&& call_ensures(
                P::fund_fee,
                ((fees + rest_fees) as u128, request.amm_config.fund_fee_rate),
                Some(result.fund_fee),
            )
            &&& answers.curve_output is Ok
            &&& result.source_amount_swapped == asked
            &&& result.new_swap_source_amount == request.swap_source_amount + asked
            &&& result.new_swap_destination_amount + result.destination_amount_swapped
                == request.swap_destination_amount
            &&& result.dynamic_fee == fees + rest_fees
            &&& result.dynamic_fee_rate * asked <= result.dynamic_fee * 1_000_000 < (
            result.dynamic_fee_rate + 1) * asked
        }),
{
    let answers = choose|answers: ProgramAnswers|
        #[trigger] request.answered_by::<P>(
            observation_state,
            is_invoked_by_signed_segmenter,
            answers,
        ) && Ok::<SwapResult, SwapError>(result) == request.result(answers);
    let leg = request.oracle_leg(part, answers.oracle_trade_fees)->Ok_0;
    let curve = request.curve_leg(part, leg, answers.curve_trade_fees)->Ok_0;
    law_oracle_leg_pays_the_oracle_price(request, part, answers.oracle_trade_fees, leg);
    law_curve_leg_adds_the_fees(request, part, leg, answers.curve_trade_fees, curve);
    law_fee_is_part_of_what_is_put_in(request, part, answers, result);
    lemma_quotient_bounds(
        result.dynamic_fee * 1_000_000,
        request.source_amount_to_be_swapped as int,
    );
    answers
}

/// The program sees the fields of the pool that both forms have, each as it is,
/// and nothing of the others.
pub proof fn law_program_sees_the_shared_fields(pool: PoolState)
    ensures
        ({
            let seen = program_pool_state(pool);
            &&& seen.amm_config == pool.amm_config
            &&& seen.pool_creator == pool.pool_creator
            &&& seen.token_0_vault == pool.token_0_vault
            &&& seen.token_1_vault == pool.token_1_vault
            &&& seen.token_0_mint == pool.token_0_mint
            &&& seen.token_1_mint == pool.token_1_mint
            &&& seen.token_0_program == pool.token_0_program
            &&& seen.token_1_program == pool.token_1_program
            &&& seen.observation_key == pool.observation_key
            &&& seen.auth_bump == pool.auth_bump
            &&& seen.status == pool.status
            &&& seen.mint_0_decimals == pool.mint_0_decimals
            &&& seen.mint_1_decimals == pool.mint_1_decimals
            &&& seen.lp_supply == pool.lp_supply
            &&& seen.protocol_fees_token_0 == pool.protocol_fees_token_0
            &&& seen.protocol_fees_token_1 == pool.protocol_fees_token_1
            &&& seen.fund_fees_token_0 == pool.fund_fees_token_0
            &&& seen.fund_fees_token_1 == pool.fund_fees_token_1
            &&& seen.open_time == pool.open_time
            &&& seen.recent_epoch == pool.recent_epoch
            &&& seen.cumulative_trade_fees_token_0 == pool.cumulative_trade_fees_token_0
            &&& seen.cumulative_trade_fees_token_1 == pool.cumulative_trade_fees_token_1
            &&& seen.cumulative_volume_token_0 == pool.cumulative_volume_token_0
            &&& seen.cumulative_volume_token_1 == pool.cumulative_volume_token_1
            &&& seen.latest_dynamic_fee_rate == pool.latest_dynamic_fee_rate
            &&& seen.max_trade_fee_rate == pool.max_trade_fee_rate
            &&& seen.volatility_factor == pool.volatility_factor
            &&& seen.token_0_vault_amount == pool.token_0_vault_amount
            &&& seen.token_1_vault_amount == pool.token_1_vault_amount
            &&& seen.max_shared_token0 == pool.max_shared_token0
            &&& seen.max_shared_token1 == pool.max_shared_token1
            &&& seen.token_0_amount_in_kamino == pool.token_0_amount_in_kamino
            &&& seen.token_1_amount_in_kamino == pool.token_1_amount_in_kamino
            &&& seen.withdrawn_kamino_profit_token_0 == pool.withdrawn_kamino_profit_token_0
            &&& seen.withdrawn_kamino_profit_token_1 == pool.withdrawn_kamino_profit_token_1
            &&& seen._padding2 == 0
            &&& forall|i: int| 0 <= i < 32 ==> seen._padding1@[i] == 0
            &&& forall|i: int| 0 <= i < 32 ==> seen.partners@[0].bytes@[i] == 0
            &&& forall|i: int| 0 <= i < 8 ==> seen.padding@[i] == 0
        }),
{
}

} // verus!
