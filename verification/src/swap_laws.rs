//! What holds of every swap.

use vstd::prelude::*;

use vstd::arithmetic::div_mod::{
    lemma_div_is_ordered, lemma_div_is_ordered_by_denominator, lemma_div_pos_is_pos,
    lemma_fundamental_div_mod,
};
use vstd::math::abs;

use crate::error::{ProgramError, SwapError};
use crate::gamma_deseralize_pool_state::PoolState;
use crate::program::{
    FeeType, PoolProgram, SwapResult, TradeDirection, FEE_RATE_DENOMINATOR_VALUE,
};
use crate::states;
use crate::states::{AmmConfig, ObservationState};
use crate::swap_model::{
    amount_at_oracle_price, amount_at_oracle_price_defined, drift_fee, limit_price,
    oracle_price_age, oracle_price_usable, price_cap, price_delay_fee, price_in_direction,
    rate_difference, share_cap, spot_price, spot_price_after, swap_gives, worth, OracleLeg,
    OraclePart, ProgramAnswers, SwapRequest, SwapRoute, D9, D9_TIMES_D9,
};

verus! {

/// A quotient is the largest number whose multiple does not exceed the
/// dividend.
proof fn lemma_quotient(dividend: int, divisor: int)
    requires
        0 <= dividend,
        0 < divisor,
    ensures
        0 <= dividend / divisor,
        divisor * (dividend / divisor) <= dividend,
        dividend < divisor * (dividend / divisor) + divisor,
{
    lemma_fundamental_div_mod(dividend, divisor);
    lemma_div_pos_is_pos(dividend, divisor);
}

/// A number whose multiple does not exceed the dividend does not exceed the
/// quotient.
proof fn lemma_quotient_at_least(dividend: int, divisor: int, number: int)
    requires
        0 <= dividend,
        0 < divisor,
        divisor * number <= dividend,
    ensures
        number <= dividend / divisor,
{
    lemma_quotient(dividend, divisor);
    let q = dividend / divisor;
    assert(number <= q) by (nonlinear_arith)
        requires
            0 < divisor,
            divisor * number <= dividend,
            dividend < divisor * q + divisor,
    ;
}

/// The limit price does not exceed the oracle price.
proof fn lemma_limit_price(oracle_price: int, pool: PoolState)
    requires
        0 <= oracle_price,
        pool.acceptable_price_difference <= FEE_RATE_DENOMINATOR_VALUE,
    ensures
        0 <= limit_price(oracle_price, pool) <= oracle_price,
{
    let d = FEE_RATE_DENOMINATOR_VALUE as int;
    let kept = d - pool.acceptable_price_difference;
    assert(0 <= oracle_price * kept <= oracle_price * d) by (nonlinear_arith)
        requires
            0 <= oracle_price,
            0 <= kept <= d,
    ;
    lemma_quotient(oracle_price * kept, d);
}

/// What is swapped at the oracle price is no more than what is asked for, no
/// more than the pool's share for one swap, and no more than what the limit
/// price leaves room for.
pub proof fn law_oracle_amount_is_capped(
    amount: int,
    source_amount: int,
    destination_amount: int,
    oracle_price: int,
    pool: PoolState,
)
    requires
        0 <= amount,
        0 <= source_amount,
        0 <= destination_amount,
        0 <= oracle_price,
        amount_at_oracle_price_defined(source_amount, destination_amount, oracle_price, pool),
    ensures
        0 <= amount_at_oracle_price(
            amount,
            source_amount,
            destination_amount,
            oracle_price,
            pool,
        ) <= amount,
        amount_at_oracle_price(amount, source_amount, destination_amount, oracle_price, pool)
            <= share_cap(source_amount, pool),
        amount_at_oracle_price(amount, source_amount, destination_amount, oracle_price, pool)
            <= price_cap(source_amount, destination_amount, oracle_price, pool),
        share_cap(source_amount, pool) * FEE_RATE_DENOMINATOR_VALUE <= source_amount
            * pool.max_amount_swappable_at_oracle_price,
{
    let d = FEE_RATE_DENOMINATOR_VALUE as int;
    let z = limit_price(oracle_price, pool);
    lemma_quotient(source_amount * pool.max_amount_swappable_at_oracle_price, d);
    lemma_quotient(abs(z * source_amount - destination_amount * D9) as int, oracle_price + z);
}

/// Swapping that amount at the oracle price, or less, leaves the spot price at
/// the limit price or above it, if it was there before.
pub proof fn law_limit_price_is_kept(
    amount: int,
    asked: int,
    source_amount: int,
    destination_amount: int,
    oracle_price: int,
    pool: PoolState,
)
    requires
        0 <= asked,
        0 <= source_amount,
        0 <= destination_amount,
        0 <= oracle_price,
        0 < source_amount + amount,
        amount_at_oracle_price_defined(source_amount, destination_amount, oracle_price, pool),
        limit_price(oracle_price, pool) * source_amount <= destination_amount * D9,
        0 <= amount <= amount_at_oracle_price(
            asked,
            source_amount,
            destination_amount,
            oracle_price,
            pool,
        ),
    ensures
        worth(amount, oracle_price) <= destination_amount,
        limit_price(oracle_price, pool) <= spot_price_after(
            amount,
            source_amount,
            destination_amount,
            oracle_price,
        ),
{
    let x = source_amount;
    let y = destination_amount * D9;
    let p = oracle_price;
    let z = limit_price(p, pool);
    let cap = price_cap(x, destination_amount, p, pool);
    lemma_limit_price(p, pool);
    lemma_quotient(y - z * x, p + z);
    assert((p + z) * amount <= y - z * x) by (nonlinear_arith)
        requires
            0 < p + z,
            amount <= cap,
            (p + z) * cap <= y - z * x,
    ;
    assert(p * amount + z * (x + amount) <= y) by (nonlinear_arith)
        requires
            (p + z) * amount <= y - z * x,
    ;
    assert(0 <= p * amount && 0 <= z * (x + amount)) by (nonlinear_arith)
        requires
            0 <= p,
            0 <= z,
            0 <= amount,
            0 <= x,
    ;
    lemma_quotient(p * amount, D9 as int);
    let out = worth(amount, p);
    assert(out <= destination_amount) by (nonlinear_arith)
        requires
            D9 * out <= p * amount,
            p * amount <= destination_amount * D9,
            D9 > 0,
    ;
    assert((x + amount) * z <= (destination_amount - out) * D9) by (nonlinear_arith)
        requires
            D9 * out <= p * amount,
            p * amount + z * (x + amount) <= destination_amount * D9,
    ;
    assert(0 <= (destination_amount - out) * D9) by (nonlinear_arith)
        requires
            out <= destination_amount,
            D9 > 0,
    ;
    lemma_quotient_at_least((destination_amount - out) * D9, x + amount, z);
}

/// The rate difference does not tell a price above the oracle price from one
/// that is as far below it, and is zero at the oracle price.
pub proof fn law_rate_difference_is_symmetric(oracle_price: int, distance: int)
    requires
        0 < oracle_price,
        0 <= distance,
    ensures
        rate_difference(oracle_price, oracle_price + distance) == rate_difference(
            oracle_price,
            oracle_price - distance,
        ),
        rate_difference(oracle_price, oracle_price) == 0,
{
    lemma_quotient(0, oracle_price);
    assert(0int / oracle_price == 0) by (nonlinear_arith)
        requires
            oracle_price > 0,
    ;
}

/// A price that is further from the oracle price has no smaller rate
/// difference.
pub proof fn law_rate_difference_grows_with_distance(oracle_price: int, near: int, far: int)
    requires
        0 < oracle_price,
        abs(near - oracle_price) <= abs(far - oracle_price),
    ensures
        0 <= rate_difference(oracle_price, near) <= rate_difference(oracle_price, far),
{
    let d = FEE_RATE_DENOMINATOR_VALUE as int;
    let a = abs(near - oracle_price) as int;
    let b = abs(far - oracle_price) as int;
    assert(0 <= a * d <= b * d) by (nonlinear_arith)
        requires
            0 <= a <= b,
            0 < d,
    ;
    lemma_div_is_ordered(a * d, b * d, oracle_price);
    lemma_div_pos_is_pos(a * d, oracle_price);
}

/// The fee rate for drift is between zero and the pool's maximum, and zero
/// where the pool has no drift factor.
pub proof fn law_drift_fee_is_capped(
    amount: int,
    source_amount: int,
    destination_amount: int,
    oracle_price: int,
    pool: PoolState,
)
    requires
        0 < oracle_price,
    ensures
        0 <= drift_fee(amount, source_amount, destination_amount, oracle_price, pool)
            <= pool.max_drift_factor,
        pool.drift_factor == 0 ==> drift_fee(
            amount,
            source_amount,
            destination_amount,
            oracle_price,
            pool,
        ) == 0,
{
    let price = spot_price_after(amount, source_amount, destination_amount, oracle_price);
    let rate = rate_difference(oracle_price, price);
    law_rate_difference_grows_with_distance(oracle_price, price, price);
    assert(0 <= rate * pool.drift_factor) by (nonlinear_arith)
        requires
            0 <= rate,
            0 <= pool.drift_factor,
    ;
    assert(pool.drift_factor == 0 ==> rate * pool.drift_factor == 0) by (nonlinear_arith);
}

/// The drift is computed as if no fee were deducted. Where the price after the
/// swap is no better than the oracle price, that makes the rate difference no
/// smaller than the one that the swap leaves.
pub proof fn law_drift_is_not_underestimated(
    amount: int,
    fee: int,
    source_amount: int,
    destination_amount: int,
    oracle_price: int,
)
    requires
        0 <= fee <= amount,
        0 < source_amount + amount,
        0 < oracle_price,
        worth(amount, oracle_price) <= destination_amount,
        spot_price(
            destination_amount - worth(amount - fee, oracle_price),
            source_amount + amount,
        ) <= oracle_price,
    ensures
        rate_difference(
            oracle_price,
            spot_price(
                destination_amount - worth(amount - fee, oracle_price),
                source_amount + amount,
            ),
        ) <= rate_difference(
            oracle_price,
            spot_price_after(amount, source_amount, destination_amount, oracle_price),
        ),
{
    let full = worth(amount, oracle_price);
    let paid = worth(amount - fee, oracle_price);
    let x = source_amount + amount;
    assert(0 <= oracle_price * (amount - fee) <= oracle_price * amount) by (nonlinear_arith)
        requires
            0 < oracle_price,
            0 <= fee <= amount,
    ;
    lemma_div_is_ordered(oracle_price * (amount - fee), oracle_price * amount, D9 as int);
    assert((destination_amount - full) * D9 <= (destination_amount - paid) * D9)
        by (nonlinear_arith)
        requires
            paid <= full,
            D9 > 0,
    ;
    lemma_div_is_ordered((destination_amount - full) * D9, (destination_amount - paid) * D9, x);
    law_rate_difference_grows_with_distance(
        oracle_price,
        spot_price(destination_amount - paid, x),
        spot_price(destination_amount - full, x),
    );
}

/// The fee rate for an old price is between zero and the pool's maximum, is
/// zero for a price of this second, and does not fall as time goes by.
pub proof fn law_price_delay_fee_is_capped_and_grows(earlier: u64, later: u64, pool: PoolState)
    requires
        earlier <= later,
    ensures
        0 <= price_delay_fee(earlier, pool) <= price_delay_fee(later, pool)
            <= pool.max_oracle_price_delay_fee,
        earlier <= pool.oracle_price_updated_at ==> price_delay_fee(earlier, pool) == 0,
{
    let per_second = pool.oracle_price_delay_fee_rate_per_second as int;
    let a = oracle_price_age(earlier, pool);
    let b = oracle_price_age(later, pool);
    assert(0 <= a * per_second <= b * per_second) by (nonlinear_arith)
        requires
            0 <= a <= b,
            0 <= per_second,
    ;
    assert(a == 0 ==> a * per_second == 0) by (nonlinear_arith);
}

/// A price and its inverse: their product is at most one, and falls short of
/// one by less than the price.
pub proof fn law_prices_of_both_directions_are_inverse(price: int)
    requires
        0 < price,
    ensures
        price_in_direction(TradeDirection::ZeroForOne, price) * price_in_direction(
            TradeDirection::OneForZero,
            price,
        ) <= D9_TIMES_D9,
        D9_TIMES_D9 < price_in_direction(TradeDirection::ZeroForOne, price) * price_in_direction(
            TradeDirection::OneForZero,
            price,
        ) + price,
{
    lemma_quotient(D9_TIMES_D9 as int, price);
    let q = D9_TIMES_D9 as int / price;
    assert(q * price == price * q) by (nonlinear_arith);
}

/// Without an oracle price that is recent enough, the whole swap goes through
/// the curve.
pub proof fn law_stale_price_is_not_used(request: SwapRequest)
    requires
        !oracle_price_usable(request.block_timestamp, *request.pool_state),
    ensures
        request.route() == Ok::<SwapRoute, SwapError>(SwapRoute::Curve),
{
}

/// A swap at a spot price that is better than the oracle price is not left to
/// the curve, as long as there is something to swap at the oracle price.
pub proof fn law_better_spot_price_is_not_left_to_curve(request: SwapRequest)
    requires
        oracle_price_usable(request.block_timestamp, *request.pool_state),
        request.spot_price() > request.oracle_price(),
        request.oracle_amount() != 0,
    ensures
        request.route() != Ok::<SwapRoute, SwapError>(SwapRoute::Curve),
{
}

/// A swap that is split is split completely: both parts together are what is
/// asked for, and the part at the oracle price is not empty. The oracle price
/// is recent enough, and is not zero.
pub proof fn law_split_is_complete(request: SwapRequest, part: OraclePart)
    requires
        request.route() == Ok::<SwapRoute, SwapError>(SwapRoute::Oracle(part)),
    ensures
        oracle_price_usable(request.block_timestamp, *request.pool_state),
        0 < part.amount_to_be_swapped_at_oracle_price,
        part.amount_to_be_swapped_at_oracle_price + part.amount_to_be_swapped_with_invariant_curve
            == request.source_amount_to_be_swapped,
        part.amount_to_be_swapped_at_oracle_price == request.oracle_amount(),
        part.oracle_price == request.oracle_price(),
        0 < part.oracle_price,
        0 < request.swap_source_amount,
{
    let price = request.pool_state.oracle_price_token_0_by_token_1 as int;
    lemma_quotient(D9_TIMES_D9 as int, price);
    assert(D9_TIMES_D9 as int / price <= D9_TIMES_D9) by (nonlinear_arith)
        requires
            price >= 1,
            price * (D9_TIMES_D9 as int / price) <= D9_TIMES_D9,
            0 <= D9_TIMES_D9 as int / price,
    ;
    law_oracle_amount_is_capped(
        request.source_amount_to_be_swapped as int,
        request.swap_source_amount as int,
        request.swap_destination_amount as int,
        request.oracle_price(),
        *request.pool_state,
    );
}

/// The part of a swap at the oracle price leaves the spot price at the limit
/// price or above it, if it was there before.
pub proof fn law_split_keeps_limit_price(
    request: SwapRequest,
    part: OraclePart,
    trade_fees: Option<u128>,
    leg: OracleLeg,
)
    requires
        request.route() == Ok::<SwapRoute, SwapError>(SwapRoute::Oracle(part)),
        request.oracle_leg(part, trade_fees) == Ok::<OracleLeg, SwapError>(leg),
        limit_price(request.oracle_price(), *request.pool_state) <= request.spot_price(),
    ensures
        limit_price(request.oracle_price(), *request.pool_state) <= spot_price(
            leg.new_swap_destination_amount as int,
            leg.new_swap_source_amount as int,
        ),
{
    law_split_is_complete(request, part);
    let x = request.swap_source_amount as int;
    let y = request.swap_destination_amount as int;
    let p = request.oracle_price();
    let z = limit_price(p, *request.pool_state);
    let s = request.spot_price();
    let amount = part.amount_to_be_swapped_at_oracle_price as int;
    let kept = amount - leg.trade_fees;
    lemma_quotient(y * D9, x);
    assert(z * x <= y * D9) by (nonlinear_arith)
        requires
            z <= s,
            x * s <= y * D9,
            0 < x,
    ;
    law_limit_price_is_kept(
        amount,
        request.source_amount_to_be_swapped as int,
        x,
        y,
        p,
        *request.pool_state,
    );
    assert(p * kept <= p * amount) by (nonlinear_arith)
        requires
            0 < p,
            kept <= amount,
    ;
    lemma_div_is_ordered(p * kept, p * amount, D9 as int);
    assert((y - worth(amount, p)) * D9 <= (y - worth(kept, p)) * D9) by (nonlinear_arith)
        requires
            worth(kept, p) <= worth(amount, p),
            D9 > 0,
    ;
    lemma_div_is_ordered((y - worth(amount, p)) * D9, (y - worth(kept, p)) * D9, x + amount);
}

/// A spot price that is better than the oracle price is above the limit price.
pub proof fn law_better_spot_price_is_above_limit(request: SwapRequest)
    requires
        request.spot_price() > request.oracle_price(),
        request.pool_state.acceptable_price_difference <= FEE_RATE_DENOMINATOR_VALUE,
        request.pool_state.oracle_price_token_0_by_token_1 > 0,
    ensures
        limit_price(request.oracle_price(), *request.pool_state) < request.spot_price(),
{
    lemma_quotient(
        D9_TIMES_D9 as int,
        request.pool_state.oracle_price_token_0_by_token_1 as int,
    );
    lemma_limit_price(request.oracle_price(), *request.pool_state);
}

/// The fee rate at the oracle price is no less than the dynamic rate and no
/// less than the pool's minimum.
pub proof fn law_oracle_trade_rate_is_at_least(
    request: SwapRequest,
    part: OraclePart,
    dynamic_fee_rate: u64,
    rate: u64,
)
    requires
        0 < part.oracle_price,
        request.oracle_trade_rate(part, dynamic_fee_rate) == Ok::<u64, SwapError>(rate),
    ensures
        dynamic_fee_rate <= rate,
        request.pool_state.min_trade_rate_at_oracle_price <= rate,
{
    law_drift_fee_is_capped(
        part.amount_to_be_swapped_at_oracle_price as int,
        request.swap_source_amount as int,
        request.swap_destination_amount as int,
        part.oracle_price as int,
        *request.pool_state,
    );
    law_price_delay_fee_is_capped_and_grows(
        request.block_timestamp,
        request.block_timestamp,
        *request.pool_state,
    );
}

/// A swap that is split neither makes nor loses tokens: the pool gains what is
/// put in and loses what comes out, which it had.
pub proof fn law_swap_conserves_tokens(
    request: SwapRequest,
    part: OraclePart,
    answers: ProgramAnswers,
    result: SwapResult,
)
    requires
        request.route() == Ok::<SwapRoute, SwapError>(SwapRoute::Oracle(part)),
        request.result(answers) == Ok::<SwapResult, SwapError>(result),
    ensures
        result.source_amount_swapped == request.source_amount_to_be_swapped,
        result.new_swap_source_amount == request.swap_source_amount
            + result.source_amount_swapped,
        result.new_swap_destination_amount + result.destination_amount_swapped
            == request.swap_destination_amount,
{
}

/// The fee of a swap that is split is no more than what is put in, and its rate
/// is the fee's share of that, so no more than the whole.
pub proof fn law_fee_is_part_of_what_is_put_in(
    request: SwapRequest,
    part: OraclePart,
    answers: ProgramAnswers,
    result: SwapResult,
)
    requires
        request.route() == Ok::<SwapRoute, SwapError>(SwapRoute::Oracle(part)),
        request.result(answers) == Ok::<SwapResult, SwapError>(result),
    ensures
        result.dynamic_fee <= request.source_amount_to_be_swapped,
        result.dynamic_fee_rate == result.dynamic_fee * FEE_RATE_DENOMINATOR_VALUE
            / request.source_amount_to_be_swapped as int,
        result.dynamic_fee_rate <= FEE_RATE_DENOMINATOR_VALUE,
        result.dynamic_fee == answers.oracle_trade_fees->0 + answers.curve_trade_fees->0,
        result.protocol_fee == answers.protocol_fee->0,
        result.fund_fee == answers.fund_fee->0,
{
    law_split_is_complete(request, part);
    let fee = answers.oracle_trade_fees->0 + answers.curve_trade_fees->0;
    let whole = request.source_amount_to_be_swapped as int;
    let d = FEE_RATE_DENOMINATOR_VALUE as int;
    lemma_quotient(fee * d, whole);
    let rate = fee * d / whole;
    assert(rate <= d) by (nonlinear_arith)
        requires
            0 < whole,
            0 <= fee <= whole,
            whole * rate <= fee * d,
            0 < d,
    ;
}

/// What comes out of a swap that is split is what the curve gives and what the
/// part at the oracle price is worth after its fee. No more is paid for that
/// part than the oracle price.
pub proof fn law_oracle_price_is_not_exceeded(
    request: SwapRequest,
    part: OraclePart,
    answers: ProgramAnswers,
    result: SwapResult,
)
    requires
        request.route() == Ok::<SwapRoute, SwapError>(SwapRoute::Oracle(part)),
        request.result(answers) == Ok::<SwapResult, SwapError>(result),
    ensures
        answers.oracle_trade_fees->0 <= part.amount_to_be_swapped_at_oracle_price,
        result.destination_amount_swapped == answers.curve_output->Ok_0 + worth(
            part.amount_to_be_swapped_at_oracle_price - answers.oracle_trade_fees->0,
            part.oracle_price as int,
        ),
        (result.destination_amount_swapped - answers.curve_output->Ok_0) * D9 <= part.oracle_price
            * (part.amount_to_be_swapped_at_oracle_price - answers.oracle_trade_fees->0),
{
    let kept = part.amount_to_be_swapped_at_oracle_price - answers.oracle_trade_fees->0;
    assert(0 <= part.oracle_price * kept) by (nonlinear_arith)
        requires
            0 <= part.oracle_price,
            0 <= kept,
    ;
    lemma_quotient(part.oracle_price * kept, D9 as int);
}

/// A swap that is split and has a result leaves the price in the pool's price
/// range, if the pool has one.
pub proof fn law_price_range_is_kept(
    request: SwapRequest,
    part: OraclePart,
    answers: ProgramAnswers,
    result: SwapResult,
)
    requires
        request.route() == Ok::<SwapRoute, SwapError>(SwapRoute::Oracle(part)),
        request.result(answers) == Ok::<SwapResult, SwapError>(result),
        request.has_price_range(),
    ensures
        price_in_direction(
            request.direction(),
            request.pool_state.min_swap_at_spot_price as int,
        ) <= spot_price(
            result.new_swap_destination_amount as int,
            result.new_swap_source_amount as int,
        ) <= price_in_direction(
            request.direction(),
            request.pool_state.max_swap_at_spot_price as int,
        ),
{
}

/// The bounds of the price range are each inverted for a swap of token 0 into
/// token 1, and are not exchanged. So a range whose inverted bounds differ
/// allows no such swap.
pub proof fn law_inverted_price_range_is_empty(request: SwapRequest, price: int)
    requires
        request.has_price_range(),
        request.pool_state.min_swap_at_spot_price <= request.pool_state.max_swap_at_spot_price,
        price_in_direction(
            TradeDirection::ZeroForOne,
            request.pool_state.min_swap_at_spot_price as int,
        ) != price_in_direction(
            TradeDirection::ZeroForOne,
            request.pool_state.max_swap_at_spot_price as int,
        ),
    ensures
        !request.price_allowed(TradeDirection::ZeroForOne, price),
{
    lemma_div_is_ordered_by_denominator(
        D9_TIMES_D9 as int,
        request.pool_state.min_swap_at_spot_price as int,
        request.pool_state.max_swap_at_spot_price as int,
    );
}

/// Whether what the program calculates for a swap is a function of the
/// arguments.
pub open spec fn calculations_are_functions<P: PoolProgram>() -> bool {
    &&& forall|
        args: (
            u128,
            u128,
            u128,
            &AmmConfig,
            &states::PoolState,
            u64,
            &ObservationState,
            bool,
        ),
        one: Result<SwapResult, ProgramError>,
        other: Result<SwapResult, ProgramError>,
    | #[trigger]
        call_ensures(P::curve_swap_base_input, args, one) && #[trigger] call_ensures(
            P::curve_swap_base_input,
            args,
            other,
        ) ==> one == other
    &&& forall|
        args: (u64, &ObservationState, FeeType, u64, &states::PoolState, bool),
        one: Result<u64, ProgramError>,
        other: Result<u64, ProgramError>,
    | #[trigger]
        call_ensures(P::dynamic_fee_rate, args, one) && #[trigger] call_ensures(
            P::dynamic_fee_rate,
            args,
            other,
        ) ==> one == other
    &&& forall|args: (u128, u128, u128), one: Option<u128>, other: Option<u128>| #[trigger]
        call_ensures(P::ceil_div, args, one) && #[trigger] call_ensures(P::ceil_div, args, other)
            ==> one == other
    &&& forall|
        args: (u128, u128, u128),
        one: Result<u128, ProgramError>,
        other: Result<u128, ProgramError>,
    | #[trigger]
        call_ensures(P::swap_base_input_without_fees, args, one) && #[trigger] call_ensures(
            P::swap_base_input_without_fees,
            args,
            other,
        ) ==> one == other
    &&& forall|args: (u128, u64), one: Option<u128>, other: Option<u128>| #[trigger]
        call_ensures(P::protocol_fee, args, one) && #[trigger] call_ensures(
            P::protocol_fee,
            args,
            other,
        ) ==> one == other
    &&& forall|args: (u128, u64), one: Option<u128>, other: Option<u128>| #[trigger]
        call_ensures(P::fund_fee, args, one) && #[trigger] call_ensures(P::fund_fee, args, other)
            ==> one == other
}

/// Where the program's calculations are functions of their arguments, a swap has
/// one result.
pub proof fn law_swap_is_determined<P: PoolProgram>(
    request: SwapRequest,
    observation_state: ObservationState,
    is_invoked_by_signed_segmenter: bool,
    one: Result<SwapResult, SwapError>,
    other: Result<SwapResult, SwapError>,
)
    requires
        calculations_are_functions::<P>(),
        swap_gives::<P>(request, observation_state, is_invoked_by_signed_segmenter, one),
        swap_gives::<P>(request, observation_state, is_invoked_by_signed_segmenter, other),
    ensures
        one == other,
{
}

/// A swap of which nothing can be swapped at the oracle price, and of which the
/// prices can be computed, is the program's swap on the curve.
pub proof fn law_nothing_at_oracle_price_is_a_curve_swap(
    request: SwapRequest,
    answers: ProgramAnswers,
)
    requires
        request.oracle_amount() == 0,
        request.route() is Ok,
    ensures
        request.route() == Ok::<SwapRoute, SwapError>(SwapRoute::Curve),
        request.result(answers) == (match answers.curve_swap {
            Err(error) => Err(SwapError::Program(error)),
            Ok(result) => Ok(result),
        }),
{
}

} // verus!
