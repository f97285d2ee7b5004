//! Swaps at the oracle price.

use vstd::prelude::*;

use crate::error::{ProgramError, SwapError};
use crate::gamma_deseralize_pool_state::{program_pool_state, PoolState};
use crate::program::{
    FeeType, PoolProgram, SwapResult, TradeDirection, FEE_RATE_DENOMINATOR_VALUE,
};
use crate::states;
use crate::states::{AmmConfig, ObservationState};
use crate::swap_model;
use crate::swap_model::{
    CurveLeg, OracleLeg, OraclePart, ProgramAnswers, SwapRequest, SwapRoute, D9, D9_TIMES_D9,
};

verus! {

fn abs_diff(a: u128, b: u128) -> (difference: u128)
    ensures
        difference == vstd::math::abs(a - b),
{
    if a >= b {
        a - b
    } else {
        b - a
    }
}

pub struct OracleBasedSwapCalculator {}

impl OracleBasedSwapCalculator {
    /// Get the amount to be swapped at oracle price without reaching the
    /// acceptable price difference.
    ///
    /// The oracle price is that of the source token, in the destination token.
    pub fn get_amount_to_be_swapped_at_oracle_price(
        source_amount_to_be_swapped: u128,
        swap_source_amount: u128,
        swap_destination_amount: u128,
        oracle_price: u128,
        pool_state: &PoolState,
    ) -> (result: Result<u128, SwapError>)
        ensures
            result is Ok <==> swap_model::amount_at_oracle_price_defined(
                swap_source_amount as int,
                swap_destination_amount as int,
                oracle_price as int,
                *pool_state,
            ),
            result matches Ok(amount) ==> amount == swap_model::amount_at_oracle_price(
                source_amount_to_be_swapped as int,
                swap_source_amount as int,
                swap_destination_amount as int,
                oracle_price as int,
                *pool_state,
            ),
            result matches Err(error) ==> error == SwapError::MathOverflow,
    {
        let denominator: u128 = FEE_RATE_DENOMINATOR_VALUE as u128;
        let share_scaled = match swap_source_amount.checked_mul(
            pool_state.max_amount_swappable_at_oracle_price as u128,
        ) {
            Some(value) => value,
            None => return Err(SwapError::MathOverflow),
        };
        let max_amount_swappable_at_oracle_price: u128 = share_scaled / denominator;

        if pool_state.acceptable_price_difference as u64 > FEE_RATE_DENOMINATOR_VALUE {
            return Err(SwapError::MathOverflow);
        }
        let price_difference_limit: u64 = FEE_RATE_DENOMINATOR_VALUE
            - pool_state.acceptable_price_difference as u64;
        let limit_scaled = match oracle_price.checked_mul(price_difference_limit as u128) {
            Some(value) => value,
            None => return Err(SwapError::MathOverflow),
        };
        let limit_price: u128 = limit_scaled / denominator;

        let z_times_x = match limit_price.checked_mul(swap_source_amount) {
            Some(value) => value,
            None => return Err(SwapError::MathOverflow),
        };
        let y_scaled_by_d9 = match swap_destination_amount.checked_mul(D9) {
            Some(value) => value,
            None => return Err(SwapError::MathOverflow),
        };
        let z_plus_p = match oracle_price.checked_add(limit_price) {
            Some(value) => value,
            None => return Err(SwapError::MathOverflow),
        };
        if z_plus_p == 0 {
            return Err(SwapError::MathOverflow);
        }
        let price_cap: u128 = abs_diff(z_times_x, y_scaled_by_d9) / z_plus_p;

        let max_swap_at_oracle_price: u128 = if price_cap < max_amount_swappable_at_oracle_price {
            price_cap
        } else {
            max_amount_swappable_at_oracle_price
        };
        if source_amount_to_be_swapped < max_swap_at_oracle_price {
            Ok(source_amount_to_be_swapped)
        } else {
            Ok(max_swap_at_oracle_price)
        }
    }

    /// How far the spot price is from the oracle price, as a rate.
    pub fn get_spot_price_and_oracle_price_rate_difference(
        oracle_price: u128,
        spot_price: u128,
    ) -> (result: Result<u128, SwapError>)
        ensures
            result is Ok <==> swap_model::rate_difference_defined(
                oracle_price as int,
                spot_price as int,
            ),
            result matches Ok(rate) ==> rate == swap_model::rate_difference(
                oracle_price as int,
                spot_price as int,
            ),
            result matches Err(error) ==> error == SwapError::MathOverflow,
    {
        let difference: u128 = abs_diff(spot_price, oracle_price);
        match difference.checked_mul(FEE_RATE_DENOMINATOR_VALUE as u128) {
            Some(scaled) => {
                if oracle_price == 0 {
                    Err(SwapError::MathOverflow)
                } else {
                    Ok(scaled / oracle_price)
                }
            },
            None => Err(SwapError::MathOverflow),
        }
    }

    /// The fee rate for a swap at the oracle price that moves the spot price
    /// away from the oracle price.
    ///
    /// The whole amount is taken to be swapped, though the fee is deducted
    /// before: that makes the drift, and so the fee, a little larger.
    pub fn get_drift_fee(
        amount_in_swappable_at_oracle_price: u128,
        swap_source_amount: u128,
        swap_destination_amount: u128,
        oracle_price: u128,
        pool_state: &PoolState,
    ) -> (result: Result<u64, SwapError>)
        ensures
            result is Ok <==> swap_model::drift_fee_defined(
                amount_in_swappable_at_oracle_price as int,
                swap_source_amount as int,
                swap_destination_amount as int,
                oracle_price as int,
                *pool_state,
            ),
            result matches Ok(fee) ==> fee == swap_model::drift_fee(
                amount_in_swappable_at_oracle_price as int,
                swap_source_amount as int,
                swap_destination_amount as int,
                oracle_price as int,
                *pool_state,
            ),
            result matches Err(error) ==> error == SwapError::MathOverflow,
    {
        let amount_out_scaled = match oracle_price.checked_mul(
            amount_in_swappable_at_oracle_price,
        ) {
            Some(value) => value,
            None => return Err(SwapError::MathOverflow),
        };
        let amount_out: u128 = amount_out_scaled / D9;
        let new_swap_source_amount = match swap_source_amount.checked_add(
            amount_in_swappable_at_oracle_price,
        ) {
            Some(value) => value,
            None => return Err(SwapError::MathOverflow),
        };
        let new_swap_destination_amount = match swap_destination_amount.checked_sub(amount_out) {
            Some(value) => value,
            None => return Err(SwapError::MathOverflow),
        };
        let new_spot_price = match Self::spot_price(
            new_swap_destination_amount,
            new_swap_source_amount,
        ) {
            Ok(value) => value,
            Err(error) => return Err(error),
        };
        let rate_difference = match Self::get_spot_price_and_oracle_price_rate_difference(
            oracle_price,
            new_spot_price,
        ) {
            Ok(value) => value,
            Err(error) => return Err(error),
        };
        let drift_fee = match rate_difference.checked_mul(pool_state.drift_factor as u128) {
            Some(value) => value,
            None => return Err(SwapError::MathOverflow),
        };
        if drift_fee < pool_state.max_drift_factor as u128 {
            Ok(drift_fee as u64)
        } else {
            Ok(pool_state.max_drift_factor as u64)
        }
    }

    /// The fee rate for the age of the oracle price.
    pub fn get_price_delay_fee(current_time: u64, pool_state: &PoolState) -> (result: Result<
        u64,
        SwapError,
    >)
        ensures
            result is Ok <==> swap_model::price_delay_fee_defined(current_time, *pool_state),
            result matches Ok(fee) ==> fee == swap_model::price_delay_fee(
                current_time,
                *pool_state,
            ),
            result matches Err(error) ==> error == SwapError::MathOverflow,
    {
        let difference: u64 = current_time.saturating_sub(pool_state.oracle_price_updated_at);
        let price_delay_fee = match difference.checked_mul(
            pool_state.oracle_price_delay_fee_rate_per_second as u64,
        ) {
            Some(value) => value,
            None => return Err(SwapError::MathOverflow),
        };
        if price_delay_fee < pool_state.max_oracle_price_delay_fee as u64 {
            Ok(price_delay_fee)
        } else {
            Ok(pool_state.max_oracle_price_delay_fee as u64)
        }
    }

    /// The price of the source token in a pool with these amounts.
    fn spot_price(destination_amount: u128, source_amount: u128) -> (result: Result<
        u128,
        SwapError,
    >)
        ensures
            result is Ok <==> swap_model::spot_price_defined(
                destination_amount as int,
                source_amount as int,
            ),
            result matches Ok(price) ==> price == swap_model::spot_price(
                destination_amount as int,
                source_amount as int,
            ),
            result matches Err(error) ==> error == SwapError::MathOverflow,
    {
        match destination_amount.checked_mul(D9) {
            Some(scaled) => {
                if source_amount == 0 {
                    Err(SwapError::MathOverflow)
                } else {
                    Ok(scaled / source_amount)
                }
            },
            None => Err(SwapError::MathOverflow),
        }
    }

    /// A price of token 1 in token 0, as the price of the token that goes in.
    fn price_in_direction(direction: TradeDirection, price: u128) -> (result: u128)
        requires
            price > 0,
        ensures
            result == swap_model::price_in_direction(direction, price as int),
    {
        match direction {
            TradeDirection::OneForZero => price,
            TradeDirection::ZeroForOne => D9_TIMES_D9 / price,
        }
    }

    /// Subtract fees and calculate how much destination token will be received
    /// for a given amount of source token.
    pub fn swap_base_input<P: PoolProgram>(
        source_amount_to_be_swapped: u128,
        swap_source_amount: u128,
        swap_destination_amount: u128,
        amm_config: &AmmConfig,
        pool_state: &PoolState,
        block_timestamp: u64,
        observation_state: &ObservationState,
        is_invoked_by_signed_segmenter: bool,
    ) -> (result: Result<SwapResult, SwapError>)
        ensures
            swap_model::swap_gives::<P>(
                SwapRequest {
                    source_amount_to_be_swapped,
                    swap_source_amount,
                    swap_destination_amount,
                    amm_config,
                    pool_state,
                    block_timestamp,
                },
                *observation_state,
                is_invoked_by_signed_segmenter,
                result,
            ),
    {
        let request = SwapRequest {
            source_amount_to_be_swapped,
            swap_source_amount,
            swap_destination_amount,
            amm_config,
            pool_state,
            block_timestamp,
        };
        request.swap::<P>(observation_state, is_invoked_by_signed_segmenter)
    }
}

impl<'a> SwapRequest<'a> {
    /// Decides where the swap is settled.
    pub fn find_route(&self) -> (result: Result<SwapRoute, SwapError>)
        ensures
            result == self.route(),
    {
        let pool_state = self.pool_state;
        let oracle_price_updated_at: u64 = pool_state.oracle_price_updated_at;
        let difference: u64 = self.block_timestamp.saturating_sub(oracle_price_updated_at);
        if difference > pool_state.max_oracle_price_update_time_diff as u64
            || self.block_timestamp < oracle_price_updated_at || oracle_price_updated_at == 0
            || pool_state.oracle_price_token_0_by_token_1 == 0 {
            return Ok(SwapRoute::Curve);
        }
        let trade_direction = if self.swap_source_amount
            == pool_state.token_0_vault_amount as u128 {
            TradeDirection::ZeroForOne
        } else {
            TradeDirection::OneForZero
        };
        let spot_price = match OracleBasedSwapCalculator::spot_price(
            self.swap_destination_amount,
            self.swap_source_amount,
        ) {
            Ok(value) => value,
            Err(error) => return Err(error),
        };
        let oracle_price: u128 = OracleBasedSwapCalculator::price_in_direction(
            trade_direction,
            pool_state.oracle_price_token_0_by_token_1,
        );
        let rate_difference =
            match OracleBasedSwapCalculator::get_spot_price_and_oracle_price_rate_difference(
            oracle_price,
            spot_price,
        ) {
            Ok(value) => value,
            Err(error) => return Err(error),
        };
        // A spot price that is better than the oracle price must not be traded
        // on the curve: liquidity providers would lose to arbitrage.
        if spot_price <= oracle_price && rate_difference
            > pool_state.acceptable_price_difference as u128 {
            return Ok(SwapRoute::Curve);
        }
        let amount = match OracleBasedSwapCalculator::get_amount_to_be_swapped_at_oracle_price(
            self.source_amount_to_be_swapped,
            self.swap_source_amount,
            self.swap_destination_amount,
            oracle_price,
            pool_state,
        ) {
            Ok(value) => value,
            Err(error) => return Err(error),
        };
        if amount == 0 {
            return Ok(SwapRoute::Curve);
        }
        Ok(
            SwapRoute::Oracle(
                OraclePart {
                    trade_direction,
                    oracle_price,
                    amount_to_be_swapped_at_oracle_price: amount,
                    amount_to_be_swapped_with_invariant_curve: self.source_amount_to_be_swapped
                        - amount,
                },
            ),
        )
    }

    /// Computes the fee rate of the part that is swapped at the oracle price.
    pub fn find_oracle_trade_rate(&self, part: &OraclePart, dynamic_fee_rate: u64) -> (result:
        Result<u64, SwapError>)
        ensures
            result == self.oracle_trade_rate(*part, dynamic_fee_rate),
    {
        let min_rate: u64 = self.pool_state.min_trade_rate_at_oracle_price as u64;
        let base_rate: u64 = if dynamic_fee_rate > min_rate {
            dynamic_fee_rate
        } else {
            min_rate
        };
        let drift_fee = match OracleBasedSwapCalculator::get_drift_fee(
            part.amount_to_be_swapped_at_oracle_price,
            self.swap_source_amount,
            self.swap_destination_amount,
            part.oracle_price,
            self.pool_state,
        ) {
            Ok(value) => value,
            Err(error) => return Err(error),
        };
        let price_delay_fee = match OracleBasedSwapCalculator::get_price_delay_fee(
            self.block_timestamp,
            self.pool_state,
        ) {
            Ok(value) => value,
            Err(error) => return Err(error),
        };
        let rate_with_drift = match base_rate.checked_add(drift_fee) {
            Some(value) => value,
            None => return Err(SwapError::MathOverflow),
        };
        match rate_with_drift.checked_add(price_delay_fee) {
            Some(value) => Ok(value),
            None => Err(SwapError::MathOverflow),
        }
    }

    /// Swaps a part of the amount at the oracle price.
    pub fn swap_at_oracle_price(&self, part: &OraclePart, trade_fees: Option<u128>) -> (result:
        Result<OracleLeg, SwapError>)
        ensures
            result == self.oracle_leg(*part, trade_fees),
    {
        let amount: u128 = part.amount_to_be_swapped_at_oracle_price;
        let trade_fees = match trade_fees {
            Some(value) => value,
            None => return Err(SwapError::MathOverflow),
        };
        let amount_after_fees = match amount.checked_sub(trade_fees) {
            Some(value) => value,
            None => return Err(SwapError::MathOverflow),
        };
        let output_scaled = match part.oracle_price.checked_mul(amount_after_fees) {
            Some(value) => value,
            None => return Err(SwapError::MathOverflow),
        };
        let output_tokens: u128 = output_scaled / D9;
        let new_swap_source_amount = match self.swap_source_amount.checked_add(amount) {
            Some(value) => value,
            None => return Err(SwapError::MathOverflow),
        };
        match self.swap_destination_amount.checked_sub(output_tokens) {
            Some(new_swap_destination_amount) => Ok(
                OracleLeg {
                    trade_fees,
                    output_tokens,
                    new_swap_source_amount,
                    new_swap_destination_amount,
                },
            ),
            None => Err(SwapError::MathOverflow),
        }
    }

    /// Takes the fees off what is left for the curve, and adds up the fees.
    pub fn prepare_curve(
        &self,
        part: &OraclePart,
        leg: &OracleLeg,
        trade_fees: Option<u128>,
    ) -> (result: Result<CurveLeg, SwapError>)
        ensures
            result == self.curve_leg(*part, *leg, trade_fees),
    {
        let trade_fees = match trade_fees {
            Some(value) => value,
            None => return Err(SwapError::MathOverflow),
        };
        let source_amount_after_fees =
            match part.amount_to_be_swapped_with_invariant_curve.checked_sub(trade_fees) {
            Some(value) => value,
            None => return Err(SwapError::MathOverflow),
        };
        let trade_fee_charged = match trade_fees.checked_add(leg.trade_fees) {
            Some(value) => value,
            None => return Err(SwapError::MathOverflow),
        };
        let fee_scaled = match trade_fee_charged.checked_mul(FEE_RATE_DENOMINATOR_VALUE as u128) {
            Some(value) => value,
            None => return Err(SwapError::MathOverflow),
        };
        if self.source_amount_to_be_swapped == 0 {
            return Err(SwapError::MathOverflow);
        }
        let trade_fee_rate: u128 = fee_scaled / self.source_amount_to_be_swapped;
        Ok(CurveLeg { source_amount_after_fees, trade_fee_charged, trade_fee_rate })
    }

    /// Adds up what comes out of both parts.
    pub fn add_outputs(&self, leg: &OracleLeg, curve_output: Result<u128, ProgramError>) -> (result:
        Result<u128, SwapError>)
        ensures
            result == self.destination_amount(*leg, curve_output),
    {
        let curve_output = match curve_output {
            Ok(value) => value,
            Err(error) => return Err(SwapError::Program(error)),
        };
        match curve_output.checked_add(leg.output_tokens) {
            Some(value) => Ok(value),
            None => Err(SwapError::MathOverflow),
        }
    }

    /// Updates the pool's amounts, holds the new price to the pool's price
    /// range, and states the result.
    pub fn settle(
        &self,
        part: &OraclePart,
        curve: &CurveLeg,
        destination: u128,
        protocol_fee: Option<u128>,
        fund_fee: Option<u128>,
    ) -> (result: Result<SwapResult, SwapError>)
        ensures
            result == self.settlement(*part, *curve, destination, protocol_fee, fund_fee),
    {
        let protocol_fee = match protocol_fee {
            Some(value) => value,
            None => return Err(SwapError::InvalidFee),
        };
        let fund_fee = match fund_fee {
            Some(value) => value,
            None => return Err(SwapError::InvalidFee),
        };
        let new_swap_source_amount = match self.swap_source_amount.checked_add(
            self.source_amount_to_be_swapped,
        ) {
            Some(value) => value,
            None => return Err(SwapError::MathOverflow),
        };
        let new_swap_destination_amount = match self.swap_destination_amount.checked_sub(
            destination,
        ) {
            Some(value) => value,
            None => return Err(SwapError::MathOverflow),
        };
        let spot_price_after_swap = match OracleBasedSwapCalculator::spot_price(
            new_swap_destination_amount,
            new_swap_source_amount,
        ) {
            Ok(value) => value,
            Err(error) => return Err(error),
        };
        let min_price: u64 = self.pool_state.min_swap_at_spot_price;
        let max_price: u64 = self.pool_state.max_swap_at_spot_price;
        if min_price > 0 && max_price > 0 {
            let min_swap_at_spot_price: u128 = OracleBasedSwapCalculator::price_in_direction(
                part.trade_direction,
                min_price as u128,
            );
            let max_swap_at_spot_price: u128 = OracleBasedSwapCalculator::price_in_direction(
                part.trade_direction,
                max_price as u128,
            );
            if spot_price_after_swap < min_swap_at_spot_price || spot_price_after_swap
                > max_swap_at_spot_price {
                return Err(SwapError::SwapNotAllowed);
            }
        }
        let rate: u128 = curve.trade_fee_rate;
        assert(rate as u64 == rate % 0x1_0000_0000_0000_0000u128) by (bit_vector);
        Ok(
            SwapResult {
                new_swap_source_amount,
                new_swap_destination_amount,
                source_amount_swapped: self.source_amount_to_be_swapped,
                destination_amount_swapped: destination,
                dynamic_fee: curve.trade_fee_charged,
                protocol_fee,
                fund_fee,
                dynamic_fee_rate: #[verifier::truncate] (rate as u64),
            },
        )
    }

    /// Carries the swap out, asking the pool's program for its curve and fees.
    pub fn swap<P: PoolProgram>(
        &self,
        observation_state: &ObservationState,
        is_invoked_by_signed_segmenter: bool,
    ) -> (result: Result<SwapResult, SwapError>)
        ensures
            swap_model::swap_gives::<P>(
                *self,
                *observation_state,
                is_invoked_by_signed_segmenter,
                result,
            ),
    {
        let ghost mut answers = swap_model::no_answers();
        let pool_state = states::PoolState::from(self.pool_state);
        let part = match self.find_route() {
            Err(error) => {
                assert(self.answered_by::<P>(
                    *observation_state,
                    is_invoked_by_signed_segmenter,
                    answers,
                ));
                return Err(error);
            },
            Ok(SwapRoute::Curve) => {
                let curve_swap = P::curve_swap_base_input(
                    self.source_amount_to_be_swapped,
                    self.swap_source_amount,
                    self.swap_destination_amount,
                    self.amm_config,
                    &pool_state,
                    self.block_timestamp,
                    observation_state,
                    is_invoked_by_signed_segmenter,
                );
                proof {
                    answers.curve_swap = curve_swap;
                    assert(self.answered_by::<P>(
                        *observation_state,
                        is_invoked_by_signed_segmenter,
                        answers,
                    ));
                }
                return match curve_swap {
                    Ok(result) => Ok(result),
                    Err(error) => Err(SwapError::Program(error)),
                };
            },
            Ok(SwapRoute::Oracle(part)) => part,
        };
        let (result, Ghost(answers)) = self.swap_with_oracle::<P>(
            &part,
            &pool_state,
            observation_state,
            is_invoked_by_signed_segmenter,
        );
        assert(self.answered_by::<P>(*observation_state, is_invoked_by_signed_segmenter, answers));
        result
    }

    /// Carries out a swap of which a part is swapped at the oracle price, and
    /// keeps what the pool's program answered.
    fn swap_with_oracle<P: PoolProgram>(
        &self,
        part: &OraclePart,
        pool_state: &states::PoolState,
        observation_state: &ObservationState,
        is_invoked_by_signed_segmenter: bool,
    ) -> (outcome: (Result<SwapResult, SwapError>, Ghost<ProgramAnswers>))
        requires
            *pool_state == program_pool_state(*self.pool_state),
        ensures
            self.oracle_answered_by::<P>(
                *part,
                *observation_state,
                is_invoked_by_signed_segmenter,
                outcome.1@,
            ),
            outcome.0 == self.oracle_result(*part, outcome.1@),
    {
        let ghost mut answers = swap_model::no_answers();
        let fee_rate_answer = P::dynamic_fee_rate(
            self.block_timestamp,
            observation_state,
            FeeType::Volatility,
            self.amm_config.trade_fee_rate,
            pool_state,
            is_invoked_by_signed_segmenter,
        );
        proof {
            answers.dynamic_fee_rate = fee_rate_answer;
        }
        let dynamic_fee_rate = match fee_rate_answer {
            Ok(value) => value,
            Err(error) => return (Err(SwapError::Program(error)), Ghost(answers)),
        };
        let rate = match self.find_oracle_trade_rate(part, dynamic_fee_rate) {
            Ok(value) => value,
            Err(error) => return (Err(error), Ghost(answers)),
        };
        let oracle_trade_fees = P::ceil_div(
            part.amount_to_be_swapped_at_oracle_price,
            rate as u128,
            FEE_RATE_DENOMINATOR_VALUE as u128,
        );
        proof {
            answers.oracle_trade_fees = oracle_trade_fees;
        }
        let leg = match self.swap_at_oracle_price(part, oracle_trade_fees) {
            Ok(value) => value,
            Err(error) => return (Err(error), Ghost(answers)),
        };
        let curve_trade_fees = P::ceil_div(
            part.amount_to_be_swapped_with_invariant_curve,
            dynamic_fee_rate as u128,
            FEE_RATE_DENOMINATOR_VALUE as u128,
        );
        proof {
            answers.curve_trade_fees = curve_trade_fees;
        }
        let curve = match self.prepare_curve(part, &leg, curve_trade_fees) {
            Ok(value) => value,
            Err(error) => return (Err(error), Ghost(answers)),
        };
        let curve_output = P::swap_base_input_without_fees(
            curve.source_amount_after_fees,
            leg.new_swap_source_amount,
            leg.new_swap_destination_amount,
        );
        proof {
            answers.curve_output = curve_output;
        }
        let destination = match self.add_outputs(&leg, curve_output) {
            Ok(value) => value,
            Err(error) => return (Err(error), Ghost(answers)),
        };
        let protocol_fee = P::protocol_fee(
            curve.trade_fee_charged,
            self.amm_config.protocol_fee_rate,
        );
        proof {
            answers.protocol_fee = protocol_fee;
        }
        if protocol_fee.is_none() {
            return (Err(SwapError::InvalidFee), Ghost(answers));
        }
        let fund_fee = P::fund_fee(curve.trade_fee_charged, self.amm_config.fund_fee_rate);
        proof {
            answers.fund_fee = fund_fee;
        }
        (self.settle(part, &curve, destination, protocol_fee, fund_fee), Ghost(answers))
    }
}

} // verus!
