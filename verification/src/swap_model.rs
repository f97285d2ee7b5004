//! What a swap at the oracle price is, in whole numbers.
//!
//! Prices are amounts of the destination token per source token, times `D9`.
//! Rates are in parts of `FEE_RATE_DENOMINATOR_VALUE`. A quotient is rounded
//! down. The `*_defined` functions say on which inputs every intermediate
//! value of a computation has a value of its machine type.

use vstd::prelude::*;

use vstd::math::{abs, max, min};

use crate::error::{ProgramError, SwapError};
use crate::gamma_deseralize_pool_state::{program_pool_state, PoolState};
use crate::program::{
    FeeType, PoolProgram, SwapResult, TradeDirection, FEE_RATE_DENOMINATOR_VALUE,
};
use crate::states::{AmmConfig, ObservationState};

verus! {

/// Prices have nine decimal places.
pub const D9: u128 = 1_000_000_000;

/// A price times its inverse.
pub const D9_TIMES_D9: u128 = D9 * D9;

/// A swap that is asked for.
pub struct SwapRequest<'a> {
    /// The amount of the source token that goes in, fees included.
    pub source_amount_to_be_swapped: u128,
    /// The pool's amount of the source token.
    pub swap_source_amount: u128,
    /// The pool's amount of the destination token.
    pub swap_destination_amount: u128,
    pub amm_config: &'a AmmConfig,
    pub pool_state: &'a PoolState,
    pub block_timestamp: u64,
}

/// Where a swap is settled.
#[derive(Clone, Copy, Debug, PartialEq, Eq, Structural)]
pub enum SwapRoute {
    /// The whole amount goes through the program's curve.
    Curve,
    /// A part of the amount, not zero, is swapped at the oracle price.
    Oracle(OraclePart),
}

/// How an amount is split between the oracle price and the invariant curve.
#[derive(Clone, Copy, Debug, PartialEq, Eq, Structural)]
pub struct OraclePart {
    pub trade_direction: TradeDirection,
    pub oracle_price: u128,
    pub amount_to_be_swapped_at_oracle_price: u128,
    pub amount_to_be_swapped_with_invariant_curve: u128,
}

/// The swap at the oracle price, done.
#[derive(Clone, Copy, Debug, PartialEq, Eq, Structural)]
pub struct OracleLeg {
    pub trade_fees: u128,
    pub output_tokens: u128,
    /// The pool's amounts once this part is swapped.
    pub new_swap_source_amount: u128,
    pub new_swap_destination_amount: u128,
}

/// What goes into the invariant curve after the swap at the oracle price.
#[derive(Clone, Copy, Debug, PartialEq, Eq, Structural)]
pub struct CurveLeg {
    pub source_amount_after_fees: u128,
    /// The fees of both parts.
    pub trade_fee_charged: u128,
    /// The fees of both parts as a share of the whole amount.
    pub trade_fee_rate: u128,
}

pub open spec fn fits(value: int) -> bool {
    0 <= value <= u128::MAX
}

/// The price of the source token in a pool with these amounts.
pub open spec fn spot_price(destination_amount: int, source_amount: int) -> int {
    destination_amount * D9 / source_amount
}

pub open spec fn spot_price_defined(destination_amount: int, source_amount: int) -> bool {
    &&& fits(destination_amount * D9)
    &&& source_amount > 0
}

/// How far a price is from the oracle price, as a rate.
pub open spec fn rate_difference(oracle_price: int, price: int) -> int {
    abs(price - oracle_price) as int * FEE_RATE_DENOMINATOR_VALUE / oracle_price
}

pub open spec fn rate_difference_defined(oracle_price: int, price: int) -> bool {
    &&& fits(abs(price - oracle_price) as int * FEE_RATE_DENOMINATOR_VALUE)
    &&& oracle_price > 0
}

/// The lowest price that the pool accepts: the oracle price less the
/// acceptable difference.
pub open spec fn limit_price(oracle_price: int, pool: PoolState) -> int {
    oracle_price * (FEE_RATE_DENOMINATOR_VALUE - pool.acceptable_price_difference)
        / FEE_RATE_DENOMINATOR_VALUE as int
}

/// The share of the pool's source token that one swap may add at the oracle
/// price.
pub open spec fn share_cap(source_amount: int, pool: PoolState) -> int {
    source_amount * pool.max_amount_swappable_at_oracle_price / FEE_RATE_DENOMINATOR_VALUE as int
}

/// The amount that, swapped at the oracle price `P`, moves the spot price from
/// `Y / X` to the limit price `Z`: `|Z * X - Y| / (Z + P)`.
pub open spec fn price_cap(
    source_amount: int,
    destination_amount: int,
    oracle_price: int,
    pool: PoolState,
) -> int {
    abs(limit_price(oracle_price, pool) * source_amount - destination_amount * D9) as int
        / (oracle_price + limit_price(oracle_price, pool))
}

/// The part of an amount that is swapped at the oracle price.
pub open spec fn amount_at_oracle_price(
    amount: int,
    source_amount: int,
    destination_amount: int,
    oracle_price: int,
    pool: PoolState,
) -> int {
    min(
        min(
            share_cap(source_amount, pool),
            price_cap(source_amount, destination_amount, oracle_price, pool),
        ),
        amount,
    )
}

pub open spec fn amount_at_oracle_price_defined(
    source_amount: int,
    destination_amount: int,
    oracle_price: int,
    pool: PoolState,
) -> bool {
    &&& fits(source_amount * pool.max_amount_swappable_at_oracle_price)
    &&& pool.acceptable_price_difference <= FEE_RATE_DENOMINATOR_VALUE
    &&& fits(oracle_price * (FEE_RATE_DENOMINATOR_VALUE - pool.acceptable_price_difference))
    &&& fits(limit_price(oracle_price, pool) * source_amount)
    &&& fits(destination_amount * D9)
    &&& fits(oracle_price + limit_price(oracle_price, pool))
    &&& oracle_price + limit_price(oracle_price, pool) > 0
}

/// What an amount is worth at a price.
pub open spec fn worth(amount: int, price: int) -> int {
    price * amount / D9 as int
}

/// The spot price once an amount is swapped at the oracle price without a fee.
pub open spec fn spot_price_after(
    amount: int,
    source_amount: int,
    destination_amount: int,
    oracle_price: int,
) -> int {
    spot_price(destination_amount - worth(amount, oracle_price), source_amount + amount)
}

/// The fee rate for moving the spot price away from the oracle price.
pub open spec fn drift_fee(
    amount: int,
    source_amount: int,
    destination_amount: int,
    oracle_price: int,
    pool: PoolState,
) -> int {
    min(
        pool.max_drift_factor as int,
        rate_difference(
            oracle_price,
            spot_price_after(amount, source_amount, destination_amount, oracle_price),
        ) * pool.drift_factor,
    )
}

pub open spec fn drift_fee_defined(
    amount: int,
    source_amount: int,
    destination_amount: int,
    oracle_price: int,
    pool: PoolState,
) -> bool {
    let new_price = spot_price_after(amount, source_amount, destination_amount, oracle_price);
    &&& fits(oracle_price * amount)
    &&& fits(source_amount + amount)
    &&& worth(amount, oracle_price) <= destination_amount
    &&& spot_price_defined(
        destination_amount - worth(amount, oracle_price),
        source_amount + amount,
    )
    &&& rate_difference_defined(oracle_price, new_price)
    &&& fits(rate_difference(oracle_price, new_price) * pool.drift_factor)
}

/// How many seconds old the oracle price is, zero if it is from the future.
pub open spec fn oracle_price_age(current_time: u64, pool: PoolState) -> int {
    max(0, current_time - pool.oracle_price_updated_at)
}

/// The fee rate for the age of the oracle price.
pub open spec fn price_delay_fee(current_time: u64, pool: PoolState) -> int {
    min(
        pool.max_oracle_price_delay_fee as int,
        oracle_price_age(current_time, pool) * pool.oracle_price_delay_fee_rate_per_second,
    )
}

pub open spec fn price_delay_fee_defined(current_time: u64, pool: PoolState) -> bool {
    oracle_price_age(current_time, pool) * pool.oracle_price_delay_fee_rate_per_second <= u64::MAX
}

/// Whether the pool has an oracle price and it is recent enough.
pub open spec fn oracle_price_usable(block_timestamp: u64, pool: PoolState) -> bool {
    &&& pool.oracle_price_token_0_by_token_1 != 0
    &&& pool.oracle_price_updated_at != 0
    &&& pool.oracle_price_updated_at <= block_timestamp
    &&& block_timestamp - pool.oracle_price_updated_at <= pool.max_oracle_price_update_time_diff
}

/// The direction of a swap: token 0 goes in if the source amount is that of
/// vault 0.
pub open spec fn direction_of(source_amount: u128, pool: PoolState) -> TradeDirection {
    if source_amount == pool.token_0_vault_amount {
        TradeDirection::ZeroForOne
    } else {
        TradeDirection::OneForZero
    }
}

/// A price of token 1 in token 0, as the price of the token that goes in.
pub open spec fn price_in_direction(direction: TradeDirection, price: int) -> int {
    match direction {
        TradeDirection::OneForZero => price,
        TradeDirection::ZeroForOne => D9_TIMES_D9 as int / price,
    }
}

impl<'a> SwapRequest<'a> {
    pub open spec fn direction(self) -> TradeDirection {
        direction_of(self.swap_source_amount, *self.pool_state)
    }

    pub open spec fn oracle_price(self) -> int {
        price_in_direction(
            self.direction(),
            self.pool_state.oracle_price_token_0_by_token_1 as int,
        )
    }

    pub open spec fn spot_price(self) -> int {
        spot_price(self.swap_destination_amount as int, self.swap_source_amount as int)
    }

    /// The part of the amount that can be swapped at the oracle price.
    pub open spec fn oracle_amount(self) -> int {
        amount_at_oracle_price(
            self.source_amount_to_be_swapped as int,
            self.swap_source_amount as int,
            self.swap_destination_amount as int,
            self.oracle_price(),
            *self.pool_state,
        )
    }

    /// Whether the spot price is worse for the trader than the oracle price by
    /// more than the pool accepts.
    pub open spec fn price_unacceptable(self) -> bool {
        &&& self.spot_price() <= self.oracle_price()
        &&& rate_difference(self.oracle_price(), self.spot_price())
            > self.pool_state.acceptable_price_difference
    }

    /// Where the swap is settled.
    pub open spec fn route(self) -> Result<SwapRoute, SwapError> {
        if !oracle_price_usable(self.block_timestamp, *self.pool_state) {
            Ok(SwapRoute::Curve)
        } else if !spot_price_defined(
            self.swap_destination_amount as int,
            self.swap_source_amount as int,
        ) || !rate_difference_defined(self.oracle_price(), self.spot_price()) {
            Err(SwapError::MathOverflow)
        } else if self.price_unacceptable() {
            Ok(SwapRoute::Curve)
        } else if !amount_at_oracle_price_defined(
            self.swap_source_amount as int,
            self.swap_destination_amount as int,
            self.oracle_price(),
            *self.pool_state,
        ) {
            Err(SwapError::MathOverflow)
        } else if self.oracle_amount() == 0 {
            Ok(SwapRoute::Curve)
        } else {
            Ok(
                SwapRoute::Oracle(
                    OraclePart {
                        trade_direction: self.direction(),
                        oracle_price: self.oracle_price() as u128,
                        amount_to_be_swapped_at_oracle_price: self.oracle_amount() as u128,
                        amount_to_be_swapped_with_invariant_curve: (self.source_amount_to_be_swapped
                            - self.oracle_amount()) as u128,
                    },
                ),
            )
        }
    }

    /// The fee rate of the part that is swapped at the oracle price: the
    /// dynamic rate, but no less than the pool's minimum, and the fees for
    /// drift and for an old price on top.
    pub open spec fn oracle_trade_rate(self, part: OraclePart, dynamic_fee_rate: u64) -> Result<
        u64,
        SwapError,
    > {
        let amount = part.amount_to_be_swapped_at_oracle_price as int;
        let source_amount = self.swap_source_amount as int;
        let destination_amount = self.swap_destination_amount as int;
        let price = part.oracle_price as int;
        let pool = *self.pool_state;
        let rate = max(dynamic_fee_rate as int, pool.min_trade_rate_at_oracle_price as int)
            + drift_fee(amount, source_amount, destination_amount, price, pool)
            + price_delay_fee(self.block_timestamp, pool);
        if drift_fee_defined(amount, source_amount, destination_amount, price, pool)
            && price_delay_fee_defined(self.block_timestamp, pool) && rate <= u64::MAX {
            Ok(rate as u64)
        } else {
            Err(SwapError::MathOverflow)
        }
    }

    /// The swap at the oracle price, for the fees that were computed on it.
    pub open spec fn oracle_leg(self, part: OraclePart, trade_fees: Option<u128>) -> Result<
        OracleLeg,
        SwapError,
    > {
        let amount = part.amount_to_be_swapped_at_oracle_price;
        match trade_fees {
            None => Err(SwapError::MathOverflow),
            Some(fees) => {
                let output = worth(amount - fees, part.oracle_price as int);
                if fees <= amount && fits(part.oracle_price * (amount - fees)) && fits(
                    self.swap_source_amount + amount,
                ) && output <= self.swap_destination_amount {
                    Ok(
                        OracleLeg {
                            trade_fees: fees,
                            output_tokens: output as u128,
                            new_swap_source_amount: (self.swap_source_amount + amount) as u128,
                            new_swap_destination_amount: (self.swap_destination_amount
                                - output) as u128,
                        },
                    )
                } else {
                    Err(SwapError::MathOverflow)
                }
            },
        }
    }

    /// What is left for the invariant curve, for the fees that were computed
    /// on it.
    pub open spec fn curve_leg(
        self,
        part: OraclePart,
        leg: OracleLeg,
        trade_fees: Option<u128>,
    ) -> Result<CurveLeg, SwapError> {
        let amount = part.amount_to_be_swapped_with_invariant_curve;
        match trade_fees {
            None => Err(SwapError::MathOverflow),
            Some(fees) => {
                let charged = fees + leg.trade_fees;
                if fees <= amount && fits(charged) && fits(charged * FEE_RATE_DENOMINATOR_VALUE)
                    && self.source_amount_to_be_swapped > 0 {
                    Ok(
                        CurveLeg {
                            source_amount_after_fees: (amount - fees) as u128,
                            trade_fee_charged: charged as u128,
                            trade_fee_rate: (charged * FEE_RATE_DENOMINATOR_VALUE
                                / self.source_amount_to_be_swapped as int) as u128,
                        },
                    )
                } else {
                    Err(SwapError::MathOverflow)
                }
            },
        }
    }

    /// What comes out of both parts together.
    pub open spec fn destination_amount(
        self,
        leg: OracleLeg,
        curve_output: Result<u128, ProgramError>,
    ) -> Result<u128, SwapError> {
        match curve_output {
            Err(error) => Err(SwapError::Program(error)),
            Ok(output) => if fits(output + leg.output_tokens) {
                Ok((output + leg.output_tokens) as u128)
            } else {
                Err(SwapError::MathOverflow)
            },
        }
    }

    /// Whether the pool has a price range.
    pub open spec fn has_price_range(self) -> bool {
        &&& self.pool_state.min_swap_at_spot_price > 0
        &&& self.pool_state.max_swap_at_spot_price > 0
    }

    /// Whether a price after a swap is one the pool allows.
    pub open spec fn price_allowed(self, direction: TradeDirection, price: int) -> bool {
        self.has_price_range() ==> price_in_direction(
            direction,
            self.pool_state.min_swap_at_spot_price as int,
        ) <= price <= price_in_direction(direction, self.pool_state.max_swap_at_spot_price as int)
    }

    /// The result of the swap once all its parts are known.
    pub open spec fn settlement(
        self,
        part: OraclePart,
        curve: CurveLeg,
        destination: u128,
        protocol_fee: Option<u128>,
        fund_fee: Option<u128>,
    ) -> Result<SwapResult, SwapError> {
        let new_source = self.swap_source_amount + self.source_amount_to_be_swapped;
        let new_destination = self.swap_destination_amount - destination;
        if protocol_fee is None || fund_fee is None {
            Err(SwapError::InvalidFee)
        } else if !fits(new_source) || !fits(new_destination) || !spot_price_defined(
            new_destination,
            new_source,
        ) {
            Err(SwapError::MathOverflow)
        } else if !self.price_allowed(
            part.trade_direction,
            spot_price(new_destination, new_source),
        ) {
            Err(SwapError::SwapNotAllowed)
        } else {
            Ok(
                SwapResult {
                    new_swap_source_amount: new_source as u128,
                    new_swap_destination_amount: new_destination as u128,
                    source_amount_swapped: self.source_amount_to_be_swapped,
                    destination_amount_swapped: destination,
                    dynamic_fee: curve.trade_fee_charged,
                    protocol_fee: protocol_fee->0,
                    fund_fee: fund_fee->0,
                    dynamic_fee_rate: (curve.trade_fee_rate % 0x1_0000_0000_0000_0000) as u64,
                },
            )
        }
    }

    /// The result of the swap, given what the pool's program answered.
    pub open spec fn result(self, answers: ProgramAnswers) -> Result<SwapResult, SwapError> {
        match self.route() {
            Err(error) => Err(error),
            Ok(SwapRoute::Curve) => match answers.curve_swap {
                Err(error) => Err(SwapError::Program(error)),
                Ok(result) => Ok(result),
            },
            Ok(SwapRoute::Oracle(part)) => self.oracle_result(part, answers),
        }
    }

    /// The result of a swap of which a part is swapped at the oracle price.
    pub open spec fn oracle_result(self, part: OraclePart, answers: ProgramAnswers) -> Result<
        SwapResult,
        SwapError,
    > {
        match answers.dynamic_fee_rate {
            Err(error) => Err(SwapError::Program(error)),
            Ok(dynamic_fee_rate) => match self.oracle_trade_rate(part, dynamic_fee_rate) {
                Err(error) => Err(error),
                Ok(_) => match self.oracle_leg(part, answers.oracle_trade_fees) {
                    Err(error) => Err(error),
                    Ok(leg) => match self.curve_leg(part, leg, answers.curve_trade_fees) {
                        Err(error) => Err(error),
                        Ok(curve) => match self.destination_amount(leg, answers.curve_output) {
                            Err(error) => Err(error),
                            Ok(destination) => self.settlement(
                                part,
                                curve,
                                destination,
                                answers.protocol_fee,
                                answers.fund_fee,
                            ),
                        },
                    },
                },
            },
        }
    }

    /// Whether the answers are those that the program `P` gives to the
    /// questions that this swap asks. An answer that is not asked for is free.
    pub open spec fn answered_by<P: PoolProgram>(
        self,
        observation_state: ObservationState,
        is_invoked_by_signed_segmenter: bool,
        answers: ProgramAnswers,
    ) -> bool {
        match self.route() {
            Err(_) => true,
            Ok(SwapRoute::Curve) => call_ensures(
                P::curve_swap_base_input,
                (
                    self.source_amount_to_be_swapped,
                    self.swap_source_amount,
                    self.swap_destination_amount,
                    self.amm_config,
                    &program_pool_state(*self.pool_state),
                    self.block_timestamp,
                    &observation_state,
                    is_invoked_by_signed_segmenter,
                ),
                answers.curve_swap,
            ),
            Ok(SwapRoute::Oracle(part)) => self.oracle_answered_by::<P>(
                part,
                observation_state,
                is_invoked_by_signed_segmenter,
                answers,
            ),
        }
    }

    /// The questions of a swap of which a part is swapped at the oracle price.
    /// Each is asked only when all before it went well.
    pub open spec fn oracle_answered_by<P: PoolProgram>(
        self,
        part: OraclePart,
        observation_state: ObservationState,
        is_invoked_by_signed_segmenter: bool,
        answers: ProgramAnswers,
    ) -> bool {
        &&& call_ensures(
            P::dynamic_fee_rate,
            (
                self.block_timestamp,
                &observation_state,
                FeeType::Volatility,
                self.amm_config.trade_fee_rate,
                &program_pool_state(*self.pool_state),
                is_invoked_by_signed_segmenter,
            ),
            answers.dynamic_fee_rate,
        )
        &&& answers.dynamic_fee_rate matches Ok(dynamic_fee_rate) ==> {
            self.oracle_trade_rate(part, dynamic_fee_rate) matches Ok(rate) ==> {
                &&& call_ensures(
                    P::ceil_div,
                    (
                        part.amount_to_be_swapped_at_oracle_price,
                        rate as u128,
                        FEE_RATE_DENOMINATOR_VALUE as u128,
                    ),
                    answers.oracle_trade_fees,
                )
                &&& self.oracle_leg(part, answers.oracle_trade_fees) matches Ok(leg)
                    ==> self.curve_answered_by::<P>(part, leg, dynamic_fee_rate, answers)
            }
        }
    }

    /// The questions that follow the swap at the oracle price.
    pub open spec fn curve_answered_by<P: PoolProgram>(
        self,
        part: OraclePart,
        leg: OracleLeg,
        dynamic_fee_rate: u64,
        answers: ProgramAnswers,
    ) -> bool {
        &&& call_ensures(
            P::ceil_div,
            (
                part.amount_to_be_swapped_with_invariant_curve,
                dynamic_fee_rate as u128,
                FEE_RATE_DENOMINATOR_VALUE as u128,
            ),
            answers.curve_trade_fees,
        )
        &&& self.curve_leg(part, leg, answers.curve_trade_fees) matches Ok(curve) ==> {
            &&& call_ensures(
                P::swap_base_input_without_fees,
                (
                    curve.source_amount_after_fees,
                    leg.new_swap_source_amount,
                    leg.new_swap_destination_amount,
                ),
                answers.curve_output,
            )
            &&& self.destination_amount(leg, answers.curve_output) is Ok ==> {
                &&& call_ensures(
                    P::protocol_fee,
                    (curve.trade_fee_charged, self.amm_config.protocol_fee_rate),
                    answers.protocol_fee,
                )
                &&& answers.protocol_fee is Some ==> call_ensures(
                    P::fund_fee,
                    (curve.trade_fee_charged, self.amm_config.fund_fee_rate),
                    answers.fund_fee,
                )
            }
        }
    }
}

/// What a pool's program answers in the course of one swap.
pub struct ProgramAnswers {
    /// The swap of the whole amount on the curve.
    pub curve_swap: Result<SwapResult, ProgramError>,
    pub dynamic_fee_rate: Result<u64, ProgramError>,
    /// The fees on the part that is swapped at the oracle price.
    pub oracle_trade_fees: Option<u128>,
    /// The fees on the part that is left for the curve.
    pub curve_trade_fees: Option<u128>,
    /// What the curve gives for the part that is left for it.
    pub curve_output: Result<u128, ProgramError>,
    pub protocol_fee: Option<u128>,
    pub fund_fee: Option<u128>,
}

/// The answers before anything is asked.
pub open spec fn no_answers() -> ProgramAnswers {
    arbitrary()
}

/// Whether a swap can end in this result: it is the result for some answers
/// that the program `P` gives.
pub open spec fn swap_gives<P: PoolProgram>(
    request: SwapRequest,
    observation_state: ObservationState,
    is_invoked_by_signed_segmenter: bool,
    result: Result<SwapResult, SwapError>,
) -> bool {
    exists|answers: ProgramAnswers|
        #[trigger] request.answered_by::<P>(
            observation_state,
            is_invoked_by_signed_segmenter,
            answers,
        ) && result == request.result(answers)
}

} // verus!
