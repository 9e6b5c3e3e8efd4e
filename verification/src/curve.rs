use vstd::prelude::*;

use crate::errors::AmmError;

verus! {

/// Denominator for all fee and step percentages expressed in basis points.
pub const BPS_DENOMINATOR: u64 = 10000;

/// Pricing rule governing how the spot price moves after each trade.
#[derive(Clone, Copy, Debug, PartialEq, Eq, Structural)]
pub enum CurveKind {
    /// The step is added to (buy) or subtracted from (sell) the price.
    Linear,
    /// The step is read as basis points of the current price.
    Exponential,
}

/// Side of a trade as seen from the pool's counterparty.
#[derive(Clone, Copy, Debug, PartialEq, Eq, Structural)]
pub enum TradeDirection {
    /// The counterparty buys an asset out of the pool; the price rises.
    Buy,
    /// The counterparty sells an asset into the pool; the price falls.
    Sell,
}

/// The spot price that follows `current` after one trade, or an arithmetic
/// fault where the unsigned, checked computation leaves `u64`.
///
/// The exponential sell step divides by `step / 10000 + 1`. That is a
/// deliberately simple approximation kept for compatibility: it is not the
/// algebraic inverse of the exponential buy step, so the exponential curve
/// is asymmetric by design. Only the linear curve round-trips.
pub open spec fn spec_next_price(
    current: u64,
    step: u64,
    kind: CurveKind,
    direction: TradeDirection,
) -> Result<u64, AmmError> {
    match (kind, direction) {
        (CurveKind::Linear, TradeDirection::Buy) => {
            if current + step <= u64::MAX {
                Ok((current + step) as u64)
            } else {
                Err(AmmError::ArithmeticFault)
            }
        },
        (CurveKind::Linear, TradeDirection::Sell) => {
            if step <= current {
                Ok((current - step) as u64)
            } else {
                Err(AmmError::ArithmeticFault)
            }
        },
        (CurveKind::Exponential, TradeDirection::Buy) => {
            let raised = current + current * step / (BPS_DENOMINATOR as int);
            if raised <= u64::MAX {
                Ok(raised as u64)
            } else {
                Err(AmmError::ArithmeticFault)
            }
        },
        (CurveKind::Exponential, TradeDirection::Sell) => {
            Ok((current as int / (step as int / (BPS_DENOMINATOR as int) + 1)) as u64)
        },
    }
}

/// Computes the next spot price after a trade. All arithmetic is unsigned
/// and checked: an overflow or underflow is reported as a fatal
/// [`AmmError::ArithmeticFault`], never wrapped or saturated.
pub fn next_price(
    current: u64,
    step: u64,
    kind: CurveKind,
    direction: TradeDirection,
) -> (result: Result<u64, AmmError>)
    ensures
        result == spec_next_price(current, step, kind, direction),
{
    match (kind, direction) {
        (CurveKind::Linear, TradeDirection::Buy) => {
            match current.checked_add(step) {
                Some(raised) => Ok(raised),
                None => Err(AmmError::ArithmeticFault),
            }
        },
        (CurveKind::Linear, TradeDirection::Sell) => {
            if step <= current {
                Ok(current - step)
            } else {
                Err(AmmError::ArithmeticFault)
            }
        },
        (CurveKind::Exponential, TradeDirection::Buy) => {
            assert((current as u128) * (step as u128) <= u128::MAX) by (nonlinear_arith)
                requires
                    current <= u64::MAX,
                    step <= u64::MAX,
            ;
            let raise: u128 = (current as u128) * (step as u128) / (BPS_DENOMINATOR as u128);
            let total: u128 = (current as u128) + raise;
            if total <= u64::MAX as u128 {
                Ok(total as u64)
            } else {
                Err(AmmError::ArithmeticFault)
            }
        },
        (CurveKind::Exponential, TradeDirection::Sell) => {
            Ok(current / (step / BPS_DENOMINATOR + 1))
        },
    }
}

/// On the linear curve a buy followed by a sell with the same step returns
/// to the starting price, whenever the buy itself fits in `u64`. No such
/// law holds for the exponential curve, whose sell step is intentionally
/// not the inverse of its buy step.
pub proof fn lemma_linear_round_trip(current: u64, step: u64)
    requires
        current + step <= u64::MAX,
    ensures
        spec_next_price(current, step, CurveKind::Linear, TradeDirection::Buy)
            == Ok::<u64, AmmError>((current + step) as u64),
        spec_next_price(
            (current + step) as u64,
            step,
            CurveKind::Linear,
            TradeDirection::Sell,
        ) == Ok::<u64, AmmError>(current),
{
}

} // verus!
