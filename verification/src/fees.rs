use vstd::prelude::*;

use vstd::arithmetic::div_mod::{lemma_div_is_ordered, lemma_div_multiples_vanish};
use vstd::arithmetic::mul::{lemma_mul_inequality, lemma_mul_is_commutative};

use crate::curve::BPS_DENOMINATOR;
use crate::errors::AmmError;
use crate::registry::CreatorShare;

verus! {

/// The fee taken from a notional at a rate in basis points, rounded down.
pub open spec fn spec_fee(notional: u64, bps: u16) -> int {
    notional * bps / (BPS_DENOMINATOR as int)
}

/// A fee at a rate of at most 10000 basis points never exceeds the notional,
/// so it always fits in `u64`.
pub proof fn lemma_fee_bounded(notional: u64, bps: u16)
    requires
        bps <= BPS_DENOMINATOR,
    ensures
        0 <= spec_fee(notional, bps) <= notional,
{
    lemma_mul_is_commutative(notional as int, bps as int);
    lemma_mul_inequality(bps as int, BPS_DENOMINATOR as int, notional as int);
    lemma_div_is_ordered(
        notional * bps,
        (BPS_DENOMINATOR as int) * notional,
        BPS_DENOMINATOR as int,
    );
    lemma_div_multiples_vanish(notional as int, BPS_DENOMINATOR as int);
}

/// Computes `floor(notional * bps / 10000)` through a 128-bit intermediate,
/// so the product cannot overflow before the division.
pub fn fee_amount(notional: u64, bps: u16) -> (fee: u64)
    requires
        bps <= BPS_DENOMINATOR,
    ensures
        fee == spec_fee(notional, bps),
{
    proof {
        lemma_fee_bounded(notional, bps);
    }
    assert((notional as u128) * (bps as u128) <= u128::MAX) by (nonlinear_arith)
        requires
            notional <= u64::MAX,
            bps <= u16::MAX,
    ;
    let wide: u128 = (notional as u128) * (bps as u128) / (BPS_DENOMINATOR as u128);
    wide as u64
}

/// The two fee shares extracted from one trade notional.
#[derive(Clone, Copy, Debug, PartialEq, Eq, Structural)]
pub struct FeeSplit {
    /// Share owed to the pool's own fee escrow.
    pub pool_fee: u64,
    /// Share owed to the protocol-wide fee authority.
    pub authority_fee: u64,
}

/// Splits a trade notional into the pool-level and authority-level fee
/// shares, each `floor(notional * bps / 10000)`. The notional itself is the
/// spot price captured before any mutation, so the total extracted from a
/// buyer never exceeds the notional plus these two shares.
pub fn split_fees(notional: u64, pool_fee_bps: u16, authority_fee_bps: u16) -> (shares: FeeSplit)
    requires
        pool_fee_bps <= BPS_DENOMINATOR,
        authority_fee_bps <= BPS_DENOMINATOR,
    ensures
        shares.pool_fee == spec_fee(notional, pool_fee_bps),
        shares.authority_fee == spec_fee(notional, authority_fee_bps),
{
    FeeSplit {
        pool_fee: fee_amount(notional, pool_fee_bps),
        authority_fee: fee_amount(notional, authority_fee_bps),
    }
}

/// Total royalty owed on a notional at the schedule's seller fee rate. The
/// rate is taken as the registry recorded it and may exceed 10000 basis
/// points, so the rounded-down share can leave `u64`; that is reported as an
/// arithmetic fault, never truncated.
pub fn royalty_fee(notional: u64, seller_fee_bps: u16) -> (result: Result<u64, AmmError>)
    ensures
        spec_fee(notional, seller_fee_bps) <= u64::MAX ==> result == Ok::<u64, AmmError>(
            spec_fee(notional, seller_fee_bps) as u64,
        ),
        spec_fee(notional, seller_fee_bps) > u64::MAX ==> result == Err::<u64, AmmError>(
            AmmError::ArithmeticFault,
        ),
{
    assert((notional as u128) * (seller_fee_bps as u128) <= u128::MAX) by (nonlinear_arith)
        requires
            notional <= u64::MAX,
            seller_fee_bps <= u16::MAX,
    ;
    let wide: u128 = (notional as u128) * (seller_fee_bps as u128) / (BPS_DENOMINATOR as u128);
    if wide <= u64::MAX as u128 {
        Ok(wide as u64)
    } else {
        Err(AmmError::ArithmeticFault)
    }
}

/// One royalty payment owed to one creator.
#[derive(Clone, Copy, Debug, PartialEq, Eq, Structural)]
pub struct RoyaltyPayout {
    /// Identity of the royalty beneficiary.
    pub creator: u64,
    /// Amount of quote asset owed to it.
    pub amount: u64,
}

/// The share of a royalty total owed to one creator holding `share` percent.
pub open spec fn spec_creator_payout(share: u8, total: u64) -> int {
    share * total / 100
}

/// Splits a royalty total over the creators of a schedule, each receiving
/// `floor(share * total / 100)` for its percentage share. If any single
/// share leaves `u64` the whole computation is an arithmetic fault and no
/// payouts are produced.
pub fn creator_payouts(creators: &Vec<CreatorShare>, total: u64) -> (result: Result<
    Vec<RoyaltyPayout>,
    AmmError,
>)
    ensures
        result matches Ok(payouts) ==> {
            &&& payouts.len() == creators.len()
            &&& forall|i: int|
                0 <= i < creators@.len() ==> {
                    &&& (#[trigger] payouts@[i]).creator == creators@[i].address
                    &&& payouts@[i].amount == spec_creator_payout(creators@[i].share, total)
                }
        },
        result is Ok <==> (forall|i: int|
            0 <= i < creators@.len() ==> #[trigger] spec_creator_payout(
                creators@[i].share,
                total,
            ) <= u64::MAX),
        result matches Err(e) ==> e == AmmError::ArithmeticFault,
{
    let mut payouts: Vec<RoyaltyPayout> = Vec::new();
    let mut i: usize = 0;
    while i < creators.len()
        invariant
            0 <= i <= creators@.len(),
            payouts@.len() == i,
            forall|j: int|
                0 <= j < i ==> {
                    &&& (#[trigger] payouts@[j]).creator == creators@[j].address
                    &&& payouts@[j].amount == spec_creator_payout(creators@[j].share, total)
                },
            forall|j: int|
                0 <= j < i ==> #[trigger] spec_creator_payout(creators@[j].share, total)
                    <= u64::MAX,
        decreases creators@.len() - i,
    {
        let entry = creators[i];
        assert((entry.share as u128) * (total as u128) <= u128::MAX) by (nonlinear_arith)
            requires
                entry.share <= u8::MAX,
                total <= u64::MAX,
        ;
        let wide: u128 = (entry.share as u128) * (total as u128) / 100;
        if wide > u64::MAX as u128 {
            assert(spec_creator_payout(creators@[i as int].share, total) > u64::MAX);
            return Err(AmmError::ArithmeticFault);
        }
        payouts.push(RoyaltyPayout { creator: entry.address, amount: wide as u64 });
        i = i + 1;
    }
    Ok(payouts)
}

} // verus!
