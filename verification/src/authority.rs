use vstd::prelude::*;

use crate::curve::BPS_DENOMINATOR;
use crate::errors::AmmError;

verus! {

/// Protocol-level fee-rate and administrative-authority record, referenced
/// by zero or more pools. Control moves only through a two-phase transfer:
/// the current authority proposes a successor, and nothing changes hands
/// until the proposed party itself accepts. No single-step transfer exists,
/// so control cannot be handed to an unreachable or mistyped identity.
#[derive(Clone, Copy, Debug, PartialEq, Eq)]
pub struct PoolAuthority {
    /// The identity administering this record and receiving its fee share.
    pub current_authority: u64,
    /// The identity proposed to take over, if a transfer is under way.
    pub pending_authority: Option<u64>,
    /// Protocol fee skimmed on every trade routed through this authority,
    /// in basis points.
    pub fee_bps: u16,
}

impl PoolAuthority {
    /// The record's invariant: the fee rate stays within 10000 basis
    /// points. Creation rejects anything above, and nothing later raises it.
    pub open spec fn wf(&self) -> bool {
        self.fee_bps <= BPS_DENOMINATOR
    }

    /// Creates an authority record administered by `creator` with no
    /// transfer pending. A fee above 10000 basis points is rejected, never
    /// clamped.
    pub fn new(creator: u64, fee_bps: u16) -> (result: Result<PoolAuthority, AmmError>)
        ensures
            fee_bps > BPS_DENOMINATOR ==> result == Err::<PoolAuthority, AmmError>(
                AmmError::ValidationFailure,
            ),
            fee_bps <= BPS_DENOMINATOR ==> result == Ok::<PoolAuthority, AmmError>(
                PoolAuthority { current_authority: creator, pending_authority: None, fee_bps },
            ),
            result matches Ok(authority) ==> authority.wf(),
    {
        if fee_bps > BPS_DENOMINATOR as u16 {
            return Err(AmmError::ValidationFailure);
        }
        Ok(PoolAuthority { current_authority: creator, pending_authority: None, fee_bps })
    }

    /// The current authority proposes `proposed` as its successor. Any
    /// other caller fails the authority check and changes nothing; in
    /// particular the current authority itself never changes here.
    pub fn request_transfer(&mut self, caller: u64, proposed: u64) -> (result: Result<
        (),
        AmmError,
    >)
        ensures
            caller != old(self).current_authority ==> result == Err::<(), AmmError>(
                AmmError::AuthorizationFailure,
            ) && *final(self) == *old(self),
            caller == old(self).current_authority ==> result == Ok::<(), AmmError>(())
                && *final(self) == (PoolAuthority {
                pending_authority: Some(proposed),
                ..*old(self)
            }),
    {
        if caller != self.current_authority {
            return Err(AmmError::AuthorizationFailure);
        }
        self.pending_authority = Some(proposed);
        Ok(())
    }

    /// The proposed successor takes over: the caller must be exactly the
    /// pending authority, which then becomes current while the pending slot
    /// is cleared. Any other caller, including when no transfer is pending,
    /// fails the authority check and changes nothing.
    pub fn accept_transfer(&mut self, caller: u64) -> (result: Result<(), AmmError>)
        ensures
            old(self).pending_authority != Some(caller) ==> result == Err::<(), AmmError>(
                AmmError::AuthorizationFailure,
            ) && *final(self) == *old(self),
            old(self).pending_authority == Some(caller) ==> result == Ok::<(), AmmError>(())
                && *final(self) == (PoolAuthority {
                current_authority: caller,
                pending_authority: None,
                fee_bps: old(self).fee_bps,
            }),
    {
        let accepted: bool = match self.pending_authority {
            Some(pending) => pending == caller,
            None => false,
        };
        if !accepted {
            return Err(AmmError::AuthorizationFailure);
        }
        self.current_authority = caller;
        self.pending_authority = None;
        Ok(())
    }
}

} // verus!
