use vstd::prelude::*;

use crate::errors::AmmError;

verus! {

/// Capability standing for the delegated signature of the program acting as
/// custodian of pool escrows. It is produced by the address-derivation
/// collaborator outside this crate and consumed opaquely: the core never
/// inspects its structure, it only demands that every withdrawal from a
/// pool-controlled escrow presents one, so escrowed value can never leave
/// through a raw owner signature.
#[derive(Clone, Copy, Debug)]
pub struct EscrowAuthority {}

/// Program-controlled escrow custody for one fungible asset belonging to a
/// pool. It is never owned by an individual user; its balance changes only
/// through the deposit and withdraw primitives below, which the pool's own
/// operations drive.
#[derive(Clone, Copy, Debug, PartialEq, Eq, Structural)]
pub struct Vault {
    /// The one asset this escrow may hold.
    pub asset_id: u64,
    /// Units of that asset currently escrowed.
    pub balance: u64,
}

impl Vault {
    /// Opens an empty escrow for one asset.
    pub fn new(asset_id: u64) -> (vault: Vault)
        ensures
            vault == (Vault { asset_id, balance: 0 }),
    {
        Vault { asset_id, balance: 0 }
    }

    /// Credits `amount` units of `asset_id` to the escrow. Fails without
    /// any state change when the asset does not match the escrow's asset,
    /// or when the credited balance would leave `u64`.
    pub fn deposit(&mut self, asset_id: u64, amount: u64) -> (result: Result<(), AmmError>)
        ensures
            old(self).asset_id != asset_id ==> result == Err::<(), AmmError>(
                AmmError::ValidationFailure,
            ) && *final(self) == *old(self),
            old(self).asset_id == asset_id && old(self).balance + amount > u64::MAX ==> result
                == Err::<(), AmmError>(AmmError::ArithmeticFault) && *final(self) == *old(self),
            old(self).asset_id == asset_id && old(self).balance + amount <= u64::MAX ==> result
                == Ok::<(), AmmError>(()) && *final(self) == (Vault {
                asset_id,
                balance: (old(self).balance + amount) as u64,
            }),
    {
        if self.asset_id != asset_id {
            return Err(AmmError::ValidationFailure);
        }
        match self.balance.checked_add(amount) {
            Some(credited) => {
                self.balance = credited;
                Ok(())
            },
            None => Err(AmmError::ArithmeticFault),
        }
    }

    /// Debits `amount` units of `asset_id` from the escrow, on presentation
    /// of the program's custody capability. Fails without any state change
    /// when the asset does not match or the escrowed balance is too low.
    pub fn withdraw(&mut self, asset_id: u64, amount: u64, custody: &EscrowAuthority) -> (result:
        Result<(), AmmError>)
        ensures
            old(self).asset_id != asset_id ==> result == Err::<(), AmmError>(
                AmmError::ValidationFailure,
            ) && *final(self) == *old(self),
            old(self).asset_id == asset_id && old(self).balance < amount ==> result == Err::<
                (),
                AmmError,
            >(AmmError::InsufficientBalance) && *final(self) == *old(self),
            old(self).asset_id == asset_id && old(self).balance >= amount ==> result == Ok::<
                (),
                AmmError,
            >(()) && *final(self) == (Vault {
                asset_id,
                balance: (old(self).balance - amount) as u64,
            }),
    {
        if self.asset_id != asset_id {
            return Err(AmmError::ValidationFailure);
        }
        if self.balance < amount {
            return Err(AmmError::InsufficientBalance);
        }
        self.balance = self.balance - amount;
        Ok(())
    }
}

} // verus!
