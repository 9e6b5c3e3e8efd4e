use vstd::prelude::*;

use crate::authority::PoolAuthority;
use crate::curve::{next_price, spec_next_price, CurveKind, TradeDirection, BPS_DENOMINATOR};
use crate::errors::AmmError;
use crate::fees::{fee_amount, spec_fee, split_fees};
use crate::registry::{spec_collection_record_ok, spec_member_verified, AssetMetadata};
use crate::registry::{collection_record_ok, verify_membership};
use crate::vault::{EscrowAuthority, Vault};

verus! {

/// Which sides of the market a pool serves, fixed at creation.
///
/// The kind genuinely restricts: funding and trading on a side the pool
/// does not serve is rejected with a validation failure, rather than being
/// waved through. Quote-side operations need `QuoteOnly` or `Both`;
/// asset-side operations need `AssetOnly` or `Both`.
#[derive(Clone, Copy, Debug, PartialEq, Eq, Structural)]
pub enum PoolKind {
    /// The pool holds quote asset and buys assets in (its counterparties
    /// sell to it).
    QuoteOnly,
    /// The pool holds assets and sells them out (its counterparties buy
    /// from it).
    AssetOnly,
    /// The pool serves both sides.
    Both,
}

/// Bookkeeping for one asset currently escrowed by a pool. A record exists
/// exactly while the referenced escrow custodies one unit of the asset: it
/// is created when the asset enters inventory (through funding or a
/// sell-side trade) and destroyed when the asset leaves (through a buy-side
/// trade or an owner withdrawal).
#[derive(Clone, Copy, Debug, PartialEq, Eq, Structural)]
pub struct AssetRecord {
    /// The pool holding the asset.
    pub pool_ref: u64,
    /// The escrowed asset itself.
    pub asset_mint_ref: u64,
    /// The collection the asset was verified against.
    pub collection_ref: u64,
    /// The per-asset escrow account custodying the single unit.
    pub escrow_account_ref: u64,
}

/// The transfers a committed buy-side trade asks the ledger substrate to
/// perform, all debited from the buyer.
#[derive(Clone, Copy, Debug, PartialEq, Eq, Structural)]
pub struct BuyReceipt {
    /// The notional: the spot price at trade time, owed to the pool's
    /// quote vault.
    pub notional: u64,
    /// The pool-level fee share, owed to the pool's fee vault.
    pub pool_fee: u64,
    /// The protocol fee share, owed to the authority's proceeds account.
    pub authority_fee: u64,
    /// Everything the buyer pays; never more than the notional plus the
    /// two fee shares.
    pub total_charged: u64,
}

/// The outcome of a committed sell-side trade: the transfers already taken
/// from the pool's quote vault, and the record created for the asset that
/// entered inventory.
#[derive(Clone, Copy, Debug, PartialEq, Eq, Structural)]
pub struct SellReceipt {
    /// The notional: the spot price at trade time, owed to the seller.
    pub notional: u64,
    /// The protocol fee share, owed to the authority's proceeds account.
    pub authority_fee: u64,
    /// The record for the asset now escrowed by the pool.
    pub record: AssetRecord,
}

/// One bonding-curve trading relationship between a quote asset and an
/// asset collection. The pool validates every operation, prices trades
/// through the curve, splits fees, and keeps its counters; every operation
/// either commits all of its described mutations or leaves all state,
/// including the vaults it was handed, exactly as before.
#[derive(Clone, Copy, Debug, PartialEq, Eq, Structural)]
pub struct Pool {
    /// The pool record's own identity, referenced by its asset records.
    pub id: u64,
    /// Identity entitled to administrative operations and withdrawals.
    pub owner: u64,
    /// The authority record this pool is registered under.
    pub authority_ref: u64,
    /// The collection traded by this pool; immutable after creation.
    pub collection_id: u64,
    /// The quote asset of this pool; immutable after creation.
    pub quote_asset_id: u64,
    /// Which sides of the market the pool serves.
    pub kind: PoolKind,
    /// The pricing rule moving the spot price after each trade.
    pub curve_kind: CurveKind,
    /// Magnitude of the price movement per trade: additive for the linear
    /// curve, basis points of the current price for the exponential one.
    pub step: u64,
    /// Pool-level fee in basis points, at most 10000.
    pub fee_bps: u16,
    /// Current quoted unit price; changes only through a completed trade
    /// or an explicit owner override.
    pub spot_price: u64,
    /// Monotonic count of completed trades.
    pub trade_count: u64,
    /// True from the first successful funding until the pool can no longer
    /// honor its next trade.
    pub active: bool,
    /// Number of assets currently escrowed for this pool.
    pub nft_inventory_count: u32,
}

impl Pool {
    /// The pool invariant: the fee stays within 10000 basis points, and on
    /// the exponential curve so does the step. Creation rejects anything
    /// outside, and every operation preserves it.
    pub open spec fn wf(&self) -> bool {
        &&& self.fee_bps <= BPS_DENOMINATOR
        &&& (self.curve_kind is Exponential ==> self.step <= BPS_DENOMINATOR)
    }

    /// Whether the pool serves buy-side trades (assets leaving the pool).
    pub open spec fn serves_asset_side(self) -> bool {
        self.kind is AssetOnly || self.kind is Both
    }

    /// Whether the pool serves sell-side trades (quote leaving the pool).
    pub open spec fn serves_quote_side(self) -> bool {
        self.kind is QuoteOnly || self.kind is Both
    }

    /// Creates a pool in its inactive state with zeroed counters.
    ///
    /// `collection_record` is the registry record of the collection to be
    /// traded; it must be a well-formed collection record (not nested in
    /// another collection, with a declared fixed supply). The fee, and on
    /// the exponential curve the step, must stay within 10000 basis
    /// points; anything above is rejected, never clamped.
    pub fn new(
        id: u64,
        owner: u64,
        authority_ref: u64,
        collection_id: u64,
        quote_asset_id: u64,
        kind: PoolKind,
        curve_kind: CurveKind,
        step: u64,
        fee_bps: u16,
        spot_price: u64,
        collection_record: &AssetMetadata,
    ) -> (result: Result<Pool, AmmError>)
        ensures
            !spec_collection_record_ok(*collection_record) ==> result == Err::<Pool, AmmError>(
                AmmError::ValidationFailure,
            ),
            spec_collection_record_ok(*collection_record) && fee_bps > BPS_DENOMINATOR ==> result
                == Err::<Pool, AmmError>(AmmError::ValidationFailure),
            spec_collection_record_ok(*collection_record) && fee_bps <= BPS_DENOMINATOR
                && curve_kind is Exponential && step > BPS_DENOMINATOR ==> result == Err::<
                Pool,
                AmmError,
            >(AmmError::ValidationFailure),
            spec_collection_record_ok(*collection_record) && fee_bps <= BPS_DENOMINATOR && (
            curve_kind is Exponential ==> step <= BPS_DENOMINATOR) ==> result == Ok::<
                Pool,
                AmmError,
            >(
                Pool {
                    id,
                    owner,
                    authority_ref,
                    collection_id,
                    quote_asset_id,
                    kind,
                    curve_kind,
                    step,
                    fee_bps,
                    spot_price,
                    trade_count: 0,
                    active: false,
                    nft_inventory_count: 0,
                },
            ),
            result matches Ok(pool) ==> pool.wf(),
    {
        if !collection_record_ok(collection_record) {
            return Err(AmmError::ValidationFailure);
        }
        if fee_bps > BPS_DENOMINATOR as u16 {
            return Err(AmmError::ValidationFailure);
        }
        if curve_kind == CurveKind::Exponential && step > BPS_DENOMINATOR {
            return Err(AmmError::ValidationFailure);
        }
        Ok(
            Pool {
                id,
                owner,
                authority_ref,
                collection_id,
                quote_asset_id,
                kind,
                curve_kind,
                step,
                fee_bps,
                spot_price,
                trade_count: 0,
                active: false,
                nft_inventory_count: 0,
            },
        )
    }

    /// Owner-only override of the curve step. On the exponential curve the
    /// same bound as at creation is re-validated: a step above 10000 basis
    /// points is rejected, never clamped.
    pub fn change_step(&mut self, caller: u64, new_step: u64) -> (result: Result<(), AmmError>)
        requires
            old(self).wf(),
        ensures
            final(self).wf(),
            caller != old(self).owner ==> result == Err::<(), AmmError>(
                AmmError::AuthorizationFailure,
            ) && *final(self) == *old(self),
            caller == old(self).owner && old(self).curve_kind is Exponential && new_step
                > BPS_DENOMINATOR ==> result == Err::<(), AmmError>(AmmError::ValidationFailure)
                && *final(self) == *old(self),
            caller == old(self).owner && (old(self).curve_kind is Exponential ==> new_step
                <= BPS_DENOMINATOR) ==> result == Ok::<(), AmmError>(()) && *final(self) == (Pool {
                step: new_step,
                ..*old(self)
            }),
    {
        if caller != self.owner {
            return Err(AmmError::AuthorizationFailure);
        }
        if self.curve_kind == CurveKind::Exponential && new_step > BPS_DENOMINATOR {
            return Err(AmmError::ValidationFailure);
        }
        self.step = new_step;
        Ok(())
    }

    /// Owner-only override of the pool fee. A fee above 10000 basis points
    /// is rejected, never clamped, and the stored fee is left untouched.
    pub fn change_fee(&mut self, caller: u64, new_fee: u16) -> (result: Result<(), AmmError>)
        requires
            old(self).wf(),
        ensures
            final(self).wf(),
            caller != old(self).owner ==> result == Err::<(), AmmError>(
                AmmError::AuthorizationFailure,
            ) && *final(self) == *old(self),
            caller == old(self).owner && new_fee > BPS_DENOMINATOR ==> result == Err::<
                (),
                AmmError,
            >(AmmError::ValidationFailure) && *final(self) == *old(self),
            caller == old(self).owner && new_fee <= BPS_DENOMINATOR ==> result == Ok::<
                (),
                AmmError,
            >(()) && *final(self) == (Pool { fee_bps: new_fee, ..*old(self) }),
    {
        if caller != self.owner {
            return Err(AmmError::AuthorizationFailure);
        }
        if new_fee > BPS_DENOMINATOR as u16 {
            return Err(AmmError::ValidationFailure);
        }
        self.fee_bps = new_fee;
        Ok(())
    }

    /// Owner-only override of the spot price.
    pub fn change_spot_price(&mut self, caller: u64, new_spot_price: u64) -> (result: Result<
        (),
        AmmError,
    >)
        requires
            old(self).wf(),
        ensures
            final(self).wf(),
            caller != old(self).owner ==> result == Err::<(), AmmError>(
                AmmError::AuthorizationFailure,
            ) && *final(self) == *old(self),
            caller == old(self).owner ==> result == Ok::<(), AmmError>(()) && *final(self) == (
            Pool { spot_price: new_spot_price, ..*old(self) }),
    {
        if caller != self.owner {
            return Err(AmmError::AuthorizationFailure);
        }
        self.spot_price = new_spot_price;
        Ok(())
    }

    /// Owner-only close of the pool record. Legal only once the pool holds
    /// no asset inventory and both of its escrows have been emptied; on
    /// success the caller may reclaim the record, which is terminal. The
    /// pool value itself is left untouched, so a failed close changes
    /// nothing.
    pub fn close(&self, caller: u64, quote_vault: &Vault, fee_vault: &Vault) -> (result: Result<
        (),
        AmmError,
    >)
        ensures
            caller != self.owner ==> result == Err::<(), AmmError>(AmmError::AuthorizationFailure),
            caller == self.owner && self.nft_inventory_count != 0 ==> result == Err::<
                (),
                AmmError,
            >(AmmError::InvariantViolation),
            caller == self.owner && self.nft_inventory_count == 0 && (quote_vault.balance != 0
                || fee_vault.balance != 0) ==> result == Err::<(), AmmError>(
                AmmError::InvariantViolation,
            ),
            caller == self.owner && self.nft_inventory_count == 0 && quote_vault.balance == 0
                && fee_vault.balance == 0 ==> result == Ok::<(), AmmError>(()),
    {
        if caller != self.owner {
            return Err(AmmError::AuthorizationFailure);
        }
        if self.nft_inventory_count != 0 {
            return Err(AmmError::InvariantViolation);
        }
        if quote_vault.balance != 0 || fee_vault.balance != 0 {
            return Err(AmmError::InvariantViolation);
        }
        Ok(())
    }

    /// Owner-only funding of the pool's quote escrow. Legal only for a
    /// pool serving the quote side, and only with at least one spot price
    /// worth of quote asset; a successful funding activates the pool.
    pub fn fund_quote(&mut self, caller: u64, amount: u64, quote_vault: &mut Vault) -> (result:
        Result<(), AmmError>)
        requires
            old(self).wf(),
        ensures
            final(self).wf(),
            caller != old(self).owner ==> result == Err::<(), AmmError>(
                AmmError::AuthorizationFailure,
            ) && *final(self) == *old(self) && *final(quote_vault) == *old(quote_vault),
            caller == old(self).owner && old(quote_vault).asset_id != old(self).quote_asset_id
                ==> result == Err::<(), AmmError>(AmmError::ValidationFailure) && *final(self)
                == *old(self) && *final(quote_vault) == *old(quote_vault),
            caller == old(self).owner && old(quote_vault).asset_id == old(self).quote_asset_id
                && !old(self).serves_quote_side() ==> result == Err::<(), AmmError>(
                AmmError::ValidationFailure,
            ) && *final(self) == *old(self) && *final(quote_vault) == *old(quote_vault),
            caller == old(self).owner && old(quote_vault).asset_id == old(self).quote_asset_id
                && old(self).serves_quote_side() && amount < old(self).spot_price ==> result
                == Err::<(), AmmError>(AmmError::ValidationFailure) && *final(self) == *old(self)
                && *final(quote_vault) == *old(quote_vault),
            caller == old(self).owner && old(quote_vault).asset_id == old(self).quote_asset_id
                && old(self).serves_quote_side() && amount >= old(self).spot_price && old(
                quote_vault,
            ).balance + amount > u64::MAX ==> result == Err::<(), AmmError>(
                AmmError::ArithmeticFault,
            ) && *final(self) == *old(self) && *final(quote_vault) == *old(quote_vault),
            caller == old(self).owner && old(quote_vault).asset_id == old(self).quote_asset_id
                && old(self).serves_quote_side() && amount >= old(self).spot_price && old(
                quote_vault,
            ).balance + amount <= u64::MAX ==> result == Ok::<(), AmmError>(()) && *final(self) == (
            Pool { active: true, ..*old(self) }) && *final(quote_vault) == (Vault {
                asset_id: old(quote_vault).asset_id,
                balance: (old(quote_vault).balance + amount) as u64,
            }),
    {
        if caller != self.owner {
            return Err(AmmError::AuthorizationFailure);
        }
        if quote_vault.asset_id != self.quote_asset_id {
            return Err(AmmError::ValidationFailure);
        }
        if !(self.kind == PoolKind::QuoteOnly || self.kind == PoolKind::Both) {
            return Err(AmmError::ValidationFailure);
        }
        if amount < self.spot_price {
            return Err(AmmError::ValidationFailure);
        }
        match quote_vault.deposit(self.quote_asset_id, amount) {
            Ok(()) => {
                self.active = true;
                Ok(())
            },
            Err(fault) => Err(fault),
        }
    }

    /// Owner-only funding of the pool with one asset of its collection.
    /// Legal only for a pool serving the asset side, and only with an
    /// asset the registry verifies as a member of the pool's collection
    /// (`asset_meta` and `collection_meta` are the registry's records for
    /// the asset and the collection). On success the asset's unit sits in
    /// the fresh escrow `escrow_account_ref`, the returned record tracks
    /// it, inventory grows by one, and the pool is activated.
    pub fn fund_nft(
        &mut self,
        caller: u64,
        asset_id: u64,
        asset_meta: &AssetMetadata,
        collection_meta: &AssetMetadata,
        escrow_account_ref: u64,
    ) -> (result: Result<AssetRecord, AmmError>)
        requires
            old(self).wf(),
        ensures
            final(self).wf(),
            caller != old(self).owner ==> result == Err::<AssetRecord, AmmError>(
                AmmError::AuthorizationFailure,
            ) && *final(self) == *old(self),
            caller == old(self).owner && !old(self).serves_asset_side() ==> result == Err::<
                AssetRecord,
                AmmError,
            >(AmmError::ValidationFailure) && *final(self) == *old(self),
            caller == old(self).owner && old(self).serves_asset_side() && !spec_member_verified(
                *asset_meta,
                old(self).collection_id,
                *collection_meta,
            ) ==> result == Err::<AssetRecord, AmmError>(AmmError::ValidationFailure)
                && *final(self) == *old(self),
            caller == old(self).owner && old(self).serves_asset_side() && spec_member_verified(
                *asset_meta,
                old(self).collection_id,
                *collection_meta,
            ) && old(self).nft_inventory_count == u32::MAX ==> result == Err::<
                AssetRecord,
                AmmError,
            >(AmmError::ArithmeticFault) && *final(self) == *old(self),
            caller == old(self).owner && old(self).serves_asset_side() && spec_member_verified(
                *asset_meta,
                old(self).collection_id,
                *collection_meta,
            ) && old(self).nft_inventory_count < u32::MAX ==> result == Ok::<
                AssetRecord,
                AmmError,
            >(
                AssetRecord {
                    pool_ref: old(self).id,
                    asset_mint_ref: asset_id,
                    collection_ref: old(self).collection_id,
                    escrow_account_ref,
                },
            ) && *final(self) == (Pool {
                active: true,
                nft_inventory_count: (old(self).nft_inventory_count + 1) as u32,
                ..*old(self)
            }),
    {
        if caller != self.owner {
            return Err(AmmError::AuthorizationFailure);
        }
        if !(self.kind == PoolKind::AssetOnly || self.kind == PoolKind::Both) {
            return Err(AmmError::ValidationFailure);
        }
        if verify_membership(asset_meta, self.collection_id, collection_meta).is_err() {
            return Err(AmmError::ValidationFailure);
        }
        match self.nft_inventory_count.checked_add(1) {
            Some(grown) => {
                self.nft_inventory_count = grown;
                self.active = true;
                Ok(
                    AssetRecord {
                        pool_ref: self.id,
                        asset_mint_ref: asset_id,
                        collection_ref: self.collection_id,
                        escrow_account_ref,
                    },
                )
            },
            None => Err(AmmError::ArithmeticFault),
        }
    }

    /// Owner-only withdrawal of one escrowed asset, on presentation of the
    /// program's custody capability. The record must belong to this pool;
    /// on success it is destroyed by the caller and inventory shrinks by
    /// one. A pool serving only the asset side deactivates when its last
    /// asset leaves, since it can no longer serve any trade.
    pub fn withdraw_nft(&mut self, caller: u64, record: &AssetRecord, custody: &EscrowAuthority) -> (
    result: Result<(), AmmError>)
        requires
            old(self).wf(),
        ensures
            final(self).wf(),
            caller != old(self).owner ==> result == Err::<(), AmmError>(
                AmmError::AuthorizationFailure,
            ) && *final(self) == *old(self),
            caller == old(self).owner && (record.pool_ref != old(self).id || record.collection_ref
                != old(self).collection_id) ==> result == Err::<(), AmmError>(
                AmmError::ValidationFailure,
            ) && *final(self) == *old(self),
            caller == old(self).owner && record.pool_ref == old(self).id && record.collection_ref
                == old(self).collection_id && old(self).nft_inventory_count == 0 ==> result
                == Err::<(), AmmError>(AmmError::InvariantViolation) && *final(self) == *old(self),
            caller == old(self).owner && record.pool_ref == old(self).id && record.collection_ref
                == old(self).collection_id && old(self).nft_inventory_count > 0 ==> result
                == Ok::<(), AmmError>(()) && *final(self) == (Pool {
                nft_inventory_count: (old(self).nft_inventory_count - 1) as u32,
                active: (
                if old(self).kind is AssetOnly && old(self).nft_inventory_count == 1 {
                    false
                } else {
                    old(self).active
                }),
                ..*old(self)
            }),
    {
        if caller != self.owner {
            return Err(AmmError::AuthorizationFailure);
        }
        if record.pool_ref != self.id || record.collection_ref != self.collection_id {
            return Err(AmmError::ValidationFailure);
        }
        if self.nft_inventory_count == 0 {
            return Err(AmmError::InvariantViolation);
        }
        self.nft_inventory_count = self.nft_inventory_count - 1;
        if self.kind == PoolKind::AssetOnly && self.nft_inventory_count == 0 {
            self.active = false;
        }
        Ok(())
    }

    /// Owner-only withdrawal of quote asset from the pool's quote escrow,
    /// on presentation of the program's custody capability. A pool serving
    /// only the quote side deactivates when the remaining balance can no
    /// longer cover its next trade (the spot price plus the authority fee
    /// on it).
    pub fn withdraw_quote(
        &mut self,
        caller: u64,
        amount: u64,
        authority: &PoolAuthority,
        authority_id: u64,
        quote_vault: &mut Vault,
        custody: &EscrowAuthority,
    ) -> (result: Result<(), AmmError>)
        requires
            old(self).wf(),
            authority.wf(),
        ensures
            final(self).wf(),
            caller != old(self).owner ==> result == Err::<(), AmmError>(
                AmmError::AuthorizationFailure,
            ) && *final(self) == *old(self) && *final(quote_vault) == *old(quote_vault),
            caller == old(self).owner && authority_id != old(self).authority_ref ==> result
                == Err::<(), AmmError>(AmmError::ValidationFailure) && *final(self) == *old(self)
                && *final(quote_vault) == *old(quote_vault),
            caller == old(self).owner && authority_id == old(self).authority_ref && old(
                quote_vault,
            ).asset_id != old(self).quote_asset_id ==> result == Err::<(), AmmError>(
                AmmError::ValidationFailure,
            ) && *final(self) == *old(self) && *final(quote_vault) == *old(quote_vault),
            caller == old(self).owner && authority_id == old(self).authority_ref && old(
                quote_vault,
            ).asset_id == old(self).quote_asset_id && old(quote_vault).balance < amount ==> result
                == Err::<(), AmmError>(AmmError::InsufficientBalance) && *final(self) == *old(self)
                && *final(quote_vault) == *old(quote_vault),
            caller == old(self).owner && authority_id == old(self).authority_ref && old(
                quote_vault,
            ).asset_id == old(self).quote_asset_id && old(quote_vault).balance >= amount ==> result
                == Ok::<(), AmmError>(()) && *final(quote_vault) == (Vault {
                asset_id: old(quote_vault).asset_id,
                balance: (old(quote_vault).balance - amount) as u64,
            }) && *final(self) == (Pool {
                active: (
                if old(self).kind is QuoteOnly && old(quote_vault).balance - amount < old(
                    self,
                ).spot_price + spec_fee(old(self).spot_price, authority.fee_bps) {
                    false
                } else {
                    old(self).active
                }),
                ..*old(self)
            }),
    {
        if caller != self.owner {
            return Err(AmmError::AuthorizationFailure);
        }
        if authority_id != self.authority_ref {
            return Err(AmmError::ValidationFailure);
        }
        if quote_vault.asset_id != self.quote_asset_id {
            return Err(AmmError::ValidationFailure);
        }
        match quote_vault.withdraw(self.quote_asset_id, amount, custody) {
            Ok(()) => {},
            Err(shortfall) => {
                return Err(shortfall);
            },
        }
        if self.kind == PoolKind::QuoteOnly {
            let next_trade_fee = fee_amount(self.spot_price, authority.fee_bps);
            let covered = match self.spot_price.checked_add(next_trade_fee) {
                Some(required) => quote_vault.balance >= required,
                None => false,
            };
            if !covered {
                self.active = false;
            }
        }
        Ok(())
    }

    /// Owner-only withdrawal of collected pool fees from the fee escrow,
    /// on presentation of the program's custody capability.
    pub fn withdraw_fee(
        &mut self,
        caller: u64,
        amount: u64,
        fee_vault: &mut Vault,
        custody: &EscrowAuthority,
    ) -> (result: Result<(), AmmError>)
        requires
            old(self).wf(),
        ensures
            final(self).wf(),
            caller != old(self).owner ==> result == Err::<(), AmmError>(
                AmmError::AuthorizationFailure,
            ) && *final(self) == *old(self) && *final(fee_vault) == *old(fee_vault),
            caller == old(self).owner && old(fee_vault).asset_id != old(self).quote_asset_id
                ==> result == Err::<(), AmmError>(AmmError::ValidationFailure) && *final(self)
                == *old(self) && *final(fee_vault) == *old(fee_vault),
            caller == old(self).owner && old(fee_vault).asset_id == old(self).quote_asset_id && old(
                fee_vault,
            ).balance < amount ==> result == Err::<(), AmmError>(AmmError::InsufficientBalance)
                && *final(self) == *old(self) && *final(fee_vault) == *old(fee_vault),
            caller == old(self).owner && old(fee_vault).asset_id == old(self).quote_asset_id && old(
                fee_vault,
            ).balance >= amount ==> result == Ok::<(), AmmError>(()) && *final(self) == *old(self)
                && *final(fee_vault) == (Vault {
                asset_id: old(fee_vault).asset_id,
                balance: (old(fee_vault).balance - amount) as u64,
            }),
    {
        if caller != self.owner {
            return Err(AmmError::AuthorizationFailure);
        }
        if fee_vault.asset_id != self.quote_asset_id {
            return Err(AmmError::ValidationFailure);
        }
        match fee_vault.withdraw(self.quote_asset_id, amount, custody) {
            Ok(()) => Ok(()),
            Err(shortfall) => Err(shortfall),
        }
    }

    /// The validation cascade of a buy-side trade, in the order the checks
    /// run; the first failing check decides the error, and `None` means the
    /// trade commits.
    pub open spec fn spec_buy_check(
        self,
        authority: PoolAuthority,
        authority_id: u64,
        buyer_balance: u64,
        asset_id: u64,
        asset_meta: AssetMetadata,
        collection_meta: AssetMetadata,
        record: AssetRecord,
        quote_vault: Vault,
        fee_vault: Vault,
    ) -> Option<AmmError> {
        let authority_fee = spec_fee(self.spot_price, authority.fee_bps);
        let pool_fee = spec_fee(self.spot_price, self.fee_bps);
        if authority_id != self.authority_ref {
            Some(AmmError::ValidationFailure)
        } else if quote_vault.asset_id != self.quote_asset_id {
            Some(AmmError::ValidationFailure)
        } else if fee_vault.asset_id != self.quote_asset_id {
            Some(AmmError::ValidationFailure)
        } else if !self.active {
            Some(AmmError::ValidationFailure)
        } else if !self.serves_asset_side() {
            Some(AmmError::ValidationFailure)
        } else if self.nft_inventory_count == 0 {
            Some(AmmError::ValidationFailure)
        } else if !spec_member_verified(asset_meta, self.collection_id, collection_meta) {
            Some(AmmError::ValidationFailure)
        } else if record.pool_ref != self.id || record.asset_mint_ref != asset_id
            || record.collection_ref != self.collection_id {
            Some(AmmError::ValidationFailure)
        } else if self.spot_price + authority_fee > u64::MAX {
            Some(AmmError::ArithmeticFault)
        } else if buyer_balance < self.spot_price + authority_fee {
            Some(AmmError::InsufficientBalance)
        } else if self.spot_price + authority_fee + pool_fee > u64::MAX {
            Some(AmmError::ArithmeticFault)
        } else if quote_vault.balance + self.spot_price > u64::MAX {
            Some(AmmError::ArithmeticFault)
        } else if fee_vault.balance + pool_fee > u64::MAX {
            Some(AmmError::ArithmeticFault)
        } else if spec_next_price(self.spot_price, self.step, self.curve_kind, TradeDirection::Buy)
            is Err {
            Some(AmmError::ArithmeticFault)
        } else if self.trade_count == u64::MAX {
            Some(AmmError::ArithmeticFault)
        } else {
            None
        }
    }

    /// A buy-side trade: the counterparty pays the spot price plus fees in
    /// quote asset and takes the escrowed asset named by `record` out of
    /// the pool.
    ///
    /// Legal only on an active pool serving the asset side with inventory
    /// to sell; the asset must be a verified member of the pool's
    /// collection and the buyer's balance must cover the notional plus the
    /// authority fee. On success, exactly one trade is counted, inventory
    /// shrinks by exactly one, the notional is credited to the quote
    /// escrow, the pool fee to the fee escrow, and the spot price advances
    /// one buy step on the curve. The record is destroyed by the caller,
    /// which performs the receipt's transfers and releases the asset to the
    /// buyer under the presented custody capability. On any failure every
    /// piece of state is left exactly as before.
    pub fn buy_nft(
        &mut self,
        authority: &PoolAuthority,
        authority_id: u64,
        buyer_balance: u64,
        asset_id: u64,
        asset_meta: &AssetMetadata,
        collection_meta: &AssetMetadata,
        record: &AssetRecord,
        quote_vault: &mut Vault,
        fee_vault: &mut Vault,
        custody: &EscrowAuthority,
    ) -> (result: Result<BuyReceipt, AmmError>)
        requires
            old(self).wf(),
            authority.wf(),
        ensures
            final(self).wf(),
            ({
                let check = old(self).spec_buy_check(
                    *authority,
                    authority_id,
                    buyer_balance,
                    asset_id,
                    *asset_meta,
                    *collection_meta,
                    *record,
                    *old(quote_vault),
                    *old(fee_vault),
                );
                let notional = old(self).spot_price;
                let authority_fee = spec_fee(notional, authority.fee_bps);
                let pool_fee = spec_fee(notional, old(self).fee_bps);
                &&& (check matches Some(failure) ==> result == Err::<BuyReceipt, AmmError>(failure)
                    && *final(self) == *old(self) && *final(quote_vault) == *old(quote_vault)
                    && *final(fee_vault) == *old(fee_vault))
                &&& (check is None ==> {
                    &&& result == Ok::<BuyReceipt, AmmError>(
                        BuyReceipt {
                            notional,
                            pool_fee: pool_fee as u64,
                            authority_fee: authority_fee as u64,
                            total_charged: (notional + authority_fee + pool_fee) as u64,
                        },
                    )
                    &&& spec_next_price(
                        notional,
                        old(self).step,
                        old(self).curve_kind,
                        TradeDirection::Buy,
                    ) matches Ok(next) && *final(self) == (Pool {
                        spot_price: next,
                        trade_count: (old(self).trade_count + 1) as u64,
                        nft_inventory_count: (old(self).nft_inventory_count - 1) as u32,
                        ..*old(self)
                    })
                    &&& *final(quote_vault) == (Vault {
                        asset_id: old(quote_vault).asset_id,
                        balance: (old(quote_vault).balance + notional) as u64,
                    })
                    &&& *final(fee_vault) == (Vault {
                        asset_id: old(fee_vault).asset_id,
                        balance: (old(fee_vault).balance + pool_fee) as u64,
                    })
                })
            }),
    {
        if authority_id != self.authority_ref {
            return Err(AmmError::ValidationFailure);
        }
        if quote_vault.asset_id != self.quote_asset_id {
            return Err(AmmError::ValidationFailure);
        }
        if fee_vault.asset_id != self.quote_asset_id {
            return Err(AmmError::ValidationFailure);
        }
        if !self.active {
            return Err(AmmError::ValidationFailure);
        }
        if !(self.kind == PoolKind::AssetOnly || self.kind == PoolKind::Both) {
            return Err(AmmError::ValidationFailure);
        }
        if self.nft_inventory_count == 0 {
            return Err(AmmError::ValidationFailure);
        }
        if verify_membership(asset_meta, self.collection_id, collection_meta).is_err() {
            return Err(AmmError::ValidationFailure);
        }
        if record.pool_ref != self.id || record.asset_mint_ref != asset_id
            || record.collection_ref != self.collection_id {
            return Err(AmmError::ValidationFailure);
        }
        let notional = self.spot_price;
        let shares = split_fees(notional, self.fee_bps, authority.fee_bps);
        let owed = match notional.checked_add(shares.authority_fee) {
            Some(sum) => sum,
            None => {
                return Err(AmmError::ArithmeticFault);
            },
        };
        if buyer_balance < owed {
            return Err(AmmError::InsufficientBalance);
        }
        let total_charged = match owed.checked_add(shares.pool_fee) {
            Some(sum) => sum,
            None => {
                return Err(AmmError::ArithmeticFault);
            },
        };
        let new_quote_balance = match quote_vault.balance.checked_add(notional) {
            Some(sum) => sum,
            None => {
                return Err(AmmError::ArithmeticFault);
            },
        };
        let new_fee_balance = match fee_vault.balance.checked_add(shares.pool_fee) {
            Some(sum) => sum,
            None => {
                return Err(AmmError::ArithmeticFault);
            },
        };
        let next = match next_price(notional, self.step, self.curve_kind, TradeDirection::Buy) {
            Ok(price) => price,
            Err(fault) => {
                return Err(fault);
            },
        };
        let new_trade_count = match self.trade_count.checked_add(1) {
            Some(count) => count,
            None => {
                return Err(AmmError::ArithmeticFault);
            },
        };
        quote_vault.balance = new_quote_balance;
        fee_vault.balance = new_fee_balance;
        self.spot_price = next;
        self.nft_inventory_count = self.nft_inventory_count - 1;
        self.trade_count = new_trade_count;
        Ok(
            BuyReceipt {
                notional,
                pool_fee: shares.pool_fee,
                authority_fee: shares.authority_fee,
                total_charged,
            },
        )
    }

    /// The validation cascade of a sell-side trade, in the order the
    /// checks run; the first failing check decides the error, and `None`
    /// means the trade commits.
    pub open spec fn spec_sell_check(
        self,
        authority: PoolAuthority,
        authority_id: u64,
        asset_meta: AssetMetadata,
        collection_meta: AssetMetadata,
        quote_vault: Vault,
    ) -> Option<AmmError> {
        let authority_fee = spec_fee(self.spot_price, authority.fee_bps);
        if authority_id != self.authority_ref {
            Some(AmmError::ValidationFailure)
        } else if quote_vault.asset_id != self.quote_asset_id {
            Some(AmmError::ValidationFailure)
        } else if !self.active {
            Some(AmmError::ValidationFailure)
        } else if !self.serves_quote_side() {
            Some(AmmError::ValidationFailure)
        } else if !spec_member_verified(asset_meta, self.collection_id, collection_meta) {
            Some(AmmError::ValidationFailure)
        } else if self.nft_inventory_count == u32::MAX {
            Some(AmmError::ArithmeticFault)
        } else if self.spot_price + authority_fee > u64::MAX {
            Some(AmmError::ArithmeticFault)
        } else if quote_vault.balance < self.spot_price + authority_fee {
            Some(AmmError::InsufficientBalance)
        } else if spec_next_price(self.spot_price, self.step, self.curve_kind, TradeDirection::Sell)
            is Err {
            Some(AmmError::ArithmeticFault)
        } else if self.trade_count == u64::MAX {
            Some(AmmError::ArithmeticFault)
        } else {
            None
        }
    }

    /// A sell-side trade: the counterparty hands an asset of the pool's
    /// collection into a fresh escrow and is owed the spot price from the
    /// pool's quote vault, while the authority fee leaves the vault for the
    /// authority's proceeds account.
    ///
    /// Legal only on an active pool serving the quote side whose vault
    /// covers the notional plus the authority fee; the asset must be a
    /// verified member of the pool's collection. On success, exactly one
    /// trade is counted, inventory grows by exactly one under the returned
    /// record, the vault is debited, and the spot price advances one sell
    /// step on the curve. The trade itself always commits whole; but when
    /// the remaining vault balance no longer covers the next trade (the new
    /// spot price plus the authority fee on it), the pool deactivates.
    /// On any failure every piece of state is left exactly as before.
    pub fn sell_nft(
        &mut self,
        authority: &PoolAuthority,
        authority_id: u64,
        asset_id: u64,
        asset_meta: &AssetMetadata,
        collection_meta: &AssetMetadata,
        escrow_account_ref: u64,
        quote_vault: &mut Vault,
        custody: &EscrowAuthority,
    ) -> (result: Result<SellReceipt, AmmError>)
        requires
            old(self).wf(),
            authority.wf(),
        ensures
            final(self).wf(),
            ({
                let check = old(self).spec_sell_check(
                    *authority,
                    authority_id,
                    *asset_meta,
                    *collection_meta,
                    *old(quote_vault),
                );
                let notional = old(self).spot_price;
                let authority_fee = spec_fee(notional, authority.fee_bps);
                let remaining = old(quote_vault).balance - notional - authority_fee;
                &&& (check matches Some(failure) ==> result == Err::<SellReceipt, AmmError>(
                    failure,
                ) && *final(self) == *old(self) && *final(quote_vault) == *old(quote_vault))
                &&& (check is None ==> {
                    &&& result == Ok::<SellReceipt, AmmError>(
                        SellReceipt {
                            notional,
                            authority_fee: authority_fee as u64,
                            record: AssetRecord {
                                pool_ref: old(self).id,
                                asset_mint_ref: asset_id,
                                collection_ref: old(self).collection_id,
                                escrow_account_ref,
                            },
                        },
                    )
                    &&& spec_next_price(
                        notional,
                        old(self).step,
                        old(self).curve_kind,
                        TradeDirection::Sell,
                    ) matches Ok(next) && *final(self) == (Pool {
                        spot_price: next,
                        trade_count: (old(self).trade_count + 1) as u64,
                        nft_inventory_count: (old(self).nft_inventory_count + 1) as u32,
                        active: remaining >= next + spec_fee(next, authority.fee_bps),
                        ..*old(self)
                    })
                    &&& *final(quote_vault) == (Vault {
                        asset_id: old(quote_vault).asset_id,
                        balance: remaining as u64,
                    })
                })
            }),
    {
        if authority_id != self.authority_ref {
            return Err(AmmError::ValidationFailure);
        }
        if quote_vault.asset_id != self.quote_asset_id {
            return Err(AmmError::ValidationFailure);
        }
        if !self.active {
            return Err(AmmError::ValidationFailure);
        }
        if !(self.kind == PoolKind::QuoteOnly || self.kind == PoolKind::Both) {
            return Err(AmmError::ValidationFailure);
        }
        if verify_membership(asset_meta, self.collection_id, collection_meta).is_err() {
            return Err(AmmError::ValidationFailure);
        }
        if self.nft_inventory_count == u32::MAX {
            return Err(AmmError::ArithmeticFault);
        }
        let notional = self.spot_price;
        let authority_fee = fee_amount(notional, authority.fee_bps);
        let owed = match notional.checked_add(authority_fee) {
            Some(sum) => sum,
            None => {
                return Err(AmmError::ArithmeticFault);
            },
        };
        if quote_vault.balance < owed {
            return Err(AmmError::InsufficientBalance);
        }
        let next = match next_price(notional, self.step, self.curve_kind, TradeDirection::Sell) {
            Ok(price) => price,
            Err(fault) => {
                return Err(fault);
            },
        };
        let new_trade_count = match self.trade_count.checked_add(1) {
            Some(count) => count,
            None => {
                return Err(AmmError::ArithmeticFault);
            },
        };
        match quote_vault.withdraw(self.quote_asset_id, owed, custody) {
            Ok(()) => {},
            Err(shortfall) => {
                return Err(shortfall);
            },
        }
        let next_trade_fee = fee_amount(next, authority.fee_bps);
        self.active = match next.checked_add(next_trade_fee) {
            Some(required) => quote_vault.balance >= required,
            None => false,
        };
        self.spot_price = next;
        self.nft_inventory_count = self.nft_inventory_count + 1;
        self.trade_count = new_trade_count;
        Ok(
            SellReceipt {
                notional,
                authority_fee,
                record: AssetRecord {
                    pool_ref: self.id,
                    asset_mint_ref: asset_id,
                    collection_ref: self.collection_id,
                    escrow_account_ref,
                },
            },
        )
    }
}

} // verus!
