use nftamm::authority::PoolAuthority;
use nftamm::errors::{AmmError, ProvenanceError};
use nftamm::registry::{
    collection_record_ok, verify_membership, AssetMetadata, CollectionLink, RoyaltySchedule,
};
use nftamm::vault::{EscrowAuthority, Vault};

fn no_royalties() -> RoyaltySchedule {
    RoyaltySchedule { seller_fee_bps: 0, creators: Vec::new() }
}

fn member_record(collection: u64) -> AssetMetadata {
    AssetMetadata {
        collection: Some(CollectionLink { key: collection, verified: true }),
        has_collection_details: false,
        royalties: no_royalties(),
    }
}

fn collection_record() -> AssetMetadata {
    AssetMetadata { collection: None, has_collection_details: true, royalties: no_royalties() }
}

#[test]
fn vault_deposit_and_withdraw() {
    let custody = EscrowAuthority {};
    let mut vault = Vault::new(4);
    assert_eq!(vault.balance, 0);
    assert_eq!(vault.deposit(4, 700), Ok(()));
    assert_eq!(vault.balance, 700);
    assert_eq!(vault.withdraw(4, 200, &custody), Ok(()));
    assert_eq!(vault.balance, 500);
}

#[test]
fn vault_rejects_the_wrong_asset() {
    let custody = EscrowAuthority {};
    let mut vault = Vault::new(4);
    assert_eq!(vault.deposit(5, 700), Err(AmmError::ValidationFailure));
    assert_eq!(vault.balance, 0);
    assert_eq!(vault.withdraw(5, 0, &custody), Err(AmmError::ValidationFailure));
}

#[test]
fn vault_deposit_overflow_is_a_fault() {
    let mut vault = Vault { asset_id: 4, balance: u64::MAX };
    assert_eq!(vault.deposit(4, 1), Err(AmmError::ArithmeticFault));
    assert_eq!(vault.balance, u64::MAX);
}

#[test]
fn vault_withdraw_needs_the_balance() {
    let custody = EscrowAuthority {};
    let mut vault = Vault { asset_id: 4, balance: 100 };
    assert_eq!(vault.withdraw(4, 101, &custody), Err(AmmError::InsufficientBalance));
    assert_eq!(vault.balance, 100);
}

#[test]
fn authority_fee_above_ten_thousand_is_rejected() {
    assert_eq!(PoolAuthority::new(1, 10001), Err(AmmError::ValidationFailure));
    let authority = PoolAuthority::new(1, 10000).unwrap();
    assert_eq!(authority.current_authority, 1);
    assert_eq!(authority.pending_authority, None);
    assert_eq!(authority.fee_bps, 10000);
}

#[test]
fn transfer_request_is_current_authority_only() {
    let mut authority = PoolAuthority::new(1, 50).unwrap();
    assert_eq!(authority.request_transfer(9, 2), Err(AmmError::AuthorizationFailure));
    assert_eq!(authority.pending_authority, None);
    assert_eq!(authority.request_transfer(1, 2), Ok(()));
    assert_eq!(authority.pending_authority, Some(2));
    assert_eq!(authority.current_authority, 1);
}

#[test]
fn accept_by_a_third_party_changes_nothing() {
    let mut authority = PoolAuthority::new(1, 50).unwrap();
    authority.request_transfer(1, 2).unwrap();
    // The caller is neither the current nor the proposed authority.
    assert_eq!(authority.accept_transfer(3), Err(AmmError::AuthorizationFailure));
    assert_eq!(authority.current_authority, 1);
    assert_eq!(authority.pending_authority, Some(2));
}

#[test]
fn accept_by_the_pending_authority_completes_the_transfer() {
    let mut authority = PoolAuthority::new(1, 50).unwrap();
    authority.request_transfer(1, 2).unwrap();
    assert_eq!(authority.accept_transfer(2), Ok(()));
    assert_eq!(authority.current_authority, 2);
    assert_eq!(authority.pending_authority, None);
}

#[test]
fn accept_with_no_transfer_pending_fails() {
    let mut authority = PoolAuthority::new(1, 50).unwrap();
    assert_eq!(authority.accept_transfer(1), Err(AmmError::AuthorizationFailure));
    assert_eq!(authority.current_authority, 1);
}

#[test]
fn membership_of_a_verified_member() {
    let asset = member_record(3);
    assert_eq!(verify_membership(&asset, 3, &collection_record()), Ok(()));
}

#[test]
fn membership_errors_name_the_first_failure() {
    let collection = collection_record();

    let mut parent = member_record(3);
    parent.has_collection_details = true;
    assert_eq!(
        verify_membership(&parent, 3, &collection),
        Err(ProvenanceError::NotVerified)
    );

    let mut unlinked = member_record(3);
    unlinked.collection = None;
    assert_eq!(
        verify_membership(&unlinked, 3, &collection),
        Err(ProvenanceError::MetadataAbsent)
    );

    let elsewhere = member_record(8);
    assert_eq!(
        verify_membership(&elsewhere, 3, &collection),
        Err(ProvenanceError::WrongCollection)
    );

    let mut unverified = member_record(3);
    unverified.collection = Some(CollectionLink { key: 3, verified: false });
    assert_eq!(
        verify_membership(&unverified, 3, &collection),
        Err(ProvenanceError::NotVerified)
    );

    let mut nested = collection_record();
    nested.collection = Some(CollectionLink { key: 9, verified: true });
    assert_eq!(
        verify_membership(&member_record(3), 3, &nested),
        Err(ProvenanceError::WrongCollection)
    );

    let mut open_supply = collection_record();
    open_supply.has_collection_details = false;
    assert_eq!(
        verify_membership(&member_record(3), 3, &open_supply),
        Err(ProvenanceError::NotVerified)
    );
}

#[test]
fn collection_records_are_judged_by_shape() {
    assert!(collection_record_ok(&collection_record()));
    assert!(!collection_record_ok(&member_record(3)));
    let mut open_supply = collection_record();
    open_supply.has_collection_details = false;
    assert!(!collection_record_ok(&open_supply));
}
