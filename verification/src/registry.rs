use vstd::prelude::*;

use crate::errors::ProvenanceError;

verus! {

/// One royalty beneficiary of an asset, holding a percentage share.
#[derive(Clone, Copy, Debug, PartialEq, Eq, Structural)]
pub struct CreatorShare {
    /// Identity of the beneficiary.
    pub address: u64,
    /// Its share of the royalty total, in whole percent.
    pub share: u8,
}

/// The royalty schedule the asset registry records for an asset.
#[derive(Clone, Debug, PartialEq, Eq)]
pub struct RoyaltySchedule {
    /// Royalty rate on each trade notional, in basis points as recorded.
    pub seller_fee_bps: u16,
    /// The beneficiaries among which the royalty total is divided.
    pub creators: Vec<CreatorShare>,
}

/// The link an asset's registry record carries to its collection.
#[derive(Clone, Copy, Debug, PartialEq, Eq, Structural)]
pub struct CollectionLink {
    /// Identity of the collection the asset claims to belong to.
    pub key: u64,
    /// Whether the collection's own authority verified the membership.
    pub verified: bool,
}

/// What the core reads from one provenance record of the asset registry.
/// The registry itself (how records are located and parsed) is a
/// collaborator outside this crate; the core only judges the plain values
/// found in a record.
#[derive(Clone, Debug, PartialEq, Eq)]
pub struct AssetMetadata {
    /// The collection link, if the record carries one.
    pub collection: Option<CollectionLink>,
    /// Whether the record carries collection details, the marker that the
    /// record is itself a collection parent with a declared, fixed supply.
    pub has_collection_details: bool,
    /// The royalty schedule recorded for the asset.
    pub royalties: RoyaltySchedule,
}

/// Whether a record is a well-formed collection record: not itself nested in
/// another collection, and declaring a fixed, immutable supply.
pub open spec fn spec_collection_record_ok(record: AssetMetadata) -> bool {
    &&& record.collection is None
    &&& record.has_collection_details
}

/// Judges whether `record` can anchor a pool as its collection record.
pub fn collection_record_ok(record: &AssetMetadata) -> (ok: bool)
    ensures
        ok == spec_collection_record_ok(*record),
{
    record.collection.is_none() && record.has_collection_details
}

/// The verdict of the membership check on plain record values: `asset` is a
/// verified member of the collection `collection_id`, whose own record is
/// `collection`. Checks run in a fixed order, and the first failure decides
/// the error.
pub open spec fn spec_verify_membership(
    asset: AssetMetadata,
    collection_id: u64,
    collection: AssetMetadata,
) -> Result<(), ProvenanceError> {
    if asset.has_collection_details {
        // A record that is itself a collection parent cannot be a member.
        Err(ProvenanceError::NotVerified)
    } else {
        match asset.collection {
            None => Err(ProvenanceError::MetadataAbsent),
            Some(link) => {
                if link.key != collection_id {
                    Err(ProvenanceError::WrongCollection)
                } else if !link.verified {
                    Err(ProvenanceError::NotVerified)
                } else if collection.collection is Some {
                    // A collection nested in another collection is rejected.
                    Err(ProvenanceError::WrongCollection)
                } else if !collection.has_collection_details {
                    // The collection record must declare a fixed supply.
                    Err(ProvenanceError::NotVerified)
                } else {
                    Ok(())
                }
            },
        }
    }
}

/// Shorthand for a membership check that succeeds.
pub open spec fn spec_member_verified(
    asset: AssetMetadata,
    collection_id: u64,
    collection: AssetMetadata,
) -> bool {
    spec_verify_membership(asset, collection_id, collection) is Ok
}

/// Checks that `asset` is a verified member of collection `collection_id`:
/// the asset record links to that collection with a verified link and is not
/// itself a collection parent, and the collection record is a well-formed,
/// fixed-supply collection not nested in another one. On success the
/// asset's royalty schedule, `asset.royalties`, is the schedule to honor.
pub fn verify_membership(
    asset: &AssetMetadata,
    collection_id: u64,
    collection: &AssetMetadata,
) -> (verdict: Result<(), ProvenanceError>)
    ensures
        verdict == spec_verify_membership(*asset, collection_id, *collection),
{
    if asset.has_collection_details {
        Err(ProvenanceError::NotVerified)
    } else {
        match asset.collection {
            None => Err(ProvenanceError::MetadataAbsent),
            Some(link) => {
                if link.key != collection_id {
                    Err(ProvenanceError::WrongCollection)
                } else if !link.verified {
                    Err(ProvenanceError::NotVerified)
                } else if collection.collection.is_some() {
                    Err(ProvenanceError::WrongCollection)
                } else if !collection.has_collection_details {
                    Err(ProvenanceError::NotVerified)
                } else {
                    Ok(())
                }
            },
        }
    }
}

} // verus!
