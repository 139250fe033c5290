//! The keys under which the shielded pool keeps its state.

use crate::text::{decimal, decimal_string};
use vstd::prelude::*;
use vstd::string::StringExecFns;

verus! {

/// The key of the supply of the asset whose identifier reads `asset_id`.
pub fn token_supply(asset_id: &str) -> (key: String)
    ensures
        key@ == "shielded_pool/assets/"@ + asset_id@ + "/token_supply"@,
{
    let mut key = String::from_str("shielded_pool/assets/");
    key.append(asset_id);
    key.append("/token_supply");
    key
}

/// The key of the registry of known assets.
pub fn known_assets() -> (key: &'static str)
    ensures
        key@ == "shielded_pool/known_assets"@,
{
    "shielded_pool/known_assets"
}

/// The key of the denomination of the asset whose identifier reads
/// `asset_id`.
pub fn denom_by_asset(asset_id: &str) -> (key: String)
    ensures
        key@ == "shielded_pool/assets/"@ + asset_id@ + "/denom"@,
{
    let mut key = String::from_str("shielded_pool/assets/");
    key.append(asset_id);
    key.append("/denom");
    key
}

/// The key of the source of the note whose commitment reads
/// `note_commitment`.
pub fn note_source(note_commitment: &str) -> (key: String)
    ensures
        key@ == "shielded_pool/note_source/"@ + note_commitment@,
{
    let mut key = String::from_str("shielded_pool/note_source/");
    key.append(note_commitment);
    key
}

/// The key of the compact block at `height`.
pub fn compact_block(height: u64) -> (key: String)
    ensures
        key@ == "shielded_pool/compact_block/"@ + decimal(height as nat),
{
    let mut key = String::from_str("shielded_pool/compact_block/");
    let number = decimal_string(height as u128);
    key.append(number.as_str());
    key
}

/// The key of the anchor of the epoch with the given index.
pub fn epoch_anchor_by_index(index: u64) -> (key: String)
    ensures
        key@ == "shielded_pool/epoch_anchor/"@ + decimal(index as nat),
{
    let mut key = String::from_str("shielded_pool/epoch_anchor/");
    let number = decimal_string(index as u128);
    key.append(number.as_str());
    key
}

/// The key under which the spending of the nullifier that reads
/// `nullifier` is looked up.
pub fn spent_nullifier_lookup(nullifier: &str) -> (key: String)
    ensures
        key@ == "shielded_pool/spent_nullifiers/"@ + nullifier@,
{
    let mut key = String::from_str("shielded_pool/spent_nullifiers/");
    key.append(nullifier);
    key
}

} // verus!
