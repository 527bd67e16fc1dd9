//! Deterministic derivation of per-vault identities.
//!
//! A vault never holds a private key. Every identity it controls — the vault
//! record itself, its derived signing authority, and its custody account —
//! is a pure function of the owner and asset-type identities, separated by
//! domain tags. Authorization is checked by recomputing the derivation and
//! comparing, never by key possession.

use vstd::prelude::*;

verus! {

/// Domain tag mixed into the identity of a vault record.
pub const VAULT_DOMAIN: u64 = 0x76a5_c3e1_5d10_0001;
/// Domain tag mixed into the identity of a vault's derived authority.
pub const AUTHORITY_DOMAIN: u64 = 0x76a5_c3e1_5d10_0002;
/// Domain tag mixed into the identity of a vault's custody account.
pub const CUSTODY_DOMAIN: u64 = 0x76a5_c3e1_5d10_0003;

/// The identity of the vault record owned by `owner` for `asset_type`.
pub open spec fn spec_vault_id(owner: u64, asset_type: u64) -> u64 {
    owner ^ ((asset_type << 16) | (asset_type >> 48)) ^ VAULT_DOMAIN
}

/// The identity of the derived authority for the vault `vault_id`: the one
/// signer the external ledger accepts for movements out of the vault's
/// custody account and for claim issuance.
pub open spec fn spec_authority_id(vault_id: u64) -> u64 {
    ((vault_id << 32) | (vault_id >> 32)) ^ AUTHORITY_DOMAIN
}

/// The identity of the custody account of the vault `vault_id`.
pub open spec fn spec_custody_id(vault_id: u64) -> u64 {
    ((vault_id << 8) | (vault_id >> 56)) ^ CUSTODY_DOMAIN
}

/// The bump byte recorded as proof material for a derived identity.
pub open spec fn spec_bump(id: u64) -> u8 {
    (id & 0xff) as u8
}

/// A derived signing identity scoped to one vault, with the bump byte that
/// lets the derivation be re-verified later.
#[derive(Clone, Copy, Debug, PartialEq, Eq, Structural)]
pub struct DerivedAuthority {
    pub identity: u64,
    pub bump: u8,
}

/// The derivation proof material stored in a vault record at creation and
/// re-supplied on every authorized call: one bump per derived identity.
#[derive(Clone, Copy, Debug, PartialEq, Eq, Structural)]
pub struct Bumps {
    pub vault: u8,
    pub vault_authority: u8,
    pub vault_token_account: u8,
}

/// The proof material that belongs to the vault of `(owner, asset_type)`.
pub open spec fn spec_bumps_for(owner: u64, asset_type: u64) -> Bumps {
    Bumps {
        vault: spec_bump(spec_vault_id(owner, asset_type)),
        vault_authority: spec_bump(spec_authority_id(spec_vault_id(owner, asset_type))),
        vault_token_account: spec_bump(spec_custody_id(spec_vault_id(owner, asset_type))),
    }
}

/// Computes the identity of the vault record for `(owner, asset_type)`.
pub fn vault_id_of(owner: u64, asset_type: u64) -> (id: u64)
    ensures
        id == spec_vault_id(owner, asset_type),
{
    owner ^ ((asset_type << 16) | (asset_type >> 48)) ^ VAULT_DOMAIN
}

/// Derives the signing authority of the vault `vault_id`.
pub fn derive_authority(vault_id: u64) -> (a: DerivedAuthority)
    ensures
        a.identity == spec_authority_id(vault_id),
        a.bump == spec_bump(spec_authority_id(vault_id)),
{
    let identity: u64 = ((vault_id << 32) | (vault_id >> 32)) ^ AUTHORITY_DOMAIN;
    DerivedAuthority { identity, bump: (identity & 0xff) as u8 }
}

/// Computes the identity of the custody account of the vault `vault_id`.
pub fn custody_id_of(vault_id: u64) -> (id: u64)
    ensures
        id == spec_custody_id(vault_id),
{
    ((vault_id << 8) | (vault_id >> 56)) ^ CUSTODY_DOMAIN
}

/// The verification predicate of the derivation: does `identity` name the
/// derived authority of the vault `vault_id`?
pub fn verify_authority(vault_id: u64, identity: u64) -> (ok: bool)
    ensures
        ok == (identity == spec_authority_id(vault_id)),
{
    let derived = derive_authority(vault_id);
    identity == derived.identity
}

/// Computes the proof material for the vault of `(owner, asset_type)`.
pub fn bumps_for(owner: u64, asset_type: u64) -> (b: Bumps)
    ensures
        b == spec_bumps_for(owner, asset_type),
{
    let vault_id: u64 = vault_id_of(owner, asset_type);
    let authority = derive_authority(vault_id);
    let custody: u64 = custody_id_of(vault_id);
    Bumps {
        vault: (vault_id & 0xff) as u8,
        vault_authority: authority.bump,
        vault_token_account: (custody & 0xff) as u8,
    }
}

} // verus!
