//! Deterministic derivation of wallet-record addresses.
//!
//! The address of a wallet record is a pure function of a namespace seed,
//! the owner's public key, a derivation nonce and the program identity.
//! Derivation can fail for some nonces; a caller then retries with another
//! nonce. Validation recomputes the derivation and compares.

use vstd::prelude::*;

use crate::account::AccountId;

verus! {

/// The address that program-derived-address hashing assigns to the given
/// namespace, owner, nonce and program identity, or `None` where that
/// derivation is rejected. The result depends on the arguments alone.
pub uninterp spec fn derived_address(
    namespace: Seq<u8>,
    owner: Seq<u8>,
    nonce: u8,
    program_id: Seq<u8>,
) -> Option<Seq<u8>>;

/// Relies on `anchor_lang::prelude::Pubkey::create_program_address`: the
/// program-derived address for the seeds `[namespace, owner, [nonce]]`
/// under `program_id`, a deterministic hash of its arguments that fails
/// exactly when the hash lands on the ed25519 curve or a seed is too long.
#[verifier::external_body]
fn derive_address_call(
    namespace: &[u8],
    owner: &AccountId,
    nonce: u8,
    program_id: &AccountId,
) -> (r: Option<AccountId>)
    ensures
        match r {
            Some(a) => derived_address(namespace@, owner@, nonce, program_id@) == Some(a@),
            None => derived_address(namespace@, owner@, nonce, program_id@) is None,
        },
{
    let pid = anchor_lang::prelude::Pubkey::new_from_array(program_id.bytes);
    let nonce_seed: [u8; 1] = [nonce];
    let seeds: [&[u8]; 3] = [namespace, &owner.bytes, &nonce_seed];
    match anchor_lang::prelude::Pubkey::create_program_address(&seeds, &pid) {
        Ok(p) => Some(AccountId { bytes: p.to_bytes() }),
        Err(_) => None,
    }
}

/// Compute the deterministic address of the wallet record that `owner`
/// and `nonce` identify under `namespace` and `program_id`.
pub fn derive_address(
    namespace: &[u8],
    owner: &AccountId,
    nonce: u8,
    program_id: &AccountId,
) -> (r: Option<AccountId>)
    ensures
        match r {
            Some(a) => derived_address(namespace@, owner@, nonce, program_id@) == Some(a@),
            None => derived_address(namespace@, owner@, nonce, program_id@) is None,
        },
{
    derive_address_call(namespace, owner, nonce, program_id)
}

/// Whether `nonce` is the canonical derivation nonce for `owner` under
/// `namespace` and `program_id`: its derivation succeeds, and every
/// greater nonce's derivation fails. This is the nonce the host runtime
/// itself assigns, by trying nonces from the greatest downwards.
pub open spec fn nonce_canonical(
    namespace: Seq<u8>,
    owner: Seq<u8>,
    nonce: u8,
    program_id: Seq<u8>,
) -> bool {
    &&& derived_address(namespace, owner, nonce, program_id) is Some
    &&& forall|m: u8| m > nonce ==> derived_address(namespace, owner, m, program_id) is None
}

/// Compute the deterministic address for `owner` and `nonce`, accepting
/// only the canonical nonce: the one the host runtime would assign for
/// these seeds. Returns `None` for every other nonce.
pub fn derive_canonical(
    namespace: &[u8],
    owner: &AccountId,
    nonce: u8,
    program_id: &AccountId,
) -> (r: Option<AccountId>)
    ensures
        match r {
            Some(a) => nonce_canonical(namespace@, owner@, nonce, program_id@) && derived_address(
                namespace@,
                owner@,
                nonce,
                program_id@,
            ) == Some(a@),
            None => !nonce_canonical(namespace@, owner@, nonce, program_id@),
        },
{
    let mut m: u8 = 255;
    while m > nonce
        invariant
            m >= nonce,
            forall|j: u8| j > m ==> derived_address(namespace@, owner@, j, program_id@) is None,
        decreases m - nonce,
    {
        if derive_address(namespace, owner, m, program_id).is_some() {
            return None;
        }
        m -= 1;
    }
    derive_address(namespace, owner, nonce, program_id)
}

/// Recompute the derivation and compare: holds exactly when `address` is
/// the canonical address for `owner` and `nonce`.
pub fn validate(
    address: &AccountId,
    namespace: &[u8],
    owner: &AccountId,
    nonce: u8,
    program_id: &AccountId,
) -> (r: bool)
    ensures
        r == (derived_address(namespace@, owner@, nonce, program_id@) == Some(address@)),
{
    match derive_address(namespace, owner, nonce, program_id) {
        Some(a) => a.eq_bytes(address),
        None => false,
    }
}

} // verus!
