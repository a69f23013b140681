//! Deterministic address derivation.
//!
//! An escrow's address is a pure function of the program identity, the fixed
//! tag `"escrow"`, the maker's address and the caller-chosen seed. The
//! derivation scans bump values downward and keeps the first one whose result
//! is off the signature curve, so the address can never have a private key;
//! the bump is stored in the record and the settlement path re-validates the
//! derivation with it. The canonical token account of an (owner, mint) pair
//! is derived the same way under the associated-token-account program.
//!
//! The derivations themselves are cryptographic hashes computed by the
//! address primitives that pinocchio re-exports; this module gives their
//! results names and states only what the primitives' documentation promises.

use vstd::prelude::*;

use crate::ids::{ata_program_id, program_id, token_program_id};

verus! {

/// The address and canonical bump derived for `("escrow", maker, seed)` under
/// this program, or `None` in the statistically improbable case that every
/// bump value lands on the curve.
pub uninterp spec fn escrow_derivation(maker: Seq<u8>, seed: u64) -> Option<(Seq<u8>, u8)>;

/// The address derived for `("escrow", maker, seed, bump)` under this
/// program, or `None` when that derivation lands on the curve.
pub uninterp spec fn escrow_address_for(maker: Seq<u8>, seed: u64, bump: u8) -> Option<Seq<u8>>;

/// The canonical token account address for an (owner, mint) pair under the
/// associated-token-account program, or `None` in the statistically
/// improbable case that no bump value works.
pub uninterp spec fn ata_derivation(owner: Seq<u8>, mint: Seq<u8>) -> Option<Seq<u8>>;

/// Relies on `Address::try_find_program_address` (re-exported by pinocchio):
/// it scans bump values from the largest downward and returns the first
/// off-curve derivation, so the returned address re-validates through
/// `Address::create_program_address` with the returned bump appended.
#[verifier::external_body]
pub fn find_escrow_address(maker: &[u8; 32], seed: u64) -> (r: Option<([u8; 32], u8)>)
    ensures
        match r {
            Some(p) => escrow_derivation(maker@, seed) == Some((p.0@, p.1))
                && escrow_address_for(maker@, seed, p.1) == Some(p.0@),
            None => escrow_derivation(maker@, seed) is None,
        },
{
    let program_id = pinocchio::address::Address::new_from_array(program_id());
    let seed_bytes = seed.to_le_bytes();
    pinocchio::address::Address::try_find_program_address(
        &[b"escrow".as_ref(), maker.as_ref(), seed_bytes.as_ref()],
        &program_id,
    )
    .map(|p| (p.0.to_bytes(), p.1))
}

/// Relies on `Address::create_program_address` (re-exported by pinocchio):
/// it recomputes the derivation for a stored bump and fails exactly when the
/// result lies on the curve. None of the fixed-shape seeds here can exceed
/// the primitive's seed-length limits.
#[verifier::external_body]
pub fn create_escrow_address(maker: &[u8; 32], seed: u64, bump: u8) -> (r: Option<[u8; 32]>)
    ensures
        match r {
            Some(a) => escrow_address_for(maker@, seed, bump) == Some(a@),
            None => escrow_address_for(maker@, seed, bump) is None,
        },
{
    let program_id = pinocchio::address::Address::new_from_array(program_id());
    let seed_bytes = seed.to_le_bytes();
    let bump_bytes = [bump];
    pinocchio::address::Address::create_program_address(
        &[b"escrow".as_ref(), maker.as_ref(), seed_bytes.as_ref(), bump_bytes.as_ref()],
        &program_id,
    )
    .ok()
    .map(|a| a.to_bytes())
}

/// Relies on `Address::try_find_program_address` (re-exported by pinocchio)
/// with the associated-token seeds (owner, token program, mint) under the
/// associated-token-account program: the canonical token account address for
/// the pair.
#[verifier::external_body]
pub fn derive_associated_token_address(owner: &[u8; 32], mint: &[u8; 32]) -> (r: Option<
    [u8; 32],
>)
    ensures
        match r {
            Some(a) => ata_derivation(owner@, mint@) == Some(a@),
            None => ata_derivation(owner@, mint@) is None,
        },
{
    let program_id = pinocchio::address::Address::new_from_array(ata_program_id());
    let token_id = token_program_id();
    pinocchio::address::Address::try_find_program_address(
        &[owner.as_ref(), token_id.as_ref(), mint.as_ref()],
        &program_id,
    )
    .map(|p| p.0.to_bytes())
}

} // verus!
