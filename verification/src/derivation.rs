//! Derivation of the program-controlled custody addresses.
//!
//! The custody account — and the vault sub-account that holds the actual
//! token balance — are addressed deterministically from a constant tag
//! and stable seed material, so the signing authority over them can be
//! regenerated at withdrawal time from the stored bump; no human-held
//! private key ever backs it. The custody account is derived from
//! `(custody tag, depositor identity)` and the vault from
//! `(vault tag, custody account address)`.

use vstd::prelude::*;

use crate::record::Identity;

verus! {

/// What the collaborator's derivation returns for the given tag, seed
/// and program id: the derived address and its bump, or nothing when no
/// bump yields a valid address. The result is a function of the three
/// arguments alone, identical in every process and on every machine.
pub uninterp spec fn derived_address(tag: Seq<u8>, seed: Seq<u8>, program_id: Seq<u8>) -> Option<
    (Seq<u8>, u8),
>;

/// The model of a derivation outcome.
pub open spec fn derived_view(r: Option<([u8; 32], u8)>) -> Option<(Seq<u8>, u8)> {
    match r {
        Some(p) => Some((p.0@, p.1)),
        None => None,
    }
}

/// Relies on `Pubkey::try_find_program_address` (reached through
/// `anchor_lang`): the returned address and bump are a deterministic,
/// collision-resistant function of the seeds and the program id alone;
/// it returns `None`, and never panics, when no bump yields a valid
/// address or a seed is over the collaborator's length limit.
#[verifier::external_body]
fn try_derive(tag: &[u8], seed: &[u8; 32], program_id: &[u8; 32]) -> (r: Option<([u8; 32], u8)>)
    ensures
        derived_view(r) == derived_address(tag@, seed@, program_id@),
{
    let program = anchor_lang::solana_program::pubkey::Pubkey::new_from_array(*program_id);
    anchor_lang::solana_program::pubkey::Pubkey::try_find_program_address(&[tag, seed], &program)
        .map(|found| (found.0.to_bytes(), found.1))
}

/// The constant tag the custody account is derived under.
pub open spec fn spec_custody_tag() -> Seq<u8> {
    seq![0x65u8, 0x73, 0x63, 0x72, 0x6f, 0x77]
}

/// The constant tag the token-holding vault sub-account is derived under.
pub open spec fn spec_vault_tag() -> Seq<u8> {
    seq![0x76u8, 0x61, 0x75, 0x6c, 0x74]
}

fn custody_tag() -> (t: Vec<u8>)
    ensures
        t@ == spec_custody_tag(),
{
    let mut t: Vec<u8> = Vec::new();
    t.push(0x65);
    t.push(0x73);
    t.push(0x63);
    t.push(0x72);
    t.push(0x6f);
    t.push(0x77);
    proof {
        assert(t@ =~= spec_custody_tag());
    }
    t
}

fn vault_tag() -> (t: Vec<u8>)
    ensures
        t@ == spec_vault_tag(),
{
    let mut t: Vec<u8> = Vec::new();
    t.push(0x76);
    t.push(0x61);
    t.push(0x75);
    t.push(0x6c);
    t.push(0x74);
    proof {
        assert(t@ =~= spec_vault_tag());
    }
    t
}

/// Derives the custody account's address and signing bump from the
/// depositor identity, reproducibly: the same depositor and program id
/// always yield the same address, so the authority can be regenerated at
/// withdrawal time without storing any key.
pub fn derive_custody_address(depositor: &Identity, program_id: &Identity) -> (r: Option<
    ([u8; 32], u8),
>)
    ensures
        derived_view(r) == derived_address(spec_custody_tag(), depositor@, program_id@),
{
    let tag = custody_tag();
    try_derive(tag.as_slice(), depositor, program_id)
}

/// Derives the vault sub-account's address and bump from the custody
/// account's address, reproducibly.
pub fn derive_vault_address(custody: &Identity, program_id: &Identity) -> (r: Option<
    ([u8; 32], u8),
>)
    ensures
        derived_view(r) == derived_address(spec_vault_tag(), custody@, program_id@),
{
    let tag = vault_tag();
    try_derive(tag.as_slice(), custody, program_id)
}

} // verus!
