//! The derivation function: a deterministic map from a namespace label and an
//! owner identity to a derived address and the disambiguator (bump seed) that
//! was used to reach it. Derived addresses lie outside the space of addresses
//! that any private key can control, which is what lets the custody account be
//! owned by program logic alone.

use vstd::prelude::*;

verus! {

/// The namespace label under which the vault record's address is derived.
pub open spec fn vault_ns() -> Seq<u8> {
    seq![118u8, 97u8, 117u8, 108u8, 116u8]
}

/// The namespace label under which the custody account's address is derived.
pub open spec fn custody_ns() -> Seq<u8> {
    seq![112u8, 100u8, 97u8]
}

/// The bytes of the vault-record namespace label, "vault".
pub fn vault_namespace() -> (r: Vec<u8>)
    ensures
        r@ == vault_ns(),
{
    let mut v: Vec<u8> = Vec::new();
    v.push(118);
    v.push(97);
    v.push(117);
    v.push(108);
    v.push(116);
    proof {
        assert(v@ =~= vault_ns());
    }
    v
}

/// The bytes of the custody-account namespace label, "pda".
pub fn custody_namespace() -> (r: Vec<u8>)
    ensures
        r@ == custody_ns(),
{
    let mut v: Vec<u8> = Vec::new();
    v.push(112);
    v.push(100);
    v.push(97);
    proof {
        assert(v@ =~= custody_ns());
    }
    v
}

/// What `Pubkey::try_find_program_address` returns for the seed pair
/// `[namespace, owner]` under `program_id`: the derived address and the
/// disambiguator (bump seed) that produced it, or `None` when no
/// disambiguator yields a valid derived address. The result is a hash of the
/// arguments alone, so it carries a name rather than a definition.
pub uninterp spec fn derived_address(namespace: Seq<u8>, owner: Seq<u8>, program_id: Seq<u8>) -> Option<
    (Seq<u8>, u8),
>;

/// What `Pubkey::create_program_address` returns for the seeds
/// `[namespace, owner, [bump]]` under `program_id`: the derived address, or
/// `None` when that seed combination falls on the ed25519 curve and is
/// therefore rejected.
pub uninterp spec fn derived_address_with_bump(
    namespace: Seq<u8>,
    owner: Seq<u8>,
    bump: u8,
    program_id: Seq<u8>,
) -> Option<Seq<u8>>;

/// Relies on `Pubkey::try_find_program_address` (anchor_lang's re-exported
/// `solana_pubkey`): deterministic in the seeds and program id alone; it
/// searches bump seeds downward from 255 and returns the first address that
/// `create_program_address` accepts, together with that bump, so the returned
/// pair also satisfies the with-bump derivation; addresses are 32 bytes.
#[verifier::external_body]
fn find_derived_address(namespace: &Vec<u8>, owner: &Vec<u8>, program_id: &Vec<u8>) -> (r: Option<
    (Vec<u8>, u8),
>)
    requires
        namespace@.len() <= 32,
        owner@.len() == 32,
        program_id@.len() == 32,
    ensures
        (match (r, derived_address(namespace@, owner@, program_id@)) {
            (Some((a, b)), Some((sa, sb))) => a@ == sa && b == sb && sa.len() == 32
                && derived_address_with_bump(namespace@, owner@, b, program_id@) == Some(sa),
            (None, None) => true,
            _ => false,
        }),
{
    let mut owner_arr = [0u8; 32];
    owner_arr.copy_from_slice(&owner[..]);
    let mut pid_arr = [0u8; 32];
    pid_arr.copy_from_slice(&program_id[..]);
    let pid = anchor_lang::prelude::Pubkey::new_from_array(pid_arr);
    let found = anchor_lang::prelude::Pubkey::try_find_program_address(
        &[&namespace[..], &owner_arr[..]],
        &pid,
    );
    found.map(|(address, bump)| (address.to_bytes().to_vec(), bump))
}

/// Relies on `Pubkey::create_program_address` (anchor_lang's re-exported
/// `solana_pubkey`): deterministic in the seeds and program id alone; for
/// seeds no longer than 32 bytes it returns the hash-derived address exactly
/// when that address is off the ed25519 curve, and an error otherwise;
/// addresses are 32 bytes.
#[verifier::external_body]
fn create_derived_address(
    namespace: &Vec<u8>,
    owner: &Vec<u8>,
    bump: u8,
    program_id: &Vec<u8>,
) -> (r: Option<Vec<u8>>)
    requires
        namespace@.len() <= 32,
        owner@.len() == 32,
        program_id@.len() == 32,
    ensures
        (match (r, derived_address_with_bump(namespace@, owner@, bump, program_id@)) {
            (Some(a), Some(sa)) => a@ == sa && sa.len() == 32,
            (None, None) => true,
            _ => false,
        }),
{
    let mut owner_arr = [0u8; 32];
    owner_arr.copy_from_slice(&owner[..]);
    let mut pid_arr = [0u8; 32];
    pid_arr.copy_from_slice(&program_id[..]);
    let pid = anchor_lang::prelude::Pubkey::new_from_array(pid_arr);
    let bump_seed = [bump];
    let created = anchor_lang::prelude::Pubkey::create_program_address(
        &[&namespace[..], &owner_arr[..], &bump_seed[..]],
        &pid,
    );
    created.ok().map(|address| address.to_bytes().to_vec())
}

/// The derivation function of the custody scheme: maps a namespace label and
/// an owner identity to the derived address and the disambiguator used, under
/// the controlling program's identity. Deterministic; `None` only when every
/// disambiguator collides with the key-holding address space, an
/// unrecoverable configuration fault.
pub fn derive_address(namespace: &Vec<u8>, owner: &Vec<u8>, program_id: &Vec<u8>) -> (r: Option<
    (Vec<u8>, u8),
>)
    requires
        namespace@.len() <= 32,
        owner@.len() == 32,
        program_id@.len() == 32,
    ensures
        (match (r, derived_address(namespace@, owner@, program_id@)) {
            (Some((a, b)), Some((sa, sb))) => a@ == sa && b == sb && a@.len() == 32
                && derived_address_with_bump(namespace@, owner@, b, program_id@) == Some(sa),
            (None, None) => true,
            _ => false,
        }),
{
    find_derived_address(namespace, owner, program_id)
}

/// Reconstructs the derived address from a namespace label, an owner identity
/// and a stored disambiguator: the proof-construction step of withdrawal. The
/// result is the address that the ledger would accept the controlling program
/// as a signer for.
pub fn reconstruct(namespace: &Vec<u8>, owner: &Vec<u8>, bump: u8, program_id: &Vec<u8>) -> (r:
    Option<Vec<u8>>)
    requires
        namespace@.len() <= 32,
        owner@.len() == 32,
        program_id@.len() == 32,
    ensures
        (match (r, derived_address_with_bump(namespace@, owner@, bump, program_id@)) {
            (Some(a), Some(sa)) => a@ == sa && a@.len() == 32,
            (None, None) => true,
            _ => false,
        }),
{
    create_derived_address(namespace, owner, bump, program_id)
}

} // verus!
