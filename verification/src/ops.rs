//! The three custody operations: open a vault, deposit, withdraw. Each one
//! re-derives the expected addresses from the owner identity named by the
//! caller and refuses to touch any state when a supplied address does not
//! match; every failure leaves the ledger exactly as it was.

use vstd::prelude::*;
use crate::bytes::bytes_eq;
use crate::derivation::custody_namespace;
use crate::derivation::custody_ns;
use crate::derivation::derive_address;
use crate::derivation::derived_address;
use crate::derivation::derived_address_with_bump;
use crate::derivation::reconstruct;
use crate::derivation::vault_namespace;
use crate::derivation::vault_ns;
use crate::state::Ledger;

verus! {

/// Why a custody operation refused to run. Every failure aborts the whole
/// operation: the ledger is left untouched.
#[derive(PartialEq, Eq, Structural, Debug)]
pub enum ErrorCode {
    /// The vault record for this owner already exists; opening is a
    /// create-once initializer.
    AlreadyExists,
    /// A caller-supplied address does not match the deterministic
    /// re-derivation from the owner identity.
    AddressMismatch,
    /// No vault record exists for this owner yet.
    NotInitialized,
    /// The authorizing identity is not the owner the vault record names.
    Unauthorized,
    /// The funder's own balance cannot cover the deposit.
    InsufficientCallerBalance,
    /// The custody balance cannot cover the withdrawal.
    InsufficientFunds,
    /// The receiving balance cannot represent the transferred amount.
    Overflow,
    /// No disambiguator yields a valid derived address: an unrecoverable
    /// configuration fault.
    DerivationFailure,
}

/// The accounts a caller supplies to open a vault: the paying owner identity
/// and the two addresses the caller claims were derived from it.
pub struct Initialize {
    pub payer: Vec<u8>,
    pub vault: Vec<u8>,
    pub vault_wallet: Vec<u8>,
}

/// The accounts a caller supplies to deposit: the funding identity and the
/// two addresses the caller claims were derived from it.
pub struct AddFunds {
    pub signer: Vec<u8>,
    pub vault: Vec<u8>,
    pub vault_wallet: Vec<u8>,
}

/// The accounts a caller supplies to withdraw: the authorizing identity and
/// the two addresses the caller claims were derived from it.
pub struct WithdrawFunds {
    pub signer: Vec<u8>,
    pub vault: Vec<u8>,
    pub vault_wallet: Vec<u8>,
}

/// What opening a vault returns, for every ledger and every input.
pub open spec fn init_outcome(
    l: Ledger,
    pid: Seq<u8>,
    payer: Seq<u8>,
    vault: Seq<u8>,
    wallet: Seq<u8>,
) -> Result<(), ErrorCode> {
    match (derived_address(vault_ns(), payer, pid), derived_address(custody_ns(), payer, pid)) {
        (Some(dv), Some(dc)) => if vault != dv.0 || wallet != dc.0 {
            Err(ErrorCode::AddressMismatch)
        } else if l.has_record(vault) {
            Err(ErrorCode::AlreadyExists)
        } else {
            Ok(())
        },
        _ => Err(ErrorCode::DerivationFailure),
    }
}

/// How a successful open changes the ledger: the vault record appears at the
/// derived vault address, bound to the payer and to the custody
/// disambiguator; nothing else moves, and no balance changes.
pub open spec fn init_post(
    l0: Ledger,
    l1: Ledger,
    pid: Seq<u8>,
    payer: Seq<u8>,
    vault: Seq<u8>,
    wallet: Seq<u8>,
) -> bool {
    &&& l1.wf()
    &&& l1.has_record(vault)
    &&& l1.record_owner(vault) == payer
    &&& derived_address(custody_ns(), payer, pid) matches Some(dc) && l1.record_bump(vault)
        == dc.1
    &&& derived_address_with_bump(custody_ns(), payer, l1.record_bump(vault), pid) == Some(wallet)
    &&& forall|a: Seq<u8>| a != vault ==> l1.has_record(a) == l0.has_record(a)
    &&& forall|a: Seq<u8>|
        a != vault && l0.has_record(a) ==> l1.record_owner(a) == l0.record_owner(a)
            && l1.record_bump(a) == l0.record_bump(a)
    &&& forall|a: Seq<u8>| l1.balance_of(a) == l0.balance_of(a)
}

/// Opens the vault for the paying owner identity: re-derives the vault and
/// custody addresses from the identity, refuses mismatched addresses, and
/// creates the vault record exactly once.
pub fn initialize(ledger: &mut Ledger, program_id: &Vec<u8>, ctx: &Initialize) -> (r: Result<
    (),
    ErrorCode,
>)
    requires
        old(ledger).wf(),
        ctx.payer@.len() == 32,
        program_id@.len() == 32,
    ensures
        final(ledger).wf(),
        r == init_outcome(*old(ledger), program_id@, ctx.payer@, ctx.vault@, ctx.vault_wallet@),
        r is Err ==> *final(ledger) == *old(ledger),
        r is Ok ==> init_post(
            *old(ledger),
            *final(ledger),
            program_id@,
            ctx.payer@,
            ctx.vault@,
            ctx.vault_wallet@,
        ),
{
    let ns_vault = vault_namespace();
    let ns_custody = custody_namespace();
    let dv = derive_address(&ns_vault, &ctx.payer, program_id);
    let dc = derive_address(&ns_custody, &ctx.payer, program_id);
    match (dv, dc) {
        (Some((va, _vb)), Some((ca, cb))) => {
            if !bytes_eq(&ctx.vault, &va) || !bytes_eq(&ctx.vault_wallet, &ca) {
                return Err(ErrorCode::AddressMismatch);
            }
            if ledger.record_exists(&ctx.vault) {
                return Err(ErrorCode::AlreadyExists);
            }
            ledger.add_record(&ctx.vault, cb, &ctx.payer);
            Ok(())
        },
        _ => Err(ErrorCode::DerivationFailure),
    }
}

/// What a deposit returns, for every ledger and every input.
pub open spec fn add_outcome(
    l: Ledger,
    pid: Seq<u8>,
    signer: Seq<u8>,
    vault: Seq<u8>,
    wallet: Seq<u8>,
    amount: u64,
) -> Result<(), ErrorCode> {
    match (derived_address(vault_ns(), signer, pid), derived_address(custody_ns(), signer, pid)) {
        (Some(dv), Some(dc)) => if vault != dv.0 || wallet != dc.0 {
            Err(ErrorCode::AddressMismatch)
        } else if !l.has_record(vault) {
            Err(ErrorCode::NotInitialized)
        } else if l.balance_of(signer) < amount {
            Err(ErrorCode::InsufficientCallerBalance)
        } else if signer != wallet && l.balance_of(wallet) + amount > u64::MAX {
            Err(ErrorCode::Overflow)
        } else {
            Ok(())
        },
        _ => Err(ErrorCode::DerivationFailure),
    }
}

/// How a successful deposit changes the ledger: exactly `amount` moves from
/// the funder to the custody account, atomically; records are untouched.
pub open spec fn add_post(
    l0: Ledger,
    l1: Ledger,
    signer: Seq<u8>,
    wallet: Seq<u8>,
    amount: u64,
) -> bool {
    &&& l1.wf()
    &&& l1.records == l0.records
    &&& signer != wallet ==> l1.balance_of(wallet) == l0.balance_of(wallet) + amount
        && l1.balance_of(signer) == l0.balance_of(signer) - amount
    &&& signer == wallet ==> forall|a: Seq<u8>| l1.balance_of(a) == l0.balance_of(a)
    &&& forall|a: Seq<u8>|
        a != signer && a != wallet ==> l1.balance_of(a) == l0.balance_of(a)
}

/// Deposits `amount` from the funding identity into the custody account
/// derived from it: the full amount moves or nothing does.
pub fn add_funds(ledger: &mut Ledger, program_id: &Vec<u8>, ctx: &AddFunds, amount: u64) -> (r:
    Result<(), ErrorCode>)
    requires
        old(ledger).wf(),
        ctx.signer@.len() == 32,
        program_id@.len() == 32,
    ensures
        final(ledger).wf(),
        r == add_outcome(
            *old(ledger),
            program_id@,
            ctx.signer@,
            ctx.vault@,
            ctx.vault_wallet@,
            amount,
        ),
        r is Err ==> *final(ledger) == *old(ledger),
        r is Ok ==> add_post(
            *old(ledger),
            *final(ledger),
            ctx.signer@,
            ctx.vault_wallet@,
            amount,
        ),
{
    let ns_vault = vault_namespace();
    let ns_custody = custody_namespace();
    let dv = derive_address(&ns_vault, &ctx.signer, program_id);
    let dc = derive_address(&ns_custody, &ctx.signer, program_id);
    match (dv, dc) {
        (Some((va, _vb)), Some((ca, _cb))) => {
            if !bytes_eq(&ctx.vault, &va) || !bytes_eq(&ctx.vault_wallet, &ca) {
                return Err(ErrorCode::AddressMismatch);
            }
            if !ledger.record_exists(&ctx.vault) {
                return Err(ErrorCode::NotInitialized);
            }
            let funder_balance = ledger.get_balance(&ctx.signer);
            if funder_balance < amount {
                return Err(ErrorCode::InsufficientCallerBalance);
            }
            if !bytes_eq(&ctx.signer, &ctx.vault_wallet) {
                let custody_balance = ledger.get_balance(&ctx.vault_wallet);
                if custody_balance > u64::MAX - amount {
                    return Err(ErrorCode::Overflow);
                }
            }
            ledger.transfer_exact(&ctx.signer, &ctx.vault_wallet, amount);
            Ok(())
        },
        _ => Err(ErrorCode::DerivationFailure),
    }
}

/// What a withdrawal returns, for every ledger and every input. What
/// distinguishes withdrawal from deposit: the custody address must re-derive
/// from the authorizing identity, the vault record must name that identity as
/// owner, and the persisted disambiguator must reconstruct the custody
/// address exactly, or nothing moves.
pub open spec fn withdraw_outcome(
    l: Ledger,
    pid: Seq<u8>,
    signer: Seq<u8>,
    vault: Seq<u8>,
    wallet: Seq<u8>,
    amount: u64,
) -> Result<(), ErrorCode> {
    match (derived_address(vault_ns(), signer, pid), derived_address(custody_ns(), signer, pid)) {
        (Some(dv), Some(dc)) => if vault != dv.0 || wallet != dc.0 {
            Err(ErrorCode::AddressMismatch)
        } else if !l.has_record(vault) {
            Err(ErrorCode::NotInitialized)
        } else if l.record_owner(vault) != signer {
            Err(ErrorCode::Unauthorized)
        } else if derived_address_with_bump(custody_ns(), signer, l.record_bump(vault), pid)
            != Some(wallet) {
            Err(ErrorCode::AddressMismatch)
        } else if l.balance_of(wallet) < amount {
            Err(ErrorCode::InsufficientFunds)
        } else if signer != wallet && l.balance_of(signer) + amount > u64::MAX {
            Err(ErrorCode::Overflow)
        } else {
            Ok(())
        },
        _ => Err(ErrorCode::DerivationFailure),
    }
}

/// How a successful withdrawal changes the ledger: exactly `amount` moves
/// from the custody account back to the owner, atomically; records are
/// untouched.
pub open spec fn withdraw_post(
    l0: Ledger,
    l1: Ledger,
    signer: Seq<u8>,
    wallet: Seq<u8>,
    amount: u64,
) -> bool {
    &&& l1.wf()
    &&& l1.records == l0.records
    &&& signer != wallet ==> l1.balance_of(wallet) == l0.balance_of(wallet) - amount
        && l1.balance_of(signer) == l0.balance_of(signer) + amount
    &&& signer == wallet ==> forall|a: Seq<u8>| l1.balance_of(a) == l0.balance_of(a)
    &&& forall|a: Seq<u8>|
        a != signer && a != wallet ==> l1.balance_of(a) == l0.balance_of(a)
}

/// Withdraws `amount` from the custody account to its owner. Only the owner
/// identity on record can authorize this, and only by presenting addresses
/// that re-derive exactly; a zero amount is a permitted no-op transfer.
pub fn withdraw_funds(
    ledger: &mut Ledger,
    program_id: &Vec<u8>,
    ctx: &WithdrawFunds,
    amount: u64,
) -> (r: Result<(), ErrorCode>)
    requires
        old(ledger).wf(),
        ctx.signer@.len() == 32,
        program_id@.len() == 32,
    ensures
        final(ledger).wf(),
        r == withdraw_outcome(
            *old(ledger),
            program_id@,
            ctx.signer@,
            ctx.vault@,
            ctx.vault_wallet@,
            amount,
        ),
        r is Err ==> *final(ledger) == *old(ledger),
        r is Ok ==> withdraw_post(
            *old(ledger),
            *final(ledger),
            ctx.signer@,
            ctx.vault_wallet@,
            amount,
        ),
{
    let ns_vault = vault_namespace();
    let ns_custody = custody_namespace();
    let dv = derive_address(&ns_vault, &ctx.signer, program_id);
    let dc = derive_address(&ns_custody, &ctx.signer, program_id);
    match (dv, dc) {
        (Some((va, _vb)), Some((ca, _cb))) => {
            if !bytes_eq(&ctx.vault, &va) || !bytes_eq(&ctx.vault_wallet, &ca) {
                return Err(ErrorCode::AddressMismatch);
            }
            let record = ledger.get_record(&ctx.vault);
            match record {
                Some((bump, owner)) => {
                    if !bytes_eq(&owner, &ctx.signer) {
                        return Err(ErrorCode::Unauthorized);
                    }
                    let rebuilt = reconstruct(&ns_custody, &ctx.signer, bump, program_id);
                    let proof_ok = match &rebuilt {
                        Some(address) => bytes_eq(address, &ctx.vault_wallet),
                        None => false,
                    };
                    if !proof_ok {
                        return Err(ErrorCode::AddressMismatch);
                    }
                    let custody_balance = ledger.get_balance(&ctx.vault_wallet);
                    if custody_balance < amount {
                        return Err(ErrorCode::InsufficientFunds);
                    }
                    if !bytes_eq(&ctx.signer, &ctx.vault_wallet) {
                        let owner_balance = ledger.get_balance(&ctx.signer);
                        if owner_balance > u64::MAX - amount {
                            return Err(ErrorCode::Overflow);
                        }
                    }
                    ledger.transfer_exact(&ctx.vault_wallet, &ctx.signer, amount);
                    Ok(())
                },
                None => Err(ErrorCode::NotInitialized),
            }
        },
        _ => Err(ErrorCode::DerivationFailure),
    }
}

} // verus!
