//! The guarantees that relate several operations, proved once and for all
//! over the outcome and post-state predicates that the operations' own
//! contracts establish.

use vstd::prelude::*;
use crate::derivation::custody_ns;
use crate::derivation::derived_address;
use crate::derivation::derived_address_with_bump;
use crate::derivation::vault_ns;
use crate::ops::add_outcome;
use crate::ops::add_post;
use crate::ops::init_outcome;
use crate::ops::init_post;
use crate::ops::withdraw_outcome;
use crate::ops::withdraw_post;
use crate::ops::ErrorCode;
use crate::state::Ledger;

verus! {

/// Opening a vault is a create-once initializer: after one successful open
/// for an owner, a second open with the same inputs fails with
/// `AlreadyExists`. Since every failing operation leaves the ledger exactly
/// as it was, the first open's vault record and custody account survive the
/// second attempt unchanged.
pub proof fn lemma_reopen_fails(
    l0: Ledger,
    l1: Ledger,
    pid: Seq<u8>,
    payer: Seq<u8>,
    vault: Seq<u8>,
    wallet: Seq<u8>,
)
    requires
        l0.wf(),
        init_outcome(l0, pid, payer, vault, wallet) == Ok::<(), ErrorCode>(()),
        init_post(l0, l1, pid, payer, vault, wallet),
    ensures
        init_outcome(l1, pid, payer, vault, wallet) == Err::<(), ErrorCode>(
            ErrorCode::AlreadyExists,
        ),
{
}

/// Withdrawal depends on ownership: it can only succeed when a vault record
/// exists at the supplied vault address, that record names the authorizing
/// identity as owner, and both supplied addresses re-derive exactly from
/// that identity. Any caller whose identity differs from the owner on
/// record fails, and by the operation's contract the failure leaves every
/// balance unchanged.
pub proof fn lemma_withdraw_requires_owner(
    l: Ledger,
    pid: Seq<u8>,
    signer: Seq<u8>,
    vault: Seq<u8>,
    wallet: Seq<u8>,
    amount: u64,
)
    requires
        l.wf(),
        withdraw_outcome(l, pid, signer, vault, wallet, amount) == Ok::<(), ErrorCode>(()),
    ensures
        l.has_record(vault),
        l.record_owner(vault) == signer,
        derived_address(vault_ns(), signer, pid) matches Some(dv) && dv.0 == vault,
        derived_address(custody_ns(), signer, pid) matches Some(dc) && dc.0 == wallet,
{
}

/// A withdrawal that passes every authorization check but asks for more than
/// the custody account holds fails with `InsufficientFunds`; by the
/// operation's contract the failure leaves every balance unchanged.
pub proof fn lemma_withdraw_insufficient(
    l: Ledger,
    pid: Seq<u8>,
    signer: Seq<u8>,
    vault: Seq<u8>,
    wallet: Seq<u8>,
    amount: u64,
)
    requires
        l.wf(),
        derived_address(vault_ns(), signer, pid) matches Some(dv) && dv.0 == vault,
        derived_address(custody_ns(), signer, pid) matches Some(dc) && dc.0 == wallet,
        l.has_record(vault),
        l.record_owner(vault) == signer,
        derived_address_with_bump(custody_ns(), signer, l.record_bump(vault), pid) == Some(
            wallet,
        ),
        l.balance_of(wallet) < amount,
    ensures
        withdraw_outcome(l, pid, signer, vault, wallet, amount) == Err::<(), ErrorCode>(
            ErrorCode::InsufficientFunds,
        ),
{
}

/// Success is owed to the owner: after opening a vault and depositing
/// `amount` into it, a withdrawal of that same `amount`, authorized by the
/// same identity and presenting the same derived addresses, cannot fail —
/// the record exists and names the owner, the persisted disambiguator
/// reconstructs the custody address, the custody balance covers the amount,
/// and the owner's balance cannot overflow past where it started.
pub proof fn lemma_owner_can_withdraw(
    l0: Ledger,
    l1: Ledger,
    l2: Ledger,
    pid: Seq<u8>,
    owner: Seq<u8>,
    vault: Seq<u8>,
    wallet: Seq<u8>,
    amount: u64,
)
    requires
        l0.wf(),
        init_outcome(l0, pid, owner, vault, wallet) == Ok::<(), ErrorCode>(()),
        init_post(l0, l1, pid, owner, vault, wallet),
        add_outcome(l1, pid, owner, vault, wallet, amount) == Ok::<(), ErrorCode>(()),
        add_post(l1, l2, owner, wallet, amount),
    ensures
        withdraw_outcome(l2, pid, owner, vault, wallet, amount) == Ok::<(), ErrorCode>(()),
{
    let k = l1.record_index(vault);
    assert(0 <= k < l1.records@.len() && l1.records@[k].address@ == vault);
    assert(l2.records@ == l1.records@);
    l2.lemma_record_index_is(vault, k);
    assert(l2.record_owner(vault) == l1.record_owner(vault));
    assert(l2.record_bump(vault) == l1.record_bump(vault));
    l1.lemma_record_index_is(vault, k);
}

/// Round trip: a successful deposit of `amount` followed by a successful
/// withdrawal of the same `amount` by the same identity returns every
/// balance — the custody account's and everyone else's — exactly to where it
/// started. No fee leaks.
pub proof fn lemma_deposit_withdraw_round_trip(
    l0: Ledger,
    l1: Ledger,
    l2: Ledger,
    pid: Seq<u8>,
    signer: Seq<u8>,
    vault: Seq<u8>,
    wallet: Seq<u8>,
    amount: u64,
)
    requires
        l0.wf(),
        add_outcome(l0, pid, signer, vault, wallet, amount) == Ok::<(), ErrorCode>(()),
        add_post(l0, l1, signer, wallet, amount),
        withdraw_outcome(l1, pid, signer, vault, wallet, amount) == Ok::<(), ErrorCode>(()),
        withdraw_post(l1, l2, signer, wallet, amount),
    ensures
        forall|a: Seq<u8>| l2.balance_of(a) == l0.balance_of(a),
{
    if signer == wallet {
        assert(forall|a: Seq<u8>| l2.balance_of(a) == l0.balance_of(a));
    } else {
        assert(l2.balance_of(wallet) == l0.balance_of(wallet));
        assert(l2.balance_of(signer) == l0.balance_of(signer));
        assert(forall|a: Seq<u8>|
            a != signer && a != wallet ==> l2.balance_of(a) == l0.balance_of(a));
    }
}

} // verus!
