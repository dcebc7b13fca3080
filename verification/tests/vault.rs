use simple_vault::derivation::custody_namespace;
use simple_vault::derivation::derive_address;
use simple_vault::derivation::vault_namespace;
use simple_vault::ops::add_funds;
use simple_vault::ops::initialize;
use simple_vault::ops::withdraw_funds;
use simple_vault::ops::AddFunds;
use simple_vault::ops::ErrorCode;
use simple_vault::ops::Initialize;
use simple_vault::ops::WithdrawFunds;
use simple_vault::state::Ledger;
use simple_vault::state::RecordSlot;
use simple_vault::state::Vault;

fn ident(tag: u8) -> Vec<u8> {
    vec![tag; 32]
}

fn program_id() -> Vec<u8> {
    vec![9; 32]
}

/// The two addresses a caller derives for an owner: (vault, vault_wallet).
fn addresses_for(owner: &Vec<u8>, pid: &Vec<u8>) -> (Vec<u8>, Vec<u8>) {
    let (vault, _) = derive_address(&vault_namespace(), owner, pid).expect("vault derivation");
    let (wallet, _) = derive_address(&custody_namespace(), owner, pid).expect("custody derivation");
    (vault, wallet)
}

fn open_vault(ledger: &mut Ledger, owner: &Vec<u8>, pid: &Vec<u8>) -> (Vec<u8>, Vec<u8>) {
    let (vault, wallet) = addresses_for(owner, pid);
    let ctx = Initialize {
        payer: owner.clone(),
        vault: vault.clone(),
        vault_wallet: wallet.clone(),
    };
    assert_eq!(initialize(ledger, pid, &ctx), Ok(()));
    (vault, wallet)
}

#[test]
fn derivation_is_deterministic_and_leaves_the_inputs() {
    let owner = ident(1);
    let pid = program_id();
    let a = derive_address(&vault_namespace(), &owner, &pid).expect("derivation");
    let b = derive_address(&vault_namespace(), &owner, &pid).expect("derivation");
    assert_eq!(a, b);
    assert_eq!(a.0.len(), 32);
    // The derived address is a new address, not an echo of any input.
    assert_ne!(a.0, owner);
    assert_ne!(a.0, pid);
    // Disjoint namespaces derive disjoint addresses.
    let c = derive_address(&custody_namespace(), &owner, &pid).expect("derivation");
    assert_ne!(a.0, c.0);
}

#[test]
fn reconstruction_from_the_stored_disambiguator_matches() {
    let owner = ident(1);
    let pid = program_id();
    let (address, bump) =
        derive_address(&custody_namespace(), &owner, &pid).expect("derivation");
    let rebuilt = simple_vault::derivation::reconstruct(&custody_namespace(), &owner, bump, &pid)
        .expect("reconstruction");
    assert_eq!(rebuilt, address);
}

#[test]
fn scenario_open_deposit_withdraw() {
    let alice = ident(1);
    let bob = ident(2);
    let pid = program_id();
    let mut ledger = Ledger::new();
    ledger.credit(&alice, 1000);

    let (vault, wallet) = open_vault(&mut ledger, &alice, &pid);

    let deposit = AddFunds {
        signer: alice.clone(),
        vault: vault.clone(),
        vault_wallet: wallet.clone(),
    };
    assert_eq!(add_funds(&mut ledger, &pid, &deposit, 100), Ok(()));
    assert_eq!(ledger.get_balance(&wallet), 100);
    assert_eq!(ledger.get_balance(&alice), 900);

    let withdraw = WithdrawFunds {
        signer: alice.clone(),
        vault: vault.clone(),
        vault_wallet: wallet.clone(),
    };
    assert_eq!(withdraw_funds(&mut ledger, &pid, &withdraw, 40), Ok(()));
    assert_eq!(ledger.get_balance(&wallet), 60);
    assert_eq!(ledger.get_balance(&alice), 940);

    // More than the custody account holds: refused, nothing moves.
    assert_eq!(
        withdraw_funds(&mut ledger, &pid, &withdraw, 100),
        Err(ErrorCode::InsufficientFunds)
    );
    assert_eq!(ledger.get_balance(&wallet), 60);

    // Bob claiming Alice's custody account: his identity re-derives other
    // addresses, so the supplied ones are refused and nothing moves.
    let theft = WithdrawFunds {
        signer: bob.clone(),
        vault: vault.clone(),
        vault_wallet: wallet.clone(),
    };
    assert_eq!(
        withdraw_funds(&mut ledger, &pid, &theft, 10),
        Err(ErrorCode::AddressMismatch)
    );
    assert_eq!(ledger.get_balance(&wallet), 60);
    assert_eq!(ledger.get_balance(&bob), 0);
}

#[test]
fn reopening_a_vault_fails_and_changes_nothing() {
    let alice = ident(3);
    let pid = program_id();
    let mut ledger = Ledger::new();
    let (vault, wallet) = open_vault(&mut ledger, &alice, &pid);

    let again = Initialize {
        payer: alice.clone(),
        vault: vault.clone(),
        vault_wallet: wallet.clone(),
    };
    assert_eq!(
        initialize(&mut ledger, &pid, &again),
        Err(ErrorCode::AlreadyExists)
    );

    let record = ledger.get_record(&vault).expect("record survives");
    assert_eq!(record.1, alice);
    assert_eq!(ledger.get_balance(&wallet), 0);
}

#[test]
fn deposit_requires_funder_balance() {
    let alice = ident(4);
    let pid = program_id();
    let mut ledger = Ledger::new();
    ledger.credit(&alice, 10);
    let (vault, wallet) = open_vault(&mut ledger, &alice, &pid);

    let deposit = AddFunds {
        signer: alice.clone(),
        vault,
        vault_wallet: wallet.clone(),
    };
    assert_eq!(
        add_funds(&mut ledger, &pid, &deposit, 100),
        Err(ErrorCode::InsufficientCallerBalance)
    );
    assert_eq!(ledger.get_balance(&alice), 10);
    assert_eq!(ledger.get_balance(&wallet), 0);
}

#[test]
fn deposit_requires_an_opened_vault() {
    let alice = ident(5);
    let pid = program_id();
    let mut ledger = Ledger::new();
    ledger.credit(&alice, 100);
    let (vault, wallet) = addresses_for(&alice, &pid);

    let deposit = AddFunds {
        signer: alice.clone(),
        vault,
        vault_wallet: wallet,
    };
    assert_eq!(
        add_funds(&mut ledger, &pid, &deposit, 50),
        Err(ErrorCode::NotInitialized)
    );
    assert_eq!(ledger.get_balance(&alice), 100);
}

#[test]
fn swapped_addresses_are_refused() {
    let alice = ident(6);
    let pid = program_id();
    let mut ledger = Ledger::new();
    let (vault, wallet) = addresses_for(&alice, &pid);

    let ctx = Initialize {
        payer: alice.clone(),
        vault: wallet,
        vault_wallet: vault,
    };
    assert_eq!(
        initialize(&mut ledger, &pid, &ctx),
        Err(ErrorCode::AddressMismatch)
    );
    assert!(ledger.records.is_empty());
}

#[test]
fn withdrawing_zero_is_a_permitted_no_op() {
    let alice = ident(7);
    let pid = program_id();
    let mut ledger = Ledger::new();
    ledger.credit(&alice, 50);
    let (vault, wallet) = open_vault(&mut ledger, &alice, &pid);

    let deposit = AddFunds {
        signer: alice.clone(),
        vault: vault.clone(),
        vault_wallet: wallet.clone(),
    };
    assert_eq!(add_funds(&mut ledger, &pid, &deposit, 5), Ok(()));

    let withdraw = WithdrawFunds {
        signer: alice.clone(),
        vault,
        vault_wallet: wallet.clone(),
    };
    assert_eq!(withdraw_funds(&mut ledger, &pid, &withdraw, 0), Ok(()));
    assert_eq!(ledger.get_balance(&wallet), 5);
    assert_eq!(ledger.get_balance(&alice), 45);
}

#[test]
fn deposit_then_withdraw_restores_every_balance() {
    let alice = ident(8);
    let pid = program_id();
    let mut ledger = Ledger::new();
    ledger.credit(&alice, 500);
    let (vault, wallet) = open_vault(&mut ledger, &alice, &pid);

    let deposit = AddFunds {
        signer: alice.clone(),
        vault: vault.clone(),
        vault_wallet: wallet.clone(),
    };
    assert_eq!(add_funds(&mut ledger, &pid, &deposit, 123), Ok(()));

    let withdraw = WithdrawFunds {
        signer: alice.clone(),
        vault,
        vault_wallet: wallet.clone(),
    };
    assert_eq!(withdraw_funds(&mut ledger, &pid, &withdraw, 123), Ok(()));
    assert_eq!(ledger.get_balance(&alice), 500);
    assert_eq!(ledger.get_balance(&wallet), 0);
}

#[test]
fn a_record_naming_another_owner_refuses_withdrawal() {
    let alice = ident(10);
    let bob = ident(11);
    let pid = program_id();
    let mut ledger = Ledger::new();
    ledger.credit(&bob, 100);

    // A vault record sitting at Bob's derived vault address but naming Alice
    // as owner: the ownership gate alone must refuse Bob.
    let (bob_vault, bob_wallet) = addresses_for(&bob, &pid);
    ledger.records.push(RecordSlot {
        address: bob_vault.clone(),
        vault: Vault {
            bump: 0,
            signer: alice.clone(),
        },
    });

    let withdraw = WithdrawFunds {
        signer: bob.clone(),
        vault: bob_vault,
        vault_wallet: bob_wallet,
    };
    assert_eq!(
        withdraw_funds(&mut ledger, &pid, &withdraw, 1),
        Err(ErrorCode::Unauthorized)
    );
    assert_eq!(ledger.get_balance(&bob), 100);
}

#[test]
fn deposit_that_would_overflow_the_custody_account_is_refused() {
    let alice = ident(12);
    let pid = program_id();
    let mut ledger = Ledger::new();
    ledger.credit(&alice, 10);
    let (vault, wallet) = open_vault(&mut ledger, &alice, &pid);
    ledger.credit(&wallet, u64::MAX);

    let deposit = AddFunds {
        signer: alice.clone(),
        vault,
        vault_wallet: wallet.clone(),
    };
    assert_eq!(
        add_funds(&mut ledger, &pid, &deposit, 10),
        Err(ErrorCode::Overflow)
    );
    assert_eq!(ledger.get_balance(&alice), 10);
    assert_eq!(ledger.get_balance(&wallet), u64::MAX);
}
