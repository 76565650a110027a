use pallet_runtime::balances;
use pallet_runtime::proof_of_existence;
use pallet_runtime::support::DispatchError;
use pallet_runtime::system;

#[test]
fn init_balances() {
    let mut balances = balances::Pallet::new();

    assert_eq!(balances.balance(&"alice".to_string()), 0);
    balances.set_balance(&"alice".to_string(), 100);
    assert_eq!(balances.balance(&"alice".to_string()), 100);
    assert_eq!(balances.balance(&"bob".to_string()), 0);
}

#[test]
fn transfer_balance() {
    let mut balances = balances::Pallet::new();

    balances.set_balance(&"alice".to_string(), 0);
    balances.set_balance(&"bob".to_string(), 0);
    // alice cannot transfer funds she does not have
    assert_eq!(
        balances.transfer("alice".to_string(), "bob".to_string(), 51),
        Err(DispatchError::InsufficientFunds)
    );
    assert_eq!(DispatchError::InsufficientFunds.message(), "Not enough funds.");
    balances.set_balance(&"alice".to_string(), 100);

    // alice can successfully transfer funds to bob
    assert_eq!(
        balances.transfer("alice".to_string(), "bob".to_string(), 51),
        Ok(())
    );

    // the balances of alice and bob are correctly updated
    assert_eq!(balances.balance(&"alice".to_string()), 49);
    assert_eq!(balances.balance(&"bob".to_string()), 51);

    assert_eq!(
        balances.transfer("alice".to_string(), "bob".to_string(), 51),
        Err(DispatchError::InsufficientFunds)
    );
}

#[test]
fn main_init_system() {
    let mut pallet = system::Pallet::new();

    pallet.inc_block_number();
    pallet.inc_nonce(&"alice".to_string());

    assert_eq!(pallet.block_number(), 1);
    assert_eq!(pallet.get_nonce(&"alice".to_string()), Some(&1));
    assert_eq!(pallet.get_nonce(&"bob".to_string()), None);
}

#[test]
fn system_init_system() {
    let mut pallet = system::Pallet::new();
    pallet.inc_block_number();
    pallet.inc_nonce(&"alice".to_string());

    assert_eq!(pallet.block_number(), 1);
    assert_eq!(pallet.get_nonce(&"alice".to_string()), Some(&1));
    assert_eq!(pallet.get_nonce(&"bob".to_string()), None);
}

#[test]
fn transfer_overflow() {
    let mut balances = balances::Pallet::new();

    balances.set_balance(&"alice".to_string(), 5);
    balances.set_balance(&"bob".to_string(), u128::MAX);
    assert_eq!(
        balances.transfer("alice".to_string(), "bob".to_string(), 1),
        Err(DispatchError::Overflow)
    );
    assert_eq!(DispatchError::Overflow.message(), "Overflow occured");
    // a failed transfer leaves both balances unchanged
    assert_eq!(balances.balance(&"alice".to_string()), 5);
    assert_eq!(balances.balance(&"bob".to_string()), u128::MAX);
}

#[test]
fn insufficient_funds_leaves_balances_unchanged() {
    let mut balances = balances::Pallet::new();

    balances.set_balance(&"alice".to_string(), 10);
    balances.set_balance(&"bob".to_string(), 7);
    assert_eq!(
        balances.transfer("alice".to_string(), "bob".to_string(), 11),
        Err(DispatchError::InsufficientFunds)
    );
    assert_eq!(balances.balance(&"alice".to_string()), 10);
    assert_eq!(balances.balance(&"bob".to_string()), 7);
}

#[test]
fn transfer_to_self_is_noop() {
    let mut balances = balances::Pallet::new();

    balances.set_balance(&"alice".to_string(), 5);
    // the fixed self-transfer policy: a guaranteed no-op success,
    // whatever the amount
    assert_eq!(
        balances.transfer("alice".to_string(), "alice".to_string(), 1000),
        Ok(())
    );
    assert_eq!(balances.balance(&"alice".to_string()), 5);
}

#[test]
fn claim_lifecycle() {
    let mut poe = proof_of_existence::Pallet::new();

    assert_eq!(poe.get_claim(&"doc".to_string()), None);
    assert_eq!(poe.create_claim("alice".to_string(), "doc".to_string()), Ok(()));
    assert_eq!(poe.get_claim(&"doc".to_string()), Some(&"alice".to_string()));

    // a second claim on the same content fails, whoever makes it,
    // and the original owner is retained
    assert_eq!(
        poe.create_claim("bob".to_string(), "doc".to_string()),
        Err(DispatchError::AlreadyClaimed)
    );
    assert_eq!(DispatchError::AlreadyClaimed.message(), "this content is already claimed");
    assert_eq!(poe.get_claim(&"doc".to_string()), Some(&"alice".to_string()));

    // revocation by anyone but the owner fails and changes nothing
    assert_eq!(
        poe.revoke_claim("bob".to_string(), "doc".to_string()),
        Err(DispatchError::NotOwner)
    );
    assert_eq!(DispatchError::NotOwner.message(), "this content is owned by someone else");
    assert_eq!(poe.get_claim(&"doc".to_string()), Some(&"alice".to_string()));

    // the owner can revoke, after which the content is unclaimed
    assert_eq!(poe.revoke_claim("alice".to_string(), "doc".to_string()), Ok(()));
    assert_eq!(poe.get_claim(&"doc".to_string()), None);

    // revoking unclaimed content fails
    assert_eq!(
        poe.revoke_claim("alice".to_string(), "doc".to_string()),
        Err(DispatchError::ClaimNotFound)
    );
    assert_eq!(DispatchError::ClaimNotFound.message(), "claim does not exist");
}

#[test]
fn nonce_counts_operations() {
    let mut pallet = system::Pallet::new();

    // never acted: None, distinct from "acted zero times"
    assert_eq!(pallet.get_nonce(&"alice".to_string()), None);
    for expected in 1..=5u32 {
        pallet.inc_nonce(&"alice".to_string());
        assert_eq!(pallet.get_nonce(&"alice".to_string()), Some(&expected));
    }
    // another account's counter is untouched
    assert_eq!(pallet.get_nonce(&"bob".to_string()), None);
}
