use pallet_runtime::balances;
use pallet_runtime::proof_of_existence;
use pallet_runtime::support::{BlockError, DispatchError, ExtrinsicFailure};
use pallet_runtime::types::{Block, Extrinsic, Header};
use pallet_runtime::{Runtime, RuntimeCall};

fn transfer_call(to: &str, amount: u128) -> RuntimeCall {
    RuntimeCall::Balances(balances::Call::transfer {
        to: to.to_string(),
        amount,
    })
}

fn create_claim_call(claim: &str) -> RuntimeCall {
    RuntimeCall::ProofOfExistence(proof_of_existence::Call::CreateClaim {
        claim: claim.to_string(),
    })
}

fn revoke_claim_call(claim: &str) -> RuntimeCall {
    RuntimeCall::ProofOfExistence(proof_of_existence::Call::RevokeClaim {
        claim: claim.to_string(),
    })
}

fn extrinsic(caller: &str, call: RuntimeCall) -> Extrinsic {
    Extrinsic {
        caller: caller.to_string(),
        call,
    }
}

#[test]
fn fresh_runtime_is_all_zero() {
    let runtime = Runtime::new();
    assert_eq!(runtime.system.block_number(), 0);
    assert_eq!(runtime.system.get_nonce(&"alice".to_string()), None);
    assert_eq!(runtime.balances.balance(&"alice".to_string()), 0);
    assert_eq!(runtime.proof_of_existence.get_claim(&"X".to_string()), None);
}

#[test]
fn block_of_transfers() {
    let mut runtime = Runtime::new();
    runtime.balances.set_balance(&"alice".to_string(), 100);

    let block = Block {
        header: Header { block_number: 1 },
        extrinsics: vec![
            extrinsic("alice", transfer_call("bob", 30)),
            extrinsic("alice", transfer_call("charlie", 20)),
        ],
    };
    let failures = runtime.execute_block(block).expect("invalid block");

    assert!(failures.is_empty());
    assert_eq!(runtime.balances.balance(&"alice".to_string()), 50);
    assert_eq!(runtime.balances.balance(&"bob".to_string()), 30);
    assert_eq!(runtime.balances.balance(&"charlie".to_string()), 20);
    assert_eq!(runtime.system.get_nonce(&"alice".to_string()), Some(&2));
    assert_eq!(runtime.system.block_number(), 1);
}

#[test]
fn block_of_competing_claims() {
    let mut runtime = Runtime::new();
    runtime.balances.set_balance(&"alice".to_string(), 100);

    let block_1 = Block {
        header: Header { block_number: 1 },
        extrinsics: vec![],
    };
    runtime.execute_block(block_1).expect("invalid block");

    let block_2 = Block {
        header: Header { block_number: 2 },
        extrinsics: vec![
            extrinsic("alice", create_claim_call("X")),
            extrinsic("bob", create_claim_call("X")),
        ],
    };
    let failures = runtime.execute_block(block_2).expect("invalid block");

    // the first claim wins; the second is reported, not propagated
    assert_eq!(
        runtime.proof_of_existence.get_claim(&"X".to_string()),
        Some(&"alice".to_string())
    );
    assert_eq!(
        failures,
        vec![ExtrinsicFailure {
            block_number: 2,
            extrinsic_index: 1,
            error: DispatchError::AlreadyClaimed,
        }]
    );
    // both extrinsics were counted against their callers
    assert_eq!(runtime.system.get_nonce(&"alice".to_string()), Some(&1));
    assert_eq!(runtime.system.get_nonce(&"bob".to_string()), Some(&1));
}

#[test]
fn block_number_mismatch_aborts_block() {
    let mut runtime = Runtime::new();
    runtime.balances.set_balance(&"alice".to_string(), 100);

    let block = Block {
        header: Header { block_number: 5 },
        extrinsics: vec![extrinsic("alice", transfer_call("bob", 30))],
    };
    let result = runtime.execute_block(block);

    assert_eq!(result, Err(BlockError::BlockNumberMismatch));
    // the height still advanced once, but no extrinsic was applied
    assert_eq!(runtime.system.block_number(), 1);
    assert_eq!(runtime.balances.balance(&"alice".to_string()), 100);
    assert_eq!(runtime.balances.balance(&"bob".to_string()), 0);
    assert_eq!(runtime.system.get_nonce(&"alice".to_string()), None);
}

#[test]
fn claims_change_owner_across_blocks() {
    let mut runtime = Runtime::new();

    let block_1 = Block {
        header: Header { block_number: 1 },
        extrinsics: vec![extrinsic("alice", create_claim_call("Hello, world!"))],
    };
    let failures_1 = runtime.execute_block(block_1).expect("invalid block");
    assert!(failures_1.is_empty());

    // alice gives the claim up and bob takes it over in the same block:
    // extrinsics run strictly in order
    let block_2 = Block {
        header: Header { block_number: 2 },
        extrinsics: vec![
            extrinsic("alice", revoke_claim_call("Hello, world!")),
            extrinsic("bob", create_claim_call("Hello, world!")),
        ],
    };
    let failures_2 = runtime.execute_block(block_2).expect("invalid block");
    assert!(failures_2.is_empty());

    assert_eq!(
        runtime.proof_of_existence.get_claim(&"Hello, world!".to_string()),
        Some(&"bob".to_string())
    );
}

#[test]
fn failed_extrinsic_does_not_roll_back_earlier_ones() {
    let mut runtime = Runtime::new();
    runtime.balances.set_balance(&"alice".to_string(), 100);

    let block = Block {
        header: Header { block_number: 1 },
        extrinsics: vec![
            extrinsic("alice", transfer_call("bob", 60)),
            extrinsic("alice", transfer_call("charlie", 60)),
            extrinsic("alice", transfer_call("bob", 10)),
        ],
    };
    let failures = runtime.execute_block(block).expect("invalid block");

    assert_eq!(
        failures,
        vec![ExtrinsicFailure {
            block_number: 1,
            extrinsic_index: 1,
            error: DispatchError::InsufficientFunds,
        }]
    );
    assert_eq!(runtime.balances.balance(&"alice".to_string()), 30);
    assert_eq!(runtime.balances.balance(&"bob".to_string()), 70);
    assert_eq!(runtime.balances.balance(&"charlie".to_string()), 0);
    assert_eq!(runtime.system.get_nonce(&"alice".to_string()), Some(&3));
}
