use proofpay::contract::execute;
use proofpay::contract::instantiate;
use proofpay::error::ContractError;
use proofpay::msg::Env;
use proofpay::msg::ExecuteMsg;
use proofpay::msg::InstantiateMsg;
use proofpay::msg::MessageInfo;
use proofpay::msg::Response;
use proofpay::queries::query_payment_by_id;
use proofpay::queries::query_payment_history;
use proofpay::state::Coin;
use proofpay::state::ContractState;
use proofpay::state::PaymentStatus;
use proofpay::state::ProofType;

const USER1: &str = "user1";
const USER2: &str = "user2";
const NATIVE_DENOM: &str = "uxion";

fn coin(amount: u128) -> Coin {
    Coin { denom: NATIVE_DENOM.to_string(), amount }
}

fn fresh() -> (ContractState, Vec<(String, u128)>) {
    let state = instantiate(
        InstantiateMsg { admin: None },
        &MessageInfo { sender: "admin".to_string(), funds: vec![] },
    );
    let balances = vec![
        (USER1.to_string(), 10000u128),
        (USER2.to_string(), 10000u128),
        ("user3".to_string(), 10000u128),
    ];
    (state, balances)
}

fn balance(balances: &[(String, u128)], who: &str) -> u128 {
    balances.iter().find(|(w, _)| w == who).map(|(_, b)| *b).unwrap_or(0)
}

fn credit(balances: &mut Vec<(String, u128)>, who: &str, amount: u128) {
    for entry in balances.iter_mut() {
        if entry.0 == who {
            entry.1 += amount;
            return;
        }
    }
    balances.push((who.to_string(), amount));
}

fn debit(balances: &mut Vec<(String, u128)>, who: &str, amount: u128) {
    for entry in balances.iter_mut() {
        if entry.0 == who {
            entry.1 -= amount;
            return;
        }
    }
}

/// Run a call and mirror what the host ledger would do: attached funds
/// leave the caller, and each ordered transfer credits its target.
fn exec_bank(
    state: &mut ContractState,
    balances: &mut Vec<(String, u128)>,
    sender: &str,
    funds: Vec<Coin>,
    msg: ExecuteMsg,
) -> Result<Response, ContractError> {
    let attached: u128 = funds.iter().map(|c| c.amount).sum();
    let r = execute(
        state,
        &Env { block_time: 10 },
        &MessageInfo { sender: sender.to_string(), funds },
        msg,
    );
    if let Ok(resp) = &r {
        debit(balances, sender, attached);
        for t in &resp.transfers {
            credit(balances, t.to_address.as_str(), t.amount.amount);
        }
    }
    r
}

fn register_users(state: &mut ContractState, balances: &mut Vec<(String, u128)>) {
    for (wallet, name, display) in [
        (USER1, "alice", "Alice Smith"),
        (USER2, "bob", "Bob Jones"),
        ("user3", "charlie", "Charlie Brown"),
    ] {
        exec_bank(
            state,
            balances,
            wallet,
            vec![],
            ExecuteMsg::RegisterUser {
                username: name.to_string(),
                display_name: display.to_string(),
            },
        )
        .unwrap();
    }
}

#[test]
fn test_direct_payment_no_proof() {
    let (mut state, mut balances) = fresh();
    register_users(&mut state, &mut balances);

    exec_bank(
        &mut state,
        &mut balances,
        USER1,
        vec![coin(100)],
        ExecuteMsg::SendDirectPayment {
            to_username: "bob".to_string(),
            amount: coin(100),
            description: "Test payment".to_string(),
            proof_type: ProofType::NoProof,
        },
    )
    .unwrap();

    assert_eq!(balance(&balances, USER2), 10100);

    let payment_response = query_payment_by_id(&state, 1).unwrap();
    assert_eq!(payment_response.payment.from_username, "alice");
    assert_eq!(payment_response.payment.to_username, "bob");
    assert_eq!(payment_response.payment.status, PaymentStatus::Completed);
}

#[test]
fn test_help_request_with_proof() {
    let (mut state, mut balances) = fresh();
    register_users(&mut state, &mut balances);

    exec_bank(
        &mut state,
        &mut balances,
        USER1,
        vec![],
        ExecuteMsg::CreatePaymentRequest {
            to_username: "bob".to_string(),
            amount: coin(200),
            description: "Help with moving".to_string(),
            proof_type: ProofType::Photo,
        },
    )
    .unwrap();

    exec_bank(
        &mut state,
        &mut balances,
        USER2,
        vec![],
        ExecuteMsg::SubmitProof { payment_id: 1, proof_data: "photo_hash_12345".to_string() },
    )
    .unwrap();

    exec_bank(
        &mut state,
        &mut balances,
        USER2,
        vec![coin(200)],
        ExecuteMsg::ApprovePayment { payment_id: 1 },
    )
    .unwrap();

    assert_eq!(balance(&balances, USER1), 10200);

    let payment_response = query_payment_by_id(&state, 1).unwrap();
    assert_eq!(payment_response.payment.status, PaymentStatus::Completed);
}

#[test]
fn test_payment_cancellation() {
    let (mut state, mut balances) = fresh();
    register_users(&mut state, &mut balances);

    exec_bank(
        &mut state,
        &mut balances,
        USER1,
        vec![],
        ExecuteMsg::CreatePaymentRequest {
            to_username: "bob".to_string(),
            amount: coin(150),
            description: "Help with coding".to_string(),
            proof_type: ProofType::Manual,
        },
    )
    .unwrap();

    exec_bank(&mut state, &mut balances, USER1, vec![], ExecuteMsg::CancelPayment {
        payment_id: 1,
    })
    .unwrap();

    assert_eq!(balance(&balances, USER1), 10000);

    let payment_response = query_payment_by_id(&state, 1).unwrap();
    assert_eq!(payment_response.payment.status, PaymentStatus::Cancelled);
}

#[test]
fn test_payment_history() {
    let (mut state, mut balances) = fresh();
    register_users(&mut state, &mut balances);

    for i in 0..3 {
        exec_bank(
            &mut state,
            &mut balances,
            USER1,
            vec![coin(50)],
            ExecuteMsg::SendDirectPayment {
                to_username: "bob".to_string(),
                amount: coin(50),
                description: format!("Payment {}", i + 1),
                proof_type: ProofType::NoProof,
            },
        )
        .unwrap();
    }

    let history = query_payment_history(&state, "alice");
    assert_eq!(history.payments.len(), 3);
    assert_eq!(history.payments[0].from_username, "alice");
}

#[test]
fn test_payment_to_self() {
    let (mut state, mut balances) = fresh();
    register_users(&mut state, &mut balances);

    let result = exec_bank(
        &mut state,
        &mut balances,
        USER1,
        vec![coin(100)],
        ExecuteMsg::SendDirectPayment {
            to_username: "alice".to_string(),
            amount: coin(100),
            description: "Self payment".to_string(),
            proof_type: ProofType::NoProof,
        },
    );
    assert!(result.is_err());
}

#[test]
fn test_insufficient_funds() {
    let (mut state, mut balances) = fresh();
    register_users(&mut state, &mut balances);

    let result = exec_bank(
        &mut state,
        &mut balances,
        USER1,
        vec![coin(50)],
        ExecuteMsg::SendDirectPayment {
            to_username: "bob".to_string(),
            amount: coin(100),
            description: "Insufficient funds test".to_string(),
            proof_type: ProofType::NoProof,
        },
    );
    assert!(result.is_err());
}

#[test]
fn test_manual_payment_approve_pays_exact_amount() {
    let (mut state, mut balances) = fresh();
    register_users(&mut state, &mut balances);

    exec_bank(
        &mut state,
        &mut balances,
        USER1,
        vec![coin(50)],
        ExecuteMsg::SendDirectPayment {
            to_username: "bob".to_string(),
            amount: coin(50),
            description: "Manual settlement".to_string(),
            proof_type: ProofType::Manual,
        },
    )
    .unwrap();
    assert_eq!(balance(&balances, USER2), 10000);

    exec_bank(
        &mut state,
        &mut balances,
        USER2,
        vec![],
        ExecuteMsg::SubmitProof { payment_id: 1, proof_data: "done".to_string() },
    )
    .unwrap();

    exec_bank(&mut state, &mut balances, USER1, vec![], ExecuteMsg::ApprovePayment {
        payment_id: 1,
    })
    .unwrap();

    assert_eq!(balance(&balances, USER2), 10050);
    let payment_response = query_payment_by_id(&state, 1).unwrap();
    assert_eq!(payment_response.payment.status, PaymentStatus::Completed);
}

#[test]
fn test_manual_payment_reject_leaves_resubmittable() {
    let (mut state, mut balances) = fresh();
    register_users(&mut state, &mut balances);

    exec_bank(
        &mut state,
        &mut balances,
        USER1,
        vec![coin(50)],
        ExecuteMsg::SendDirectPayment {
            to_username: "bob".to_string(),
            amount: coin(50),
            description: "Manual settlement".to_string(),
            proof_type: ProofType::Manual,
        },
    )
    .unwrap();

    exec_bank(
        &mut state,
        &mut balances,
        USER2,
        vec![],
        ExecuteMsg::SubmitProof { payment_id: 1, proof_data: "first try".to_string() },
    )
    .unwrap();

    exec_bank(&mut state, &mut balances, USER1, vec![], ExecuteMsg::RejectPayment {
        payment_id: 1,
    })
    .unwrap();

    assert_eq!(balance(&balances, USER2), 10000);
    let payment_response = query_payment_by_id(&state, 1).unwrap();
    assert_eq!(payment_response.payment.status, PaymentStatus::Pending);
    assert_eq!(payment_response.payment.proof_data, None);

    let resubmit = exec_bank(
        &mut state,
        &mut balances,
        USER2,
        vec![],
        ExecuteMsg::SubmitProof { payment_id: 1, proof_data: "second try".to_string() },
    );
    assert!(resubmit.is_ok());
}

#[test]
fn test_cancel_refunds_held_escrow() {
    let (mut state, mut balances) = fresh();
    register_users(&mut state, &mut balances);

    exec_bank(
        &mut state,
        &mut balances,
        USER1,
        vec![coin(75)],
        ExecuteMsg::SendDirectPayment {
            to_username: "bob".to_string(),
            amount: coin(75),
            description: "Escrowed then cancelled".to_string(),
            proof_type: ProofType::Manual,
        },
    )
    .unwrap();
    assert_eq!(balance(&balances, USER1), 9925);

    exec_bank(&mut state, &mut balances, USER1, vec![], ExecuteMsg::CancelPayment {
        payment_id: 1,
    })
    .unwrap();

    assert_eq!(balance(&balances, USER1), 10000);
    assert_eq!(balance(&balances, USER2), 10000);
    let payment_response = query_payment_by_id(&state, 1).unwrap();
    assert_eq!(payment_response.payment.status, PaymentStatus::Cancelled);
}

#[test]
fn test_settled_payment_rejects_further_calls() {
    let (mut state, mut balances) = fresh();
    register_users(&mut state, &mut balances);

    exec_bank(
        &mut state,
        &mut balances,
        USER1,
        vec![coin(100)],
        ExecuteMsg::SendDirectPayment {
            to_username: "bob".to_string(),
            amount: coin(100),
            description: "Settles instantly".to_string(),
            proof_type: ProofType::NoProof,
        },
    )
    .unwrap();
    assert_eq!(balance(&balances, USER2), 10100);

    let again = exec_bank(&mut state, &mut balances, USER1, vec![], ExecuteMsg::ApprovePayment {
        payment_id: 1,
    });
    assert_eq!(again.unwrap_err(), ContractError::PaymentAlreadyCompleted {});

    let cancel = exec_bank(&mut state, &mut balances, USER1, vec![], ExecuteMsg::CancelPayment {
        payment_id: 1,
    });
    assert_eq!(cancel.unwrap_err(), ContractError::PaymentAlreadyCompleted {});

    assert_eq!(balance(&balances, USER2), 10100);
    assert_eq!(balance(&balances, USER1), 9900);
}

#[test]
fn test_payment_error_kinds() {
    let (mut state, mut balances) = fresh();
    register_users(&mut state, &mut balances);

    let zero = exec_bank(
        &mut state,
        &mut balances,
        USER1,
        vec![],
        ExecuteMsg::CreatePaymentRequest {
            to_username: "bob".to_string(),
            amount: coin(0),
            description: "Nothing".to_string(),
            proof_type: ProofType::Manual,
        },
    );
    assert_eq!(zero.unwrap_err(), ContractError::InvalidPaymentAmount {});

    let missing = exec_bank(&mut state, &mut balances, USER1, vec![], ExecuteMsg::CancelPayment {
        payment_id: 7,
    });
    assert_eq!(missing.unwrap_err(), ContractError::PaymentNotFound {});

    let unknown = exec_bank(
        &mut state,
        &mut balances,
        USER1,
        vec![],
        ExecuteMsg::CreatePaymentRequest {
            to_username: "nobody".to_string(),
            amount: coin(10),
            description: "To a stranger".to_string(),
            proof_type: ProofType::Manual,
        },
    );
    assert_eq!(unknown.unwrap_err(), ContractError::UserNotFound {});

    let unregistered = exec_bank(
        &mut state,
        &mut balances,
        "user9",
        vec![],
        ExecuteMsg::CreatePaymentRequest {
            to_username: "bob".to_string(),
            amount: coin(10),
            description: "From a stranger".to_string(),
            proof_type: ProofType::Manual,
        },
    );
    assert_eq!(unregistered.unwrap_err(), ContractError::UserNotRegistered {});

    let two_coins = exec_bank(
        &mut state,
        &mut balances,
        USER1,
        vec![coin(5), Coin { denom: "uatom".to_string(), amount: 5 }],
        ExecuteMsg::SendDirectPayment {
            to_username: "bob".to_string(),
            amount: coin(5),
            description: "Two assets".to_string(),
            proof_type: ProofType::NoProof,
        },
    );
    assert_eq!(two_coins.unwrap_err(), ContractError::InvalidFunds {});

    let task_policy = exec_bank(
        &mut state,
        &mut balances,
        USER1,
        vec![coin(5)],
        ExecuteMsg::SendDirectPayment {
            to_username: "bob".to_string(),
            amount: coin(5),
            description: "Wrong policy".to_string(),
            proof_type: ProofType::Hybrid,
        },
    );
    assert_eq!(task_policy.unwrap_err(), ContractError::InvalidProofType {});

    let long_description = "d".repeat(501);
    let oversized = exec_bank(
        &mut state,
        &mut balances,
        USER1,
        vec![],
        ExecuteMsg::CreatePaymentRequest {
            to_username: "bob".to_string(),
            amount: coin(10),
            description: long_description,
            proof_type: ProofType::Manual,
        },
    );
    assert_eq!(oversized.unwrap_err(), ContractError::InvalidDescriptionLength {});
}
