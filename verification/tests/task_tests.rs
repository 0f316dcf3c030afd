use proofpay::contract::execute;
use proofpay::contract::instantiate;
use proofpay::error::ContractError;
use proofpay::msg::Env;
use proofpay::msg::ExecuteMsg;
use proofpay::msg::InstantiateMsg;
use proofpay::msg::MessageInfo;
use proofpay::msg::Response;
use proofpay::queries::query_pending_tasks;
use proofpay::queries::query_task_by_id;
use proofpay::queries::query_task_history;
use proofpay::state::Coin;
use proofpay::state::ContractState;
use proofpay::state::ProofType;
use proofpay::state::TaskStatus;

const USER1: &str = "user1";
const USER2: &str = "user2";
const USER3: &str = "user3";
const ADMIN: &str = "admin";
const NATIVE_DENOM: &str = "uxion";

fn get_future_timestamp() -> u64 {
    2524608000
}

fn coin(amount: u128) -> Coin {
    Coin { denom: NATIVE_DENOM.to_string(), amount }
}

fn fresh() -> (ContractState, Vec<(String, u128)>) {
    let state = instantiate(
        InstantiateMsg { admin: None },
        &MessageInfo { sender: ADMIN.to_string(), funds: vec![] },
    );
    let balances = vec![
        (USER1.to_string(), 10000u128),
        (USER2.to_string(), 10000u128),
        (USER3.to_string(), 10000u128),
    ];
    (state, balances)
}

fn balance(balances: &[(String, u128)], who: &str) -> u128 {
    balances.iter().find(|(w, _)| w == who).map(|(_, b)| *b).unwrap_or(0)
}

fn credit(balances: &mut Vec<(String, u128)>, who: &str, amount: u128) {
    for entry in balances.iter_mut() {
        if entry.0 == who {
            entry.1 += amount;
            return;
        }
    }
    balances.push((who.to_string(), amount));
}

fn debit(balances: &mut Vec<(String, u128)>, who: &str, amount: u128) {
    for entry in balances.iter_mut() {
        if entry.0 == who {
            entry.1 -= amount;
            return;
        }
    }
}

/// Run a call at a given block time and mirror what the host ledger would
/// do with the attached funds and the ordered transfers.
fn exec_at(
    state: &mut ContractState,
    balances: &mut Vec<(String, u128)>,
    now: u64,
    sender: &str,
    funds: Vec<Coin>,
    msg: ExecuteMsg,
) -> Result<Response, ContractError> {
    let attached: u128 = funds.iter().map(|c| c.amount).sum();
    let r = execute(
        state,
        &Env { block_time: now },
        &MessageInfo { sender: sender.to_string(), funds },
        msg,
    );
    if let Ok(resp) = &r {
        debit(balances, sender, attached);
        for t in &resp.transfers {
            credit(balances, t.to_address.as_str(), t.amount.amount);
        }
    }
    r
}

fn register_users(state: &mut ContractState, balances: &mut Vec<(String, u128)>) {
    for (wallet, name, display) in [
        (USER1, "alice", "Alice Smith"),
        (USER2, "bob", "Bob Jones"),
        (USER3, "charlie", "Charlie Brown"),
    ] {
        exec_at(
            state,
            balances,
            10,
            wallet,
            vec![],
            ExecuteMsg::RegisterUser {
                username: name.to_string(),
                display_name: display.to_string(),
            },
        )
        .unwrap();
    }
}

#[test]
fn test_soft_task_lifecycle() {
    let (mut state, mut balances) = fresh();
    register_users(&mut state, &mut balances);

    exec_at(
        &mut state,
        &mut balances,
        10,
        USER1,
        vec![],
        ExecuteMsg::CreateTask {
            to_username: "bob".to_string(),
            amount: coin(100),
            description: "Write documentation".to_string(),
            proof_type: ProofType::Soft,
            deadline_ts: get_future_timestamp(),
            review_window_secs: None,
            endpoint: "https://api.example.com".to_string(),
        },
    )
    .unwrap();

    exec_at(
        &mut state,
        &mut balances,
        20,
        USER2,
        vec![],
        ExecuteMsg::SubmitSoftEvidence { task_id: 1, evidence_hash: "evidence_hash_123".to_string() },
    )
    .unwrap();

    exec_at(&mut state, &mut balances, 30, USER1, vec![coin(100)], ExecuteMsg::ApproveTask {
        task_id: 1,
    })
    .unwrap();

    let task_response = query_task_by_id(&state, 1).unwrap();
    assert_eq!(task_response.task.status, TaskStatus::Released);

    assert_eq!(balance(&balances, USER2), 10100);
}

#[test]
fn test_zktls_task_instant_release() {
    let (mut state, mut balances) = fresh();
    register_users(&mut state, &mut balances);

    exec_at(
        &mut state,
        &mut balances,
        10,
        USER1,
        vec![coin(200)],
        ExecuteMsg::CreateTask {
            to_username: "bob".to_string(),
            amount: coin(200),
            description: "API integration task".to_string(),
            proof_type: ProofType::ZkTLS,
            deadline_ts: get_future_timestamp(),
            review_window_secs: None,
            endpoint: "https://api.example.com/verify".to_string(),
        },
    )
    .unwrap();

    exec_at(
        &mut state,
        &mut balances,
        20,
        USER2,
        vec![],
        ExecuteMsg::SubmitZkTlsProof {
            task_id: 1,
            proof_blob_or_ref: "valid_zktls_proof_data".to_string(),
            zk_proof_hash: "zk_proof_hash_456".to_string(),
        },
    )
    .unwrap();

    let task_response = query_task_by_id(&state, 1).unwrap();
    assert_eq!(task_response.task.status, TaskStatus::Released);

    assert_eq!(balance(&balances, USER2), 10200);
}

#[test]
fn test_hybrid_task_with_dispute_window() {
    let (mut state, mut balances) = fresh();
    register_users(&mut state, &mut balances);

    exec_at(
        &mut state,
        &mut balances,
        10,
        USER1,
        vec![coin(300)],
        ExecuteMsg::CreateTask {
            to_username: "bob".to_string(),
            amount: coin(300),
            description: "Complex verification task".to_string(),
            proof_type: ProofType::Hybrid,
            deadline_ts: get_future_timestamp(),
            review_window_secs: Some(3600),
            endpoint: "https://api.example.com/hybrid".to_string(),
        },
    )
    .unwrap();

    exec_at(
        &mut state,
        &mut balances,
        20,
        USER2,
        vec![],
        ExecuteMsg::SubmitZkTlsProof {
            task_id: 1,
            proof_blob_or_ref: "valid_hybrid_proof_data".to_string(),
            zk_proof_hash: "hybrid_proof_hash_789".to_string(),
        },
    )
    .unwrap();

    let task_response = query_task_by_id(&state, 1).unwrap();
    assert_eq!(task_response.task.status, TaskStatus::PendingRelease);

    assert_eq!(balance(&balances, USER2), 10000);
}

#[test]
fn test_hybrid_task_dispute() {
    let (mut state, mut balances) = fresh();
    register_users(&mut state, &mut balances);

    exec_at(
        &mut state,
        &mut balances,
        10,
        USER1,
        vec![coin(250)],
        ExecuteMsg::CreateTask {
            to_username: "bob".to_string(),
            amount: coin(250),
            description: "Disputable task".to_string(),
            proof_type: ProofType::Hybrid,
            deadline_ts: get_future_timestamp(),
            review_window_secs: Some(3600),
            endpoint: "https://api.example.com/dispute".to_string(),
        },
    )
    .unwrap();

    exec_at(
        &mut state,
        &mut balances,
        20,
        USER2,
        vec![],
        ExecuteMsg::SubmitZkTlsProof {
            task_id: 1,
            proof_blob_or_ref: "valid_dispute_proof".to_string(),
            zk_proof_hash: "dispute_proof_hash".to_string(),
        },
    )
    .unwrap();

    exec_at(
        &mut state,
        &mut balances,
        30,
        USER1,
        vec![],
        ExecuteMsg::DisputeTask { task_id: 1, reason_hash: Some("dispute_reason_hash".to_string()) },
    )
    .unwrap();

    let task_response = query_task_by_id(&state, 1).unwrap();
    assert_eq!(task_response.task.status, TaskStatus::Disputed);

    exec_at(
        &mut state,
        &mut balances,
        40,
        ADMIN,
        vec![],
        ExecuteMsg::ResolveDispute { task_id: 1, decision: true },
    )
    .unwrap();

    assert_eq!(balance(&balances, USER2), 10250);
}

#[test]
fn test_task_expiry_refund() {
    let (mut state, mut balances) = fresh();
    register_users(&mut state, &mut balances);

    let deadline: u64 = 10000;
    exec_at(
        &mut state,
        &mut balances,
        10,
        USER1,
        vec![coin(150)],
        ExecuteMsg::CreateTask {
            to_username: "bob".to_string(),
            amount: coin(150),
            description: "Expired task".to_string(),
            proof_type: ProofType::ZkTLS,
            deadline_ts: deadline,
            review_window_secs: None,
            endpoint: "https://api.example.com/expired".to_string(),
        },
    )
    .unwrap();
    assert_eq!(balance(&balances, USER1), 9850);

    // Before the deadline the permissionless poll is a no-op.
    exec_at(&mut state, &mut balances, deadline - 1, USER1, vec![], ExecuteMsg::RefundIfExpired {
        task_id: 1,
    })
    .unwrap();
    assert_eq!(balance(&balances, USER1), 9850);
    let task_response = query_task_by_id(&state, 1).unwrap();
    assert_eq!(task_response.task.status, TaskStatus::Escrowed);

    // From the deadline on it refunds in full.
    exec_at(&mut state, &mut balances, deadline, USER1, vec![], ExecuteMsg::RefundIfExpired {
        task_id: 1,
    })
    .unwrap();

    assert_eq!(balance(&balances, USER1), 10000);
    let task_response = query_task_by_id(&state, 1).unwrap();
    assert_eq!(task_response.task.status, TaskStatus::Refunded);
}

#[test]
fn test_invalid_zktls_proof() {
    let (mut state, mut balances) = fresh();
    register_users(&mut state, &mut balances);

    exec_at(
        &mut state,
        &mut balances,
        10,
        USER1,
        vec![coin(100)],
        ExecuteMsg::CreateTask {
            to_username: "bob".to_string(),
            amount: coin(100),
            description: "Invalid proof test".to_string(),
            proof_type: ProofType::ZkTLS,
            deadline_ts: get_future_timestamp(),
            review_window_secs: None,
            endpoint: "https://api.example.com/invalid".to_string(),
        },
    )
    .unwrap();

    let result = exec_at(
        &mut state,
        &mut balances,
        20,
        USER2,
        vec![],
        ExecuteMsg::SubmitZkTlsProof {
            task_id: 1,
            proof_blob_or_ref: "bad".to_string(),
            zk_proof_hash: "invalid_hash".to_string(),
        },
    );
    assert!(result.is_err());
}

#[test]
fn test_task_queries() {
    let (mut state, mut balances) = fresh();
    register_users(&mut state, &mut balances);

    for i in 0..3 {
        exec_at(
            &mut state,
            &mut balances,
            10,
            USER1,
            vec![],
            ExecuteMsg::CreateTask {
                to_username: "bob".to_string(),
                amount: coin(50),
                description: format!("Task {}", i + 1),
                proof_type: ProofType::Soft,
                deadline_ts: get_future_timestamp(),
                review_window_secs: None,
                endpoint: format!("https://api.example.com/task{}", i + 1),
            },
        )
        .unwrap();
    }

    let history = query_task_history(&state, "alice");
    assert_eq!(history.tasks.len(), 3);

    let pending = query_pending_tasks(&state, "alice");
    assert_eq!(pending.tasks.len(), 3);

    let task_response = query_task_by_id(&state, 1).unwrap();
    assert_eq!(task_response.task.payer, "alice");
    assert_eq!(task_response.task.worker, "bob");
}

#[test]
fn test_task_authorization_errors() {
    let (mut state, mut balances) = fresh();
    register_users(&mut state, &mut balances);

    exec_at(
        &mut state,
        &mut balances,
        10,
        USER1,
        vec![coin(100)],
        ExecuteMsg::CreateTask {
            to_username: "bob".to_string(),
            amount: coin(100),
            description: "Authorization test".to_string(),
            proof_type: ProofType::Hybrid,
            deadline_ts: get_future_timestamp(),
            review_window_secs: Some(3600),
            endpoint: "https://api.example.com/auth".to_string(),
        },
    )
    .unwrap();

    let result = exec_at(
        &mut state,
        &mut balances,
        20,
        USER3,
        vec![],
        ExecuteMsg::SubmitZkTlsProof {
            task_id: 1,
            proof_blob_or_ref: "valid_unauthorized_proof".to_string(),
            zk_proof_hash: "unauth_hash".to_string(),
        },
    );
    assert!(result.is_err());

    exec_at(
        &mut state,
        &mut balances,
        30,
        USER1,
        vec![],
        ExecuteMsg::CreateTask {
            to_username: "charlie".to_string(),
            amount: coin(100),
            description: "Soft task auth test".to_string(),
            proof_type: ProofType::Soft,
            deadline_ts: get_future_timestamp(),
            review_window_secs: None,
            endpoint: "https://api.example.com/soft".to_string(),
        },
    )
    .unwrap();

    let result = exec_at(&mut state, &mut balances, 40, USER2, vec![], ExecuteMsg::ApproveTask {
        task_id: 2,
    });
    assert!(result.is_err());
}

#[test]
fn test_cannot_create_task_with_self() {
    let (mut state, mut balances) = fresh();
    register_users(&mut state, &mut balances);

    let result = exec_at(
        &mut state,
        &mut balances,
        10,
        USER1,
        vec![coin(100)],
        ExecuteMsg::CreateTask {
            to_username: "alice".to_string(),
            amount: coin(100),
            description: "Self task".to_string(),
            proof_type: ProofType::Soft,
            deadline_ts: get_future_timestamp(),
            review_window_secs: None,
            endpoint: "https://api.example.com/self".to_string(),
        },
    );
    assert!(result.is_err());
}
