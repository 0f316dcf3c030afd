use proofpay::contract::execute;
use proofpay::contract::instantiate;
use proofpay::error::ContractError;
use proofpay::error::ErrorKind;
use proofpay::msg::Env;
use proofpay::msg::ExecuteMsg;
use proofpay::msg::InstantiateMsg;
use proofpay::msg::MessageInfo;
use proofpay::msg::Response;
use proofpay::state::Coin;
use proofpay::state::ContractState;
use proofpay::state::ProofType;

const USER1: &str = "user1";
const USER2: &str = "user2";
const USER3: &str = "user3";
const NATIVE_DENOM: &str = "uxion";
const FUTURE: u64 = 2524608000;

fn coin(amount: u128) -> Coin {
    Coin { denom: NATIVE_DENOM.to_string(), amount }
}

fn fresh() -> ContractState {
    instantiate(
        InstantiateMsg { admin: None },
        &MessageInfo { sender: "admin".to_string(), funds: vec![] },
    )
}

fn exec_at(
    state: &mut ContractState,
    now: u64,
    sender: &str,
    funds: Vec<Coin>,
    msg: ExecuteMsg,
) -> Result<Response, ContractError> {
    execute(
        state,
        &Env { block_time: now },
        &MessageInfo { sender: sender.to_string(), funds },
        msg,
    )
}

fn register_users(state: &mut ContractState) {
    for (wallet, name, display) in [
        (USER1, "alice", "Alice Smith"),
        (USER2, "bob", "Bob Jones"),
        (USER3, "charlie", "Charlie Brown"),
    ] {
        exec_at(
            state,
            10,
            wallet,
            vec![],
            ExecuteMsg::RegisterUser {
                username: name.to_string(),
                display_name: display.to_string(),
            },
        )
        .unwrap();
    }
}

#[test]
fn test_registration_error_variants() {
    let mut state = fresh();
    register_users(&mut state);

    let err = exec_at(&mut state, 10, "user4", vec![], ExecuteMsg::RegisterUser {
        username: "ab".to_string(),
        display_name: "Shorty".to_string(),
    })
    .unwrap_err();
    assert_eq!(err, ContractError::InvalidUsername {});
    assert_eq!(err.kind(), ErrorKind::Validation);

    let err = exec_at(&mut state, 10, "user4", vec![], ExecuteMsg::RegisterUser {
        username: "alice".to_string(),
        display_name: "Second Alice".to_string(),
    })
    .unwrap_err();
    assert_eq!(err, ContractError::UsernameAlreadyTaken {});
    assert_eq!(err.kind(), ErrorKind::StateConflict);

    let err = exec_at(&mut state, 10, USER1, vec![], ExecuteMsg::RegisterUser {
        username: "alice2".to_string(),
        display_name: "Alice Again".to_string(),
    })
    .unwrap_err();
    assert_eq!(err, ContractError::WalletAlreadyRegistered {});
}

#[test]
fn test_friend_error_variants() {
    let mut state = fresh();
    register_users(&mut state);

    let err = exec_at(&mut state, 10, USER1, vec![], ExecuteMsg::SendFriendRequest {
        to_username: "ALICE".to_string(),
    })
    .unwrap_err();
    assert_eq!(err, ContractError::CannotAddSelf {});

    let err = exec_at(&mut state, 10, USER1, vec![], ExecuteMsg::SendFriendRequest {
        to_username: "nobody".to_string(),
    })
    .unwrap_err();
    assert_eq!(err, ContractError::UserNotFound {});
    assert_eq!(err.kind(), ErrorKind::NotFound);

    let err = exec_at(&mut state, 10, USER2, vec![], ExecuteMsg::AcceptFriendRequest {
        from_username: "alice".to_string(),
    })
    .unwrap_err();
    assert_eq!(err, ContractError::FriendRequestNotFound {});

    let err = exec_at(&mut state, 10, USER1, vec![], ExecuteMsg::RemoveFriend {
        username: "bob".to_string(),
    })
    .unwrap_err();
    assert_eq!(err, ContractError::NotFriends {});

    exec_at(&mut state, 10, USER1, vec![], ExecuteMsg::SendFriendRequest {
        to_username: "bob".to_string(),
    })
    .unwrap();
    exec_at(&mut state, 10, USER2, vec![], ExecuteMsg::AcceptFriendRequest {
        from_username: "alice".to_string(),
    })
    .unwrap();

    let err = exec_at(&mut state, 10, USER2, vec![], ExecuteMsg::SendFriendRequest {
        to_username: "alice".to_string(),
    })
    .unwrap_err();
    assert_eq!(err, ContractError::AlreadyFriends {});
}

#[test]
fn test_payment_error_variants() {
    let mut state = fresh();
    register_users(&mut state);

    let err = exec_at(&mut state, 10, USER1, vec![coin(5)], ExecuteMsg::SendDirectPayment {
        to_username: "alice".to_string(),
        amount: coin(5),
        description: "Self".to_string(),
        proof_type: ProofType::NoProof,
    })
    .unwrap_err();
    assert_eq!(err, ContractError::CannotPaySelf {});

    let err = exec_at(&mut state, 10, USER1, vec![coin(5)], ExecuteMsg::SendDirectPayment {
        to_username: "bob".to_string(),
        amount: coin(50),
        description: "Short".to_string(),
        proof_type: ProofType::NoProof,
    })
    .unwrap_err();
    assert_eq!(err, ContractError::InsufficientFunds {});

    // A request under the no-evidence policy has nothing to submit.
    exec_at(&mut state, 10, USER1, vec![], ExecuteMsg::CreatePaymentRequest {
        to_username: "bob".to_string(),
        amount: coin(30),
        description: "No evidence wanted".to_string(),
        proof_type: ProofType::NoProof,
    })
    .unwrap();
    let err = exec_at(&mut state, 10, USER2, vec![], ExecuteMsg::SubmitProof {
        payment_id: 1,
        proof_data: "anything".to_string(),
    })
    .unwrap_err();
    assert_eq!(err, ContractError::NoProofRequired {});

    // A manual payment cannot be approved before the evidence arrives.
    exec_at(&mut state, 10, USER1, vec![coin(40)], ExecuteMsg::SendDirectPayment {
        to_username: "bob".to_string(),
        amount: coin(40),
        description: "Waits for evidence".to_string(),
        proof_type: ProofType::Manual,
    })
    .unwrap();
    let err = exec_at(&mut state, 10, USER1, vec![], ExecuteMsg::ApprovePayment {
        payment_id: 2,
    })
    .unwrap_err();
    assert_eq!(err, ContractError::ProofRequired {});

    // Only the creator cancels.
    let err = exec_at(&mut state, 10, USER2, vec![], ExecuteMsg::CancelPayment { payment_id: 2 })
        .unwrap_err();
    assert_eq!(err, ContractError::OnlySenderCanCancel {});

    // Cancelling twice reports the settled record.
    exec_at(&mut state, 10, USER1, vec![], ExecuteMsg::CancelPayment { payment_id: 2 }).unwrap();
    let err = exec_at(&mut state, 10, USER1, vec![], ExecuteMsg::CancelPayment { payment_id: 2 })
        .unwrap_err();
    assert_eq!(err, ContractError::PaymentAlreadyCancelled {});
    assert_eq!(err.kind(), ErrorKind::AlreadySettled);

    // Empty evidence is structurally malformed.
    exec_at(&mut state, 10, USER1, vec![], ExecuteMsg::CreatePaymentRequest {
        to_username: "bob".to_string(),
        amount: coin(10),
        description: "Wants evidence".to_string(),
        proof_type: ProofType::Photo,
    })
    .unwrap();
    let err = exec_at(&mut state, 10, USER2, vec![], ExecuteMsg::SubmitProof {
        payment_id: 3,
        proof_data: String::new(),
    })
    .unwrap_err();
    assert_eq!(err, ContractError::InvalidProof {});
    assert_eq!(err.kind(), ErrorKind::Proof);

    let err = exec_at(&mut state, 10, USER2, vec![], ExecuteMsg::SubmitProof {
        payment_id: 3,
        proof_data: "x".repeat(10001),
    })
    .unwrap_err();
    assert_eq!(err, ContractError::InvalidProof {});
}

#[test]
fn test_task_error_variants() {
    let mut state = fresh();
    register_users(&mut state);

    let err = exec_at(&mut state, 10, USER1, vec![coin(10)], ExecuteMsg::CreateTask {
        to_username: "alice".to_string(),
        amount: coin(10),
        description: "Self task".to_string(),
        proof_type: ProofType::Soft,
        deadline_ts: FUTURE,
        review_window_secs: None,
        endpoint: "https://api.example.com/self".to_string(),
    })
    .unwrap_err();
    assert_eq!(err, ContractError::CannotCreateTaskWithSelf {});

    let err = exec_at(&mut state, 10, USER1, vec![coin(10)], ExecuteMsg::CreateTask {
        to_username: "bob".to_string(),
        amount: coin(10),
        description: "Payment policy on a task".to_string(),
        proof_type: ProofType::Photo,
        deadline_ts: FUTURE,
        review_window_secs: None,
        endpoint: "https://api.example.com/policy".to_string(),
    })
    .unwrap_err();
    assert_eq!(err, ContractError::InvalidProofType {});

    let err = exec_at(&mut state, 10, USER1, vec![], ExecuteMsg::ApproveTask { task_id: 9 })
        .unwrap_err();
    assert_eq!(err, ContractError::TaskNotFound {});

    exec_at(&mut state, 10, USER1, vec![coin(80)], ExecuteMsg::CreateTask {
        to_username: "bob".to_string(),
        amount: coin(80),
        description: "Hybrid flow".to_string(),
        proof_type: ProofType::Hybrid,
        deadline_ts: FUTURE,
        review_window_secs: Some(3600),
        endpoint: "https://api.example.com/flow".to_string(),
    })
    .unwrap();

    let err = exec_at(&mut state, 20, USER3, vec![], ExecuteMsg::SubmitZkTlsProof {
        task_id: 1,
        proof_blob_or_ref: "valid_but_not_mine".to_string(),
        zk_proof_hash: "h".to_string(),
    })
    .unwrap_err();
    assert_eq!(err, ContractError::TaskNotAuthorized {});
    assert_eq!(err.kind(), ErrorKind::Authorization);

    // Before any accepted proof the record is not pending release.
    let err = exec_at(&mut state, 20, USER3, vec![], ExecuteMsg::ReleaseIfWindowElapsed {
        task_id: 1,
    })
    .unwrap_err();
    assert_eq!(err, ContractError::TaskNotPendingRelease {});

    let err = exec_at(&mut state, 20, USER2, vec![], ExecuteMsg::SubmitZkTlsProof {
        task_id: 1,
        proof_blob_or_ref: "bad".to_string(),
        zk_proof_hash: "h".to_string(),
    })
    .unwrap_err();
    assert_eq!(err, ContractError::ZkTlsVerificationFailed {});

    exec_at(&mut state, 30, USER2, vec![], ExecuteMsg::SubmitZkTlsProof {
        task_id: 1,
        proof_blob_or_ref: "valid_flow_proof".to_string(),
        zk_proof_hash: "h".to_string(),
    })
    .unwrap();

    // A second attestation on a parked record is a conflict.
    let err = exec_at(&mut state, 40, USER2, vec![], ExecuteMsg::SubmitZkTlsProof {
        task_id: 1,
        proof_blob_or_ref: "valid_flow_proof".to_string(),
        zk_proof_hash: "h".to_string(),
    })
    .unwrap_err();
    assert_eq!(err, ContractError::ProofAlreadySubmitted {});

    // A parked record cannot be expiry-refunded.
    let err = exec_at(&mut state, FUTURE, USER1, vec![], ExecuteMsg::RefundIfExpired {
        task_id: 1,
    })
    .unwrap_err();
    assert_eq!(err, ContractError::ProofAlreadySubmitted {});

    // The arbiter cannot resolve what is not disputed.
    let err = exec_at(&mut state, 40, "admin", vec![], ExecuteMsg::ResolveDispute {
        task_id: 1,
        decision: true,
    })
    .unwrap_err();
    assert_eq!(err, ContractError::TaskNotInDispute {});

    // Soft tasks need the whole amount attached at approval.
    exec_at(&mut state, 40, USER1, vec![], ExecuteMsg::CreateTask {
        to_username: "bob".to_string(),
        amount: coin(60),
        description: "Soft funding".to_string(),
        proof_type: ProofType::Soft,
        deadline_ts: FUTURE,
        review_window_secs: None,
        endpoint: "https://api.example.com/fund".to_string(),
    })
    .unwrap();
    exec_at(&mut state, 50, USER2, vec![], ExecuteMsg::SubmitSoftEvidence {
        task_id: 2,
        evidence_hash: "done".to_string(),
    })
    .unwrap();
    let err = exec_at(&mut state, 60, USER1, vec![coin(59)], ExecuteMsg::ApproveTask {
        task_id: 2,
    })
    .unwrap_err();
    assert_eq!(err, ContractError::InsufficientFunds {});

    let err = exec_at(&mut state, 60, USER2, vec![coin(60)], ExecuteMsg::ApproveTask {
        task_id: 2,
    })
    .unwrap_err();
    assert_eq!(err, ContractError::OnlyPayerCanApproveSoft {});
}
