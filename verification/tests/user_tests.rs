use proofpay::contract::execute;
use proofpay::contract::instantiate;
use proofpay::error::ContractError;
use proofpay::msg::Env;
use proofpay::msg::ExecuteMsg;
use proofpay::msg::InstantiateMsg;
use proofpay::msg::MessageInfo;
use proofpay::msg::Response;
use proofpay::queries::query_has_username;
use proofpay::queries::query_search_users;
use proofpay::queries::query_user_by_username;
use proofpay::queries::query_username_available;
use proofpay::queries::query_username_by_wallet;
use proofpay::queries::query_wallet_by_username;
use proofpay::state::ContractState;

const USER1: &str = "user1";
const USER2: &str = "user2";

fn fresh() -> ContractState {
    instantiate(
        InstantiateMsg { admin: None },
        &MessageInfo { sender: "admin".to_string(), funds: vec![] },
    )
}

fn exec(
    state: &mut ContractState,
    sender: &str,
    msg: ExecuteMsg,
) -> Result<Response, ContractError> {
    execute(
        state,
        &Env { block_time: 10 },
        &MessageInfo { sender: sender.to_string(), funds: vec![] },
        msg,
    )
}

fn register(state: &mut ContractState, wallet: &str, username: &str, display_name: &str) {
    exec(
        state,
        wallet,
        ExecuteMsg::RegisterUser {
            username: username.to_string(),
            display_name: display_name.to_string(),
        },
    )
    .unwrap();
}

#[test]
fn test_user_registration() {
    let mut state = fresh();

    register(&mut state, USER1, "alice", "Alice Smith");

    let user_response = query_user_by_username(&state, "alice").unwrap();
    assert_eq!(user_response.user.username, "alice");
    assert_eq!(user_response.user.display_name, "Alice Smith");
    assert_eq!(user_response.user.wallet_address, USER1);
}

#[test]
fn test_username_availability() {
    let mut state = fresh();

    let available = query_username_available(&state, "alice");
    assert!(available.available);

    register(&mut state, USER1, "alice", "Alice Smith");

    let available = query_username_available(&state, "alice");
    assert!(!available.available);
}

#[test]
fn test_search_users() {
    let mut state = fresh();
    register(&mut state, USER1, "alice", "Alice Smith");
    register(&mut state, USER2, "bob", "Bob Jones");
    register(&mut state, "user3", "charlie", "Charlie Brown");

    let found = query_search_users(&state, "alice");
    assert_eq!(found.users.len(), 1);
    assert_eq!(found.users[0].username, "alice");
}

#[test]
fn test_duplicate_username_registration() {
    let mut state = fresh();

    register(&mut state, USER1, "alice", "Alice Smith");

    let result = exec(
        &mut state,
        USER2,
        ExecuteMsg::RegisterUser {
            username: "alice".to_string(),
            display_name: "Alice Jones".to_string(),
        },
    );
    assert!(result.is_err());
}

#[test]
fn test_case_insensitive_username_registration() {
    let mut state = fresh();

    register(&mut state, USER1, "ALICE", "Alice Smith");

    let result = exec(
        &mut state,
        USER2,
        ExecuteMsg::RegisterUser {
            username: "alice".to_string(),
            display_name: "Alice Johnson".to_string(),
        },
    );
    assert!(result.is_err());

    let _found = query_user_by_username(&state, "alice").unwrap();
}

#[test]
fn test_username_validation() {
    let mut state = fresh();

    let result = exec(
        &mut state,
        USER1,
        ExecuteMsg::RegisterUser {
            username: "ab".to_string(),
            display_name: "Alice Smith".to_string(),
        },
    );
    assert!(result.is_err());

    let result = exec(
        &mut state,
        USER1,
        ExecuteMsg::RegisterUser {
            username: "a".repeat(51),
            display_name: "Alice Smith".to_string(),
        },
    );
    assert!(result.is_err());

    let result = exec(
        &mut state,
        USER1,
        ExecuteMsg::RegisterUser {
            username: "alice@test".to_string(),
            display_name: "Alice Smith".to_string(),
        },
    );
    assert!(result.is_err());

    let result = exec(
        &mut state,
        USER1,
        ExecuteMsg::RegisterUser {
            username: "alice_123".to_string(),
            display_name: "Alice Smith".to_string(),
        },
    );
    assert!(result.is_ok());
}

#[test]
fn test_new_username_queries() {
    let mut state = fresh();

    register(&mut state, USER1, "alice", "Alice Smith");

    let result = query_username_by_wallet(&state, USER1).unwrap();
    assert_eq!(result.username, "alice");

    let result = query_wallet_by_username(&state, "alice").unwrap();
    assert_eq!(result.wallet_address, USER1);

    let result = query_has_username(&state, USER1);
    assert!(result.has_username);

    let result = query_has_username(&state, USER2);
    assert!(!result.has_username);
}

#[test]
fn test_username_availability_validation() {
    let mut state = fresh();

    let result = query_username_available(&state, "ab");
    assert!(!result.available);

    let result = query_username_available(&state, "alice");
    assert!(result.available);

    register(&mut state, USER1, "alice", "Alice Smith");

    let result = query_username_available(&state, "ALICE");
    assert!(!result.available);
}
