use proofpay::contract::execute;
use proofpay::contract::instantiate;
use proofpay::error::ContractError;
use proofpay::msg::Env;
use proofpay::msg::ExecuteMsg;
use proofpay::msg::InstantiateMsg;
use proofpay::msg::MessageInfo;
use proofpay::msg::Response;
use proofpay::queries::query_are_friends;
use proofpay::queries::query_pending_requests;
use proofpay::queries::query_user_friends;
use proofpay::state::ContractState;

const USER1: &str = "user1";
const USER2: &str = "user2";

fn fresh() -> ContractState {
    instantiate(
        InstantiateMsg { admin: None },
        &MessageInfo { sender: "admin".to_string(), funds: vec![] },
    )
}

fn exec(
    state: &mut ContractState,
    sender: &str,
    msg: ExecuteMsg,
) -> Result<Response, ContractError> {
    execute(
        state,
        &Env { block_time: 10 },
        &MessageInfo { sender: sender.to_string(), funds: vec![] },
        msg,
    )
}

fn register_users(state: &mut ContractState) {
    exec(
        state,
        USER1,
        ExecuteMsg::RegisterUser {
            username: "alice".to_string(),
            display_name: "Alice Smith".to_string(),
        },
    )
    .unwrap();
    exec(
        state,
        USER2,
        ExecuteMsg::RegisterUser {
            username: "bob".to_string(),
            display_name: "Bob Jones".to_string(),
        },
    )
    .unwrap();
    exec(
        state,
        "user3",
        ExecuteMsg::RegisterUser {
            username: "charlie".to_string(),
            display_name: "Charlie Brown".to_string(),
        },
    )
    .unwrap();
}

#[test]
fn test_friend_request_lifecycle() {
    let mut state = fresh();
    register_users(&mut state);

    exec(&mut state, USER1, ExecuteMsg::SendFriendRequest { to_username: "bob".to_string() })
        .unwrap();

    let pending = query_pending_requests(&state, "bob");
    assert_eq!(pending.requests.len(), 1);
    assert_eq!(pending.requests[0].from_username, "alice");

    exec(&mut state, USER2, ExecuteMsg::AcceptFriendRequest { from_username: "alice".to_string() })
        .unwrap();

    let friends = query_are_friends(&state, "alice", "bob");
    assert!(friends.are_friends);

    let friends_list = query_user_friends(&state, "alice");
    assert_eq!(friends_list.friends.len(), 1);
    assert_eq!(friends_list.friends[0], "bob");
}

#[test]
fn test_remove_friend() {
    let mut state = fresh();
    register_users(&mut state);

    exec(&mut state, USER1, ExecuteMsg::SendFriendRequest { to_username: "bob".to_string() })
        .unwrap();
    exec(&mut state, USER2, ExecuteMsg::AcceptFriendRequest { from_username: "alice".to_string() })
        .unwrap();

    exec(&mut state, USER1, ExecuteMsg::RemoveFriend { username: "bob".to_string() }).unwrap();

    let friends = query_are_friends(&state, "alice", "bob");
    assert!(!friends.are_friends);
}

#[test]
fn test_send_friend_request_to_self() {
    let mut state = fresh();
    register_users(&mut state);

    let result = exec(
        &mut state,
        USER1,
        ExecuteMsg::SendFriendRequest { to_username: "alice".to_string() },
    );
    assert!(result.is_err());
}

#[test]
fn test_declined_request_stays_on_book() {
    let mut state = fresh();
    register_users(&mut state);

    exec(&mut state, USER1, ExecuteMsg::SendFriendRequest { to_username: "bob".to_string() })
        .unwrap();
    exec(
        &mut state,
        USER2,
        ExecuteMsg::DeclineFriendRequest { from_username: "alice".to_string() },
    )
    .unwrap();

    let pending = query_pending_requests(&state, "bob");
    assert_eq!(pending.requests.len(), 0);

    let result = exec(
        &mut state,
        USER1,
        ExecuteMsg::SendFriendRequest { to_username: "bob".to_string() },
    );
    assert_eq!(result.unwrap_err(), ContractError::FriendRequestAlreadyExists {});
}
