//! The call surface of the engine: the context every call carries, the
//! executable and query messages, the success payload with its transfer
//! orders, and the query response types.

use vstd::prelude::*;

use crate::state::Coin;
use crate::state::FriendRequest;
use crate::state::Payment;
use crate::state::ProofType;
use crate::state::Task;
use crate::state::User;

verus! {

/// Host context of a call: the block time, in seconds.
#[derive(Debug)]
pub struct Env {
    pub block_time: u64,
}

/// The authenticated caller and the funds attached to the call.
#[derive(Debug)]
pub struct MessageInfo {
    pub sender: String,
    pub funds: Vec<Coin>,
}

/// An order to the host ledger: move `amount` to `to_address`.  The engine
/// never performs transfers itself; it emits these in the same step as the
/// status transition that justifies them.
#[derive(Debug)]
pub struct TransferMsg {
    pub to_address: String,
    pub amount: Coin,
}

/// Success payload of an entry point: the identifier of a newly created
/// record, if one was created, and the transfer orders to perform.
#[derive(Debug)]
pub struct Response {
    pub record_id: Option<u64>,
    pub transfers: Vec<TransferMsg>,
}

/// Whether `t` orders `amount` units of `denom` to the wallet `to`.
pub open spec fn pays(t: TransferMsg, to: Seq<char>, denom: Seq<char>, amount: u128) -> bool {
    t.to_address@ == to && t.amount.denom@ == denom && t.amount.amount == amount
}

/// The view of an optional string payload.
pub open spec fn opt_view(o: Option<String>) -> Option<Seq<char>> {
    match o {
        Some(s) => Some(s@),
        None => Option::None,
    }
}

/// Instantiation message: the admin (arbiter) account, defaulting to the
/// instantiating caller.
#[derive(Debug)]
pub struct InstantiateMsg {
    pub admin: Option<String>,
}

/// Migration message; the engine has no migration state.
#[derive(Debug)]
pub struct MigrateMsg {}

/// The executable calls, routed by [`crate::contract::execute`].
#[derive(Debug)]
pub enum ExecuteMsg {
    RegisterUser { username: String, display_name: String },
    UpdateUserProfile { display_name: Option<String>, profile_picture: Option<String> },
    SendFriendRequest { to_username: String },
    AcceptFriendRequest { from_username: String },
    DeclineFriendRequest { from_username: String },
    RemoveFriend { username: String },
    SendDirectPayment { to_username: String, amount: Coin, description: String, proof_type: ProofType },
    CreatePaymentRequest { to_username: String, amount: Coin, description: String, proof_type: ProofType },
    CreateHelpRequest { to_username: String, amount: Coin, description: String, proof_type: ProofType },
    SubmitProof { payment_id: u64, proof_data: String },
    ApprovePayment { payment_id: u64 },
    RejectPayment { payment_id: u64 },
    CancelPayment { payment_id: u64 },
    CreateTask {
        to_username: String,
        amount: Coin,
        description: String,
        proof_type: ProofType,
        deadline_ts: u64,
        review_window_secs: Option<u64>,
        endpoint: String,
    },
    SubmitSoftEvidence { task_id: u64, evidence_hash: String },
    SubmitZkTlsProof { task_id: u64, proof_blob_or_ref: String, zk_proof_hash: String },
    ApproveTask { task_id: u64 },
    DisputeTask { task_id: u64, reason_hash: Option<String> },
    ResolveDispute { task_id: u64, decision: bool },
    ReleaseIfWindowElapsed { task_id: u64 },
    RefundIfExpired { task_id: u64 },
}

/// The queries, answered by [`crate::contract::query`].
#[derive(Debug)]
pub enum QueryMsg {
    GetUserByUsername { username: String },
    GetUserByWallet { wallet_address: String },
    IsUsernameAvailable { username: String },
    SearchUsers { query: String },
    GetUsernameByWallet { wallet_address: String },
    GetWalletByUsername { username: String },
    HasUsername { wallet_address: String },
    GetUserFriends { username: String },
    GetPendingRequests { username: String },
    AreFriends { username1: String, username2: String },
    GetPaymentById { payment_id: u64 },
    GetPaymentHistory { username: String },
    GetPendingPayments { username: String },
    GetTaskById { task_id: u64 },
    GetTaskHistory { username: String },
    GetPendingTasks { username: String },
    GetStats {},
}

/// The answer to a query, one variant per query message.
#[derive(Debug)]
pub enum QueryAnswer {
    User(UserResponse),
    Users(UsersResponse),
    UsernameAvailable(UsernameAvailableResponse),
    Username(UsernameResponse),
    Wallet(WalletResponse),
    HasUsername(HasUsernameResponse),
    Friends(FriendsResponse),
    FriendRequests(FriendRequestsResponse),
    AreFriends(AreFriendsResponse),
    Payment(PaymentResponse),
    Payments(PaymentsResponse),
    Task(TaskResponse),
    Tasks(TasksResponse),
    Stats(StatsResponse),
}

#[derive(Debug)]
pub struct UserResponse {
    pub user: User,
}

#[derive(Debug)]
pub struct UsersResponse {
    pub users: Vec<User>,
}

#[derive(Debug)]
pub struct UsernameAvailableResponse {
    pub available: bool,
}

#[derive(Debug)]
pub struct UsernameResponse {
    pub username: String,
}

#[derive(Debug)]
pub struct WalletResponse {
    pub wallet_address: String,
}

#[derive(Debug)]
pub struct HasUsernameResponse {
    pub has_username: bool,
}

#[derive(Debug)]
pub struct FriendsResponse {
    pub friends: Vec<String>,
}

#[derive(Debug)]
pub struct FriendRequestsResponse {
    pub requests: Vec<FriendRequest>,
}

#[derive(Debug)]
pub struct AreFriendsResponse {
    pub are_friends: bool,
}

#[derive(Debug)]
pub struct PaymentResponse {
    pub payment: Payment,
}

#[derive(Debug)]
pub struct PaymentsResponse {
    pub payments: Vec<Payment>,
}

#[derive(Debug)]
pub struct TaskResponse {
    pub task: Task,
}

#[derive(Debug)]
pub struct TasksResponse {
    pub tasks: Vec<Task>,
}

#[derive(Debug)]
pub struct StatsResponse {
    pub total_users: u64,
    pub total_payments: u64,
    pub total_volume: u128,
}

} // verus!
