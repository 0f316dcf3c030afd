//! The settlement entry points for accounts, the social graph and payment
//! records, and the dispatchers that route calls to them.
//!
//! Every entry point validates the caller and the record's current status
//! before mutating anything: a rejected call returns its error with the
//! store untouched, a successful call commits the status transition and the
//! transfer orders it justifies in one step.

use vstd::prelude::*;

use crate::error::ContractError;
use crate::msg::Env;
use crate::msg::ExecuteMsg;
use crate::msg::InstantiateMsg;
use crate::msg::MessageInfo;
use crate::msg::QueryAnswer;
use crate::msg::QueryMsg;
use crate::msg::Response;
use crate::msg::TransferMsg;
use crate::msg::opt_view;
use crate::msg::pays;
use crate::state::Coin;
use crate::state::Config;
use crate::state::ContractState;
use crate::state::MAX_DESCRIPTION_LEN;
use crate::state::MAX_PROOF_SIZE;
use crate::state::FriendRequest;
use crate::state::FriendRequestStatus;
use crate::state::Friendship;
use crate::state::Payment;
use crate::state::PaymentStatus;
use crate::state::PaymentType;
use crate::state::ProofType;
use crate::state::Stats;
use crate::state::Task;
use crate::state::User;
use crate::state::validate_username;
use crate::state::exact_name_idx;
use crate::state::find_friendship;
use crate::state::find_request;
use crate::state::find_user_by_exact_name;
use crate::state::find_user_by_name;
use crate::state::find_user_by_wallet;
use crate::state::friends_dir;
use crate::state::friendship_between;
use crate::state::friendship_matches;
use crate::state::has_name;
use crate::state::has_request;
use crate::state::has_wallet;
use crate::state::lemma_exact_name_idx;
use crate::state::lemma_name_idx;
use crate::state::lemma_request_idx;
use crate::state::lemma_wallet_idx;
use crate::state::name_idx;
use crate::state::request_idx;
use crate::state::request_matches;
use crate::state::requests_wf;
use crate::state::attached_amount;
use crate::state::payment_beneficiary;
use crate::state::payment_escrows;
use crate::state::payment_funder;
use crate::state::payment_policy;
use crate::state::payment_terminal;
use crate::state::payment_wf;
use crate::state::sender_name;
use crate::state::sent_amount;
use crate::state::task_wf;
use crate::state::users_wf;
use crate::state::valid_username;
use crate::state::wallet_idx;
use crate::state::wallet_of;
use crate::state::wf;
use crate::text::eq_ignore_case;
use crate::text::fold;

verus! {

/// The friendship graph and the request book are unchanged.
pub open spec fn same_social(a: ContractState, b: ContractState) -> bool {
    b.friendships@ == a.friendships@ && b.friend_requests@ == a.friend_requests@
}

/// The payment records and their escrow entries are unchanged.
pub open spec fn same_payments(a: ContractState, b: ContractState) -> bool {
    b.payments@ == a.payments@ && b.payment_escrow@ == a.payment_escrow@
}

/// The task records and their escrow entries are unchanged.
pub open spec fn same_tasks(a: ContractState, b: ContractState) -> bool {
    b.tasks@ == a.tasks@ && b.task_escrow@ == a.task_escrow@
}

/// The account directory is unchanged.
pub open spec fn same_users(a: ContractState, b: ContractState) -> bool {
    b.users@ == a.users@
}

/// Admin configuration and the identifier counters are unchanged.
pub open spec fn same_admin_counters(a: ContractState, b: ContractState) -> bool {
    b.config.admin@ == a.config.admin@ && b.next_payment_id == a.next_payment_id
        && b.next_task_id == a.next_task_id
}

/// The aggregate counters are unchanged.
pub open spec fn same_stats(a: ContractState, b: ContractState) -> bool {
    b.stats.total_users == a.stats.total_users && b.stats.total_payments == a.stats.total_payments
        && b.stats.total_volume == a.stats.total_volume
}

/// A success payload that created no record and orders no transfer.
pub open spec fn quiet_response(r: Response) -> bool {
    r.record_id is None && r.transfers@.len() == 0
}

/// Saturating addition on 128-bit amounts, for the volume counter.
pub open spec fn sat_add_u128(a: u128, b: u128) -> u128 {
    if a + b > u128::MAX {
        u128::MAX
    } else {
        (a + b) as u128
    }
}

fn saturating_add_u128(a: u128, b: u128) -> (r: u128)
    ensures
        r == sat_add_u128(a, b),
{
    if a <= u128::MAX - b {
        a + b
    } else {
        u128::MAX
    }
}

pub(crate) fn quiet_ok() -> (r: Response)
    ensures
        quiet_response(r),
{
    Response { record_id: None, transfers: Vec::new() }
}

/// Set up an empty store.  The admin account, which is also the arbiter
/// for disputed tasks, is the given one, or the instantiating caller.
pub fn instantiate(msg: InstantiateMsg, info: &MessageInfo) -> (s: ContractState)
    ensures
        wf(s),
        s.config.admin@ == (match msg.admin {
            Some(a) => a@,
            None => info.sender@,
        }),
        s.users@.len() == 0,
        s.friendships@.len() == 0,
        s.friend_requests@.len() == 0,
        s.payments@.len() == 0,
        s.tasks@.len() == 0,
        s.next_payment_id == 1,
        s.next_task_id == 1,
        s.stats.total_users == 0,
        s.stats.total_payments == 0,
        s.stats.total_volume == 0,
{
    let admin = match msg.admin {
        Some(a) => a,
        None => info.sender.clone(),
    };
    ContractState {
        config: Config { admin },
        next_payment_id: 1,
        next_task_id: 1,
        users: Vec::new(),
        friendships: Vec::new(),
        friend_requests: Vec::new(),
        payments: Vec::new(),
        payment_escrow: Vec::new(),
        tasks: Vec::new(),
        task_escrow: Vec::new(),
        stats: Stats { total_users: 0, total_payments: 0, total_volume: 0 },
    }
}

/// Why a registration is rejected, if it is: an invalid handle, a handle
/// already taken (up to case folding), or a wallet already registered.
pub open spec fn register_check(s: ContractState, sender: Seq<char>, username: Seq<char>) -> Option<
    ContractError,
> {
    if !valid_username(username) {
        Some(ContractError::InvalidUsername {})
    } else if has_name(s.users@, username) {
        Some(ContractError::UsernameAlreadyTaken {})
    } else if has_wallet(s.users@, sender) {
        Some(ContractError::WalletAlreadyRegistered {})
    } else {
        Option::None
    }
}

/// What a successful registration did: one new account at the end of the
/// directory carrying the caller's wallet and the given handle, the user
/// counter advanced, and nothing else changed.
pub open spec fn register_user_ok(
    pre: ContractState,
    post: ContractState,
    resp: Response,
    now: u64,
    sender: Seq<char>,
    username: Seq<char>,
    display_name: Seq<char>,
) -> bool {
    &&& post.users@.len() == pre.users@.len() + 1
    &&& (forall|j: int| 0 <= j < pre.users@.len() ==> post.users@[j] == pre.users@[j])
    &&& post.users@.last().wallet_address@ == sender
    &&& post.users@.last().username@ == username
    &&& post.users@.last().display_name@ == display_name
    &&& post.users@.last().profile_picture is None
    &&& post.users@.last().created_at == now
    &&& post.users@.last().updated_at == now
    &&& same_social(pre, post)
    &&& same_payments(pre, post)
    &&& same_tasks(pre, post)
    &&& same_admin_counters(pre, post)
    &&& post.stats.total_users == pre.stats.total_users + 1
    &&& post.stats.total_payments == pre.stats.total_payments
    &&& post.stats.total_volume == pre.stats.total_volume
    &&& quiet_response(resp)
}

/// Register the calling wallet under a new handle.
pub fn execute_register_user(
    state: &mut ContractState,
    now: u64,
    sender: &str,
    username: String,
    display_name: String,
) -> (r: Result<Response, ContractError>)
    requires
        wf(*old(state)),
        old(state).stats.total_users < u64::MAX,
    ensures
        wf(*final(state)),
        r is Err <==> register_check(*old(state), sender@, username@) is Some,
        r is Err ==> register_check(*old(state), sender@, username@) == Some(r->Err_0) && *final(state) == *old(state),
        r is Ok ==> register_user_ok(
            *old(state),
            *final(state),
            r->Ok_0,
            now,
            sender@,
            username@,
            display_name@,
        ),
{
    if !validate_username(username.as_str()) {
        return Err(ContractError::InvalidUsername {});
    }
    match find_user_by_name(&state.users, username.as_str()) {
        Some(i) => {
            proof {
                assert((i as int) < state.users@.len() && fold(
                    (#[trigger] state.users@[i as int]).username@,
                ) == fold(username@));
                assert(has_name(state.users@, username@));
            }
            return Err(ContractError::UsernameAlreadyTaken {});
        },
        None => {},
    }
    match find_user_by_wallet(&state.users, sender) {
        Some(i) => {
            proof {
                assert((i as int) < state.users@.len() && (#[trigger] state.users@[
                i as int]).wallet_address@ == sender@);
                assert(has_wallet(state.users@, sender@));
            }
            return Err(ContractError::WalletAlreadyRegistered {});
        },
        None => {},
    }
    let ghost pre = *state;
    let user = User {
        wallet_address: sender.to_owned(),
        username,
        display_name,
        profile_picture: Option::None,
        created_at: now,
        updated_at: now,
    };
    state.users.push(user);
    state.stats.total_users = state.stats.total_users + 1;
    proof {
        let us = state.users@;
        let n = us.len() - 1;
        assert forall|i: int| 0 <= i < us.len() implies valid_username(
            (#[trigger] us[i]).username@,
        ) by {
            if i < n {
                assert(us[i] == pre.users@[i]);
                assert(valid_username(pre.users@[i].username@));
            }
        }
        assert forall|i: int, j: int|
            #![trigger us[i], us[j]]
            0 <= i < j < us.len() implies fold(us[i].username@) != fold(us[j].username@)
            && us[i].wallet_address@ != us[j].wallet_address@ by {
            if j < n {
                assert(us[i] == pre.users@[i] && us[j] == pre.users@[j]);
                assert(users_wf(pre.users@));
            } else {
                assert(us[i] == pre.users@[i]);
                assert(!(fold((#[trigger] pre.users@[i]).username@) == fold(us[n].username@)));
                assert(!((#[trigger] pre.users@[i]).wallet_address@ == us[n].wallet_address@));
            }
        }
        assert(users_wf(us));
        assert forall|i: int| 0 <= i < state.payments@.len() implies #[trigger] payment_wf(
            us,
            state.payments@[i],
            state.payment_escrow@[i],
            i,
        ) by {
            assert(payment_wf(pre.users@, pre.payments@[i], pre.payment_escrow@[i], i));
            let p = pre.payments@[i];
            let a = exact_name_idx(pre.users@, p.from_username@);
            assert(us[a] == pre.users@[a]);
            let b = exact_name_idx(pre.users@, p.to_username@);
            assert(us[b] == pre.users@[b]);
        }
        assert forall|i: int| 0 <= i < state.tasks@.len() implies #[trigger] task_wf(
            us,
            state.tasks@[i],
            state.task_escrow@[i],
            i,
        ) by {
            assert(task_wf(pre.users@, pre.tasks@[i], pre.task_escrow@[i], i));
            let t = pre.tasks@[i];
            let a = exact_name_idx(pre.users@, t.payer@);
            assert(us[a] == pre.users@[a]);
            let b = exact_name_idx(pre.users@, t.worker@);
            assert(us[b] == pre.users@[b]);
        }
    }
    Ok(quiet_ok())
}

/// Why a profile update is rejected: the caller is not registered.
pub open spec fn profile_check(s: ContractState, sender: Seq<char>) -> Option<ContractError> {
    if !has_wallet(s.users@, sender) {
        Some(ContractError::UserNotRegistered {})
    } else {
        Option::None
    }
}

/// What a successful profile update did: the caller's account carries the
/// new display name and, or, picture, its update time is stamped, and
/// nothing else changed.
pub open spec fn update_profile_ok(
    pre: ContractState,
    post: ContractState,
    resp: Response,
    now: u64,
    sender: Seq<char>,
    display_name: Option<Seq<char>>,
    profile_picture: Option<Seq<char>>,
) -> bool {
    let i = wallet_idx(pre.users@, sender);
    let u0 = pre.users@[i];
    let u1 = post.users@[i];
    &&& post.users@.len() == pre.users@.len()
    &&& (forall|j: int| 0 <= j < pre.users@.len() && j != i ==> post.users@[j] == pre.users@[j])
    &&& u1 == (User {
        display_name: u1.display_name,
        profile_picture: u1.profile_picture,
        updated_at: now,
        ..u0
    })
    &&& u1.display_name@ == (match display_name {
        Some(d) => d,
        None => u0.display_name@,
    })
    &&& (match profile_picture {
        Some(p) => u1.profile_picture is Some && u1.profile_picture->0@ == p,
        None => u1.profile_picture == u0.profile_picture,
    })
    &&& same_social(pre, post)
    &&& same_payments(pre, post)
    &&& same_tasks(pre, post)
    &&& same_admin_counters(pre, post)
    &&& same_stats(pre, post)
    &&& quiet_response(resp)
}

/// Update the caller's display name and, or, profile picture.
pub fn execute_update_user_profile(
    state: &mut ContractState,
    now: u64,
    sender: &str,
    display_name: Option<String>,
    profile_picture: Option<String>,
) -> (r: Result<Response, ContractError>)
    requires
        wf(*old(state)),
    ensures
        wf(*final(state)),
        r is Err <==> profile_check(*old(state), sender@) is Some,
        r is Err ==> profile_check(*old(state), sender@) == Some(r->Err_0) && *final(state) == *old(state),
        r is Ok ==> update_profile_ok(
            *old(state),
            *final(state),
            r->Ok_0,
            now,
            sender@,
            opt_view(display_name),
            opt_view(profile_picture),
        ),
{
    let found = find_user_by_wallet(&state.users, sender);
    let i = match found {
        Some(i) => i,
        None => { return Err(ContractError::UserNotRegistered {}) },
    };
    proof {
        lemma_wallet_idx(state.users@, sender@, i as int);
    }
    let ghost pre = *state;
    let u = &mut state.users[i];
    match display_name {
        Some(d) => {
            u.display_name = d;
        },
        None => {},
    }
    match profile_picture {
        Some(p) => {
            u.profile_picture = Some(p);
        },
        None => {},
    }
    u.updated_at = now;
    proof {
        let us = state.users@;
        assert(us == pre.users@.update(i as int, us[i as int]));
        assert forall|a: int| 0 <= a < us.len() implies valid_username(
            (#[trigger] us[a]).username@,
        ) by {
            assert(valid_username(pre.users@[a].username@));
        }
        assert forall|a: int, b: int|
            #![trigger us[a], us[b]]
            0 <= a < b < us.len() implies fold(us[a].username@) != fold(us[b].username@)
            && us[a].wallet_address@ != us[b].wallet_address@ by {
            assert(users_wf(pre.users@));
            assert(pre.users@[a].username@ == us[a].username@);
            assert(pre.users@[b].username@ == us[b].username@);
            assert(pre.users@[a].wallet_address@ == us[a].wallet_address@);
            assert(pre.users@[b].wallet_address@ == us[b].wallet_address@);
        }
        assert forall|a: int| 0 <= a < state.payments@.len() implies #[trigger] payment_wf(
            us,
            state.payments@[a],
            state.payment_escrow@[a],
            a,
        ) by {
            assert(payment_wf(pre.users@, pre.payments@[a], pre.payment_escrow@[a], a));
            let p = pre.payments@[a];
            let x = exact_name_idx(pre.users@, p.from_username@);
            assert(us[x].username@ == pre.users@[x].username@);
            let y = exact_name_idx(pre.users@, p.to_username@);
            assert(us[y].username@ == pre.users@[y].username@);
        }
        assert forall|a: int| 0 <= a < state.tasks@.len() implies #[trigger] task_wf(
            us,
            state.tasks@[a],
            state.task_escrow@[a],
            a,
        ) by {
            assert(task_wf(pre.users@, pre.tasks@[a], pre.task_escrow@[a], a));
            let t = pre.tasks@[a];
            let x = exact_name_idx(pre.users@, t.payer@);
            assert(us[x].username@ == pre.users@[x].username@);
            let y = exact_name_idx(pre.users@, t.worker@);
            assert(us[y].username@ == pre.users@[y].username@);
        }
    }
    Ok(quiet_ok())
}

/// Why sending a friend request is rejected: unregistered caller, a
/// request to oneself, an unknown addressee, an existing friendship in
/// either direction, or a request already on the book.
pub open spec fn send_request_check(s: ContractState, sender: Seq<char>, to: Seq<char>) -> Option<
    ContractError,
> {
    if !has_wallet(s.users@, sender) {
        Some(ContractError::UserNotRegistered {})
    } else {
        let from = sender_name(s.users@, sender);
        if fold(from) == fold(to) {
            Some(ContractError::CannotAddSelf {})
        } else if !has_name(s.users@, to) {
            Some(ContractError::UserNotFound {})
        } else if friends_dir(s.friendships@, from, to) || friends_dir(s.friendships@, to, from) {
            Some(ContractError::AlreadyFriends {})
        } else if has_request(s.friend_requests@, from, to) {
            Some(ContractError::FriendRequestAlreadyExists {})
        } else {
            Option::None
        }
    }
}

/// What a successfully sent friend request did: one new pending request at
/// the end of the book, from the caller's registered handle to the
/// addressee's, and nothing else changed.
pub open spec fn send_request_ok(
    pre: ContractState,
    post: ContractState,
    resp: Response,
    now: u64,
    sender: Seq<char>,
    to: Seq<char>,
) -> bool {
    let from = sender_name(pre.users@, sender);
    let rq = post.friend_requests@.last();
    &&& post.friend_requests@.len() == pre.friend_requests@.len() + 1
    &&& (forall|j: int|
        0 <= j < pre.friend_requests@.len() ==> post.friend_requests@[j]
            == pre.friend_requests@[j])
    &&& rq.from_username@ == from
    &&& rq.to_username@ == pre.users@[name_idx(pre.users@, to)].username@
    &&& rq.status is Pending
    &&& rq.created_at == now
    &&& rq.updated_at == now
    &&& post.friendships@ == pre.friendships@
    &&& same_users(pre, post)
    &&& same_payments(pre, post)
    &&& same_tasks(pre, post)
    &&& same_admin_counters(pre, post)
    &&& same_stats(pre, post)
    &&& quiet_response(resp)
}

/// Put a friend request from the caller to `to_username` on the book.
pub fn execute_send_friend_request(
    state: &mut ContractState,
    now: u64,
    sender: &str,
    to_username: String,
) -> (r: Result<Response, ContractError>)
    requires
        wf(*old(state)),
    ensures
        wf(*final(state)),
        r is Err <==> send_request_check(*old(state), sender@, to_username@) is Some,
        r is Err ==> send_request_check(*old(state), sender@, to_username@) == Some(r->Err_0)
            && *final(state) == *old(state),
        r is Ok ==> send_request_ok(
            *old(state),
            *final(state),
            r->Ok_0,
            now,
            sender@,
            to_username@,
        ),
{
    let iu = match find_user_by_wallet(&state.users, sender) {
        Some(i) => i,
        None => { return Err(ContractError::UserNotRegistered {}) },
    };
    proof {
        lemma_wallet_idx(state.users@, sender@, iu as int);
    }
    let from = state.users[iu].username.clone();
    if eq_ignore_case(from.as_str(), to_username.as_str()) {
        return Err(ContractError::CannotAddSelf {});
    }
    let jt = match find_user_by_name(&state.users, to_username.as_str()) {
        Some(j) => j,
        None => { return Err(ContractError::UserNotFound {}) },
    };
    match find_friendship(&state.friendships, from.as_str(), to_username.as_str()) {
        Some(k) => {
            proof {
                assert(friendship_matches(
                    #[trigger] state.friendships@[k as int],
                    from@,
                    to_username@,
                ));
            }
            return Err(ContractError::AlreadyFriends {});
        },
        None => {},
    }
    match find_friendship(&state.friendships, to_username.as_str(), from.as_str()) {
        Some(k) => {
            proof {
                assert(friendship_matches(
                    #[trigger] state.friendships@[k as int],
                    to_username@,
                    from@,
                ));
            }
            return Err(ContractError::AlreadyFriends {});
        },
        None => {},
    }
    match find_request(&state.friend_requests, from.as_str(), to_username.as_str()) {
        Some(k) => {
            proof {
                assert(request_matches(
                    #[trigger] state.friend_requests@[k as int],
                    from@,
                    to_username@,
                ));
            }
            return Err(ContractError::FriendRequestAlreadyExists {});
        },
        None => {},
    }
    let ghost pre = *state;
    let to_name = state.users[jt].username.clone();
    let rq = FriendRequest {
        from_username: from,
        to_username: to_name,
        status: FriendRequestStatus::Pending,
        created_at: now,
        updated_at: now,
    };
    state.friend_requests.push(rq);
    proof {
        lemma_name_idx(pre.users@, to_username@, jt as int);
        let rs = state.friend_requests@;
        let n = rs.len() - 1;
        assert forall|a: int, b: int|
            #![trigger rs[a], rs[b]]
            0 <= a < b < rs.len() implies !(fold(rs[a].from_username@) == fold(
            rs[b].from_username@,
        ) && fold(rs[a].to_username@) == fold(rs[b].to_username@)) by {
            if b < n {
                assert(rs[a] == pre.friend_requests@[a] && rs[b] == pre.friend_requests@[b]);
                assert(requests_wf(pre.friend_requests@));
            } else {
                assert(rs[a] == pre.friend_requests@[a]);
                if fold(rs[a].from_username@) == fold(rs[n].from_username@) && fold(
                    rs[a].to_username@,
                ) == fold(rs[n].to_username@) {
                    assert(request_matches(
                        #[trigger] pre.friend_requests@[a],
                        sender_name(pre.users@, sender@),
                        to_username@,
                    ));
                }
            }
        }
    }
    Ok(quiet_ok())
}

/// Why answering a friend request fails: unregistered caller or no such
/// request.
pub open spec fn answer_request_check(
    s: ContractState,
    sender: Seq<char>,
    from: Seq<char>,
) -> Option<ContractError> {
    if !has_wallet(s.users@, sender) {
        Some(ContractError::UserNotRegistered {})
    } else if !has_request(s.friend_requests@, from, sender_name(s.users@, sender)) {
        Some(ContractError::FriendRequestNotFound {})
    } else {
        Option::None
    }
}

/// What a successful acceptance did: the request is marked accepted with
/// the answer time, the friendship is recorded in both directions, and
/// nothing else changed.
pub open spec fn accept_request_ok(
    pre: ContractState,
    post: ContractState,
    resp: Response,
    now: u64,
    sender: Seq<char>,
    from: Seq<char>,
) -> bool {
    let to = sender_name(pre.users@, sender);
    let k = request_idx(pre.friend_requests@, from, to);
    let rq0 = pre.friend_requests@[k];
    &&& post.friend_requests@ == pre.friend_requests@.update(
        k,
        (FriendRequest { status: FriendRequestStatus::Accepted, updated_at: now, ..rq0 }),
    )
    &&& post.friendships@.len() == pre.friendships@.len() + 2
    &&& (forall|j: int|
        0 <= j < pre.friendships@.len() ==> post.friendships@[j] == pre.friendships@[j])
    &&& friendship_matches(
        post.friendships@[pre.friendships@.len() as int],
        rq0.from_username@,
        to,
    )
    &&& friendship_matches(post.friendships@.last(), to, rq0.from_username@)
    &&& post.friendships@.last().created_at == now
    &&& post.friendships@[pre.friendships@.len() as int].created_at == now
    &&& same_users(pre, post)
    &&& same_payments(pre, post)
    &&& same_tasks(pre, post)
    &&& same_admin_counters(pre, post)
    &&& same_stats(pre, post)
    &&& quiet_response(resp)
}

/// Accept the friend request from `from_username` to the caller: the
/// request is marked accepted and the friendship is recorded in both
/// directions.
pub fn execute_accept_friend_request(
    state: &mut ContractState,
    now: u64,
    sender: &str,
    from_username: String,
) -> (r: Result<Response, ContractError>)
    requires
        wf(*old(state)),
    ensures
        wf(*final(state)),
        r is Err <==> answer_request_check(*old(state), sender@, from_username@) is Some,
        r is Err ==> answer_request_check(*old(state), sender@, from_username@) == Some(r->Err_0)
            && *final(state) == *old(state),
        r is Ok ==> accept_request_ok(
            *old(state),
            *final(state),
            r->Ok_0,
            now,
            sender@,
            from_username@,
        ),
{
    let iu = match find_user_by_wallet(&state.users, sender) {
        Some(i) => i,
        None => { return Err(ContractError::UserNotRegistered {}) },
    };
    proof {
        lemma_wallet_idx(state.users@, sender@, iu as int);
    }
    let to_name = state.users[iu].username.clone();
    let k = match find_request(&state.friend_requests, from_username.as_str(), to_name.as_str()) {
        Some(k) => k,
        None => { return Err(ContractError::FriendRequestNotFound {}) },
    };
    proof {
        lemma_request_idx(state.friend_requests@, from_username@, to_name@, k as int);
    }
    let ghost pre = *state;
    let from_canon = state.friend_requests[k].from_username.clone();
    let rq = &mut state.friend_requests[k];
    rq.status = FriendRequestStatus::Accepted;
    rq.updated_at = now;
    let f1 = Friendship { user1: from_canon.clone(), user2: to_name.clone(), created_at: now };
    let f2 = Friendship { user1: to_name, user2: from_canon, created_at: now };
    state.friendships.push(f1);
    state.friendships.push(f2);
    proof {
        let rs = state.friend_requests@;
        assert(rs == pre.friend_requests@.update(k as int, rs[k as int]));
        assert forall|a: int, b: int|
            #![trigger rs[a], rs[b]]
            0 <= a < b < rs.len() implies !(fold(rs[a].from_username@) == fold(
            rs[b].from_username@,
        ) && fold(rs[a].to_username@) == fold(rs[b].to_username@)) by {
            assert(requests_wf(pre.friend_requests@));
            assert(rs[a].from_username@ == pre.friend_requests@[a].from_username@);
            assert(rs[a].to_username@ == pre.friend_requests@[a].to_username@);
            assert(rs[b].from_username@ == pre.friend_requests@[b].from_username@);
            assert(rs[b].to_username@ == pre.friend_requests@[b].to_username@);
        }
    }
    Ok(quiet_ok())
}

/// What a successful decline did: the request is marked declined with the
/// answer time, it stays on the book, and nothing else changed.
pub open spec fn decline_request_ok(
    pre: ContractState,
    post: ContractState,
    resp: Response,
    now: u64,
    sender: Seq<char>,
    from: Seq<char>,
) -> bool {
    let to = sender_name(pre.users@, sender);
    let k = request_idx(pre.friend_requests@, from, to);
    let rq0 = pre.friend_requests@[k];
    &&& post.friend_requests@ == pre.friend_requests@.update(
        k,
        (FriendRequest { status: FriendRequestStatus::Declined, updated_at: now, ..rq0 }),
    )
    &&& post.friendships@ == pre.friendships@
    &&& same_users(pre, post)
    &&& same_payments(pre, post)
    &&& same_tasks(pre, post)
    &&& same_admin_counters(pre, post)
    &&& same_stats(pre, post)
    &&& quiet_response(resp)
}

/// Decline the friend request from `from_username` to the caller.  The
/// request stays on the book, marked declined.
pub fn execute_decline_friend_request(
    state: &mut ContractState,
    now: u64,
    sender: &str,
    from_username: String,
) -> (r: Result<Response, ContractError>)
    requires
        wf(*old(state)),
    ensures
        wf(*final(state)),
        r is Err <==> answer_request_check(*old(state), sender@, from_username@) is Some,
        r is Err ==> answer_request_check(*old(state), sender@, from_username@) == Some(r->Err_0)
            && *final(state) == *old(state),
        r is Ok ==> decline_request_ok(
            *old(state),
            *final(state),
            r->Ok_0,
            now,
            sender@,
            from_username@,
        ),
{
    let iu = match find_user_by_wallet(&state.users, sender) {
        Some(i) => i,
        None => { return Err(ContractError::UserNotRegistered {}) },
    };
    proof {
        lemma_wallet_idx(state.users@, sender@, iu as int);
    }
    let to_name = state.users[iu].username.clone();
    let k = match find_request(&state.friend_requests, from_username.as_str(), to_name.as_str()) {
        Some(k) => k,
        None => { return Err(ContractError::FriendRequestNotFound {}) },
    };
    proof {
        lemma_request_idx(state.friend_requests@, from_username@, to_name@, k as int);
    }
    let ghost pre = *state;
    let rq = &mut state.friend_requests[k];
    rq.status = FriendRequestStatus::Declined;
    rq.updated_at = now;
    proof {
        let rs = state.friend_requests@;
        assert(rs == pre.friend_requests@.update(k as int, rs[k as int]));
        assert forall|a: int, b: int|
            #![trigger rs[a], rs[b]]
            0 <= a < b < rs.len() implies !(fold(rs[a].from_username@) == fold(
            rs[b].from_username@,
        ) && fold(rs[a].to_username@) == fold(rs[b].to_username@)) by {
            assert(requests_wf(pre.friend_requests@));
            assert(rs[a].from_username@ == pre.friend_requests@[a].from_username@);
            assert(rs[a].to_username@ == pre.friend_requests@[a].to_username@);
            assert(rs[b].from_username@ == pre.friend_requests@[b].from_username@);
            assert(rs[b].to_username@ == pre.friend_requests@[b].to_username@);
        }
    }
    Ok(quiet_ok())
}

/// Why removing a friend fails: unregistered caller, or no friendship
/// entry from the caller to `friend`.
pub open spec fn remove_friend_check(
    s: ContractState,
    sender: Seq<char>,
    friend: Seq<char>,
) -> Option<ContractError> {
    if !has_wallet(s.users@, sender) {
        Some(ContractError::UserNotRegistered {})
    } else if !friends_dir(s.friendships@, sender_name(s.users@, sender), friend) {
        Some(ContractError::NotFriends {})
    } else {
        Option::None
    }
}

/// What a successful removal did: every friendship entry linking the
/// caller and `friend`, in either direction, is gone, and nothing else
/// changed.
pub open spec fn remove_friend_ok(
    pre: ContractState,
    post: ContractState,
    resp: Response,
    sender: Seq<char>,
    friend: Seq<char>,
) -> bool {
    let me = sender_name(pre.users@, sender);
    &&& post.friendships@ == pre.friendships@.filter(
        |f: Friendship| !friendship_between(f, me, friend),
    )
    &&& post.friend_requests@ == pre.friend_requests@
    &&& same_users(pre, post)
    &&& same_payments(pre, post)
    &&& same_tasks(pre, post)
    &&& same_admin_counters(pre, post)
    &&& same_stats(pre, post)
    &&& quiet_response(resp)
}

/// Remove the friendship between the caller and `friend_username`, in both
/// directions.
pub fn execute_remove_friend(
    state: &mut ContractState,
    now: u64,
    sender: &str,
    friend_username: String,
) -> (r: Result<Response, ContractError>)
    requires
        wf(*old(state)),
    ensures
        wf(*final(state)),
        r is Err <==> remove_friend_check(*old(state), sender@, friend_username@) is Some,
        r is Err ==> remove_friend_check(*old(state), sender@, friend_username@) == Some(r->Err_0)
            && *final(state) == *old(state),
        r is Ok ==> remove_friend_ok(
            *old(state),
            *final(state),
            r->Ok_0,
            sender@,
            friend_username@,
        ),
{
    let iu = match find_user_by_wallet(&state.users, sender) {
        Some(i) => i,
        None => { return Err(ContractError::UserNotRegistered {}) },
    };
    proof {
        lemma_wallet_idx(state.users@, sender@, iu as int);
    }
    let me = state.users[iu].username.clone();
    match find_friendship(&state.friendships, me.as_str(), friend_username.as_str()) {
        Some(k) => {
            proof {
                assert(friendship_matches(
                    #[trigger] state.friendships@[k as int],
                    me@,
                    friend_username@,
                ));
            }
        },
        None => { return Err(ContractError::NotFriends {}) },
    }
    let ghost me_seq = me@;
    let ghost pred = |f: Friendship| !friendship_between(f, me_seq, friend_username@);
    let ghost fs0 = state.friendships@;
    let n = state.friendships.len();
    let mut kept: Vec<Friendship> = Vec::new();
    proof {
        reveal(Seq::filter);
        assert(fs0.subrange(0, 0) =~= Seq::<Friendship>::empty());
        assert(kept@ =~= fs0.subrange(0, 0).filter(pred));
    }
    let mut i: usize = 0;
    while i < n
        invariant
            0 <= i <= n,
            n == fs0.len(),
            state.friendships@ == fs0,
            kept@ == fs0.subrange(0, i as int).filter(pred),
            pred == (|f: Friendship| !friendship_between(f, me_seq, friend_username@)),
            me_seq == me@,
        decreases n - i,
    {
        let f = &state.friendships[i];
        let hit = (eq_ignore_case(f.user1.as_str(), me.as_str()) && eq_ignore_case(
            f.user2.as_str(),
            friend_username.as_str(),
        )) || (eq_ignore_case(f.user1.as_str(), friend_username.as_str()) && eq_ignore_case(
            f.user2.as_str(),
            me.as_str(),
        ));
        if !hit {
            kept.push(state.friendships[i].duplicate());
        }
        proof {
            reveal(Seq::filter);
            let prefix = fs0.subrange(0, i as int);
            let prefix1 = fs0.subrange(0, i + 1);
            assert(prefix1.drop_last() =~= prefix);
            assert(prefix1.last() == fs0[i as int]);
            assert(hit == !pred(fs0[i as int]));
            if !hit {
                assert(kept@ == prefix.filter(pred).push(fs0[i as int]));
                assert(prefix1.filter(pred) == prefix.filter(pred).push(prefix1.last()));
            } else {
                assert(prefix1.filter(pred) == prefix.filter(pred));
            }
        }
        i += 1;
    }
    proof {
        assert(fs0.subrange(0, n as int) =~= fs0);
    }
    state.friendships = kept;
    Ok(quiet_ok())
}

/// Why creating a payment record is rejected: unregistered caller, paying
/// oneself, an unknown payee, a zero amount, a policy that is not a
/// payment policy, an oversized description, a multi-asset attachment, or
/// (for the escrowed kinds) attached funds short of the declared amount.
pub open spec fn create_payment_check(
    s: ContractState,
    sender: Seq<char>,
    to: Seq<char>,
    amount: Coin,
    description: Seq<char>,
    proof_type: ProofType,
    funds: Seq<Coin>,
    kind: PaymentType,
) -> Option<ContractError> {
    if !has_wallet(s.users@, sender) {
        Some(ContractError::UserNotRegistered {})
    } else {
        let from = sender_name(s.users@, sender);
        if fold(from) == fold(to) {
            Some(ContractError::CannotPaySelf {})
        } else if !has_name(s.users@, to) {
            Some(ContractError::UserNotFound {})
        } else if amount.amount == 0 {
            Some(ContractError::InvalidPaymentAmount {})
        } else if !payment_policy(proof_type) {
            Some(ContractError::InvalidProofType {})
        } else if description.len() > MAX_DESCRIPTION_LEN {
            Some(ContractError::InvalidDescriptionLength {})
        } else if funds.len() > 1 {
            Some(ContractError::InvalidFunds {})
        } else if payment_escrows(kind) && sent_amount(funds, amount.denom@) < amount.amount {
            Some(ContractError::InsufficientFunds {})
        } else {
            Option::None
        }
    }
}

/// What a successful creation did: one new record with the next
/// identifier, escrow held for the escrowed kinds, and — for a direct
/// payment under the `NoProof` policy — completion and the transfer to the
/// payee in the same call.
pub open spec fn create_payment_ok(
    pre: ContractState,
    post: ContractState,
    resp: Response,
    now: u64,
    sender: Seq<char>,
    to: Seq<char>,
    amount: Coin,
    description: Seq<char>,
    proof_type: ProofType,
    kind: PaymentType,
) -> bool {
    let i = pre.payments@.len() as int;
    let auto = kind is DirectPayment && proof_type is NoProof;
    let p = post.payments@[i];
    let payee = pre.users@[name_idx(pre.users@, to)];
    &&& post.payments@.len() == i + 1
    &&& (forall|j: int| 0 <= j < i ==> post.payments@[j] == pre.payments@[j])
    &&& post.payment_escrow@.len() == i + 1
    &&& (forall|j: int| 0 <= j < i ==> post.payment_escrow@[j] == pre.payment_escrow@[j])
    &&& p.id == pre.next_payment_id
    &&& p.from_username@ == sender_name(pre.users@, sender)
    &&& p.to_username@ == payee.username@
    &&& p.amount.denom@ == amount.denom@
    &&& p.amount.amount == amount.amount
    &&& p.description@ == description
    &&& p.payment_type == kind
    &&& p.proof_type == proof_type
    &&& p.proof_data is None
    &&& p.status == (if auto {
        PaymentStatus::Completed
    } else {
        PaymentStatus::Pending
    })
    &&& p.created_at == now
    &&& p.updated_at == now
    &&& post.payment_escrow@[i] == (if payment_escrows(kind) && !auto {
        amount.amount
    } else {
        0
    })
    &&& post.next_payment_id == pre.next_payment_id + 1
    &&& post.next_task_id == pre.next_task_id
    &&& post.config.admin@ == pre.config.admin@
    &&& post.stats.total_payments == pre.stats.total_payments + 1
    &&& post.stats.total_users == pre.stats.total_users
    &&& post.stats.total_volume == sat_add_u128(pre.stats.total_volume, amount.amount)
    &&& same_users(pre, post)
    &&& same_social(pre, post)
    &&& same_tasks(pre, post)
    &&& resp.record_id == Some(pre.next_payment_id)
    &&& (if auto {
        resp.transfers@.len() == 1 && pays(
            resp.transfers@[0],
            payee.wallet_address@,
            amount.denom@,
            amount.amount,
        )
    } else {
        resp.transfers@.len() == 0
    })
}

fn create_payment_common(
    state: &mut ContractState,
    now: u64,
    sender: &str,
    to_username: String,
    amount: Coin,
    description: String,
    proof_type: ProofType,
    funds: &Vec<Coin>,
    kind: PaymentType,
) -> (r: Result<Response, ContractError>)
    requires
        wf(*old(state)),
        old(state).next_payment_id < u64::MAX,
    ensures
        wf(*final(state)),
        r is Err <==> create_payment_check(
            *old(state),
            sender@,
            to_username@,
            amount,
            description@,
            proof_type,
            funds@,
            kind,
        ) is Some,
        r is Err ==> create_payment_check(
            *old(state),
            sender@,
            to_username@,
            amount,
            description@,
            proof_type,
            funds@,
            kind,
        ) == Some(r->Err_0) && *final(state) == *old(state),
        r is Ok ==> create_payment_ok(
            *old(state),
            *final(state),
            r->Ok_0,
            now,
            sender@,
            to_username@,
            amount,
            description@,
            proof_type,
            kind,
        ),
{
    let iu = match find_user_by_wallet(&state.users, sender) {
        Some(i) => i,
        None => { return Err(ContractError::UserNotRegistered {}) },
    };
    proof {
        lemma_wallet_idx(state.users@, sender@, iu as int);
    }
    let from = state.users[iu].username.clone();
    if eq_ignore_case(from.as_str(), to_username.as_str()) {
        return Err(ContractError::CannotPaySelf {});
    }
    let jt = match find_user_by_name(&state.users, to_username.as_str()) {
        Some(j) => j,
        None => { return Err(ContractError::UserNotFound {}) },
    };
    if amount.amount == 0 {
        return Err(ContractError::InvalidPaymentAmount {});
    }
    let policy_ok = matches!(
        proof_type,
        ProofType::NoProof
            | ProofType::Photo
            | ProofType::Document
            | ProofType::Location
            | ProofType::Manual
    );
    if !policy_ok {
        return Err(ContractError::InvalidProofType {});
    }
    if description.as_str().unicode_len() > MAX_DESCRIPTION_LEN {
        return Err(ContractError::InvalidDescriptionLength {});
    }
    if funds.len() > 1 {
        return Err(ContractError::InvalidFunds {});
    }
    let need_escrow = matches!(kind, PaymentType::DirectPayment | PaymentType::HelpRequest);
    if need_escrow {
        let sent = attached_amount(funds, amount.denom.as_str());
        if sent < amount.amount {
            return Err(ContractError::InsufficientFunds {});
        }
    }
    let ghost pre = *state;
    proof {
        lemma_name_idx(pre.users@, to_username@, jt as int);
    }
    let pid = state.next_payment_id;
    let amt = amount.amount;
    let to_name = state.users[jt].username.clone();
    let auto = matches!(kind, PaymentType::DirectPayment) && matches!(
        proof_type,
        ProofType::NoProof,
    );
    let mut transfers: Vec<TransferMsg> = Vec::new();
    if auto {
        transfers.push(
            TransferMsg {
                to_address: state.users[jt].wallet_address.clone(),
                amount: amount.duplicate(),
            },
        );
    }
    let held: u128 = if need_escrow && !auto {
        amt
    } else {
        0
    };
    let p = Payment {
        id: pid,
        from_username: from,
        to_username: to_name,
        amount,
        description,
        payment_type: kind,
        proof_type,
        proof_data: Option::None,
        status: if auto {
            PaymentStatus::Completed
        } else {
            PaymentStatus::Pending
        },
        created_at: now,
        updated_at: now,
    };
    state.payments.push(p);
    state.payment_escrow.push(held);
    state.next_payment_id = pid + 1;
    state.stats.total_payments = state.stats.total_payments + 1;
    state.stats.total_volume = saturating_add_u128(state.stats.total_volume, amt);
    proof {
        let i = pre.payments@.len() as int;
        assert forall|a: int| 0 <= a < state.payments@.len() implies #[trigger] payment_wf(
            state.users@,
            state.payments@[a],
            state.payment_escrow@[a],
            a,
        ) by {
            if a < i {
                assert(state.payments@[a] == pre.payments@[a]);
                assert(state.payment_escrow@[a] == pre.payment_escrow@[a]);
                assert(payment_wf(pre.users@, pre.payments@[a], pre.payment_escrow@[a], a));
            } else {
                assert((iu as int) < state.users@.len() && (#[trigger] state.users@[
                iu as int]).username@ == state.payments@[a].from_username@);
                assert((jt as int) < state.users@.len() && (#[trigger] state.users@[
                jt as int]).username@ == state.payments@[a].to_username@);
            }
        }
        assert forall|a: int| 0 <= a < state.tasks@.len() implies #[trigger] task_wf(
            state.users@,
            state.tasks@[a],
            state.task_escrow@[a],
            a,
        ) by {
            assert(task_wf(pre.users@, pre.tasks@[a], pre.task_escrow@[a], a));
        }
    }
    Ok(Response { record_id: Some(pid), transfers })
}

/// Send a direct payment: funds are attached up front.  Under the
/// `NoProof` policy the record completes and the transfer to the payee is
/// issued in the same call; under any other policy the funds stay in
/// escrow until the payee's evidence is approved.
pub fn execute_send_direct_payment(
    state: &mut ContractState,
    now: u64,
    sender: &str,
    to_username: String,
    amount: Coin,
    description: String,
    proof_type: ProofType,
    funds: &Vec<Coin>,
) -> (r: Result<Response, ContractError>)
    requires
        wf(*old(state)),
        old(state).next_payment_id < u64::MAX,
    ensures
        wf(*final(state)),
        r is Err <==> create_payment_check(
            *old(state),
            sender@,
            to_username@,
            amount,
            description@,
            proof_type,
            funds@,
            PaymentType::DirectPayment,
        ) is Some,
        r is Err ==> create_payment_check(
            *old(state),
            sender@,
            to_username@,
            amount,
            description@,
            proof_type,
            funds@,
            PaymentType::DirectPayment,
        ) == Some(r->Err_0) && *final(state) == *old(state),
        r is Ok ==> create_payment_ok(
            *old(state),
            *final(state),
            r->Ok_0,
            now,
            sender@,
            to_username@,
            amount,
            description@,
            proof_type,
            PaymentType::DirectPayment,
        ),
{
    create_payment_common(
        state,
        now,
        sender,
        to_username,
        amount,
        description,
        proof_type,
        funds,
        PaymentType::DirectPayment,
    )
}

/// Create a payment request: a demand that `to_username` fund the declared
/// amount.  Nothing is escrowed; the addressee attaches the funds when
/// approving, and the requester is the payee.
pub fn execute_create_payment_request(
    state: &mut ContractState,
    now: u64,
    sender: &str,
    to_username: String,
    amount: Coin,
    description: String,
    proof_type: ProofType,
) -> (r: Result<Response, ContractError>)
    requires
        wf(*old(state)),
        old(state).next_payment_id < u64::MAX,
    ensures
        wf(*final(state)),
        r is Err <==> create_payment_check(
            *old(state),
            sender@,
            to_username@,
            amount,
            description@,
            proof_type,
            Seq::<Coin>::empty(),
            PaymentType::PaymentRequest,
        ) is Some,
        r is Err ==> create_payment_check(
            *old(state),
            sender@,
            to_username@,
            amount,
            description@,
            proof_type,
            Seq::<Coin>::empty(),
            PaymentType::PaymentRequest,
        ) == Some(r->Err_0) && *final(state) == *old(state),
        r is Ok ==> create_payment_ok(
            *old(state),
            *final(state),
            r->Ok_0,
            now,
            sender@,
            to_username@,
            amount,
            description@,
            proof_type,
            PaymentType::PaymentRequest,
        ),
{
    let no_funds: Vec<Coin> = Vec::new();
    proof {
        assert(no_funds@ =~= Seq::<Coin>::empty());
    }
    create_payment_common(
        state,
        now,
        sender,
        to_username,
        amount,
        description,
        proof_type,
        &no_funds,
        PaymentType::PaymentRequest,
    )
}

/// Create a help request: an escrowed task-like payment whose evidence the
/// funding party approves by hand.
pub fn execute_create_help_request(
    state: &mut ContractState,
    now: u64,
    sender: &str,
    to_username: String,
    amount: Coin,
    description: String,
    proof_type: ProofType,
    funds: &Vec<Coin>,
) -> (r: Result<Response, ContractError>)
    requires
        wf(*old(state)),
        old(state).next_payment_id < u64::MAX,
    ensures
        wf(*final(state)),
        r is Err <==> create_payment_check(
            *old(state),
            sender@,
            to_username@,
            amount,
            description@,
            proof_type,
            funds@,
            PaymentType::HelpRequest,
        ) is Some,
        r is Err ==> create_payment_check(
            *old(state),
            sender@,
            to_username@,
            amount,
            description@,
            proof_type,
            funds@,
            PaymentType::HelpRequest,
        ) == Some(r->Err_0) && *final(state) == *old(state),
        r is Ok ==> create_payment_ok(
            *old(state),
            *final(state),
            r->Ok_0,
            now,
            sender@,
            to_username@,
            amount,
            description@,
            proof_type,
            PaymentType::HelpRequest,
        ),
{
    create_payment_common(
        state,
        now,
        sender,
        to_username,
        amount,
        description,
        proof_type,
        funds,
        PaymentType::HelpRequest,
    )
}

/// Why submitting evidence on a payment is rejected: unregistered caller,
/// unknown record, a caller other than the record's `to` party, a policy
/// that wants no evidence, a record no longer open, or structurally
/// malformed evidence (empty or oversized).
pub open spec fn submit_proof_check(
    s: ContractState,
    sender: Seq<char>,
    payment_id: u64,
    proof_data: Seq<char>,
) -> Option<ContractError> {
    if !has_wallet(s.users@, sender) {
        Some(ContractError::UserNotRegistered {})
    } else if payment_id < 1 || payment_id > s.payments@.len() {
        Some(ContractError::PaymentNotFound {})
    } else {
        let p = s.payments@[payment_id - 1];
        if fold(p.to_username@) != fold(sender_name(s.users@, sender)) {
            Some(ContractError::PaymentNotAuthorized {})
        } else if p.proof_type is NoProof {
            Some(ContractError::NoProofRequired {})
        } else if !(p.status is Pending) {
            Some(ContractError::PaymentAlreadyCompleted {})
        } else if proof_data.len() == 0 || proof_data.len() > MAX_PROOF_SIZE {
            Some(ContractError::InvalidProof {})
        } else {
            Option::None
        }
    }
}

/// What a successful evidence submission did: the record moves to
/// `ProofSubmitted` carrying the evidence, nothing else changes and no
/// transfer is issued.
pub open spec fn submit_proof_ok(
    pre: ContractState,
    post: ContractState,
    resp: Response,
    now: u64,
    payment_id: u64,
    proof_data: Seq<char>,
) -> bool {
    let i = payment_id - 1;
    let p0 = pre.payments@[i];
    let p1 = post.payments@[i];
    &&& post.payments@.len() == pre.payments@.len()
    &&& (forall|j: int|
        0 <= j < pre.payments@.len() && j != i ==> post.payments@[j] == pre.payments@[j])
    &&& p1 == (Payment {
        status: PaymentStatus::ProofSubmitted,
        proof_data: p1.proof_data,
        updated_at: now,
        ..p0
    })
    &&& p1.proof_data is Some
    &&& p1.proof_data->0@ == proof_data
    &&& post.payment_escrow@ == pre.payment_escrow@
    &&& same_users(pre, post)
    &&& same_social(pre, post)
    &&& same_tasks(pre, post)
    &&& same_admin_counters(pre, post)
    &&& same_stats(pre, post)
    &&& quiet_response(resp)
}

/// Submit evidence on an open payment record.  Only the record's `to`
/// party may submit; the evidence is held for the funding party to
/// approve or reject.
pub fn execute_submit_proof(
    state: &mut ContractState,
    now: u64,
    sender: &str,
    payment_id: u64,
    proof_data: String,
) -> (r: Result<Response, ContractError>)
    requires
        wf(*old(state)),
    ensures
        wf(*final(state)),
        r is Err <==> submit_proof_check(*old(state), sender@, payment_id, proof_data@) is Some,
        r is Err ==> submit_proof_check(*old(state), sender@, payment_id, proof_data@) == Some(
            r->Err_0,
        ) && *final(state) == *old(state),
        r is Ok ==> submit_proof_ok(
            *old(state),
            *final(state),
            r->Ok_0,
            now,
            payment_id,
            proof_data@,
        ),
{
    let iu = match find_user_by_wallet(&state.users, sender) {
        Some(i) => i,
        None => { return Err(ContractError::UserNotRegistered {}) },
    };
    proof {
        lemma_wallet_idx(state.users@, sender@, iu as int);
    }
    let n = state.payments.len();
    if payment_id < 1 || payment_id > (n as u64) {
        return Err(ContractError::PaymentNotFound {});
    }
    let i = (payment_id - 1) as usize;
    let authorized = eq_ignore_case(
        state.payments[i].to_username.as_str(),
        state.users[iu].username.as_str(),
    );
    if !authorized {
        return Err(ContractError::PaymentNotAuthorized {});
    }
    if matches!(state.payments[i].proof_type, ProofType::NoProof) {
        return Err(ContractError::NoProofRequired {});
    }
    if !matches!(state.payments[i].status, PaymentStatus::Pending) {
        return Err(ContractError::PaymentAlreadyCompleted {});
    }
    let plen = proof_data.as_str().unicode_len();
    if plen == 0 || plen > MAX_PROOF_SIZE {
        return Err(ContractError::InvalidProof {});
    }
    let ghost pre = *state;
    let p = &mut state.payments[i];
    p.proof_data = Some(proof_data);
    p.status = PaymentStatus::ProofSubmitted;
    p.updated_at = now;
    proof {
        assert forall|a: int| 0 <= a < state.payments@.len() implies #[trigger] payment_wf(
            state.users@,
            state.payments@[a],
            state.payment_escrow@[a],
            a,
        ) by {
            assert(payment_wf(pre.users@, pre.payments@[a], pre.payment_escrow@[a], a));
        }
        assert forall|a: int| 0 <= a < state.tasks@.len() implies #[trigger] task_wf(
            state.users@,
            state.tasks@[a],
            state.task_escrow@[a],
            a,
        ) by {
            assert(task_wf(pre.users@, pre.tasks@[a], pre.task_escrow@[a], a));
        }
    }
    Ok(quiet_ok())
}

/// Why approving a payment is rejected: unregistered caller, unknown
/// record, a caller other than the funding party, a settled record, a
/// policy whose evidence has not been submitted, a multi-asset attachment,
/// or (for the unescrowed request kind) attached funds short of the
/// declared amount.
pub open spec fn approve_payment_check(
    s: ContractState,
    sender: Seq<char>,
    payment_id: u64,
    funds: Seq<Coin>,
) -> Option<ContractError> {
    if !has_wallet(s.users@, sender) {
        Some(ContractError::UserNotRegistered {})
    } else if payment_id < 1 || payment_id > s.payments@.len() {
        Some(ContractError::PaymentNotFound {})
    } else {
        let p = s.payments@[payment_id - 1];
        if fold(payment_funder(p)) != fold(sender_name(s.users@, sender)) {
            Some(ContractError::PaymentNotAuthorized {})
        } else if p.status is Completed || p.status is Rejected {
            Some(ContractError::PaymentAlreadyCompleted {})
        } else if p.status is Cancelled {
            Some(ContractError::PaymentAlreadyCancelled {})
        } else if !(p.proof_type is NoProof) && !(p.status is ProofSubmitted) {
            Some(ContractError::ProofRequired {})
        } else if funds.len() > 1 {
            Some(ContractError::InvalidFunds {})
        } else if !payment_escrows(p.payment_type) && sent_amount(funds, p.amount.denom@)
            < p.amount.amount {
            Some(ContractError::InsufficientFunds {})
        } else {
            Option::None
        }
    }
}

/// What a successful approval did: the record completes, its escrow entry
/// is emptied, and exactly one transfer of the declared amount goes to the
/// record's payee in the same call.
pub open spec fn approve_payment_ok(
    pre: ContractState,
    post: ContractState,
    resp: Response,
    now: u64,
    payment_id: u64,
) -> bool {
    let i = payment_id - 1;
    let p0 = pre.payments@[i];
    &&& post.payments@.len() == pre.payments@.len()
    &&& (forall|j: int|
        0 <= j < pre.payments@.len() && j != i ==> post.payments@[j] == pre.payments@[j])
    &&& post.payments@[i] == (Payment { status: PaymentStatus::Completed, updated_at: now, ..p0 })
    &&& post.payment_escrow@ == pre.payment_escrow@.update(i, 0u128)
    &&& same_users(pre, post)
    &&& same_social(pre, post)
    &&& same_tasks(pre, post)
    &&& same_admin_counters(pre, post)
    &&& same_stats(pre, post)
    &&& resp.record_id is None
    &&& resp.transfers@.len() == 1
    &&& pays(
        resp.transfers@[0],
        wallet_of(pre.users@, payment_beneficiary(p0)),
        p0.amount.denom@,
        p0.amount.amount,
    )
}

/// Approve a payment record.  Only the funding party may approve: the
/// `from` party for direct payments and help requests, the `to` party for
/// payment requests, who must attach the funds here since nothing was
/// escrowed.  Completion and the transfer to the payee are committed in
/// the same call.
pub fn execute_approve_payment(
    state: &mut ContractState,
    now: u64,
    sender: &str,
    payment_id: u64,
    funds: &Vec<Coin>,
) -> (r: Result<Response, ContractError>)
    requires
        wf(*old(state)),
    ensures
        wf(*final(state)),
        r is Err <==> approve_payment_check(*old(state), sender@, payment_id, funds@) is Some,
        r is Err ==> approve_payment_check(*old(state), sender@, payment_id, funds@) == Some(
            r->Err_0,
        ) && *final(state) == *old(state),
        r is Ok ==> approve_payment_ok(*old(state), *final(state), r->Ok_0, now, payment_id),
{
    let iu = match find_user_by_wallet(&state.users, sender) {
        Some(i) => i,
        None => { return Err(ContractError::UserNotRegistered {}) },
    };
    proof {
        lemma_wallet_idx(state.users@, sender@, iu as int);
    }
    let n = state.payments.len();
    if payment_id < 1 || payment_id > (n as u64) {
        return Err(ContractError::PaymentNotFound {});
    }
    let i = (payment_id - 1) as usize;
    let authorized = match state.payments[i].payment_type {
        PaymentType::PaymentRequest => eq_ignore_case(
            state.payments[i].to_username.as_str(),
            state.users[iu].username.as_str(),
        ),
        _ => eq_ignore_case(
            state.payments[i].from_username.as_str(),
            state.users[iu].username.as_str(),
        ),
    };
    if !authorized {
        return Err(ContractError::PaymentNotAuthorized {});
    }
    match state.payments[i].status {
        PaymentStatus::Completed | PaymentStatus::Rejected => {
            return Err(ContractError::PaymentAlreadyCompleted {});
        },
        PaymentStatus::Cancelled => {
            return Err(ContractError::PaymentAlreadyCancelled {});
        },
        _ => {},
    }
    if !matches!(state.payments[i].proof_type, ProofType::NoProof) && !matches!(
        state.payments[i].status,
        PaymentStatus::ProofSubmitted,
    ) {
        return Err(ContractError::ProofRequired {});
    }
    if funds.len() > 1 {
        return Err(ContractError::InvalidFunds {});
    }
    if !matches!(
        state.payments[i].payment_type,
        PaymentType::DirectPayment | PaymentType::HelpRequest,
    ) {
        let sent = attached_amount(funds, state.payments[i].amount.denom.as_str());
        if sent < state.payments[i].amount.amount {
            return Err(ContractError::InsufficientFunds {});
        }
    }
    let ghost pre = *state;
    let payee = match state.payments[i].payment_type {
        PaymentType::PaymentRequest => state.payments[i].from_username.clone(),
        _ => state.payments[i].to_username.clone(),
    };
    let b = match find_user_by_exact_name(&state.users, payee.as_str()) {
        Some(b) => b,
        None => {
            proof {
                assert(payment_wf(
                    pre.users@,
                    pre.payments@[i as int],
                    pre.payment_escrow@[i as int],
                    i as int,
                ));
            }
            vstd::pervasive::unreached()
        },
    };
    proof {
        lemma_exact_name_idx(pre.users@, payee@, b as int);
    }
    let mut transfers: Vec<TransferMsg> = Vec::new();
    transfers.push(
        TransferMsg {
            to_address: state.users[b].wallet_address.clone(),
            amount: state.payments[i].amount.duplicate(),
        },
    );
    let p = &mut state.payments[i];
    p.status = PaymentStatus::Completed;
    p.updated_at = now;
    state.payment_escrow[i] = 0;
    proof {
        assert(state.payment_escrow@ =~= pre.payment_escrow@.update(i as int, 0u128));
        assert forall|a: int| 0 <= a < state.payments@.len() implies #[trigger] payment_wf(
            state.users@,
            state.payments@[a],
            state.payment_escrow@[a],
            a,
        ) by {
            assert(payment_wf(pre.users@, pre.payments@[a], pre.payment_escrow@[a], a));
        }
        assert forall|a: int| 0 <= a < state.tasks@.len() implies #[trigger] task_wf(
            state.users@,
            state.tasks@[a],
            state.task_escrow@[a],
            a,
        ) by {
            assert(task_wf(pre.users@, pre.tasks@[a], pre.task_escrow@[a], a));
        }
    }
    Ok(Response { record_id: Option::None, transfers })
}

/// Why rejecting a payment fails: unregistered caller, unknown record, a
/// caller other than the funding party, or a settled record.
pub open spec fn reject_payment_check(
    s: ContractState,
    sender: Seq<char>,
    payment_id: u64,
) -> Option<ContractError> {
    if !has_wallet(s.users@, sender) {
        Some(ContractError::UserNotRegistered {})
    } else if payment_id < 1 || payment_id > s.payments@.len() {
        Some(ContractError::PaymentNotFound {})
    } else {
        let p = s.payments@[payment_id - 1];
        if fold(payment_funder(p)) != fold(sender_name(s.users@, sender)) {
            Some(ContractError::PaymentNotAuthorized {})
        } else if payment_terminal(p.status) {
            Some(ContractError::PaymentAlreadyCompleted {})
        } else {
            Option::None
        }
    }
}

/// What a successful rejection did: the evidence is cleared and the record
/// returns to `Pending` for resubmission — rejection terminates nothing
/// and moves no funds.
pub open spec fn reject_payment_ok(
    pre: ContractState,
    post: ContractState,
    resp: Response,
    now: u64,
    payment_id: u64,
) -> bool {
    let i = payment_id - 1;
    let p0 = pre.payments@[i];
    &&& post.payments@.len() == pre.payments@.len()
    &&& (forall|j: int|
        0 <= j < pre.payments@.len() && j != i ==> post.payments@[j] == pre.payments@[j])
    &&& post.payments@[i] == (Payment {
        status: PaymentStatus::Pending,
        proof_data: Option::None,
        updated_at: now,
        ..p0
    })
    &&& post.payment_escrow@ == pre.payment_escrow@
    &&& same_users(pre, post)
    &&& same_social(pre, post)
    &&& same_tasks(pre, post)
    &&& same_admin_counters(pre, post)
    &&& same_stats(pre, post)
    &&& quiet_response(resp)
}

/// Reject the submitted evidence on a payment record.  The record stays
/// open for resubmission: escrow, if any, stays held and no funds move.
pub fn execute_reject_payment(
    state: &mut ContractState,
    now: u64,
    sender: &str,
    payment_id: u64,
) -> (r: Result<Response, ContractError>)
    requires
        wf(*old(state)),
    ensures
        wf(*final(state)),
        r is Err <==> reject_payment_check(*old(state), sender@, payment_id) is Some,
        r is Err ==> reject_payment_check(*old(state), sender@, payment_id) == Some(r->Err_0)
            && *final(state) == *old(state),
        r is Ok ==> reject_payment_ok(*old(state), *final(state), r->Ok_0, now, payment_id),
{
    let iu = match find_user_by_wallet(&state.users, sender) {
        Some(i) => i,
        None => { return Err(ContractError::UserNotRegistered {}) },
    };
    proof {
        lemma_wallet_idx(state.users@, sender@, iu as int);
    }
    let n = state.payments.len();
    if payment_id < 1 || payment_id > (n as u64) {
        return Err(ContractError::PaymentNotFound {});
    }
    let i = (payment_id - 1) as usize;
    let authorized = match state.payments[i].payment_type {
        PaymentType::PaymentRequest => eq_ignore_case(
            state.payments[i].to_username.as_str(),
            state.users[iu].username.as_str(),
        ),
        _ => eq_ignore_case(
            state.payments[i].from_username.as_str(),
            state.users[iu].username.as_str(),
        ),
    };
    if !authorized {
        return Err(ContractError::PaymentNotAuthorized {});
    }
    if matches!(
        state.payments[i].status,
        PaymentStatus::Completed | PaymentStatus::Rejected | PaymentStatus::Cancelled,
    ) {
        return Err(ContractError::PaymentAlreadyCompleted {});
    }
    let ghost pre = *state;
    let p = &mut state.payments[i];
    p.status = PaymentStatus::Pending;
    p.proof_data = Option::None;
    p.updated_at = now;
    proof {
        assert forall|a: int| 0 <= a < state.payments@.len() implies #[trigger] payment_wf(
            state.users@,
            state.payments@[a],
            state.payment_escrow@[a],
            a,
        ) by {
            assert(payment_wf(pre.users@, pre.payments@[a], pre.payment_escrow@[a], a));
        }
        assert forall|a: int| 0 <= a < state.tasks@.len() implies #[trigger] task_wf(
            state.users@,
            state.tasks@[a],
            state.task_escrow@[a],
            a,
        ) by {
            assert(task_wf(pre.users@, pre.tasks@[a], pre.task_escrow@[a], a));
        }
    }
    Ok(quiet_ok())
}

/// Why cancelling a payment fails: unregistered caller, unknown record, a
/// caller other than the record's creator (`from`), or a settled record.
pub open spec fn cancel_payment_check(
    s: ContractState,
    sender: Seq<char>,
    payment_id: u64,
) -> Option<ContractError> {
    if !has_wallet(s.users@, sender) {
        Some(ContractError::UserNotRegistered {})
    } else if payment_id < 1 || payment_id > s.payments@.len() {
        Some(ContractError::PaymentNotFound {})
    } else {
        let p = s.payments@[payment_id - 1];
        if fold(p.from_username@) != fold(sender_name(s.users@, sender)) {
            Some(ContractError::OnlySenderCanCancel {})
        } else if p.status is Completed || p.status is Rejected {
            Some(ContractError::PaymentAlreadyCompleted {})
        } else if p.status is Cancelled {
            Some(ContractError::PaymentAlreadyCancelled {})
        } else {
            Option::None
        }
    }
}

/// What a successful cancellation did: the record is terminally cancelled;
/// if escrow was held it is refunded to the `from` party in the same call,
/// otherwise no funds move.
pub open spec fn cancel_payment_ok(
    pre: ContractState,
    post: ContractState,
    resp: Response,
    now: u64,
    payment_id: u64,
) -> bool {
    let i = payment_id - 1;
    let p0 = pre.payments@[i];
    &&& post.payments@.len() == pre.payments@.len()
    &&& (forall|j: int|
        0 <= j < pre.payments@.len() && j != i ==> post.payments@[j] == pre.payments@[j])
    &&& post.payments@[i] == (Payment { status: PaymentStatus::Cancelled, updated_at: now, ..p0 })
    &&& post.payment_escrow@ == pre.payment_escrow@.update(i, 0u128)
    &&& same_users(pre, post)
    &&& same_social(pre, post)
    &&& same_tasks(pre, post)
    &&& same_admin_counters(pre, post)
    &&& same_stats(pre, post)
    &&& resp.record_id is None
    &&& (if payment_escrows(p0.payment_type) {
        resp.transfers@.len() == 1 && pays(
            resp.transfers@[0],
            wallet_of(pre.users@, p0.from_username@),
            p0.amount.denom@,
            p0.amount.amount,
        )
    } else {
        resp.transfers@.len() == 0
    })
}

/// Cancel a payment record.  Only its creator may cancel, and only while
/// the record is not settled; held escrow is refunded to the creator in
/// the same call.
pub fn execute_cancel_payment(
    state: &mut ContractState,
    now: u64,
    sender: &str,
    payment_id: u64,
) -> (r: Result<Response, ContractError>)
    requires
        wf(*old(state)),
    ensures
        wf(*final(state)),
        r is Err <==> cancel_payment_check(*old(state), sender@, payment_id) is Some,
        r is Err ==> cancel_payment_check(*old(state), sender@, payment_id) == Some(r->Err_0)
            && *final(state) == *old(state),
        r is Ok ==> cancel_payment_ok(*old(state), *final(state), r->Ok_0, now, payment_id),
{
    let iu = match find_user_by_wallet(&state.users, sender) {
        Some(i) => i,
        None => { return Err(ContractError::UserNotRegistered {}) },
    };
    proof {
        lemma_wallet_idx(state.users@, sender@, iu as int);
    }
    let n = state.payments.len();
    if payment_id < 1 || payment_id > (n as u64) {
        return Err(ContractError::PaymentNotFound {});
    }
    let i = (payment_id - 1) as usize;
    if !eq_ignore_case(
        state.payments[i].from_username.as_str(),
        state.users[iu].username.as_str(),
    ) {
        return Err(ContractError::OnlySenderCanCancel {});
    }
    match state.payments[i].status {
        PaymentStatus::Completed | PaymentStatus::Rejected => {
            return Err(ContractError::PaymentAlreadyCompleted {});
        },
        PaymentStatus::Cancelled => {
            return Err(ContractError::PaymentAlreadyCancelled {});
        },
        _ => {},
    }
    let ghost pre = *state;
    let escrowed = matches!(
        state.payments[i].payment_type,
        PaymentType::DirectPayment | PaymentType::HelpRequest,
    );
    let mut transfers: Vec<TransferMsg> = Vec::new();
    if escrowed {
        let b = match find_user_by_exact_name(
            &state.users,
            state.payments[i].from_username.as_str(),
        ) {
            Some(b) => b,
            None => {
                proof {
                    assert(payment_wf(
                        pre.users@,
                        pre.payments@[i as int],
                        pre.payment_escrow@[i as int],
                        i as int,
                    ));
                }
                vstd::pervasive::unreached()
            },
        };
        proof {
            lemma_exact_name_idx(pre.users@, pre.payments@[i as int].from_username@, b as int);
        }
        transfers.push(
            TransferMsg {
                to_address: state.users[b].wallet_address.clone(),
                amount: state.payments[i].amount.duplicate(),
            },
        );
    }
    let p = &mut state.payments[i];
    p.status = PaymentStatus::Cancelled;
    p.updated_at = now;
    state.payment_escrow[i] = 0;
    proof {
        assert(state.payment_escrow@ =~= pre.payment_escrow@.update(i as int, 0u128));
        assert forall|a: int| 0 <= a < state.payments@.len() implies #[trigger] payment_wf(
            state.users@,
            state.payments@[a],
            state.payment_escrow@[a],
            a,
        ) by {
            assert(payment_wf(pre.users@, pre.payments@[a], pre.payment_escrow@[a], a));
        }
        assert forall|a: int| 0 <= a < state.tasks@.len() implies #[trigger] task_wf(
            state.users@,
            state.tasks@[a],
            state.task_escrow@[a],
            a,
        ) by {
            assert(task_wf(pre.users@, pre.tasks@[a], pre.task_escrow@[a], a));
        }
    }
    Ok(Response { record_id: Option::None, transfers })
}

/// Route an executable call to its entry point.  The dispatcher adds no
/// rule of its own: for each message it answers exactly as the matching
/// entry point's rejection and success predicates say, and every call
/// either fully commits or returns its error with the store untouched.
pub fn execute(
    state: &mut ContractState,
    env: &Env,
    info: &MessageInfo,
    msg: ExecuteMsg,
) -> (r: Result<Response, ContractError>)
    requires
        wf(*old(state)),
        old(state).next_payment_id < u64::MAX,
        old(state).next_task_id < u64::MAX,
        old(state).stats.total_users < u64::MAX,
    ensures
        wf(*final(state)),
        r is Err ==> *final(state) == *old(state),
        msg matches ExecuteMsg::RegisterUser { username, display_name } ==> {
            &&& (r is Err <==> register_check(*old(state), info.sender@, username@) is Some)
            &&& (r is Err ==> register_check(*old(state), info.sender@, username@) == Some(
                r->Err_0,
            ))
            &&& (r is Ok ==> register_user_ok(
                *old(state),
                *final(state),
                r->Ok_0,
                env.block_time,
                info.sender@,
                username@,
                display_name@,
            ))
        },
        msg matches ExecuteMsg::UpdateUserProfile { display_name, profile_picture } ==> {
            &&& (r is Err <==> profile_check(*old(state), info.sender@) is Some)
            &&& (r is Err ==> profile_check(*old(state), info.sender@) == Some(r->Err_0))
            &&& (r is Ok ==> update_profile_ok(
                *old(state),
                *final(state),
                r->Ok_0,
                env.block_time,
                info.sender@,
                opt_view(display_name),
                opt_view(profile_picture),
            ))
        },
        msg matches ExecuteMsg::SendFriendRequest { to_username } ==> {
            &&& (r is Err <==> send_request_check(*old(state), info.sender@, to_username@)
                is Some)
            &&& (r is Err ==> send_request_check(*old(state), info.sender@, to_username@) == Some(
                r->Err_0,
            ))
            &&& (r is Ok ==> send_request_ok(
                *old(state),
                *final(state),
                r->Ok_0,
                env.block_time,
                info.sender@,
                to_username@,
            ))
        },
        msg matches ExecuteMsg::AcceptFriendRequest { from_username } ==> {
            &&& (r is Err <==> answer_request_check(*old(state), info.sender@, from_username@)
                is Some)
            &&& (r is Err ==> answer_request_check(*old(state), info.sender@, from_username@)
                == Some(r->Err_0))
            &&& (r is Ok ==> accept_request_ok(
                *old(state),
                *final(state),
                r->Ok_0,
                env.block_time,
                info.sender@,
                from_username@,
            ))
        },
        msg matches ExecuteMsg::DeclineFriendRequest { from_username } ==> {
            &&& (r is Err <==> answer_request_check(*old(state), info.sender@, from_username@)
                is Some)
            &&& (r is Err ==> answer_request_check(*old(state), info.sender@, from_username@)
                == Some(r->Err_0))
            &&& (r is Ok ==> decline_request_ok(
                *old(state),
                *final(state),
                r->Ok_0,
                env.block_time,
                info.sender@,
                from_username@,
            ))
        },
        msg matches ExecuteMsg::RemoveFriend { username } ==> {
            &&& (r is Err <==> remove_friend_check(*old(state), info.sender@, username@) is Some)
            &&& (r is Err ==> remove_friend_check(*old(state), info.sender@, username@) == Some(
                r->Err_0,
            ))
            &&& (r is Ok ==> remove_friend_ok(
                *old(state),
                *final(state),
                r->Ok_0,
                info.sender@,
                username@,
            ))
        },
        msg matches ExecuteMsg::SendDirectPayment { to_username, amount, description, proof_type }
            ==> {
            &&& (r is Err <==> create_payment_check(
                *old(state),
                info.sender@,
                to_username@,
                amount,
                description@,
                proof_type,
                info.funds@,
                PaymentType::DirectPayment,
            ) is Some)
            &&& (r is Err ==> create_payment_check(
                *old(state),
                info.sender@,
                to_username@,
                amount,
                description@,
                proof_type,
                info.funds@,
                PaymentType::DirectPayment,
            ) == Some(r->Err_0))
            &&& (r is Ok ==> create_payment_ok(
                *old(state),
                *final(state),
                r->Ok_0,
                env.block_time,
                info.sender@,
                to_username@,
                amount,
                description@,
                proof_type,
                PaymentType::DirectPayment,
            ))
        },
        msg matches ExecuteMsg::CreatePaymentRequest {
            to_username,
            amount,
            description,
            proof_type,
        } ==> {
            &&& (r is Err <==> create_payment_check(
                *old(state),
                info.sender@,
                to_username@,
                amount,
                description@,
                proof_type,
                Seq::<Coin>::empty(),
                PaymentType::PaymentRequest,
            ) is Some)
            &&& (r is Err ==> create_payment_check(
                *old(state),
                info.sender@,
                to_username@,
                amount,
                description@,
                proof_type,
                Seq::<Coin>::empty(),
                PaymentType::PaymentRequest,
            ) == Some(r->Err_0))
            &&& (r is Ok ==> create_payment_ok(
                *old(state),
                *final(state),
                r->Ok_0,
                env.block_time,
                info.sender@,
                to_username@,
                amount,
                description@,
                proof_type,
                PaymentType::PaymentRequest,
            ))
        },
        msg matches ExecuteMsg::CreateHelpRequest { to_username, amount, description, proof_type }
            ==> {
            &&& (r is Err <==> create_payment_check(
                *old(state),
                info.sender@,
                to_username@,
                amount,
                description@,
                proof_type,
                info.funds@,
                PaymentType::HelpRequest,
            ) is Some)
            &&& (r is Err ==> create_payment_check(
                *old(state),
                info.sender@,
                to_username@,
                amount,
                description@,
                proof_type,
                info.funds@,
                PaymentType::HelpRequest,
            ) == Some(r->Err_0))
            &&& (r is Ok ==> create_payment_ok(
                *old(state),
                *final(state),
                r->Ok_0,
                env.block_time,
                info.sender@,
                to_username@,
                amount,
                description@,
                proof_type,
                PaymentType::HelpRequest,
            ))
        },
        msg matches ExecuteMsg::SubmitProof { payment_id, proof_data } ==> {
            &&& (r is Err <==> submit_proof_check(
                *old(state),
                info.sender@,
                payment_id,
                proof_data@,
            ) is Some)
            &&& (r is Err ==> submit_proof_check(
                *old(state),
                info.sender@,
                payment_id,
                proof_data@,
            ) == Some(r->Err_0))
            &&& (r is Ok ==> submit_proof_ok(
                *old(state),
                *final(state),
                r->Ok_0,
                env.block_time,
                payment_id,
                proof_data@,
            ))
        },
        msg matches ExecuteMsg::ApprovePayment { payment_id } ==> {
            &&& (r is Err <==> approve_payment_check(
                *old(state),
                info.sender@,
                payment_id,
                info.funds@,
            ) is Some)
            &&& (r is Err ==> approve_payment_check(
                *old(state),
                info.sender@,
                payment_id,
                info.funds@,
            ) == Some(r->Err_0))
            &&& (r is Ok ==> approve_payment_ok(
                *old(state),
                *final(state),
                r->Ok_0,
                env.block_time,
                payment_id,
            ))
        },
        msg matches ExecuteMsg::RejectPayment { payment_id } ==> {
            &&& (r is Err <==> reject_payment_check(*old(state), info.sender@, payment_id)
                is Some)
            &&& (r is Err ==> reject_payment_check(*old(state), info.sender@, payment_id) == Some(
                r->Err_0,
            ))
            &&& (r is Ok ==> reject_payment_ok(
                *old(state),
                *final(state),
                r->Ok_0,
                env.block_time,
                payment_id,
            ))
        },
        msg matches ExecuteMsg::CancelPayment { payment_id } ==> {
            &&& (r is Err <==> cancel_payment_check(*old(state), info.sender@, payment_id)
                is Some)
            &&& (r is Err ==> cancel_payment_check(*old(state), info.sender@, payment_id) == Some(
                r->Err_0,
            ))
            &&& (r is Ok ==> cancel_payment_ok(
                *old(state),
                *final(state),
                r->Ok_0,
                env.block_time,
                payment_id,
            ))
        },
        msg matches ExecuteMsg::CreateTask {
            to_username,
            amount,
            description,
            proof_type,
            deadline_ts,
            review_window_secs,
            endpoint,
        } ==> {
            &&& (r is Err <==> crate::tasks::create_task_check(
                *old(state),
                env.block_time,
                info.sender@,
                to_username@,
                amount,
                description@,
                proof_type,
                deadline_ts,
                info.funds@,
            ) is Some)
            &&& (r is Err ==> crate::tasks::create_task_check(
                *old(state),
                env.block_time,
                info.sender@,
                to_username@,
                amount,
                description@,
                proof_type,
                deadline_ts,
                info.funds@,
            ) == Some(r->Err_0))
            &&& (r is Ok ==> crate::tasks::create_task_ok(
                *old(state),
                *final(state),
                r->Ok_0,
                env.block_time,
                info.sender@,
                to_username@,
                amount,
                description@,
                proof_type,
                deadline_ts,
                review_window_secs,
                endpoint@,
            ))
        },
        msg matches ExecuteMsg::SubmitSoftEvidence { task_id, evidence_hash } ==> {
            &&& (r is Err <==> crate::tasks::soft_evidence_check(
                *old(state),
                env.block_time,
                info.sender@,
                task_id,
                evidence_hash@,
            ) is Some)
            &&& (r is Err ==> crate::tasks::soft_evidence_check(
                *old(state),
                env.block_time,
                info.sender@,
                task_id,
                evidence_hash@,
            ) == Some(r->Err_0))
            &&& (r is Ok ==> crate::tasks::soft_evidence_ok(
                *old(state),
                *final(state),
                r->Ok_0,
                env.block_time,
                task_id,
                evidence_hash@,
            ))
        },
        msg matches ExecuteMsg::SubmitZkTlsProof { task_id, proof_blob_or_ref, zk_proof_hash }
            ==> {
            &&& (r is Err <==> crate::tasks::zktls_check(
                *old(state),
                env.block_time,
                info.sender@,
                task_id,
                proof_blob_or_ref@,
            ) is Some)
            &&& (r is Err ==> crate::tasks::zktls_check(
                *old(state),
                env.block_time,
                info.sender@,
                task_id,
                proof_blob_or_ref@,
            ) == Some(r->Err_0))
            &&& (r is Ok ==> crate::tasks::zktls_ok(
                *old(state),
                *final(state),
                r->Ok_0,
                env.block_time,
                task_id,
                zk_proof_hash@,
            ))
        },
        msg matches ExecuteMsg::ApproveTask { task_id } ==> {
            &&& (r is Err <==> crate::tasks::approve_task_check(
                *old(state),
                info.sender@,
                task_id,
                info.funds@,
            ) is Some)
            &&& (r is Err ==> crate::tasks::approve_task_check(
                *old(state),
                info.sender@,
                task_id,
                info.funds@,
            ) == Some(r->Err_0))
            &&& (r is Ok ==> crate::tasks::approve_task_ok(
                *old(state),
                *final(state),
                r->Ok_0,
                env.block_time,
                task_id,
            ))
        },
        msg matches ExecuteMsg::DisputeTask { task_id, reason_hash } ==> {
            &&& (r is Err <==> crate::tasks::dispute_check(
                *old(state),
                env.block_time,
                info.sender@,
                task_id,
                opt_view(reason_hash),
            ) is Some)
            &&& (r is Err ==> crate::tasks::dispute_check(
                *old(state),
                env.block_time,
                info.sender@,
                task_id,
                opt_view(reason_hash),
            ) == Some(r->Err_0))
            &&& (r is Ok ==> crate::tasks::dispute_ok(
                *old(state),
                *final(state),
                r->Ok_0,
                env.block_time,
                task_id,
                opt_view(reason_hash),
            ))
        },
        msg matches ExecuteMsg::ResolveDispute { task_id, decision } ==> {
            &&& (r is Err <==> crate::tasks::resolve_check(*old(state), info.sender@, task_id)
                is Some)
            &&& (r is Err ==> crate::tasks::resolve_check(*old(state), info.sender@, task_id)
                == Some(r->Err_0))
            &&& (r is Ok ==> crate::tasks::resolve_ok(
                *old(state),
                *final(state),
                r->Ok_0,
                env.block_time,
                task_id,
                decision,
            ))
        },
        msg matches ExecuteMsg::ReleaseIfWindowElapsed { task_id } ==> {
            &&& (r is Err <==> crate::tasks::release_check(*old(state), task_id) is Some)
            &&& (r is Err ==> crate::tasks::release_check(*old(state), task_id) == Some(r->Err_0))
            &&& (r is Ok ==> crate::tasks::release_ok(
                *old(state),
                *final(state),
                r->Ok_0,
                env.block_time,
                task_id,
            ))
        },
        msg matches ExecuteMsg::RefundIfExpired { task_id } ==> {
            &&& (r is Err <==> crate::tasks::refund_check(*old(state), task_id) is Some)
            &&& (r is Err ==> crate::tasks::refund_check(*old(state), task_id) == Some(r->Err_0))
            &&& (r is Ok ==> crate::tasks::refund_ok(
                *old(state),
                *final(state),
                r->Ok_0,
                env.block_time,
                task_id,
            ))
        },
{
    let now = env.block_time;
    let sender = info.sender.as_str();
    match msg {
        ExecuteMsg::RegisterUser { username, display_name } => execute_register_user(
            state,
            now,
            sender,
            username,
            display_name,
        ),
        ExecuteMsg::UpdateUserProfile { display_name, profile_picture } => {
            execute_update_user_profile(state, now, sender, display_name, profile_picture)
        },
        ExecuteMsg::SendFriendRequest { to_username } => execute_send_friend_request(
            state,
            now,
            sender,
            to_username,
        ),
        ExecuteMsg::AcceptFriendRequest { from_username } => execute_accept_friend_request(
            state,
            now,
            sender,
            from_username,
        ),
        ExecuteMsg::DeclineFriendRequest { from_username } => execute_decline_friend_request(
            state,
            now,
            sender,
            from_username,
        ),
        ExecuteMsg::RemoveFriend { username } => execute_remove_friend(
            state,
            now,
            sender,
            username,
        ),
        ExecuteMsg::SendDirectPayment { to_username, amount, description, proof_type } => {
            execute_send_direct_payment(
                state,
                now,
                sender,
                to_username,
                amount,
                description,
                proof_type,
                &info.funds,
            )
        },
        ExecuteMsg::CreatePaymentRequest { to_username, amount, description, proof_type } => {
            execute_create_payment_request(
                state,
                now,
                sender,
                to_username,
                amount,
                description,
                proof_type,
            )
        },
        ExecuteMsg::CreateHelpRequest { to_username, amount, description, proof_type } => {
            execute_create_help_request(
                state,
                now,
                sender,
                to_username,
                amount,
                description,
                proof_type,
                &info.funds,
            )
        },
        ExecuteMsg::SubmitProof { payment_id, proof_data } => execute_submit_proof(
            state,
            now,
            sender,
            payment_id,
            proof_data,
        ),
        ExecuteMsg::ApprovePayment { payment_id } => execute_approve_payment(
            state,
            now,
            sender,
            payment_id,
            &info.funds,
        ),
        ExecuteMsg::RejectPayment { payment_id } => execute_reject_payment(
            state,
            now,
            sender,
            payment_id,
        ),
        ExecuteMsg::CancelPayment { payment_id } => execute_cancel_payment(
            state,
            now,
            sender,
            payment_id,
        ),
        ExecuteMsg::CreateTask {
            to_username,
            amount,
            description,
            proof_type,
            deadline_ts,
            review_window_secs,
            endpoint,
        } => crate::tasks::execute_create_task(
            state,
            now,
            sender,
            to_username,
            amount,
            description,
            proof_type,
            deadline_ts,
            review_window_secs,
            endpoint,
            &info.funds,
        ),
        ExecuteMsg::SubmitSoftEvidence { task_id, evidence_hash } => {
            crate::tasks::execute_submit_soft_evidence(state, now, sender, task_id, evidence_hash)
        },
        ExecuteMsg::SubmitZkTlsProof { task_id, proof_blob_or_ref, zk_proof_hash } => {
            crate::tasks::execute_submit_zktls_proof(
                state,
                now,
                sender,
                task_id,
                proof_blob_or_ref,
                zk_proof_hash,
            )
        },
        ExecuteMsg::ApproveTask { task_id } => crate::tasks::execute_approve_task(
            state,
            now,
            sender,
            task_id,
            &info.funds,
        ),
        ExecuteMsg::DisputeTask { task_id, reason_hash } => crate::tasks::execute_dispute_task(
            state,
            now,
            sender,
            task_id,
            reason_hash,
        ),
        ExecuteMsg::ResolveDispute { task_id, decision } => crate::tasks::execute_resolve_dispute(
            state,
            now,
            sender,
            task_id,
            decision,
        ),
        ExecuteMsg::ReleaseIfWindowElapsed { task_id } => {
            crate::tasks::execute_release_if_window_elapsed(state, now, task_id)
        },
        ExecuteMsg::RefundIfExpired { task_id } => crate::tasks::execute_refund_if_expired(
            state,
            now,
            task_id,
        ),
    }
}

/// Route a query to its handler.  The dispatcher answers each message
/// exactly as the handler's contract says, wrapped in the matching answer
/// variant.
pub fn query(s: &ContractState, msg: QueryMsg) -> (r: Result<QueryAnswer, ContractError>)
    requires
        wf(*s),
    ensures
        msg matches QueryMsg::GetUserByUsername { username } ==> {
            &&& (r is Ok <==> has_name(s.users@, username@))
            &&& (r is Ok ==> (r->Ok_0 matches QueryAnswer::User(a) && a.user == s.users@[name_idx(
                s.users@,
                username@,
            )]))
            &&& (r is Err ==> r->Err_0 == (ContractError::UserNotFound {}))
        },
        msg matches QueryMsg::GetUserByWallet { wallet_address } ==> {
            &&& (r is Ok <==> has_wallet(s.users@, wallet_address@))
            &&& (r is Ok ==> (r->Ok_0 matches QueryAnswer::User(a) && a.user
                == s.users@[wallet_idx(s.users@, wallet_address@)]))
            &&& (r is Err ==> r->Err_0 == (ContractError::UserNotFound {}))
        },
        msg matches QueryMsg::IsUsernameAvailable { username } ==> {
            &&& r is Ok
            &&& (r->Ok_0 matches QueryAnswer::UsernameAvailable(a) && a.available == (
            valid_username(username@) && !has_name(s.users@, username@)))
        },
        msg matches QueryMsg::SearchUsers { query } ==> {
            &&& r is Ok
            &&& (r->Ok_0 matches QueryAnswer::Users(a) && a.users@ == s.users@.filter(
                |u: User| crate::queries::user_matches_query(u, query@),
            ))
        },
        msg matches QueryMsg::GetUsernameByWallet { wallet_address } ==> {
            &&& (r is Ok <==> has_wallet(s.users@, wallet_address@))
            &&& (r is Ok ==> (r->Ok_0 matches QueryAnswer::Username(a) && a.username@
                == s.users@[wallet_idx(s.users@, wallet_address@)].username@))
            &&& (r is Err ==> r->Err_0 == (ContractError::UserNotFound {}))
        },
        msg matches QueryMsg::GetWalletByUsername { username } ==> {
            &&& (r is Ok <==> has_name(s.users@, username@))
            &&& (r is Ok ==> (r->Ok_0 matches QueryAnswer::Wallet(a) && a.wallet_address@
                == s.users@[name_idx(s.users@, username@)].wallet_address@))
            &&& (r is Err ==> r->Err_0 == (ContractError::UserNotFound {}))
        },
        msg matches QueryMsg::HasUsername { wallet_address } ==> {
            &&& r is Ok
            &&& (r->Ok_0 matches QueryAnswer::HasUsername(a) && a.has_username == has_wallet(
                s.users@,
                wallet_address@,
            ))
        },
        msg matches QueryMsg::GetUserFriends { username } ==> {
            &&& r is Ok
            &&& (r->Ok_0 matches QueryAnswer::Friends(a) && a.friends@ == s.friendships@.filter(
                |f: Friendship| fold(f.user1@) == fold(username@),
            ).map_values(|f: Friendship| f.user2))
        },
        msg matches QueryMsg::GetPendingRequests { username } ==> {
            &&& r is Ok
            &&& (r->Ok_0 matches QueryAnswer::FriendRequests(a) && a.requests@
                == s.friend_requests@.filter(
                |rq: FriendRequest| crate::queries::request_pending_for(rq, username@),
            ))
        },
        msg matches QueryMsg::AreFriends { username1, username2 } ==> {
            &&& r is Ok
            &&& (r->Ok_0 matches QueryAnswer::AreFriends(a) && a.are_friends == friends_dir(
                s.friendships@,
                username1@,
                username2@,
            ))
        },
        msg matches QueryMsg::GetPaymentById { payment_id } ==> {
            &&& (r is Ok <==> 1 <= payment_id <= s.payments@.len())
            &&& (r is Ok ==> (r->Ok_0 matches QueryAnswer::Payment(a) && a.payment
                == s.payments@[payment_id - 1]))
            &&& (r is Err ==> r->Err_0 == (ContractError::PaymentNotFound {}))
        },
        msg matches QueryMsg::GetPaymentHistory { username } ==> {
            &&& r is Ok
            &&& (r->Ok_0 matches QueryAnswer::Payments(a) && a.payments@ == s.payments@.filter(
                |p: Payment| crate::queries::payment_involves(p, username@),
            ))
        },
        msg matches QueryMsg::GetPendingPayments { username } ==> {
            &&& r is Ok
            &&& (r->Ok_0 matches QueryAnswer::Payments(a) && a.payments@ == s.payments@.filter(
                |p: Payment| crate::queries::payment_pending_for(p, username@),
            ))
        },
        msg matches QueryMsg::GetTaskById { task_id } ==> {
            &&& (r is Ok <==> 1 <= task_id <= s.tasks@.len())
            &&& (r is Ok ==> (r->Ok_0 matches QueryAnswer::Task(a) && a.task == s.tasks@[task_id
                - 1]))
            &&& (r is Err ==> r->Err_0 == (ContractError::TaskNotFound {}))
        },
        msg matches QueryMsg::GetTaskHistory { username } ==> {
            &&& r is Ok
            &&& (r->Ok_0 matches QueryAnswer::Tasks(a) && a.tasks@ == s.tasks@.filter(
                |t: Task| crate::queries::task_involves(t, username@),
            ))
        },
        msg matches QueryMsg::GetPendingTasks { username } ==> {
            &&& r is Ok
            &&& (r->Ok_0 matches QueryAnswer::Tasks(a) && a.tasks@ == s.tasks@.filter(
                |t: Task| crate::queries::task_pending_for(t, username@),
            ))
        },
        msg matches QueryMsg::GetStats {  } ==> {
            &&& r is Ok
            &&& (r->Ok_0 matches QueryAnswer::Stats(a) && a.total_users == s.stats.total_users
                && a.total_payments == s.stats.total_payments && a.total_volume
                == s.stats.total_volume)
        },
{
    match msg {
        QueryMsg::GetUserByUsername { username } => {
            match crate::queries::query_user_by_username(s, username.as_str()) {
                Ok(a) => Ok(QueryAnswer::User(a)),
                Err(e) => Err(e),
            }
        },
        QueryMsg::GetUserByWallet { wallet_address } => {
            match crate::queries::query_user_by_wallet(s, wallet_address.as_str()) {
                Ok(a) => Ok(QueryAnswer::User(a)),
                Err(e) => Err(e),
            }
        },
        QueryMsg::IsUsernameAvailable { username } => Ok(
            QueryAnswer::UsernameAvailable(
                crate::queries::query_username_available(s, username.as_str()),
            ),
        ),
        QueryMsg::SearchUsers { query } => Ok(
            QueryAnswer::Users(crate::queries::query_search_users(s, query.as_str())),
        ),
        QueryMsg::GetUsernameByWallet { wallet_address } => {
            match crate::queries::query_username_by_wallet(s, wallet_address.as_str()) {
                Ok(a) => Ok(QueryAnswer::Username(a)),
                Err(e) => Err(e),
            }
        },
        QueryMsg::GetWalletByUsername { username } => {
            match crate::queries::query_wallet_by_username(s, username.as_str()) {
                Ok(a) => Ok(QueryAnswer::Wallet(a)),
                Err(e) => Err(e),
            }
        },
        QueryMsg::HasUsername { wallet_address } => Ok(
            QueryAnswer::HasUsername(crate::queries::query_has_username(s, wallet_address.as_str())),
        ),
        QueryMsg::GetUserFriends { username } => Ok(
            QueryAnswer::Friends(crate::queries::query_user_friends(s, username.as_str())),
        ),
        QueryMsg::GetPendingRequests { username } => Ok(
            QueryAnswer::FriendRequests(
                crate::queries::query_pending_requests(s, username.as_str()),
            ),
        ),
        QueryMsg::AreFriends { username1, username2 } => Ok(
            QueryAnswer::AreFriends(
                crate::queries::query_are_friends(s, username1.as_str(), username2.as_str()),
            ),
        ),
        QueryMsg::GetPaymentById { payment_id } => {
            match crate::queries::query_payment_by_id(s, payment_id) {
                Ok(a) => Ok(QueryAnswer::Payment(a)),
                Err(e) => Err(e),
            }
        },
        QueryMsg::GetPaymentHistory { username } => Ok(
            QueryAnswer::Payments(crate::queries::query_payment_history(s, username.as_str())),
        ),
        QueryMsg::GetPendingPayments { username } => Ok(
            QueryAnswer::Payments(crate::queries::query_pending_payments(s, username.as_str())),
        ),
        QueryMsg::GetTaskById { task_id } => {
            match crate::queries::query_task_by_id(s, task_id) {
                Ok(a) => Ok(QueryAnswer::Task(a)),
                Err(e) => Err(e),
            }
        },
        QueryMsg::GetTaskHistory { username } => Ok(
            QueryAnswer::Tasks(crate::queries::query_task_history(s, username.as_str())),
        ),
        QueryMsg::GetPendingTasks { username } => Ok(
            QueryAnswer::Tasks(crate::queries::query_pending_tasks(s, username.as_str())),
        ),
        QueryMsg::GetStats {  } => Ok(QueryAnswer::Stats(crate::queries::query_stats(s))),
    }
}

} // verus!
