//! Read-only views over the store: directory lookups, the social graph,
//! record lookups, per-account histories and the aggregate counters.

use vstd::prelude::*;

use crate::error::ContractError;
use crate::msg::AreFriendsResponse;
use crate::msg::FriendRequestsResponse;
use crate::msg::FriendsResponse;
use crate::msg::HasUsernameResponse;
use crate::msg::PaymentResponse;
use crate::msg::PaymentsResponse;
use crate::msg::StatsResponse;
use crate::msg::TaskResponse;
use crate::msg::TasksResponse;
use crate::msg::UserResponse;
use crate::msg::UsernameAvailableResponse;
use crate::msg::UsernameResponse;
use crate::msg::UsersResponse;
use crate::msg::WalletResponse;
use crate::state::ContractState;
use crate::state::FriendRequest;
use crate::state::FriendRequestStatus;
use crate::state::Friendship;
use crate::state::Payment;
use crate::state::PaymentStatus;
use crate::state::Task;
use crate::state::TaskStatus;
use crate::state::User;
use crate::state::validate_username;
use crate::state::find_user_by_name;
use crate::state::find_user_by_wallet;
use crate::state::friends_dir;
use crate::state::friendship_matches;
use crate::state::has_name;
use crate::state::has_wallet;
use crate::state::lemma_name_idx;
use crate::state::lemma_wallet_idx;
use crate::state::name_idx;
use crate::state::task_terminal;
use crate::state::valid_username;
use crate::state::wallet_idx;
use crate::state::wf;
use crate::text::contains_ignore_case;
use crate::text::contains_seq;
use crate::text::eq_ignore_case;
use crate::text::fold;

verus! {

/// Look an account up by handle.
pub fn query_user_by_username(s: &ContractState, username: &str) -> (r: Result<
    UserResponse,
    ContractError,
>)
    requires
        wf(*s),
    ensures
        r is Ok <==> has_name(s.users@, username@),
        r is Ok ==> r->Ok_0.user == s.users@[name_idx(s.users@, username@)],
        r is Err ==> r->Err_0 == (ContractError::UserNotFound {}),
{
    match find_user_by_name(&s.users, username) {
        Some(i) => {
            proof {
                lemma_name_idx(s.users@, username@, i as int);
            }
            Ok(UserResponse { user: s.users[i].duplicate() })
        },
        None => Err(ContractError::UserNotFound {}),
    }
}

/// Look an account up by wallet address.
pub fn query_user_by_wallet(s: &ContractState, wallet_address: &str) -> (r: Result<
    UserResponse,
    ContractError,
>)
    requires
        wf(*s),
    ensures
        r is Ok <==> has_wallet(s.users@, wallet_address@),
        r is Ok ==> r->Ok_0.user == s.users@[wallet_idx(s.users@, wallet_address@)],
        r is Err ==> r->Err_0 == (ContractError::UserNotFound {}),
{
    match find_user_by_wallet(&s.users, wallet_address) {
        Some(i) => {
            proof {
                lemma_wallet_idx(s.users@, wallet_address@, i as int);
            }
            Ok(UserResponse { user: s.users[i].duplicate() })
        },
        None => Err(ContractError::UserNotFound {}),
    }
}

/// Whether a handle could still be registered: it must be valid and not
/// taken by any account, up to case folding.
pub fn query_username_available(s: &ContractState, username: &str) -> (r:
    UsernameAvailableResponse)
    ensures
        r.available == (valid_username(username@) && !has_name(s.users@, username@)),
{
    let valid = validate_username(username);
    if !valid {
        return UsernameAvailableResponse { available: false };
    }
    match find_user_by_name(&s.users, username) {
        Some(i) => {
            proof {
                assert((i as int) < s.users@.len() && fold(
                    (#[trigger] s.users@[i as int]).username@,
                ) == fold(username@));
            }
            UsernameAvailableResponse { available: false }
        },
        None => UsernameAvailableResponse { available: true },
    }
}

/// Whether an account matches a search query: its handle or display name
/// contains the query, ignoring ASCII case.
pub open spec fn user_matches_query(u: User, q: Seq<char>) -> bool {
    contains_seq(fold(u.username@), fold(q)) || contains_seq(fold(u.display_name@), fold(q))
}

/// All accounts matching a search query, in registration order.
pub fn query_search_users(s: &ContractState, query: &str) -> (r: UsersResponse)
    ensures
        r.users@ == s.users@.filter(|u: User| user_matches_query(u, query@)),
{
    let ghost pred = |u: User| user_matches_query(u, query@);
    let n = s.users.len();
    let mut found: Vec<User> = Vec::new();
    proof {
        reveal(Seq::filter);
        assert(found@ =~= s.users@.subrange(0, 0).filter(pred));
    }
    let mut i: usize = 0;
    while i < n
        invariant
            0 <= i <= n,
            n == s.users@.len(),
            found@ == s.users@.subrange(0, i as int).filter(pred),
            pred == (|u: User| user_matches_query(u, query@)),
        decreases n - i,
    {
        let hit = contains_ignore_case(s.users[i].username.as_str(), query)
            || contains_ignore_case(s.users[i].display_name.as_str(), query);
        if hit {
            found.push(s.users[i].duplicate());
        }
        proof {
            reveal(Seq::filter);
            let prefix = s.users@.subrange(0, i as int);
            let prefix1 = s.users@.subrange(0, i + 1);
            assert(prefix1.drop_last() =~= prefix);
            assert(prefix1.last() == s.users@[i as int]);
            assert(hit == pred(s.users@[i as int]));
        }
        i += 1;
    }
    proof {
        assert(s.users@.subrange(0, n as int) =~= s.users@);
    }
    UsersResponse { users: found }
}

/// The handle registered for a wallet address.
pub fn query_username_by_wallet(s: &ContractState, wallet_address: &str) -> (r: Result<
    UsernameResponse,
    ContractError,
>)
    requires
        wf(*s),
    ensures
        r is Ok <==> has_wallet(s.users@, wallet_address@),
        r is Ok ==> r->Ok_0.username@ == s.users@[wallet_idx(
            s.users@,
            wallet_address@,
        )].username@,
        r is Err ==> r->Err_0 == (ContractError::UserNotFound {}),
{
    match find_user_by_wallet(&s.users, wallet_address) {
        Some(i) => {
            proof {
                lemma_wallet_idx(s.users@, wallet_address@, i as int);
            }
            Ok(UsernameResponse { username: s.users[i].username.clone() })
        },
        None => Err(ContractError::UserNotFound {}),
    }
}

/// The wallet address an account settles to.
pub fn query_wallet_by_username(s: &ContractState, username: &str) -> (r: Result<
    WalletResponse,
    ContractError,
>)
    requires
        wf(*s),
    ensures
        r is Ok <==> has_name(s.users@, username@),
        r is Ok ==> r->Ok_0.wallet_address@ == s.users@[name_idx(
            s.users@,
            username@,
        )].wallet_address@,
        r is Err ==> r->Err_0 == (ContractError::UserNotFound {}),
{
    match find_user_by_name(&s.users, username) {
        Some(i) => {
            proof {
                lemma_name_idx(s.users@, username@, i as int);
            }
            Ok(WalletResponse { wallet_address: s.users[i].wallet_address.clone() })
        },
        None => Err(ContractError::UserNotFound {}),
    }
}

/// Whether a wallet address has registered a handle.
pub fn query_has_username(s: &ContractState, wallet_address: &str) -> (r: HasUsernameResponse)
    ensures
        r.has_username == has_wallet(s.users@, wallet_address@),
{
    match find_user_by_wallet(&s.users, wallet_address) {
        Some(i) => {
            proof {
                assert((i as int) < s.users@.len() && (#[trigger] s.users@[
                i as int]).wallet_address@ == wallet_address@);
            }
            HasUsernameResponse { has_username: true }
        },
        None => HasUsernameResponse { has_username: false },
    }
}

/// The handles an account is friends with, in the order the friendships
/// were recorded.
pub fn query_user_friends(s: &ContractState, username: &str) -> (r: FriendsResponse)
    ensures
        r.friends@ == s.friendships@.filter(
            |f: Friendship| fold(f.user1@) == fold(username@),
        ).map_values(|f: Friendship| f.user2),
{
    let ghost pred = |f: Friendship| fold(f.user1@) == fold(username@);
    let ghost mapf = |f: Friendship| f.user2;
    let n = s.friendships.len();
    let mut found: Vec<String> = Vec::new();
    proof {
        reveal(Seq::filter);
        assert(found@ =~= s.friendships@.subrange(0, 0).filter(pred).map_values(mapf));
    }
    let mut i: usize = 0;
    while i < n
        invariant
            0 <= i <= n,
            n == s.friendships@.len(),
            found@ == s.friendships@.subrange(0, i as int).filter(pred).map_values(mapf),
            pred == (|f: Friendship| fold(f.user1@) == fold(username@)),
            mapf == (|f: Friendship| f.user2),
        decreases n - i,
    {
        let hit = eq_ignore_case(s.friendships[i].user1.as_str(), username);
        if hit {
            found.push(s.friendships[i].user2.clone());
        }
        proof {
            reveal(Seq::filter);
            let prefix = s.friendships@.subrange(0, i as int);
            let prefix1 = s.friendships@.subrange(0, i + 1);
            assert(prefix1.drop_last() =~= prefix);
            assert(prefix1.last() == s.friendships@[i as int]);
            assert(hit == pred(s.friendships@[i as int]));
            if hit {
                assert(prefix1.filter(pred) == prefix.filter(pred).push(s.friendships@[i as int]));
                assert(prefix1.filter(pred).map_values(mapf) =~= prefix.filter(pred).map_values(
                    mapf,
                ).push(s.friendships@[i as int].user2));
            } else {
                assert(prefix1.filter(pred) == prefix.filter(pred));
            }
        }
        i += 1;
    }
    proof {
        assert(s.friendships@.subrange(0, n as int) =~= s.friendships@);
    }
    FriendsResponse { friends: found }
}

/// Whether a friend request is waiting for `to`'s answer from `from`.
pub open spec fn request_pending_for(rq: FriendRequest, to: Seq<char>) -> bool {
    fold(rq.to_username@) == fold(to) && rq.status is Pending
}

/// The friend requests waiting for an account's answer, oldest first.
pub fn query_pending_requests(s: &ContractState, username: &str) -> (r: FriendRequestsResponse)
    ensures
        r.requests@ == s.friend_requests@.filter(
            |rq: FriendRequest| request_pending_for(rq, username@),
        ),
{
    let ghost pred = |rq: FriendRequest| request_pending_for(rq, username@);
    let n = s.friend_requests.len();
    let mut found: Vec<FriendRequest> = Vec::new();
    proof {
        reveal(Seq::filter);
        assert(found@ =~= s.friend_requests@.subrange(0, 0).filter(pred));
    }
    let mut i: usize = 0;
    while i < n
        invariant
            0 <= i <= n,
            n == s.friend_requests@.len(),
            found@ == s.friend_requests@.subrange(0, i as int).filter(pred),
            pred == (|rq: FriendRequest| request_pending_for(rq, username@)),
        decreases n - i,
    {
        let hit = eq_ignore_case(s.friend_requests[i].to_username.as_str(), username) && matches!(
            s.friend_requests[i].status,
            FriendRequestStatus::Pending,
        );
        if hit {
            found.push(s.friend_requests[i].duplicate());
        }
        proof {
            reveal(Seq::filter);
            let prefix = s.friend_requests@.subrange(0, i as int);
            let prefix1 = s.friend_requests@.subrange(0, i + 1);
            assert(prefix1.drop_last() =~= prefix);
            assert(prefix1.last() == s.friend_requests@[i as int]);
            assert(hit == pred(s.friend_requests@[i as int]));
        }
        i += 1;
    }
    proof {
        assert(s.friend_requests@.subrange(0, n as int) =~= s.friend_requests@);
    }
    FriendRequestsResponse { requests: found }
}

/// Whether the graph records a friendship from `username1` to `username2`.
/// Friendships are stored in both directions, so the direction asked for
/// does not matter for established friendships.
pub fn query_are_friends(s: &ContractState, username1: &str, username2: &str) -> (r:
    AreFriendsResponse)
    ensures
        r.are_friends == friends_dir(s.friendships@, username1@, username2@),
{
    match crate::state::find_friendship(&s.friendships, username1, username2) {
        Some(i) => {
            proof {
                assert((i as int) < s.friendships@.len() && friendship_matches(
                    #[trigger] s.friendships@[i as int],
                    username1@,
                    username2@,
                ));
            }
            AreFriendsResponse { are_friends: true }
        },
        None => AreFriendsResponse { are_friends: false },
    }
}

/// Look a payment record up by identifier.
pub fn query_payment_by_id(s: &ContractState, payment_id: u64) -> (r: Result<
    PaymentResponse,
    ContractError,
>)
    ensures
        r is Ok <==> 1 <= payment_id <= s.payments@.len(),
        r is Ok ==> r->Ok_0.payment == s.payments@[payment_id - 1],
        r is Err ==> r->Err_0 == (ContractError::PaymentNotFound {}),
{
    let n = s.payments.len();
    if payment_id < 1 || payment_id > (n as u64) {
        return Err(ContractError::PaymentNotFound {});
    }
    let i = (payment_id - 1) as usize;
    Ok(PaymentResponse { payment: s.payments[i].duplicate() })
}

/// Whether an account is a party to a payment record.
pub open spec fn payment_involves(p: Payment, name: Seq<char>) -> bool {
    fold(p.from_username@) == fold(name) || fold(p.to_username@) == fold(name)
}

/// All payment records an account is a party to, oldest first.
pub fn query_payment_history(s: &ContractState, username: &str) -> (r: PaymentsResponse)
    ensures
        r.payments@ == s.payments@.filter(|p: Payment| payment_involves(p, username@)),
{
    let ghost pred = |p: Payment| payment_involves(p, username@);
    let n = s.payments.len();
    let mut found: Vec<Payment> = Vec::new();
    proof {
        reveal(Seq::filter);
        assert(found@ =~= s.payments@.subrange(0, 0).filter(pred));
    }
    let mut i: usize = 0;
    while i < n
        invariant
            0 <= i <= n,
            n == s.payments@.len(),
            found@ == s.payments@.subrange(0, i as int).filter(pred),
            pred == (|p: Payment| payment_involves(p, username@)),
        decreases n - i,
    {
        let hit = eq_ignore_case(s.payments[i].from_username.as_str(), username) || eq_ignore_case(
            s.payments[i].to_username.as_str(),
            username,
        );
        if hit {
            found.push(s.payments[i].duplicate());
        }
        proof {
            reveal(Seq::filter);
            let prefix = s.payments@.subrange(0, i as int);
            let prefix1 = s.payments@.subrange(0, i + 1);
            assert(prefix1.drop_last() =~= prefix);
            assert(prefix1.last() == s.payments@[i as int]);
            assert(hit == pred(s.payments@[i as int]));
        }
        i += 1;
    }
    proof {
        assert(s.payments@.subrange(0, n as int) =~= s.payments@);
    }
    PaymentsResponse { payments: found }
}

/// Whether a payment record still waits for action.
pub open spec fn payment_pending_for(p: Payment, name: Seq<char>) -> bool {
    payment_involves(p, name) && (p.status is Pending || p.status is ProofSubmitted)
}

/// The open payment records an account is a party to, oldest first.
pub fn query_pending_payments(s: &ContractState, username: &str) -> (r: PaymentsResponse)
    ensures
        r.payments@ == s.payments@.filter(|p: Payment| payment_pending_for(p, username@)),
{
    let ghost pred = |p: Payment| payment_pending_for(p, username@);
    let n = s.payments.len();
    let mut found: Vec<Payment> = Vec::new();
    proof {
        reveal(Seq::filter);
        assert(found@ =~= s.payments@.subrange(0, 0).filter(pred));
    }
    let mut i: usize = 0;
    while i < n
        invariant
            0 <= i <= n,
            n == s.payments@.len(),
            found@ == s.payments@.subrange(0, i as int).filter(pred),
            pred == (|p: Payment| payment_pending_for(p, username@)),
        decreases n - i,
    {
        let involved = eq_ignore_case(s.payments[i].from_username.as_str(), username)
            || eq_ignore_case(s.payments[i].to_username.as_str(), username);
        let hit = involved && matches!(
            s.payments[i].status,
            PaymentStatus::Pending | PaymentStatus::ProofSubmitted,
        );
        if hit {
            found.push(s.payments[i].duplicate());
        }
        proof {
            reveal(Seq::filter);
            let prefix = s.payments@.subrange(0, i as int);
            let prefix1 = s.payments@.subrange(0, i + 1);
            assert(prefix1.drop_last() =~= prefix);
            assert(prefix1.last() == s.payments@[i as int]);
            assert(hit == pred(s.payments@[i as int]));
        }
        i += 1;
    }
    proof {
        assert(s.payments@.subrange(0, n as int) =~= s.payments@);
    }
    PaymentsResponse { payments: found }
}

/// Look a task record up by identifier.
pub fn query_task_by_id(s: &ContractState, task_id: u64) -> (r: Result<
    TaskResponse,
    ContractError,
>)
    ensures
        r is Ok <==> 1 <= task_id <= s.tasks@.len(),
        r is Ok ==> r->Ok_0.task == s.tasks@[task_id - 1],
        r is Err ==> r->Err_0 == (ContractError::TaskNotFound {}),
{
    let n = s.tasks.len();
    if task_id < 1 || task_id > (n as u64) {
        return Err(ContractError::TaskNotFound {});
    }
    let i = (task_id - 1) as usize;
    Ok(TaskResponse { task: s.tasks[i].duplicate() })
}

/// Whether an account is a party to a task record.
pub open spec fn task_involves(t: Task, name: Seq<char>) -> bool {
    fold(t.payer@) == fold(name) || fold(t.worker@) == fold(name)
}

/// All task records an account is a party to, oldest first.
pub fn query_task_history(s: &ContractState, username: &str) -> (r: TasksResponse)
    ensures
        r.tasks@ == s.tasks@.filter(|t: Task| task_involves(t, username@)),
{
    let ghost pred = |t: Task| task_involves(t, username@);
    let n = s.tasks.len();
    let mut found: Vec<Task> = Vec::new();
    proof {
        reveal(Seq::filter);
        assert(found@ =~= s.tasks@.subrange(0, 0).filter(pred));
    }
    let mut i: usize = 0;
    while i < n
        invariant
            0 <= i <= n,
            n == s.tasks@.len(),
            found@ == s.tasks@.subrange(0, i as int).filter(pred),
            pred == (|t: Task| task_involves(t, username@)),
        decreases n - i,
    {
        let hit = eq_ignore_case(s.tasks[i].payer.as_str(), username) || eq_ignore_case(
            s.tasks[i].worker.as_str(),
            username,
        );
        if hit {
            found.push(s.tasks[i].duplicate());
        }
        proof {
            reveal(Seq::filter);
            let prefix = s.tasks@.subrange(0, i as int);
            let prefix1 = s.tasks@.subrange(0, i + 1);
            assert(prefix1.drop_last() =~= prefix);
            assert(prefix1.last() == s.tasks@[i as int]);
            assert(hit == pred(s.tasks@[i as int]));
        }
        i += 1;
    }
    proof {
        assert(s.tasks@.subrange(0, n as int) =~= s.tasks@);
    }
    TasksResponse { tasks: found }
}

/// Whether a task record is still in flight.
pub open spec fn task_pending_for(t: Task, name: Seq<char>) -> bool {
    task_involves(t, name) && !task_terminal(t.status)
}

/// The task records an account is a party to that are not yet settled,
/// oldest first.
pub fn query_pending_tasks(s: &ContractState, username: &str) -> (r: TasksResponse)
    ensures
        r.tasks@ == s.tasks@.filter(|t: Task| task_pending_for(t, username@)),
{
    let ghost pred = |t: Task| task_pending_for(t, username@);
    let n = s.tasks.len();
    let mut found: Vec<Task> = Vec::new();
    proof {
        reveal(Seq::filter);
        assert(found@ =~= s.tasks@.subrange(0, 0).filter(pred));
    }
    let mut i: usize = 0;
    while i < n
        invariant
            0 <= i <= n,
            n == s.tasks@.len(),
            found@ == s.tasks@.subrange(0, i as int).filter(pred),
            pred == (|t: Task| task_pending_for(t, username@)),
        decreases n - i,
    {
        let involved = eq_ignore_case(s.tasks[i].payer.as_str(), username) || eq_ignore_case(
            s.tasks[i].worker.as_str(),
            username,
        );
        let hit = involved && !matches!(
            s.tasks[i].status,
            TaskStatus::Released | TaskStatus::Refunded,
        );
        if hit {
            found.push(s.tasks[i].duplicate());
        }
        proof {
            reveal(Seq::filter);
            let prefix = s.tasks@.subrange(0, i as int);
            let prefix1 = s.tasks@.subrange(0, i + 1);
            assert(prefix1.drop_last() =~= prefix);
            assert(prefix1.last() == s.tasks@[i as int]);
            assert(hit == pred(s.tasks@[i as int]));
        }
        i += 1;
    }
    proof {
        assert(s.tasks@.subrange(0, n as int) =~= s.tasks@);
    }
    TasksResponse { tasks: found }
}

/// The aggregate counters.
pub fn query_stats(s: &ContractState) -> (r: StatsResponse)
    ensures
        r.total_users == s.stats.total_users,
        r.total_payments == s.stats.total_payments,
        r.total_volume == s.stats.total_volume,
{
    StatsResponse {
        total_users: s.stats.total_users,
        total_payments: s.stats.total_payments,
        total_volume: s.stats.total_volume,
    }
}

} // verus!
