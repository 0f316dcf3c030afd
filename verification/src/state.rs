//! The record store: accounts, the social graph, payment and task records,
//! the escrow ledger and the aggregate counters, together with the
//! well-formedness invariant every entry point preserves.

use vstd::prelude::*;
use vstd::string::StrSliceExecFns;

use crate::text::eq_ignore_case;
use crate::text::fold;
use crate::text::str_eq;

verus! {

/// Longest description a record may carry, in characters.
pub const MAX_DESCRIPTION_LEN: usize = 500;

/// Largest piece of evidence a record may carry, in characters.
pub const MAX_PROOF_SIZE: usize = 10000;

/// Longest dispute reason a record may carry, in characters.
pub const MAX_DISPUTE_REASON_LEN: usize = 200;

/// An asset amount: a denomination and a non-negative quantity.
#[derive(Debug)]
pub struct Coin {
    pub denom: String,
    pub amount: u128,
}

impl Coin {
    /// A fresh value equal to this one.
    pub fn duplicate(&self) -> (r: Coin)
        ensures
            r == *self,
    {
        Coin { denom: self.denom.clone(), amount: self.amount }
    }
}

/// A registered account: the wallet address it settles to and its handle.
#[derive(Debug)]
pub struct User {
    pub wallet_address: String,
    pub username: String,
    pub display_name: String,
    pub profile_picture: Option<String>,
    pub created_at: u64,
    pub updated_at: u64,
}

impl User {
    /// A fresh value equal to this one.
    pub fn duplicate(&self) -> (r: User)
        ensures
            r == *self,
    {
        User {
            wallet_address: self.wallet_address.clone(),
            username: self.username.clone(),
            display_name: self.display_name.clone(),
            profile_picture: match &self.profile_picture {
                Some(p) => Some(p.clone()),
                None => None,
            },
            created_at: self.created_at,
            updated_at: self.updated_at,
        }
    }
}

/// An established friendship, stored in both directions.
#[derive(Debug)]
pub struct Friendship {
    pub user1: String,
    pub user2: String,
    pub created_at: u64,
}

impl Friendship {
    /// A fresh value equal to this one.
    pub fn duplicate(&self) -> (r: Friendship)
        ensures
            r == *self,
    {
        Friendship {
            user1: self.user1.clone(),
            user2: self.user2.clone(),
            created_at: self.created_at,
        }
    }
}

/// Status of a friend request.
#[derive(Debug, Clone, Copy, PartialEq, Eq, Structural)]
pub enum FriendRequestStatus {
    Pending,
    Accepted,
    Declined,
}

/// A friend request from one account to another.
#[derive(Debug)]
pub struct FriendRequest {
    pub from_username: String,
    pub to_username: String,
    pub status: FriendRequestStatus,
    pub created_at: u64,
    pub updated_at: u64,
}

impl FriendRequest {
    /// A fresh value equal to this one.
    pub fn duplicate(&self) -> (r: FriendRequest)
        ensures
            r == *self,
    {
        FriendRequest {
            from_username: self.from_username.clone(),
            to_username: self.to_username.clone(),
            status: self.status,
            created_at: self.created_at,
            updated_at: self.updated_at,
        }
    }
}

/// How a payment record came to be, which fixes who funds it and who is
/// paid: a direct payment and a help request are funded by `from` and paid
/// to `to`; a payment request is a demand by `from` that `to` funds.
#[derive(Debug, Clone, Copy, PartialEq, Eq, Structural)]
pub enum PaymentType {
    DirectPayment,
    PaymentRequest,
    HelpRequest,
}

/// Status of a payment record.
#[derive(Debug, Clone, Copy, PartialEq, Eq, Structural)]
pub enum PaymentStatus {
    Pending,
    ProofSubmitted,
    Completed,
    Rejected,
    Cancelled,
}

/// The proof policy of a record.  Payment records carry one of the manual
/// policies (`NoProof` through `Manual`); task records carry `Soft`,
/// `ZkTLS` or `Hybrid`.
#[derive(Debug, Clone, Copy, PartialEq, Eq, Structural)]
pub enum ProofType {
    NoProof,
    Photo,
    Document,
    Location,
    ZkTLS,
    Manual,
    Soft,
    Hybrid,
}

/// A payment record.
#[derive(Debug)]
pub struct Payment {
    pub id: u64,
    pub from_username: String,
    pub to_username: String,
    pub amount: Coin,
    pub description: String,
    pub payment_type: PaymentType,
    pub proof_type: ProofType,
    pub proof_data: Option<String>,
    pub status: PaymentStatus,
    pub created_at: u64,
    pub updated_at: u64,
}

impl Payment {
    /// A fresh value equal to this one.
    pub fn duplicate(&self) -> (r: Payment)
        ensures
            r == *self,
    {
        Payment {
            id: self.id,
            from_username: self.from_username.clone(),
            to_username: self.to_username.clone(),
            amount: self.amount.duplicate(),
            description: self.description.clone(),
            payment_type: self.payment_type,
            proof_type: self.proof_type,
            proof_data: match &self.proof_data {
                Some(p) => Some(p.clone()),
                None => None,
            },
            status: self.status,
            created_at: self.created_at,
            updated_at: self.updated_at,
        }
    }
}

/// Status of a task record.
#[derive(Debug, Clone, Copy, PartialEq, Eq, Structural)]
pub enum TaskStatus {
    Escrowed,
    ProofSubmitted,
    PendingRelease,
    Released,
    Disputed,
    Refunded,
}

/// A task record: work by `worker` for `payer`, settled under a `Soft`,
/// `ZkTLS` or `Hybrid` proof policy.
#[derive(Debug)]
pub struct Task {
    pub id: u64,
    pub payer: String,
    pub worker: String,
    pub amount: Coin,
    pub proof_type: ProofType,
    pub status: TaskStatus,
    pub deadline_ts: u64,
    pub review_window_secs: Option<u64>,
    pub endpoint: String,
    pub evidence_hash: Option<String>,
    pub zk_proof_hash: Option<String>,
    pub verified_at: Option<u64>,
    pub verifier_id: Option<String>,
    pub dispute_reason: Option<String>,
    pub description: String,
    pub created_at: u64,
    pub updated_at: u64,
}

impl Task {
    /// A fresh value equal to this one.
    pub fn duplicate(&self) -> (r: Task)
        ensures
            r == *self,
    {
        Task {
            id: self.id,
            payer: self.payer.clone(),
            worker: self.worker.clone(),
            amount: self.amount.duplicate(),
            proof_type: self.proof_type,
            status: self.status,
            deadline_ts: self.deadline_ts,
            review_window_secs: self.review_window_secs,
            endpoint: self.endpoint.clone(),
            evidence_hash: match &self.evidence_hash {
                Some(p) => Some(p.clone()),
                None => None,
            },
            zk_proof_hash: match &self.zk_proof_hash {
                Some(p) => Some(p.clone()),
                None => None,
            },
            verified_at: self.verified_at,
            verifier_id: match &self.verifier_id {
                Some(p) => Some(p.clone()),
                None => None,
            },
            dispute_reason: match &self.dispute_reason {
                Some(p) => Some(p.clone()),
                None => None,
            },
            description: self.description.clone(),
            created_at: self.created_at,
            updated_at: self.updated_at,
        }
    }
}

/// Static configuration: the admin account, which is the designated arbiter
/// for disputed tasks.
#[derive(Debug)]
pub struct Config {
    pub admin: String,
}

/// Aggregate counters over the store.
#[derive(Debug)]
pub struct Stats {
    pub total_users: u64,
    pub total_payments: u64,
    pub total_volume: u128,
}

/// The whole persistent store of the engine.  Record identifiers are
/// assigned monotonically from 1, so the record with identifier `n` is the
/// `n - 1`-th element of its vector; the two escrow vectors run parallel to
/// the record vectors and hold what the engine currently holds for each
/// record.
#[derive(Debug)]
pub struct ContractState {
    pub config: Config,
    pub next_payment_id: u64,
    pub next_task_id: u64,
    pub users: Vec<User>,
    pub friendships: Vec<Friendship>,
    pub friend_requests: Vec<FriendRequest>,
    pub payments: Vec<Payment>,
    pub payment_escrow: Vec<u128>,
    pub tasks: Vec<Task>,
    pub task_escrow: Vec<u128>,
    pub stats: Stats,
}

/// Whether `c` may occur in a handle: ASCII letters, digits and underscore.
pub open spec fn username_char(c: char) -> bool {
    let u = c as u32;
    (48 <= u && u <= 57) || (65 <= u && u <= 90) || (97 <= u && u <= 122) || u == 95
}

/// A valid handle: 3 to 20 characters, ASCII letters, digits or underscore.
/// Handles that differ only in ASCII case name the same account.  The
/// alphabet is deliberately ASCII-only, so that the case folding every
/// lookup applies is total and two visually distinct handles can never
/// collide under it.
pub open spec fn valid_username(n: Seq<char>) -> bool {
    3 <= n.len() && n.len() <= 20 && forall|i: int| 0 <= i < n.len() ==> username_char(#[trigger] n[i])
}

/// Whether some account settles to wallet address `w`.
pub open spec fn has_wallet(users: Seq<User>, w: Seq<char>) -> bool {
    exists|j: int| 0 <= j < users.len() && (#[trigger] users[j]).wallet_address@ == w
}

/// The index of the account with wallet address `w` (unique in a
/// well-formed store).
pub open spec fn wallet_idx(users: Seq<User>, w: Seq<char>) -> int {
    choose|j: int| 0 <= j < users.len() && (#[trigger] users[j]).wallet_address@ == w
}

/// The registered handle of the account with wallet address `w`.
pub open spec fn sender_name(users: Seq<User>, w: Seq<char>) -> Seq<char> {
    users[wallet_idx(users, w)].username@
}

/// Whether some account's handle case-folds to the same as `n`.
pub open spec fn has_name(users: Seq<User>, n: Seq<char>) -> bool {
    exists|j: int| 0 <= j < users.len() && fold((#[trigger] users[j]).username@) == fold(n)
}

/// The index of the account whose handle case-folds like `n`.
pub open spec fn name_idx(users: Seq<User>, n: Seq<char>) -> int {
    choose|j: int| 0 <= j < users.len() && fold((#[trigger] users[j]).username@) == fold(n)
}

/// Whether some account's handle is exactly `n`.
pub open spec fn has_exact_name(users: Seq<User>, n: Seq<char>) -> bool {
    exists|j: int| 0 <= j < users.len() && (#[trigger] users[j]).username@ == n
}

/// The index of the account whose handle is exactly `n`.
pub open spec fn exact_name_idx(users: Seq<User>, n: Seq<char>) -> int {
    choose|j: int| 0 <= j < users.len() && (#[trigger] users[j]).username@ == n
}

/// The wallet address of the account whose handle is exactly `n`.
pub open spec fn wallet_of(users: Seq<User>, n: Seq<char>) -> Seq<char> {
    users[exact_name_idx(users, n)].wallet_address@
}

/// Amount of denomination `denom` attached to a call.  A call attaches
/// either nothing or a single coin; anything else is rejected outright.
pub open spec fn sent_amount(funds: Seq<Coin>, denom: Seq<char>) -> u128 {
    if funds.len() == 1 && funds[0].denom@ == denom {
        funds[0].amount
    } else {
        0
    }
}

/// Whether friend request `r` is the one from `from` to `to`, under case
/// folding.
pub open spec fn request_matches(r: FriendRequest, from: Seq<char>, to: Seq<char>) -> bool {
    fold(r.from_username@) == fold(from) && fold(r.to_username@) == fold(to)
}

/// Whether the request book holds a request from `from` to `to`.
pub open spec fn has_request(rs: Seq<FriendRequest>, from: Seq<char>, to: Seq<char>) -> bool {
    exists|j: int| 0 <= j < rs.len() && request_matches(#[trigger] rs[j], from, to)
}

/// The index of the request from `from` to `to` (unique in a well-formed
/// store).
pub open spec fn request_idx(rs: Seq<FriendRequest>, from: Seq<char>, to: Seq<char>) -> int {
    choose|j: int| 0 <= j < rs.len() && request_matches(#[trigger] rs[j], from, to)
}

/// Whether friendship entry `f` goes from `a` to `b`, under case folding.
pub open spec fn friendship_matches(f: Friendship, a: Seq<char>, b: Seq<char>) -> bool {
    fold(f.user1@) == fold(a) && fold(f.user2@) == fold(b)
}

/// Whether entry `f` links `a` and `b` in either direction.
pub open spec fn friendship_between(f: Friendship, a: Seq<char>, b: Seq<char>) -> bool {
    friendship_matches(f, a, b) || friendship_matches(f, b, a)
}

/// Whether the graph holds an entry from `a` to `b` in that direction.
pub open spec fn friends_dir(fs: Seq<Friendship>, a: Seq<char>, b: Seq<char>) -> bool {
    exists|j: int| 0 <= j < fs.len() && friendship_matches(#[trigger] fs[j], a, b)
}

/// The request book holds at most one request per ordered pair.
pub open spec fn requests_wf(rs: Seq<FriendRequest>) -> bool {
    forall|i: int, j: int|
        #![trigger rs[i], rs[j]]
        0 <= i < j < rs.len() ==> !(fold(rs[i].from_username@) == fold(rs[j].from_username@)
            && fold(rs[i].to_username@) == fold(rs[j].to_username@))
}

/// In a well-formed request book any index that matches the ordered pair
/// is the one `request_idx` names.
pub proof fn lemma_request_idx(rs: Seq<FriendRequest>, from: Seq<char>, to: Seq<char>, i: int)
    requires
        requests_wf(rs),
        0 <= i < rs.len(),
        request_matches(rs[i], from, to),
    ensures
        has_request(rs, from, to),
        request_idx(rs, from, to) == i,
{
    assert(has_request(rs, from, to));
    let j = request_idx(rs, from, to);
    assert(0 <= j < rs.len() && request_matches(rs[j], from, to));
    if i < j {
        assert(!(fold(rs[i].from_username@) == fold(rs[j].from_username@) && fold(
            rs[i].to_username@,
        ) == fold(rs[j].to_username@)));
    } else if j < i {
        assert(!(fold(rs[j].from_username@) == fold(rs[i].from_username@) && fold(
            rs[j].to_username@,
        ) == fold(rs[i].to_username@)));
    }
}

/// Look up a friend request by its ordered pair, under case folding.
pub fn find_request(rs: &Vec<FriendRequest>, from: &str, to: &str) -> (r: Option<usize>)
    ensures
        match r {
            Some(i) => i < rs@.len() && request_matches(rs@[i as int], from@, to@),
            None => !has_request(rs@, from@, to@),
        },
{
    let n = rs.len();
    let mut i: usize = 0;
    while i < n
        invariant
            0 <= i <= n,
            n == rs@.len(),
            forall|j: int| 0 <= j < i ==> !request_matches(#[trigger] rs@[j], from@, to@),
        decreases n - i,
    {
        if eq_ignore_case(rs[i].from_username.as_str(), from) && eq_ignore_case(
            rs[i].to_username.as_str(),
            to,
        ) {
            return Some(i);
        }
        i += 1;
    }
    None
}

/// Look up a friendship entry from `a` to `b`, in that direction.
pub fn find_friendship(fs: &Vec<Friendship>, a: &str, b: &str) -> (r: Option<usize>)
    ensures
        match r {
            Some(i) => i < fs@.len() && friendship_matches(fs@[i as int], a@, b@),
            None => !friends_dir(fs@, a@, b@),
        },
{
    let n = fs.len();
    let mut i: usize = 0;
    while i < n
        invariant
            0 <= i <= n,
            n == fs@.len(),
            forall|j: int| 0 <= j < i ==> !friendship_matches(#[trigger] fs@[j], a@, b@),
        decreases n - i,
    {
        if eq_ignore_case(fs[i].user1.as_str(), a) && eq_ignore_case(fs[i].user2.as_str(), b) {
            return Some(i);
        }
        i += 1;
    }
    None
}

/// Terminal payment statuses: the record can never change again.
pub open spec fn payment_terminal(st: PaymentStatus) -> bool {
    st is Completed || st is Rejected || st is Cancelled
}

/// Payment kinds whose declared amount is escrowed at creation.
pub open spec fn payment_escrows(t: PaymentType) -> bool {
    t is DirectPayment || t is HelpRequest
}

/// Proof policies a payment record may carry.
pub open spec fn payment_policy(p: ProofType) -> bool {
    p is NoProof || p is Photo || p is Document || p is Location || p is Manual
}

/// The handle of the party a completed payment settles to.
pub open spec fn payment_beneficiary(p: Payment) -> Seq<char> {
    match p.payment_type {
        PaymentType::PaymentRequest => p.from_username@,
        _ => p.to_username@,
    }
}

/// The handle of the party that funds the payment and approves or rejects
/// submitted evidence.
pub open spec fn payment_funder(p: Payment) -> Seq<char> {
    match p.payment_type {
        PaymentType::PaymentRequest => p.to_username@,
        _ => p.from_username@,
    }
}

/// Terminal task statuses: the record can never change again.
pub open spec fn task_terminal(st: TaskStatus) -> bool {
    st is Released || st is Refunded
}

/// Task policies whose declared amount is escrowed at creation.
pub open spec fn task_escrows(p: ProofType) -> bool {
    p is ZkTLS || p is Hybrid
}

/// Proof policies a task record may carry.
pub open spec fn task_policy(p: ProofType) -> bool {
    p is Soft || p is ZkTLS || p is Hybrid
}

/// Well-formedness of one payment record and its escrow entry.
pub open spec fn payment_wf(users: Seq<User>, p: Payment, held: u128, i: int) -> bool {
    &&& p.id as int == i + 1
    &&& p.amount.amount > 0
    &&& payment_policy(p.proof_type)
    &&& fold(p.from_username@) != fold(p.to_username@)
    &&& has_exact_name(users, p.from_username@)
    &&& has_exact_name(users, p.to_username@)
    &&& held == (if payment_escrows(p.payment_type) && !payment_terminal(p.status) {
        p.amount.amount
    } else {
        0
    })
    &&& (p.status is ProofSubmitted ==> p.proof_data is Some && !(p.proof_type is NoProof))
}

/// Well-formedness of one task record and its escrow entry.
pub open spec fn task_wf(users: Seq<User>, t: Task, held: u128, i: int) -> bool {
    &&& t.id as int == i + 1
    &&& t.amount.amount > 0
    &&& task_policy(t.proof_type)
    &&& fold(t.payer@) != fold(t.worker@)
    &&& has_exact_name(users, t.payer@)
    &&& has_exact_name(users, t.worker@)
    &&& held == (if task_escrows(t.proof_type) && !task_terminal(t.status) {
        t.amount.amount
    } else {
        0
    })
    &&& (t.status is PendingRelease || t.status is Disputed ==> t.proof_type is Hybrid
        && t.verified_at is Some)
    &&& (t.status is ProofSubmitted ==> t.proof_type is Soft && t.evidence_hash is Some)
}

/// Well-formedness of the account directory: valid handles, unique up to
/// case folding, and unique wallet addresses.
pub open spec fn users_wf(users: Seq<User>) -> bool {
    &&& (forall|i: int| 0 <= i < users.len() ==> valid_username((#[trigger] users[i]).username@))
    &&& (forall|i: int, j: int|
        #![trigger users[i], users[j]]
        0 <= i < j < users.len() ==> fold(users[i].username@) != fold(users[j].username@)
            && users[i].wallet_address@ != users[j].wallet_address@)
}

/// The store invariant.  Beyond the directory's well-formedness it ties
/// the monotone identifier counters to the record vectors, runs the escrow
/// ledger parallel to them, and holds each record to its own invariant —
/// in particular that a non-terminal escrowed record holds exactly its
/// declared amount and a terminal record holds nothing.
pub open spec fn wf(s: ContractState) -> bool {
    &&& users_wf(s.users@)
    &&& requests_wf(s.friend_requests@)
    &&& s.next_payment_id as int == s.payments@.len() + 1
    &&& s.next_task_id as int == s.tasks@.len() + 1
    &&& s.payment_escrow@.len() == s.payments@.len()
    &&& s.task_escrow@.len() == s.tasks@.len()
    &&& (forall|i: int|
        0 <= i < s.payments@.len() ==> #[trigger] payment_wf(
            s.users@,
            s.payments@[i],
            s.payment_escrow@[i],
            i,
        ))
    &&& (forall|i: int|
        0 <= i < s.tasks@.len() ==> #[trigger] task_wf(s.users@, s.tasks@[i], s.task_escrow@[i], i))
    &&& s.stats.total_users as int == s.users@.len()
    &&& s.stats.total_payments as int == s.payments@.len()
}

/// In a well-formed directory any index that matches a wallet address is
/// the one `wallet_idx` names.
pub proof fn lemma_wallet_idx(users: Seq<User>, w: Seq<char>, i: int)
    requires
        users_wf(users),
        0 <= i < users.len(),
        users[i].wallet_address@ == w,
    ensures
        has_wallet(users, w),
        wallet_idx(users, w) == i,
{
    assert(has_wallet(users, w));
    let j = wallet_idx(users, w);
    assert(0 <= j < users.len() && users[j].wallet_address@ == w);
    if i < j {
        assert(users[i].wallet_address@ != users[j].wallet_address@);
    } else if j < i {
        assert(users[j].wallet_address@ != users[i].wallet_address@);
    }
}

/// In a well-formed directory any index whose handle case-folds like `n`
/// is the one `name_idx` names.
pub proof fn lemma_name_idx(users: Seq<User>, n: Seq<char>, i: int)
    requires
        users_wf(users),
        0 <= i < users.len(),
        fold(users[i].username@) == fold(n),
    ensures
        has_name(users, n),
        name_idx(users, n) == i,
{
    assert(has_name(users, n));
    let j = name_idx(users, n);
    assert(0 <= j < users.len() && fold(users[j].username@) == fold(n));
    if i < j {
        assert(fold(users[i].username@) != fold(users[j].username@));
    } else if j < i {
        assert(fold(users[j].username@) != fold(users[i].username@));
    }
}

/// In a well-formed directory any index whose handle is exactly `n` is the
/// one `exact_name_idx` names.
pub proof fn lemma_exact_name_idx(users: Seq<User>, n: Seq<char>, i: int)
    requires
        users_wf(users),
        0 <= i < users.len(),
        users[i].username@ == n,
    ensures
        has_exact_name(users, n),
        exact_name_idx(users, n) == i,
{
    assert(has_exact_name(users, n));
    let j = exact_name_idx(users, n);
    assert(0 <= j < users.len() && users[j].username@ == n);
    if i < j {
        assert(fold(users[i].username@) != fold(users[j].username@));
    } else if j < i {
        assert(fold(users[j].username@) != fold(users[i].username@));
    }
}

/// Look an account up by wallet address.
pub fn find_user_by_wallet(users: &Vec<User>, wallet: &str) -> (r: Option<usize>)
    ensures
        match r {
            Some(i) => i < users@.len() && users@[i as int].wallet_address@ == wallet@,
            None => !has_wallet(users@, wallet@),
        },
{
    let n = users.len();
    let mut i: usize = 0;
    while i < n
        invariant
            0 <= i <= n,
            n == users@.len(),
            forall|j: int| 0 <= j < i ==> (#[trigger] users@[j]).wallet_address@ != wallet@,
        decreases n - i,
    {
        if str_eq(users[i].wallet_address.as_str(), wallet) {
            return Some(i);
        }
        i += 1;
    }
    None
}

/// Look an account up by handle, under case folding.
pub fn find_user_by_name(users: &Vec<User>, name: &str) -> (r: Option<usize>)
    ensures
        match r {
            Some(i) => i < users@.len() && fold(users@[i as int].username@) == fold(name@),
            None => !has_name(users@, name@),
        },
{
    let n = users.len();
    let mut i: usize = 0;
    while i < n
        invariant
            0 <= i <= n,
            n == users@.len(),
            forall|j: int| 0 <= j < i ==> fold((#[trigger] users@[j]).username@) != fold(name@),
        decreases n - i,
    {
        if eq_ignore_case(users[i].username.as_str(), name) {
            return Some(i);
        }
        i += 1;
    }
    None
}

/// Look an account up by its exact registered handle.
pub fn find_user_by_exact_name(users: &Vec<User>, name: &str) -> (r: Option<usize>)
    ensures
        match r {
            Some(i) => i < users@.len() && users@[i as int].username@ == name@,
            None => !has_exact_name(users@, name@),
        },
{
    let n = users.len();
    let mut i: usize = 0;
    while i < n
        invariant
            0 <= i <= n,
            n == users@.len(),
            forall|j: int| 0 <= j < i ==> (#[trigger] users@[j]).username@ != name@,
        decreases n - i,
    {
        if str_eq(users[i].username.as_str(), name) {
            return Some(i);
        }
        i += 1;
    }
    None
}

/// Whether `name` is a valid handle.
pub fn validate_username(name: &str) -> (r: bool)
    ensures
        r == valid_username(name@),
{
    let n = name.unicode_len();
    if n < 3 || n > 20 {
        return false;
    }
    let mut i: usize = 0;
    while i < n
        invariant
            0 <= i <= n,
            n == name@.len(),
            3 <= n <= 20,
            forall|j: int| 0 <= j < i ==> username_char(#[trigger] name@[j]),
        decreases n - i,
    {
        let c = name.get_char(i);
        let u = c as u32;
        if !((48 <= u && u <= 57) || (65 <= u && u <= 90) || (97 <= u && u <= 122) || u == 95) {
            return false;
        }
        i += 1;
    }
    true
}

/// Amount of denomination `denom` attached to a call.
pub fn attached_amount(funds: &Vec<Coin>, denom: &str) -> (r: u128)
    ensures
        r == sent_amount(funds@, denom@),
{
    if funds.len() == 1 && str_eq(funds[0].denom.as_str(), denom) {
        funds[0].amount
    } else {
        0
    }
}

} // verus!
