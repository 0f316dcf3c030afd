//! The task settlement entry points: escrowed work under the `Soft`,
//! `ZkTLS` and `Hybrid` proof policies, with instant release on an
//! accepted attestation, a dispute window for the hybrid policy, arbiter
//! resolution, and a permissionless expiry refund.

use vstd::prelude::*;
use vstd::string::StrSliceExecFns;

use crate::contract::quiet_ok;
use crate::contract::quiet_response;
use crate::contract::same_payments;
use crate::contract::same_social;
use crate::contract::same_stats;
use crate::contract::same_users;
use crate::contract::sat_add_u128;
use crate::error::ContractError;
use crate::helpers::verify_zktls;
use crate::msg::Response;
use crate::msg::TransferMsg;
use crate::msg::opt_view;
use crate::msg::pays;
use crate::state::Coin;
use crate::state::ContractState;
use crate::state::MAX_DESCRIPTION_LEN;
use crate::state::MAX_DISPUTE_REASON_LEN;
use crate::state::MAX_PROOF_SIZE;
use crate::state::ProofType;
use crate::state::Task;
use crate::state::TaskStatus;
use crate::state::attached_amount;
use crate::state::find_user_by_exact_name;
use crate::state::find_user_by_name;
use crate::state::find_user_by_wallet;
use crate::state::has_name;
use crate::state::has_wallet;
use crate::state::lemma_exact_name_idx;
use crate::state::lemma_name_idx;
use crate::state::lemma_wallet_idx;
use crate::state::name_idx;
use crate::state::payment_wf;
use crate::state::sender_name;
use crate::state::sent_amount;
use crate::state::task_escrows;
use crate::state::task_policy;
use crate::state::task_terminal;
use crate::state::task_wf;
use crate::state::wallet_of;
use crate::state::wf;
use crate::text::contains_seq;
use crate::text::eq_ignore_case;
use crate::text::fold;

verus! {

/// The moment from which a pending hybrid release may be performed: the
/// acceptance time plus the record's dispute window (no window means
/// immediate eligibility).
pub open spec fn release_time(t: Task) -> int {
    t.verified_at->0 + (match t.review_window_secs {
        Some(w) => w as int,
        None => 0,
    })
}

/// Whether the verifier accepts an attestation blob, as
/// [`crate::helpers::verify_zktls`] decides it for well-formed input.
pub open spec fn attestation_accepted(blob: Seq<char>) -> bool {
    contains_seq(blob, "valid"@) || blob.len() > 10
}

/// The identifier counters and admin configuration are unchanged, except
/// that the task counter advanced by one.
pub open spec fn bumped_task_counter(a: ContractState, b: ContractState) -> bool {
    b.config.admin@ == a.config.admin@ && b.next_payment_id == a.next_payment_id
        && b.next_task_id == a.next_task_id + 1
}

/// Admin configuration and both identifier counters are unchanged.
pub open spec fn same_admin_counters2(a: ContractState, b: ContractState) -> bool {
    b.config.admin@ == a.config.admin@ && b.next_payment_id == a.next_payment_id
        && b.next_task_id == a.next_task_id
}

/// Why creating a task is rejected: unregistered caller, tasking oneself,
/// an unknown worker, a zero amount, a policy that is not a task policy, a
/// deadline not in the future, an oversized description, a multi-asset
/// attachment, or (for the escrowed policies) attached funds short of the
/// declared amount.
pub open spec fn create_task_check(
    s: ContractState,
    now: u64,
    sender: Seq<char>,
    to: Seq<char>,
    amount: Coin,
    description: Seq<char>,
    proof_type: ProofType,
    deadline_ts: u64,
    funds: Seq<Coin>,
) -> Option<ContractError> {
    if !has_wallet(s.users@, sender) {
        Some(ContractError::UserNotRegistered {})
    } else {
        let from = sender_name(s.users@, sender);
        if fold(from) == fold(to) {
            Some(ContractError::CannotCreateTaskWithSelf {})
        } else if !has_name(s.users@, to) {
            Some(ContractError::UserNotFound {})
        } else if amount.amount == 0 {
            Some(ContractError::InvalidPaymentAmount {})
        } else if !task_policy(proof_type) {
            Some(ContractError::InvalidProofType {})
        } else if deadline_ts <= now {
            Some(ContractError::InvalidTaskDeadline {})
        } else if description.len() > MAX_DESCRIPTION_LEN {
            Some(ContractError::InvalidDescriptionLength {})
        } else if funds.len() > 1 {
            Some(ContractError::InvalidFunds {})
        } else if task_escrows(proof_type) && sent_amount(funds, amount.denom@) < amount.amount {
            Some(ContractError::InsufficientFunds {})
        } else {
            Option::None
        }
    }
}

/// What a successful task creation did: one new escrowed record with the
/// next identifier, holding the declared amount for the escrowed policies
/// and nothing for the soft policy; no transfer is issued.
pub open spec fn create_task_ok(
    pre: ContractState,
    post: ContractState,
    resp: Response,
    now: u64,
    sender: Seq<char>,
    to: Seq<char>,
    amount: Coin,
    description: Seq<char>,
    proof_type: ProofType,
    deadline_ts: u64,
    review_window_secs: Option<u64>,
    endpoint: Seq<char>,
) -> bool {
    let i = pre.tasks@.len() as int;
    let t = post.tasks@[i];
    &&& post.tasks@.len() == i + 1
    &&& (forall|j: int| 0 <= j < i ==> post.tasks@[j] == pre.tasks@[j])
    &&& post.task_escrow@.len() == i + 1
    &&& (forall|j: int| 0 <= j < i ==> post.task_escrow@[j] == pre.task_escrow@[j])
    &&& t.id == pre.next_task_id
    &&& t.payer@ == sender_name(pre.users@, sender)
    &&& t.worker@ == pre.users@[name_idx(pre.users@, to)].username@
    &&& t.amount.denom@ == amount.denom@
    &&& t.amount.amount == amount.amount
    &&& t.proof_type == proof_type
    &&& t.status is Escrowed
    &&& t.deadline_ts == deadline_ts
    &&& t.review_window_secs == review_window_secs
    &&& t.endpoint@ == endpoint
    &&& t.evidence_hash is None
    &&& t.zk_proof_hash is None
    &&& t.verified_at is None
    &&& t.verifier_id is None
    &&& t.dispute_reason is None
    &&& t.description@ == description
    &&& t.created_at == now
    &&& t.updated_at == now
    &&& post.task_escrow@[i] == (if task_escrows(proof_type) {
        amount.amount
    } else {
        0
    })
    &&& same_users(pre, post)
    &&& same_social(pre, post)
    &&& same_payments(pre, post)
    &&& bumped_task_counter(pre, post)
    &&& post.stats.total_users == pre.stats.total_users
    &&& post.stats.total_payments == pre.stats.total_payments
    &&& post.stats.total_volume == sat_add_u128(pre.stats.total_volume, amount.amount)
    &&& resp.record_id == Some(pre.next_task_id)
    &&& resp.transfers@.len() == 0
}

/// Create a task for `to_username`.  Under the `ZkTLS` and `Hybrid`
/// policies the declared amount must be attached and is escrowed; under
/// `Soft` the payer attaches the funds at approval instead.
pub fn execute_create_task(
    state: &mut ContractState,
    now: u64,
    sender: &str,
    to_username: String,
    amount: Coin,
    description: String,
    proof_type: ProofType,
    deadline_ts: u64,
    review_window_secs: Option<u64>,
    endpoint: String,
    funds: &Vec<Coin>,
) -> (r: Result<Response, ContractError>)
    requires
        wf(*old(state)),
        old(state).next_task_id < u64::MAX,
    ensures
        wf(*final(state)),
        r is Err <==> create_task_check(
            *old(state),
            now,
            sender@,
            to_username@,
            amount,
            description@,
            proof_type,
            deadline_ts,
            funds@,
        ) is Some,
        r is Err ==> create_task_check(
            *old(state),
            now,
            sender@,
            to_username@,
            amount,
            description@,
            proof_type,
            deadline_ts,
            funds@,
        ) == Some(r->Err_0) && *final(state) == *old(state),
        r is Ok ==> create_task_ok(
            *old(state),
            *final(state),
            r->Ok_0,
            now,
            sender@,
            to_username@,
            amount,
            description@,
            proof_type,
            deadline_ts,
            review_window_secs,
            endpoint@,
        ),
{
    let iu = match find_user_by_wallet(&state.users, sender) {
        Some(i) => i,
        None => { return Err(ContractError::UserNotRegistered {}) },
    };
    proof {
        lemma_wallet_idx(state.users@, sender@, iu as int);
    }
    let from = state.users[iu].username.clone();
    if eq_ignore_case(from.as_str(), to_username.as_str()) {
        return Err(ContractError::CannotCreateTaskWithSelf {});
    }
    let jt = match find_user_by_name(&state.users, to_username.as_str()) {
        Some(j) => j,
        None => { return Err(ContractError::UserNotFound {}) },
    };
    if amount.amount == 0 {
        return Err(ContractError::InvalidPaymentAmount {});
    }
    if !matches!(proof_type, ProofType::Soft | ProofType::ZkTLS | ProofType::Hybrid) {
        return Err(ContractError::InvalidProofType {});
    }
    if deadline_ts <= now {
        return Err(ContractError::InvalidTaskDeadline {});
    }
    if description.as_str().unicode_len() > MAX_DESCRIPTION_LEN {
        return Err(ContractError::InvalidDescriptionLength {});
    }
    if funds.len() > 1 {
        return Err(ContractError::InvalidFunds {});
    }
    let need_escrow = matches!(proof_type, ProofType::ZkTLS | ProofType::Hybrid);
    if need_escrow {
        let sent = attached_amount(funds, amount.denom.as_str());
        if sent < amount.amount {
            return Err(ContractError::InsufficientFunds {});
        }
    }
    let ghost pre = *state;
    proof {
        lemma_name_idx(pre.users@, to_username@, jt as int);
    }
    let tid = state.next_task_id;
    let amt = amount.amount;
    let to_name = state.users[jt].username.clone();
    let held: u128 = if need_escrow {
        amt
    } else {
        0
    };
    let t = Task {
        id: tid,
        payer: from,
        worker: to_name,
        amount,
        proof_type,
        status: TaskStatus::Escrowed,
        deadline_ts,
        review_window_secs,
        endpoint,
        evidence_hash: Option::None,
        zk_proof_hash: Option::None,
        verified_at: Option::None,
        verifier_id: Option::None,
        dispute_reason: Option::None,
        description,
        created_at: now,
        updated_at: now,
    };
    state.tasks.push(t);
    state.task_escrow.push(held);
    state.next_task_id = tid + 1;
    state.stats.total_volume = saturating_add_volume(state.stats.total_volume, amt);
    proof {
        let i = pre.tasks@.len() as int;
        assert forall|a: int| 0 <= a < state.tasks@.len() implies #[trigger] task_wf(
            state.users@,
            state.tasks@[a],
            state.task_escrow@[a],
            a,
        ) by {
            if a < i {
                assert(state.tasks@[a] == pre.tasks@[a]);
                assert(state.task_escrow@[a] == pre.task_escrow@[a]);
                assert(task_wf(pre.users@, pre.tasks@[a], pre.task_escrow@[a], a));
            } else {
                assert((iu as int) < state.users@.len() && (#[trigger] state.users@[
                iu as int]).username@ == state.tasks@[a].payer@);
                assert((jt as int) < state.users@.len() && (#[trigger] state.users@[
                jt as int]).username@ == state.tasks@[a].worker@);
            }
        }
        assert forall|a: int| 0 <= a < state.payments@.len() implies #[trigger] payment_wf(
            state.users@,
            state.payments@[a],
            state.payment_escrow@[a],
            a,
        ) by {
            assert(payment_wf(pre.users@, pre.payments@[a], pre.payment_escrow@[a], a));
        }
    }
    Ok(Response { record_id: Some(tid), transfers: Vec::new() })
}

fn saturating_add_volume(a: u128, b: u128) -> (r: u128)
    ensures
        r == sat_add_u128(a, b),
{
    if a <= u128::MAX - b {
        a + b
    } else {
        u128::MAX
    }
}

/// Why submitting soft evidence is rejected: unregistered caller, unknown
/// record, a caller other than the worker, a policy other than `Soft`, a
/// settled record, an expired deadline, or structurally malformed
/// evidence.
pub open spec fn soft_evidence_check(
    s: ContractState,
    now: u64,
    sender: Seq<char>,
    task_id: u64,
    evidence: Seq<char>,
) -> Option<ContractError> {
    if !has_wallet(s.users@, sender) {
        Some(ContractError::UserNotRegistered {})
    } else if task_id < 1 || task_id > s.tasks@.len() {
        Some(ContractError::TaskNotFound {})
    } else {
        let t = s.tasks@[task_id - 1];
        if fold(t.worker@) != fold(sender_name(s.users@, sender)) {
            Some(ContractError::TaskNotAuthorized {})
        } else if !(t.proof_type is Soft) {
            Some(ContractError::InvalidProofType {})
        } else if task_terminal(t.status) {
            Some(ContractError::TaskAlreadyCompleted {})
        } else if t.status is PendingRelease || t.status is Disputed {
            Some(ContractError::TaskAlreadyDisputed {})
        } else if now >= t.deadline_ts {
            Some(ContractError::TaskExpired {})
        } else if evidence.len() == 0 || evidence.len() > MAX_PROOF_SIZE {
            Some(ContractError::InvalidProof {})
        } else {
            Option::None
        }
    }
}

/// What a successful soft submission did: the record carries the evidence
/// and waits in `ProofSubmitted` for the payer's approval; no funds move.
pub open spec fn soft_evidence_ok(
    pre: ContractState,
    post: ContractState,
    resp: Response,
    now: u64,
    task_id: u64,
    evidence: Seq<char>,
) -> bool {
    let i = task_id - 1;
    let t0 = pre.tasks@[i];
    let t1 = post.tasks@[i];
    &&& post.tasks@.len() == pre.tasks@.len()
    &&& (forall|j: int| 0 <= j < pre.tasks@.len() && j != i ==> post.tasks@[j] == pre.tasks@[j])
    &&& t1 == (Task {
        status: TaskStatus::ProofSubmitted,
        evidence_hash: t1.evidence_hash,
        updated_at: now,
        ..t0
    })
    &&& t1.evidence_hash is Some
    &&& t1.evidence_hash->0@ == evidence
    &&& post.task_escrow@ == pre.task_escrow@
    &&& same_users(pre, post)
    &&& same_social(pre, post)
    &&& same_payments(pre, post)
    &&& same_admin_counters2(pre, post)
    &&& same_stats(pre, post)
    &&& quiet_response(resp)
}

/// Submit evidence for a `Soft` task.  Only the worker may submit, and
/// only before the deadline; the payer then approves at will.
pub fn execute_submit_soft_evidence(
    state: &mut ContractState,
    now: u64,
    sender: &str,
    task_id: u64,
    evidence_hash: String,
) -> (r: Result<Response, ContractError>)
    requires
        wf(*old(state)),
    ensures
        wf(*final(state)),
        r is Err <==> soft_evidence_check(*old(state), now, sender@, task_id, evidence_hash@)
            is Some,
        r is Err ==> soft_evidence_check(*old(state), now, sender@, task_id, evidence_hash@)
            == Some(r->Err_0) && *final(state) == *old(state),
        r is Ok ==> soft_evidence_ok(
            *old(state),
            *final(state),
            r->Ok_0,
            now,
            task_id,
            evidence_hash@,
        ),
{
    let iu = match find_user_by_wallet(&state.users, sender) {
        Some(i) => i,
        None => { return Err(ContractError::UserNotRegistered {}) },
    };
    proof {
        lemma_wallet_idx(state.users@, sender@, iu as int);
    }
    let n = state.tasks.len();
    if task_id < 1 || task_id > (n as u64) {
        return Err(ContractError::TaskNotFound {});
    }
    let i = (task_id - 1) as usize;
    if !eq_ignore_case(state.tasks[i].worker.as_str(), state.users[iu].username.as_str()) {
        return Err(ContractError::TaskNotAuthorized {});
    }
    if !matches!(state.tasks[i].proof_type, ProofType::Soft) {
        return Err(ContractError::InvalidProofType {});
    }
    match state.tasks[i].status {
        TaskStatus::Released | TaskStatus::Refunded => {
            return Err(ContractError::TaskAlreadyCompleted {});
        },
        TaskStatus::PendingRelease | TaskStatus::Disputed => {
            return Err(ContractError::TaskAlreadyDisputed {});
        },
        _ => {},
    }
    if now >= state.tasks[i].deadline_ts {
        return Err(ContractError::TaskExpired {});
    }
    let elen = evidence_hash.as_str().unicode_len();
    if elen == 0 || elen > MAX_PROOF_SIZE {
        return Err(ContractError::InvalidProof {});
    }
    let ghost pre = *state;
    let t = &mut state.tasks[i];
    t.evidence_hash = Some(evidence_hash);
    t.status = TaskStatus::ProofSubmitted;
    t.updated_at = now;
    proof {
        assert forall|a: int| 0 <= a < state.tasks@.len() implies #[trigger] task_wf(
            state.users@,
            state.tasks@[a],
            state.task_escrow@[a],
            a,
        ) by {
            assert(task_wf(pre.users@, pre.tasks@[a], pre.task_escrow@[a], a));
        }
        task_frame_wf(pre, *state);
    }
    Ok(quiet_ok())
}

/// Why submitting an attestation is rejected: unregistered caller, unknown
/// record, a caller other than the worker, a policy that takes no
/// attestation, a record past the open state, an expired deadline, a
/// structurally malformed attestation (empty blob, or a record whose
/// endpoint is empty), or an attestation the verifier rejects.
pub open spec fn zktls_check(
    s: ContractState,
    now: u64,
    sender: Seq<char>,
    task_id: u64,
    blob: Seq<char>,
) -> Option<ContractError> {
    if !has_wallet(s.users@, sender) {
        Some(ContractError::UserNotRegistered {})
    } else if task_id < 1 || task_id > s.tasks@.len() {
        Some(ContractError::TaskNotFound {})
    } else {
        let t = s.tasks@[task_id - 1];
        if fold(t.worker@) != fold(sender_name(s.users@, sender)) {
            Some(ContractError::TaskNotAuthorized {})
        } else if !(t.proof_type is ZkTLS || t.proof_type is Hybrid) {
            Some(ContractError::InvalidProofType {})
        } else if task_terminal(t.status) {
            Some(ContractError::TaskAlreadyCompleted {})
        } else if t.status is Disputed {
            Some(ContractError::TaskAlreadyDisputed {})
        } else if t.status is PendingRelease || t.status is ProofSubmitted {
            Some(ContractError::ProofAlreadySubmitted {})
        } else if now >= t.deadline_ts {
            Some(ContractError::TaskExpired {})
        } else if blob.len() == 0 || t.endpoint@.len() == 0 {
            Some(ContractError::InvalidProof {})
        } else if !attestation_accepted(blob) {
            Some(ContractError::ZkTlsVerificationFailed {})
        } else {
            Option::None
        }
    }
}

/// What a successful attestation did.  Under `ZkTLS` the record releases
/// and the transfer to the worker is issued in the same call; under
/// `Hybrid` the record moves to `PendingRelease`, stamped with the
/// acceptance time, and the escrow stays held for the dispute window.
pub open spec fn zktls_ok(
    pre: ContractState,
    post: ContractState,
    resp: Response,
    now: u64,
    task_id: u64,
    zk_hash: Seq<char>,
) -> bool {
    let i = task_id - 1;
    let t0 = pre.tasks@[i];
    let t1 = post.tasks@[i];
    &&& post.tasks@.len() == pre.tasks@.len()
    &&& (forall|j: int| 0 <= j < pre.tasks@.len() && j != i ==> post.tasks@[j] == pre.tasks@[j])
    &&& t1 == (Task {
        status: t1.status,
        zk_proof_hash: t1.zk_proof_hash,
        verified_at: Some(now),
        updated_at: now,
        ..t0
    })
    &&& t1.zk_proof_hash is Some
    &&& t1.zk_proof_hash->0@ == zk_hash
    &&& same_users(pre, post)
    &&& same_social(pre, post)
    &&& same_payments(pre, post)
    &&& same_admin_counters2(pre, post)
    &&& same_stats(pre, post)
    &&& resp.record_id is None
    &&& (if t0.proof_type is ZkTLS {
        &&& t1.status is Released
        &&& post.task_escrow@ == pre.task_escrow@.update(i, 0u128)
        &&& resp.transfers@.len() == 1
        &&& pays(
            resp.transfers@[0],
            wallet_of(pre.users@, t0.worker@),
            t0.amount.denom@,
            t0.amount.amount,
        )
    } else {
        &&& t1.status is PendingRelease
        &&& post.task_escrow@ == pre.task_escrow@
        &&& resp.transfers@.len() == 0
    })
}

/// Submit a cryptographic attestation for a `ZkTLS` or `Hybrid` task.
/// The verifier checks it synchronously: rejection aborts the call with no
/// state change; acceptance releases a `ZkTLS` record to the worker in the
/// same call, and parks a `Hybrid` record in `PendingRelease` until its
/// dispute window has run.
pub fn execute_submit_zktls_proof(
    state: &mut ContractState,
    now: u64,
    sender: &str,
    task_id: u64,
    proof_blob_or_ref: String,
    zk_proof_hash: String,
) -> (r: Result<Response, ContractError>)
    requires
        wf(*old(state)),
    ensures
        wf(*final(state)),
        r is Err <==> zktls_check(*old(state), now, sender@, task_id, proof_blob_or_ref@) is Some,
        r is Err ==> zktls_check(*old(state), now, sender@, task_id, proof_blob_or_ref@) == Some(
            r->Err_0,
        ) && *final(state) == *old(state),
        r is Ok ==> zktls_ok(*old(state), *final(state), r->Ok_0, now, task_id, zk_proof_hash@),
{
    let iu = match find_user_by_wallet(&state.users, sender) {
        Some(i) => i,
        None => { return Err(ContractError::UserNotRegistered {}) },
    };
    proof {
        lemma_wallet_idx(state.users@, sender@, iu as int);
    }
    let n = state.tasks.len();
    if task_id < 1 || task_id > (n as u64) {
        return Err(ContractError::TaskNotFound {});
    }
    let i = (task_id - 1) as usize;
    if !eq_ignore_case(state.tasks[i].worker.as_str(), state.users[iu].username.as_str()) {
        return Err(ContractError::TaskNotAuthorized {});
    }
    let hybrid = matches!(state.tasks[i].proof_type, ProofType::Hybrid);
    if !hybrid && !matches!(state.tasks[i].proof_type, ProofType::ZkTLS) {
        return Err(ContractError::InvalidProofType {});
    }
    match state.tasks[i].status {
        TaskStatus::Released | TaskStatus::Refunded => {
            return Err(ContractError::TaskAlreadyCompleted {});
        },
        TaskStatus::Disputed => {
            return Err(ContractError::TaskAlreadyDisputed {});
        },
        TaskStatus::PendingRelease | TaskStatus::ProofSubmitted => {
            return Err(ContractError::ProofAlreadySubmitted {});
        },
        TaskStatus::Escrowed => {},
    }
    if now >= state.tasks[i].deadline_ts {
        return Err(ContractError::TaskExpired {});
    }
    let accepted = match verify_zktls(proof_blob_or_ref.as_str(), state.tasks[i].endpoint.as_str())
    {
        Ok(v) => v,
        Err(e) => { return Err(e) },
    };
    if !accepted {
        return Err(ContractError::ZkTlsVerificationFailed {});
    }
    let ghost pre = *state;
    let mut transfers: Vec<TransferMsg> = Vec::new();
    if !hybrid {
        let b = match find_user_by_exact_name(&state.users, state.tasks[i].worker.as_str()) {
            Some(b) => b,
            None => {
                proof {
                    assert(task_wf(
                        pre.users@,
                        pre.tasks@[i as int],
                        pre.task_escrow@[i as int],
                        i as int,
                    ));
                }
                vstd::pervasive::unreached()
            },
        };
        proof {
            lemma_exact_name_idx(pre.users@, pre.tasks@[i as int].worker@, b as int);
        }
        transfers.push(
            TransferMsg {
                to_address: state.users[b].wallet_address.clone(),
                amount: state.tasks[i].amount.duplicate(),
            },
        );
    }
    let t = &mut state.tasks[i];
    t.zk_proof_hash = Some(zk_proof_hash);
    t.verified_at = Some(now);
    t.updated_at = now;
    t.status = if hybrid {
        TaskStatus::PendingRelease
    } else {
        TaskStatus::Released
    };
    if !hybrid {
        state.task_escrow[i] = 0;
        proof {
            assert(state.task_escrow@ =~= pre.task_escrow@.update(i as int, 0u128));
        }
    }
    proof {
        assert forall|a: int| 0 <= a < state.tasks@.len() implies #[trigger] task_wf(
            state.users@,
            state.tasks@[a],
            state.task_escrow@[a],
            a,
        ) by {
            assert(task_wf(pre.users@, pre.tasks@[a], pre.task_escrow@[a], a));
        }
        task_frame_wf(pre, *state);
    }
    Ok(Response { record_id: Option::None, transfers })
}

/// Why approving a soft task is rejected: unregistered caller, unknown
/// record, a caller other than the payer, a policy other than `Soft`, a
/// settled record, missing evidence, a multi-asset attachment, or
/// attached funds short of the declared amount.
pub open spec fn approve_task_check(
    s: ContractState,
    sender: Seq<char>,
    task_id: u64,
    funds: Seq<Coin>,
) -> Option<ContractError> {
    if !has_wallet(s.users@, sender) {
        Some(ContractError::UserNotRegistered {})
    } else if task_id < 1 || task_id > s.tasks@.len() {
        Some(ContractError::TaskNotFound {})
    } else {
        let t = s.tasks@[task_id - 1];
        if fold(t.payer@) != fold(sender_name(s.users@, sender)) {
            Some(ContractError::OnlyPayerCanApproveSoft {})
        } else if !(t.proof_type is Soft) {
            Some(ContractError::InvalidProofType {})
        } else if task_terminal(t.status) {
            Some(ContractError::TaskAlreadyCompleted {})
        } else if !(t.status is ProofSubmitted) {
            Some(ContractError::ProofRequired {})
        } else if funds.len() > 1 {
            Some(ContractError::InvalidFunds {})
        } else if sent_amount(funds, t.amount.denom@) < t.amount.amount {
            Some(ContractError::InsufficientFunds {})
        } else {
            Option::None
        }
    }
}

/// What a successful approval did: the record releases and the attached
/// funds go to the worker in the same call.
pub open spec fn approve_task_ok(
    pre: ContractState,
    post: ContractState,
    resp: Response,
    now: u64,
    task_id: u64,
) -> bool {
    let i = task_id - 1;
    let t0 = pre.tasks@[i];
    &&& post.tasks@.len() == pre.tasks@.len()
    &&& (forall|j: int| 0 <= j < pre.tasks@.len() && j != i ==> post.tasks@[j] == pre.tasks@[j])
    &&& post.tasks@[i] == (Task { status: TaskStatus::Released, updated_at: now, ..t0 })
    &&& post.task_escrow@ == pre.task_escrow@.update(i, 0u128)
    &&& same_users(pre, post)
    &&& same_social(pre, post)
    &&& same_payments(pre, post)
    &&& same_admin_counters2(pre, post)
    &&& same_stats(pre, post)
    &&& resp.record_id is None
    &&& resp.transfers@.len() == 1
    &&& pays(
        resp.transfers@[0],
        wallet_of(pre.users@, t0.worker@),
        t0.amount.denom@,
        t0.amount.amount,
    )
}

/// Approve a `Soft` task whose evidence has been submitted.  Only the
/// payer may approve, attaching the declared amount, which is forwarded to
/// the worker in the same call.
pub fn execute_approve_task(
    state: &mut ContractState,
    now: u64,
    sender: &str,
    task_id: u64,
    funds: &Vec<Coin>,
) -> (r: Result<Response, ContractError>)
    requires
        wf(*old(state)),
    ensures
        wf(*final(state)),
        r is Err <==> approve_task_check(*old(state), sender@, task_id, funds@) is Some,
        r is Err ==> approve_task_check(*old(state), sender@, task_id, funds@) == Some(r->Err_0)
            && *final(state) == *old(state),
        r is Ok ==> approve_task_ok(*old(state), *final(state), r->Ok_0, now, task_id),
{
    let iu = match find_user_by_wallet(&state.users, sender) {
        Some(i) => i,
        None => { return Err(ContractError::UserNotRegistered {}) },
    };
    proof {
        lemma_wallet_idx(state.users@, sender@, iu as int);
    }
    let n = state.tasks.len();
    if task_id < 1 || task_id > (n as u64) {
        return Err(ContractError::TaskNotFound {});
    }
    let i = (task_id - 1) as usize;
    if !eq_ignore_case(state.tasks[i].payer.as_str(), state.users[iu].username.as_str()) {
        return Err(ContractError::OnlyPayerCanApproveSoft {});
    }
    if !matches!(state.tasks[i].proof_type, ProofType::Soft) {
        return Err(ContractError::InvalidProofType {});
    }
    if matches!(state.tasks[i].status, TaskStatus::Released | TaskStatus::Refunded) {
        return Err(ContractError::TaskAlreadyCompleted {});
    }
    if !matches!(state.tasks[i].status, TaskStatus::ProofSubmitted) {
        return Err(ContractError::ProofRequired {});
    }
    if funds.len() > 1 {
        return Err(ContractError::InvalidFunds {});
    }
    let sent = attached_amount(funds, state.tasks[i].amount.denom.as_str());
    if sent < state.tasks[i].amount.amount {
        return Err(ContractError::InsufficientFunds {});
    }
    let ghost pre = *state;
    let b = match find_user_by_exact_name(&state.users, state.tasks[i].worker.as_str()) {
        Some(b) => b,
        None => {
            proof {
                assert(task_wf(
                    pre.users@,
                    pre.tasks@[i as int],
                    pre.task_escrow@[i as int],
                    i as int,
                ));
            }
            vstd::pervasive::unreached()
        },
    };
    proof {
        lemma_exact_name_idx(pre.users@, pre.tasks@[i as int].worker@, b as int);
    }
    let mut transfers: Vec<TransferMsg> = Vec::new();
    transfers.push(
        TransferMsg {
            to_address: state.users[b].wallet_address.clone(),
            amount: state.tasks[i].amount.duplicate(),
        },
    );
    let t = &mut state.tasks[i];
    t.status = TaskStatus::Released;
    t.updated_at = now;
    state.task_escrow[i] = 0;
    proof {
        assert(state.task_escrow@ =~= pre.task_escrow@.update(i as int, 0u128));
        assert forall|a: int| 0 <= a < state.tasks@.len() implies #[trigger] task_wf(
            state.users@,
            state.tasks@[a],
            state.task_escrow@[a],
            a,
        ) by {
            assert(task_wf(pre.users@, pre.tasks@[a], pre.task_escrow@[a], a));
        }
        task_frame_wf(pre, *state);
    }
    Ok(Response { record_id: Option::None, transfers })
}

/// Why raising a dispute is rejected: unregistered caller, unknown record,
/// a caller who is neither party to the record, a record not parked in
/// `PendingRelease`, a dispute window that has already run out, or a
/// malformed reason (empty, or over the length bound).
pub open spec fn dispute_check(
    s: ContractState,
    now: u64,
    sender: Seq<char>,
    task_id: u64,
    reason: Option<Seq<char>>,
) -> Option<ContractError> {
    if !has_wallet(s.users@, sender) {
        Some(ContractError::UserNotRegistered {})
    } else if task_id < 1 || task_id > s.tasks@.len() {
        Some(ContractError::TaskNotFound {})
    } else {
        let t = s.tasks@[task_id - 1];
        let su = sender_name(s.users@, sender);
        if fold(t.payer@) != fold(su) && fold(t.worker@) != fold(su) {
            Some(ContractError::TaskNotAuthorized {})
        } else if t.status is Disputed {
            Some(ContractError::TaskAlreadyDisputed {})
        } else if task_terminal(t.status) {
            Some(ContractError::TaskAlreadyCompleted {})
        } else if !(t.status is PendingRelease) {
            Some(ContractError::TaskNotPendingRelease {})
        } else if now >= release_time(t) {
            Some(ContractError::DisputeWindowElapsed {})
        } else if (match reason {
            Some(rs) => rs.len() == 0 || rs.len() > MAX_DISPUTE_REASON_LEN,
            None => false,
        }) {
            Some(ContractError::InvalidDisputeReason {})
        } else {
            Option::None
        }
    }
}

/// What a successful dispute did: the record freezes in `Disputed`, where
/// only the arbiter can settle it, carrying the given reason; the escrow
/// stays held and no funds move.
pub open spec fn dispute_ok(
    pre: ContractState,
    post: ContractState,
    resp: Response,
    now: u64,
    task_id: u64,
    reason: Option<Seq<char>>,
) -> bool {
    let i = task_id - 1;
    let t0 = pre.tasks@[i];
    let t1 = post.tasks@[i];
    &&& post.tasks@.len() == pre.tasks@.len()
    &&& (forall|j: int| 0 <= j < pre.tasks@.len() && j != i ==> post.tasks@[j] == pre.tasks@[j])
    &&& t1 == (Task {
        status: TaskStatus::Disputed,
        dispute_reason: t1.dispute_reason,
        updated_at: now,
        ..t0
    })
    &&& (match reason {
        Some(rs) => t1.dispute_reason is Some && t1.dispute_reason->0@ == rs,
        None => t1.dispute_reason == t0.dispute_reason,
    })
    &&& post.task_escrow@ == pre.task_escrow@
    &&& same_users(pre, post)
    &&& same_social(pre, post)
    &&& same_payments(pre, post)
    &&& same_admin_counters2(pre, post)
    &&& same_stats(pre, post)
    &&& quiet_response(resp)
}

/// Dispute a `Hybrid` task while it waits out its dispute window.  Either
/// party to the record may dispute, and only before the window runs out; a
/// disputed record can no longer be released by the clock, only settled by
/// the arbiter.  A reason, if given, must be non-empty, within the length
/// bound, and is recorded on the record.
pub fn execute_dispute_task(
    state: &mut ContractState,
    now: u64,
    sender: &str,
    task_id: u64,
    reason_hash: Option<String>,
) -> (r: Result<Response, ContractError>)
    requires
        wf(*old(state)),
    ensures
        wf(*final(state)),
        r is Err <==> dispute_check(*old(state), now, sender@, task_id, opt_view(reason_hash))
            is Some,
        r is Err ==> dispute_check(*old(state), now, sender@, task_id, opt_view(reason_hash))
            == Some(r->Err_0) && *final(state) == *old(state),
        r is Ok ==> dispute_ok(
            *old(state),
            *final(state),
            r->Ok_0,
            now,
            task_id,
            opt_view(reason_hash),
        ),
{
    let iu = match find_user_by_wallet(&state.users, sender) {
        Some(i) => i,
        None => { return Err(ContractError::UserNotRegistered {}) },
    };
    proof {
        lemma_wallet_idx(state.users@, sender@, iu as int);
    }
    let n = state.tasks.len();
    if task_id < 1 || task_id > (n as u64) {
        return Err(ContractError::TaskNotFound {});
    }
    let i = (task_id - 1) as usize;
    let is_payer = eq_ignore_case(state.tasks[i].payer.as_str(), state.users[iu].username.as_str());
    let is_worker = eq_ignore_case(
        state.tasks[i].worker.as_str(),
        state.users[iu].username.as_str(),
    );
    if !is_payer && !is_worker {
        return Err(ContractError::TaskNotAuthorized {});
    }
    match state.tasks[i].status {
        TaskStatus::Disputed => {
            return Err(ContractError::TaskAlreadyDisputed {});
        },
        TaskStatus::Released | TaskStatus::Refunded => {
            return Err(ContractError::TaskAlreadyCompleted {});
        },
        TaskStatus::Escrowed | TaskStatus::ProofSubmitted => {
            return Err(ContractError::TaskNotPendingRelease {});
        },
        TaskStatus::PendingRelease => {},
    }
    proof {
        assert(task_wf(
            state.users@,
            state.tasks@[i as int],
            state.task_escrow@[i as int],
            i as int,
        ));
    }
    let verified_at = match state.tasks[i].verified_at {
        Some(v) => v,
        None => vstd::pervasive::unreached(),
    };
    let window = match state.tasks[i].review_window_secs {
        Some(w) => w,
        None => 0,
    };
    if (now as u128) >= (verified_at as u128) + (window as u128) {
        return Err(ContractError::DisputeWindowElapsed {});
    }
    match &reason_hash {
        Some(rs) => {
            let rlen = rs.as_str().unicode_len();
            if rlen == 0 || rlen > MAX_DISPUTE_REASON_LEN {
                return Err(ContractError::InvalidDisputeReason {});
            }
        },
        None => {},
    }
    let ghost pre = *state;
    let t = &mut state.tasks[i];
    t.status = TaskStatus::Disputed;
    t.updated_at = now;
    match reason_hash {
        Some(rs) => {
            t.dispute_reason = Some(rs);
        },
        None => {},
    }
    proof {
        assert forall|a: int| 0 <= a < state.tasks@.len() implies #[trigger] task_wf(
            state.users@,
            state.tasks@[a],
            state.task_escrow@[a],
            a,
        ) by {
            assert(task_wf(pre.users@, pre.tasks@[a], pre.task_escrow@[a], a));
        }
        task_frame_wf(pre, *state);
    }
    Ok(quiet_ok())
}

/// Why resolving a dispute is rejected: unknown record, a caller other
/// than the designated arbiter, or a record that is not disputed.
pub open spec fn resolve_check(s: ContractState, sender: Seq<char>, task_id: u64) -> Option<
    ContractError,
> {
    if task_id < 1 || task_id > s.tasks@.len() {
        Some(ContractError::TaskNotFound {})
    } else if sender != s.config.admin@ {
        Some(ContractError::OnlyOwnerCanResolveDispute {})
    } else if !(s.tasks@[task_id - 1].status is Disputed) {
        Some(ContractError::TaskNotInDispute {})
    } else {
        Option::None
    }
}

/// What a successful resolution did: the record settles terminally and the
/// whole escrow goes to exactly one party — the worker when the arbiter
/// finds for the worker (`Released`), the payer otherwise (`Refunded`).
pub open spec fn resolve_ok(
    pre: ContractState,
    post: ContractState,
    resp: Response,
    now: u64,
    task_id: u64,
    decision: bool,
) -> bool {
    let i = task_id - 1;
    let t0 = pre.tasks@[i];
    &&& post.tasks@.len() == pre.tasks@.len()
    &&& (forall|j: int| 0 <= j < pre.tasks@.len() && j != i ==> post.tasks@[j] == pre.tasks@[j])
    &&& post.tasks@[i] == (Task {
        status: if decision {
            TaskStatus::Released
        } else {
            TaskStatus::Refunded
        },
        updated_at: now,
        ..t0
    })
    &&& post.task_escrow@ == pre.task_escrow@.update(i, 0u128)
    &&& same_users(pre, post)
    &&& same_social(pre, post)
    &&& same_payments(pre, post)
    &&& same_admin_counters2(pre, post)
    &&& same_stats(pre, post)
    &&& resp.record_id is None
    &&& resp.transfers@.len() == 1
    &&& pays(
        resp.transfers@[0],
        wallet_of(
            pre.users@,
            if decision {
                t0.worker@
            } else {
                t0.payer@
            },
        ),
        t0.amount.denom@,
        t0.amount.amount,
    )
}

/// Settle a disputed task.  Only the designated arbiter may decide, and
/// the decision is binary: `true` pays the worker, `false` refunds the
/// payer; either way the record is terminal and the escrow moves exactly
/// once.
pub fn execute_resolve_dispute(
    state: &mut ContractState,
    now: u64,
    sender: &str,
    task_id: u64,
    decision: bool,
) -> (r: Result<Response, ContractError>)
    requires
        wf(*old(state)),
    ensures
        wf(*final(state)),
        r is Err <==> resolve_check(*old(state), sender@, task_id) is Some,
        r is Err ==> resolve_check(*old(state), sender@, task_id) == Some(r->Err_0) && *final(state) == *old(state),
        r is Ok ==> resolve_ok(*old(state), *final(state), r->Ok_0, now, task_id, decision),
{
    let n = state.tasks.len();
    if task_id < 1 || task_id > (n as u64) {
        return Err(ContractError::TaskNotFound {});
    }
    if !crate::text::str_eq(sender, state.config.admin.as_str()) {
        return Err(ContractError::OnlyOwnerCanResolveDispute {});
    }
    let i = (task_id - 1) as usize;
    if !matches!(state.tasks[i].status, TaskStatus::Disputed) {
        return Err(ContractError::TaskNotInDispute {});
    }
    let ghost pre = *state;
    let winner = if decision {
        state.tasks[i].worker.clone()
    } else {
        state.tasks[i].payer.clone()
    };
    let b = match find_user_by_exact_name(&state.users, winner.as_str()) {
        Some(b) => b,
        None => {
            proof {
                assert(task_wf(
                    pre.users@,
                    pre.tasks@[i as int],
                    pre.task_escrow@[i as int],
                    i as int,
                ));
            }
            vstd::pervasive::unreached()
        },
    };
    proof {
        if decision {
            lemma_exact_name_idx(pre.users@, pre.tasks@[i as int].worker@, b as int);
        } else {
            lemma_exact_name_idx(pre.users@, pre.tasks@[i as int].payer@, b as int);
        }
    }
    let mut transfers: Vec<TransferMsg> = Vec::new();
    transfers.push(
        TransferMsg {
            to_address: state.users[b].wallet_address.clone(),
            amount: state.tasks[i].amount.duplicate(),
        },
    );
    let t = &mut state.tasks[i];
    t.status = if decision {
        TaskStatus::Released
    } else {
        TaskStatus::Refunded
    };
    t.updated_at = now;
    state.task_escrow[i] = 0;
    proof {
        assert(state.task_escrow@ =~= pre.task_escrow@.update(i as int, 0u128));
        assert forall|a: int| 0 <= a < state.tasks@.len() implies #[trigger] task_wf(
            state.users@,
            state.tasks@[a],
            state.task_escrow@[a],
            a,
        ) by {
            assert(task_wf(pre.users@, pre.tasks@[a], pre.task_escrow@[a], a));
        }
        task_frame_wf(pre, *state);
    }
    Ok(Response { record_id: Option::None, transfers })
}

/// Why polling a release is rejected: unknown record, a settled record, a
/// disputed record (frozen until the arbiter decides), or a record that
/// never reached `PendingRelease`.  A record still inside its window is
/// not an error: the call is then a no-op.
pub open spec fn release_check(s: ContractState, task_id: u64) -> Option<ContractError> {
    if task_id < 1 || task_id > s.tasks@.len() {
        Some(ContractError::TaskNotFound {})
    } else {
        let t = s.tasks@[task_id - 1];
        if task_terminal(t.status) {
            Some(ContractError::TaskAlreadyCompleted {})
        } else if t.status is Disputed {
            Some(ContractError::TaskAlreadyDisputed {})
        } else if !(t.status is PendingRelease) {
            Some(ContractError::TaskNotPendingRelease {})
        } else {
            Option::None
        }
    }
}

/// What a successful poll did.  Before the window has run: nothing — the
/// store is untouched and no transfer is issued.  From the moment it has:
/// the record releases and the escrow goes to the worker, in one call;
/// every later poll is an error, so the transition happens exactly once.
pub open spec fn release_ok(
    pre: ContractState,
    post: ContractState,
    resp: Response,
    now: u64,
    task_id: u64,
) -> bool {
    let i = task_id - 1;
    let t0 = pre.tasks@[i];
    if now < release_time(t0) {
        post == pre && quiet_response(resp)
    } else {
        &&& post.tasks@.len() == pre.tasks@.len()
        &&& (forall|j: int|
            0 <= j < pre.tasks@.len() && j != i ==> post.tasks@[j] == pre.tasks@[j])
        &&& post.tasks@[i] == (Task { status: TaskStatus::Released, updated_at: now, ..t0 })
        &&& post.task_escrow@ == pre.task_escrow@.update(i, 0u128)
        &&& same_users(pre, post)
        &&& same_social(pre, post)
        &&& same_payments(pre, post)
        &&& same_admin_counters2(pre, post)
        &&& same_stats(pre, post)
        &&& resp.record_id is None
        &&& resp.transfers@.len() == 1
        &&& pays(
            resp.transfers@[0],
            wallet_of(pre.users@, t0.worker@),
            t0.amount.denom@,
            t0.amount.amount,
        )
    }
}

/// Poll a `Hybrid` record waiting out its dispute window.  Anyone may
/// call: before the window has run the call is an idempotent no-op; once
/// it has, the first call releases the escrow to the worker and any later
/// call reports the record settled.
pub fn execute_release_if_window_elapsed(
    state: &mut ContractState,
    now: u64,
    task_id: u64,
) -> (r: Result<Response, ContractError>)
    requires
        wf(*old(state)),
    ensures
        wf(*final(state)),
        r is Err <==> release_check(*old(state), task_id) is Some,
        r is Err ==> release_check(*old(state), task_id) == Some(r->Err_0) && *final(state) == *old(state),
        r is Ok ==> release_ok(*old(state), *final(state), r->Ok_0, now, task_id),
{
    let n = state.tasks.len();
    if task_id < 1 || task_id > (n as u64) {
        return Err(ContractError::TaskNotFound {});
    }
    let i = (task_id - 1) as usize;
    match state.tasks[i].status {
        TaskStatus::Released | TaskStatus::Refunded => {
            return Err(ContractError::TaskAlreadyCompleted {});
        },
        TaskStatus::Disputed => {
            return Err(ContractError::TaskAlreadyDisputed {});
        },
        TaskStatus::Escrowed | TaskStatus::ProofSubmitted => {
            return Err(ContractError::TaskNotPendingRelease {});
        },
        TaskStatus::PendingRelease => {},
    }
    proof {
        assert(task_wf(
            state.users@,
            state.tasks@[i as int],
            state.task_escrow@[i as int],
            i as int,
        ));
    }
    let verified_at = match state.tasks[i].verified_at {
        Some(v) => v,
        None => vstd::pervasive::unreached(),
    };
    let window = match state.tasks[i].review_window_secs {
        Some(w) => w,
        None => 0,
    };
    if (now as u128) < (verified_at as u128) + (window as u128) {
        return Ok(quiet_ok());
    }
    let ghost pre = *state;
    let b = match find_user_by_exact_name(&state.users, state.tasks[i].worker.as_str()) {
        Some(b) => b,
        None => vstd::pervasive::unreached(),
    };
    proof {
        lemma_exact_name_idx(pre.users@, pre.tasks@[i as int].worker@, b as int);
    }
    let mut transfers: Vec<TransferMsg> = Vec::new();
    transfers.push(
        TransferMsg {
            to_address: state.users[b].wallet_address.clone(),
            amount: state.tasks[i].amount.duplicate(),
        },
    );
    let t = &mut state.tasks[i];
    t.status = TaskStatus::Released;
    t.updated_at = now;
    state.task_escrow[i] = 0;
    proof {
        assert(state.task_escrow@ =~= pre.task_escrow@.update(i as int, 0u128));
        assert forall|a: int| 0 <= a < state.tasks@.len() implies #[trigger] task_wf(
            state.users@,
            state.tasks@[a],
            state.task_escrow@[a],
            a,
        ) by {
            assert(task_wf(pre.users@, pre.tasks@[a], pre.task_escrow@[a], a));
        }
        task_frame_wf(pre, *state);
    }
    Ok(Response { record_id: Option::None, transfers })
}

/// Why an expiry refund is rejected: unknown record, a settled record, a
/// disputed record (frozen until the arbiter decides), or a record whose
/// proof was already accepted.  A record not yet past its deadline is not
/// an error: the call is then a no-op.
pub open spec fn refund_check(s: ContractState, task_id: u64) -> Option<ContractError> {
    if task_id < 1 || task_id > s.tasks@.len() {
        Some(ContractError::TaskNotFound {})
    } else {
        let t = s.tasks@[task_id - 1];
        if task_terminal(t.status) {
            Some(ContractError::TaskAlreadyCompleted {})
        } else if t.status is Disputed {
            Some(ContractError::TaskAlreadyDisputed {})
        } else if t.status is PendingRelease {
            Some(ContractError::ProofAlreadySubmitted {})
        } else {
            Option::None
        }
    }
}

/// What a successful expiry call did.  Before the deadline: nothing.
/// From the deadline on: the record is terminally refunded, and whatever
/// escrow was held goes back to the payer in the same call.
pub open spec fn refund_ok(
    pre: ContractState,
    post: ContractState,
    resp: Response,
    now: u64,
    task_id: u64,
) -> bool {
    let i = task_id - 1;
    let t0 = pre.tasks@[i];
    if now < t0.deadline_ts {
        post == pre && quiet_response(resp)
    } else {
        &&& post.tasks@.len() == pre.tasks@.len()
        &&& (forall|j: int|
            0 <= j < pre.tasks@.len() && j != i ==> post.tasks@[j] == pre.tasks@[j])
        &&& post.tasks@[i] == (Task { status: TaskStatus::Refunded, updated_at: now, ..t0 })
        &&& post.task_escrow@ == pre.task_escrow@.update(i, 0u128)
        &&& same_users(pre, post)
        &&& same_social(pre, post)
        &&& same_payments(pre, post)
        &&& same_admin_counters2(pre, post)
        &&& same_stats(pre, post)
        &&& resp.record_id is None
        &&& (if task_escrows(t0.proof_type) {
            resp.transfers@.len() == 1 && pays(
                resp.transfers@[0],
                wallet_of(pre.users@, t0.payer@),
                t0.amount.denom@,
                t0.amount.amount,
            )
        } else {
            resp.transfers@.len() == 0
        })
    }
}

/// Refund an expired task.  Anyone may call: before the deadline the call
/// is an idempotent no-op; from the deadline on, a record whose proof was
/// never accepted is terminally refunded and its escrow returns to the
/// payer.
pub fn execute_refund_if_expired(state: &mut ContractState, now: u64, task_id: u64) -> (r: Result<
    Response,
    ContractError,
>)
    requires
        wf(*old(state)),
    ensures
        wf(*final(state)),
        r is Err <==> refund_check(*old(state), task_id) is Some,
        r is Err ==> refund_check(*old(state), task_id) == Some(r->Err_0) && *final(state) == *old(state),
        r is Ok ==> refund_ok(*old(state), *final(state), r->Ok_0, now, task_id),
{
    let n = state.tasks.len();
    if task_id < 1 || task_id > (n as u64) {
        return Err(ContractError::TaskNotFound {});
    }
    let i = (task_id - 1) as usize;
    match state.tasks[i].status {
        TaskStatus::Released | TaskStatus::Refunded => {
            return Err(ContractError::TaskAlreadyCompleted {});
        },
        TaskStatus::Disputed => {
            return Err(ContractError::TaskAlreadyDisputed {});
        },
        TaskStatus::PendingRelease => {
            return Err(ContractError::ProofAlreadySubmitted {});
        },
        TaskStatus::Escrowed | TaskStatus::ProofSubmitted => {},
    }
    if now < state.tasks[i].deadline_ts {
        return Ok(quiet_ok());
    }
    let ghost pre = *state;
    let escrowed = matches!(state.tasks[i].proof_type, ProofType::ZkTLS | ProofType::Hybrid);
    let mut transfers: Vec<TransferMsg> = Vec::new();
    if escrowed {
        let b = match find_user_by_exact_name(&state.users, state.tasks[i].payer.as_str()) {
            Some(b) => b,
            None => {
                proof {
                    assert(task_wf(
                        pre.users@,
                        pre.tasks@[i as int],
                        pre.task_escrow@[i as int],
                        i as int,
                    ));
                }
                vstd::pervasive::unreached()
            },
        };
        proof {
            lemma_exact_name_idx(pre.users@, pre.tasks@[i as int].payer@, b as int);
        }
        transfers.push(
            TransferMsg {
                to_address: state.users[b].wallet_address.clone(),
                amount: state.tasks[i].amount.duplicate(),
            },
        );
    }
    let t = &mut state.tasks[i];
    t.status = TaskStatus::Refunded;
    t.updated_at = now;
    state.task_escrow[i] = 0;
    proof {
        assert(state.task_escrow@ =~= pre.task_escrow@.update(i as int, 0u128));
        assert forall|a: int| 0 <= a < state.tasks@.len() implies #[trigger] task_wf(
            state.users@,
            state.tasks@[a],
            state.task_escrow@[a],
            a,
        ) by {
            assert(task_wf(pre.users@, pre.tasks@[a], pre.task_escrow@[a], a));
        }
        task_frame_wf(pre, *state);
    }
    Ok(Response { record_id: Option::None, transfers })
}

/// A store whose directory, payments and record count are unchanged, and
/// whose task records each satisfy their invariant, is well-formed again.
proof fn task_frame_wf(pre: ContractState, post: ContractState)
    requires
        wf(pre),
        same_users(pre, post),
        post.friend_requests@ == pre.friend_requests@,
        same_payments(pre, post),
        post.tasks@.len() == pre.tasks@.len(),
        post.task_escrow@.len() == pre.task_escrow@.len(),
        post.next_payment_id == pre.next_payment_id,
        post.next_task_id == pre.next_task_id,
        post.stats.total_users == pre.stats.total_users,
        post.stats.total_payments == pre.stats.total_payments,
        forall|a: int|
            0 <= a < post.tasks@.len() ==> #[trigger] task_wf(
                post.users@,
                post.tasks@[a],
                post.task_escrow@[a],
                a,
            ),
    ensures
        wf(post),
{
    assert forall|a: int| 0 <= a < post.payments@.len() implies #[trigger] payment_wf(
        post.users@,
        post.payments@[a],
        post.payment_escrow@[a],
        a,
    ) by {
        assert(payment_wf(pre.users@, pre.payments@[a], pre.payment_escrow@[a], a));
    }
}

} // verus!
