//! The engine's settlement laws, stated over the store invariant and the
//! entry points' rejection predicates.
//!
//! Together with each entry point's own contract — a rejected call leaves
//! the store untouched, and a transfer is only ever issued by the call
//! that moves its record to a terminal status — these pin down the two
//! core guarantees: escrow is held in full exactly while a record is in
//! flight, and a settled record can never pay out again.

use vstd::prelude::*;

use crate::contract::approve_payment_check;
use crate::error::ContractError;
use crate::contract::cancel_payment_check;
use crate::contract::reject_payment_check;
use crate::contract::submit_proof_check;
use crate::state::Coin;
use crate::state::ContractState;
use crate::state::Payment;
use crate::state::Task;
use crate::state::payment_escrows;
use crate::state::payment_terminal;
use crate::state::payment_wf;
use crate::state::task_escrows;
use crate::state::task_terminal;
use crate::state::task_wf;
use crate::state::wf;
use crate::tasks::approve_task_check;
use crate::tasks::dispute_check;
use crate::tasks::refund_check;
use crate::tasks::release_check;
use crate::tasks::resolve_check;
use crate::tasks::soft_evidence_check;
use crate::tasks::zktls_check;

verus! {

/// In a well-formed store the escrow ledger tracks each payment record
/// exactly: a record of an escrowed kind holds its declared amount while
/// it is in flight, and nothing once it is settled (or if its kind never
/// escrows).
pub proof fn lemma_payment_escrow_tracks_status(s: ContractState, i: int)
    requires
        wf(s),
        0 <= i < s.payments@.len(),
    ensures
        payment_escrows(s.payments@[i].payment_type) && !payment_terminal(s.payments@[i].status)
            ==> s.payment_escrow@[i] == s.payments@[i].amount.amount,
        payment_terminal(s.payments@[i].status) ==> s.payment_escrow@[i] == 0,
{
    assert(payment_wf(s.users@, s.payments@[i], s.payment_escrow@[i], i));
}

/// In a well-formed store the escrow ledger tracks each task record
/// exactly: an escrowed task holds its declared amount while in flight and
/// nothing once settled.
pub proof fn lemma_task_escrow_tracks_status(s: ContractState, i: int)
    requires
        wf(s),
        0 <= i < s.tasks@.len(),
    ensures
        task_escrows(s.tasks@[i].proof_type) && !task_terminal(s.tasks@[i].status)
            ==> s.task_escrow@[i] == s.tasks@[i].amount.amount,
        task_terminal(s.tasks@[i].status) ==> s.task_escrow@[i] == 0,
{
    assert(task_wf(s.users@, s.tasks@[i], s.task_escrow@[i], i));
}

/// Sum of an escrow ledger.
pub open spec fn sum_held(h: Seq<u128>) -> int
    decreases h.len(),
{
    if h.len() == 0 {
        0
    } else {
        sum_held(h.drop_last()) + h.last()
    }
}

/// What a payment record should hold: its declared amount while an
/// escrowed kind is in flight, nothing otherwise.
pub open spec fn payment_due(p: Payment) -> int {
    if payment_escrows(p.payment_type) && !payment_terminal(p.status) {
        p.amount.amount as int
    } else {
        0
    }
}

/// Sum of what a sequence of payment records should hold.
pub open spec fn sum_payments_due(ps: Seq<Payment>) -> int
    decreases ps.len(),
{
    if ps.len() == 0 {
        0
    } else {
        sum_payments_due(ps.drop_last()) + payment_due(ps.last())
    }
}

/// What a task record should hold.
pub open spec fn task_due(t: Task) -> int {
    if task_escrows(t.proof_type) && !task_terminal(t.status) {
        t.amount.amount as int
    } else {
        0
    }
}

/// Sum of what a sequence of task records should hold.
pub open spec fn sum_tasks_due(ts: Seq<Task>) -> int
    decreases ts.len(),
{
    if ts.len() == 0 {
        0
    } else {
        sum_tasks_due(ts.drop_last()) + task_due(ts.last())
    }
}

proof fn lemma_sum_payments_pointwise(ps: Seq<Payment>, h: Seq<u128>)
    requires
        h.len() == ps.len(),
        forall|i: int| 0 <= i < ps.len() ==> (#[trigger] h[i]) as int == payment_due(ps[i]),
    ensures
        sum_held(h) == sum_payments_due(ps),
    decreases ps.len(),
{
    if ps.len() > 0 {
        lemma_sum_payments_pointwise(ps.drop_last(), h.drop_last());
    }
}

proof fn lemma_sum_tasks_pointwise(ts: Seq<Task>, h: Seq<u128>)
    requires
        h.len() == ts.len(),
        forall|i: int| 0 <= i < ts.len() ==> (#[trigger] h[i]) as int == task_due(ts[i]),
    ensures
        sum_held(h) == sum_tasks_due(ts),
    decreases ts.len(),
{
    if ts.len() > 0 {
        lemma_sum_tasks_pointwise(ts.drop_last(), h.drop_last());
    }
}

/// The escrow ledger reconciles: in a well-formed store the total amount
/// held equals the sum of the declared amounts of the in-flight escrowed
/// records — over the payment records and the task records alike.
pub proof fn lemma_escrow_reconciles(s: ContractState)
    requires
        wf(s),
    ensures
        sum_held(s.payment_escrow@) == sum_payments_due(s.payments@),
        sum_held(s.task_escrow@) == sum_tasks_due(s.tasks@),
{
    assert forall|i: int| 0 <= i < s.payments@.len() implies (#[trigger] s.payment_escrow@[i])
        as int == payment_due(s.payments@[i]) by {
        assert(payment_wf(s.users@, s.payments@[i], s.payment_escrow@[i], i));
    }
    lemma_sum_payments_pointwise(s.payments@, s.payment_escrow@);
    assert forall|i: int| 0 <= i < s.tasks@.len() implies (#[trigger] s.task_escrow@[i]) as int
        == task_due(s.tasks@[i]) by {
        assert(task_wf(s.users@, s.tasks@[i], s.task_escrow@[i], i));
    }
    lemma_sum_tasks_pointwise(s.tasks@, s.task_escrow@);
}

/// Identifiers are assigned monotonically and never collide: in a
/// well-formed store the record with identifier `n` is the `n - 1`-th of
/// its vector, so two distinct records never share an identifier and a
/// later record always carries a larger one.
pub proof fn lemma_record_ids_monotone(s: ContractState, i: int, j: int)
    requires
        wf(s),
        0 <= i < j,
    ensures
        j < s.payments@.len() ==> s.payments@[i].id < s.payments@[j].id,
        j < s.tasks@.len() ==> s.tasks@[i].id < s.tasks@[j].id,
{
    if j < s.payments@.len() {
        assert(payment_wf(s.users@, s.payments@[i], s.payment_escrow@[i], i));
        assert(payment_wf(s.users@, s.payments@[j], s.payment_escrow@[j], j));
    }
    if j < s.tasks@.len() {
        assert(task_wf(s.users@, s.tasks@[i], s.task_escrow@[i], i));
        assert(task_wf(s.users@, s.tasks@[j], s.task_escrow@[j], j));
    }
}

/// A settled payment record rejects every further call on it: whoever
/// calls and whatever they attach, submit, approve, reject and cancel all
/// answer with an error — and a rejected call leaves the store untouched,
/// so at most one of release and refund ever executes for a record.
pub proof fn lemma_settled_payment_rejects_every_call(s: ContractState, payment_id: u64)
    requires
        wf(s),
        1 <= payment_id <= s.payments@.len(),
        payment_terminal(s.payments@[payment_id - 1].status),
    ensures
        forall|sender: Seq<char>, proof_data: Seq<char>|
            #[trigger] submit_proof_check(s, sender, payment_id, proof_data) is Some,
        forall|sender: Seq<char>, funds: Seq<Coin>|
            #[trigger] approve_payment_check(s, sender, payment_id, funds) is Some,
        forall|sender: Seq<char>| #[trigger] reject_payment_check(s, sender, payment_id) is Some,
        forall|sender: Seq<char>| #[trigger] cancel_payment_check(s, sender, payment_id) is Some,
{
}

/// A settled task record rejects every further call on it: evidence,
/// attestations, approval, dispute, resolution, the release poll and the
/// expiry refund all answer with an error — and a rejected call leaves the
/// store untouched, so at most one of release and refund ever executes for
/// a record.
pub proof fn lemma_settled_task_rejects_every_call(s: ContractState, task_id: u64)
    requires
        wf(s),
        1 <= task_id <= s.tasks@.len(),
        task_terminal(s.tasks@[task_id - 1].status),
    ensures
        forall|now: u64, sender: Seq<char>, evidence: Seq<char>|
            #[trigger] soft_evidence_check(s, now, sender, task_id, evidence) is Some,
        forall|now: u64, sender: Seq<char>, blob: Seq<char>|
            #[trigger] zktls_check(s, now, sender, task_id, blob) is Some,
        forall|sender: Seq<char>, funds: Seq<Coin>|
            #[trigger] approve_task_check(s, sender, task_id, funds) is Some,
        forall|now: u64, sender: Seq<char>, reason: Option<Seq<char>>|
            #[trigger] dispute_check(s, now, sender, task_id, reason) is Some,
        forall|sender: Seq<char>| #[trigger] resolve_check(s, sender, task_id) is Some,
        release_check(s, task_id) is Some,
        refund_check(s, task_id) is Some,
{
}

/// A disputed record is frozen for everyone but the arbiter: evidence,
/// attestations, approval, another dispute, the release poll and the
/// expiry refund all answer with an error while the record is disputed —
/// only `resolve_dispute` can settle it.
pub proof fn lemma_disputed_task_frozen(s: ContractState, task_id: u64)
    requires
        wf(s),
        1 <= task_id <= s.tasks@.len(),
        s.tasks@[task_id - 1].status is Disputed,
    ensures
        forall|now: u64, sender: Seq<char>, evidence: Seq<char>|
            #[trigger] soft_evidence_check(s, now, sender, task_id, evidence) is Some,
        forall|now: u64, sender: Seq<char>, blob: Seq<char>|
            #[trigger] zktls_check(s, now, sender, task_id, blob) is Some,
        forall|sender: Seq<char>, funds: Seq<Coin>|
            #[trigger] approve_task_check(s, sender, task_id, funds) is Some,
        forall|now: u64, sender: Seq<char>, reason: Option<Seq<char>>|
            #[trigger] dispute_check(s, now, sender, task_id, reason) is Some,
        release_check(s, task_id) == Some(ContractError::TaskAlreadyDisputed {}),
        refund_check(s, task_id) == Some(ContractError::TaskAlreadyDisputed {}),
{
}

} // verus!
