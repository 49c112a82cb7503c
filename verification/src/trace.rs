//! Runs of a submission: what holds whatever the transport answers.

use crate::broadcast::{
    in_phase, is_final, next_target, start_spec, status_of, step_spec, well_formed, ActionView,
    EventView, FaultView, Phase, Status, SubmissionView, MAX_RETRIES,
};
use crate::error::BroadcastTxCommitErrorView;
use crate::hash::sha256;
use crate::rpc::{BroadcastTxSyncResponseView, JsonRpcErrorView, TxResponseView};
use vstd::prelude::*;

verus! {

/// Where `m` stands after the answers `events`, taken in order.
pub open spec fn run(m: SubmissionView, events: Seq<EventView>) -> SubmissionView
    decreases events.len(),
{
    if events.len() == 0 {
        m
    } else {
        run(step_spec(m, events[0]).0, events.drop_first())
    }
}

/// What `m` says to do after each of the answers `events`.
pub open spec fn actions(m: SubmissionView, events: Seq<EventView>) -> Seq<ActionView>
    decreases events.len(),
{
    if events.len() == 0 {
        Seq::empty()
    } else {
        seq![step_spec(m, events[0]).1] + actions(step_spec(m, events[0]).0, events.drop_first())
    }
}

/// Whether `event`, arriving at `m`, is a failed lookup of an accepted
/// transaction.
pub open spec fn is_failed_lookup(m: SubmissionView, event: EventView) -> bool {
    match (m.phase, event) {
        (Phase::AwaitTx { .. }, EventView::Tx(Err(_))) => true,
        _ => false,
    }
}

/// Whether `event`, arriving at `m`, is a rejection of the transaction: by
/// the mempool on submission, or by the chain on execution.
pub open spec fn is_rejection(m: SubmissionView, event: EventView) -> bool {
    match (m.phase, event) {
        (Phase::Submitting, EventView::Broadcasted(Ok(r))) => r.hash == m.tx_hash && r.code != 0,
        (Phase::AwaitTx { .. }, EventView::Tx(Ok(found))) => found.tx_result.code != 0,
        _ => false,
    }
}

/// How many of the answers `events` are failed lookups of the accepted
/// transaction, as `m` takes them in order.
pub open spec fn failed_lookups(m: SubmissionView, events: Seq<EventView>) -> nat
    decreases events.len(),
{
    if events.len() == 0 {
        0
    } else {
        let rest = failed_lookups(step_spec(m, events[0]).0, events.drop_first());
        if is_failed_lookup(m, events[0]) {
            rest + 1
        } else {
            rest
        }
    }
}

/// There is one action for each answer.
pub proof fn lemma_actions_len(m: SubmissionView, events: Seq<EventView>)
    ensures
        actions(m, events).len() == events.len(),
    decreases events.len(),
{
    if events.len() > 0 {
        lemma_actions_len(step_spec(m, events[0]).0, events.drop_first());
    }
}

/// A step keeps the bytes and their hash, and keeps a submission well formed.
pub proof fn lemma_step_preserves(m: SubmissionView, event: EventView)
    requires
        well_formed(m),
    ensures
        well_formed(step_spec(m, event).0),
        step_spec(m, event).0.raw == m.raw,
        step_spec(m, event).0.tx_hash == m.tx_hash,
        step_spec(m, event).0.attempts == if is_failed_lookup(m, event) {
            m.attempts + 1
        } else {
            m.attempts as int
        },
{
}

/// The last answer of a run is one step from where the answers before it lead.
pub proof fn lemma_run_last(m: SubmissionView, events: Seq<EventView>)
    requires
        events.len() > 0,
    ensures
        run(m, events) == step_spec(run(m, events.drop_last()), events.last()).0,
        actions(m, events).len() == events.len(),
        actions(m, events).last() == step_spec(run(m, events.drop_last()), events.last()).1,
        failed_lookups(m, events) == failed_lookups(m, events.drop_last()) + if is_failed_lookup(
            run(m, events.drop_last()),
            events.last(),
        ) {
            1nat
        } else {
            0nat
        },
    decreases events.len(),
{
    let next = step_spec(m, events[0]).0;
    let rest = events.drop_first();
    let front = events.drop_last();
    lemma_actions_len(m, events);
    if events.len() == 1 {
        assert(rest =~= Seq::<EventView>::empty());
        assert(front =~= Seq::<EventView>::empty());
        assert(run(m, front) == m);
        assert(failed_lookups(m, front) == 0);
        assert(failed_lookups(next, rest) == 0);
        assert(actions(next, rest) =~= Seq::<ActionView>::empty());
    } else {
        lemma_run_last(next, rest);
        lemma_actions_len(next, rest);
        assert(front.drop_first() =~= rest.drop_last());
        assert(front[0] == events[0]);
        assert(run(m, front) == run(next, rest.drop_last()));
        assert(failed_lookups(m, front) == failed_lookups(next, rest.drop_last()) + if is_failed_lookup(
            m,
            events[0],
        ) {
            1nat
        } else {
            0nat
        });
        assert(rest.last() == events.last());
    }
}

/// A well-formed submission stays so, keeps its bytes and their hash, and
/// counts the failed lookups of the accepted transaction, one by one and
/// nothing else: never more than one above the budget.
pub proof fn lemma_failed_lookups_are_counted(m: SubmissionView, events: Seq<EventView>)
    requires
        well_formed(m),
    ensures
        well_formed(run(m, events)),
        run(m, events).raw == m.raw,
        run(m, events).tx_hash == m.tx_hash,
        run(m, events).attempts == m.attempts + failed_lookups(m, events),
        m.attempts + failed_lookups(m, events) <= MAX_RETRIES + 1,
    decreases events.len(),
{
    if events.len() > 0 {
        lemma_step_preserves(m, events[0]);
        lemma_failed_lookups_are_counted(step_spec(m, events[0]).0, events.drop_first());
    }
}

/// A final phase stays: whatever arrives later is met with the same fault,
/// and nothing more is asked of the transport.
pub proof fn lemma_final_is_final(m: SubmissionView, events: Seq<EventView>)
    requires
        is_final(m.phase),
    ensures
        run(m, events) == m,
        forall|i: int|
            0 <= i < events.len() ==> (#[trigger] actions(m, events)[i]) == ActionView::Abort(
                FaultView::UnexpectedEvent,
            ),
    decreases events.len(),
{
    if events.len() > 0 {
        lemma_final_is_final(m, events.drop_first());
        lemma_actions_len(m, events.drop_first());
        assert forall|i: int| 0 <= i < events.len() implies (#[trigger] actions(m, events)[i])
            == ActionView::Abort(FaultView::UnexpectedEvent) by {
            if i > 0 {
                assert(actions(m, events)[i] == actions(m, events.drop_first())[i - 1]);
            }
        }
    }
}

/// Whether `event`, arriving at `m`, is the mempool accepting the bytes of
/// `m`: the answer to the submission, with the hash of `m` and code 0.
pub open spec fn is_acceptance(m: SubmissionView, event: EventView) -> bool {
    match (m.phase, event) {
        (Phase::Submitting, EventView::Broadcasted(Ok(response))) => response.hash == m.tx_hash
            && response.code == 0,
        _ => false,
    }
}

/// How far along a status is: before acceptance, after it, over.
pub open spec fn progress(status: Status) -> nat {
    match status {
        Status::NotSubmitted => 0,
        Status::Submitted => 1,
        _ => 2,
    }
}

/// A submission only moves forward: from not submitted to submitted to over,
/// never back, and once it is over its status stays what it is. It counts as
/// submitted only once the mempool has accepted the very bytes with code 0.
pub proof fn lemma_status_moves_forward(m: SubmissionView, events: Seq<EventView>)
    ensures
        progress(status_of(m.phase)) <= progress(status_of(run(m, events).phase)),
        is_final(m.phase) ==> status_of(run(m, events).phase) == status_of(m.phase),
        events.len() == 1 && status_of(m.phase) is NotSubmitted && status_of(
            run(m, events).phase,
        ) is Submitted ==> is_acceptance(m, events[0]),
    decreases events.len(),
{
    if events.len() > 0 {
        lemma_status_moves_forward(step_spec(m, events[0]).0, events.drop_first());
        if events.len() == 1 {
            assert(events.drop_first() =~= Seq::<EventView>::empty());
            assert(run(m, events) == step_spec(m, events[0]).0);
        }
    }
}

/// The bytes are submitted only as the answer to a pre-check that found
/// nothing, and a submission never goes back to its pre-check.
pub proof fn lemma_submitted_once(m: SubmissionView, events: Seq<EventView>)
    ensures
        !(m.phase is PreCheck) ==> !(run(m, events).phase is PreCheck),
        !(m.phase is PreCheck) ==> forall|i: int|
            0 <= i < events.len() ==> (#[trigger] actions(m, events)[i]) != ActionView::Broadcast,
        forall|i: int, j: int|
            0 <= i < j < events.len() ==> !(actions(m, events)[i] == ActionView::Broadcast
                && actions(m, events)[j] == ActionView::Broadcast),
    decreases events.len(),
{
    if events.len() > 0 {
        let next = step_spec(m, events[0]).0;
        let rest = events.drop_first();
        lemma_submitted_once(next, rest);
        lemma_actions_len(next, rest);
        assert(!(next.phase is PreCheck));
        assert forall|i: int| 0 < i < events.len() implies (#[trigger] actions(m, events)[i])
            == actions(next, rest)[i - 1] by {}
        if !(m.phase is PreCheck) {
            assert forall|i: int| 0 <= i < events.len() implies (#[trigger] actions(m, events)[i])
                != ActionView::Broadcast by {
                if i > 0 {
                    assert(actions(m, events)[i] == actions(next, rest)[i - 1]);
                }
            }
        }
        assert forall|i: int, j: int| 0 <= i < j < events.len() implies !(actions(m, events)[i]
            == ActionView::Broadcast && actions(m, events)[j] == ActionView::Broadcast) by {
            assert(actions(m, events)[j] == actions(next, rest)[j - 1]);
        }
    }
}

/// A transaction that is on chain already is not submitted again. Where the
/// pre-check of a fresh submission finds the hash, the submission is over at
/// once with what was found, and whatever is answered later, the bytes are
/// never handed to the transport.
pub proof fn lemma_found_is_not_resubmitted(
    raw: Seq<u8>,
    tx_hash: Seq<u8>,
    found: TxResponseView,
    later: Seq<EventView>,
)
    ensures
        step_spec(start_spec(raw, tx_hash), EventView::Tx(Ok(found))) == (
            in_phase(start_spec(raw, tx_hash), Phase::Included),
            ActionView::Return(Ok(found)),
        ),
        forall|i: int|
            0 <= i < later.len() + 1 ==> (#[trigger] actions(
                start_spec(raw, tx_hash),
                seq![EventView::Tx(Ok(found))] + later,
            )[i]) != ActionView::Broadcast,
{
    let m = start_spec(raw, tx_hash);
    let events = seq![EventView::Tx(Ok(found))] + later;
    let next = step_spec(m, events[0]).0;
    assert(events.drop_first() =~= later);
    lemma_submitted_once(next, later);
    lemma_actions_len(next, later);
    assert forall|i: int| 0 <= i < later.len() + 1 implies (#[trigger] actions(m, events)[i])
        != ActionView::Broadcast by {
        if i > 0 {
            assert(actions(m, events)[i] == actions(next, later)[i - 1]);
        }
    }
}

/// The hash that the node reports for the submitted bytes is held against
/// the hash that the client computed, which is the SHA-256 of those bytes:
/// the submission goes on exactly when the two are the same, and ends with
/// both hashes as a fault when they are not.
pub proof fn lemma_hash_is_checked(m: SubmissionView, response: BroadcastTxSyncResponseView)
    requires
        m.phase is Submitting,
        m.tx_hash == sha256(m.raw),
    ensures
        response.hash != sha256(m.raw) ==> step_spec(m, EventView::Broadcasted(Ok(response))) == (
            in_phase(m, Phase::Aborted),
            ActionView::Abort(
                FaultView::HashMismatch { local: sha256(m.raw), reported: response.hash },
            ),
        ),
        response.hash == sha256(m.raw) ==> !(step_spec(
            m,
            EventView::Broadcasted(Ok(response)),
        ).1 is Abort),
{
}

/// The error that a rejection is reported with: the code of the rejection,
/// with the codespace and log of what the mempool answered on submission.
pub open spec fn rejection(m: SubmissionView, event: EventView) -> BroadcastTxCommitErrorView {
    match event {
        EventView::Broadcasted(Ok(r)) => BroadcastTxCommitErrorView::TxFailed {
            codespace: r.codespace,
            error_code: r.code,
            log: r.log,
        },
        EventView::Tx(Ok(found)) => BroadcastTxCommitErrorView::TxFailed {
            codespace: m.codespace,
            error_code: found.tx_result.code,
            log: m.log,
        },
        _ => BroadcastTxCommitErrorView::NoResponse,
    }
}

/// A rejection ends the submission at once, by the mempool as by the chain,
/// and costs no retry: the error bears the code of the rejection, never 0,
/// and the count of failed lookups stays as it was.
pub proof fn lemma_rejection_is_final(m: SubmissionView, event: EventView)
    requires
        is_rejection(m, event),
    ensures
        step_spec(m, event).0 == in_phase(m, Phase::Failed),
        step_spec(m, event).0.attempts == m.attempts,
        step_spec(m, event).1 == ActionView::Return(
            Err::<TxResponseView, BroadcastTxCommitErrorView>(rejection(m, event)),
        ),
        rejection(m, event) is TxFailed,
        rejection(m, event)->error_code != 0,
{
}

/// A lookup that fails costs one retry, and the budget decides what follows:
/// while fewer than `MAX_RETRIES` lookups have failed before, the submission
/// waits for the next height and looks again; the failure after that ends it,
/// with the count, the hash and the last error.
pub proof fn lemma_lookup_failure_costs_a_retry(m: SubmissionView, error: JsonRpcErrorView)
    requires
        well_formed(m),
        m.phase is AwaitTx,
    ensures
        step_spec(m, EventView::Tx(Err(error))).0.attempts == m.attempts + 1,
        m.attempts < MAX_RETRIES ==> step_spec(m, EventView::Tx(Err(error))) == (
            SubmissionView {
                phase: Phase::AwaitHeight { target: next_target(m.phase->reached) },
                attempts: (m.attempts + 1) as usize,
                ..m
            },
            ActionView::QueryHeight,
        ),
        m.attempts == MAX_RETRIES ==> step_spec(m, EventView::Tx(Err(error))) == (
            SubmissionView {
                phase: Phase::InclusionUnknown,
                attempts: (MAX_RETRIES + 1) as usize,
                ..m
            },
            ActionView::Return(
                Err(
                    BroadcastTxCommitErrorView::Inclusion {
                        attempts: (MAX_RETRIES + 1) as usize,
                        tx_hash: m.tx_hash,
                        error,
                    },
                ),
            ),
        ),
{
}

/// A lookup that finds the transaction with code 0 ends the submission with
/// what was found, however many lookups failed before.
pub proof fn lemma_success_is_taken(m: SubmissionView, found: TxResponseView)
    requires
        m.phase is AwaitTx,
        found.tx_result.code == 0,
    ensures
        step_spec(m, EventView::Tx(Ok(found))) == (
            in_phase(m, Phase::Included),
            ActionView::Return(Ok(found)),
        ),
{
}

/// The retry boundary, over whole runs. In any run of a fresh submission the
/// error for a transaction that cannot be found comes with the failed lookup
/// that is one above the budget and with no other answer: it then bears that
/// count and the hash of the submission. Up to the budget, failed lookups
/// leave the outcome open, so a lookup that succeeds after them is taken.
pub proof fn lemma_retry_boundary(raw: Seq<u8>, tx_hash: Seq<u8>, events: Seq<EventView>)
    requires
        events.len() > 0,
    ensures
        failed_lookups(start_spec(raw, tx_hash), events) <= MAX_RETRIES + 1,
        (actions(start_spec(raw, tx_hash), events).last() matches ActionView::Return(
            Err(BroadcastTxCommitErrorView::Inclusion { .. }),
        )) <==> (is_failed_lookup(
            run(start_spec(raw, tx_hash), events.drop_last()),
            events.last(),
        ) && failed_lookups(start_spec(raw, tx_hash), events) == MAX_RETRIES + 1),
        actions(start_spec(raw, tx_hash), events).last() matches ActionView::Return(
            Err(BroadcastTxCommitErrorView::Inclusion { attempts, tx_hash: reported, error }),
        ) ==> attempts == MAX_RETRIES + 1 && reported == tx_hash && events.last()
            == EventView::Tx(Err::<TxResponseView, JsonRpcErrorView>(error)),
        (is_failed_lookup(run(start_spec(raw, tx_hash), events.drop_last()), events.last())
            && failed_lookups(start_spec(raw, tx_hash), events) <= MAX_RETRIES) ==> !is_final(
            run(start_spec(raw, tx_hash), events).phase,
        ),
{
    let m = start_spec(raw, tx_hash);
    let before = run(m, events.drop_last());
    lemma_run_last(m, events);
    lemma_failed_lookups_are_counted(m, events.drop_last());
    lemma_failed_lookups_are_counted(m, events);
    lemma_step_preserves(before, events.last());
}

} // verus!
