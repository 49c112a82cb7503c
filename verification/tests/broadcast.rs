use cosmos_client::account::Account;
use cosmos_client::auth::{Coin, Fee};
use cosmos_client::broadcast::{
    Action, Event, Fault, Phase, Status, Submission, MAX_RETRIES, POLL_INTERVAL_SECS,
};
use cosmos_client::envelope::Envelope;
use cosmos_client::error::BroadcastTxCommitError;
use cosmos_client::hash::TxHash;
use cosmos_client::rpc::{BroadcastTxSyncResponse, ExecTxResult, JsonRpcError, TxResponse};
use cosmos_client::tx::{tx_info, SignedTx};

fn signed() -> SignedTx {
    tx_info(
        vec![Envelope { type_url: "/a.Msg".to_string(), value: vec![1, 2, 3] }],
        "memo",
        &Account { account_number: 3, sequence: 8 },
        &[2; 33],
        Fee {
            amount: vec![Coin { denom: "muno".to_string(), amount: "10".to_string() }],
            gas_limit: 1000,
            payer: String::new(),
            granter: String::new(),
        },
    )
    .finalize(Fee {
        amount: vec![Coin { denom: "muno".to_string(), amount: "7".to_string() }],
        gas_limit: 700,
        payer: String::new(),
        granter: String::new(),
    })
    .assemble(&[9; 64])
}

fn local_hash() -> TxHash {
    signed().hash()
}

fn found(code: u32) -> TxResponse {
    TxResponse {
        hash: local_hash(),
        height: 100,
        index: 1,
        tx_result: ExecTxResult {
            code,
            data: Some(vec![1]),
            log: "exec log".to_string(),
            info: String::new(),
            gas_wanted: 700,
            gas_used: 650,
            codespace: "exec".to_string(),
        },
        tx: signed().raw().clone(),
    }
}

fn rpc_error(message: &str) -> JsonRpcError {
    JsonRpcError { message: message.to_string() }
}

fn accepted(code: u32) -> BroadcastTxSyncResponse {
    BroadcastTxSyncResponse {
        code,
        data: vec![],
        log: "check log".to_string(),
        codespace: "check".to_string(),
        hash: local_hash(),
    }
}

/// The transport as a script: each answer is checked to be expected, and the
/// actions are recorded.
fn run(events: Vec<Event>) -> (Submission, Vec<Action>) {
    let (mut m, first) = Submission::start(signed());
    let mut actions = vec![first];
    for e in events {
        assert!(m.expects(&e), "unexpected {:?} in {:?}", e, m.phase());
        let (next, action) = m.step(e);
        m = next;
        actions.push(action);
    }
    (m, actions)
}

/// The answers up to the first lookup after acceptance, at height 50.
fn until_first_lookup() -> Vec<Event> {
    vec![
        Event::Tx(Err(rpc_error("not found"))),
        Event::Broadcasted(Ok(accepted(0))),
        Event::Height(Ok(50)),
        Event::Height(Ok(50)),
    ]
}

fn broadcasts(actions: &[Action]) -> usize {
    actions.iter().filter(|a| **a == Action::Broadcast).count()
}

#[test]
fn constants_of_the_confirmation() {
    assert_eq!(MAX_RETRIES, 5);
    assert_eq!(POLL_INTERVAL_SECS, 1);
}

#[test]
fn submission_starts_with_the_pre_check() {
    let (m, action) = Submission::start(signed());
    assert_eq!(action, Action::LookupTx);
    assert_eq!(m.phase(), Phase::PreCheck);
    assert_eq!(m.attempts(), 0);
    assert_eq!(m.tx().hash(), local_hash());
    assert_eq!(*m.tx().raw(), *signed().raw());
}

#[test]
fn transaction_already_on_chain_is_returned_and_not_submitted() {
    let (m, actions) = run(vec![Event::Tx(Ok(found(0)))]);
    assert_eq!(actions, vec![Action::LookupTx, Action::Return(Ok(found(0)))]);
    assert_eq!(m.phase(), Phase::Included);
    assert_eq!(broadcasts(&actions), 0);
}

#[test]
fn second_call_with_identical_bytes_short_circuits_with_the_same_result() {
    // first call: not on chain yet, submitted, included at once
    let mut first = until_first_lookup();
    first.push(Event::Tx(Ok(found(0))));
    let (_, first_actions) = run(first);
    assert_eq!(broadcasts(&first_actions), 1);
    let first_result = first_actions.last().unwrap();
    // second call: the chain has the transaction now
    let (_, second_actions) = run(vec![Event::Tx(Ok(found(0)))]);
    assert_eq!(broadcasts(&second_actions), 0);
    assert_eq!(second_actions.last().unwrap(), first_result);
    assert_eq!(*first_result, Action::Return(Ok(found(0))));
}

#[test]
fn pre_check_returns_what_is_found_whatever_its_code() {
    let (m, actions) = run(vec![Event::Tx(Ok(found(5)))]);
    assert_eq!(actions[1], Action::Return(Ok(found(5))));
    assert_eq!(m.phase(), Phase::Included);
}

#[test]
fn pre_check_that_finds_nothing_leads_to_submission() {
    let (m, actions) = run(vec![Event::Tx(Err(rpc_error("not found")))]);
    assert_eq!(actions, vec![Action::LookupTx, Action::Broadcast]);
    assert_eq!(m.phase(), Phase::Submitting);
    assert_eq!(m.attempts(), 0);
}

#[test]
fn transport_failure_on_submission_is_passed_on() {
    let (m, actions) = run(vec![
        Event::Tx(Err(rpc_error("not found"))),
        Event::Broadcasted(Err(rpc_error("connection reset"))),
    ]);
    assert_eq!(
        actions[2],
        Action::Return(Err(BroadcastTxCommitError::JsonRpc(rpc_error("connection reset"))))
    );
    assert_eq!(m.phase(), Phase::InclusionUnknown);
}

#[test]
fn mismatched_hash_surfaces_the_fault() {
    let mut wrong = [0u8; 32];
    wrong[0] = 1;
    let mut response = accepted(0);
    response.hash = TxHash(wrong);
    let (m, actions) =
        run(vec![Event::Tx(Err(rpc_error("not found"))), Event::Broadcasted(Ok(response))]);
    assert_eq!(
        actions[2],
        Action::Abort(Fault::HashMismatch { local: local_hash(), reported: TxHash(wrong) })
    );
    assert_eq!(m.phase(), Phase::Aborted);
}

#[test]
fn mismatched_hash_is_a_fault_even_when_the_code_is_a_rejection() {
    let mut response = accepted(4);
    response.hash = TxHash([0; 32]);
    let (_, actions) =
        run(vec![Event::Tx(Err(rpc_error("not found"))), Event::Broadcasted(Ok(response))]);
    assert_eq!(
        actions[2],
        Action::Abort(Fault::HashMismatch { local: local_hash(), reported: TxHash([0; 32]) })
    );
}

#[test]
fn matching_hash_goes_on() {
    let (m, actions) =
        run(vec![Event::Tx(Err(rpc_error("not found"))), Event::Broadcasted(Ok(accepted(0)))]);
    assert_eq!(actions[2], Action::QueryHeight);
    assert_eq!(m.phase(), Phase::Baseline);
    assert_eq!(local_hash(), TxHash::of(signed().raw()));
}

#[test]
fn mempool_rejection_is_tx_failed_and_not_retried() {
    let (m, actions) =
        run(vec![Event::Tx(Err(rpc_error("not found"))), Event::Broadcasted(Ok(accepted(13)))]);
    assert_eq!(
        actions[2],
        Action::Return(Err(BroadcastTxCommitError::TxFailed {
            codespace: "check".to_string(),
            error_code: 13,
            log: "check log".to_string(),
        }))
    );
    assert_eq!(m.phase(), Phase::Failed);
    assert_eq!(m.attempts(), 0);
    assert!(!m.expects(&Event::Height(Ok(1))));
}

#[test]
fn baseline_height_becomes_the_target() {
    let (m, actions) = run(vec![
        Event::Tx(Err(rpc_error("not found"))),
        Event::Broadcasted(Ok(accepted(0))),
        Event::Height(Ok(50)),
    ]);
    assert_eq!(actions[3], Action::QueryHeight);
    assert_eq!(m.phase(), Phase::AwaitHeight { target: 50 });
}

#[test]
fn below_the_target_the_client_sleeps_one_second_and_asks_again() {
    let (m, actions) = run(vec![
        Event::Tx(Err(rpc_error("not found"))),
        Event::Broadcasted(Ok(accepted(0))),
        Event::Height(Ok(50)),
        Event::Height(Ok(49)),
        Event::Woke,
        Event::Height(Ok(49)),
        Event::Woke,
        Event::Height(Ok(50)),
    ]);
    assert_eq!(actions[4], Action::Sleep { seconds: 1 });
    assert_eq!(actions[5], Action::QueryHeight);
    assert_eq!(actions[6], Action::Sleep { seconds: 1 });
    assert_eq!(actions[7], Action::QueryHeight);
    assert_eq!(actions[8], Action::LookupTx);
    assert_eq!(m.phase(), Phase::AwaitTx { reached: 50 });
    assert_eq!(m.attempts(), 0);
}

#[test]
fn transport_failure_on_a_height_query_is_passed_on() {
    let (m, actions) = run(vec![
        Event::Tx(Err(rpc_error("not found"))),
        Event::Broadcasted(Ok(accepted(0))),
        Event::Height(Err(rpc_error("timeout"))),
    ]);
    assert_eq!(
        actions[3],
        Action::Return(Err(BroadcastTxCommitError::JsonRpc(rpc_error("timeout"))))
    );
    assert_eq!(m.phase(), Phase::InclusionUnknown);
    let (_, actions) = run(vec![
        Event::Tx(Err(rpc_error("not found"))),
        Event::Broadcasted(Ok(accepted(0))),
        Event::Height(Ok(50)),
        Event::Height(Err(rpc_error("timeout"))),
    ]);
    assert_eq!(
        actions[4],
        Action::Return(Err(BroadcastTxCommitError::JsonRpc(rpc_error("timeout"))))
    );
}

#[test]
fn inclusion_with_code_zero_is_success() {
    let mut events = until_first_lookup();
    events.push(Event::Tx(Ok(found(0))));
    let (m, actions) = run(events);
    assert_eq!(*actions.last().unwrap(), Action::Return(Ok(found(0))));
    assert_eq!(m.phase(), Phase::Included);
    assert_eq!(broadcasts(&actions), 1);
}

#[test]
fn execution_failure_ends_at_once_without_a_retry() {
    let mut events = until_first_lookup();
    events.push(Event::Tx(Ok(found(11))));
    let (m, actions) = run(events);
    assert_eq!(
        *actions.last().unwrap(),
        Action::Return(Err(BroadcastTxCommitError::TxFailed {
            codespace: "check".to_string(),
            error_code: 11,
            log: "check log".to_string(),
        }))
    );
    assert_eq!(m.phase(), Phase::Failed);
    assert_eq!(m.attempts(), 0);
}

#[test]
fn execution_failure_after_retries_leaves_the_count_alone() {
    let mut events = until_first_lookup();
    events.push(Event::Tx(Err(rpc_error("not indexed"))));
    events.push(Event::Height(Ok(51)));
    events.push(Event::Tx(Err(rpc_error("not indexed"))));
    events.push(Event::Height(Ok(52)));
    events.push(Event::Tx(Ok(found(2))));
    let (m, actions) = run(events);
    assert!(matches!(
        actions.last().unwrap(),
        Action::Return(Err(BroadcastTxCommitError::TxFailed { error_code: 2, .. }))
    ));
    assert_eq!(m.attempts(), 2);
}

#[test]
fn lookup_error_consumes_one_retry_and_moves_the_target() {
    let mut events = until_first_lookup();
    events.push(Event::Tx(Err(rpc_error("not indexed"))));
    let (m, actions) = run(events);
    assert_eq!(*actions.last().unwrap(), Action::QueryHeight);
    assert_eq!(m.phase(), Phase::AwaitHeight { target: 51 });
    assert_eq!(m.attempts(), 1);
}

#[test]
fn target_follows_the_height_that_was_reached() {
    let mut events = vec![
        Event::Tx(Err(rpc_error("not found"))),
        Event::Broadcasted(Ok(accepted(0))),
        Event::Height(Ok(50)),
        Event::Height(Ok(58)),
    ];
    events.push(Event::Tx(Err(rpc_error("not indexed"))));
    let (m, _) = run(events);
    assert_eq!(m.phase(), Phase::AwaitHeight { target: 59 });
}

#[test]
fn target_does_not_wrap_at_the_largest_height() {
    let events = vec![
        Event::Tx(Err(rpc_error("not found"))),
        Event::Broadcasted(Ok(accepted(0))),
        Event::Height(Ok(u64::MAX)),
        Event::Height(Ok(u64::MAX)),
        Event::Tx(Err(rpc_error("not indexed"))),
    ];
    let (m, _) = run(events);
    assert_eq!(m.phase(), Phase::AwaitHeight { target: u64::MAX });
}

fn with_failures(n: usize) -> Vec<Event> {
    let mut events = until_first_lookup();
    for i in 0..n {
        events.push(Event::Tx(Err(rpc_error(&format!("failure {}", i + 1)))));
        if i + 1 < n || n <= 5 {
            events.push(Event::Height(Ok(51 + i as u64)));
        }
    }
    events
}

#[test]
fn five_failed_lookups_then_success_is_success() {
    let mut events = with_failures(5);
    events.push(Event::Tx(Ok(found(0))));
    let (m, actions) = run(events);
    assert_eq!(*actions.last().unwrap(), Action::Return(Ok(found(0))));
    assert_eq!(m.phase(), Phase::Included);
    assert_eq!(m.attempts(), 5);
    assert_eq!(broadcasts(&actions), 1);
}

#[test]
fn six_failed_lookups_is_an_inclusion_error_with_six_attempts() {
    let (m, actions) = run(with_failures(6));
    assert_eq!(
        *actions.last().unwrap(),
        Action::Return(Err(BroadcastTxCommitError::Inclusion {
            attempts: 6,
            tx_hash: local_hash(),
            error: rpc_error("failure 6"),
        }))
    );
    assert_eq!(m.phase(), Phase::InclusionUnknown);
    assert_eq!(m.attempts(), 6);
    // none of the five before ended the submission
    for action in &actions[..actions.len() - 1] {
        assert!(!matches!(action, Action::Return(_)));
    }
}

#[test]
fn every_count_of_failures_up_to_the_budget_leaves_the_outcome_open() {
    for n in 0..=5 {
        let (m, actions) = run(with_failures(n));
        assert_eq!(m.attempts(), n);
        assert_eq!(*actions.last().unwrap(), Action::LookupTx);
        assert!(matches!(m.phase(), Phase::AwaitTx { .. }));
    }
}

#[test]
fn inclusion_error_carries_the_transport_error() {
    let (_, actions) = run(with_failures(6));
    match actions.last().unwrap() {
        Action::Return(Err(error)) => {
            assert_eq!(error.as_json_rpc_error(), Some(&rpc_error("failure 6")));
            assert_eq!(error.as_grpc_abci_query_error(), None);
        }
        other => panic!("unexpected {:?}", other),
    }
}

#[test]
fn answer_that_was_not_asked_for_is_a_fault() {
    let (m, _) = Submission::start(signed());
    assert!(!m.expects(&Event::Woke));
    assert!(!m.expects(&Event::Height(Ok(1))));
    assert!(!m.expects(&Event::Broadcasted(Ok(accepted(0)))));
    assert!(m.expects(&Event::Tx(Ok(found(0)))));
    let (m, action) = m.step(Event::Woke);
    assert_eq!(action, Action::Abort(Fault::UnexpectedEvent));
    assert_eq!(m.phase(), Phase::Aborted);
}

#[test]
fn finished_submission_stays_finished() {
    let (m, _) = run(vec![Event::Tx(Ok(found(0)))]);
    for event in [Event::Woke, Event::Height(Ok(1)), Event::Tx(Ok(found(0)))] {
        assert!(!m.expects(&event));
    }
    let (m, action) = m.step(Event::Tx(Err(rpc_error("late"))));
    assert_eq!(action, Action::Abort(Fault::UnexpectedEvent));
    assert_eq!(m.phase(), Phase::Included);
    assert_eq!(m.attempts(), 0);
}

#[test]
fn status_groups_the_phases() {
    assert_eq!(Phase::PreCheck.status(), Status::NotSubmitted);
    assert_eq!(Phase::Submitting.status(), Status::NotSubmitted);
    assert_eq!(Phase::Baseline.status(), Status::Submitted);
    assert_eq!(Phase::AwaitHeight { target: 1 }.status(), Status::Submitted);
    assert_eq!(Phase::Paused { target: 1 }.status(), Status::Submitted);
    assert_eq!(Phase::AwaitTx { reached: 1 }.status(), Status::Submitted);
    assert_eq!(Phase::Included.status(), Status::Included);
    assert_eq!(Phase::Failed.status(), Status::Failed);
    assert_eq!(Phase::InclusionUnknown.status(), Status::InclusionUnknown);
    assert_eq!(Phase::Aborted.status(), Status::Aborted);
}
