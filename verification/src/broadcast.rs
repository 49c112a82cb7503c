//! Submitting a signed transaction and waiting until it is in a block.
//!
//! The client decides and the transport acts: a `Submission` is a state
//! machine that is told what the transport answered and says what to ask
//! next. It never submits bytes whose hash is already on chain, never
//! submits twice, never retries a rejection, and gives up on a transaction
//! that cannot be found after a fixed number of failed lookups.

use crate::error::{BroadcastTxCommitError, BroadcastTxCommitErrorView};
use crate::hash::{sha256, TxHash};
use crate::rpc::{
    BroadcastTxSyncResponse, BroadcastTxSyncResponseView, JsonRpcError, JsonRpcErrorView,
    TxResponse, TxResponseView,
};
use crate::tx::SignedTx;
use vstd::prelude::*;

verus! {

/// How many failed lookups of an accepted transaction are followed by
/// another try.
pub const MAX_RETRIES: usize = 5;

/// How long to wait, in seconds, before asking for the height again.
pub const POLL_INTERVAL_SECS: u64 = 1;

/// Where a submission stands. `PreCheck` and `Submitting` are before the
/// mempool has accepted the bytes; `Baseline`, `AwaitHeight`, `Paused` and
/// `AwaitTx` are after; the last four are final.
#[derive(Clone, Copy, Debug, PartialEq, Eq)]
pub enum Phase {
    /// Asked whether the hash is on chain already.
    PreCheck,
    /// Handed the bytes to the transport.
    Submitting,
    /// Accepted; asked for the height from which to look.
    Baseline,
    /// Asked for the current height, to look once it is `target`.
    AwaitHeight { target: u64 },
    /// Below `target`; waiting before asking again.
    Paused { target: u64 },
    /// At height `reached`; asked for the transaction.
    AwaitTx { reached: u64 },
    /// The transaction is in a block: it was there before anything was
    /// submitted, or it was found after submission with code 0.
    Included,
    /// The mempool or the chain rejected the transaction.
    Failed,
    /// The transport failed, or the lookups did once too often: the
    /// transaction may or may not be in a block.
    InclusionUnknown,
    /// The transport and the client disagree in a way that retrying cannot mend.
    Aborted,
}

/// How far a submission has come: not yet accepted by the mempool, accepted
/// and waiting for a block, or over in one of four ways.
#[derive(Clone, Copy, Debug, PartialEq, Eq)]
pub enum Status {
    NotSubmitted,
    Submitted,
    Included,
    Failed,
    InclusionUnknown,
    Aborted,
}

/// How far a submission in `phase` has come.
pub open spec fn status_of(phase: Phase) -> Status {
    match phase {
        Phase::PreCheck | Phase::Submitting => Status::NotSubmitted,
        Phase::Baseline
        | Phase::AwaitHeight { .. }
        | Phase::Paused { .. }
        | Phase::AwaitTx { .. } => Status::Submitted,
        Phase::Included => Status::Included,
        Phase::Failed => Status::Failed,
        Phase::InclusionUnknown => Status::InclusionUnknown,
        Phase::Aborted => Status::Aborted,
    }
}

impl Phase {
    /// How far a submission in this phase has come.
    pub fn status(&self) -> (status: Status)
        ensures
            status == status_of(*self),
    {
        match self {
            Phase::PreCheck | Phase::Submitting => Status::NotSubmitted,
            Phase::Baseline
            | Phase::AwaitHeight { .. }
            | Phase::Paused { .. }
            | Phase::AwaitTx { .. } => Status::Submitted,
            Phase::Included => Status::Included,
            Phase::Failed => Status::Failed,
            Phase::InclusionUnknown => Status::InclusionUnknown,
            Phase::Aborted => Status::Aborted,
        }
    }
}

/// What the transport answered.
#[derive(Debug, PartialEq, Eq)]
pub enum Event {
    /// The answer to `LookupTx`.
    Tx(Result<TxResponse, JsonRpcError>),
    /// The answer to `Broadcast`.
    Broadcasted(Result<BroadcastTxSyncResponse, JsonRpcError>),
    /// The answer to `QueryHeight`.
    Height(Result<u64, JsonRpcError>),
    /// The pause asked for with `Sleep` is over.
    Woke,
}

/// What an `Event` holds.
pub ghost enum EventView {
    Tx(Result<TxResponseView, JsonRpcErrorView>),
    Broadcasted(Result<BroadcastTxSyncResponseView, JsonRpcErrorView>),
    Height(Result<u64, JsonRpcErrorView>),
    Woke,
}

impl View for Event {
    type V = EventView;

    open spec fn view(&self) -> EventView {
        match self {
            Event::Tx(Ok(tx)) => EventView::Tx(Ok(tx@)),
            Event::Tx(Err(e)) => EventView::Tx(Err(e@)),
            Event::Broadcasted(Ok(r)) => EventView::Broadcasted(Ok(r@)),
            Event::Broadcasted(Err(e)) => EventView::Broadcasted(Err(e@)),
            Event::Height(Ok(h)) => EventView::Height(Ok(*h)),
            Event::Height(Err(e)) => EventView::Height(Err(e@)),
            Event::Woke => EventView::Woke,
        }
    }
}

/// A disagreement that ends a submission without a result.
#[derive(Clone, Copy, Debug, PartialEq, Eq)]
pub enum Fault {
    /// The node computed another hash for the bytes than the client did.
    HashMismatch { local: TxHash, reported: TxHash },
    /// An answer to a question that was not asked.
    UnexpectedEvent,
}

/// What a `Fault` holds.
pub ghost enum FaultView {
    HashMismatch { local: Seq<u8>, reported: Seq<u8> },
    UnexpectedEvent,
}

impl View for Fault {
    type V = FaultView;

    open spec fn view(&self) -> FaultView {
        match self {
            Fault::HashMismatch { local, reported } => FaultView::HashMismatch {
                local: local@,
                reported: reported@,
            },
            Fault::UnexpectedEvent => FaultView::UnexpectedEvent,
        }
    }
}

/// What to do next.
#[derive(Debug, PartialEq, Eq)]
pub enum Action {
    /// Ask for the transaction with the hash of this submission.
    LookupTx,
    /// Submit the raw bytes of this submission.
    Broadcast,
    /// Ask for the height of the latest block.
    QueryHeight,
    /// Wait.
    Sleep { seconds: u64 },
    /// The submission is over, with this result.
    Return(Result<TxResponse, BroadcastTxCommitError>),
    /// The submission is over, without a result.
    Abort(Fault),
}

/// What an `Action` holds.
pub ghost enum ActionView {
    LookupTx,
    Broadcast,
    QueryHeight,
    Sleep { seconds: u64 },
    Return(Result<TxResponseView, BroadcastTxCommitErrorView>),
    Abort(FaultView),
}

impl View for Action {
    type V = ActionView;

    open spec fn view(&self) -> ActionView {
        match self {
            Action::LookupTx => ActionView::LookupTx,
            Action::Broadcast => ActionView::Broadcast,
            Action::QueryHeight => ActionView::QueryHeight,
            Action::Sleep { seconds } => ActionView::Sleep { seconds: *seconds },
            Action::Return(Ok(tx)) => ActionView::Return(Ok(tx@)),
            Action::Return(Err(e)) => ActionView::Return(Err(e@)),
            Action::Abort(f) => ActionView::Abort(f@),
        }
    }
}

/// One transaction on its way into a block.
#[derive(Debug, PartialEq, Eq)]
pub struct Submission {
    tx: SignedTx,
    phase: Phase,
    attempts: usize,
    codespace: String,
    log: String,
}

/// What a `Submission` holds: the bytes and their hash, where it stands, how
/// many lookups of the accepted transaction have failed, and what the
/// mempool said when it accepted.
pub ghost struct SubmissionView {
    pub raw: Seq<u8>,
    pub tx_hash: Seq<u8>,
    pub phase: Phase,
    pub attempts: usize,
    pub codespace: Seq<char>,
    pub log: Seq<char>,
}

impl View for Submission {
    type V = SubmissionView;

    closed spec fn view(&self) -> SubmissionView {
        SubmissionView {
            raw: self.tx@.raw,
            tx_hash: self.tx@.hash,
            phase: self.phase,
            attempts: self.attempts,
            codespace: self.codespace@,
            log: self.log@,
        }
    }
}

/// Whether a phase is final.
pub open spec fn is_final(phase: Phase) -> bool {
    phase is Included || phase is Failed || phase is InclusionUnknown || phase is Aborted
}

/// Whether the mempool has accepted the bytes and the outcome is still open.
pub open spec fn is_confirming(phase: Phase) -> bool {
    phase is Baseline || phase is AwaitHeight || phase is Paused || phase is AwaitTx
}

/// Whether `event` answers what was asked in `phase`.
pub open spec fn expects(phase: Phase, event: EventView) -> bool {
    match phase {
        Phase::PreCheck | Phase::AwaitTx { .. } => event is Tx,
        Phase::Submitting => event is Broadcasted,
        Phase::Baseline | Phase::AwaitHeight { .. } => event is Height,
        Phase::Paused { .. } => event is Woke,
        _ => false,
    }
}

/// The height to wait for after a lookup at `reached` has failed.
pub open spec fn next_target(reached: u64) -> u64 {
    if reached == u64::MAX {
        reached
    } else {
        (reached + 1) as u64
    }
}

/// A submission is well formed when its count of failed lookups is within
/// what its phase allows: none before the first lookup, at most the budget
/// while the outcome is open, and one more at the very end.
pub open spec fn well_formed(m: SubmissionView) -> bool {
    &&& m.attempts <= MAX_RETRIES + 1
    &&& !is_final(m.phase) ==> m.attempts <= MAX_RETRIES
    &&& (m.phase is PreCheck || m.phase is Submitting || m.phase is Baseline) ==> m.attempts == 0
}

/// The submission of `raw` with hash `tx_hash`, before anything was asked.
pub open spec fn start_spec(raw: Seq<u8>, tx_hash: Seq<u8>) -> SubmissionView {
    SubmissionView {
        raw,
        tx_hash,
        phase: Phase::PreCheck,
        attempts: 0,
        codespace: Seq::empty(),
        log: Seq::empty(),
    }
}

/// `m` in another phase.
pub open spec fn in_phase(m: SubmissionView, phase: Phase) -> SubmissionView {
    SubmissionView { phase, ..m }
}

/// The transition function: where `m` stands after `event`, and what to do.
pub open spec fn step_spec(m: SubmissionView, event: EventView) -> (SubmissionView, ActionView) {
    match (m.phase, event) {
        (Phase::PreCheck, EventView::Tx(Ok(found))) => (
            in_phase(m, Phase::Included),
            ActionView::Return(Ok(found)),
        ),
        (Phase::PreCheck, EventView::Tx(Err(_))) => (
            in_phase(m, Phase::Submitting),
            ActionView::Broadcast,
        ),
        (Phase::Submitting, EventView::Broadcasted(Err(e))) => (
            in_phase(m, Phase::InclusionUnknown),
            ActionView::Return(Err(BroadcastTxCommitErrorView::JsonRpc(e))),
        ),
        (Phase::Submitting, EventView::Broadcasted(Ok(response))) => {
            if response.hash != m.tx_hash {
                (
                    in_phase(m, Phase::Aborted),
                    ActionView::Abort(
                        FaultView::HashMismatch { local: m.tx_hash, reported: response.hash },
                    ),
                )
            } else if response.code != 0 {
                (
                    in_phase(m, Phase::Failed),
                    ActionView::Return(
                        Err(
                            BroadcastTxCommitErrorView::TxFailed {
                                codespace: response.codespace,
                                error_code: response.code,
                                log: response.log,
                            },
                        ),
                    ),
                )
            } else {
                (
                    SubmissionView {
                        phase: Phase::Baseline,
                        codespace: response.codespace,
                        log: response.log,
                        ..m
                    },
                    ActionView::QueryHeight,
                )
            }
        },
        (Phase::Baseline, EventView::Height(Ok(height))) => (
            in_phase(m, Phase::AwaitHeight { target: height }),
            ActionView::QueryHeight,
        ),
        (Phase::AwaitHeight { target }, EventView::Height(Ok(height))) => {
            if height >= target {
                (in_phase(m, Phase::AwaitTx { reached: height }), ActionView::LookupTx)
            } else {
                (
                    in_phase(m, Phase::Paused { target }),
                    ActionView::Sleep { seconds: POLL_INTERVAL_SECS },
                )
            }
        },
        (Phase::Baseline, EventView::Height(Err(e)))
        | (Phase::AwaitHeight { .. }, EventView::Height(Err(e))) => (
            in_phase(m, Phase::InclusionUnknown),
            ActionView::Return(Err(BroadcastTxCommitErrorView::JsonRpc(e))),
        ),
        (Phase::Paused { target }, EventView::Woke) => (
            in_phase(m, Phase::AwaitHeight { target }),
            ActionView::QueryHeight,
        ),
        (Phase::AwaitTx { .. }, EventView::Tx(Ok(found))) => {
            if found.tx_result.code == 0 {
                (in_phase(m, Phase::Included), ActionView::Return(Ok(found)))
            } else {
                (
                    in_phase(m, Phase::Failed),
                    ActionView::Return(
                        Err(
                            BroadcastTxCommitErrorView::TxFailed {
                                codespace: m.codespace,
                                error_code: found.tx_result.code,
                                log: m.log,
                            },
                        ),
                    ),
                )
            }
        },
        (Phase::AwaitTx { reached }, EventView::Tx(Err(e))) => {
            if m.attempts >= MAX_RETRIES {
                (
                    SubmissionView {
                        phase: Phase::InclusionUnknown,
                        attempts: (m.attempts + 1) as usize,
                        ..m
                    },
                    ActionView::Return(
                        Err(
                            BroadcastTxCommitErrorView::Inclusion {
                                attempts: (m.attempts + 1) as usize,
                                tx_hash: m.tx_hash,
                                error: e,
                            },
                        ),
                    ),
                )
            } else {
                (
                    SubmissionView {
                        phase: Phase::AwaitHeight { target: next_target(reached) },
                        attempts: (m.attempts + 1) as usize,
                        ..m
                    },
                    ActionView::QueryHeight,
                )
            }
        },
        _ => (
            if is_final(m.phase) {
                m
            } else {
                in_phase(m, Phase::Aborted)
            },
            ActionView::Abort(FaultView::UnexpectedEvent),
        ),
    }
}

impl Submission {
    /// The count of failed lookups is within the budget, as `well_formed` says.
    #[verifier::type_invariant]
    spec fn counted(self) -> bool {
        well_formed(self@)
    }

    /// Begins the submission of `tx`. The first thing to do is to ask
    /// whether its hash is on chain already.
    pub fn start(tx: SignedTx) -> (r: (Submission, Action))
        ensures
            r.0@ == start_spec(tx@.raw, tx@.hash),
            r.0@.tx_hash == sha256(r.0@.raw),
            well_formed(r.0@),
            r.1@ == ActionView::LookupTx,
    {
        let hash = tx.hash();
        let m = Submission {
            tx,
            phase: Phase::PreCheck,
            attempts: 0,
            codespace: String::new(),
            log: String::new(),
        };
        (m, Action::LookupTx)
    }

    /// The transaction that is being submitted.
    pub fn tx(&self) -> (tx: &SignedTx)
        ensures
            tx@.raw == self@.raw,
            tx@.hash == self@.tx_hash,
    {
        &self.tx
    }

    /// Where this submission stands.
    pub fn phase(&self) -> (phase: Phase)
        ensures
            phase == self@.phase,
    {
        self.phase
    }

    /// How many lookups of the accepted transaction have failed.
    pub fn attempts(&self) -> (attempts: usize)
        ensures
            attempts == self@.attempts,
            well_formed(self@),
    {
        proof {
            use_type_invariant(self);
        }
        self.attempts
    }

    /// Whether `event` answers what this submission asked last.
    pub fn expects(&self, event: &Event) -> (b: bool)
        ensures
            b == expects(self@.phase, event@),
    {
        match self.phase {
            Phase::PreCheck | Phase::AwaitTx { .. } => match event {
                Event::Tx(_) => true,
                _ => false,
            },
            Phase::Submitting => match event {
                Event::Broadcasted(_) => true,
                _ => false,
            },
            Phase::Baseline | Phase::AwaitHeight { .. } => match event {
                Event::Height(_) => true,
                _ => false,
            },
            Phase::Paused { .. } => match event {
                Event::Woke => true,
                _ => false,
            },
            _ => false,
        }
    }

    /// Takes the transport's answer and says what to do next.
    pub fn step(self, event: Event) -> (r: (Submission, Action))
        ensures
            r.0@ == step_spec(self@, event@).0,
            r.1@ == step_spec(self@, event@).1,
            well_formed(self@),
            well_formed(r.0@),
    {
        proof {
            use_type_invariant(&self);
        }
        let Submission { tx, phase, attempts, codespace, log } = self;
        match (phase, event) {
            (Phase::PreCheck, Event::Tx(Ok(found))) => (
                Submission { tx, phase: Phase::Included, attempts, codespace, log },
                Action::Return(Ok(found)),
            ),
            (Phase::PreCheck, Event::Tx(Err(_))) => (
                Submission { tx, phase: Phase::Submitting, attempts, codespace, log },
                Action::Broadcast,
            ),
            (Phase::Submitting, Event::Broadcasted(Err(e))) => (
                Submission { tx, phase: Phase::InclusionUnknown, attempts, codespace, log },
                Action::Return(Err(BroadcastTxCommitError::JsonRpc(e))),
            ),
            (Phase::Submitting, Event::Broadcasted(Ok(response))) => {
                let local = tx.hash();
                if !response.hash.same_as(&local) {
                    (
                        Submission { tx, phase: Phase::Aborted, attempts, codespace, log },
                        Action::Abort(Fault::HashMismatch { local, reported: response.hash }),
                    )
                } else if response.code != 0 {
                    (
                        Submission { tx, phase: Phase::Failed, attempts, codespace, log },
                        Action::Return(
                            Err(
                                BroadcastTxCommitError::TxFailed {
                                    codespace: response.codespace,
                                    error_code: response.code,
                                    log: response.log,
                                },
                            ),
                        ),
                    )
                } else {
                    (
                        Submission {
                            tx,
                            phase: Phase::Baseline,
                            attempts,
                            codespace: response.codespace,
                            log: response.log,
                        },
                        Action::QueryHeight,
                    )
                }
            },
            (Phase::Baseline, Event::Height(Ok(height))) => (
                Submission {
                    tx,
                    phase: Phase::AwaitHeight { target: height },
                    attempts,
                    codespace,
                    log,
                },
                Action::QueryHeight,
            ),
            (Phase::AwaitHeight { target }, Event::Height(Ok(height))) => {
                if height >= target {
                    (
                        Submission {
                            tx,
                            phase: Phase::AwaitTx { reached: height },
                            attempts,
                            codespace,
                            log,
                        },
                        Action::LookupTx,
                    )
                } else {
                    (
                        Submission { tx, phase: Phase::Paused { target }, attempts, codespace, log },
                        Action::Sleep { seconds: POLL_INTERVAL_SECS },
                    )
                }
            },
            (Phase::Baseline, Event::Height(Err(e))) => (
                Submission { tx, phase: Phase::InclusionUnknown, attempts, codespace, log },
                Action::Return(Err(BroadcastTxCommitError::JsonRpc(e))),
            ),
            (Phase::AwaitHeight { .. }, Event::Height(Err(e))) => (
                Submission { tx, phase: Phase::InclusionUnknown, attempts, codespace, log },
                Action::Return(Err(BroadcastTxCommitError::JsonRpc(e))),
            ),
            (Phase::Paused { target }, Event::Woke) => (
                Submission { tx, phase: Phase::AwaitHeight { target }, attempts, codespace, log },
                Action::QueryHeight,
            ),
            (Phase::AwaitTx { .. }, Event::Tx(Ok(found))) => {
                if found.tx_result.code == 0 {
                    (
                        Submission { tx, phase: Phase::Included, attempts, codespace, log },
                        Action::Return(Ok(found)),
                    )
                } else {
                    let failure = BroadcastTxCommitError::TxFailed {
                        codespace: codespace.clone(),
                        error_code: found.tx_result.code,
                        log: log.clone(),
                    };
                    (
                        Submission { tx, phase: Phase::Failed, attempts, codespace, log },
                        Action::Return(Err(failure)),
                    )
                }
            },
            (Phase::AwaitTx { reached }, Event::Tx(Err(e))) => {
                if attempts >= MAX_RETRIES {
                    let tx_hash = tx.hash();
                    (
                        Submission {
                            tx,
                            phase: Phase::InclusionUnknown,
                            attempts: attempts + 1,
                            codespace,
                            log,
                        },
                        Action::Return(
                            Err(
                                BroadcastTxCommitError::Inclusion {
                                    attempts: attempts + 1,
                                    tx_hash,
                                    error: e,
                                },
                            ),
                        ),
                    )
                } else {
                    let target: u64 = if reached == u64::MAX {
                        reached
                    } else {
                        reached + 1
                    };
                    (
                        Submission {
                            tx,
                            phase: Phase::AwaitHeight { target },
                            attempts: attempts + 1,
                            codespace,
                            log,
                        },
                        Action::QueryHeight,
                    )
                }
            },
            (phase, _) => {
                let next = match phase {
                    Phase::Included | Phase::Failed | Phase::InclusionUnknown | Phase::Aborted => {
                        phase
                    },
                    _ => Phase::Aborted,
                };
                (
                    Submission { tx, phase: next, attempts, codespace, log },
                    Action::Abort(Fault::UnexpectedEvent),
                )
            },
        }
    }
}

} // verus!
