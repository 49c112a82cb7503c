//! One submission from first to last: the account, the gas, the fee, the
//! signature, and then the way into a block.
//!
//! A `Pipeline` is told what the wallet, the gas policy and the transport
//! answered, and says what to ask next. Which account is used where, which
//! bytes are signed when, and which fee goes into the transaction are decided
//! here; the shell around it only carries questions and answers.

use crate::account::{
    account_info, account_outcome_view, account_request, account_request_bytes, new_account,
    resolve_account, Account, QueryAccountResponse, ACCOUNT_QUERY_PATH,
};
use crate::auth::{Fee, FeeView};
use crate::broadcast::{
    start_spec, step_spec, Action, ActionView, Event, EventView, Fault, FaultView, Submission,
    SubmissionView,
};
use crate::envelope::{envelope_views, Envelope, EnvelopeView};
use crate::error::{BroadcastTxCommitError, BroadcastTxCommitErrorView};
use crate::gas::{
    ceiling_gas, gas_from_simulation, simulate_outcome_view, simulate_request_bytes,
    simulated_gas, GasInfo, SimulateResponse, SIMULATE_QUERY_PATH,
};
use crate::hash::{sha256, TxHash};
use crate::rpc::{
    GrpcAbciQueryError, GrpcAbciQueryErrorView, JsonRpcError, JsonRpcErrorView, TxResponse,
    TxResponseView,
};
use crate::trace::{actions, lemma_run_last, run};
use crate::tx::{
    sign_doc_of, signed_bytes, signing_sequence, tx_bytes, tx_info, unsigned_tx, with_fee, Draft,
    Finalized, UnsignedTxView,
};
use vstd::prelude::*;
use vstd::slice::slice_to_vec;

verus! {

/// The answer to a query: a fault of the transport, a failure that the chain
/// reported, or what the chain said, if anything.
pub type Answer<T> = Result<Result<Option<T>, GrpcAbciQueryError>, JsonRpcError>;

/// What came back from outside.
#[derive(Debug, PartialEq, Eq)]
pub enum Input {
    /// The answer to the account query.
    Account(Answer<QueryAccountResponse>),
    /// The answer to the dry run.
    Simulation(Answer<SimulateResponse>),
    /// The ceiling of the gas policy.
    MaxGas(u64),
    /// The fee that the gas policy asks for the gas named in `MakeFee`.
    Fee(Fee),
    /// The wallet's signature over the bytes named in `Sign`.
    Signature(Vec<u8>),
    /// An answer on the way into a block.
    Chain(Event),
}

/// What an `Input` holds.
pub ghost enum InputView {
    Account(Result<Result<Option<Option<EnvelopeView>>, GrpcAbciQueryErrorView>, JsonRpcErrorView>),
    Simulation(Result<Result<Option<SimulateResponse>, GrpcAbciQueryErrorView>, JsonRpcErrorView>),
    MaxGas(u64),
    Fee(FeeView),
    Signature(Seq<u8>),
    Chain(EventView),
}

impl View for Input {
    type V = InputView;

    open spec fn view(&self) -> InputView {
        match self {
            Input::Account(Ok(outcome)) => InputView::Account(Ok(account_outcome_view(*outcome))),
            Input::Account(Err(e)) => InputView::Account(Err(e@)),
            Input::Simulation(Ok(outcome)) => InputView::Simulation(
                Ok(simulate_outcome_view(*outcome)),
            ),
            Input::Simulation(Err(e)) => InputView::Simulation(Err(e@)),
            Input::MaxGas(max_gas) => InputView::MaxGas(*max_gas),
            Input::Fee(fee) => InputView::Fee(fee@),
            Input::Signature(signature) => InputView::Signature(signature@),
            Input::Chain(event) => InputView::Chain(event@),
        }
    }
}

/// What to ask next, or how it ended.
#[derive(Debug, PartialEq, Eq)]
pub enum Output {
    /// Send `data` to the query at `path`, and read the answer as the answer
    /// to an account query.
    QueryAccount { path: String, data: Vec<u8> },
    /// Send `data` to the query at `path`, and read the answer as the answer
    /// to a dry run.
    QuerySimulation { path: String, data: Vec<u8> },
    /// Ask the gas policy for its ceiling.
    MaxGas,
    /// Ask the gas policy for the fee for `gas`.
    MakeFee { gas: u64 },
    /// Ask the wallet to sign `bytes`.
    Sign { bytes: Vec<u8> },
    /// Ask for the transaction with this hash.
    LookupTx { hash: TxHash },
    /// Submit these bytes.
    Broadcast { raw: Vec<u8> },
    /// Ask for the height of the latest block.
    QueryHeight,
    /// Wait.
    Sleep { seconds: u64 },
    /// The submission is over, with this result.
    Return(Result<TxResponse, BroadcastTxCommitError>),
    /// The submission is over, without a result.
    Abort(Fault),
}

/// What an `Output` holds.
pub ghost enum OutputView {
    QueryAccount { path: Seq<char>, data: Seq<u8> },
    QuerySimulation { path: Seq<char>, data: Seq<u8> },
    MaxGas,
    MakeFee { gas: u64 },
    Sign { bytes: Seq<u8> },
    LookupTx { hash: Seq<u8> },
    Broadcast { raw: Seq<u8> },
    QueryHeight,
    Sleep { seconds: u64 },
    Return(Result<TxResponseView, BroadcastTxCommitErrorView>),
    Abort(FaultView),
}

impl View for Output {
    type V = OutputView;

    open spec fn view(&self) -> OutputView {
        match self {
            Output::QueryAccount { path, data } => OutputView::QueryAccount {
                path: path@,
                data: data@,
            },
            Output::QuerySimulation { path, data } => OutputView::QuerySimulation {
                path: path@,
                data: data@,
            },
            Output::MaxGas => OutputView::MaxGas,
            Output::MakeFee { gas } => OutputView::MakeFee { gas: *gas },
            Output::Sign { bytes } => OutputView::Sign { bytes: bytes@ },
            Output::LookupTx { hash } => OutputView::LookupTx { hash: hash@ },
            Output::Broadcast { raw } => OutputView::Broadcast { raw: raw@ },
            Output::QueryHeight => OutputView::QueryHeight,
            Output::Sleep { seconds } => OutputView::Sleep { seconds: *seconds },
            Output::Return(Ok(tx)) => OutputView::Return(Ok(tx@)),
            Output::Return(Err(e)) => OutputView::Return(Err(e@)),
            Output::Abort(f) => OutputView::Abort(f@),
        }
    }
}

/// What a pipeline is waiting for, with what it has gathered so far.
///
/// `account` is the account whose number goes into the sign document of the
/// submission. `draft_account` is the one whose sequence goes into the
/// transaction: the same without a dry run, and fetched once more with one.
#[derive(Debug, PartialEq, Eq)]
pub enum Stage {
    /// The account record.
    Account { messages: Vec<Envelope>, memo: String },
    /// The account record again, for the draft of a dry run.
    DraftAccount { messages: Vec<Envelope>, memo: String, account: Account },
    /// The ceiling of the gas policy.
    MaxGas { messages: Vec<Envelope>, memo: String, account: Account, draft_account: Account },
    /// The placeholder fee: the fee for the ceiling.
    PlaceholderFee {
        messages: Vec<Envelope>,
        memo: String,
        account: Account,
        draft_account: Account,
        max_gas: u64,
    },
    /// The signature over the draft, for the dry run only.
    DraftSignature { account: Account, draft_account: Account, draft: Draft },
    /// The answer to the dry run.
    Simulation { account: Account, draft: Draft },
    /// The fee for the gas that was settled.
    Fee { account: Account, draft: Draft, gas_info: GasInfo },
    /// The signature over the finalized transaction.
    Signature { finalized: Finalized },
    /// The way into a block.
    Confirming { submission: Submission },
    /// Nothing: the pipeline is over.
    Done,
}

/// What a `Stage` holds.
pub ghost enum StageView {
    Account { messages: Seq<EnvelopeView>, memo: Seq<char> },
    DraftAccount { messages: Seq<EnvelopeView>, memo: Seq<char>, account: Account },
    MaxGas {
        messages: Seq<EnvelopeView>,
        memo: Seq<char>,
        account: Account,
        draft_account: Account,
    },
    PlaceholderFee {
        messages: Seq<EnvelopeView>,
        memo: Seq<char>,
        account: Account,
        draft_account: Account,
        max_gas: u64,
    },
    DraftSignature { account: Account, draft_account: Account, draft: UnsignedTxView },
    Simulation { account: Account, draft: UnsignedTxView },
    Fee { account: Account, draft: UnsignedTxView, gas_info: GasInfo },
    Signature { finalized: UnsignedTxView },
    Confirming { submission: SubmissionView },
    Done,
}

impl View for Stage {
    type V = StageView;

    open spec fn view(&self) -> StageView {
        match self {
            Stage::Account { messages, memo } => StageView::Account {
                messages: envelope_views(messages@),
                memo: memo@,
            },
            Stage::DraftAccount { messages, memo, account } => StageView::DraftAccount {
                messages: envelope_views(messages@),
                memo: memo@,
                account: *account,
            },
            Stage::MaxGas { messages, memo, account, draft_account } => StageView::MaxGas {
                messages: envelope_views(messages@),
                memo: memo@,
                account: *account,
                draft_account: *draft_account,
            },
            Stage::PlaceholderFee { messages, memo, account, draft_account, max_gas } => {
                StageView::PlaceholderFee {
                    messages: envelope_views(messages@),
                    memo: memo@,
                    account: *account,
                    draft_account: *draft_account,
                    max_gas: *max_gas,
                }
            },
            Stage::DraftSignature { account, draft_account, draft } => StageView::DraftSignature {
                account: *account,
                draft_account: *draft_account,
                draft: draft@,
            },
            Stage::Simulation { account, draft } => StageView::Simulation {
                account: *account,
                draft: draft@,
            },
            Stage::Fee { account, draft, gas_info } => StageView::Fee {
                account: *account,
                draft: draft@,
                gas_info: *gas_info,
            },
            Stage::Signature { finalized } => StageView::Signature { finalized: finalized@ },
            Stage::Confirming { submission } => StageView::Confirming { submission: submission@ },
            Stage::Done => StageView::Done,
        }
    }
}

/// Who signs, on which chain, and in which gas mode.
#[derive(Debug, PartialEq, Eq)]
pub struct Terms {
    pub address: String,
    pub public_key: Vec<u8>,
    pub chain_id: String,
    pub simulate: bool,
}

/// What `Terms` hold.
pub ghost struct TermsView {
    pub address: Seq<char>,
    pub public_key: Seq<u8>,
    pub chain_id: Seq<char>,
    pub simulate: bool,
}

impl View for Terms {
    type V = TermsView;

    open spec fn view(&self) -> TermsView {
        TermsView {
            address: self.address@,
            public_key: self.public_key@,
            chain_id: self.chain_id@,
            simulate: self.simulate,
        }
    }
}

/// One call of the client: its terms, and how far it has come.
#[derive(Debug, PartialEq, Eq)]
pub struct Pipeline {
    terms: Terms,
    stage: Stage,
}

/// What a `Pipeline` holds.
pub ghost struct PipelineView {
    pub terms: TermsView,
    pub stage: StageView,
}

impl View for Pipeline {
    type V = PipelineView;

    closed spec fn view(&self) -> PipelineView {
        PipelineView { terms: self.terms@, stage: self.stage@ }
    }
}

/// The question for the account of the signer.
pub open spec fn account_query(terms: TermsView) -> OutputView {
    OutputView::QueryAccount {
        path: ACCOUNT_QUERY_PATH@,
        data: account_request_bytes(terms.address),
    }
}

/// The pipeline with `terms` at `stage`, and what it asks.
pub open spec fn goes_on(terms: TermsView, stage: StageView, output: OutputView) -> (
    PipelineView,
    OutputView,
) {
    (PipelineView { terms, stage }, output)
}

/// The pipeline with `terms` ended with `error`.
pub open spec fn failed(terms: TermsView, error: BroadcastTxCommitErrorView) -> (
    PipelineView,
    OutputView,
) {
    goes_on(terms, StageView::Done, OutputView::Return(Err(error)))
}

/// The account that an answer to the account query stands for: the one of
/// the record, or a new account where the chain has none.
pub open spec fn resolved(
    answer: Result<Result<Option<Option<EnvelopeView>>, GrpcAbciQueryErrorView>, JsonRpcErrorView>,
) -> Result<Account, BroadcastTxCommitErrorView> {
    match answer {
        Err(e) => Err(BroadcastTxCommitErrorView::JsonRpc(e)),
        Ok(outcome) => match resolve_account(outcome) {
            Ok(Some(account)) => Ok(account),
            Ok(None) => Ok(new_account()),
            Err(e) => Err(e),
        },
    }
}

/// The gas that an answer to the dry run stands for.
pub open spec fn measured(
    answer: Result<Result<Option<SimulateResponse>, GrpcAbciQueryErrorView>, JsonRpcErrorView>,
) -> Result<GasInfo, BroadcastTxCommitErrorView> {
    match answer {
        Err(e) => Err(BroadcastTxCommitErrorView::JsonRpc(e)),
        Ok(outcome) => simulated_gas(outcome),
    }
}

/// What an action of the submission `m` asks of the outside.
pub open spec fn chain_output(action: ActionView, m: SubmissionView) -> OutputView {
    match action {
        ActionView::LookupTx => OutputView::LookupTx { hash: m.tx_hash },
        ActionView::Broadcast => OutputView::Broadcast { raw: m.raw },
        ActionView::QueryHeight => OutputView::QueryHeight,
        ActionView::Sleep { seconds } => OutputView::Sleep { seconds },
        ActionView::Return(result) => OutputView::Return(result),
        ActionView::Abort(fault) => OutputView::Abort(fault),
    }
}

/// The pipeline for `messages` and `memo` on `terms`, before anything was asked.
pub open spec fn begin_spec(
    messages: Seq<EnvelopeView>,
    memo: Seq<char>,
    terms: TermsView,
) -> PipelineView {
    PipelineView { terms, stage: StageView::Account { messages, memo } }
}

/// After the account: with a dry run the account is asked for once more, for
/// the draft; without one the same account serves both.
pub open spec fn after_account(
    terms: TermsView,
    messages: Seq<EnvelopeView>,
    memo: Seq<char>,
    answer: Result<Result<Option<Option<EnvelopeView>>, GrpcAbciQueryErrorView>, JsonRpcErrorView>,
) -> (PipelineView, OutputView) {
    match resolved(answer) {
        Err(e) => failed(terms, e),
        Ok(account) => if terms.simulate {
            goes_on(
                terms,
                StageView::DraftAccount { messages, memo, account },
                account_query(terms),
            )
        } else {
            goes_on(
                terms,
                StageView::MaxGas { messages, memo, account, draft_account: account },
                OutputView::MaxGas,
            )
        },
    }
}

/// After the account for the draft.
pub open spec fn after_draft_account(
    terms: TermsView,
    messages: Seq<EnvelopeView>,
    memo: Seq<char>,
    account: Account,
    answer: Result<Result<Option<Option<EnvelopeView>>, GrpcAbciQueryErrorView>, JsonRpcErrorView>,
) -> (PipelineView, OutputView) {
    match resolved(answer) {
        Err(e) => failed(terms, e),
        Ok(draft_account) => goes_on(
            terms,
            StageView::MaxGas { messages, memo, account, draft_account },
            OutputView::MaxGas,
        ),
    }
}

/// After the placeholder fee the transaction is drafted, with the sequence
/// of the draft account. With a dry run the draft is signed next; without
/// one the gas is the ceiling, and the fee for it is asked for.
pub open spec fn after_placeholder_fee(
    terms: TermsView,
    messages: Seq<EnvelopeView>,
    memo: Seq<char>,
    account: Account,
    draft_account: Account,
    max_gas: u64,
    fee: FeeView,
) -> (PipelineView, OutputView) {
    let draft = unsigned_tx(messages, memo, draft_account, terms.public_key, fee);
    if terms.simulate {
        goes_on(
            terms,
            StageView::DraftSignature { account, draft_account, draft },
            OutputView::Sign {
                bytes: sign_doc_of(draft, terms.chain_id, draft_account.account_number),
            },
        )
    } else {
        goes_on(
            terms,
            StageView::Fee { account, draft, gas_info: ceiling_gas(max_gas) },
            OutputView::MakeFee { gas: ceiling_gas(max_gas).gas_used },
        )
    }
}

/// After the signature over the draft: the dry run.
pub open spec fn after_draft_signature(
    terms: TermsView,
    account: Account,
    draft: UnsignedTxView,
    signature: Seq<u8>,
) -> (PipelineView, OutputView) {
    goes_on(
        terms,
        StageView::Simulation { account, draft },
        OutputView::QuerySimulation {
            path: SIMULATE_QUERY_PATH@,
            data: simulate_request_bytes(tx_bytes(draft, seq![signature])),
        },
    )
}

/// After the dry run: the fee for the gas that it used.
pub open spec fn after_simulation(
    terms: TermsView,
    account: Account,
    draft: UnsignedTxView,
    answer: Result<Result<Option<SimulateResponse>, GrpcAbciQueryErrorView>, JsonRpcErrorView>,
) -> (PipelineView, OutputView) {
    match measured(answer) {
        Err(e) => failed(terms, e),
        Ok(gas_info) => goes_on(
            terms,
            StageView::Fee { account, draft, gas_info },
            OutputView::MakeFee { gas: gas_info.gas_used },
        ),
    }
}

/// After the fee: the transaction with that fee is signed, over a sign
/// document of its own, with the number of the account.
pub open spec fn after_fee(
    terms: TermsView,
    account: Account,
    draft: UnsignedTxView,
    fee: FeeView,
) -> (PipelineView, OutputView) {
    goes_on(
        terms,
        StageView::Signature { finalized: with_fee(draft, fee) },
        OutputView::Sign {
            bytes: sign_doc_of(with_fee(draft, fee), terms.chain_id, account.account_number),
        },
    )
}

/// After the signature: the raw bytes are put together and hashed, and the
/// chain is asked whether it has that hash already.
pub open spec fn after_signature(
    terms: TermsView,
    finalized: UnsignedTxView,
    signature: Seq<u8>,
) -> (PipelineView, OutputView) {
    let raw = signed_bytes(finalized, signature);
    let submission = start_spec(raw, sha256(raw));
    goes_on(
        terms,
        StageView::Confirming { submission },
        OutputView::LookupTx { hash: submission.tx_hash },
    )
}

/// On the way into a block the submission decides.
pub open spec fn after_chain(terms: TermsView, submission: SubmissionView, event: EventView) -> (
    PipelineView,
    OutputView,
) {
    let (next, action) = step_spec(submission, event);
    goes_on(terms, StageView::Confirming { submission: next }, chain_output(action, next))
}

/// The transition function: where `p` stands after `input`, and what to ask.
/// An answer to a question that was not asked ends the pipeline.
pub open spec fn advance_spec(p: PipelineView, input: InputView) -> (PipelineView, OutputView) {
    match (p.stage, input) {
        (StageView::Account { messages, memo }, InputView::Account(answer)) => after_account(
            p.terms,
            messages,
            memo,
            answer,
        ),
        (
            StageView::DraftAccount { messages, memo, account },
            InputView::Account(answer),
        ) => after_draft_account(p.terms, messages, memo, account, answer),
        (
            StageView::MaxGas { messages, memo, account, draft_account },
            InputView::MaxGas(max_gas),
        ) => goes_on(
            p.terms,
            StageView::PlaceholderFee { messages, memo, account, draft_account, max_gas },
            OutputView::MakeFee { gas: max_gas },
        ),
        (
            StageView::PlaceholderFee { messages, memo, account, draft_account, max_gas },
            InputView::Fee(fee),
        ) => after_placeholder_fee(p.terms, messages, memo, account, draft_account, max_gas, fee),
        (
            StageView::DraftSignature { account, draft_account, draft },
            InputView::Signature(signature),
        ) => after_draft_signature(p.terms, account, draft, signature),
        (StageView::Simulation { account, draft }, InputView::Simulation(answer)) => {
            after_simulation(p.terms, account, draft, answer)
        },
        (StageView::Fee { account, draft, gas_info }, InputView::Fee(fee)) => after_fee(
            p.terms,
            account,
            draft,
            fee,
        ),
        (StageView::Signature { finalized }, InputView::Signature(signature)) => after_signature(
            p.terms,
            finalized,
            signature,
        ),
        (StageView::Confirming { submission }, InputView::Chain(event)) => after_chain(
            p.terms,
            submission,
            event,
        ),
        _ => goes_on(p.terms, StageView::Done, OutputView::Abort(FaultView::UnexpectedEvent)),
    }
}

/// Without a dry run, from the first question to the signature.
///
/// The account that the chain reports for this call is the one that is used,
/// for the sequence in the transaction and for the number in the sign
/// document; nothing is carried over from another call. The gas is the
/// ceiling, both as asked for and as used. The fee that the policy gives for
/// it replaces the placeholder, and what is signed is the sign document of
/// the transaction with that fee.
pub proof fn lemma_direct_mode(
    terms: TermsView,
    messages: Seq<EnvelopeView>,
    memo: Seq<char>,
    answer: Result<Result<Option<Option<EnvelopeView>>, GrpcAbciQueryErrorView>, JsonRpcErrorView>,
    max_gas: u64,
    placeholder: FeeView,
    fee: FeeView,
)
    requires
        !terms.simulate,
        resolved(answer) is Ok,
    ensures
        ({
            let account = resolved(answer)->Ok_0;
            let p0 = begin_spec(messages, memo, terms);
            let (p1, o1) = advance_spec(p0, InputView::Account(answer));
            let (p2, o2) = advance_spec(p1, InputView::MaxGas(max_gas));
            let (p3, o3) = advance_spec(p2, InputView::Fee(placeholder));
            let (p4, o4) = advance_spec(p3, InputView::Fee(fee));
            let finalized = unsigned_tx(messages, memo, account, terms.public_key, fee);
            &&& o1 == OutputView::MaxGas
            &&& o2 == OutputView::MakeFee { gas: max_gas }
            &&& p3.stage == StageView::Fee {
                account,
                draft: unsigned_tx(messages, memo, account, terms.public_key, placeholder),
                gas_info: ceiling_gas(max_gas),
            }
            &&& o3 == OutputView::MakeFee { gas: max_gas }
            &&& p4.stage == StageView::Signature { finalized }
            &&& o4 == OutputView::Sign {
                bytes: sign_doc_of(finalized, terms.chain_id, account.account_number),
            }
            &&& signing_sequence(finalized) == account.sequence
        }),
{
}

/// With a dry run, from the first question to the signature.
///
/// The account is asked for twice. The second answer gives the sequence of
/// the transaction and the number in the sign document of the dry run; the
/// first gives the number in the sign document of the submission. The gas is
/// what the chain measured, and the fee is asked for the gas that was used.
/// The signature over the draft goes into the request for the dry run and
/// nowhere else: what is signed for submission is the sign document of the
/// transaction with the real fee.
pub proof fn lemma_simulate_mode(
    terms: TermsView,
    messages: Seq<EnvelopeView>,
    memo: Seq<char>,
    first: Result<Result<Option<Option<EnvelopeView>>, GrpcAbciQueryErrorView>, JsonRpcErrorView>,
    second: Result<Result<Option<Option<EnvelopeView>>, GrpcAbciQueryErrorView>, JsonRpcErrorView>,
    max_gas: u64,
    placeholder: FeeView,
    dry_run_signature: Seq<u8>,
    measurement: Result<
        Result<Option<SimulateResponse>, GrpcAbciQueryErrorView>,
        JsonRpcErrorView,
    >,
    fee: FeeView,
)
    requires
        terms.simulate,
        resolved(first) is Ok,
        resolved(second) is Ok,
        measured(measurement) is Ok,
    ensures
        ({
            let account = resolved(first)->Ok_0;
            let draft_account = resolved(second)->Ok_0;
            let gas_info = measured(measurement)->Ok_0;
            let p0 = begin_spec(messages, memo, terms);
            let (p1, o1) = advance_spec(p0, InputView::Account(first));
            let (p2, o2) = advance_spec(p1, InputView::Account(second));
            let (p3, o3) = advance_spec(p2, InputView::MaxGas(max_gas));
            let (p4, o4) = advance_spec(p3, InputView::Fee(placeholder));
            let (p5, o5) = advance_spec(p4, InputView::Signature(dry_run_signature));
            let (p6, o6) = advance_spec(p5, InputView::Simulation(measurement));
            let (p7, o7) = advance_spec(p6, InputView::Fee(fee));
            let draft = unsigned_tx(messages, memo, draft_account, terms.public_key, placeholder);
            let finalized = unsigned_tx(messages, memo, draft_account, terms.public_key, fee);
            &&& o1 == account_query(terms)
            &&& o2 == OutputView::MaxGas
            &&& o3 == OutputView::MakeFee { gas: max_gas }
            &&& o4 == OutputView::Sign {
                bytes: sign_doc_of(draft, terms.chain_id, draft_account.account_number),
            }
            &&& o5 == OutputView::QuerySimulation {
                path: SIMULATE_QUERY_PATH@,
                data: simulate_request_bytes(tx_bytes(draft, seq![dry_run_signature])),
            }
            &&& p6.stage == StageView::Fee { account, draft, gas_info }
            &&& o6 == OutputView::MakeFee { gas: gas_info.gas_used }
            &&& p7.stage == StageView::Signature { finalized }
            &&& o7 == OutputView::Sign {
                bytes: sign_doc_of(finalized, terms.chain_id, account.account_number),
            }
            &&& signing_sequence(finalized) == draft_account.sequence
        }),
{
}

/// The bytes that are submitted are the finalized transaction with the
/// signature that was given for it, and the hash that is looked up, and later
/// held against the node's, is the SHA-256 of those bytes.
pub proof fn lemma_signature_is_assembled(
    terms: TermsView,
    finalized: UnsignedTxView,
    signature: Seq<u8>,
    miss: JsonRpcErrorView,
)
    ensures
        ({
            let raw = signed_bytes(finalized, signature);
            let p = PipelineView { terms, stage: StageView::Signature { finalized } };
            let (p1, o1) = advance_spec(p, InputView::Signature(signature));
            let (p2, o2) = advance_spec(p1, InputView::Chain(EventView::Tx(Err(miss))));
            &&& o1 == OutputView::LookupTx { hash: sha256(raw) }
            &&& p1.stage == StageView::Confirming { submission: start_spec(raw, sha256(raw)) }
            &&& o2 == OutputView::Broadcast { raw }
        }),
{
}

/// Where `p` stands after the answers `inputs`, taken in order.
pub open spec fn advance_all(p: PipelineView, inputs: Seq<InputView>) -> PipelineView
    decreases inputs.len(),
{
    if inputs.len() == 0 {
        p
    } else {
        advance_all(advance_spec(p, inputs[0]).0, inputs.drop_first())
    }
}

/// The answers `events` as they reach a pipeline.
pub open spec fn chain_inputs(events: Seq<EventView>) -> Seq<InputView> {
    Seq::new(events.len(), |i: int| InputView::Chain(events[i]))
}

/// On the way into a block a pipeline is its submission: it stands where
/// the submission stands after the same answers, and asks what the
/// submission says to do. So what holds of every run of a submission holds
/// of the last stage of every pipeline.
pub proof fn lemma_confirming_is_the_submission(
    terms: TermsView,
    m: SubmissionView,
    events: Seq<EventView>,
)
    ensures
        advance_all(
            PipelineView { terms, stage: StageView::Confirming { submission: m } },
            chain_inputs(events),
        ) == (PipelineView { terms, stage: StageView::Confirming { submission: run(m, events) } }),
        events.len() > 0 ==> advance_spec(
            PipelineView {
                terms,
                stage: StageView::Confirming { submission: run(m, events.drop_last()) },
            },
            InputView::Chain(events.last()),
        ).1 == chain_output(actions(m, events).last(), run(m, events)),
    decreases events.len(),
{
    if events.len() > 0 {
        let inputs = chain_inputs(events);
        assert(inputs.drop_first() =~= chain_inputs(events.drop_first()));
        lemma_confirming_is_the_submission(terms, step_spec(m, events[0]).0, events.drop_first());
        lemma_run_last(m, events);
    }
}

/// Turns an answer to the account query into the account to go on with.
fn resolve(answer: Answer<QueryAccountResponse>) -> (r: Result<Account, BroadcastTxCommitError>)
    ensures
        match resolved(Input::Account(answer)@->Account_0) {
            Ok(account) => r == Ok::<Account, BroadcastTxCommitError>(account),
            Err(e) => r is Err && r.unwrap_err()@ == e,
        },
{
    match answer {
        Err(e) => Err(BroadcastTxCommitError::JsonRpc(e)),
        Ok(outcome) => match account_info(outcome) {
            Ok(Some(account)) => Ok(account),
            Ok(None) => Ok(Account::default()),
            Err(e) => Err(e),
        },
    }
}

/// Turns an answer to the dry run into the gas to go on with.
fn measure(answer: Answer<SimulateResponse>) -> (r: Result<GasInfo, BroadcastTxCommitError>)
    ensures
        match measured(Input::Simulation(answer)@->Simulation_0) {
            Ok(gas_info) => r == Ok::<GasInfo, BroadcastTxCommitError>(gas_info),
            Err(e) => r is Err && r.unwrap_err()@ == e,
        },
{
    match answer {
        Err(e) => Err(BroadcastTxCommitError::JsonRpc(e)),
        Ok(outcome) => gas_from_simulation(outcome),
    }
}

/// Says what an action of `submission` asks of the outside.
fn ask(action: Action, submission: &Submission) -> (output: Output)
    ensures
        output@ == chain_output(action@, submission@),
{
    match action {
        Action::LookupTx => Output::LookupTx { hash: submission.tx().hash() },
        Action::Broadcast => Output::Broadcast {
            raw: slice_to_vec(submission.tx().raw().as_slice()),
        },
        Action::QueryHeight => Output::QueryHeight,
        Action::Sleep { seconds } => Output::Sleep { seconds },
        Action::Return(result) => Output::Return(result),
        Action::Abort(fault) => Output::Abort(fault),
    }
}

/// The question for the account of the signer.
fn ask_account(terms: &Terms) -> (output: Output)
    ensures
        output@ == account_query(terms@),
{
    let data = account_request(terms.address.as_str());
    Output::QueryAccount { path: ACCOUNT_QUERY_PATH.to_owned(), data }
}

fn on_account(terms: Terms, messages: Vec<Envelope>, memo: String, answer: Answer<
    QueryAccountResponse,
>) -> (r: (Pipeline, Output))
    ensures
        (r.0@, r.1@) == after_account(
            terms@,
            envelope_views(messages@),
            memo@,
            Input::Account(answer)@->Account_0,
        ),
{
    match resolve(answer) {
        Err(e) => (Pipeline { terms, stage: Stage::Done }, Output::Return(Err(e))),
        Ok(account) => {
            if terms.simulate {
                let output = ask_account(&terms);
                (Pipeline { terms, stage: Stage::DraftAccount { messages, memo, account } }, output)
            } else {
                (
                    Pipeline {
                        terms,
                        stage: Stage::MaxGas { messages, memo, account, draft_account: account },
                    },
                    Output::MaxGas,
                )
            }
        },
    }
}

fn on_draft_account(
    terms: Terms,
    messages: Vec<Envelope>,
    memo: String,
    account: Account,
    answer: Answer<QueryAccountResponse>,
) -> (r: (Pipeline, Output))
    ensures
        (r.0@, r.1@) == after_draft_account(
            terms@,
            envelope_views(messages@),
            memo@,
            account,
            Input::Account(answer)@->Account_0,
        ),
{
    match resolve(answer) {
        Err(e) => (Pipeline { terms, stage: Stage::Done }, Output::Return(Err(e))),
        Ok(draft_account) => (
            Pipeline { terms, stage: Stage::MaxGas { messages, memo, account, draft_account } },
            Output::MaxGas,
        ),
    }
}

fn on_placeholder_fee(
    terms: Terms,
    messages: Vec<Envelope>,
    memo: String,
    account: Account,
    draft_account: Account,
    max_gas: u64,
    fee: Fee,
) -> (r: (Pipeline, Output))
    ensures
        (r.0@, r.1@) == after_placeholder_fee(
            terms@,
            envelope_views(messages@),
            memo@,
            account,
            draft_account,
            max_gas,
            fee@,
        ),
{
    let draft = tx_info(
        messages,
        memo.as_str(),
        &draft_account,
        terms.public_key.as_slice(),
        fee,
    );
    if terms.simulate {
        let bytes = draft.sign_doc(terms.chain_id.as_str(), draft_account.account_number);
        (
            Pipeline { terms, stage: Stage::DraftSignature { account, draft_account, draft } },
            Output::Sign { bytes },
        )
    } else {
        let gas_info = GasInfo::ceiling(max_gas);
        (
            Pipeline { terms, stage: Stage::Fee { account, draft, gas_info } },
            Output::MakeFee { gas: gas_info.gas_used },
        )
    }
}

fn on_draft_signature(terms: Terms, account: Account, draft: Draft, signature: Vec<u8>) -> (r: (
    Pipeline,
    Output,
))
    ensures
        (r.0@, r.1@) == after_draft_signature(terms@, account, draft@, signature@),
{
    let data = draft.simulate_request(signature.as_slice());
    (
        Pipeline { terms, stage: Stage::Simulation { account, draft } },
        Output::QuerySimulation { path: SIMULATE_QUERY_PATH.to_owned(), data },
    )
}

fn on_simulation(terms: Terms, account: Account, draft: Draft, answer: Answer<SimulateResponse>) -> (r:
    (Pipeline, Output))
    ensures
        (r.0@, r.1@) == after_simulation(
            terms@,
            account,
            draft@,
            Input::Simulation(answer)@->Simulation_0,
        ),
{
    match measure(answer) {
        Err(e) => (Pipeline { terms, stage: Stage::Done }, Output::Return(Err(e))),
        Ok(gas_info) => (
            Pipeline { terms, stage: Stage::Fee { account, draft, gas_info } },
            Output::MakeFee { gas: gas_info.gas_used },
        ),
    }
}

fn on_fee(terms: Terms, account: Account, draft: Draft, fee: Fee) -> (r: (Pipeline, Output))
    ensures
        (r.0@, r.1@) == after_fee(terms@, account, draft@, fee@),
{
    let finalized = draft.finalize(fee);
    let bytes = finalized.sign_doc(terms.chain_id.as_str(), account.account_number);
    (Pipeline { terms, stage: Stage::Signature { finalized } }, Output::Sign { bytes })
}

fn on_signature(terms: Terms, finalized: Finalized, signature: Vec<u8>) -> (r: (Pipeline, Output))
    ensures
        (r.0@, r.1@) == after_signature(terms@, finalized@, signature@),
{
    let signed = finalized.assemble(signature.as_slice());
    let (submission, action) = Submission::start(signed);
    let output = ask(action, &submission);
    (Pipeline { terms, stage: Stage::Confirming { submission } }, output)
}

fn on_chain(terms: Terms, submission: Submission, event: Event) -> (r: (Pipeline, Output))
    ensures
        (r.0@, r.1@) == after_chain(terms@, submission@, event@),
{
    let (next, action) = submission.step(event);
    let output = ask(action, &next);
    (Pipeline { terms, stage: Stage::Confirming { submission: next } }, output)
}

impl Pipeline {
    /// Begins a submission of `messages` with `memo` on `terms`. The first
    /// thing to ask for is the signer's account.
    pub fn begin(messages: Vec<Envelope>, memo: &str, terms: Terms) -> (r: (Pipeline, Output))
        ensures
            r.0@ == begin_spec(envelope_views(messages@), memo@, terms@),
            r.1@ == account_query(terms@),
    {
        let output = ask_account(&terms);
        (Pipeline { terms, stage: Stage::Account { messages, memo: memo.to_owned() } }, output)
    }

    /// The terms of this submission.
    pub fn terms(&self) -> (terms: &Terms)
        ensures
            terms@ == self@.terms,
    {
        &self.terms
    }

    /// What this pipeline is waiting for.
    pub fn stage(&self) -> (stage: &Stage)
        ensures
            stage@ == self@.stage,
    {
        &self.stage
    }

    /// Takes an answer and says what to ask next.
    pub fn advance(self, input: Input) -> (r: (Pipeline, Output))
        ensures
            r.0@ == advance_spec(self@, input@).0,
            r.1@ == advance_spec(self@, input@).1,
    {
        let Pipeline { terms, stage } = self;
        match (stage, input) {
            (Stage::Account { messages, memo }, Input::Account(answer)) => on_account(
                terms,
                messages,
                memo,
                answer,
            ),
            (
                Stage::DraftAccount { messages, memo, account },
                Input::Account(answer),
            ) => on_draft_account(terms, messages, memo, account, answer),
            (
                Stage::MaxGas { messages, memo, account, draft_account },
                Input::MaxGas(max_gas),
            ) => (
                Pipeline {
                    terms,
                    stage: Stage::PlaceholderFee {
                        messages,
                        memo,
                        account,
                        draft_account,
                        max_gas,
                    },
                },
                Output::MakeFee { gas: max_gas },
            ),
            (
                Stage::PlaceholderFee { messages, memo, account, draft_account, max_gas },
                Input::Fee(fee),
            ) => on_placeholder_fee(terms, messages, memo, account, draft_account, max_gas, fee),
            (
                Stage::DraftSignature { account, draft_account, draft },
                Input::Signature(signature),
            ) => on_draft_signature(terms, account, draft, signature),
            (Stage::Simulation { account, draft }, Input::Simulation(answer)) => on_simulation(
                terms,
                account,
                draft,
                answer,
            ),
            (Stage::Fee { account, draft, gas_info }, Input::Fee(fee)) => on_fee(
                terms,
                account,
                draft,
                fee,
            ),
            (Stage::Signature { finalized }, Input::Signature(signature)) => on_signature(
                terms,
                finalized,
                signature,
            ),
            (Stage::Confirming { submission }, Input::Chain(event)) => on_chain(
                terms,
                submission,
                event,
            ),
            _ => (Pipeline { terms, stage: Stage::Done }, Output::Abort(Fault::UnexpectedEvent)),
        }
    }
}

} // verus!
