//! How a submission can fail.

use crate::envelope::{TryFromAnyError, TryFromAnyErrorView};
use crate::hash::TxHash;
use crate::rpc::{GrpcAbciQueryError, GrpcAbciQueryErrorView, JsonRpcError, JsonRpcErrorView};
use crate::wire::DecodeError;
use vstd::prelude::*;

verus! {

/// Why a transaction was not confirmed.
#[derive(Clone, Debug, PartialEq, Eq)]
pub enum BroadcastTxCommitError {
    /// The simulation endpoint answered with nothing.
    NoResponse,
    /// The transport failed.
    JsonRpc(JsonRpcError),
    /// The chain answered a query with a failure.
    Query(GrpcAbciQueryError),
    /// The account record is not of the account type.
    AccountDecode(TryFromAnyError),
    /// The mempool or the chain rejected the transaction. Never retried.
    TxFailed { codespace: String, error_code: u32, log: String },
    /// The transaction was accepted and then could not be found.
    Inclusion { attempts: usize, tx_hash: TxHash, error: JsonRpcError },
}

/// What a `BroadcastTxCommitError` holds.
pub ghost enum BroadcastTxCommitErrorView {
    NoResponse,
    JsonRpc(JsonRpcErrorView),
    Query(GrpcAbciQueryErrorView),
    AccountDecode(TryFromAnyErrorView),
    TxFailed { codespace: Seq<char>, error_code: u32, log: Seq<char> },
    Inclusion { attempts: usize, tx_hash: Seq<u8>, error: JsonRpcErrorView },
}

impl View for BroadcastTxCommitError {
    type V = BroadcastTxCommitErrorView;

    open spec fn view(&self) -> BroadcastTxCommitErrorView {
        match self {
            BroadcastTxCommitError::NoResponse => BroadcastTxCommitErrorView::NoResponse,
            BroadcastTxCommitError::JsonRpc(e) => BroadcastTxCommitErrorView::JsonRpc(e@),
            BroadcastTxCommitError::Query(e) => BroadcastTxCommitErrorView::Query(e@),
            BroadcastTxCommitError::AccountDecode(e) => BroadcastTxCommitErrorView::AccountDecode(
                e@,
            ),
            BroadcastTxCommitError::TxFailed { codespace, error_code, log } => {
                BroadcastTxCommitErrorView::TxFailed {
                    codespace: codespace@,
                    error_code: *error_code,
                    log: log@,
                }
            },
            BroadcastTxCommitError::Inclusion { attempts, tx_hash, error } => {
                BroadcastTxCommitErrorView::Inclusion {
                    attempts: *attempts,
                    tx_hash: tx_hash@,
                    error: error@,
                }
            },
        }
    }
}

impl BroadcastTxCommitError {
    /// The transport fault behind this error, where there is one.
    pub fn as_json_rpc_error(&self) -> (r: Option<&JsonRpcError>)
        ensures
            r == match self {
                BroadcastTxCommitError::JsonRpc(error) => Some(error),
                BroadcastTxCommitError::Inclusion { error, .. } => Some(error),
                _ => None,
            },
    {
        match self {
            BroadcastTxCommitError::JsonRpc(error) => Some(error),
            BroadcastTxCommitError::Inclusion { error, .. } => Some(error),
            _ => None,
        }
    }

    /// The failed query behind this error, where there is one.
    pub fn as_grpc_abci_query_error(&self) -> (r: Option<&GrpcAbciQueryError>)
        ensures
            r == match self {
                BroadcastTxCommitError::Query(error) => Some(error),
                _ => None,
            },
    {
        match self {
            BroadcastTxCommitError::Query(error) => Some(error),
            _ => None,
        }
    }
}

/// Why a submission did not give the response of its message.
#[derive(Clone, Debug, PartialEq, Eq)]
pub enum TxError {
    /// The transaction was not confirmed.
    BroadcastTxCommit(BroadcastTxCommitError),
    /// The result data is not a list of responses.
    TxMsgDataDecode(DecodeError),
    /// The response is not of the type that the message answers with.
    MsgResponseDecode(TryFromAnyError),
}

/// What a `TxError` holds.
pub ghost enum TxErrorView {
    BroadcastTxCommit(BroadcastTxCommitErrorView),
    TxMsgDataDecode(DecodeError),
    MsgResponseDecode(TryFromAnyErrorView),
}

impl View for TxError {
    type V = TxErrorView;

    open spec fn view(&self) -> TxErrorView {
        match self {
            TxError::BroadcastTxCommit(e) => TxErrorView::BroadcastTxCommit(e@),
            TxError::TxMsgDataDecode(e) => TxErrorView::TxMsgDataDecode(*e),
            TxError::MsgResponseDecode(e) => TxErrorView::MsgResponseDecode(e@),
        }
    }
}

} // verus!
