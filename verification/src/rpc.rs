//! What the transport answers, as plain values.

use crate::hash::TxHash;
use vstd::prelude::*;

verus! {

/// A fault of the transport itself: the request did not get an answer that
/// could be read. The client carries it through and never looks inside.
#[derive(Clone, Debug, PartialEq, Eq)]
pub struct JsonRpcError {
    pub message: String,
}

/// What a `JsonRpcError` holds.
pub ghost struct JsonRpcErrorView {
    pub message: Seq<char>,
}

impl View for JsonRpcError {
    type V = JsonRpcErrorView;

    open spec fn view(&self) -> JsonRpcErrorView {
        JsonRpcErrorView { message: self.message@ }
    }
}

/// A query that the chain answered with a failure: a code other than 0,
/// scoped by the module that raised it.
#[derive(Clone, Debug, PartialEq, Eq)]
pub struct GrpcAbciQueryError {
    pub error_code: u32,
    pub codespace: String,
    pub log: String,
}

/// What a `GrpcAbciQueryError` holds.
pub ghost struct GrpcAbciQueryErrorView {
    pub error_code: u32,
    pub codespace: Seq<char>,
    pub log: Seq<char>,
}

impl View for GrpcAbciQueryError {
    type V = GrpcAbciQueryErrorView;

    open spec fn view(&self) -> GrpcAbciQueryErrorView {
        GrpcAbciQueryErrorView {
            error_code: self.error_code,
            codespace: self.codespace@,
            log: self.log@,
        }
    }
}

/// The outcome of executing a transaction. Code 0 is success.
#[derive(Clone, Debug, PartialEq, Eq)]
pub struct ExecTxResult {
    pub code: u32,
    pub data: Option<Vec<u8>>,
    pub log: String,
    pub info: String,
    pub gas_wanted: i64,
    pub gas_used: i64,
    pub codespace: String,
}

/// What an `ExecTxResult` holds.
pub ghost struct ExecTxResultView {
    pub code: u32,
    pub data: Option<Seq<u8>>,
    pub log: Seq<char>,
    pub info: Seq<char>,
    pub gas_wanted: i64,
    pub gas_used: i64,
    pub codespace: Seq<char>,
}

impl View for ExecTxResult {
    type V = ExecTxResultView;

    open spec fn view(&self) -> ExecTxResultView {
        ExecTxResultView {
            code: self.code,
            data: match self.data {
                Some(d) => Some(d@),
                None => None,
            },
            log: self.log@,
            info: self.info@,
            gas_wanted: self.gas_wanted,
            gas_used: self.gas_used,
            codespace: self.codespace@,
        }
    }
}

/// A transaction as found on chain, with the block it is in.
#[derive(Clone, Debug, PartialEq, Eq)]
pub struct TxResponse {
    pub hash: TxHash,
    pub height: u64,
    pub index: u32,
    pub tx_result: ExecTxResult,
    pub tx: Vec<u8>,
}

/// What a `TxResponse` holds.
pub ghost struct TxResponseView {
    pub hash: Seq<u8>,
    pub height: u64,
    pub index: u32,
    pub tx_result: ExecTxResultView,
    pub tx: Seq<u8>,
}

impl View for TxResponse {
    type V = TxResponseView;

    open spec fn view(&self) -> TxResponseView {
        TxResponseView {
            hash: self.hash@,
            height: self.height,
            index: self.index,
            tx_result: self.tx_result@,
            tx: self.tx@,
        }
    }
}

/// The immediate answer to a submission: what the mempool made of the bytes,
/// and the hash that the node computed for them.
#[derive(Clone, Debug, PartialEq, Eq)]
pub struct BroadcastTxSyncResponse {
    pub code: u32,
    pub data: Vec<u8>,
    pub log: String,
    pub codespace: String,
    pub hash: TxHash,
}

/// What a `BroadcastTxSyncResponse` holds.
pub ghost struct BroadcastTxSyncResponseView {
    pub code: u32,
    pub data: Seq<u8>,
    pub log: Seq<char>,
    pub codespace: Seq<char>,
    pub hash: Seq<u8>,
}

impl View for BroadcastTxSyncResponse {
    type V = BroadcastTxSyncResponseView;

    open spec fn view(&self) -> BroadcastTxSyncResponseView {
        BroadcastTxSyncResponseView {
            code: self.code,
            data: self.data@,
            log: self.log@,
            codespace: self.codespace@,
            hash: self.hash@,
        }
    }
}

} // verus!
