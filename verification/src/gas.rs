//! How much gas a transaction gets: measured by a dry run, or the ceiling of
//! the gas policy.

use crate::error::{BroadcastTxCommitError, BroadcastTxCommitErrorView};
use crate::rpc::{GrpcAbciQueryError, GrpcAbciQueryErrorView};
use crate::wire::{
    field_views, parse_fields, put_scalar_bytes, read_fields, scalar_bytes_field, DecodeError,
    Field, RawValue, Value,
};
use vstd::prelude::*;

verus! {

/// Gas asked for and gas used.
#[derive(Clone, Copy, Debug, PartialEq, Eq)]
pub struct GasInfo {
    pub gas_wanted: u64,
    pub gas_used: u64,
}

/// The query path of the dry run.
pub const SIMULATE_QUERY_PATH: &'static str = "/cosmos.tx.v1beta1.Service/Simulate";

/// The gas info of an answer that carries none.
pub open spec fn no_gas() -> GasInfo {
    GasInfo { gas_wanted: 0, gas_used: 0 }
}

impl Default for GasInfo {
    fn default() -> (g: GasInfo)
        ensures
            g == no_gas(),
    {
        GasInfo { gas_wanted: 0, gas_used: 0 }
    }
}

/// The gas info of a submission that is not simulated: the ceiling, both as
/// what is asked for and as what counts as used.
pub open spec fn ceiling_gas(max_gas: u64) -> GasInfo {
    GasInfo { gas_wanted: max_gas, gas_used: max_gas }
}

/// Whether the gas asked for covers the gas used.
pub open spec fn gas_covers_use(g: GasInfo) -> bool {
    g.gas_wanted >= g.gas_used
}

/// The request for a dry run of the transaction `tx`, as a message.
pub open spec fn simulate_request_bytes(tx: Seq<u8>) -> Seq<u8> {
    scalar_bytes_field(2, tx)
}

/// The gas info `acc` after one more field of its message.
pub open spec fn gas_info_apply(acc: GasInfo, f: Field) -> Result<GasInfo, DecodeError> {
    if f.number == 1 {
        match f.value {
            Value::Varint(v) => Ok(GasInfo { gas_wanted: v, gas_used: acc.gas_used }),
            _ => Err(DecodeError::UnexpectedWireType),
        }
    } else if f.number == 2 {
        match f.value {
            Value::Varint(v) => Ok(GasInfo { gas_wanted: acc.gas_wanted, gas_used: v }),
            _ => Err(DecodeError::UnexpectedWireType),
        }
    } else {
        Ok(acc)
    }
}

/// The gas info `acc` after the fields `fs`, taken in order.
pub open spec fn gas_info_fold(acc: GasInfo, fs: Seq<Field>) -> Result<GasInfo, DecodeError>
    decreases fs.len(),
{
    if fs.len() == 0 {
        Ok(acc)
    } else {
        match gas_info_apply(acc, fs[0]) {
            Ok(next) => gas_info_fold(next, fs.drop_first()),
            Err(e) => Err(e),
        }
    }
}

/// The gas info `acc` with the message `s` merged into it.
pub open spec fn merge_gas_info(acc: GasInfo, s: Seq<u8>) -> Result<GasInfo, DecodeError> {
    match parse_fields(s) {
        Ok(fs) => gas_info_fold(acc, fs),
        Err(e) => Err(e),
    }
}

/// The answer to a dry run: the gas info, if the answer carries one.
#[derive(Clone, Copy, Debug, PartialEq, Eq)]
pub struct SimulateResponse {
    pub gas_info: Option<GasInfo>,
}

/// The answer `acc` after one more field. Field 1 is the gas info, a second
/// one merged into the first. Field 2, the result of the dry run, must be a
/// message and is otherwise passed over.
pub open spec fn simulate_response_apply(acc: SimulateResponse, f: Field) -> Result<
    SimulateResponse,
    DecodeError,
> {
    if f.number == 1 {
        match f.value {
            Value::Bytes(b) => match merge_gas_info(
                match acc.gas_info {
                    Some(g) => g,
                    None => no_gas(),
                },
                b,
            ) {
                Ok(g) => Ok(SimulateResponse { gas_info: Some(g) }),
                Err(e) => Err(e),
            },
            _ => Err(DecodeError::UnexpectedWireType),
        }
    } else if f.number == 2 {
        match f.value {
            Value::Bytes(_) => Ok(acc),
            _ => Err(DecodeError::UnexpectedWireType),
        }
    } else {
        Ok(acc)
    }
}

/// The answer `acc` after the fields `fs`, taken in order.
pub open spec fn simulate_response_fold(acc: SimulateResponse, fs: Seq<Field>) -> Result<
    SimulateResponse,
    DecodeError,
>
    decreases fs.len(),
{
    if fs.len() == 0 {
        Ok(acc)
    } else {
        match simulate_response_apply(acc, fs[0]) {
            Ok(next) => simulate_response_fold(next, fs.drop_first()),
            Err(e) => Err(e),
        }
    }
}

/// The answer to a dry run that the message `s` is.
pub open spec fn parse_simulate_response(s: Seq<u8>) -> Result<SimulateResponse, DecodeError> {
    match parse_fields(s) {
        Ok(fs) => simulate_response_fold(SimulateResponse { gas_info: None }, fs),
        Err(e) => Err(e),
    }
}

/// What the outcome of a dry run means: a failed query is passed on, no
/// answer is an error of its own, and an answer gives its gas info, or none
/// of either kind where it carries none.
pub open spec fn simulated_gas(
    outcome: Result<Option<SimulateResponse>, GrpcAbciQueryErrorView>,
) -> Result<GasInfo, BroadcastTxCommitErrorView> {
    match outcome {
        Err(e) => Err(BroadcastTxCommitErrorView::Query(e)),
        Ok(None) => Err(BroadcastTxCommitErrorView::NoResponse),
        Ok(Some(response)) => Ok(
            match response.gas_info {
                Some(g) => g,
                None => no_gas(),
            },
        ),
    }
}

/// What the outcome of a dry run holds.
pub open spec fn simulate_outcome_view(
    outcome: Result<Option<SimulateResponse>, GrpcAbciQueryError>,
) -> Result<Option<SimulateResponse>, GrpcAbciQueryErrorView> {
    match outcome {
        Ok(r) => Ok(r),
        Err(e) => Err(e@),
    }
}

/// Both ways of settling the gas give a gas info, and what is asked for
/// covers what is used in the one as far as it does in the other: without a
/// dry run the two are the ceiling, hence equal; with one they are what the
/// chain answered, so they need not be equal, and cover exactly when the
/// answer's do.
pub proof fn lemma_gas_modes(
    max_gas: u64,
    outcome: Result<Option<SimulateResponse>, GrpcAbciQueryErrorView>,
)
    ensures
        gas_covers_use(ceiling_gas(max_gas)),
        ceiling_gas(max_gas).gas_wanted == ceiling_gas(max_gas).gas_used,
        outcome matches Ok(Some(response)) ==> simulated_gas(outcome) is Ok && (gas_covers_use(
            simulated_gas(outcome)->Ok_0,
        ) <==> (response.gas_info matches Some(g) ==> gas_covers_use(g))),
        !(outcome matches Ok(Some(_))) ==> simulated_gas(outcome) is Err,
{
}

impl GasInfo {
    /// The gas info of a submission that is not simulated.
    pub fn ceiling(max_gas: u64) -> (g: GasInfo)
        ensures
            g == ceiling_gas(max_gas),
    {
        GasInfo { gas_wanted: max_gas, gas_used: max_gas }
    }

    /// Whether the gas asked for covers the gas used.
    pub fn covers_use(&self) -> (b: bool)
        ensures
            b == gas_covers_use(*self),
    {
        self.gas_wanted >= self.gas_used
    }

    /// Merges the message `bytes` into this gas info.
    pub fn merge(self, bytes: &[u8]) -> (r: Result<GasInfo, DecodeError>)
        ensures
            r == merge_gas_info(self, bytes@),
    {
        let fields = match read_fields(bytes) {
            Ok(fields) => fields,
            Err(e) => {
                return Err(e);
            },
        };
        let ghost all = field_views(fields@);
        let mut acc = self;
        let mut i: usize = 0;
        proof {
            assert(all.skip(0) =~= all);
        }
        while i < fields.len()
            invariant
                i <= fields@.len(),
                all == field_views(fields@),
                merge_gas_info(self, bytes@) == gas_info_fold(acc, all.skip(i as int)),
            decreases fields@.len() - i,
        {
            let f = &fields[i];
            proof {
                let rest = all.skip(i as int);
                assert(rest[0] == f@);
                assert(rest.drop_first() =~= all.skip(i + 1));
            }
            if f.number == 1 {
                match &f.value {
                    RawValue::Varint(v) => {
                        acc = GasInfo { gas_wanted: *v, gas_used: acc.gas_used };
                    },
                    _ => {
                        return Err(DecodeError::UnexpectedWireType);
                    },
                }
            } else if f.number == 2 {
                match &f.value {
                    RawValue::Varint(v) => {
                        acc = GasInfo { gas_wanted: acc.gas_wanted, gas_used: *v };
                    },
                    _ => {
                        return Err(DecodeError::UnexpectedWireType);
                    },
                }
            }
            i = i + 1;
        }
        Ok(acc)
    }
}

impl SimulateResponse {
    /// Reads the answer to a dry run.
    pub fn decode(bytes: &[u8]) -> (r: Result<SimulateResponse, DecodeError>)
        ensures
            r == parse_simulate_response(bytes@),
    {
        let fields = match read_fields(bytes) {
            Ok(fields) => fields,
            Err(e) => {
                return Err(e);
            },
        };
        let ghost all = field_views(fields@);
        let mut acc = SimulateResponse { gas_info: None };
        let mut i: usize = 0;
        proof {
            assert(all.skip(0) =~= all);
        }
        while i < fields.len()
            invariant
                i <= fields@.len(),
                all == field_views(fields@),
                parse_simulate_response(bytes@) == simulate_response_fold(
                    acc,
                    all.skip(i as int),
                ),
            decreases fields@.len() - i,
        {
            let f = &fields[i];
            proof {
                let rest = all.skip(i as int);
                assert(rest[0] == f@);
                assert(rest.drop_first() =~= all.skip(i + 1));
            }
            if f.number == 1 {
                match &f.value {
                    RawValue::Bytes(b) => {
                        let current = match acc.gas_info {
                            Some(g) => g,
                            None => GasInfo { gas_wanted: 0, gas_used: 0 },
                        };
                        match current.merge(b.as_slice()) {
                            Ok(g) => {
                                acc = SimulateResponse { gas_info: Some(g) };
                            },
                            Err(e) => {
                                return Err(e);
                            },
                        }
                    },
                    _ => {
                        return Err(DecodeError::UnexpectedWireType);
                    },
                }
            } else if f.number == 2 {
                match &f.value {
                    RawValue::Bytes(_) => {},
                    _ => {
                        return Err(DecodeError::UnexpectedWireType);
                    },
                }
            }
            i = i + 1;
        }
        Ok(acc)
    }
}

/// The request for a dry run of the transaction `tx`, as a message.
pub fn simulate_request(tx: &[u8]) -> (bytes: Vec<u8>)
    ensures
        bytes@ == simulate_request_bytes(tx@),
{
    let mut buf: Vec<u8> = Vec::new();
    put_scalar_bytes(&mut buf, 2, tx);
    assert(buf@ =~= simulate_request_bytes(tx@));
    buf
}

/// Turns the outcome of a dry run into the gas info of the transaction.
pub fn gas_from_simulation(outcome: Result<Option<SimulateResponse>, GrpcAbciQueryError>) -> (r:
    Result<GasInfo, BroadcastTxCommitError>)
    ensures
        match simulated_gas(simulate_outcome_view(outcome)) {
            Ok(g) => r == Ok::<GasInfo, BroadcastTxCommitError>(g),
            Err(e) => r is Err && r.unwrap_err()@ == e,
        },
{
    match outcome {
        Err(e) => Err(BroadcastTxCommitError::Query(e)),
        Ok(None) => Err(BroadcastTxCommitError::NoResponse),
        Ok(Some(response)) => match response.gas_info {
            Some(g) => Ok(g),
            None => Ok(GasInfo { gas_wanted: 0, gas_used: 0 }),
        },
    }
}

} // verus!
