//! The signer's account on chain, and how the answer to the account query
//! becomes one.

use crate::envelope::{
    merge_envelope, empty_envelope, parse_envelope, unpack_spec, Envelope, EnvelopeView,
    TryFromAnyError, TryFromAnyErrorView,
};
use crate::error::{BroadcastTxCommitError, BroadcastTxCommitErrorView};
use crate::rpc::{GrpcAbciQueryError, GrpcAbciQueryErrorView};
use crate::text::parse_string;
use crate::wire::{
    field_views, parse_fields, put_scalar_bytes, read_fields, scalar_bytes_field, DecodeError,
    Field, RawValue, Value,
};
use vstd::prelude::*;
use vstd::slice::slice_to_vec;
use vstd::utf8::encode_utf8;

verus! {

/// What the client reads of an account: its number, and the sequence that
/// its next transaction must bear.
#[derive(Clone, Copy, Debug, PartialEq, Eq)]
pub struct Account {
    pub account_number: u64,
    pub sequence: u64,
}

/// The query path for an account record.
pub const ACCOUNT_QUERY_PATH: &'static str = "/cosmos.auth.v1beta1.Query/Account";

/// The name of the schema of an account record.
pub const BASE_ACCOUNT_TYPE_URL: &'static str = "/cosmos.auth.v1beta1.BaseAccount";

/// The error code with which the chain says that it has no such account.
pub const ACCOUNT_NOT_FOUND_CODE: u32 = 22;

/// The codespace of that error code.
pub const ACCOUNT_NOT_FOUND_CODESPACE: &'static str = "sdk";

/// The account of an address that the chain has never seen.
pub open spec fn new_account() -> Account {
    Account { account_number: 0, sequence: 0 }
}

impl Default for Account {
    fn default() -> (a: Account)
        ensures
            a == new_account(),
    {
        Account { account_number: 0, sequence: 0 }
    }
}

/// The request for the account of `address`, as a message.
pub open spec fn account_request_bytes(address: Seq<char>) -> Seq<u8> {
    scalar_bytes_field(1, encode_utf8(address))
}

/// The account `acc` after one more field of an account record. The address
/// and the public key are checked and not kept.
pub open spec fn account_apply(acc: Account, f: Field) -> Result<Account, DecodeError> {
    if f.number == 1 {
        match f.value {
            Value::Bytes(b) => match parse_string(b) {
                Ok(_) => Ok(acc),
                Err(e) => Err(e),
            },
            _ => Err(DecodeError::UnexpectedWireType),
        }
    } else if f.number == 2 {
        match f.value {
            Value::Bytes(b) => match parse_envelope(b) {
                Ok(_) => Ok(acc),
                Err(e) => Err(e),
            },
            _ => Err(DecodeError::UnexpectedWireType),
        }
    } else if f.number == 3 {
        match f.value {
            Value::Varint(v) => Ok(Account { account_number: v, sequence: acc.sequence }),
            _ => Err(DecodeError::UnexpectedWireType),
        }
    } else if f.number == 4 {
        match f.value {
            Value::Varint(v) => Ok(Account { account_number: acc.account_number, sequence: v }),
            _ => Err(DecodeError::UnexpectedWireType),
        }
    } else {
        Ok(acc)
    }
}

/// The account `acc` after the fields `fs`, taken in order.
pub open spec fn account_fold(acc: Account, fs: Seq<Field>) -> Result<Account, DecodeError>
    decreases fs.len(),
{
    if fs.len() == 0 {
        Ok(acc)
    } else {
        match account_apply(acc, fs[0]) {
            Ok(next) => account_fold(next, fs.drop_first()),
            Err(e) => Err(e),
        }
    }
}

/// The account that the record `s` describes.
pub open spec fn parse_base_account(s: Seq<u8>) -> Result<Account, DecodeError> {
    match parse_fields(s) {
        Ok(fs) => account_fold(new_account(), fs),
        Err(e) => Err(e),
    }
}

/// What opening `e` as an account record gives.
pub open spec fn account_from_envelope(e: EnvelopeView) -> Result<Account, TryFromAnyErrorView> {
    match unpack_spec(e, BASE_ACCOUNT_TYPE_URL@) {
        Ok(payload) => match parse_base_account(payload) {
            Ok(a) => Ok(a),
            Err(e) => Err(TryFromAnyErrorView::Decode(e)),
        },
        Err(e) => Err(e),
    }
}

/// The answer to an account query: the record in its envelope, if any.
#[derive(Clone, Debug, PartialEq, Eq)]
pub struct QueryAccountResponse {
    pub account: Option<Envelope>,
}

impl View for QueryAccountResponse {
    type V = Option<EnvelopeView>;

    open spec fn view(&self) -> Option<EnvelopeView> {
        match self.account {
            Some(e) => Some(e@),
            None => None,
        }
    }
}

/// The answer `acc` after one more field: field 1 is the record, and a second
/// one is merged into the first.
pub open spec fn account_response_apply(acc: Option<EnvelopeView>, f: Field) -> Result<
    Option<EnvelopeView>,
    DecodeError,
> {
    if f.number == 1 {
        match f.value {
            Value::Bytes(b) => match merge_envelope(
                match acc {
                    Some(e) => e,
                    None => empty_envelope(),
                },
                b,
            ) {
                Ok(e) => Ok(Some(e)),
                Err(e) => Err(e),
            },
            _ => Err(DecodeError::UnexpectedWireType),
        }
    } else {
        Ok(acc)
    }
}

/// The answer `acc` after the fields `fs`, taken in order.
pub open spec fn account_response_fold(acc: Option<EnvelopeView>, fs: Seq<Field>) -> Result<
    Option<EnvelopeView>,
    DecodeError,
>
    decreases fs.len(),
{
    if fs.len() == 0 {
        Ok(acc)
    } else {
        match account_response_apply(acc, fs[0]) {
            Ok(next) => account_response_fold(next, fs.drop_first()),
            Err(e) => Err(e),
        }
    }
}

/// The answer to an account query that the message `s` is.
pub open spec fn parse_account_response(s: Seq<u8>) -> Result<Option<EnvelopeView>, DecodeError> {
    match parse_fields(s) {
        Ok(fs) => account_response_fold(None, fs),
        Err(e) => Err(e),
    }
}

/// Whether a failed query says that the chain has no such account.
pub open spec fn is_account_not_found(e: GrpcAbciQueryErrorView) -> bool {
    e.error_code == ACCOUNT_NOT_FOUND_CODE && e.codespace == ACCOUNT_NOT_FOUND_CODESPACE@
}

/// What the outcome of an account query means. That the chain has no such
/// account is an answer, not a failure; so is an answer without a record.
/// Every other failed query is passed on, and a record that does not open as
/// an account is an error of its own.
pub open spec fn resolve_account(
    outcome: Result<Option<Option<EnvelopeView>>, GrpcAbciQueryErrorView>,
) -> Result<Option<Account>, BroadcastTxCommitErrorView> {
    match outcome {
        Err(e) => if is_account_not_found(e) {
            Ok(None)
        } else {
            Err(BroadcastTxCommitErrorView::Query(e))
        },
        Ok(None) => Ok(None),
        Ok(Some(None)) => Ok(None),
        Ok(Some(Some(record))) => match account_from_envelope(record) {
            Ok(a) => Ok(Some(a)),
            Err(e) => Err(BroadcastTxCommitErrorView::AccountDecode(e)),
        },
    }
}

/// What the outcome of an account query holds.
pub open spec fn account_outcome_view(
    outcome: Result<Option<QueryAccountResponse>, GrpcAbciQueryError>,
) -> Result<Option<Option<EnvelopeView>>, GrpcAbciQueryErrorView> {
    match outcome {
        Ok(Some(r)) => Ok(Some(r@)),
        Ok(None) => Ok(None),
        Err(e) => Err(e@),
    }
}

impl Account {
    /// Reads an account record.
    pub fn decode(bytes: &[u8]) -> (r: Result<Account, DecodeError>)
        ensures
            r == parse_base_account(bytes@),
    {
        let fields = match read_fields(bytes) {
            Ok(fields) => fields,
            Err(e) => {
                return Err(e);
            },
        };
        let ghost all = field_views(fields@);
        let mut acc = Account { account_number: 0, sequence: 0 };
        let mut i: usize = 0;
        proof {
            assert(all.skip(0) =~= all);
        }
        while i < fields.len()
            invariant
                i <= fields@.len(),
                all == field_views(fields@),
                parse_base_account(bytes@) == account_fold(acc, all.skip(i as int)),
            decreases fields@.len() - i,
        {
            let f = &fields[i];
            proof {
                let rest = all.skip(i as int);
                assert(rest[0] == f@);
                assert(rest.drop_first() =~= all.skip(i + 1));
            }
            if f.number == 1 {
                match &f.value {
                    RawValue::Bytes(b) => {
                        match crate::text::decode_string(slice_to_vec(b.as_slice())) {
                            Ok(_) => {},
                            Err(e) => {
                                return Err(e);
                            },
                        }
                    },
                    _ => {
                        return Err(DecodeError::UnexpectedWireType);
                    },
                }
            } else if f.number == 2 {
                match &f.value {
                    RawValue::Bytes(b) => {
                        match Envelope::decode(b.as_slice()) {
                            Ok(_) => {},
                            Err(e) => {
                                return Err(e);
                            },
                        }
                    },
                    _ => {
                        return Err(DecodeError::UnexpectedWireType);
                    },
                }
            } else if f.number == 3 {
                match &f.value {
                    RawValue::Varint(v) => {
                        acc = Account { account_number: *v, sequence: acc.sequence };
                    },
                    _ => {
                        return Err(DecodeError::UnexpectedWireType);
                    },
                }
            } else if f.number == 4 {
                match &f.value {
                    RawValue::Varint(v) => {
                        acc = Account { account_number: acc.account_number, sequence: *v };
                    },
                    _ => {
                        return Err(DecodeError::UnexpectedWireType);
                    },
                }
            }
            i = i + 1;
        }
        Ok(acc)
    }

    /// Opens an envelope as an account record.
    pub fn from_envelope(e: Envelope) -> (r: Result<Account, TryFromAnyError>)
        ensures
            match account_from_envelope(e@) {
                Ok(a) => r == Ok::<Account, TryFromAnyError>(a),
                Err(err) => r is Err && r.unwrap_err()@ == err,
            },
    {
        match e.unpack(BASE_ACCOUNT_TYPE_URL) {
            Ok(payload) => match Account::decode(payload.as_slice()) {
                Ok(a) => Ok(a),
                Err(err) => Err(TryFromAnyError::Decode(err)),
            },
            Err(err) => Err(err),
        }
    }
}

impl QueryAccountResponse {
    /// Reads the answer to an account query.
    pub fn decode(bytes: &[u8]) -> (r: Result<QueryAccountResponse, DecodeError>)
        ensures
            match parse_account_response(bytes@) {
                Ok(account) => r is Ok && r.unwrap()@ == account,
                Err(e) => r == Err::<QueryAccountResponse, DecodeError>(e),
            },
    {
        let fields = match read_fields(bytes) {
            Ok(fields) => fields,
            Err(e) => {
                return Err(e);
            },
        };
        let ghost all = field_views(fields@);
        let mut acc = QueryAccountResponse { account: None };
        let mut i: usize = 0;
        proof {
            assert(all.skip(0) =~= all);
        }
        while i < fields.len()
            invariant
                i <= fields@.len(),
                all == field_views(fields@),
                parse_account_response(bytes@) == account_response_fold(acc@, all.skip(i as int)),
            decreases fields@.len() - i,
        {
            let f = &fields[i];
            proof {
                let rest = all.skip(i as int);
                assert(rest[0] == f@);
                assert(rest.drop_first() =~= all.skip(i + 1));
            }
            if f.number == 1 {
                match &f.value {
                    RawValue::Bytes(b) => {
                        let current = match acc.account {
                            Some(e) => e,
                            None => Envelope::empty(),
                        };
                        match current.merge(b.as_slice()) {
                            Ok(e) => {
                                acc = QueryAccountResponse { account: Some(e) };
                            },
                            Err(e) => {
                                return Err(e);
                            },
                        }
                    },
                    _ => {
                        return Err(DecodeError::UnexpectedWireType);
                    },
                }
            }
            i = i + 1;
        }
        Ok(acc)
    }
}

/// The request for the account of `address`, as a message.
pub fn account_request(address: &str) -> (bytes: Vec<u8>)
    ensures
        bytes@ == account_request_bytes(address@),
{
    let mut buf: Vec<u8> = Vec::new();
    put_scalar_bytes(&mut buf, 1, address.as_bytes());
    assert(buf@ =~= account_request_bytes(address@));
    buf
}

/// Whether a failed query says that the chain has no such account.
pub fn account_not_found(e: &GrpcAbciQueryError) -> (b: bool)
    ensures
        b == is_account_not_found(e@),
{
    let codespace: String = ACCOUNT_NOT_FOUND_CODESPACE.to_owned();
    e.error_code == ACCOUNT_NOT_FOUND_CODE && e.codespace == codespace
}

/// Turns the outcome of an account query into the account, if the chain has
/// one for the address.
pub fn account_info(outcome: Result<Option<QueryAccountResponse>, GrpcAbciQueryError>) -> (r:
    Result<Option<Account>, BroadcastTxCommitError>)
    ensures
        match resolve_account(account_outcome_view(outcome)) {
            Ok(a) => r == Ok::<Option<Account>, BroadcastTxCommitError>(a),
            Err(e) => r is Err && r.unwrap_err()@ == e,
        },
{
    match outcome {
        Err(e) => {
            if account_not_found(&e) {
                Ok(None)
            } else {
                Err(BroadcastTxCommitError::Query(e))
            }
        },
        Ok(None) => Ok(None),
        Ok(Some(response)) => match response.account {
            None => Ok(None),
            Some(record) => match Account::from_envelope(record) {
                Ok(a) => Ok(Some(a)),
                Err(e) => Err(BroadcastTxCommitError::AccountDecode(e)),
            },
        },
    }
}

} // verus!
