//! From the data of a transaction result to the response of its message.
//!
//! The chain answers with a list of envelopes, one for each message of the
//! transaction. The response wanted is the last one, opened as the type that
//! the message is known to answer with.

use crate::envelope::{
    envelope_bytes, envelope_fits, envelope_payloads, envelope_views, envelopes_field,
    lemma_envelope_round_trip, parse_envelope, put_envelopes, unpack_spec, Envelope,
    EnvelopeView, TryFromAnyErrorView,
};
use crate::error::{TxError, TxErrorView};
use crate::hash::TxHash;
use crate::rpc::TxResponse;
use crate::wire::{
    field_views, lemma_parse_fields_empty, lemma_parse_fields_repeated, parse_fields,
    read_fields, repeated_fields, DecodeError, Field, RawValue, Value,
};
use vstd::prelude::*;

verus! {

/// The responses of a transaction's messages, in the order of the messages.
#[derive(Clone, Debug, PartialEq, Eq)]
pub struct TxMsgData {
    pub msg_responses: Vec<Envelope>,
}

impl View for TxMsgData {
    type V = Seq<EnvelopeView>;

    open spec fn view(&self) -> Seq<EnvelopeView> {
        envelope_views(self.msg_responses@)
    }
}

/// A list of responses on the wire: each one as field 2.
pub open spec fn tx_msg_data_bytes(responses: Seq<EnvelopeView>) -> Seq<u8> {
    envelopes_field(2, responses)
}

/// The responses `acc` after one more field. Field 2 adds a response. Field 1
/// is the older form of the same list: its entries are checked and not kept.
pub open spec fn tx_msg_data_apply(acc: Seq<EnvelopeView>, f: Field) -> Result<
    Seq<EnvelopeView>,
    DecodeError,
> {
    if f.number == 1 || f.number == 2 {
        match f.value {
            Value::Bytes(b) => match parse_envelope(b) {
                Ok(e) => Ok(
                    if f.number == 2 {
                        acc.push(e)
                    } else {
                        acc
                    },
                ),
                Err(e) => Err(e),
            },
            _ => Err(DecodeError::UnexpectedWireType),
        }
    } else {
        Ok(acc)
    }
}

/// The responses `acc` after the fields `fs`, taken in order.
pub open spec fn tx_msg_data_fold(acc: Seq<EnvelopeView>, fs: Seq<Field>) -> Result<
    Seq<EnvelopeView>,
    DecodeError,
>
    decreases fs.len(),
{
    if fs.len() == 0 {
        Ok(acc)
    } else {
        match tx_msg_data_apply(acc, fs[0]) {
            Ok(next) => tx_msg_data_fold(next, fs.drop_first()),
            Err(e) => Err(e),
        }
    }
}

/// The list of responses that the message `s` is.
pub open spec fn parse_tx_msg_data(s: Seq<u8>) -> Result<Seq<EnvelopeView>, DecodeError> {
    match parse_fields(s) {
        Ok(fs) => tx_msg_data_fold(Seq::empty(), fs),
        Err(e) => Err(e),
    }
}

/// What the result data `data` gives when the response is expected to be of
/// the type named `expected`: the payload of the last response; `None` where
/// the list is empty, which no executed message leaves behind; an error where
/// the data is no list of responses or the last one bears another name.
pub open spec fn response_payload(data: Seq<u8>, expected: Seq<char>) -> Result<
    Option<Seq<u8>>,
    TxErrorView,
> {
    match parse_tx_msg_data(data) {
        Err(e) => Err(TxErrorView::TxMsgDataDecode(e)),
        Ok(responses) => if responses.len() == 0 {
            Ok(None)
        } else {
            match unpack_spec(responses.last(), expected) {
                Ok(payload) => Ok(Some(payload)),
                Err(e) => Err(TxErrorView::MsgResponseDecode(e)),
            }
        },
    }
}

/// The data of a transaction result: what is there, or nothing.
pub open spec fn result_data(result: TxResponse) -> Seq<u8> {
    match result.tx_result.data {
        Some(d) => d@,
        None => Seq::empty(),
    }
}

/// Every response of the list fits the wire, as a message too.
pub open spec fn responses_fit(responses: Seq<EnvelopeView>) -> bool {
    forall|i: int|
        0 <= i < responses.len() ==> envelope_fits(#[trigger] responses[i]) && envelope_bytes(
            responses[i],
        ).len() <= u64::MAX
}

proof fn lemma_fold_responses(acc: Seq<EnvelopeView>, responses: Seq<EnvelopeView>)
    requires
        responses_fit(responses),
    ensures
        tx_msg_data_fold(acc, repeated_fields(2, envelope_payloads(responses))) == Ok::<
            Seq<EnvelopeView>,
            DecodeError,
        >(acc + responses),
    decreases responses.len(),
{
    let fs = repeated_fields(2, envelope_payloads(responses));
    if responses.len() == 0 {
        assert(acc + responses =~= acc);
    } else {
        let head = responses[0];
        let tail = responses.drop_first();
        assert(envelope_fits(head));
        lemma_envelope_round_trip(head);
        assert(fs[0] == Field { number: 2, value: Value::Bytes(envelope_bytes(head)) });
        assert(fs.drop_first() =~= repeated_fields(2, envelope_payloads(tail)));
        assert(responses_fit(tail)) by {
            assert forall|i: int| 0 <= i < tail.len() implies envelope_fits(#[trigger] tail[i])
                && envelope_bytes(tail[i]).len() <= u64::MAX by {
                assert(tail[i] == responses[i + 1]);
            }
        }
        lemma_fold_responses(acc.push(head), tail);
        assert(acc.push(head) + tail =~= acc + responses);
    }
}

/// A list of responses written to the wire reads back as itself.
pub proof fn lemma_tx_msg_data_round_trip(responses: Seq<EnvelopeView>)
    requires
        responses_fit(responses),
    ensures
        parse_tx_msg_data(tx_msg_data_bytes(responses)) == Ok::<Seq<EnvelopeView>, DecodeError>(
            responses,
        ),
{
    let payloads = envelope_payloads(responses);
    lemma_parse_fields_empty();
    assert forall|i: int| 0 <= i < payloads.len() implies (#[trigger] payloads[i]).len()
        <= u64::MAX by {
        assert(envelope_fits(responses[i]));
    }
    lemma_parse_fields_repeated(2, payloads, Seq::empty(), Seq::empty());
    assert(tx_msg_data_bytes(responses) + Seq::<u8>::empty() =~= tx_msg_data_bytes(responses));
    assert(repeated_fields(2, payloads) + Seq::<Field>::empty() =~= repeated_fields(2, payloads));
    lemma_fold_responses(Seq::empty(), responses);
    assert(Seq::<EnvelopeView>::empty() + responses =~= responses);
}

/// A response goes through the wire unchanged, and only under its own name:
/// wrapped in an envelope, put last in a list of responses and written out,
/// it comes back as the same payload when it is read as the type that the
/// envelope names, and as a mismatch of names, with both names, when it is
/// read as any other type.
pub proof fn lemma_response_round_trip(
    earlier: Seq<EnvelopeView>,
    response: EnvelopeView,
    expected: Seq<char>,
)
    requires
        responses_fit(earlier.push(response)),
    ensures
        expected == response.type_url ==> response_payload(
            tx_msg_data_bytes(earlier.push(response)),
            expected,
        ) == Ok::<Option<Seq<u8>>, TxErrorView>(Some(response.value)),
        expected != response.type_url ==> response_payload(
            tx_msg_data_bytes(earlier.push(response)),
            expected,
        ) == Err::<Option<Seq<u8>>, TxErrorView>(
            TxErrorView::MsgResponseDecode(
                TryFromAnyErrorView::IncorrectTypeUrl { found: response.type_url, expected },
            ),
        ),
{
    lemma_tx_msg_data_round_trip(earlier.push(response));
}

impl TxMsgData {
    /// This list as a message.
    pub fn encode(&self) -> (bytes: Vec<u8>)
        ensures
            bytes@ == tx_msg_data_bytes(self@),
    {
        let mut buf: Vec<u8> = Vec::new();
        put_envelopes(&mut buf, 2, &self.msg_responses);
        assert(buf@ =~= tx_msg_data_bytes(self@));
        buf
    }

    /// Reads the message `bytes` as a list of responses.
    pub fn decode(bytes: &[u8]) -> (r: Result<TxMsgData, DecodeError>)
        ensures
            match parse_tx_msg_data(bytes@) {
                Ok(responses) => r is Ok && r.unwrap()@ == responses,
                Err(e) => r == Err::<TxMsgData, DecodeError>(e),
            },
    {
        let fields = match read_fields(bytes) {
            Ok(fields) => fields,
            Err(e) => {
                return Err(e);
            },
        };
        let ghost all = field_views(fields@);
        let mut out: Vec<Envelope> = Vec::new();
        let mut i: usize = 0;
        proof {
            assert(all.skip(0) =~= all);
            assert(envelope_views(out@) =~= Seq::<EnvelopeView>::empty());
        }
        while i < fields.len()
            invariant
                i <= fields@.len(),
                all == field_views(fields@),
                parse_tx_msg_data(bytes@) == tx_msg_data_fold(
                    envelope_views(out@),
                    all.skip(i as int),
                ),
            decreases fields@.len() - i,
        {
            let f = &fields[i];
            proof {
                let rest = all.skip(i as int);
                assert(rest[0] == f@);
                assert(rest.drop_first() =~= all.skip(i + 1));
            }
            if f.number == 1 || f.number == 2 {
                match &f.value {
                    RawValue::Bytes(b) => {
                        match Envelope::decode(b.as_slice()) {
                            Ok(e) => {
                                if f.number == 2 {
                                    proof {
                                        assert(envelope_views(out@.push(e)) =~= envelope_views(
                                            out@,
                                        ).push(e@));
                                    }
                                    out.push(e);
                                }
                            },
                            Err(e) => {
                                return Err(e);
                            },
                        }
                    },
                    _ => {
                        return Err(DecodeError::UnexpectedWireType);
                    },
                }
            }
            i = i + 1;
        }
        Ok(TxMsgData { msg_responses: out })
    }

    /// The response of the last message.
    pub fn last_response(self) -> (e: Envelope)
        requires
            self@.len() > 0,
        ensures
            e@ == self@.last(),
    {
        let mut responses = self.msg_responses;
        let ghost before = responses@;
        let last = responses.pop();
        assert(envelope_views(before).last() == before.last()@);
        last.unwrap()
    }
}

/// Reads the response of a message out of the data of its transaction result.
/// `expected` names the type that the message answers with. Gives the payload
/// of the last response; `None` where there is no response at all.
pub fn decode_response(data: &[u8], expected: &str) -> (r: Result<Option<Vec<u8>>, TxError>)
    ensures
        match response_payload(data@, expected@) {
            Ok(Some(payload)) => r matches Ok(Some(p)) && p@ == payload,
            Ok(None) => r matches Ok(None),
            Err(e) => r is Err && r.unwrap_err()@ == e,
        },
{
    let msg_data = match TxMsgData::decode(data) {
        Ok(msg_data) => msg_data,
        Err(e) => {
            return Err(TxError::TxMsgDataDecode(e));
        },
    };
    if msg_data.msg_responses.len() == 0 {
        return Ok(None);
    }
    match msg_data.last_response().unpack(expected) {
        Ok(payload) => Ok(Some(payload)),
        Err(e) => Err(TxError::MsgResponseDecode(e)),
    }
}

/// The hash of a confirmed transaction with the response of its message.
pub fn decode_tx_response(result: &TxResponse, expected: &str) -> (r: Result<
    Option<(TxHash, Vec<u8>)>,
    TxError,
>)
    ensures
        match response_payload(result_data(*result), expected@) {
            Ok(Some(payload)) => r matches Ok(Some(p)) && p.0 == result.hash && p.1@ == payload,
            Ok(None) => r matches Ok(None),
            Err(e) => r is Err && r.unwrap_err()@ == e,
        },
{
    let payload = match &result.tx_result.data {
        Some(d) => decode_response(d.as_slice(), expected),
        None => {
            let none: Vec<u8> = Vec::new();
            decode_response(none.as_slice(), expected)
        },
    };
    match payload {
        Ok(Some(p)) => Ok(Some((result.hash, p))),
        Ok(None) => Ok(None),
        Err(e) => Err(e),
    }
}

} // verus!
