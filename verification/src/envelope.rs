//! The envelope: a payload with the name of its schema.
//!
//! There is no registry of schemas. Whoever opens an envelope says which
//! type they expect, and a different name on the envelope is an error.

use crate::text::{decode_string, lemma_string_round_trip, parse_string};
use crate::wire::{
    bytes_field, field_views, lemma_parse_bytes_field, lemma_parse_fields_cons,
    lemma_repeated_push, parse_fields, put_bytes_field, put_scalar_bytes, read_fields,
    repeated_field, scalar_bytes_field, DecodeError, Field, RawField, RawValue, Value,
};
use vstd::prelude::*;
use vstd::slice::slice_to_vec;
use vstd::utf8::encode_utf8;

verus! {

/// A payload tagged with the name of its schema.
#[derive(Clone, Debug, PartialEq, Eq)]
pub struct Envelope {
    pub type_url: String,
    pub value: Vec<u8>,
}

/// What an envelope holds.
pub ghost struct EnvelopeView {
    pub type_url: Seq<char>,
    pub value: Seq<u8>,
}

impl View for Envelope {
    type V = EnvelopeView;

    open spec fn view(&self) -> EnvelopeView {
        EnvelopeView { type_url: self.type_url@, value: self.value@ }
    }
}

/// Why an envelope did not open as the expected type.
#[derive(Clone, Debug, PartialEq, Eq)]
pub enum TryFromAnyError {
    /// The envelope names another schema than the one expected.
    IncorrectTypeUrl { found: String, expected: String },
    /// The name is right and the payload is not of that schema.
    Decode(DecodeError),
}

/// What a `TryFromAnyError` holds.
pub ghost enum TryFromAnyErrorView {
    IncorrectTypeUrl { found: Seq<char>, expected: Seq<char> },
    Decode(DecodeError),
}

impl View for TryFromAnyError {
    type V = TryFromAnyErrorView;

    open spec fn view(&self) -> TryFromAnyErrorView {
        match self {
            TryFromAnyError::IncorrectTypeUrl { found, expected } => {
                TryFromAnyErrorView::IncorrectTypeUrl { found: found@, expected: expected@ }
            },
            TryFromAnyError::Decode(e) => TryFromAnyErrorView::Decode(*e),
        }
    }
}

/// The envelope with no name and no payload: what an empty message reads as.
pub open spec fn empty_envelope() -> EnvelopeView {
    EnvelopeView { type_url: Seq::empty(), value: Seq::empty() }
}

/// An envelope on the wire: the name as field 1, the payload as field 2.
pub open spec fn envelope_bytes(e: EnvelopeView) -> Seq<u8> {
    scalar_bytes_field(1, encode_utf8(e.type_url)) + scalar_bytes_field(2, e.value)
}

/// The envelope `acc` after one more field of its message.
pub open spec fn envelope_apply(acc: EnvelopeView, f: Field) -> Result<EnvelopeView, DecodeError> {
    if f.number == 1 {
        match f.value {
            Value::Bytes(b) => match parse_string(b) {
                Ok(text) => Ok(EnvelopeView { type_url: text, value: acc.value }),
                Err(e) => Err(e),
            },
            _ => Err(DecodeError::UnexpectedWireType),
        }
    } else if f.number == 2 {
        match f.value {
            Value::Bytes(b) => Ok(EnvelopeView { type_url: acc.type_url, value: b }),
            _ => Err(DecodeError::UnexpectedWireType),
        }
    } else {
        Ok(acc)
    }
}

/// The envelope `acc` after the fields `fs`, taken in order: a later field
/// replaces an earlier one, and fields with other numbers are passed over.
pub open spec fn envelope_fold(acc: EnvelopeView, fs: Seq<Field>) -> Result<
    EnvelopeView,
    DecodeError,
>
    decreases fs.len(),
{
    if fs.len() == 0 {
        Ok(acc)
    } else {
        match envelope_apply(acc, fs[0]) {
            Ok(next) => envelope_fold(next, fs.drop_first()),
            Err(e) => Err(e),
        }
    }
}

/// The envelope `acc` with the message `s` merged into it.
pub open spec fn merge_envelope(acc: EnvelopeView, s: Seq<u8>) -> Result<
    EnvelopeView,
    DecodeError,
> {
    match parse_fields(s) {
        Ok(fs) => envelope_fold(acc, fs),
        Err(e) => Err(e),
    }
}

/// The envelope that the message `s` is.
pub open spec fn parse_envelope(s: Seq<u8>) -> Result<EnvelopeView, DecodeError> {
    merge_envelope(empty_envelope(), s)
}

/// What opening `e` as the type named `expected` gives: the payload, or the
/// two names where they differ.
pub open spec fn unpack_spec(e: EnvelopeView, expected: Seq<char>) -> Result<
    Seq<u8>,
    TryFromAnyErrorView,
> {
    if e.type_url == expected {
        Ok(e.value)
    } else {
        Err(TryFromAnyErrorView::IncorrectTypeUrl { found: e.type_url, expected })
    }
}

/// An envelope fits the wire when each of its two parts has a length that a
/// length prefix can hold. Every envelope in memory does.
pub open spec fn envelope_fits(e: EnvelopeView) -> bool {
    encode_utf8(e.type_url).len() <= u64::MAX && e.value.len() <= u64::MAX
}

/// An envelope written to the wire reads back as itself.
pub proof fn lemma_envelope_round_trip(e: EnvelopeView)
    requires
        envelope_fits(e),
    ensures
        parse_envelope(envelope_bytes(e)) == Ok::<EnvelopeView, DecodeError>(e),
{
    let name = encode_utf8(e.type_url);
    let f2 = scalar_bytes_field(2, e.value);
    let s = envelope_bytes(e);
    lemma_string_round_trip(e.type_url);
    // The fields of the payload part alone.
    let tail_fields: Seq<Field> = if e.value.len() == 0 {
        Seq::empty()
    } else {
        seq![Field { number: 2, value: Value::Bytes(e.value) }]
    };
    assert(parse_fields(f2) == Ok::<Seq<Field>, DecodeError>(tail_fields)) by {
        if e.value.len() != 0 {
            assert(f2 =~= bytes_field(2, e.value) + Seq::<u8>::empty());
            lemma_parse_bytes_field(2, e.value, Seq::empty());
            lemma_parse_fields_cons(
                f2,
                Field { number: 2, value: Value::Bytes(e.value) },
                f2.len(),
            );
            assert(f2.skip(f2.len() as int) =~= Seq::<u8>::empty());
            assert(seq![Field { number: 2, value: Value::Bytes(e.value) }] + Seq::<
                Field,
            >::empty() =~= tail_fields);
        }
    }
    if name.len() == 0 {
        assert(s =~= f2);
        assert(e.type_url =~= Seq::<char>::empty()) by {
            assert(parse_string(name) == Ok::<Seq<char>, DecodeError>(e.type_url));
            assert(name =~= encode_utf8(Seq::<char>::empty()));
            lemma_string_round_trip(Seq::<char>::empty());
        }
        lemma_envelope_fold_tail(empty_envelope(), e);
    } else {
        let f1 = bytes_field(1, name);
        let first = Field { number: 1, value: Value::Bytes(name) };
        assert(s =~= f1 + f2);
        lemma_parse_bytes_field(1, name, f2);
        lemma_parse_fields_cons(s, first, f1.len());
        assert(s.skip(f1.len() as int) =~= f2);
        let all = seq![first] + tail_fields;
        assert(parse_fields(s) == Ok::<Seq<Field>, DecodeError>(all));
        assert(all.drop_first() =~= tail_fields);
        lemma_envelope_fold_tail(EnvelopeView { type_url: e.type_url, value: Seq::empty() }, e);
    }
}

/// Folding the payload field of `e`, where it is written, over an envelope
/// that has the name of `e` and no payload gives `e`.
proof fn lemma_envelope_fold_tail(acc: EnvelopeView, e: EnvelopeView)
    requires
        acc.type_url == e.type_url,
        acc.value == Seq::<u8>::empty(),
    ensures
        envelope_fold(
            acc,
            if e.value.len() == 0 {
                Seq::empty()
            } else {
                seq![Field { number: 2, value: Value::Bytes(e.value) }]
            },
        ) == Ok::<EnvelopeView, DecodeError>(e),
{
    if e.value.len() == 0 {
        assert(e.value =~= Seq::<u8>::empty());
    } else {
        let fs = seq![Field { number: 2, value: Value::Bytes(e.value) }];
        assert(fs.drop_first() =~= Seq::<Field>::empty());
        reveal_with_fuel(envelope_fold, 2);
    }
}

/// What each envelope of a list holds.
pub open spec fn envelope_views(s: Seq<Envelope>) -> Seq<EnvelopeView> {
    s.map_values(|e: Envelope| e@)
}

/// Each envelope of a list as a message.
pub open spec fn envelope_payloads(es: Seq<EnvelopeView>) -> Seq<Seq<u8>> {
    Seq::new(es.len(), |i: int| envelope_bytes(es[i]))
}

/// A repeated field of envelopes.
pub open spec fn envelopes_field(number: u32, es: Seq<EnvelopeView>) -> Seq<u8> {
    repeated_field(number, envelope_payloads(es))
}

/// Appends a repeated field of envelopes.
pub fn put_envelopes(buf: &mut Vec<u8>, number: u32, envelopes: &Vec<Envelope>)
    ensures
        final(buf)@ == old(buf)@ + envelopes_field(number, envelope_views(envelopes@)),
{
    let ghost all = envelope_views(envelopes@);
    let mut i: usize = 0;
    proof {
        assert(envelope_payloads(all.take(0)) =~= Seq::<Seq<u8>>::empty());
        assert(buf@ =~= old(buf)@ + envelopes_field(number, all.take(0)));
    }
    while i < envelopes.len()
        invariant
            i <= envelopes@.len(),
            all == envelope_views(envelopes@),
            buf@ == old(buf)@ + envelopes_field(number, all.take(i as int)),
        decreases envelopes@.len() - i,
    {
        let payload = envelopes[i].encode();
        let ghost before = buf@;
        put_bytes_field(buf, number, payload.as_slice());
        proof {
            let done = envelope_payloads(all.take(i as int));
            lemma_repeated_push(number, done, payload@);
            assert(envelope_payloads(all.take(i + 1)) =~= done.push(payload@));
            assert(buf@ =~= old(buf)@ + envelopes_field(number, all.take(i + 1)));
        }
        i = i + 1;
    }
    proof {
        assert(all.take(i as int) =~= all);
    }
}

impl Envelope {
    /// The envelope with no name and no payload.
    pub fn empty() -> (e: Envelope)
        ensures
            e@ == empty_envelope(),
    {
        Envelope { type_url: String::new(), value: Vec::new() }
    }

    /// Puts `value` into an envelope named `type_url`.
    pub fn wrap(type_url: &str, value: Vec<u8>) -> (e: Envelope)
        ensures
            e@ == (EnvelopeView { type_url: type_url@, value: value@ }),
    {
        Envelope { type_url: type_url.to_owned(), value }
    }

    /// Appends this envelope, as a message, to `buf`.
    pub fn encode_into(&self, buf: &mut Vec<u8>)
        ensures
            final(buf)@ == old(buf)@ + envelope_bytes(self@),
    {
        put_scalar_bytes(buf, 1, self.type_url.as_str().as_bytes());
        put_scalar_bytes(buf, 2, self.value.as_slice());
        assert(buf@ =~= old(buf)@ + envelope_bytes(self@));
    }

    /// This envelope as a message.
    pub fn encode(&self) -> (bytes: Vec<u8>)
        ensures
            bytes@ == envelope_bytes(self@),
    {
        let mut buf: Vec<u8> = Vec::new();
        self.encode_into(&mut buf);
        assert(buf@ =~= envelope_bytes(self@));
        buf
    }

    /// Merges the fields of a message into this envelope.
    pub fn merge_fields(self, fields: &Vec<RawField>) -> (r: Result<Envelope, DecodeError>)
        ensures
            match envelope_fold(self@, field_views(fields@)) {
                Ok(e) => r is Ok && r.unwrap()@ == e,
                Err(e) => r == Err::<Envelope, DecodeError>(e),
            },
    {
        let ghost start = self@;
        let ghost all = field_views(fields@);
        let mut acc = self;
        let mut i: usize = 0;
        proof {
            assert(all.skip(0) =~= all);
        }
        while i < fields.len()
            invariant
                i <= fields@.len(),
                start == self@,
                all == field_views(fields@),
                envelope_fold(start, all) == envelope_fold(acc@, all.skip(i as int)),
            decreases fields@.len() - i,
        {
            let f = &fields[i];
            proof {
                let rest = all.skip(i as int);
                assert(rest[0] == f@);
                assert(rest.drop_first() =~= all.skip(i + 1));
            }
            if f.number == 1 {
                match &f.value {
                    RawValue::Bytes(b) => {
                        match decode_string(slice_to_vec(b.as_slice())) {
                            Ok(text) => {
                                acc.type_url = text;
                            },
                            Err(e) => {
                                return Err(e);
                            },
                        }
                    },
                    _ => {
                        return Err(DecodeError::UnexpectedWireType);
                    },
                }
            } else if f.number == 2 {
                match &f.value {
                    RawValue::Bytes(b) => {
                        acc.value = slice_to_vec(b.as_slice());
                    },
                    _ => {
                        return Err(DecodeError::UnexpectedWireType);
                    },
                }
            }
            i = i + 1;
        }
        Ok(acc)
    }

    /// Merges the message `bytes` into this envelope.
    pub fn merge(self, bytes: &[u8]) -> (r: Result<Envelope, DecodeError>)
        ensures
            match merge_envelope(self@, bytes@) {
                Ok(e) => r is Ok && r.unwrap()@ == e,
                Err(e) => r == Err::<Envelope, DecodeError>(e),
            },
    {
        match read_fields(bytes) {
            Ok(fields) => self.merge_fields(&fields),
            Err(e) => Err(e),
        }
    }

    /// Reads the message `bytes` as an envelope.
    pub fn decode(bytes: &[u8]) -> (r: Result<Envelope, DecodeError>)
        ensures
            match parse_envelope(bytes@) {
                Ok(e) => r is Ok && r.unwrap()@ == e,
                Err(e) => r == Err::<Envelope, DecodeError>(e),
            },
    {
        Envelope::empty().merge(bytes)
    }

    /// Opens this envelope as the type named `expected`: gives the payload
    /// where the envelope bears that name, and both names where it does not.
    pub fn unpack(self, expected: &str) -> (r: Result<Vec<u8>, TryFromAnyError>)
        ensures
            match unpack_spec(self@, expected@) {
                Ok(payload) => r is Ok && r.unwrap()@ == payload,
                Err(e) => r is Err && r.unwrap_err()@ == e,
            },
    {
        let wanted: String = expected.to_owned();
        if self.type_url == wanted {
            Ok(self.value)
        } else {
            Err(TryFromAnyError::IncorrectTypeUrl { found: self.type_url, expected: wanted })
        }
    }
}

} // verus!
