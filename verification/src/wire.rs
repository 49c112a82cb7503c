//! The protobuf wire format: keys, fields, and a message as a list of fields.

use crate::varint::{
    lemma_leb128_len, lemma_varint_round_trip, parse_varint, put_varint, read_varint, varint_bytes,
};
use vstd::prelude::*;
use vstd::slice::*;

verus! {

/// Why a byte string is not the message it was read as.
#[derive(Clone, Copy, Debug, PartialEq, Eq)]
pub enum DecodeError {
    /// No varint where one must stand (the buffer ends, or the number is too long or too large).
    InvalidVarint,
    /// A key above 32 bits.
    InvalidKey,
    /// A wire type of 6 or 7.
    InvalidWireType,
    /// Field number 0.
    InvalidTag,
    /// A field announces more bytes than are left.
    UnexpectedEnd,
    /// A group: a wire type that no message read here uses.
    UnsupportedGroup,
    /// A known field arrived with another wire type than its own.
    UnexpectedWireType,
    /// A string field that is not UTF-8.
    InvalidUtf8,
}

/// Wire type of varint fields.
pub const WIRE_VARINT: u8 = 0;

/// Wire type of 64-bit fields.
pub const WIRE_FIXED64: u8 = 1;

/// Wire type of length-delimited fields.
pub const WIRE_BYTES: u8 = 2;

/// Wire type of 32-bit fields.
pub const WIRE_FIXED32: u8 = 5;

/// The largest field number.
pub const MAX_FIELD_NUMBER: u32 = 0x1fff_ffff;

/// What a field carries. Fixed-width payloads are not kept: no message read
/// here has such a field, so they are only ever skipped.
pub ghost enum Value {
    Varint(u64),
    Fixed64,
    Bytes(Seq<u8>),
    Fixed32,
}

/// One field of a message as it stands on the wire.
pub ghost struct Field {
    pub number: u32,
    pub value: Value,
}

/// The field that `s` starts with, and how many bytes it takes.
pub open spec fn parse_field(s: Seq<u8>) -> Result<(Field, nat), DecodeError> {
    match parse_varint(s) {
        None => Err(DecodeError::InvalidVarint),
        Some((key, n)) => {
            let rest = s.skip(n as int);
            let number = (key / 8) as u32;
            if key > u32::MAX {
                Err(DecodeError::InvalidKey)
            } else if key % 8 >= 6 {
                Err(DecodeError::InvalidWireType)
            } else if key / 8 == 0 {
                Err(DecodeError::InvalidTag)
            } else if key % 8 == WIRE_VARINT {
                match parse_varint(rest) {
                    None => Err(DecodeError::InvalidVarint),
                    Some((v, m)) => Ok((Field { number, value: Value::Varint(v) }, n + m)),
                }
            } else if key % 8 == WIRE_FIXED64 {
                if rest.len() < 8 {
                    Err(DecodeError::UnexpectedEnd)
                } else {
                    Ok((Field { number, value: Value::Fixed64 }, n + 8))
                }
            } else if key % 8 == WIRE_BYTES {
                match parse_varint(rest) {
                    None => Err(DecodeError::InvalidVarint),
                    Some((len, m)) => if len > rest.len() - m {
                        Err(DecodeError::UnexpectedEnd)
                    } else {
                        Ok(
                            (
                                Field {
                                    number,
                                    value: Value::Bytes(rest.subrange(m as int, m + len)),
                                },
                                n + m + len as nat,
                            ),
                        )
                    },
                }
            } else if key % 8 == WIRE_FIXED32 {
                if rest.len() < 4 {
                    Err(DecodeError::UnexpectedEnd)
                } else {
                    Ok((Field { number, value: Value::Fixed32 }, n + 4))
                }
            } else {
                Err(DecodeError::UnsupportedGroup)
            }
        },
    }
}

/// The fields of the message `s`, in the order in which they stand.
pub open spec fn parse_fields(s: Seq<u8>) -> Result<Seq<Field>, DecodeError>
    decreases s.len(),
{
    if s.len() == 0 {
        Ok(Seq::empty())
    } else {
        match parse_field(s) {
            Err(e) => Err(e),
            Ok((f, n)) => if 0 < n <= s.len() {
                match parse_fields(s.skip(n as int)) {
                    Err(e) => Err(e),
                    Ok(fs) => Ok(seq![f] + fs),
                }
            } else {
                Err(DecodeError::UnexpectedEnd)
            },
        }
    }
}

/// A field takes at least one byte and no more than there are.
pub proof fn lemma_parse_field_len(s: Seq<u8>)
    ensures
        parse_field(s) matches Ok((f, n)) ==> 0 < n <= s.len(),
{
    lemma_leb128_len(s);
    match parse_varint(s) {
        Some((key, n)) => {
            lemma_leb128_len(s.skip(n as int));
        },
        None => {},
    }
}

/// The key of field `number` with wire type `wire`.
pub open spec fn key_bytes(number: u32, wire: u8) -> Seq<u8> {
    varint_bytes((number * 8 + wire) as nat)
}

/// A varint field, written whatever its value.
pub open spec fn varint_field(number: u32, v: u64) -> Seq<u8> {
    key_bytes(number, WIRE_VARINT) + varint_bytes(v as nat)
}

/// A length-delimited field, written whatever its payload.
pub open spec fn bytes_field(number: u32, payload: Seq<u8>) -> Seq<u8> {
    key_bytes(number, WIRE_BYTES) + varint_bytes(payload.len()) + payload
}

/// A `uint64` field of a message: left out where it is 0.
pub open spec fn uint64_field(number: u32, v: u64) -> Seq<u8> {
    if v == 0 {
        Seq::empty()
    } else {
        varint_field(number, v)
    }
}

/// A `bytes` or `string` field of a message: left out where it is empty.
pub open spec fn scalar_bytes_field(number: u32, payload: Seq<u8>) -> Seq<u8> {
    if payload.len() == 0 {
        Seq::empty()
    } else {
        bytes_field(number, payload)
    }
}

/// A field number that can stand in a key.
pub open spec fn valid_number(number: u32) -> bool {
    1 <= number <= MAX_FIELD_NUMBER
}

/// A varint field reads back as itself, whatever follows it.
pub proof fn lemma_parse_varint_field(number: u32, v: u64, rest: Seq<u8>)
    requires
        valid_number(number),
    ensures
        parse_field(varint_field(number, v) + rest) == Ok::<(Field, nat), DecodeError>(
            (Field { number, value: Value::Varint(v) }, varint_field(number, v).len()),
        ),
{
    let key = (number * 8 + WIRE_VARINT) as u64;
    let kb = key_bytes(number, WIRE_VARINT);
    let vb = varint_bytes(v as nat);
    let s = varint_field(number, v) + rest;
    assert(s =~= kb + (vb + rest));
    lemma_varint_round_trip(key, vb + rest);
    assert(s.skip(kb.len() as int) =~= vb + rest);
    lemma_varint_round_trip(v, rest);
}

/// A length-delimited field reads back as itself, whatever follows it.
pub proof fn lemma_parse_bytes_field(number: u32, payload: Seq<u8>, rest: Seq<u8>)
    requires
        valid_number(number),
        payload.len() <= u64::MAX,
    ensures
        parse_field(bytes_field(number, payload) + rest) == Ok::<(Field, nat), DecodeError>(
            (Field { number, value: Value::Bytes(payload) }, bytes_field(number, payload).len()),
        ),
{
    let key = (number * 8 + WIRE_BYTES) as u64;
    let kb = key_bytes(number, WIRE_BYTES);
    let lb = varint_bytes(payload.len());
    let s = bytes_field(number, payload) + rest;
    assert(s =~= kb + (lb + payload + rest));
    lemma_varint_round_trip(key, lb + payload + rest);
    let after = s.skip(kb.len() as int);
    assert(after =~= lb + (payload + rest));
    lemma_varint_round_trip(payload.len() as u64, payload + rest);
    assert(after.subrange(lb.len() as int, (lb.len() + payload.len()) as int) =~= payload);
}

/// A message that starts with a field is that field and then the rest.
pub proof fn lemma_parse_fields_cons(s: Seq<u8>, f: Field, n: nat)
    requires
        parse_field(s) == Ok::<(Field, nat), DecodeError>((f, n)),
    ensures
        parse_fields(s) == match parse_fields(s.skip(n as int)) {
            Ok(fs) => Ok::<Seq<Field>, DecodeError>(seq![f] + fs),
            Err(e) => Err(e),
        },
{
    lemma_parse_field_len(s);
}

/// A message with no bytes has no fields.
pub proof fn lemma_parse_fields_empty()
    ensures
        parse_fields(Seq::empty()) == Ok::<Seq<Field>, DecodeError>(Seq::empty()),
{
}

/// A message that starts with a length-delimited field has that field first.
pub proof fn lemma_parse_fields_bytes_field(
    number: u32,
    payload: Seq<u8>,
    rest: Seq<u8>,
    fs: Seq<Field>,
)
    requires
        valid_number(number),
        payload.len() <= u64::MAX,
        parse_fields(rest) == Ok::<Seq<Field>, DecodeError>(fs),
    ensures
        parse_fields(bytes_field(number, payload) + rest) == Ok::<Seq<Field>, DecodeError>(
            seq![Field { number, value: Value::Bytes(payload) }] + fs,
        ),
{
    let s = bytes_field(number, payload) + rest;
    let n = bytes_field(number, payload).len();
    lemma_parse_bytes_field(number, payload, rest);
    lemma_parse_fields_cons(s, Field { number, value: Value::Bytes(payload) }, n);
    assert(s.skip(n as int) =~= rest);
}

/// A repeated length-delimited field: one field for each payload, in order.
pub open spec fn repeated_field(number: u32, payloads: Seq<Seq<u8>>) -> Seq<u8>
    decreases payloads.len(),
{
    if payloads.len() == 0 {
        Seq::empty()
    } else {
        bytes_field(number, payloads[0]) + repeated_field(number, payloads.drop_first())
    }
}

/// The fields that a repeated field reads back as.
pub open spec fn repeated_fields(number: u32, payloads: Seq<Seq<u8>>) -> Seq<Field> {
    Seq::new(payloads.len(), |i: int| Field { number, value: Value::Bytes(payloads[i]) })
}

/// One more payload at the end is one more field at the end.
pub proof fn lemma_repeated_push(number: u32, payloads: Seq<Seq<u8>>, last: Seq<u8>)
    ensures
        repeated_field(number, payloads.push(last)) == repeated_field(number, payloads)
            + bytes_field(number, last),
    decreases payloads.len(),
{
    let all = payloads.push(last);
    if payloads.len() == 0 {
        assert(all.drop_first() =~= payloads);
        assert(repeated_field(number, payloads) =~= Seq::<u8>::empty());
        assert(repeated_field(number, all) =~= bytes_field(number, last));
        assert(repeated_field(number, payloads) + bytes_field(number, last) =~= bytes_field(
            number,
            last,
        ));
    } else {
        assert(all.drop_first() =~= payloads.drop_first().push(last));
        lemma_repeated_push(number, payloads.drop_first(), last);
        assert(repeated_field(number, all) =~= repeated_field(number, payloads) + bytes_field(
            number,
            last,
        ));
    }
}

/// A message that starts with a repeated field has its fields first.
pub proof fn lemma_parse_fields_repeated(
    number: u32,
    payloads: Seq<Seq<u8>>,
    rest: Seq<u8>,
    fs: Seq<Field>,
)
    requires
        valid_number(number),
        forall|i: int| 0 <= i < payloads.len() ==> (#[trigger] payloads[i]).len() <= u64::MAX,
        parse_fields(rest) == Ok::<Seq<Field>, DecodeError>(fs),
    ensures
        parse_fields(repeated_field(number, payloads) + rest) == Ok::<Seq<Field>, DecodeError>(
            repeated_fields(number, payloads) + fs,
        ),
    decreases payloads.len(),
{
    if payloads.len() == 0 {
        assert(repeated_field(number, payloads) + rest =~= rest);
        assert(repeated_fields(number, payloads) + fs =~= fs);
    } else {
        let tail = payloads.drop_first();
        lemma_parse_fields_repeated(number, tail, rest, fs);
        lemma_parse_fields_bytes_field(
            number,
            payloads[0],
            repeated_field(number, tail) + rest,
            repeated_fields(number, tail) + fs,
        );
        assert(repeated_field(number, payloads) + rest =~= bytes_field(number, payloads[0]) + (
        repeated_field(number, tail) + rest));
        assert(repeated_fields(number, payloads) + fs =~= seq![
            Field { number, value: Value::Bytes(payloads[0]) },
        ] + (repeated_fields(number, tail) + fs));
    }
}

/// Appends the key of field `number` with wire type `wire`.
pub fn put_key(buf: &mut Vec<u8>, number: u32, wire: u8)
    ensures
        final(buf)@ == old(buf)@ + key_bytes(number, wire),
{
    put_varint(buf, number as u64 * 8 + wire as u64);
}

/// Appends `bytes`.
pub fn put_raw(buf: &mut Vec<u8>, bytes: &[u8])
    ensures
        final(buf)@ == old(buf)@ + bytes@,
{
    let mut i: usize = 0;
    while i < bytes.len()
        invariant
            i <= bytes@.len(),
            buf@ == old(buf)@ + bytes@.take(i as int),
        decreases bytes@.len() - i,
    {
        let ghost before = buf@;
        buf.push(bytes[i]);
        assert(before.push(bytes@[i as int]) =~= old(buf)@ + bytes@.take(i + 1));
        i = i + 1;
    }
    assert(bytes@.take(i as int) =~= bytes@);
}

/// Appends a varint field, whatever its value.
pub fn put_varint_field(buf: &mut Vec<u8>, number: u32, v: u64)
    ensures
        final(buf)@ == old(buf)@ + varint_field(number, v),
{
    put_key(buf, number, WIRE_VARINT);
    put_varint(buf, v);
    assert(buf@ =~= old(buf)@ + varint_field(number, v));
}

/// Appends a length-delimited field, whatever its payload.
pub fn put_bytes_field(buf: &mut Vec<u8>, number: u32, payload: &[u8])
    ensures
        final(buf)@ == old(buf)@ + bytes_field(number, payload@),
{
    put_key(buf, number, WIRE_BYTES);
    put_varint(buf, payload.len() as u64);
    put_raw(buf, payload);
    assert(buf@ =~= old(buf)@ + bytes_field(number, payload@));
}

/// Appends a `uint64` field of a message: nothing where it is 0.
pub fn put_uint64(buf: &mut Vec<u8>, number: u32, v: u64)
    ensures
        final(buf)@ == old(buf)@ + uint64_field(number, v),
{
    if v != 0 {
        put_varint_field(buf, number, v);
    } else {
        assert(buf@ =~= old(buf)@ + uint64_field(number, v));
    }
}

/// Appends a `bytes` or `string` field of a message: nothing where it is empty.
pub fn put_scalar_bytes(buf: &mut Vec<u8>, number: u32, payload: &[u8])
    ensures
        final(buf)@ == old(buf)@ + scalar_bytes_field(number, payload@),
{
    if payload.len() != 0 {
        put_bytes_field(buf, number, payload);
    } else {
        assert(buf@ =~= old(buf)@ + scalar_bytes_field(number, payload@));
    }
}

/// What a field carries, as read from a buffer.
#[derive(Clone, Debug, PartialEq, Eq)]
pub enum RawValue {
    Varint(u64),
    Fixed64,
    Bytes(Vec<u8>),
    Fixed32,
}

/// One field as read from a buffer.
#[derive(Clone, Debug, PartialEq, Eq)]
pub struct RawField {
    pub number: u32,
    pub value: RawValue,
}

impl View for RawValue {
    type V = Value;

    open spec fn view(&self) -> Value {
        match self {
            RawValue::Varint(v) => Value::Varint(*v),
            RawValue::Fixed64 => Value::Fixed64,
            RawValue::Bytes(b) => Value::Bytes(b@),
            RawValue::Fixed32 => Value::Fixed32,
        }
    }
}

impl View for RawField {
    type V = Field;

    open spec fn view(&self) -> Field {
        Field { number: self.number, value: self.value@ }
    }
}

/// The fields that a list of raw fields stands for.
pub open spec fn field_views(fs: Seq<RawField>) -> Seq<Field> {
    fs.map_values(|f: RawField| f@)
}

/// Reads the field that starts at `pos`; gives it with the position after it.
pub fn read_field(buf: &[u8], pos: usize) -> (r: Result<(RawField, usize), DecodeError>)
    requires
        pos <= buf@.len(),
    ensures
        match parse_field(buf@.skip(pos as int)) {
            Ok((f, n)) => r matches Ok((raw, next)) && raw@ == f && next == pos + n && next
                <= buf@.len(),
            Err(e) => r == Err::<(RawField, usize), DecodeError>(e),
        },
{
    let ghost s = buf@.skip(pos as int);
    let total: usize = buf.len();
    let (key, at) = match read_varint(buf, pos) {
        Some(p) => p,
        None => { return Err(DecodeError::InvalidVarint); },
    };
    let ghost n = (at - pos) as nat;
    let ghost rest = s.skip(n as int);
    proof {
        assert(parse_varint(s) == Some((key, n)));
        assert(rest.len() == buf@.skip(at as int).len());
        assert forall|i: int| 0 <= i < rest.len() implies rest[i] == buf@.skip(at as int)[i] by {
            assert(rest[i] == s[i + n]);
        }
        assert(rest =~= buf@.skip(at as int));
    }
    if key > u32::MAX as u64 {
        return Err(DecodeError::InvalidKey);
    }
    let wire: u64 = key % 8;
    if wire >= 6 {
        return Err(DecodeError::InvalidWireType);
    }
    let number: u32 = (key / 8) as u32;
    if number == 0 {
        return Err(DecodeError::InvalidTag);
    }
    let left: usize = total - at;
    if wire == WIRE_VARINT as u64 {
        match read_varint(buf, at) {
            Some((v, next)) => Ok((RawField { number, value: RawValue::Varint(v) }, next)),
            None => Err(DecodeError::InvalidVarint),
        }
    } else if wire == WIRE_FIXED64 as u64 {
        if left < 8 {
            Err(DecodeError::UnexpectedEnd)
        } else {
            Ok((RawField { number, value: RawValue::Fixed64 }, at + 8))
        }
    } else if wire == WIRE_BYTES as u64 {
        match read_varint(buf, at) {
            Some((len, start)) => {
                if len > (buf.len() - start) as u64 {
                    Err(DecodeError::UnexpectedEnd)
                } else {
                    let end: usize = start + len as usize;
                    let payload = slice_to_vec(slice_subrange(buf, start, end));
                    proof {
                        let m = (start - at) as nat;
                        assert(rest.subrange(m as int, m + len) =~= buf@.subrange(
                            start as int,
                            end as int,
                        ));
                    }
                    Ok((RawField { number, value: RawValue::Bytes(payload) }, end))
                }
            },
            None => Err(DecodeError::InvalidVarint),
        }
    } else if wire == WIRE_FIXED32 as u64 {
        if left < 4 {
            Err(DecodeError::UnexpectedEnd)
        } else {
            Ok((RawField { number, value: RawValue::Fixed32 }, at + 4))
        }
    } else {
        Err(DecodeError::UnsupportedGroup)
    }
}

/// Reads a whole message as its list of fields.
pub fn read_fields(buf: &[u8]) -> (r: Result<Vec<RawField>, DecodeError>)
    ensures
        match parse_fields(buf@) {
            Ok(fs) => r is Ok && field_views(r.unwrap()@) == fs,
            Err(e) => r == Err::<Vec<RawField>, DecodeError>(e),
        },
{
    let mut out: Vec<RawField> = Vec::new();
    let mut pos: usize = 0;
    proof {
        assert(buf@.skip(0) =~= buf@);
        assert(field_views(out@) =~= Seq::<Field>::empty());
    }
    while pos < buf.len()
        invariant
            pos <= buf@.len(),
            parse_fields(buf@) == match parse_fields(buf@.skip(pos as int)) {
                Ok(fs) => Ok::<Seq<Field>, DecodeError>(field_views(out@) + fs),
                Err(e) => Err(e),
            },
        decreases buf@.len() - pos,
    {
        let ghost s = buf@.skip(pos as int);
        proof {
            lemma_parse_field_len(s);
        }
        match read_field(buf, pos) {
            Err(e) => {
                return Err(e);
            },
            Ok((raw, next)) => {
                proof {
                    let n = (next - pos) as nat;
                    lemma_parse_fields_cons(s, raw@, n);
                    assert(s.skip(n as int) =~= buf@.skip(next as int));
                    let before = field_views(out@);
                    assert(field_views(out@.push(raw)) =~= before.push(raw@));
                    match parse_fields(buf@.skip(next as int)) {
                        Ok(fs) => {
                            assert(before + (seq![raw@] + fs) =~= before.push(raw@) + fs);
                        },
                        Err(e) => {},
                    }
                }
                out.push(raw);
                pos = next;
            },
        }
    }
    proof {
        assert(buf@.skip(pos as int).len() == 0);
        assert(field_views(out@) + Seq::<Field>::empty() =~= field_views(out@));
    }
    Ok(out)
}

} // verus!
