//! Base-128 variable-length integers, the number format of the protobuf wire.

use vstd::prelude::*;

verus! {

/// The bytes of `v` in base 128, least significant group first; every byte
/// but the last has its high bit set.
pub open spec fn varint_bytes(v: nat) -> Seq<u8>
    decreases v,
{
    if v < 0x80 {
        seq![v as u8]
    } else {
        seq![(v % 0x80 + 0x80) as u8] + varint_bytes(v / 0x80)
    }
}

/// The base-128 number that `s` starts with, and how many bytes it takes:
/// the bytes up to and including the first one without the high bit.
/// `None` where `s` ends before such a byte.
pub open spec fn leb128(s: Seq<u8>) -> Option<(nat, nat)>
    decreases s.len(),
{
    if s.len() == 0 {
        None
    } else if s[0] < 0x80 {
        Some((s[0] as nat, 1nat))
    } else {
        match leb128(s.drop_first()) {
            Some((v, n)) => Some((((s[0] - 0x80) + 0x80 * v) as nat, n + 1)),
            None => None,
        }
    }
}

/// The varint that `s` starts with: a base-128 number of at most ten bytes
/// whose value fits 64 bits. Encodings longer than needed are accepted.
pub open spec fn parse_varint(s: Seq<u8>) -> Option<(u64, nat)> {
    match leb128(s) {
        Some((v, n)) => if n <= 10 && v <= u64::MAX {
            Some((v as u64, n))
        } else {
            None
        },
        None => None,
    }
}

/// 128 to the power `k`.
pub open spec fn pow128(k: nat) -> nat
    decreases k,
{
    if k == 0 {
        1
    } else {
        0x80 * pow128((k - 1) as nat)
    }
}

/// What `leb128` gives for a sequence whose first `k` bytes, all with the high
/// bit set, carry `acc`, when `rest` is what it gives for the bytes after them.
pub open spec fn resume(acc: nat, k: nat, rest: Option<(nat, nat)>) -> Option<(nat, nat)> {
    match rest {
        Some((v, n)) => Some((acc + pow128(k) * v, n + k)),
        None => None,
    }
}

proof fn lemma_pow128_values()
    ensures
        pow128(0) == 1,
        pow128(1) == 0x80,
        pow128(2) == 0x4000,
        pow128(3) == 0x20_0000,
        pow128(4) == 0x1000_0000,
        pow128(5) == 0x8_0000_0000,
        pow128(6) == 0x400_0000_0000,
        pow128(7) == 0x2_0000_0000_0000,
        pow128(8) == 0x100_0000_0000_0000,
        pow128(9) == 0x8000_0000_0000_0000,
{
    reveal_with_fuel(pow128, 11);
}

/// A varint takes at least one byte and no more than there are.
pub proof fn lemma_leb128_len(s: Seq<u8>)
    ensures
        leb128(s) matches Some((v, n)) ==> 1 <= n <= s.len(),
    decreases s.len(),
{
    if s.len() > 0 && s[0] >= 0x80 {
        lemma_leb128_len(s.drop_first());
    }
}

/// Only the bytes of the number itself count: what follows them changes nothing.
pub proof fn lemma_leb128_prefix(s: Seq<u8>, t: Seq<u8>)
    requires
        leb128(s) is Some,
    ensures
        leb128(s + t) == leb128(s),
    decreases s.len(),
{
    if s[0] >= 0x80 {
        assert((s + t).drop_first() =~= s.drop_first() + t);
        lemma_leb128_prefix(s.drop_first(), t);
    }
}

/// Reading back what `varint_bytes` wrote gives the number and its length.
pub proof fn lemma_leb128_of_varint_bytes(v: nat)
    ensures
        leb128(varint_bytes(v)) == Some((v, varint_bytes(v).len())),
    decreases v,
{
    if v >= 0x80 {
        let b = varint_bytes(v);
        lemma_leb128_of_varint_bytes(v / 0x80);
        assert(b.drop_first() =~= varint_bytes(v / 0x80));
    }
}

/// A number below `128^k` takes at most `k` bytes.
proof fn lemma_varint_bytes_len_bound(v: nat, k: nat)
    requires
        k >= 1,
        v < pow128(k),
    ensures
        1 <= varint_bytes(v).len() <= k,
    decreases k,
{
    reveal_with_fuel(pow128, 2);
    if v >= 0x80 {
        if k == 1 {
        } else {
            lemma_varint_bytes_len_bound(v / 0x80, (k - 1) as nat);
        }
    }
}

/// A 64-bit number takes between one and ten bytes.
pub proof fn lemma_varint_bytes_len(v: nat)
    ensures
        1 <= varint_bytes(v).len(),
        v <= u64::MAX ==> varint_bytes(v).len() <= 10,
{
    lemma_pow128_values();
    reveal_with_fuel(pow128, 2);
    if v <= u64::MAX {
        assert(pow128(10) == 0x80 * pow128(9));
        lemma_varint_bytes_len_bound(v, 10);
    } else {
        lemma_leb128_of_varint_bytes(v);
        lemma_leb128_len(varint_bytes(v));
    }
}

/// Writing a 64-bit number and reading it back gives the number, whatever
/// bytes follow it.
pub proof fn lemma_varint_round_trip(v: u64, rest: Seq<u8>)
    ensures
        parse_varint(varint_bytes(v as nat) + rest) == Some((v, varint_bytes(v as nat).len())),
{
    lemma_leb128_of_varint_bytes(v as nat);
    lemma_leb128_prefix(varint_bytes(v as nat), rest);
    lemma_varint_bytes_len(v as nat);
}

/// Appends `value` to `buf` as a varint.
pub fn put_varint(buf: &mut Vec<u8>, value: u64)
    ensures
        final(buf)@ == old(buf)@ + varint_bytes(value as nat),
{
    let mut v: u64 = value;
    while v >= 0x80
        invariant
            old(buf)@ + varint_bytes(value as nat) == buf@ + varint_bytes(v as nat),
        decreases v,
    {
        let ghost before = buf@;
        let b: u8 = (v % 0x80 + 0x80) as u8;
        buf.push(b);
        proof {
            assert(before + varint_bytes(v as nat) =~= before.push(b) + varint_bytes(
                (v / 0x80) as nat,
            ));
        }
        v = v / 0x80;
    }
    let ghost before = buf@;
    buf.push(v as u8);
    proof {
        assert(before + varint_bytes(v as nat) =~= before.push(v as u8));
    }
}

/// Reads the varint that starts at `pos`. Gives the number and the position
/// after it, or `None` where no varint starts there.
pub fn read_varint(buf: &[u8], pos: usize) -> (r: Option<(u64, usize)>)
    requires
        pos <= buf@.len(),
    ensures
        match parse_varint(buf@.skip(pos as int)) {
            Some((v, n)) => r == Some((v, (pos + n) as usize)) && pos + n <= buf@.len(),
            None => r is None,
        },
{
    let ghost s = buf@.skip(pos as int);
    let mut acc: u64 = 0;
    let mut mult: u64 = 1;
    let mut k: usize = 0;
    proof {
        lemma_pow128_values();
        assert(s.skip(0) =~= s);
        lemma_leb128_len(s);
    }
    while k < 10 && k < buf.len() - pos
        invariant
            pos <= buf@.len(),
            s == buf@.skip(pos as int),
            k <= 10,
            pos + k <= buf@.len(),
            k <= 9 ==> mult == pow128(k as nat),
            k <= 9 ==> acc < mult,
            k <= 9 ==> leb128(s) == resume(acc as nat, k as nat, leb128(s.skip(k as int))),
            k == 10 ==> parse_varint(s) is None,
        decreases 10 - k,
    {
        let byte: u8 = buf[pos + k];
        let ghost tail = s.skip(k as int);
        proof {
            lemma_pow128_values();
            reveal_with_fuel(pow128, 2);
            assert(tail[0] == byte);
            assert(tail.drop_first() =~= s.skip(k + 1));
            lemma_leb128_len(tail.drop_first());
            lemma_leb128_len(s);
        }
        if byte < 0x80 {
            proof {
                assert(leb128(tail) == Some((byte as nat, 1nat)));
                assert(leb128(s) == Some(((acc + pow128(k as nat) * byte) as nat, (k + 1) as nat)));
                assert(k <= 8 ==> pow128(k as nat) * byte <= pow128(k as nat) * 0x7f)
                    by (nonlinear_arith)
                    requires
                        byte <= 0x7f,
                ;
                assert(byte < 2 ==> pow128(k as nat) * byte <= pow128(k as nat))
                    by (nonlinear_arith);
                assert(byte >= 2 ==> pow128(k as nat) * byte >= pow128(k as nat) * 2)
                    by (nonlinear_arith);
            }
            if k == 9 && byte >= 2 {
                return None;
            }
            let value: u64 = acc + mult * (byte as u64);
            return Some((value, pos + k + 1));
        }
        proof {
            let low = (byte - 0x80) as nat;
            assert(leb128(tail) == match leb128(s.skip(k + 1)) {
                Some((v, n)) => Some(((low + 0x80 * v) as nat, n + 1)),
                None => None,
            });
            assert(pow128(k as nat) * low <= pow128(k as nat) * 0x7f) by (nonlinear_arith)
                requires
                    low <= 0x7f,
            ;
            if k <= 8 {
                assert(pow128((k + 1) as nat) == 0x80 * pow128(k as nat));
                match leb128(s.skip(k + 1)) {
                    Some((v, n)) => {
                        assert(pow128(k as nat) * (low + 0x80 * v) == pow128(k as nat) * low + (0x80
                            * pow128(k as nat)) * v) by (nonlinear_arith);
                    },
                    None => {},
                }
            } else {
                // An eleventh byte would be needed.
                match leb128(s.skip(k + 1)) {
                    Some((v, n)) => {
                        assert(n >= 1);
                    },
                    None => {},
                }
            }
        }
        if k < 9 {
            acc = acc + mult * ((byte - 0x80) as u64);
            mult = mult * 0x80;
        }
        k = k + 1;
    }
    proof {
        if k < 10 {
            // The buffer ends inside the number.
            assert(s.skip(k as int).len() == 0);
        }
    }
    None
}

} // verus!
