//! Hex encodings used by the wire protocol: variable-length hex blobs,
//! little-endian hex integers with the compact-target expansion, the
//! fixed-width nonce encoding and the 32-byte result encoding.

use vstd::prelude::*;

verus! {

/// Value of one hex digit character, lower or upper case; `None` for any
/// other character.
pub open spec fn hex_val(c: char) -> Option<u8> {
    if c == '0' {
        Some(0u8)
    } else if c == '1' {
        Some(1u8)
    } else if c == '2' {
        Some(2u8)
    } else if c == '3' {
        Some(3u8)
    } else if c == '4' {
        Some(4u8)
    } else if c == '5' {
        Some(5u8)
    } else if c == '6' {
        Some(6u8)
    } else if c == '7' {
        Some(7u8)
    } else if c == '8' {
        Some(8u8)
    } else if c == '9' {
        Some(9u8)
    } else if c == 'a' || c == 'A' {
        Some(10u8)
    } else if c == 'b' || c == 'B' {
        Some(11u8)
    } else if c == 'c' || c == 'C' {
        Some(12u8)
    } else if c == 'd' || c == 'D' {
        Some(13u8)
    } else if c == 'e' || c == 'E' {
        Some(14u8)
    } else if c == 'f' || c == 'F' {
        Some(15u8)
    } else {
        None
    }
}

/// Lower-case hex digit character for a value below 16.
pub open spec fn hex_char(d: u8) -> char {
    if d == 0 {
        '0'
    } else if d == 1 {
        '1'
    } else if d == 2 {
        '2'
    } else if d == 3 {
        '3'
    } else if d == 4 {
        '4'
    } else if d == 5 {
        '5'
    } else if d == 6 {
        '6'
    } else if d == 7 {
        '7'
    } else if d == 8 {
        '8'
    } else if d == 9 {
        '9'
    } else if d == 10 {
        'a'
    } else if d == 11 {
        'b'
    } else if d == 12 {
        'c'
    } else if d == 13 {
        'd'
    } else if d == 14 {
        'e'
    } else {
        'f'
    }
}

/// Bytes denoted by a hex string: two digits per byte, high nibble first.
/// `None` for odd length or any non-hex character.
pub open spec fn bytes_of_hex(s: Seq<char>) -> Option<Seq<u8>>
    decreases s.len(),
{
    if s.len() % 2 != 0 {
        None
    } else if s.len() == 0 {
        Some(Seq::empty())
    } else {
        match (hex_val(s[0]), hex_val(s[1]), bytes_of_hex(s.skip(2))) {
            (Some(h), Some(l), Some(rest)) => Some(seq![(16 * h + l) as u8] + rest),
            _ => None,
        }
    }
}

/// Lower-case hex string denoting a byte sequence, two digits per byte,
/// high nibble first.
pub open spec fn hex_of_bytes(bs: Seq<u8>) -> Seq<char>
    decreases bs.len(),
{
    if bs.len() == 0 {
        Seq::empty()
    } else {
        seq![hex_char(bs[0] / 16), hex_char(bs[0] % 16)] + hex_of_bytes(bs.skip(1))
    }
}

/// Value of a byte sequence read as a little-endian integer.
pub open spec fn le_value(bs: Seq<u8>) -> nat
    decreases bs.len(),
{
    if bs.len() == 0 {
        0
    } else {
        (bs[0] + 256 * le_value(bs.skip(1))) as nat
    }
}

/// 256 to the n-th power.
pub open spec fn pow256(n: nat) -> nat
    decreases n,
{
    if n == 0 {
        1
    } else {
        256 * pow256((n - 1) as nat)
    }
}

/// The little-endian bytes of a 32-bit value, least significant first.
pub open spec fn le4_bytes(n: u32) -> Seq<u8> {
    seq![
        (n & 0xff) as u8,
        ((n >> 8) & 0xff) as u8,
        ((n >> 16) & 0xff) as u8,
        ((n >> 24) & 0xff) as u8,
    ]
}

/// An unpadded little-endian hex integer of up to 64 bits: the bytes it
/// denotes, read little-endian. `None` when the hex is malformed, empty or
/// longer than 16 digits.
pub open spec fn hex_le_u64(s: Seq<char>) -> Option<u64> {
    match bytes_of_hex(s) {
        Some(bs) => if 1 <= bs.len() && bs.len() <= 8 {
            Some(le_value(bs) as u64)
        } else {
            None
        },
        None => None,
    }
}

/// The decoded 64-bit target for a hex string: the little-endian value,
/// with the low 32 bits replicated into the high 32 bits when the hex is in
/// the compact format (8 digits or fewer).
pub open spec fn target_of_hex(s: Seq<char>) -> Option<u64> {
    match hex_le_u64(s) {
        Some(v) => if s.len() <= 8 {
            Some(v | (v << 32))
        } else {
            Some(v)
        },
        None => None,
    }
}

/// Hex digit value of one character, or `None` for a non-hex character.
pub fn hex_val_of(c: char) -> (r: Option<u8>)
    ensures
        r == hex_val(c),
{
    if c == '0' {
        Some(0u8)
    } else if c == '1' {
        Some(1u8)
    } else if c == '2' {
        Some(2u8)
    } else if c == '3' {
        Some(3u8)
    } else if c == '4' {
        Some(4u8)
    } else if c == '5' {
        Some(5u8)
    } else if c == '6' {
        Some(6u8)
    } else if c == '7' {
        Some(7u8)
    } else if c == '8' {
        Some(8u8)
    } else if c == '9' {
        Some(9u8)
    } else if c == 'a' || c == 'A' {
        Some(10u8)
    } else if c == 'b' || c == 'B' {
        Some(11u8)
    } else if c == 'c' || c == 'C' {
        Some(12u8)
    } else if c == 'd' || c == 'D' {
        Some(13u8)
    } else if c == 'e' || c == 'E' {
        Some(14u8)
    } else if c == 'f' || c == 'F' {
        Some(15u8)
    } else {
        None
    }
}

/// Splitting a hex string after an even number of digits splits its byte
/// denotation.
pub proof fn lemma_bytes_of_hex_concat(a: Seq<char>, b: Seq<char>)
    requires
        a.len() % 2 == 0,
    ensures
        bytes_of_hex(a + b) == match (bytes_of_hex(a), bytes_of_hex(b)) {
            (Some(x), Some(y)) => Some(x + y),
            _ => None::<Seq<u8>>,
        },
    decreases a.len(),
{
    if a.len() == 0 {
        assert(a + b =~= b);
        if bytes_of_hex(b) is Some {
            assert(Seq::<u8>::empty() + bytes_of_hex(b).unwrap() =~= bytes_of_hex(b).unwrap());
        }
    } else {
        let ab = a + b;
        assert(ab.len() % 2 == a.len() % 2 + b.len() % 2 || ab.len() % 2 == (a.len() % 2 + b.len() % 2) % 2);
        assert(ab[0] == a[0] && ab[1] == a[1]);
        assert(ab.skip(2) =~= a.skip(2) + b);
        lemma_bytes_of_hex_concat(a.skip(2), b);
        match (hex_val(a[0]), hex_val(a[1]), bytes_of_hex(a.skip(2)), bytes_of_hex(b)) {
            (Some(h), Some(l), Some(rest), Some(y)) => {
                assert(seq![(16 * h + l) as u8] + (rest + y) =~= (seq![(16 * h + l) as u8] + rest)
                    + y);
            },
            _ => {},
        }
    }
}

/// A little-endian byte value is below 256 to the length.
pub proof fn lemma_le_value_bound(bs: Seq<u8>)
    ensures
        le_value(bs) < pow256(bs.len()),
    decreases bs.len(),
{
    if bs.len() == 0 {
    } else {
        lemma_le_value_bound(bs.skip(1));
        let rest = le_value(bs.skip(1)) as int;
        let p = pow256((bs.len() - 1) as nat) as int;
        assert(rest <= p - 1);
        assert(256 * rest <= 256 * (p - 1)) by (nonlinear_arith)
            requires
                rest <= p - 1,
        ;
    }
}

/// The hex string of a byte sequence has two characters per byte.
pub proof fn lemma_hex_of_bytes_len(bs: Seq<u8>)
    ensures
        hex_of_bytes(bs).len() == 2 * bs.len(),
    decreases bs.len(),
{
    if bs.len() > 0 {
        lemma_hex_of_bytes_len(bs.skip(1));
    }
}

/// Splitting a byte sequence splits its hex string.
pub proof fn lemma_hex_of_bytes_concat(a: Seq<u8>, b: Seq<u8>)
    ensures
        hex_of_bytes(a + b) == hex_of_bytes(a) + hex_of_bytes(b),
    decreases a.len(),
{
    if a.len() == 0 {
        assert(a + b =~= b);
        assert(hex_of_bytes(a) + hex_of_bytes(b) =~= hex_of_bytes(b));
    } else {
        let ab = a + b;
        assert(ab.skip(1) =~= a.skip(1) + b);
        lemma_hex_of_bytes_concat(a.skip(1), b);
        assert(seq![hex_char(a[0] / 16), hex_char(a[0] % 16)] + (hex_of_bytes(a.skip(1))
            + hex_of_bytes(b)) =~= (seq![hex_char(a[0] / 16), hex_char(a[0] % 16)] + hex_of_bytes(
            a.skip(1),
        )) + hex_of_bytes(b));
    }
}

/// Encoding a byte sequence as hex and decoding it again gives the bytes
/// back: the hex codec round-trips on every byte sequence.
pub proof fn lemma_hex_round_trip(bs: Seq<u8>)
    ensures
        bytes_of_hex(hex_of_bytes(bs)) == Some(bs),
    decreases bs.len(),
{
    lemma_hex_of_bytes_len(bs);
    if bs.len() == 0 {
        assert(hex_of_bytes(bs) =~= Seq::<char>::empty());
        assert(bytes_of_hex(hex_of_bytes(bs)).unwrap() =~= bs);
    } else {
        let s = hex_of_bytes(bs);
        let b0 = bs[0];
        assert(s[0] == hex_char(b0 / 16) && s[1] == hex_char(b0 % 16));
        assert(hex_val(hex_char(b0 / 16)) == Some((b0 / 16) as u8));
        assert(hex_val(hex_char(b0 % 16)) == Some((b0 % 16) as u8));
        assert(16 * (b0 / 16) + (b0 % 16) == b0) by (nonlinear_arith);
        assert(s.skip(2) =~= hex_of_bytes(bs.skip(1)));
        lemma_hex_round_trip(bs.skip(1));
        assert(bytes_of_hex(s).unwrap() =~= bs);
    }
}

/// The little-endian bytes of a 32-bit value denote that value.
pub proof fn lemma_le4_value(n: u32)
    ensures
        le_value(le4_bytes(n)) == n,
{
    let bs = le4_bytes(n);
    reveal_with_fuel(le_value, 6);
    assert(n & 0xff < 256 && (n >> 8) & 0xff < 256 && (n >> 16) & 0xff < 256 && (n >> 24) & 0xff
        < 256) by (bit_vector);
    assert(bs.skip(1) =~= seq![((n >> 8) & 0xff) as u8, ((n >> 16) & 0xff) as u8, ((n >> 24) & 0xff) as u8]);
    assert(bs.skip(1).skip(1) =~= seq![((n >> 16) & 0xff) as u8, ((n >> 24) & 0xff) as u8]);
    assert(bs.skip(1).skip(1).skip(1) =~= seq![((n >> 24) & 0xff) as u8]);
    assert(bs.skip(1).skip(1).skip(1).skip(1) =~= Seq::<u8>::empty());
    assert(((n & 0xff) as u8) == (n & 0xff));
    assert((((n >> 8) & 0xff) as u8) == ((n >> 8) & 0xff));
    assert((((n >> 16) & 0xff) as u8) == ((n >> 16) & 0xff));
    assert((((n >> 24) & 0xff) as u8) == ((n >> 24) & 0xff));
    assert(le_value(bs.skip(1).skip(1).skip(1)) == ((n >> 24) & 0xff));
    assert(le_value(bs.skip(1).skip(1)) == ((n >> 16) & 0xff) + 256 * (((n >> 24) & 0xff) as int));
    assert(le_value(bs.skip(1)) == ((n >> 8) & 0xff) + 256 * ((((n >> 16) & 0xff) + 256 * (((n
        >> 24) & 0xff) as int))));
    assert(le_value(bs) == (n & 0xff) + 256 * ((((n >> 8) & 0xff) + 256 * ((((n >> 16) & 0xff)
        + 256 * (((n >> 24) & 0xff) as int))))));
    assert(n == (n & 0xff) + 256 * ((n >> 8) & 0xff) + 65536 * ((n >> 16) & 0xff) + 16777216 * ((n
        >> 24) & 0xff)) by (bit_vector);
}

/// Decode a hex string of even length into the bytes it denotes; `None` on
/// odd length or any non-hex character.
pub fn hex_to_varbyte(s: &str) -> (r: Option<Vec<u8>>)
    ensures
        match r {
            Some(v) => bytes_of_hex(s@) == Some(v@),
            None => bytes_of_hex(s@) is None,
        },
{
    let n = s.unicode_len();
    if n % 2 != 0 {
        return None;
    }
    let mut out: Vec<u8> = Vec::new();
    let mut i: usize = 0;
    while i < n
        invariant
            i % 2 == 0,
            i <= n,
            n == s@.len(),
            n % 2 == 0,
            bytes_of_hex(s@.take(i as int)) == Some(out@),
        decreases n - i,
    {
        let c0 = s.get_char(i);
        let c1 = s.get_char(i + 1);
        let h = hex_val_of(c0);
        let l = hex_val_of(c1);
        proof {
            lemma_bytes_of_hex_concat(s@.take(i as int), s@.subrange(i as int, i + 2));
            assert(s@.take(i as int) + s@.subrange(i as int, i + 2) =~= s@.take(i + 2));
            assert(s@.subrange(i as int, i + 2).skip(2) =~= Seq::<char>::empty());
        }
        match (h, l) {
            (Some(h), Some(l)) => {
                let b: u8 = 16 * h + l;
                out.push(b);
                proof {
                    reveal_with_fuel(bytes_of_hex, 3);
                    let sub = s@.subrange(i as int, i + 2);
                    assert(sub.len() == 2 && sub[0] == c0 && sub[1] == c1);
                    assert(seq![b] + Seq::<u8>::empty() =~= seq![b]);
                    assert(bytes_of_hex(sub) == Some(seq![b]));
                    assert(bytes_of_hex(s@.take(i as int)).unwrap() + seq![b] =~= out@);
                }
            },
            _ => {
                proof {
                    assert(bytes_of_hex(s@.subrange(i as int, i + 2)) is None);
                    lemma_bytes_of_hex_concat(s@.take(i + 2), s@.skip(i + 2));
                    assert(s@.take(i + 2) + s@.skip(i + 2) =~= s@);
                }
                return None;
            },
        }
        i += 2;
    }
    proof {
        assert(s@.take(n as int) =~= s@);
    }
    Some(out)
}

/// Decode an unpadded little-endian hex integer of up to 64 bits; returns
/// the value and the number of hex characters read. `None` when the hex is
/// malformed, empty or longer than 16 digits.
pub fn hex64le_to_int(s: &str) -> (r: Option<(u64, usize)>)
    ensures
        match r {
            Some((v, n)) => n == s@.len() && hex_le_u64(s@) == Some(v),
            None => hex_le_u64(s@) is None,
        },
{
    let bs = match hex_to_varbyte(s) {
        Some(bs) => bs,
        None => {
            return None;
        },
    };
    if bs.len() == 0 || bs.len() > 8 {
        return None;
    }
    let mut val: u64 = 0;
    let mut i: usize = bs.len();
    proof {
        assert(bs@.skip(i as int) =~= Seq::<u8>::empty());
    }
    while i > 0
        invariant
            i <= bs.len(),
            bs.len() <= 8,
            val == le_value(bs@.skip(i as int)),
        decreases i,
    {
        proof {
            lemma_le_value_bound(bs@.skip(i as int));
            lemma_pow256_mono((bs@.len() - i) as nat, 7);
            assert(pow256(7) == 0x100000000000000) by {
                reveal_with_fuel(pow256, 8);
            }
            assert(bs@.skip(i - 1)[0] == bs@[i - 1]);
            assert(bs@.skip(i - 1).skip(1) =~= bs@.skip(i as int));
        }
        let b = bs[i - 1];
        val = val * 256 + (b as u64);
        i -= 1;
    }
    proof {
        assert(bs@.skip(0) =~= bs@);
    }
    let n = s.unicode_len();
    Some((val, n))
}

/// 256 to the power is monotone in the exponent.
pub proof fn lemma_pow256_mono(a: nat, b: nat)
    requires
        a <= b,
    ensures
        pow256(a) <= pow256(b),
    decreases b,
{
    if a < b && b > 0 {
        lemma_pow256_mono(a, (b - 1) as nat);
        lemma_pow256_pos((b - 1) as nat);
        let p = pow256((b - 1) as nat) as int;
        assert(p <= 256 * p) by (nonlinear_arith)
            requires
                p >= 1,
        ;
    }
}

/// 256 to any power is positive.
pub proof fn lemma_pow256_pos(n: nat)
    ensures
        pow256(n) >= 1,
    decreases n,
{
    if n > 0 {
        lemma_pow256_pos((n - 1) as nat);
        let p = pow256((n - 1) as nat) as int;
        assert(256 * p >= p) by (nonlinear_arith)
            requires
                p >= 1,
        ;
    }
}

/// Decode a target hex string: the little-endian value, expanded from the
/// compact format (8 hex digits or fewer) by replicating the low 32 bits
/// into the high 32 bits.
pub fn deserialize_target(s: &str) -> (r: Option<u64>)
    ensures
        match r {
            Some(t) => target_of_hex(s@) == Some(t),
            None => target_of_hex(s@) is None,
        },
{
    match hex64le_to_int(s) {
        Some((v, n)) => {
            if n <= 8 {
                Some(v | (v << 32u64))
            } else {
                Some(v)
            }
        },
        None => None,
    }
}

/// Lower-case hex digit as a one-character string slice.
fn hex_char_str(d: u8) -> (r: &'static str)
    requires
        d < 16,
    ensures
        r@ =~= seq![hex_char(d)],
{
    proof {
        reveal_strlit("0");
        reveal_strlit("1");
        reveal_strlit("2");
        reveal_strlit("3");
        reveal_strlit("4");
        reveal_strlit("5");
        reveal_strlit("6");
        reveal_strlit("7");
        reveal_strlit("8");
        reveal_strlit("9");
        reveal_strlit("a");
        reveal_strlit("b");
        reveal_strlit("c");
        reveal_strlit("d");
        reveal_strlit("e");
        reveal_strlit("f");
    }
    if d == 0 {
        "0"
    } else if d == 1 {
        "1"
    } else if d == 2 {
        "2"
    } else if d == 3 {
        "3"
    } else if d == 4 {
        "4"
    } else if d == 5 {
        "5"
    } else if d == 6 {
        "6"
    } else if d == 7 {
        "7"
    } else if d == 8 {
        "8"
    } else if d == 9 {
        "9"
    } else if d == 10 {
        "a"
    } else if d == 11 {
        "b"
    } else if d == 12 {
        "c"
    } else if d == 13 {
        "d"
    } else if d == 14 {
        "e"
    } else {
        "f"
    }
}

/// Encode a byte sequence as lower-case hex, two digits per byte, high
/// nibble first.
pub fn bytes_to_hex(bs: &[u8]) -> (r: String)
    ensures
        r@ == hex_of_bytes(bs@),
        r@.len() == 2 * bs@.len(),
{
    let mut out = String::new();
    let mut i: usize = 0;
    proof {
        assert(bs@.take(0) =~= Seq::<u8>::empty());
    }
    while i < bs.len()
        invariant
            i <= bs@.len(),
            out@ == hex_of_bytes(bs@.take(i as int)),
        decreases bs@.len() - i,
    {
        let b = bs[i];
        out.append(hex_char_str(b / 16));
        out.append(hex_char_str(b % 16));
        proof {
            reveal_with_fuel(hex_of_bytes, 3);
            lemma_hex_of_bytes_concat(bs@.take(i as int), seq![b]);
            assert(bs@.take(i as int) + seq![b] =~= bs@.take(i + 1));
            assert(seq![b].skip(1) =~= Seq::<u8>::empty());
            assert(hex_of_bytes(seq![b]) =~= seq![hex_char(b / 16), hex_char(b % 16)]);
            assert(out@ =~= hex_of_bytes(bs@.take(i as int)) + hex_of_bytes(seq![b]));
        }
        i += 1;
    }
    proof {
        assert(bs@.take(bs@.len() as int) =~= bs@);
        lemma_hex_of_bytes_len(bs@);
    }
    out
}

/// Encode a 32-bit nonce as its fixed-width wire form: exactly 8 hex
/// characters, zero padded, little-endian byte order.
pub fn u32_to_hex_padded(n: u32) -> (r: String)
    ensures
        r@ == hex_of_bytes(le4_bytes(n)),
        r@.len() == 8,
{
    proof {
        assert(n & 0xff < 256 && (n >> 8) & 0xff < 256 && (n >> 16) & 0xff < 256 && (n >> 24)
            & 0xff < 256) by (bit_vector);
    }
    let mut bytes: Vec<u8> = Vec::new();
    bytes.push((n & 0xff) as u8);
    bytes.push(((n >> 8) & 0xff) as u8);
    bytes.push(((n >> 16) & 0xff) as u8);
    bytes.push(((n >> 24) & 0xff) as u8);
    proof {
        assert(bytes@ =~= le4_bytes(n));
    }
    bytes_to_hex(bytes.as_slice())
}

/// Encode a 32-byte result hash as its wire form: exactly 64 hex
/// characters, byte order preserved.
pub fn byte32_to_hex(b: &[u8; 32]) -> (r: String)
    ensures
        r@ == hex_of_bytes(b@),
        r@.len() == 64,
{
    bytes_to_hex(b.as_slice())
}

/// Decode the fixed-width nonce wire form back to its 32-bit value; `None`
/// unless the input is exactly 8 hex characters denoting a 32-bit value.
pub fn hex_padded_to_u32(s: &str) -> (r: Option<u32>)
    ensures
        match r {
            Some(x) => s@.len() == 8 && hex_le_u64(s@) == Some(x as u64),
            None => !(hex_le_u64(s@) matches Some(v) && s@.len() == 8 && v <= u32::MAX),
        },
{
    match hex64le_to_int(s) {
        Some((v, n)) => {
            if n == 8 && v <= 0xffff_ffff {
                Some(v as u32)
            } else {
                None
            }
        },
        None => None,
    }
}

/// Encoding a 32-bit nonce and decoding the hex again gives the nonce
/// back, and the encoded form is always exactly 8 hex characters.
pub proof fn lemma_nonce_round_trip(n: u32)
    ensures
        hex_of_bytes(le4_bytes(n)).len() == 8,
        hex_le_u64(hex_of_bytes(le4_bytes(n))) == Some(n as u64),
{
    lemma_hex_of_bytes_len(le4_bytes(n));
    lemma_hex_round_trip(le4_bytes(n));
    lemma_le4_value(n);
}

/// Encoding a 32-byte result and decoding the hex again gives the bytes
/// back, and the encoded form is always exactly 64 hex characters.
pub proof fn lemma_result_round_trip(bs: Seq<u8>)
    requires
        bs.len() == 32,
    ensures
        hex_of_bytes(bs).len() == 64,
        bytes_of_hex(hex_of_bytes(bs)) == Some(bs),
{
    lemma_hex_of_bytes_len(bs);
    lemma_hex_round_trip(bs);
}

} // verus!


