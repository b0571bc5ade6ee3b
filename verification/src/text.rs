//! Byte-string utilities the registry works with: ASCII case folding and
//! hexadecimal encoding and decoding. Content identifiers cross the system
//! boundary as hex strings, optionally `0x`-prefixed; internally they are
//! raw bytes.

use vstd::prelude::*;

verus! {

/// ASCII uppercase of one byte: lowercase letters are folded, all other
/// bytes are unchanged.
pub open spec fn upper_byte(b: u8) -> u8 {
    if 97 <= b && b <= 122 {
        (b - 32) as u8
    } else {
        b
    }
}

/// ASCII lowercase of one byte: uppercase letters are folded, all other
/// bytes are unchanged.
pub open spec fn lower_byte(b: u8) -> u8 {
    if 65 <= b && b <= 90 {
        (b + 32) as u8
    } else {
        b
    }
}

/// ASCII uppercase of a byte string.
pub open spec fn upper_seq(s: Seq<u8>) -> Seq<u8> {
    Seq::new(s.len(), |i: int| upper_byte(s[i]))
}

/// ASCII lowercase of a byte string.
pub open spec fn lower_seq(s: Seq<u8>) -> Seq<u8> {
    Seq::new(s.len(), |i: int| lower_byte(s[i]))
}

/// ASCII uppercase, byte for byte.
pub fn to_upper_ascii(s: &Vec<u8>) -> (r: Vec<u8>)
    ensures
        r@ == upper_seq(s@),
{
    let mut out: Vec<u8> = Vec::new();
    let mut i: usize = 0;
    while i < s.len()
        invariant
            i <= s@.len(),
            out@.len() == i,
            forall|j: int| 0 <= j < i ==> out@[j] == upper_byte(s@[j]),
        decreases s@.len() - i,
    {
        let b = s[i];
        if 97 <= b && b <= 122 {
            out.push(b - 32);
        } else {
            out.push(b);
        }
        i = i + 1;
    }
    proof {
        assert(out@ =~= upper_seq(s@));
    }
    out
}

/// ASCII lowercase, byte for byte.
pub fn to_lower_ascii(s: &Vec<u8>) -> (r: Vec<u8>)
    ensures
        r@ == lower_seq(s@),
{
    let mut out: Vec<u8> = Vec::new();
    let mut i: usize = 0;
    while i < s.len()
        invariant
            i <= s@.len(),
            out@.len() == i,
            forall|j: int| 0 <= j < i ==> out@[j] == lower_byte(s@[j]),
        decreases s@.len() - i,
    {
        let b = s[i];
        if 65 <= b && b <= 90 {
            out.push(b + 32);
        } else {
            out.push(b);
        }
        i = i + 1;
    }
    proof {
        assert(out@ =~= lower_seq(s@));
    }
    out
}

/// Two byte strings with the same ASCII uppercase have the same ASCII
/// lowercase as well.
pub proof fn lemma_lower_of_case_variant(s: Seq<u8>, n: Seq<u8>)
    requires
        upper_seq(s) == n,
    ensures
        lower_seq(s) == lower_seq(n),
{
    assert forall|i: int| 0 <= i < s.len() implies lower_seq(s)[i] == lower_seq(n)[i] by {
        assert(n[i] == upper_byte(s[i]));
    }
    assert(lower_seq(s) =~= lower_seq(n));
}

/// Whether a byte is an ASCII hexadecimal digit (either letter case).
pub open spec fn is_hex_digit(b: u8) -> bool {
    (48 <= b && b <= 57) || (97 <= b && b <= 102) || (65 <= b && b <= 70)
}

/// The numeric value of an ASCII hexadecimal digit.
pub open spec fn hex_val(b: u8) -> u8
    recommends
        is_hex_digit(b),
{
    if 48 <= b && b <= 57 {
        (b - 48) as u8
    } else if 97 <= b && b <= 102 {
        (b - 87) as u8
    } else {
        (b - 55) as u8
    }
}

/// The lowercase ASCII digit for a value below 16.
pub open spec fn hex_digit_lower(v: u8) -> u8
    recommends
        v < 16,
{
    if v < 10 {
        (v + 48) as u8
    } else {
        (v + 87) as u8
    }
}

/// Whether every byte of a string is an ASCII hexadecimal digit.
pub open spec fn all_hex_digits(s: Seq<u8>) -> bool {
    forall|i: int| 0 <= i < s.len() ==> is_hex_digit(s[i])
}

/// Lowercase hexadecimal encoding of a byte string: two digits for each
/// byte, high nibble first.
pub open spec fn hex_encoded(bs: Seq<u8>) -> Seq<u8> {
    Seq::new(
        2 * bs.len(),
        |i: int|
            if i % 2 == 0 {
                hex_digit_lower(bs[i / 2] / 16)
            } else {
                hex_digit_lower(bs[i / 2] % 16)
            },
    )
}

/// The bytes denoted by a string of hexadecimal digits of even length.
pub open spec fn hex_decoded(s: Seq<u8>) -> Seq<u8>
    recommends
        s.len() % 2 == 0,
        all_hex_digits(s),
{
    Seq::new(
        s.len() / 2,
        |i: int| (16 * (hex_val(s[2 * i]) as int) + (hex_val(s[2 * i + 1]) as int)) as u8,
    )
}

/// Lowercase hexadecimal encoding of a byte string.
pub fn hex_encode(bs: &Vec<u8>) -> (r: Vec<u8>)
    ensures
        r@ == hex_encoded(bs@),
{
    let mut out: Vec<u8> = Vec::new();
    let mut i: usize = 0;
    while i < bs.len()
        invariant
            i <= bs@.len(),
            out@.len() == 2 * i,
            forall|j: int| 0 <= j < 2 * i ==> out@[j] == hex_encoded(bs@)[j],
        decreases bs@.len() - i,
    {
        let b = bs[i];
        let hi = b / 16;
        let lo = b % 16;
        out.push(if hi < 10 { hi + 48 } else { hi + 87 });
        out.push(if lo < 10 { lo + 48 } else { lo + 87 });
        i = i + 1;
    }
    proof {
        assert(out@ =~= hex_encoded(bs@));
    }
    out
}

/// The numeric value of a hexadecimal digit byte, or `None` for any other
/// byte.
pub fn hex_digit_value(b: u8) -> (r: Option<u8>)
    ensures
        (r is Some) <==> is_hex_digit(b),
        r matches Some(v) ==> v == hex_val(b) && v < 16,
{
    if 48 <= b && b <= 57 {
        Some(b - 48)
    } else if 97 <= b && b <= 102 {
        Some(b - 87)
    } else if 65 <= b && b <= 70 {
        Some(b - 55)
    } else {
        None
    }
}

/// Decodes a string of hexadecimal digits into bytes. Returns `None` when
/// the length is odd or any byte is not a hexadecimal digit.
pub fn hex_decode(s: &Vec<u8>) -> (r: Option<Vec<u8>>)
    ensures
        (r is Some) <==> (s@.len() % 2 == 0 && all_hex_digits(s@)),
        r matches Some(v) ==> v@ == hex_decoded(s@) && v@.len() * 2 == s@.len(),
{
    if s.len() % 2 != 0 {
        return None;
    }
    let mut out: Vec<u8> = Vec::new();
    let mut i: usize = 0;
    while i < s.len() / 2
        invariant
            s@.len() % 2 == 0,
            i <= s@.len() / 2,
            out@.len() == i,
            forall|j: int| 0 <= j < 2 * i ==> is_hex_digit(s@[j]),
            forall|j: int| 0 <= j < i ==> out@[j] == hex_decoded(s@)[j],
        decreases s@.len() / 2 - i,
    {
        let hi = match hex_digit_value(s[2 * i]) {
            Some(v) => v,
            None => {
                proof {
                    assert(!is_hex_digit(s@[2 * (i as int)]));
                }
                return None;
            },
        };
        let lo = match hex_digit_value(s[2 * i + 1]) {
            Some(v) => v,
            None => {
                proof {
                    assert(!is_hex_digit(s@[2 * (i as int) + 1]));
                }
                return None;
            },
        };
        out.push(16 * hi + lo);
        i = i + 1;
    }
    proof {
        assert(out@ =~= hex_decoded(s@));
    }
    Some(out)
}

/// A byte string with every leading `0x` pair removed.
pub open spec fn strip_hex_prefix(s: Seq<u8>) -> Seq<u8>
    decreases s.len(),
{
    if s.len() >= 2 && s[0] == 48 && s[1] == 120 {
        strip_hex_prefix(s.skip(2))
    } else {
        s
    }
}

/// Removes every leading `0x` pair from a byte string.
pub fn strip_hex_prefix_bytes(s: &Vec<u8>) -> (r: Vec<u8>)
    ensures
        r@ == strip_hex_prefix(s@),
{
    let mut i: usize = 0;
    proof {
        assert(s@.skip(0) =~= s@);
    }
    while s.len() - i >= 2 && s[i] == 48 && s[i + 1] == 120
        invariant
            i <= s@.len(),
            strip_hex_prefix(s@) == strip_hex_prefix(s@.skip(i as int)),
        decreases s@.len() - i,
    {
        proof {
            let t = s@.skip(i as int);
            assert(t.len() >= 2 && t[0] == 48 && t[1] == 120);
            assert(t.skip(2) =~= s@.skip(i as int + 2));
        }
        i = i + 2;
    }
    let mut out: Vec<u8> = Vec::new();
    let mut j: usize = i;
    while j < s.len()
        invariant
            i <= j <= s@.len(),
            out@ == s@.subrange(i as int, j as int),
        decreases s@.len() - j,
    {
        out.push(s[j]);
        proof {
            assert(out@ =~= s@.subrange(i as int, j as int + 1));
        }
        j = j + 1;
    }
    proof {
        let t = s@.skip(i as int);
        assert(!(t.len() >= 2 && t[0] == 48 && t[1] == 120));
        assert(strip_hex_prefix(t) == t);
        assert(out@ =~= t);
    }
    out
}

/// Whether two byte strings hold the same bytes.
pub fn bytes_eq(a: &Vec<u8>, b: &Vec<u8>) -> (r: bool)
    ensures
        r <==> a@ == b@,
{
    if a.len() != b.len() {
        return false;
    }
    let mut i: usize = 0;
    while i < a.len()
        invariant
            a@.len() == b@.len(),
            i <= a@.len(),
            forall|j: int| 0 <= j < i ==> a@[j] == b@[j],
        decreases a@.len() - i,
    {
        if a[i] != b[i] {
            return false;
        }
        i = i + 1;
    }
    proof {
        assert(a@ =~= b@);
    }
    true
}

/// A fresh byte string holding the same bytes.
pub fn copy_bytes(v: &Vec<u8>) -> (r: Vec<u8>)
    ensures
        r@ == v@,
{
    let mut out: Vec<u8> = Vec::new();
    let mut i: usize = 0;
    while i < v.len()
        invariant
            i <= v@.len(),
            out@ == v@.subrange(0, i as int),
        decreases v@.len() - i,
    {
        out.push(v[i]);
        proof {
            assert(out@ =~= v@.subrange(0, i as int + 1));
        }
        i = i + 1;
    }
    proof {
        assert(out@ =~= v@);
    }
    out
}

/// Appends the bytes of `src` to `dst`.
pub fn append_bytes(dst: &mut Vec<u8>, src: &Vec<u8>)
    ensures
        final(dst)@ == old(dst)@ + src@,
{
    let mut i: usize = 0;
    proof {
        assert(dst@ =~= old(dst)@ + src@.subrange(0, 0));
    }
    while i < src.len()
        invariant
            i <= src@.len(),
            dst@ == old(dst)@ + src@.subrange(0, i as int),
        decreases src@.len() - i,
    {
        dst.push(src[i]);
        proof {
            assert(old(dst)@ + src@.subrange(0, i as int + 1) =~= (old(dst)@ + src@.subrange(
                0,
                i as int,
            )).push(src@[i as int]));
        }
        i = i + 1;
    }
    proof {
        assert(old(dst)@ + src@.subrange(0, src@.len() as int) =~= old(dst)@ + src@);
    }
}

/// Hexadecimal encoding yields only lowercase digit bytes: every byte is a
/// hexadecimal digit, none is an uppercase letter, and none is an `x`.
pub proof fn lemma_hex_encoded_shape(bs: Seq<u8>)
    ensures
        hex_encoded(bs).len() == 2 * bs.len(),
        all_hex_digits(hex_encoded(bs)),
        lower_seq(hex_encoded(bs)) == hex_encoded(bs),
        forall|i: int| 0 <= i < 2 * bs.len() ==> hex_encoded(bs)[i] != 120,
{
    assert forall|i: int| 0 <= i < hex_encoded(bs).len() implies is_hex_digit(hex_encoded(bs)[i])
        && hex_encoded(bs)[i] != 120 && lower_byte(hex_encoded(bs)[i]) == hex_encoded(bs)[i] by {
        let b = bs[i / 2];
        assert(b / 16 < 16 && b % 16 < 16);
    }
    assert(lower_seq(hex_encoded(bs)) =~= hex_encoded(bs));
}

/// Decoding inverts encoding: the hexadecimal digits of a byte string
/// decode back to that byte string.
pub proof fn lemma_hex_round_trip(bs: Seq<u8>)
    ensures
        hex_decoded(hex_encoded(bs)) == bs,
{
    let h = hex_encoded(bs);
    assert forall|i: int| 0 <= i < bs.len() implies hex_decoded(h)[i] == bs[i] by {
        let b = bs[i];
        assert(h[2 * i] == hex_digit_lower(b / 16));
        assert(h[2 * i + 1] == hex_digit_lower(b % 16));
        assert(hex_val(hex_digit_lower(b / 16)) == b / 16);
        assert(hex_val(hex_digit_lower(b % 16)) == b % 16);
        assert(16 * (b / 16) + b % 16 == b) by {
            assert(b == 16 * (b / 16) + b % 16) by (nonlinear_arith);
        }
    }
    assert(hex_decoded(h) =~= bs);
}

/// A hexadecimal encoding is left unchanged by `0x`-prefix stripping,
/// and stripping removes a single prefixed `0x` pair.
pub proof fn lemma_strip_of_hex(bs: Seq<u8>)
    requires
        bs.len() >= 1,
    ensures
        strip_hex_prefix(hex_encoded(bs)) == hex_encoded(bs),
        strip_hex_prefix(seq![48u8, 120u8] + hex_encoded(bs)) == hex_encoded(bs),
{
    let h = hex_encoded(bs);
    lemma_hex_encoded_shape(bs);
    assert(h[1] != 120);
    assert(strip_hex_prefix(h) == h);
    let p = seq![48u8, 120u8] + h;
    assert(p.len() >= 2 && p[0] == 48 && p[1] == 120);
    assert(p.skip(2) =~= h);
    assert(strip_hex_prefix(p) == strip_hex_prefix(h));
}

} // verus!
