//! Byte-level encodings used on the wire: standard Base64 (for Basic
//! authentication and encoded secrets), percent-encoding of query
//! parameters, and UTF-8 decoding of byte strings.
use vstd::prelude::*;
use vstd::string::*;
use vstd::utf8::*;

verus! {

/// The character of a 6-bit value in the standard Base64 alphabet.
pub open spec fn base64_symbol(v: int) -> char {
    if 0 <= v < 26 {
        (65 + v) as char
    } else if 26 <= v < 52 {
        (97 + (v - 26)) as char
    } else if 52 <= v < 62 {
        (48 + (v - 52)) as char
    } else if v == 62 {
        '+'
    } else {
        '/'
    }
}

/// Standard Base64 (RFC 4648 alphabet, `=` padding) of a byte string.
pub open spec fn base64_encoding(b: Seq<u8>) -> Seq<char>
    decreases b.len(),
{
    if b.len() == 0 {
        Seq::empty()
    } else {
        let b0 = b[0] as int;
        let b1 = if b.len() > 1 {
            b[1] as int
        } else {
            0
        };
        let b2 = if b.len() > 2 {
            b[2] as int
        } else {
            0
        };
        if b.len() == 1 {
            seq![base64_symbol(b0 / 4), base64_symbol((b0 % 4) * 16), '=', '=']
        } else if b.len() == 2 {
            seq![
                base64_symbol(b0 / 4),
                base64_symbol((b0 % 4) * 16 + b1 / 16),
                base64_symbol((b1 % 16) * 4),
                '=',
            ]
        } else {
            seq![
                base64_symbol(b0 / 4),
                base64_symbol((b0 % 4) * 16 + b1 / 16),
                base64_symbol((b1 % 16) * 4 + b2 / 64),
                base64_symbol(b2 % 64),
            ] + base64_encoding(b.skip(3))
        }
    }
}

proof fn lemma_symbol(v: int, w: int)
    requires
        0 <= v < 64,
        0 <= w < 64,
    ensures
        base64_symbol(v) != '=',
        base64_symbol(v) == base64_symbol(w) ==> v == w,
{
    let sv = base64_symbol(v);
    let sw = base64_symbol(w);
    assert(sv as int == if v < 26 {
        65 + v
    } else if v < 52 {
        97 + (v - 26)
    } else if v < 62 {
        48 + (v - 52)
    } else if v == 62 {
        43
    } else {
        47
    });
    assert(sw as int == if w < 26 {
        65 + w
    } else if w < 52 {
        97 + (w - 26)
    } else if w < 62 {
        48 + (w - 52)
    } else if w == 62 {
        43
    } else {
        47
    });
}

proof fn lemma_byte_split(x: int, y: int, d: int)
    requires
        0 <= x < 256,
        0 <= y < 256,
        d == 4 || d == 16 || d == 64,
        x / d == y / d,
        x % d == y % d,
    ensures
        x == y,
{
}

/// Base64 encoding loses nothing: two byte strings with the same encoding
/// are equal.
pub proof fn lemma_base64_injective(a: Seq<u8>, b: Seq<u8>)
    requires
        base64_encoding(a) == base64_encoding(b),
    ensures
        a == b,
    decreases a.len(),
{
    let ea = base64_encoding(a);
    let eb = base64_encoding(b);
    if a.len() == 0 || b.len() == 0 {
        if a.len() != 0 {
            assert(ea.len() >= 4);
        }
        if b.len() != 0 {
            assert(eb.len() >= 4);
        }
        assert(a =~= b);
        return;
    }
    let a0 = a[0] as int;
    let b0 = b[0] as int;
    let a1 = if a.len() > 1 { a[1] as int } else { 0 };
    let b1 = if b.len() > 1 { b[1] as int } else { 0 };
    let a2 = if a.len() > 2 { a[2] as int } else { 0 };
    let b2 = if b.len() > 2 { b[2] as int } else { 0 };
    assert(ea[0] == eb[0] && ea[1] == eb[1] && ea[2] == eb[2] && ea[3] == eb[3]);
    lemma_symbol(a0 / 4, b0 / 4);
    lemma_symbol((a0 % 4) * 16 + a1 / 16, (b0 % 4) * 16 + b1 / 16);
    lemma_symbol((a1 % 16) * 4 + a2 / 64, (b1 % 16) * 4 + b2 / 64);
    lemma_symbol(a2 % 64, b2 % 64);
    lemma_symbol((a0 % 4) * 16, (b0 % 4) * 16);
    lemma_symbol((a1 % 16) * 4, (b1 % 16) * 4);
    lemma_symbol((a0 % 4) * 16, (b0 % 4) * 16 + b1 / 16);
    lemma_symbol((a0 % 4) * 16 + a1 / 16, (b0 % 4) * 16);
    lemma_symbol((a1 % 16) * 4, (b1 % 16) * 4 + b2 / 64);
    lemma_symbol((a1 % 16) * 4 + a2 / 64, (b1 % 16) * 4);
    // The padding tells how many bytes the first group holds.
    assert((a.len() == 1) == (b.len() == 1));
    assert((a.len() == 2) == (b.len() == 2));
    assert(a0 / 4 == b0 / 4);
    if a.len() == 1 {
        assert(a0 % 4 == b0 % 4);
        lemma_byte_split(a0, b0, 4);
        assert(a =~= b);
    } else if a.len() == 2 {
        assert(a0 % 4 == b0 % 4 && a1 / 16 == b1 / 16);
        assert(a1 % 16 == b1 % 16);
        lemma_byte_split(a0, b0, 4);
        lemma_byte_split(a1, b1, 16);
        assert(a =~= b);
    } else {
        assert(a0 % 4 == b0 % 4 && a1 / 16 == b1 / 16);
        assert(a1 % 16 == b1 % 16 && a2 / 64 == b2 / 64);
        assert(a2 % 64 == b2 % 64);
        lemma_byte_split(a0, b0, 4);
        lemma_byte_split(a1, b1, 16);
        lemma_byte_split(a2, b2, 64);
        assert(ea.skip(4) =~= base64_encoding(a.skip(3)));
        assert(eb.skip(4) =~= base64_encoding(b.skip(3)));
        lemma_base64_injective(a.skip(3), b.skip(3));
        assert(a =~= b) by {
            assert(a =~= a.take(3) + a.skip(3));
            assert(b =~= b.take(3) + b.skip(3));
            assert(a.take(3) =~= b.take(3));
        }
    }
}

/// The largest input, in bytes, whose Base64 length is computed without overflow.
pub open spec fn base64_input_limit() -> int {
    (usize::MAX / 4) * 3
}

/// `base64::engine::general_purpose::STANDARD.encode`: the standard, padded
/// Base64 of the UTF-8 bytes of `s`. The engine panics when the encoded
/// length overflows `usize`, hence the bound on the input.
#[verifier::external_body]
pub(crate) fn base64_encode(s: &str) -> (r: String)
    requires
        s.spec_bytes().len() <= base64_input_limit(),
    ensures
        r@ == base64_encoding(s.spec_bytes()),
{
    base64::Engine::encode(&base64::engine::general_purpose::STANDARD, s)
}

/// `base64::engine::general_purpose::STANDARD.decode` applied to the UTF-8
/// bytes of `s`: the engine requires canonical padding and no trailing bits,
/// so it succeeds exactly on the inputs that are the encoding of some byte
/// string, and then returns that byte string.
#[verifier::external_body]
pub(crate) fn base64_decode(s: &str) -> (r: Option<Vec<u8>>)
    ensures
        r matches Some(b) ==> base64_encoding(b@) == s@,
        r is None ==> forall|b: Seq<u8>| base64_encoding(b) != s@,
{
    base64::Engine::decode(&base64::engine::general_purpose::STANDARD, s).ok()
}

/// `String::from_utf8`: the text a byte string encodes when it is valid UTF-8.
#[verifier::external_body]
pub(crate) fn string_from_utf8(bytes: Vec<u8>) -> (r: Option<String>)
    ensures
        r is Some <==> valid_utf8(bytes@),
        r matches Some(s) ==> s@ == decode_utf8(bytes@),
{
    String::from_utf8(bytes).ok()
}

/// Whether a byte is left as is by percent-encoding: ASCII letters and
/// digits, `-`, `.`, `_` and `~`.
pub open spec fn url_safe_byte(b: u8) -> bool {
    (48 <= b <= 57) || (65 <= b <= 90) || (97 <= b <= 122) || b == 45 || b == 46 || b == 95
        || b == 126
}

/// The upper-case hexadecimal digit of a value below 16.
pub open spec fn hex_upper(d: int) -> char {
    if d < 10 {
        (48 + d) as char
    } else {
        (65 + (d - 10)) as char
    }
}

/// Percent-encoding of a byte string: safe bytes stand for themselves,
/// every other byte becomes `%` and two upper-case hexadecimal digits.
pub open spec fn percent_encoding(b: Seq<u8>) -> Seq<char>
    decreases b.len(),
{
    if b.len() == 0 {
        Seq::empty()
    } else {
        let last = b.last();
        percent_encoding(b.drop_last()) + if url_safe_byte(last) {
            seq![last as char]
        } else {
            seq!['%', hex_upper(last as int / 16), hex_upper(last as int % 16)]
        }
    }
}

/// `urlencoding::encode`: percent-encodes every byte of the UTF-8 form of
/// `s` except ASCII alphanumerics and `-`, `_`, `.`, `~`.
#[verifier::external_body]
pub(crate) fn url_encode(s: &str) -> (r: String)
    ensures
        r@ == percent_encoding(s.spec_bytes()),
{
    urlencoding::encode(s).into_owned()
}

} // verus!
