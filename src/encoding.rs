//! URI encoding as Signature V4 defines it, and percent-decoding of request paths.
use vstd::prelude::*;
use vstd::utf8::*;

verus! {

/// Bytes that URI encoding leaves literal: `A-Z a-z 0-9 - _ . ~`.
pub open spec fn is_unreserved(b: u8) -> bool {
    (0x41 <= b <= 0x5a) || (0x61 <= b <= 0x7a) || (0x30 <= b <= 0x39) || b == 0x2d || b == 0x5f
        || b == 0x2e || b == 0x7e
}

/// The upper-case hexadecimal digit of `n < 16`.
pub open spec fn hex_upper(n: u8) -> char {
    if n < 10 {
        ((n + 48) as u8) as char
    } else {
        ((n + 55) as u8) as char
    }
}

/// How one byte is written by URI encoding.
pub open spec fn escape_byte(b: u8, encode_slash: bool) -> Seq<char> {
    if is_unreserved(b) || (b == 0x2f && !encode_slash) {
        seq![b as char]
    } else {
        seq!['%', hex_upper(b / 16), hex_upper(b % 16)]
    }
}

/// URI encoding of a byte string; `/` is kept literal unless `encode_slash`.
pub open spec fn uri_encode_bytes(b: Seq<u8>, encode_slash: bool) -> Seq<char>
    decreases b.len(),
{
    if b.len() == 0 {
        seq![]
    } else {
        uri_encode_bytes(b.drop_last(), encode_slash) + escape_byte(b.last(), encode_slash)
    }
}

/// URI encoding of the UTF-8 bytes of a string.
pub open spec fn uri_encode_spec(s: Seq<char>, encode_slash: bool) -> Seq<char> {
    uri_encode_bytes(encode_utf8(s), encode_slash)
}

/// A hexadecimal digit byte, either case.
pub open spec fn is_hex_digit(b: u8) -> bool {
    (0x30 <= b <= 0x39) || (0x41 <= b <= 0x46) || (0x61 <= b <= 0x66)
}

/// The value of a hexadecimal digit byte.
pub open spec fn hex_value(b: u8) -> u8 {
    if b <= 0x39 {
        (b - 0x30) as u8
    } else if b <= 0x46 {
        (b - 0x37) as u8
    } else {
        (b - 0x57) as u8
    }
}

/// Percent-decoding: each `%` followed by two hexadecimal digits becomes the byte
/// they spell; every other byte stays as it is.
pub open spec fn percent_decode_bytes(b: Seq<u8>) -> Seq<u8>
    decreases b.len(),
{
    if b.len() == 0 {
        seq![]
    } else if b[0] == 0x25 && b.len() >= 3 && is_hex_digit(b[1]) && is_hex_digit(b[2]) {
        seq![(hex_value(b[1]) * 16 + hex_value(b[2])) as u8] + percent_decode_bytes(
            b.subrange(3, b.len() as int),
        )
    } else {
        seq![b[0]] + percent_decode_bytes(b.drop_first())
    }
}

/// The canonical path of a request path: percent-decoded, read as UTF-8, then
/// URI-encoded with `/` kept; `None` when the decoded bytes are not UTF-8.
pub open spec fn canonical_path_spec(p: Seq<char>) -> Option<Seq<char>> {
    let d = percent_decode_bytes(encode_utf8(p));
    if valid_utf8(d) {
        Some(uri_encode_bytes(d, false))
    } else {
        None
    }
}

/// Relies on `percent_encoding::percent_decode_str` and `PercentDecode::decode_utf8`:
/// a `%` and two hexadecimal digits become one byte, the rest is kept, and the
/// bytes are read as UTF-8.
#[verifier::external_body]
fn percent_decode_utf8(s: &str) -> (r: Option<String>)
    ensures
        r is Some <==> valid_utf8(percent_decode_bytes(encode_utf8(s@))),
        r matches Some(d) ==> d@ == decode_utf8(percent_decode_bytes(encode_utf8(s@))),
{
    match percent_encoding::percent_decode_str(s).decode_utf8() {
        Ok(d) => Some(d.into_owned()),
        Err(_) => None,
    }
}

fn hex_upper_exec(n: u8) -> (c: char)
    requires
        n < 16,
    ensures
        c == hex_upper(n),
{
    if n < 10 {
        (n + 48) as char
    } else {
        (n + 55) as char
    }
}

fn is_unreserved_exec(b: u8) -> (r: bool)
    ensures
        r == is_unreserved(b),
{
    (0x41 <= b && b <= 0x5a) || (0x61 <= b && b <= 0x7a) || (0x30 <= b && b <= 0x39) || b == 0x2d
        || b == 0x5f || b == 0x2e || b == 0x7e
}

/// URI-encodes `input`: unreserved characters stay, `/` stays unless
/// `encode_forward_slash`, every other byte of the UTF-8 encoding becomes `%XX`.
pub fn uri_encode(input: &str, encode_forward_slash: bool) -> (r: String)
    ensures
        r@ == uri_encode_spec(input@, encode_forward_slash),
{
    let bytes = input.as_bytes();
    let mut r = String::new();
    let mut i: usize = 0;
    while i < bytes.len()
        invariant
            bytes@ == encode_utf8(input@),
            i <= bytes@.len(),
            r@ == uri_encode_bytes(bytes@.subrange(0, i as int), encode_forward_slash),
        decreases bytes@.len() - i,
    {
        let b = bytes[i];
        let ghost before = bytes@.subrange(0, i as int);
        if is_unreserved_exec(b) || (b == 0x2f && !encode_forward_slash) {
            r.push(b as char);
        } else {
            r.push('%');
            r.push(hex_upper_exec(b / 16));
            r.push(hex_upper_exec(b % 16));
        }
        i = i + 1;
        proof {
            let now = bytes@.subrange(0, i as int);
            assert(now.drop_last() =~= before);
            assert(now.last() == b);
            assert(r@ =~= uri_encode_bytes(now, encode_forward_slash));
        }
    }
    assert(bytes@.subrange(0, bytes@.len() as int) =~= bytes@);
    r
}

/// The canonical path of a request path (see [`canonical_path_spec`]).
pub fn canonical_path(path: &str) -> (r: Option<String>)
    ensures
        r matches Some(x) ==> canonical_path_spec(path@) == Some(x@),
        r is None ==> canonical_path_spec(path@) is None,
{
    match percent_decode_utf8(path) {
        Some(decoded) => {
            proof {
                decode_utf8_encode_utf8(percent_decode_bytes(encode_utf8(path@)));
            }
            Some(uri_encode(decoded.as_str(), false))
        },
        None => None,
    }
}

proof fn lemma_scalar_has_no_percent(c: char)
    requires
        c != '%',
    ensures
        !encode_scalar(c as u32).contains(0x25u8),
{
    let s = c as u32;
    char_is_scalar(c);
    assert(s != 0x25) by {
        char_u32_cast(c, s);
    }
    let e = encode_scalar(s);
    if has_width_1_encoding(s) {
        assert((s & 0x7F) as u8 != 0x25u8) by (bit_vector)
            requires
                s <= 0x7F,
                s != 0x25,
        ;
        assert(e =~= seq![(s & 0x7F) as u8]);
    } else {
        assert(forall|y: u8| #![auto] (0x80u8 | y) != 0x25u8) by (bit_vector);
        assert(forall|y: u8| #![auto] (0xC0u8 | y) != 0x25u8) by (bit_vector);
        assert(forall|y: u8| #![auto] (0xE0u8 | y) != 0x25u8) by (bit_vector);
        assert(forall|y: u8| #![auto] (0xF0u8 | y) != 0x25u8) by (bit_vector);
        assert forall|k: int| 0 <= k < e.len() implies e[k] != 0x25u8 by {}
    }
}

proof fn lemma_encoding_has_no_percent(p: Seq<char>)
    requires
        !p.contains('%'),
    ensures
        !encode_utf8(p).contains(0x25u8),
    decreases p.len(),
{
    if p.len() > 0 {
        assert(p[0] != '%') by {
            assert(p.contains(p[0]));
        }
        lemma_scalar_has_no_percent(p[0]);
        assert(!p.drop_first().contains('%')) by {
            if p.drop_first().contains('%') {
                let k = choose|k: int| 0 <= k < p.drop_first().len() && p.drop_first()[k] == '%';
                assert(p[k + 1] == '%');
            }
        }
        lemma_encoding_has_no_percent(p.drop_first());
        let a = encode_scalar(p[0] as u32);
        let b = encode_utf8(p.drop_first());
        assert(encode_utf8(p) == a + b);
        if (a + b).contains(0x25u8) {
            let k = choose|k: int| 0 <= k < (a + b).len() && (a + b)[k] == 0x25u8;
            if k < a.len() {
                assert(a[k] == 0x25u8);
            } else {
                assert(b[k - a.len()] == 0x25u8);
            }
        }
    }
}

proof fn lemma_decode_without_percent(b: Seq<u8>)
    requires
        !b.contains(0x25u8),
    ensures
        percent_decode_bytes(b) == b,
    decreases b.len(),
{
    if b.len() > 0 {
        assert(b[0] != 0x25u8) by {
            assert(b.contains(b[0]));
        }
        assert(!b.drop_first().contains(0x25u8)) by {
            if b.drop_first().contains(0x25u8) {
                let k = choose|k: int| 0 <= k < b.drop_first().len() && b.drop_first()[k] == 0x25u8;
                assert(b[k + 1] == 0x25u8);
            }
        }
        lemma_decode_without_percent(b.drop_first());
        assert(seq![b[0]] + b.drop_first() =~= b);
    }
}

/// A path without `%` has the same canonical encoding whether or not it is
/// percent-decoded first: decoding leaves it unchanged.
pub proof fn lemma_path_encoding_ignores_decoding(p: Seq<char>)
    requires
        !p.contains('%'),
    ensures
        canonical_path_spec(p) == Some(uri_encode_spec(p, false)),
{
    lemma_encoding_has_no_percent(p);
    lemma_decode_without_percent(encode_utf8(p));
    encode_utf8_valid_utf8(p);
}

} // verus!
