//! The base64url alphabet of RFC 4648, section 5, written without padding;
//! and standard base64 with padding, as the key service writes it, read by
//! the `base64` crate.

use ::base64::Engine;
use vstd::prelude::*;

verus! {

/// The character that stands for the six-bit value `v`.
#[verifier::opaque]
pub open spec fn digit(v: int) -> char
    recommends
        0 <= v < 64,
{
    if v < 26 {
        ((65 + v) as u8) as char
    } else if v < 52 {
        ((97 + (v - 26)) as u8) as char
    } else if v < 62 {
        ((48 + (v - 52)) as u8) as char
    } else if v == 62 {
        '-'
    } else {
        '_'
    }
}

/// The base64url text of `bytes`: every three bytes are read as one number
/// of 24 bits and written as four digits; one or two bytes that are left at
/// the end are filled up with zero bits and written as two or three digits.
pub open spec fn base64url(bytes: Seq<u8>) -> Seq<char>
    decreases bytes.len(),
{
    if bytes.len() == 0 {
        Seq::empty()
    } else if bytes.len() == 1 {
        let n = bytes[0] * 16;
        seq![digit(n / 64), digit(n % 64)]
    } else if bytes.len() == 2 {
        let n = (bytes[0] * 256 + bytes[1]) * 4;
        seq![digit(n / 4096), digit(n / 64 % 64), digit(n % 64)]
    } else {
        let n = bytes[0] * 65536 + bytes[1] * 256 + bytes[2];
        seq![digit(n / 262144), digit(n / 4096 % 64), digit(n / 64 % 64), digit(n % 64)]
            + base64url(bytes.skip(3))
    }
}

/// The digit for `v` as a character.
fn digit_char(v: u32) -> (c: char)
    requires
        v < 64,
    ensures
        c == digit(v as int),
{
    proof {
        reveal(digit);
    }
    let v8: u8 = v as u8;
    if v8 < 26 {
        (65 + v8) as char
    } else if v8 < 52 {
        (97 + (v8 - 26)) as char
    } else if v8 < 62 {
        (48 + (v8 - 52)) as char
    } else if v8 == 62 {
        '-'
    } else {
        '_'
    }
}

/// Returns the base64url encoding of the input, without padding.
pub fn b64(to_encode: &[u8]) -> (encoded: String)
    ensures
        encoded@ == base64url(to_encode@),
{
    let mut encoded = String::new();
    let len: usize = to_encode.len();
    let mut i: usize = 0;
    assert(to_encode@.skip(0) == to_encode@);
    while len - i >= 3
        invariant
            i <= len,
            len == to_encode@.len(),
            encoded@ + base64url(to_encode@.skip(i as int)) == base64url(to_encode@),
        decreases len - i,
    {
        let n: u32 = to_encode[i] as u32 * 65536 + to_encode[i + 1] as u32 * 256 + to_encode[i
            + 2] as u32;
        proof {
            let rest = to_encode@.skip(i as int);
            assert(rest.skip(3) == to_encode@.skip(i + 3));
        }
        encoded.push(digit_char(n / 262144));
        encoded.push(digit_char(n / 4096 % 64));
        encoded.push(digit_char(n / 64 % 64));
        encoded.push(digit_char(n % 64));
        i = i + 3;
    }
    if len - i == 1 {
        let n: u32 = to_encode[i] as u32 * 16;
        encoded.push(digit_char(n / 64));
        encoded.push(digit_char(n % 64));
    } else if len - i == 2 {
        let n: u32 = (to_encode[i] as u32 * 256 + to_encode[i + 1] as u32) * 4;
        encoded.push(digit_char(n / 4096));
        encoded.push(digit_char(n / 64 % 64));
        encoded.push(digit_char(n % 64));
    }
    encoded
}

/// The six-bit value that the character `c` stands for, if it is a digit of
/// the alphabet.
#[verifier::opaque]
pub open spec fn digit_value(c: char) -> Option<int> {
    let code = c as int;
    if 65 <= code <= 90 {
        Some(code - 65)
    } else if 97 <= code <= 122 {
        Some(code - 97 + 26)
    } else if 48 <= code <= 57 {
        Some(code - 48 + 52)
    } else if c == '-' {
        Some(62)
    } else if c == '_' {
        Some(63)
    } else {
        None
    }
}

/// Whether `c` is one of the 64 digits.
pub open spec fn is_digit(c: char) -> bool {
    digit_value(c) is Some
}

/// The bytes that the unpadded base64url text `text` stands for. There are
/// none where a character is no digit, where a single digit is left at the
/// end, or where the bits that fill up the last digit are not zero.
pub open spec fn base64url_decoded(text: Seq<char>) -> Option<Seq<u8>>
    decreases text.len(),
{
    if text.len() == 0 {
        Some(Seq::empty())
    } else if text.len() == 1 {
        None
    } else if !(is_digit(text[0]) && is_digit(text[1])) {
        None
    } else if text.len() == 2 {
        let n = digit_value(text[0])->0 * 64 + digit_value(text[1])->0;
        if n % 16 == 0 {
            Some(seq![(n / 16) as u8])
        } else {
            None
        }
    } else if !is_digit(text[2]) {
        None
    } else if text.len() == 3 {
        let n = digit_value(text[0])->0 * 4096 + digit_value(text[1])->0 * 64 + digit_value(
            text[2],
        )->0;
        if n % 4 == 0 {
            Some(seq![(n / 1024) as u8, (n / 4 % 256) as u8])
        } else {
            None
        }
    } else if !is_digit(text[3]) {
        None
    } else {
        let n = digit_value(text[0])->0 * 262144 + digit_value(text[1])->0 * 4096 + digit_value(
            text[2],
        )->0 * 64 + digit_value(text[3])->0;
        match base64url_decoded(text.skip(4)) {
            Some(rest) => Some(
                seq![(n / 65536) as u8, (n / 256 % 256) as u8, (n % 256) as u8] + rest,
            ),
            None => None,
        }
    }
}

/// Every six-bit value is the value of its own digit, and no digit is the
/// full stop.
pub proof fn lemma_digit_value(v: int)
    requires
        0 <= v < 64,
    ensures
        digit_value(digit(v)) == Some(v),
        is_digit(digit(v)),
        digit(v) != '.',
{
    reveal(digit);
    reveal(digit_value);
}

/// The arithmetic of a group of three bytes on machine words.
proof fn lemma_group_of_three_words(b0: u32, b1: u32, b2: u32)
    by (bit_vector)
    requires
        b0 < 256,
        b1 < 256,
        b2 < 256,
    ensures
        ({
            let n = b0 * 65536 + b1 * 256 + b2;
            &&& n / 262144 < 64
            &&& (n / 262144) * 262144 + (n / 4096 % 64) * 4096 + (n / 64 % 64) * 64 + n % 64 == n
            &&& n / 65536 == b0
            &&& n / 256 % 256 == b1
            &&& n % 256 == b2
        }),
{
}

/// The four digits of a group of three bytes, and the number they spell.
proof fn lemma_group_of_three(b0: int, b1: int, b2: int)
    requires
        0 <= b0 < 256,
        0 <= b1 < 256,
        0 <= b2 < 256,
    ensures
        ({
            let n = b0 * 65536 + b1 * 256 + b2;
            let m = (n / 262144) * 262144 + (n / 4096 % 64) * 4096 + (n / 64 % 64) * 64 + n % 64;
            &&& 0 <= n / 262144 < 64
            &&& 0 <= n / 4096 % 64 < 64
            &&& 0 <= n / 64 % 64 < 64
            &&& 0 <= n % 64 < 64
            &&& m == n
            &&& n / 65536 == b0
            &&& n / 256 % 256 == b1
            &&& n % 256 == b2
        }),
{
    lemma_group_of_three_words(b0 as u32, b1 as u32, b2 as u32);
}

/// The arithmetic of two bytes at the end on machine words.
proof fn lemma_group_of_two_words(b0: u32, b1: u32)
    by (bit_vector)
    requires
        b0 < 256,
        b1 < 256,
    ensures
        ({
            let n = (b0 * 256 + b1) * 4;
            &&& n / 4096 < 64
            &&& (n / 4096) * 4096 + (n / 64 % 64) * 64 + n % 64 == n
            &&& n % 4 == 0
            &&& n / 1024 == b0
            &&& n / 4 % 256 == b1
        }),
{
}

/// The three digits of two bytes that are left at the end.
proof fn lemma_group_of_two(b0: int, b1: int)
    requires
        0 <= b0 < 256,
        0 <= b1 < 256,
    ensures
        ({
            let n = (b0 * 256 + b1) * 4;
            let m = (n / 4096) * 4096 + (n / 64 % 64) * 64 + n % 64;
            &&& 0 <= n / 4096 < 64
            &&& 0 <= n / 64 % 64 < 64
            &&& 0 <= n % 64 < 64
            &&& m == n
            &&& n % 4 == 0
            &&& n / 1024 == b0
            &&& n / 4 % 256 == b1
        }),
{
    lemma_group_of_two_words(b0 as u32, b1 as u32);
}

/// The two digits of one byte that is left at the end.
proof fn lemma_group_of_one(b0: int)
    requires
        0 <= b0 < 256,
    ensures
        ({
            let n = b0 * 16;
            let m = (n / 64) * 64 + n % 64;
            &&& 0 <= n / 64 < 64
            &&& 0 <= n % 64 < 64
            &&& m == n
            &&& n % 16 == 0
            &&& n / 16 == b0
        }),
{
}

/// Decoding undoes encoding: the bytes that went into a base64url text come
/// out of it again.
pub proof fn lemma_base64url_round_trip(bytes: Seq<u8>)
    ensures
        base64url_decoded(base64url(bytes)) == Some(bytes),
    decreases bytes.len(),
{
    let text = base64url(bytes);
    if bytes.len() == 1 {
        let n = bytes[0] * 16;
        lemma_group_of_one(bytes[0] as int);
        lemma_digit_value(n / 64);
        lemma_digit_value(n % 64);
    } else if bytes.len() == 2 {
        let n = (bytes[0] * 256 + bytes[1]) * 4;
        lemma_group_of_two(bytes[0] as int, bytes[1] as int);
        lemma_digit_value(n / 4096);
        lemma_digit_value(n / 64 % 64);
        lemma_digit_value(n % 64);
    } else if bytes.len() >= 3 {
        let n = bytes[0] * 65536 + bytes[1] * 256 + bytes[2];
        lemma_group_of_three(bytes[0] as int, bytes[1] as int, bytes[2] as int);
        lemma_digit_value(n / 262144);
        lemma_digit_value(n / 4096 % 64);
        lemma_digit_value(n / 64 % 64);
        lemma_digit_value(n % 64);
        lemma_base64url_round_trip(bytes.skip(3));
        assert(text.skip(4) == base64url(bytes.skip(3)));
    }
}

/// A base64url text is made of digits only: the separator of a signing
/// input, the full stop, does not occur in it.
pub proof fn lemma_base64url_digits(bytes: Seq<u8>)
    ensures
        forall|i: int|
            0 <= i < base64url(bytes).len() ==> is_digit(#[trigger] base64url(bytes)[i])
                && base64url(bytes)[i] != '.',
    decreases bytes.len(),
{
    let text = base64url(bytes);
    if bytes.len() == 1 {
        let n = bytes[0] * 16;
        lemma_group_of_one(bytes[0] as int);
        lemma_digit_value(n / 64);
        lemma_digit_value(n % 64);
    } else if bytes.len() == 2 {
        let n = (bytes[0] * 256 + bytes[1]) * 4;
        lemma_group_of_two(bytes[0] as int, bytes[1] as int);
        lemma_digit_value(n / 4096);
        lemma_digit_value(n / 64 % 64);
        lemma_digit_value(n % 64);
    } else if bytes.len() >= 3 {
        let n = bytes[0] * 65536 + bytes[1] * 256 + bytes[2];
        lemma_group_of_three(bytes[0] as int, bytes[1] as int, bytes[2] as int);
        lemma_digit_value(n / 262144);
        lemma_digit_value(n / 4096 % 64);
        lemma_digit_value(n / 64 % 64);
        lemma_digit_value(n % 64);
        lemma_base64url_digits(bytes.skip(3));
        let rest = base64url(bytes.skip(3));
    }
}

/// The bytes that a text in standard base64 stands for, as the standard
/// engine of the `base64` crate reads it; none where it rejects the text.
pub uninterp spec fn standard_base64_decoded(text: Seq<char>) -> Option<Seq<u8>>;

/// `base64::Engine::decode` of `base64::engine::general_purpose::STANDARD`:
/// the same text gives the same bytes, or is rejected, every time.
#[verifier::external_body]
pub(crate) fn decode_standard(text: &str) -> (decoded: Option<Vec<u8>>)
    ensures
        match decoded {
            Some(bytes) => standard_base64_decoded(text@) == Some(bytes@),
            None => standard_base64_decoded(text@) is None,
        },
{
    match ::base64::engine::general_purpose::STANDARD.decode(text) {
        Ok(bytes) => Some(bytes),
        Err(_) => None,
    }
}

} // verus!
