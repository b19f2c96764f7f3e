//! Building text: digits, and bytes taken as UTF-8.

use vstd::prelude::*;
use vstd::utf8::{
    decode_utf8, encode_utf8, encode_utf8_decode_utf8, encode_utf8_valid_utf8, is_ascii_chars,
    is_ascii_chars_encode_utf8, valid_utf8,
};

verus! {

/// `String::push` of the standard library, which appends one character to the
/// end of the string and leaves the characters before it as they were.
pub assume_specification[ String::push ](s: &mut String, c: char)
    ensures
        final(s)@ == old(s)@.push(c),
;

/// The text that lossy UTF-8 decoding of the standard library gives for
/// `bytes`: the bytes read as UTF-8, each invalid sequence replaced by U+FFFD.
pub uninterp spec fn lossy_text(bytes: Seq<u8>) -> Seq<char>;

/// `String::from_utf8_lossy` of the standard library, as an owned string.
///
/// Believed, not proved: the result depends on the bytes alone, and bytes that
/// are valid UTF-8 come back as the text they encode, with nothing replaced.
#[verifier::external_body]
pub(crate) fn utf8_lossy(bytes: &[u8]) -> (text: String)
    ensures
        text@ == lossy_text(bytes@),
        valid_utf8(bytes@) ==> text@ == decode_utf8(bytes@),
{
    String::from_utf8_lossy(bytes).into_owned()
}

/// Whether every byte of `bytes` is an ASCII code.
pub open spec fn all_ascii(bytes: Seq<u8>) -> bool {
    forall|i: int| 0 <= i < bytes.len() ==> bytes[i] < 128
}

/// `bytes` with each byte taken as the character of that code.
pub open spec fn ascii_text(bytes: Seq<u8>) -> Seq<char> {
    Seq::new(bytes.len(), |i: int| bytes[i] as char)
}

/// ASCII bytes are valid UTF-8 and read as themselves, byte for character.
pub proof fn lemma_ascii_reads_as_itself(bytes: Seq<u8>)
    requires
        all_ascii(bytes),
    ensures
        valid_utf8(bytes),
        decode_utf8(bytes) == ascii_text(bytes),
{
    let chars = ascii_text(bytes);
    assert(is_ascii_chars(chars));
    is_ascii_chars_encode_utf8(chars);
    assert(encode_utf8(chars) =~= bytes);
    encode_utf8_valid_utf8(chars);
    encode_utf8_decode_utf8(chars);
}

/// The lowercase hexadecimal digit for `n`, for `0 <= n < 16`.
pub open spec fn hex_char(n: int) -> char {
    "0123456789abcdef"@[n]
}

/// The decimal digit for `n`, for `0 <= n < 10`.
pub open spec fn decimal_char(n: int) -> char {
    "0123456789"@[n]
}

/// `n` written in decimal, without sign and without leading zeros.
pub open spec fn decimal_text(n: nat) -> Seq<char>
    decreases n,
{
    if n < 10 {
        seq![decimal_char(n as int)]
    } else {
        decimal_text(n / 10).push(decimal_char((n % 10) as int))
    }
}

/// The lowercase hexadecimal digit for a value below sixteen.
pub(crate) fn hex_digit(n: u8) -> (c: char)
    requires
        n < 16,
    ensures
        c == hex_char(n as int),
{
    proof {
        reveal_strlit("0123456789abcdef");
    }
    if n < 10 {
        (48u8 + n) as char
    } else {
        (87u8 + n) as char
    }
}

/// The decimal digit for a value below ten.
pub(crate) fn decimal_digit(n: u8) -> (c: char)
    requires
        n < 10,
    ensures
        c == decimal_char(n as int),
{
    proof {
        reveal_strlit("0123456789");
    }
    (48u8 + n) as char
}

/// Appends `n` in decimal to `out`.
pub fn push_decimal(out: &mut String, n: u32)
    ensures
        final(out)@ == old(out)@ + decimal_text(n as nat),
    decreases n,
{
    if n >= 10 {
        push_decimal(out, n / 10);
    }
    let low: u32 = n % 10;
    out.push(decimal_digit(low as u8));
}

} // verus!
