//! Handle SIE character encoding.
//! SIE files use CP437 (IBM PC) encoding per the specification,
//! though many modern programs output ISO 8859-1 (Latin-1) or UTF-8.
use vstd::prelude::*;
use vstd::utf8::{decode_utf8, encode_utf8, is_ascii_chars, valid_utf8};
use crate::text::push_char;

verus! {

/// The text of SIE file bytes: the UTF-8 decoding when the bytes are valid
/// UTF-8, and otherwise each byte taken as the Latin-1 character of the same number.
pub open spec fn sie_text_of_bytes(bytes: Seq<u8>) -> Seq<char> {
    if valid_utf8(bytes) {
        decode_utf8(bytes)
    } else {
        latin1_chars(bytes)
    }
}

/// Each byte read as the character with the same code point (ISO 8859-1).
pub open spec fn latin1_chars(bytes: Seq<u8>) -> Seq<char> {
    bytes.map_values(|b: u8| b as char)
}

/// The ISO 8859-1 byte of a character, or `?` for one outside Latin-1.
pub open spec fn latin1_byte(c: char) -> u8 {
    if c as u32 <= 0xFF {
        (c as u32) as u8
    } else {
        63u8
    }
}

/// The ISO 8859-1 encoding of a text, with `?` for unmappable characters.
pub open spec fn latin1_bytes(s: Seq<char>) -> Seq<u8> {
    s.map_values(|c: char| latin1_byte(c))
}

/// Reads bytes as UTF-8 (`std::str::from_utf8`).
///
/// Trusted: `from_utf8` succeeds exactly on valid UTF-8, and then the text
/// holds the decoded characters (as vstd's UTF-8 definitions state them).
#[verifier::external_body]
fn utf8_text(bytes: &[u8]) -> (r: Option<String>)
    ensures
        r is Some <==> valid_utf8(bytes@),
        r matches Some(s) ==> s@ == decode_utf8(bytes@),
{
    match std::str::from_utf8(bytes) {
        Ok(s) => Some(s.to_string()),
        Err(_) => None,
    }
}

/// Attempt to decode SIE file bytes to UTF-8 string.
/// Tries UTF-8 first, then falls back to ISO 8859-1 (Latin-1).
pub fn decode_sie_bytes(bytes: &[u8]) -> (s: String)
    ensures
        s@ == sie_text_of_bytes(bytes@),
{
    // Try UTF-8 first (many modern programs use it)
    if let Some(s) = utf8_text(bytes) {
        return s;
    }
    // Fall back to ISO 8859-1 (Latin-1) — each byte maps directly to a Unicode codepoint
    let mut out = String::new();
    let mut i: usize = 0;
    while i < bytes.len()
        invariant
            i <= bytes@.len(),
            out@ == latin1_chars(bytes@.take(i as int)),
        decreases bytes.len() - i,
    {
        let b = bytes[i];
        push_char(&mut out, b as char);
        assert(latin1_chars(bytes@.take(i + 1)) =~= latin1_chars(bytes@.take(i as int)).push(b as char));
        i += 1;
    }
    assert(bytes@.take(bytes@.len() as int) =~= bytes@);
    out
}

/// Encode a UTF-8 string to Latin-1 bytes for SIE export.
/// We use ISO 8859-1 which covers all Swedish characters.
pub fn encode_to_latin1(s: &str) -> (r: Vec<u8>)
    ensures
        r@ == latin1_bytes(s@),
{
    let cs = crate::text::chars_of(s);
    let mut out: Vec<u8> = Vec::new();
    let mut i: usize = 0;
    while i < cs.len()
        invariant
            i <= cs@.len(),
            cs@ == s@,
            out@ == latin1_bytes(cs@.take(i as int)),
        decreases cs.len() - i,
    {
        let c = cs[i];
        let cp = c as u32;
        let b: u8 = if cp <= 0xFF {
            cp as u8
        } else {
            63u8  // Replace unmappable characters with '?'
        };
        out.push(b);
        assert(latin1_bytes(cs@.take(i + 1)) =~= latin1_bytes(cs@.take(i as int)).push(b));
        i += 1;
    }
    assert(cs@.take(cs@.len() as int) =~= cs@);
    out
}

/// Every character is in ISO 8859-1.
pub open spec fn all_latin1(s: Seq<char>) -> bool {
    forall|i: int| 0 <= i < s.len() ==> (#[trigger] s[i]) as u32 <= 0xFF
}

/// Writing a text as Latin-1 and reading the bytes back gives the text again,
/// for a text of Latin-1 characters that is plain ASCII or whose Latin-1 bytes
/// are not by chance valid UTF-8.
pub proof fn lemma_latin1_roundtrip(s: Seq<char>)
    requires
        all_latin1(s),
        is_ascii_chars(s) || !valid_utf8(latin1_bytes(s)),
    ensures
        sie_text_of_bytes(latin1_bytes(s)) == s,
{
    let bs = latin1_bytes(s);
    if is_ascii_chars(s) {
        vstd::utf8::is_ascii_chars_encode_utf8(s);
        assert forall|i: int| 0 <= i < s.len() implies bs[i] == encode_utf8(s)[i] by {
            assert(s[i] as u32 <= 0x7f);
        }
        assert(bs =~= encode_utf8(s));
        vstd::utf8::encode_utf8_valid_utf8(s);
        vstd::utf8::encode_utf8_decode_utf8(s);
    } else {
        assert forall|i: int| 0 <= i < s.len() implies latin1_chars(bs)[i] == s[i] by {
            let c = s[i];
            assert(c as u32 <= 0xFF);
            let v = c as u32;
            let b = v as u8;
            assert(b as u32 == v);
            assert(bs[i] == b);
            vstd::utf8::char_u32_cast(c, v);
            assert(b as int == v as int);
            assert((b as char) == (v as char));
        }
        assert(latin1_chars(bs) =~= s);
    }
}

} // verus!
