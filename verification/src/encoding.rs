//! HTTP Basic credentials, encoded with the `base64` crate.
use vstd::prelude::*;
use vstd::string::*;
use base64::Engine;
use crate::text::join3;

verus! {

/// The character of the standard base64 alphabet (RFC 4648) for a six-bit value.
pub open spec fn base64_digit(v: int) -> char {
    if v < 26 {
        ('A' as int + v) as char
    } else if v < 52 {
        ('a' as int + (v - 26)) as char
    } else if v < 62 {
        ('0' as int + (v - 52)) as char
    } else if v == 62 {
        '+'
    } else {
        '/'
    }
}

/// Standard base64 (RFC 4648 alphabet, `=` padding) of `bytes`: every three
/// bytes become four digits of six bits each; a last group of one or two bytes
/// is padded with `=` to four characters.
pub open spec fn standard_base64(bytes: Seq<u8>) -> Seq<char>
    decreases bytes.len(),
{
    if bytes.len() == 0 {
        seq![]
    } else if bytes.len() == 1 {
        let a = bytes[0] as int;
        seq![base64_digit(a / 4), base64_digit((a % 4) * 16), '=', '=']
    } else if bytes.len() == 2 {
        let a = bytes[0] as int;
        let b = bytes[1] as int;
        seq![base64_digit(a / 4), base64_digit((a % 4) * 16 + b / 16), base64_digit((b % 16) * 4), '=']
    } else {
        let a = bytes[0] as int;
        let b = bytes[1] as int;
        let c = bytes[2] as int;
        seq![
            base64_digit(a / 4),
            base64_digit((a % 4) * 16 + b / 16),
            base64_digit((b % 16) * 4 + c / 64),
            base64_digit(c % 64),
        ] + standard_base64(bytes.subrange(3, bytes.len() as int))
    }
}

/// Calls `base64::engine::general_purpose::STANDARD.encode` on the UTF-8 bytes of
/// `text`. Claimed: the result is the standard base64 (RFC 4648, with padding)
/// of those bytes, as the `STANDARD` engine is documented to write it. The
/// crate panics when the encoded length overflows `usize`; the bound in
/// `requires` keeps that out.
#[verifier::external_body]
fn encode_standard_base64(text: &str) -> (r: String)
    requires
        text.spec_bytes().len() <= usize::MAX / 2,
    ensures
        r@ == standard_base64(text.spec_bytes()),
{
    base64::engine::general_purpose::STANDARD.encode(text.as_bytes())
}

/// The `user:password` text that Basic authentication encodes.
pub open spec fn credentials_text(username: Seq<char>, password: Seq<char>) -> Seq<char> {
    username + ":"@ + password
}

/// UTF-8 encoding distributes over concatenation.
proof fn lemma_encode_utf8_concat(a: Seq<char>, b: Seq<char>)
    ensures
        vstd::utf8::encode_utf8(a + b) == vstd::utf8::encode_utf8(a) + vstd::utf8::encode_utf8(b),
    decreases a.len(),
{
    if a.len() > 0 {
        assert((a + b).drop_first() =~= a.drop_first() + b);
        lemma_encode_utf8_concat(a.drop_first(), b);
        assert(vstd::utf8::encode_utf8(a + b) =~= vstd::utf8::encode_utf8(a) + vstd::utf8::encode_utf8(b));
    } else {
        assert(a + b =~= b);
        assert(vstd::utf8::encode_utf8(a) =~= Seq::<u8>::empty());
        assert(vstd::utf8::encode_utf8(a) + vstd::utf8::encode_utf8(b) =~= vstd::utf8::encode_utf8(b));
    }
}

/// A character takes at most four bytes in UTF-8.
proof fn lemma_encode_utf8_len_bound(s: Seq<char>)
    ensures
        vstd::utf8::encode_utf8(s).len() <= 4 * s.len(),
    decreases s.len(),
{
    if s.len() > 0 {
        lemma_encode_utf8_len_bound(s.drop_first());
    }
}

/// The UTF-8 length of `username:password` is that of the two parts plus one.
proof fn lemma_credentials_utf8_len(username: Seq<char>, password: Seq<char>)
    ensures
        vstd::utf8::encode_utf8(credentials_text(username, password)).len()
            == vstd::utf8::encode_utf8(username).len() + 1 + vstd::utf8::encode_utf8(password).len(),
{
    reveal_strlit(":");
    lemma_encode_utf8_concat(username + ":"@, password);
    lemma_encode_utf8_concat(username, ":"@);
    assert(":"@.drop_first() =~= Seq::<char>::empty());
    assert(":"@[0] == ':');
    assert((':' as u32) == 58);
    assert(vstd::utf8::encode_scalar(58).len() == 1);
    assert(vstd::utf8::encode_utf8(":"@.drop_first()) =~= Seq::<u8>::empty());
    assert(vstd::utf8::encode_utf8(":"@).len() == 1);
}

/// The value of an `Authorization` header for HTTP Basic authentication:
/// `Basic ` followed by the base64 of `username:password`.
pub fn basic_auth_header(username: &str, password: &str) -> (r: String)
    requires
        username@.len() + password@.len() < usize::MAX / 8,
    ensures
        r@ == "Basic "@ + standard_base64(vstd::utf8::encode_utf8(credentials_text(username@, password@))),
{
    proof {
        lemma_credentials_utf8_len(username@, password@);
        lemma_encode_utf8_len_bound(username@);
        lemma_encode_utf8_len_bound(password@);
    }
    let credentials = join3(username, ":", password);
    let encoded = encode_standard_base64(credentials.as_str());
    String::from_str("Basic ").concat(encoded.as_str())
}

} // verus!
