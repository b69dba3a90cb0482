//! Trusted boundary to the base64 transcoder (standard alphabet, no
//! padding). Transcoding itself is a trusted primitive of this crate:
//! its results are named, not restated.

use vstd::prelude::*;

verus! {

/// What base64 decoding (standard alphabet, no padding) yields on a given
/// character sequence: the decoded bytes, or nothing on invalid input.
/// The result depends on the characters alone.
pub uninterp spec fn b64_decode_spec(s: Seq<char>) -> Option<Seq<u8>>;

/// What base64 encoding (standard alphabet, no padding) yields on given
/// bytes. The result depends on the bytes alone.
pub uninterp spec fn b64_encode_spec(b: Seq<u8>) -> Seq<char>;

/// The standard base64 alphabet: `A`–`Z`, `a`–`z`, `0`–`9`, `+`, `/`.
/// In particular no `$` and no `,`, the delimiters of the hash encoding.
pub open spec fn is_b64_char(c: char) -> bool {
    ||| 65 <= c as u32 <= 90
    ||| 97 <= c as u32 <= 122
    ||| 48 <= c as u32 <= 57
    ||| c as u32 == 43
    ||| c as u32 == 47
}

/// Relies on `base64::decode_config` with `base64::STANDARD_NO_PAD`: the
/// decoded bytes of `s`, or an error on input that is not valid base64.
#[verifier::external_body]
pub fn b64_decode(s: &str) -> (r: Option<Vec<u8>>)
    ensures
        match r {
            Some(v) => b64_decode_spec(s@) == Some(v@),
            None => b64_decode_spec(s@) is None,
        },
{
    base64::decode_config(s, base64::STANDARD_NO_PAD).ok()
}

/// Relies on `base64::encode_config` with `base64::STANDARD_NO_PAD`: the
/// encoding of `b`, drawn from the standard alphabet without padding, and
/// decoded by `base64::decode_config` back to exactly `b`.
#[verifier::external_body]
pub fn b64_encode(b: &[u8]) -> (r: String)
    ensures
        r@ == b64_encode_spec(b@),
        forall|i: int| 0 <= i < r@.len() ==> is_b64_char(#[trigger] r@[i]),
        b64_decode_spec(r@) == Some(b@),
{
    base64::encode_config(b, base64::STANDARD_NO_PAD)
}

} // verus!
