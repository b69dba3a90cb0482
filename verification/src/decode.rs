//! Decoding the canonical textual hash encoding
//! `$<variant>$v=<version>$m=<m>,t=<t>,p=<p>$<salt>$<hash>`
//! into a structured record.
//!
//! The grammar is a left-to-right scan: each "skip up to and consume a
//! delimiter" step lands on the first occurrence of that delimiter, and
//! every structural defect collapses into the single
//! [`HashDecodingError`]. No partial record is ever returned.

use vstd::prelude::*;
use vstd::string::StrSliceExecFns;

use crate::b64::b64_decode;
use crate::b64::b64_decode_spec;
use crate::config::spec_variant_from_tag;
use crate::config::spec_version_from_num;
use crate::config::variant_tag;
use crate::config::version_from_num;
use crate::config::Variant;
use crate::digits::parse_u32_spec;
use crate::digits::parse_u32_range;
use crate::errors::HashDecodingError;
use crate::output::HashRaw;
use crate::output::HashRawSpec;
use crate::scan::find_char;
use crate::scan::find_from;
use crate::scan::find_pat3;

verus! {

/// The meaning of the decoder on any character sequence: the record the
/// grammar assigns to it, or nothing if the input is structurally
/// malformed. Any two decoders of this encoding must agree with it.
pub open spec fn decode_spec(s: Seq<char>) -> Option<HashRawSpec> {
    match find_from(s, 0, seq!['$']) {
        None => None,
        Some(i0) => match find_from(s, i0 + 1, seq!['$']) {
            None => None,
            Some(i1) => match spec_variant_from_tag(s.subrange(i0 + 1, i1)) {
                None => None,
                Some(variant) => match find_from(s, i1, seq!['$', 'v', '=']) {
                    None => None,
                    Some(j0) => match find_from(s, j0 + 3, seq!['$']) {
                        None => None,
                        Some(j1) => match parse_u32_spec(s.subrange(j0 + 3, j1)) {
                            None => None,
                            Some(vnum) => match spec_version_from_num(vnum) {
                                None => None,
                                Some(version) => match find_from(s, j1, seq!['$', 'm', '=']) {
                                    None => None,
                                    Some(k0) => match find_from(s, k0 + 3, seq![',']) {
                                        None => None,
                                        Some(k1) => match parse_u32_spec(s.subrange(k0 + 3, k1)) {
                                            None => None,
                                            Some(memory_size) => match find_from(
                                                s,
                                                k1,
                                                seq![',', 't', '='],
                                            ) {
                                                None => None,
                                                Some(l0) => match find_from(s, l0 + 3, seq![',']) {
                                                    None => None,
                                                    Some(l1) => match parse_u32_spec(
                                                        s.subrange(l0 + 3, l1),
                                                    ) {
                                                        None => None,
                                                        Some(iterations) => match find_from(
                                                            s,
                                                            l1,
                                                            seq![',', 'p', '='],
                                                        ) {
                                                            None => None,
                                                            Some(m0) => match find_from(
                                                                s,
                                                                m0 + 3,
                                                                seq!['$'],
                                                            ) {
                                                                None => None,
                                                                Some(m1) => match parse_u32_spec(
                                                                    s.subrange(m0 + 3, m1),
                                                                ) {
                                                                    None => None,
                                                                    Some(lanes) => decode_tail_spec(
                                                                        s,
                                                                        m1,
                                                                        variant,
                                                                        version,
                                                                        memory_size,
                                                                        iterations,
                                                                        lanes,
                                                                    ),
                                                                },
                                                            },
                                                        },
                                                    },
                                                },
                                            },
                                        },
                                    },
                                },
                            },
                        },
                    },
                },
            },
        },
    }
}

/// The salt and hash part of the grammar, from the `$` that ends the
/// numeric parameters.
pub open spec fn decode_tail_spec(
    s: Seq<char>,
    m1: int,
    variant: Variant,
    version: crate::config::Version,
    memory_size: u32,
    iterations: u32,
    lanes: u32,
) -> Option<HashRawSpec> {
    match find_from(s, m1, seq!['$']) {
        None => None,
        Some(n0) => match find_from(s, n0 + 1, seq!['$']) {
            None => None,
            Some(n1) => match b64_decode_spec(s.subrange(n0 + 1, n1)) {
                None => None,
                Some(raw_salt_bytes) => match find_from(s, n1, seq!['$']) {
                    None => None,
                    Some(n2) => match b64_decode_spec(s.subrange(n2 + 1, s.len() as int)) {
                        None => None,
                        Some(raw_hash_bytes) => Some(
                            HashRawSpec {
                                variant,
                                version,
                                memory_size,
                                iterations,
                                lanes,
                                raw_salt_bytes,
                                raw_hash_bytes,
                            },
                        ),
                    },
                },
            },
        },
    }
}

/// Reads the character range `[lo, hi)` of `s` as a variant tag.
fn variant_from_range(s: &str, lo: usize, hi: usize) -> (r: Option<Variant>)
    requires
        lo <= hi <= s@.len(),
    ensures
        r == spec_variant_from_tag(s@.subrange(lo as int, hi as int)),
{
    let ghost sub = s@.subrange(lo as int, hi as int);
    let len = hi - lo;
    proof {
        assert(variant_tag(Variant::Argon2d).len() == 7);
        assert(variant_tag(Variant::Argon2i).len() == 7);
        assert(variant_tag(Variant::Argon2id).len() == 8);
    }
    if len != 7 && len != 8 {
        return None;
    }
    proof {
        assert(sub[0] == s@[lo as int]);
        assert(sub[1] == s@[lo + 1]);
        assert(sub[2] == s@[lo + 2]);
        assert(sub[3] == s@[lo + 3]);
        assert(sub[4] == s@[lo + 4]);
        assert(sub[5] == s@[lo + 5]);
        assert(sub[6] == s@[lo + 6]);
    }
    let prefix_ok = s.get_char(lo) == 'a' && s.get_char(lo + 1) == 'r' && s.get_char(lo + 2) == 'g'
        && s.get_char(lo + 3) == 'o' && s.get_char(lo + 4) == 'n' && s.get_char(lo + 5) == '2';
    if !prefix_ok {
        return None;
    }
    if len == 7 {
        let c = s.get_char(lo + 6);
        if c == 'd' {
            proof {
                assert(sub =~= variant_tag(Variant::Argon2d));
            }
            Some(Variant::Argon2d)
        } else if c == 'i' {
            proof {
                assert(sub =~= variant_tag(Variant::Argon2i));
            }
            Some(Variant::Argon2i)
        } else {
            None
        }
    } else {
        proof {
            assert(sub[7] == s@[lo + 7]);
        }
        if s.get_char(lo + 6) == 'i' && s.get_char(lo + 7) == 'd' {
            proof {
                assert(sub =~= variant_tag(Variant::Argon2id));
            }
            Some(Variant::Argon2id)
        } else {
            None
        }
    }
}

/// Parses a textual hash into a [`HashRaw`], exactly as [`decode_spec`]
/// assigns meaning to the input; every malformed input yields the one
/// decoding error, and no input panics.
#[verifier::rlimit(60)]
pub fn decode_rust(hash: &str) -> (r: Result<HashRaw, HashDecodingError>)
    ensures
        match r {
            Ok(h) => decode_spec(hash@) == Some(h@),
            Err(_) => decode_spec(hash@) is None,
        },
{
    let n = hash.unicode_len();
    let i0 = match find_char(hash, 0, '$') {
        Some(i) => i,
        None => {
            return Err(HashDecodingError);
        },
    };
    let i1 = match find_char(hash, i0 + 1, '$') {
        Some(i) => i,
        None => {
            return Err(HashDecodingError);
        },
    };
    let variant = match variant_from_range(hash, i0 + 1, i1) {
        Some(v) => v,
        None => {
            return Err(HashDecodingError);
        },
    };
    let j0 = match find_pat3(hash, i1, '$', 'v', '=') {
        Some(i) => i,
        None => {
            return Err(HashDecodingError);
        },
    };
    let j1 = match find_char(hash, j0 + 3, '$') {
        Some(i) => i,
        None => {
            return Err(HashDecodingError);
        },
    };
    let vnum = match parse_u32_range(hash, j0 + 3, j1) {
        Some(v) => v,
        None => {
            return Err(HashDecodingError);
        },
    };
    let version = match version_from_num(vnum) {
        Some(v) => v,
        None => {
            return Err(HashDecodingError);
        },
    };
    let k0 = match find_pat3(hash, j1, '$', 'm', '=') {
        Some(i) => i,
        None => {
            return Err(HashDecodingError);
        },
    };
    let k1 = match find_char(hash, k0 + 3, ',') {
        Some(i) => i,
        None => {
            return Err(HashDecodingError);
        },
    };
    let memory_size = match parse_u32_range(hash, k0 + 3, k1) {
        Some(v) => v,
        None => {
            return Err(HashDecodingError);
        },
    };
    let l0 = match find_pat3(hash, k1, ',', 't', '=') {
        Some(i) => i,
        None => {
            return Err(HashDecodingError);
        },
    };
    let l1 = match find_char(hash, l0 + 3, ',') {
        Some(i) => i,
        None => {
            return Err(HashDecodingError);
        },
    };
    let iterations = match parse_u32_range(hash, l0 + 3, l1) {
        Some(v) => v,
        None => {
            return Err(HashDecodingError);
        },
    };
    let m0 = match find_pat3(hash, l1, ',', 'p', '=') {
        Some(i) => i,
        None => {
            return Err(HashDecodingError);
        },
    };
    let m1 = match find_char(hash, m0 + 3, '$') {
        Some(i) => i,
        None => {
            return Err(HashDecodingError);
        },
    };
    let lanes = match parse_u32_range(hash, m0 + 3, m1) {
        Some(v) => v,
        None => {
            return Err(HashDecodingError);
        },
    };
    let n0 = match find_char(hash, m1, '$') {
        Some(i) => i,
        None => {
            return Err(HashDecodingError);
        },
    };
    let n1 = match find_char(hash, n0 + 1, '$') {
        Some(i) => i,
        None => {
            return Err(HashDecodingError);
        },
    };
    let salt_str = hash.substring_char(n0 + 1, n1);
    let raw_salt_bytes = match b64_decode(salt_str) {
        Some(v) => v,
        None => {
            return Err(HashDecodingError);
        },
    };
    let n2 = match find_char(hash, n1, '$') {
        Some(i) => i,
        None => {
            return Err(HashDecodingError);
        },
    };
    let rest_str = hash.substring_char(n2 + 1, n);
    let raw_hash_bytes = match b64_decode(rest_str) {
        Some(v) => v,
        None => {
            return Err(HashDecodingError);
        },
    };
    let hash_raw = HashRaw::new(
        iterations,
        lanes,
        memory_size,
        raw_hash_bytes,
        raw_salt_bytes,
        variant,
        version,
    );
    Ok(hash_raw)
}

/// Decoding is a function of the input text alone: any two decoders that
/// meet this crate's decoding contract return field-for-field identical
/// records on the same input.
pub proof fn lemma_decoders_agree(
    s: Seq<char>,
    r1: Option<HashRawSpec>,
    r2: Option<HashRawSpec>,
)
    requires
        r1 == decode_spec(s),
        r2 == decode_spec(s),
    ensures
        r1 == r2,
{
}

} // verus!
