//! Encoding a decoded hash record back into the canonical text, and the
//! proof that decoding the canonical text restores the record.

use vstd::prelude::*;
use vstd::string::StringExecFns;

use crate::b64::b64_decode_spec;
use crate::b64::b64_encode;
use crate::b64::b64_encode_spec;
use crate::b64::is_b64_char;
use crate::config::lemma_variant_tag_chars;
use crate::config::lemma_variant_tag_roundtrip;
use crate::config::spec_version_from_num;
use crate::config::variant_tag;
use crate::config::version_num;
use crate::config::version_str;
use crate::config::Variant;
use crate::config::Version;
use crate::decode::decode_spec;
use crate::digits::all_digits;
use crate::digits::append_u32;
use crate::digits::dec_str;
use crate::digits::is_digit;
use crate::digits::lemma_dec_str_digits;
use crate::digits::lemma_parse_dec_str;
use crate::digits::parse_u32_spec;
use crate::output::HashRaw;
use crate::output::HashRawSpec;
use crate::scan::lemma_find_from_at;
use crate::scan::lemma_find_from_here;

verus! {

/// The canonical text of a record whose salt and hash blobs have the given
/// base64 character forms.
pub open spec fn canonical(
    variant: Variant,
    version: Version,
    memory_size: u32,
    iterations: u32,
    lanes: u32,
    salt64: Seq<char>,
    hash64: Seq<char>,
) -> Seq<char> {
    seq!['$'] + variant_tag(variant) + seq!['$', 'v', '='] + version_str(version) + seq![
        '$',
        'm',
        '=',
    ] + dec_str(memory_size as int) + seq![',', 't', '='] + dec_str(iterations as int) + seq![
        ',',
        'p',
        '=',
    ] + dec_str(lanes as int) + seq!['$'] + salt64 + seq!['$'] + hash64
}

/// The textual form of a version is a numeral denoting its number.
proof fn lemma_version_str_parse(v: Version)
    ensures
        version_str(v).len() == 2,
        all_digits(version_str(v)),
        parse_u32_spec(version_str(v)) == Some(version_num(v)),
        spec_version_from_num(version_num(v)) == Some(v),
{
    let vs = version_str(v);
    assert forall|i: int| 0 <= i < vs.len() implies is_digit(#[trigger] vs[i]) by {
        match v {
            Version::_0x10 => {
                assert(vs =~= seq!['1', '6']);
            },
            Version::_0x13 => {
                assert(vs =~= seq!['1', '9']);
            },
        }
    }
    assert(vs.drop_last() =~= seq![vs[0]]);
    assert(seq![vs[0]].drop_last() =~= Seq::<char>::empty());
    assert(crate::digits::digits_val(Seq::<char>::empty()) == 0);
    assert(crate::digits::digits_val(seq![vs[0]]) == crate::digits::digit_val(vs[0]));
    assert(crate::digits::digits_val(vs) == crate::digits::digit_val(vs[0]) * 10
        + crate::digits::digit_val(vs[1]));
    assert(vs[0] != '+');
}

/// Decoding the canonical text of a record restores the record, field for
/// field: the codec's round trip, stated over the grammar itself. The two
/// blob arguments are any valid base64 texts, such as the ones
/// [`b64_encode_spec`] assigns to the record's bytes.
#[verifier::rlimit(100)]
pub proof fn lemma_decode_canonical(
    variant: Variant,
    version: Version,
    memory_size: u32,
    iterations: u32,
    lanes: u32,
    salt64: Seq<char>,
    hash64: Seq<char>,
)
    requires
        forall|i: int| 0 <= i < salt64.len() ==> is_b64_char(#[trigger] salt64[i]),
        forall|i: int| 0 <= i < hash64.len() ==> is_b64_char(#[trigger] hash64[i]),
        b64_decode_spec(salt64) is Some,
        b64_decode_spec(hash64) is Some,
    ensures
        decode_spec(canonical(variant, version, memory_size, iterations, lanes, salt64, hash64))
            == Some(
            HashRawSpec {
                variant,
                version,
                memory_size,
                iterations,
                lanes,
                raw_salt_bytes: b64_decode_spec(salt64)->0,
                raw_hash_bytes: b64_decode_spec(hash64)->0,
            },
        ),
{
    let t = variant_tag(variant);
    let vs = version_str(version);
    let ms = dec_str(memory_size as int);
    let ts = dec_str(iterations as int);
    let ps = dec_str(lanes as int);
    let s = canonical(variant, version, memory_size, iterations, lanes, salt64, hash64);

    lemma_variant_tag_chars(variant);
    lemma_variant_tag_roundtrip(variant);
    lemma_version_str_parse(version);
    lemma_dec_str_digits(memory_size as int);
    lemma_dec_str_digits(iterations as int);
    lemma_dec_str_digits(lanes as int);
    lemma_parse_dec_str(memory_size);
    lemma_parse_dec_str(iterations);
    lemma_parse_dec_str(lanes);

    let a: int = 1;
    let b = a + t.len();
    let c = b + 3;
    let d = c + vs.len();
    let e = d + 3;
    let f = e + ms.len();
    let g = f + 3;
    let h = g + ts.len();
    let i = h + 3;
    let j = i + ps.len();
    let k = j + 1;
    let l = k + salt64.len();
    let m = l + 1;

    assert(s.len() == m + hash64.len());
    assert(s[0] == '$');
    assert(forall|x: int| a <= x < b ==> #[trigger] s[x] == t[x - a]);
    assert(s[b] == '$' && s[b + 1] == 'v' && s[b + 2] == '=');
    assert(forall|x: int| c <= x < d ==> #[trigger] s[x] == vs[x - c]);
    assert(s[d] == '$' && s[d + 1] == 'm' && s[d + 2] == '=');
    assert(forall|x: int| e <= x < f ==> #[trigger] s[x] == ms[x - e]);
    assert(s[f] == ',' && s[f + 1] == 't' && s[f + 2] == '=');
    assert(forall|x: int| g <= x < h ==> #[trigger] s[x] == ts[x - g]);
    assert(s[h] == ',' && s[h + 1] == 'p' && s[h + 2] == '=');
    assert(forall|x: int| i <= x < j ==> #[trigger] s[x] == ps[x - i]);
    assert(s[j] == '$');
    assert(forall|x: int| k <= x < l ==> #[trigger] s[x] == salt64[x - k]);
    assert(s[l] == '$');
    assert(forall|x: int| m <= x < s.len() ==> #[trigger] s[x] == hash64[x - m]);

    // Step: the leading '$' is found at position 0.
    assert(s.subrange(0, 1) =~= seq!['$']);
    lemma_find_from_here(s, 0, seq!['$']);

    // Step: the '$' ending the variant tag is the first one after it.
    assert(s.subrange(b, b + 1) =~= seq!['$']);
    assert forall|x: int| a <= x < b implies s[x] != '$' by {
        assert(t[x - a] != '$');
    }
    lemma_find_from_at(s, a, b, seq!['$']);
    assert(s.subrange(a, b) =~= t);

    // Step: "$v=" is found right where the tag ends.
    assert(s.subrange(b, c) =~= seq!['$', 'v', '=']);
    lemma_find_from_here(s, b, seq!['$', 'v', '=']);

    // Step: the '$' ending the version numeral is the first one after it.
    assert(s.subrange(d, d + 1) =~= seq!['$']);
    assert forall|x: int| c <= x < d implies s[x] != '$' by {
        assert(is_digit(vs[x - c]));
    }
    lemma_find_from_at(s, c, d, seq!['$']);
    assert(s.subrange(c, d) =~= vs);

    // Step: "$m=" is found right where the version numeral ends.
    assert(s.subrange(d, e) =~= seq!['$', 'm', '=']);
    lemma_find_from_here(s, d, seq!['$', 'm', '=']);

    // Step: the ',' ending the memory numeral is the first one after it.
    assert(s.subrange(f, f + 1) =~= seq![',']);
    assert forall|x: int| e <= x < f implies s[x] != ',' by {
        assert(is_digit(ms[x - e]));
    }
    lemma_find_from_at(s, e, f, seq![',']);
    assert(s.subrange(e, f) =~= ms);

    // Step: ",t=" is found right where the memory numeral ends.
    assert(s.subrange(f, g) =~= seq![',', 't', '=']);
    lemma_find_from_here(s, f, seq![',', 't', '=']);

    // Step: the ',' ending the iteration numeral is the first one after it.
    assert(s.subrange(h, h + 1) =~= seq![',']);
    assert forall|x: int| g <= x < h implies s[x] != ',' by {
        assert(is_digit(ts[x - g]));
    }
    lemma_find_from_at(s, g, h, seq![',']);
    assert(s.subrange(g, h) =~= ts);

    // Step: ",p=" is found right where the iteration numeral ends.
    assert(s.subrange(h, i) =~= seq![',', 'p', '=']);
    lemma_find_from_here(s, h, seq![',', 'p', '=']);

    // Step: the '$' ending the lane numeral is the first one after it.
    assert(s.subrange(j, j + 1) =~= seq!['$']);
    assert forall|x: int| i <= x < j implies s[x] != '$' by {
        assert(is_digit(ps[x - i]));
    }
    lemma_find_from_at(s, i, j, seq!['$']);
    assert(s.subrange(i, j) =~= ps);

    // Step: that same '$' is consumed, and the '$' ending the salt is the
    // first one after it: base64 text contains no '$'.
    lemma_find_from_here(s, j, seq!['$']);
    assert(s.subrange(l, l + 1) =~= seq!['$']);
    assert forall|x: int| k <= x < l implies s[x] != '$' by {
        assert(is_b64_char(salt64[x - k]));
    }
    lemma_find_from_at(s, k, l, seq!['$']);
    assert(s.subrange(k, l) =~= salt64);

    // Step: that '$' is consumed, and the remainder is the hash text.
    lemma_find_from_here(s, l, seq!['$']);
    assert(s.subrange(m, s.len() as int) =~= hash64);
}

fn append_variant(out: &mut String, v: Variant)
    ensures
        final(out)@ == old(out)@ + variant_tag(v),
{
    match v {
        Variant::Argon2d => {
            proof {
                reveal_strlit("argon2d");
                assert("argon2d"@ =~= variant_tag(Variant::Argon2d));
            }
            out.append("argon2d");
        },
        Variant::Argon2i => {
            proof {
                reveal_strlit("argon2i");
                assert("argon2i"@ =~= variant_tag(Variant::Argon2i));
            }
            out.append("argon2i");
        },
        Variant::Argon2id => {
            proof {
                reveal_strlit("argon2id");
                assert("argon2id"@ =~= variant_tag(Variant::Argon2id));
            }
            out.append("argon2id");
        },
    }
}

fn append_version(out: &mut String, v: Version)
    ensures
        final(out)@ == old(out)@ + version_str(v),
{
    match v {
        Version::_0x10 => {
            proof {
                reveal_strlit("16");
                assert("16"@ =~= version_str(Version::_0x10));
            }
            out.append("16");
        },
        Version::_0x13 => {
            proof {
                reveal_strlit("19");
                assert("19"@ =~= version_str(Version::_0x13));
            }
            out.append("19");
        },
    }
}

/// Writes a record as the canonical text, and that text decodes back to
/// exactly this record: the codec's round trip, on every record.
#[verifier::rlimit(60)]
pub fn encode_rust(hash_raw: &HashRaw) -> (r: String)
    ensures
        r@ == canonical(
            hash_raw@.variant,
            hash_raw@.version,
            hash_raw@.memory_size,
            hash_raw@.iterations,
            hash_raw@.lanes,
            b64_encode_spec(hash_raw@.raw_salt_bytes),
            b64_encode_spec(hash_raw@.raw_hash_bytes),
        ),
        decode_spec(r@) == Some(hash_raw@),
{
    let mut out = String::new();
    proof {
        reveal_strlit("$");
        reveal_strlit("$v=");
        reveal_strlit("$m=");
        reveal_strlit(",t=");
        reveal_strlit(",p=");
        assert("$"@ =~= seq!['$']);
        assert("$v="@ =~= seq!['$', 'v', '=']);
        assert("$m="@ =~= seq!['$', 'm', '=']);
        assert(",t="@ =~= seq![',', 't', '=']);
        assert(",p="@ =~= seq![',', 'p', '=']);
    }
    out.append("$");
    append_variant(&mut out, hash_raw.variant);
    out.append("$v=");
    append_version(&mut out, hash_raw.version);
    out.append("$m=");
    append_u32(&mut out, hash_raw.memory_size);
    out.append(",t=");
    append_u32(&mut out, hash_raw.iterations);
    out.append(",p=");
    append_u32(&mut out, hash_raw.lanes);
    out.append("$");
    let salt64 = b64_encode(hash_raw.raw_salt_bytes.as_slice());
    out.append(salt64.as_str());
    out.append("$");
    let hash64 = b64_encode(hash_raw.raw_hash_bytes.as_slice());
    out.append(hash64.as_str());
    proof {
        assert(out@ =~= canonical(
            hash_raw@.variant,
            hash_raw@.version,
            hash_raw@.memory_size,
            hash_raw@.iterations,
            hash_raw@.lanes,
            salt64@,
            hash64@,
        ));
        lemma_decode_canonical(
            hash_raw@.variant,
            hash_raw@.version,
            hash_raw@.memory_size,
            hash_raw@.iterations,
            hash_raw@.lanes,
            salt64@,
            hash64@,
        );
    }
    out
}

} // verus!
