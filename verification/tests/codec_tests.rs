use argonautica::config::Variant;
use argonautica::config::Version;
use argonautica::decode::decode_rust;
use argonautica::encode::encode_rust;
use argonautica::errors::HashDecodingError;
use argonautica::output::HashRaw;

#[test]
fn test_decode() {
    let hash = "$argon2id$v=19$m=4096,t=128,p=2$gt4I/z7gnC8Ao0ofCFvz+2LGxI3it1TnCnlxn0PWKko$v6V587B9qbKraulhK/6vFUq93BGWugdzgRhtyap9tDM";
    let hash_raw = decode_rust(hash).unwrap();
    assert_eq!(hash_raw.variant(), Variant::Argon2id);
    assert_eq!(hash_raw.version(), Version::_0x13);
    assert_eq!(hash_raw.memory_size(), 4096);
    assert_eq!(hash_raw.iterations(), 128);
    assert_eq!(hash_raw.lanes(), 2);

    let hash = "$argon2i$v=16$m=32,t=3,p=1$gt4I/z7gnC8Ao0ofCFvz+2LGxI3it1TnCnlxn0PWKko$v6V587B9qbKraulhK/6vFUq93BGWugdzgRhtyap9tDM";
    let hash_raw = decode_rust(hash).unwrap();
    assert_eq!(hash_raw.variant(), Variant::Argon2i);
    assert_eq!(hash_raw.version(), Version::_0x10);
    assert_eq!(hash_raw.memory_size(), 32);
    assert_eq!(hash_raw.iterations(), 3);
    assert_eq!(hash_raw.lanes(), 1);

    let hash = "$argon2d$v=16$m=32,t=3,p=1$gt4I/z7gnC8Ao0ofCFvz+2LGxI3it1TnCnlxn0PWKko$v6V587B9qbKraulhK/6vFUq93BGWugdzgRhtyap9tDM";
    let hash_raw = decode_rust(hash).unwrap();
    assert_eq!(hash_raw.variant(), Variant::Argon2d);
    assert_eq!(hash_raw.version(), Version::_0x10);
    assert_eq!(hash_raw.memory_size(), 32);
    assert_eq!(hash_raw.iterations(), 3);
    assert_eq!(hash_raw.lanes(), 1);
}

#[test]
fn test_decode_blob_bytes() {
    // The two blobs come back as the base64-decoded bytes, not as text.
    let hash = "$argon2id$v=19$m=32,t=3,p=1$AQID$BAUG";
    let hash_raw = decode_rust(hash).unwrap();
    assert_eq!(hash_raw.raw_salt_bytes(), &[1u8, 2, 3][..]);
    assert_eq!(hash_raw.raw_hash_bytes(), &[4u8, 5, 6][..]);
}

#[test]
fn test_encode_concrete() {
    let hash_raw = HashRaw::new(3, 1, 32, vec![4u8, 5, 6], vec![1u8, 2, 3], Variant::Argon2d, Version::_0x10);
    assert_eq!(encode_rust(&hash_raw), "$argon2d$v=16$m=32,t=3,p=1$AQID$BAUG");
}

fn assert_round_trip(variant: Variant, version: Version) {
    let original = HashRaw::new(
        128,
        2,
        4096,
        vec![9u8, 8, 7, 6, 5],
        vec![0u8, 255, 17, 34],
        variant,
        version,
    );
    let encoded = encode_rust(&original);
    let decoded = decode_rust(&encoded).unwrap();
    assert_eq!(decoded.variant(), variant);
    assert_eq!(decoded.version(), version);
    assert_eq!(decoded.memory_size(), 4096);
    assert_eq!(decoded.iterations(), 128);
    assert_eq!(decoded.lanes(), 2);
    assert_eq!(decoded.raw_salt_bytes(), original.raw_salt_bytes());
    assert_eq!(decoded.raw_hash_bytes(), original.raw_hash_bytes());
}

#[test]
fn test_round_trip_all_variants_and_versions() {
    for variant in [Variant::Argon2d, Variant::Argon2i, Variant::Argon2id] {
        for version in [Version::_0x10, Version::_0x13] {
            assert_round_trip(variant, version);
        }
    }
}

#[test]
fn test_decode_then_encode_restores_text() {
    let hash = "$argon2id$v=19$m=4096,t=128,p=2$gt4I/z7gnC8Ao0ofCFvz+2LGxI3it1TnCnlxn0PWKko$v6V587B9qbKraulhK/6vFUq93BGWugdzgRhtyap9tDM";
    let hash_raw = decode_rust(hash).unwrap();
    assert_eq!(encode_rust(&hash_raw), hash);
}

#[test]
fn test_decoders_agree_on_same_text() {
    // Two independent decode passes over the same text: identical records.
    let hash = "$argon2i$v=16$m=32,t=3,p=1$AQID$BAUG";
    let first = decode_rust(hash).unwrap();
    let second = decode_rust(hash).unwrap();
    assert_eq!(first.variant(), second.variant());
    assert_eq!(first.version(), second.version());
    assert_eq!(first.memory_size(), second.memory_size());
    assert_eq!(first.iterations(), second.iterations());
    assert_eq!(first.lanes(), second.lanes());
    assert_eq!(first.raw_salt_bytes(), second.raw_salt_bytes());
    assert_eq!(first.raw_hash_bytes(), second.raw_hash_bytes());
}

#[test]
fn test_decode_missing_delimiters() {
    assert_eq!(decode_rust(""), Err(HashDecodingError));
    assert_eq!(decode_rust("argon2id v=19 m=32,t=3,p=1"), Err(HashDecodingError));
    assert_eq!(decode_rust("$argon2id"), Err(HashDecodingError));
    assert_eq!(decode_rust("$argon2id$v=19"), Err(HashDecodingError));
    assert_eq!(decode_rust("$argon2id$v=19$m=32,t=3,p=1"), Err(HashDecodingError));
    assert_eq!(decode_rust("$argon2id$v=19$m=32,t=3,p=1$AQID"), Err(HashDecodingError));
    assert_eq!(decode_rust("$argon2id$v=19$m=32 t=3,p=1$AQID$BAUG"), Err(HashDecodingError));
}

#[test]
fn test_decode_unknown_variant_or_version() {
    assert_eq!(decode_rust("$argon2x$v=19$m=32,t=3,p=1$AQID$BAUG"), Err(HashDecodingError));
    assert_eq!(decode_rust("$argon$v=19$m=32,t=3,p=1$AQID$BAUG"), Err(HashDecodingError));
    assert_eq!(decode_rust("$$v=19$m=32,t=3,p=1$AQID$BAUG"), Err(HashDecodingError));
    assert_eq!(decode_rust("$argon2id$v=17$m=32,t=3,p=1$AQID$BAUG"), Err(HashDecodingError));
    assert_eq!(decode_rust("$argon2id$v=$m=32,t=3,p=1$AQID$BAUG"), Err(HashDecodingError));
}

#[test]
fn test_decode_non_numeric_fields() {
    assert_eq!(decode_rust("$argon2id$v=19$m=abc,t=3,p=1$AQID$BAUG"), Err(HashDecodingError));
    assert_eq!(decode_rust("$argon2id$v=19$m=32,t=-3,p=1$AQID$BAUG"), Err(HashDecodingError));
    assert_eq!(decode_rust("$argon2id$v=19$m=32,t=3,p=x$AQID$BAUG"), Err(HashDecodingError));
    // A value that does not fit in 32 bits is rejected, one that just fits
    // is kept.
    assert_eq!(
        decode_rust("$argon2id$v=19$m=4294967296,t=3,p=1$AQID$BAUG"),
        Err(HashDecodingError)
    );
    let hash_raw = decode_rust("$argon2id$v=19$m=4294967295,t=3,p=1$AQID$BAUG").unwrap();
    assert_eq!(hash_raw.memory_size(), 4294967295);
}

#[test]
fn test_decode_plus_sign_like_u32_parse() {
    // The numeric fields parse as `u32` does, so a leading `+` is accepted.
    let hash_raw = decode_rust("$argon2id$v=19$m=+32,t=3,p=1$AQID$BAUG").unwrap();
    assert_eq!(hash_raw.memory_size(), 32);
}

#[test]
fn test_decode_invalid_base64() {
    assert_eq!(decode_rust("$argon2id$v=19$m=32,t=3,p=1$@!$BAUG"), Err(HashDecodingError));
    assert_eq!(decode_rust("$argon2id$v=19$m=32,t=3,p=1$AQID$B*UG"), Err(HashDecodingError));
    // A blob of the wrong length cannot be valid base64 either.
    assert_eq!(decode_rust("$argon2id$v=19$m=32,t=3,p=1$AQIDA$BAUG"), Err(HashDecodingError));
}

#[test]
fn test_decode_empty_salt() {
    let hash_raw = decode_rust("$argon2id$v=19$m=32,t=3,p=1$$BAUG").unwrap();
    assert_eq!(hash_raw.raw_salt_bytes(), &[][..]);
    assert_eq!(hash_raw.raw_hash_bytes(), &[4u8, 5, 6][..]);
}

#[test]
fn test_decode_skips_to_first_delimiter_occurrence() {
    // Each "skip up to and consume" step lands on the first occurrence of
    // its delimiter, wherever that is; stray text before it is skipped.
    let hash_raw = decode_rust("prefix$argon2id$v=19$m=32,t=3,p=1$AQID$BAUG").unwrap();
    assert_eq!(hash_raw.variant(), Variant::Argon2id);
    let hash_raw = decode_rust("$argon2id$junk$v=19$m=32,t=3,p=1$AQID$BAUG").unwrap();
    assert_eq!(hash_raw.memory_size(), 32);
}
