use rbxsync::hashing::{content_hash, sha256_digest, to_hex};
use rbxsync::text::{parse_u64, str_contains_str, u64_to_dec_string};
use sha2::Digest;

#[test]
fn decimal_rendering_is_exact() {
    assert_eq!(u64_to_dec_string(0), "0");
    assert_eq!(u64_to_dec_string(7), "7");
    assert_eq!(u64_to_dec_string(50), "50");
    assert_eq!(u64_to_dec_string(1234), "1234");
    assert_eq!(u64_to_dec_string(u64::MAX), "18446744073709551615");
}

#[test]
fn decimal_parsing_accepts_what_the_standard_parser_accepts() {
    assert_eq!(parse_u64("0"), Some(0));
    assert_eq!(parse_u64("123"), Some(123));
    assert_eq!(parse_u64("+123"), Some(123));
    assert_eq!(parse_u64("007"), Some(7));
    assert_eq!(parse_u64("18446744073709551615"), Some(u64::MAX));
}

#[test]
fn decimal_parsing_rejects_what_the_standard_parser_rejects() {
    assert_eq!(parse_u64(""), None);
    assert_eq!(parse_u64("+"), None);
    assert_eq!(parse_u64("-1"), None);
    assert_eq!(parse_u64("12a"), None);
    assert_eq!(parse_u64(" 12"), None);
    assert_eq!(parse_u64("18446744073709551616"), None);
}

#[test]
fn parsing_agrees_with_the_standard_library() {
    for s in ["0", "42", "+9", "", "+", "99x", "18446744073709551616", "5 "] {
        assert_eq!(parse_u64(s), s.parse::<u64>().ok(), "on input {:?}", s);
    }
}

#[test]
fn hex_encoding_is_lower_case_two_digits_per_byte() {
    assert_eq!(to_hex(&vec![]), "");
    assert_eq!(to_hex(&vec![0x00]), "00");
    assert_eq!(to_hex(&vec![0xbe, 0xef]), "beef");
    assert_eq!(to_hex(&vec![0x01, 0x23, 0x45, 0x67, 0x89, 0xab, 0xcd, 0xef]), "0123456789abcdef");
}

#[test]
fn the_content_hash_is_the_known_sha256_digest() {
    // The well-known SHA-256 test vectors pin the trusted digest call.
    assert_eq!(
        content_hash(&b"abc".to_vec()),
        "ba7816bf8f01cfea414140de5dae2223b00361a396177a9cb410ff61f20015ad"
    );
    assert_eq!(
        content_hash(&Vec::new()),
        "e3b0c44298fc1c149afbf4c8996fb92427ae41e4649b934ca495991b7852b855"
    );
}

#[test]
fn the_digest_matches_an_independent_sha256_computation() {
    let data = b"some icon bytes".to_vec();
    let ours = sha256_digest(&data);
    let theirs = sha2::Sha256::digest(&data[..]).to_vec();
    assert_eq!(ours, theirs);
    let expected: String = theirs.iter().map(|b| format!("{:02x}", b)).collect();
    assert_eq!(content_hash(&data), expected);
}

#[test]
fn substring_search_matches_the_standard_contains() {
    let hay = "API request failed: 403 - Payment source is invalid.";
    assert!(str_contains_str(hay, "Payment source is invalid"));
    assert!(str_contains_str(hay, ""));
    assert!(str_contains_str(hay, hay));
    assert!(!str_contains_str(hay, "code\":16"));
    assert!(!str_contains_str("short", "much longer needle"));
    for needle in ["403", "API", "invalid.", "xyz", " - "] {
        assert_eq!(str_contains_str(hay, needle), hay.contains(needle));
    }
}
