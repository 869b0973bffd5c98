use assist_rs::digest::{eq_ignore_ascii_case, md5_matches, to_lower_hex, Md5Stream};

fn md5_hex(data: &[u8]) -> String {
    let mut s = Md5Stream::new();
    s.update(data);
    s.hex_digest()
}

#[test]
fn md5_matches_rfc1321_vectors() {
    let cases: &[(&[u8], &str)] = &[
        (b"", "d41d8cd98f00b204e9800998ecf8427e"),
        (b"abc", "900150983cd24fb0d6963f7d28e17f72"),
        (
            b"The quick brown fox jumps over the lazy dog",
            "9e107d9d372bb6826bd81d3542a419d6",
        ),
    ];
    for (i, (payload, expected)) in cases.iter().enumerate() {
        assert_eq!(md5_hex(payload), *expected, "case {i}");
    }
}

#[test]
fn md5_stream_is_independent_of_chunking() {
    let data = b"The quick brown fox jumps over the lazy dog";
    let mut s = Md5Stream::new();
    for chunk in data.chunks(5) {
        s.update(chunk);
    }
    assert_eq!(s.hex_digest(), "9e107d9d372bb6826bd81d3542a419d6");
}

#[test]
fn lower_hex_renders_two_digits_per_byte() {
    assert_eq!(to_lower_hex(&[0x00, 0x0f, 0xa5, 0xff]), "000fa5ff");
    assert_eq!(to_lower_hex(&[]), "");
}

#[test]
fn sidecar_digest_comparison() {
    let actual = md5_hex(b"hello");
    // Exact match.
    assert!(md5_matches(&actual, &actual));
    // Case-insensitive match.
    assert!(md5_matches(&actual, &actual.to_uppercase()));
    // Mismatch.
    assert!(!md5_matches(&actual, "0".repeat(32).as_str()));
    // Legacy sidecar without a digest accepts anything.
    assert!(md5_matches(&actual, ""));
    assert!(md5_matches("", ""));
}

#[test]
fn ascii_case_insensitive_equality() {
    assert!(eq_ignore_ascii_case("AbC", "aBc"));
    assert!(!eq_ignore_ascii_case("abc", "abd"));
    assert!(!eq_ignore_ascii_case("abc", "abcd"));
    assert!(!eq_ignore_ascii_case("é", "É"));
}

#[test]
fn hex_digests_have_thirty_two_lower_case_digits() {
    for data in [&b""[..], &b"abc"[..], &[0xffu8; 1000][..]] {
        let h = md5_hex(data);
        assert_eq!(h.len(), 32);
        assert!(h.bytes().all(|b| b.is_ascii_digit() || (b'a'..=b'f').contains(&b)));
    }
}
