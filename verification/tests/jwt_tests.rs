use executionbackup::jwt::{decode_jwt_secret, make_bearer};

#[test]
fn hex_secret_is_decoded() {
    let contents = "aa".repeat(32).into_bytes();
    let key = decode_jwt_secret(&contents);
    assert_eq!(key, vec![0xaa; 32]);
}

#[test]
fn hex_secret_with_prefix_and_whitespace() {
    let contents = format!("  0x{}\n", "0123456789abcdef".repeat(4)).into_bytes();
    let key = decode_jwt_secret(&contents);
    assert_eq!(key.len(), 32);
    assert_eq!(&key[..8], &[0x01, 0x23, 0x45, 0x67, 0x89, 0xab, 0xcd, 0xef]);
}

#[test]
fn uppercase_hex_is_accepted() {
    let contents = b"0xAB".to_vec();
    assert_eq!(decode_jwt_secret(&contents), vec![0xab]);
}

#[test]
fn non_hex_contents_are_the_raw_key() {
    let contents = b"not hex at all!".to_vec();
    assert_eq!(decode_jwt_secret(&contents), contents);
}

#[test]
fn odd_length_hex_is_the_raw_key() {
    let contents = b"abc".to_vec();
    assert_eq!(decode_jwt_secret(&contents), contents);
}

#[test]
fn empty_contents_stay_empty() {
    let contents: Vec<u8> = Vec::new();
    assert_eq!(decode_jwt_secret(&contents), contents);
}

#[test]
fn bearer_token_matches_reference_vector() {
    // HS256 over header {"typ":"JWT","alg":"HS256"} and claim
    // {"iat":1700000000} with a secret of 32 0xaa bytes.
    let secret = vec![0xaa; 32];
    let bearer = make_bearer(&secret, 1_700_000_000);
    assert_eq!(
        bearer,
        "Bearer eyJ0eXAiOiJKV1QiLCJhbGciOiJIUzI1NiJ9.eyJpYXQiOjE3MDAwMDAwMDB9.\
         Bx-27lGDQwzGfw-lsdWbRYGLz5XK8XBc3YOGCZLtsoI"
    );
}

#[test]
fn bearer_token_depends_on_the_secret() {
    let a = make_bearer(&vec![0xaa; 32], 1_700_000_000);
    let b = make_bearer(&vec![0xbb; 32], 1_700_000_000);
    assert_ne!(a, b);
}

#[test]
fn bearer_token_depends_on_the_issue_time() {
    let a = make_bearer(&vec![0xaa; 32], 1_700_000_000);
    let b = make_bearer(&vec![0xaa; 32], 1_700_000_001);
    assert_ne!(a, b);
}
