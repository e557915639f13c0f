use telemy::aegis::{generate_idempotency_key, generate_token, make_idempotency_key};
use telemy::text::to_wide;

#[test]
fn to_wide_is_null_terminated() {
    let v = to_wide("Telemy");
    assert!(!v.is_empty());
    assert_eq!(*v.last().unwrap(), 0);
}

#[test]
fn to_wide_includes_content() {
    let v = to_wide("A");
    assert_eq!(v[0], 'A' as u16);
    assert_eq!(v[1], 0);
}

#[test]
fn to_wide_encodes_supplementary_planes_as_surrogate_pairs() {
    // U+10437 is encoded as the surrogate pair D801 DC37.
    let v = to_wide("\u{10437}");
    assert_eq!(v, vec![0xD801, 0xDC37, 0]);
}

#[test]
fn idempotency_key_joins_prefix_timestamp_and_token() {
    assert_eq!(make_idempotency_key(5, "abc"), "telemy-5-abc");
    assert_eq!(make_idempotency_key(1234567890, "XYZ9"), "telemy-1234567890-XYZ9");
    assert_eq!(make_idempotency_key(0, ""), "telemy-0-");
}

#[test]
fn generated_token_has_the_requested_length() {
    let t = generate_token(12);
    assert_eq!(t.chars().count(), 12);
    assert!(t.chars().all(|c| c.is_ascii_alphanumeric()));
    assert_eq!(generate_token(0).len(), 0);
}

#[test]
fn generated_key_has_the_documented_shape() {
    let k = generate_idempotency_key();
    assert!(k.starts_with("telemy-"));
    let rest = &k["telemy-".len()..];
    let (ts, token) = rest.split_at(rest.find('-').expect("separator"));
    assert!(ts.chars().all(|c| c.is_ascii_digit()));
    assert_eq!(token.len(), 1 + 12);
    assert!(token[1..].chars().all(|c| c.is_ascii_alphanumeric()));
}
