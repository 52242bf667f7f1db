use tody_chat::generators::{alphanumeric, generate_key, KEY_LEN};

#[test]
fn generated_key_shape() {
    let key = generate_key();
    assert_eq!(key.0.chars().count(), KEY_LEN);
    assert_eq!(KEY_LEN, 30);
    assert!(key.0.chars().all(|c| c.is_ascii_alphanumeric()));
}

#[test]
fn generated_keys_differ() {
    assert_ne!(generate_key(), generate_key());
}

#[test]
fn alphanumeric_length() {
    assert_eq!(alphanumeric(0), "");
    let s = alphanumeric(100);
    assert_eq!(s.len(), 100);
    assert!(s.chars().all(|c| c.is_ascii_alphanumeric()));
}
