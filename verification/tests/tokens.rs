use sshx_core::rand_alphanumeric;

#[test]
fn zero_length_token_is_empty() {
    assert_eq!(rand_alphanumeric(0), "");
}

#[test]
fn token_has_requested_length() {
    for len in [1usize, 2, 20, 63, 256] {
        let token = rand_alphanumeric(len);
        assert_eq!(token.chars().count(), len);
        assert_eq!(token.len(), len);
    }
}

#[test]
fn token_of_length_twenty_is_alphanumeric() {
    let token = rand_alphanumeric(20);
    assert_eq!(token.len(), 20);
    assert!(token.chars().all(|c| c.is_ascii_alphanumeric()));
}

#[test]
fn every_token_character_is_alphanumeric() {
    let token = rand_alphanumeric(2000);
    for c in token.chars() {
        assert!(
            ('0'..='9').contains(&c) || ('A'..='Z').contains(&c) || ('a'..='z').contains(&c),
            "unexpected character {c:?}"
        );
    }
}

#[test]
fn independent_tokens_differ() {
    let a = rand_alphanumeric(32);
    let b = rand_alphanumeric(32);
    assert_ne!(a, b, "two 32-character random tokens collided");
}
