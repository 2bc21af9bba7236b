use backend_supervisor::credential::{
    credential_from_entropy, generate_credential, CREDENTIAL_BYTES, CREDENTIAL_LEN,
};
use backend_supervisor::digits::{decimal, encode_hex};

fn is_lower_hex(c: char) -> bool {
    ('0'..='9').contains(&c) || ('a'..='f').contains(&c)
}

#[test]
fn credential_is_sixty_four_lowercase_hex_characters() {
    for _ in 0..50 {
        let credential = generate_credential();
        assert_eq!(credential.len(), 64);
        assert_eq!(credential.chars().count(), CREDENTIAL_LEN);
        assert!(credential.chars().all(is_lower_hex));
    }
}

#[test]
fn successive_credentials_differ() {
    let mut seen: Vec<String> = Vec::new();
    for _ in 0..200 {
        let credential = generate_credential();
        assert!(!seen.contains(&credential));
        seen.push(credential);
    }
}

#[test]
fn credential_is_not_a_constant_of_zero_bytes() {
    let zeros = "0".repeat(64);
    let first = generate_credential();
    let second = generate_credential();
    assert!(first != zeros || second != zeros);
}

#[test]
fn credential_from_known_entropy() {
    let mut entropy = [0_u8; 32];
    for (i, byte) in entropy.iter_mut().enumerate() {
        *byte = (i * 8 + 7) as u8;
    }
    assert_eq!(CREDENTIAL_BYTES, 32);
    assert_eq!(
        credential_from_entropy(&entropy),
        "070f171f272f373f474f575f676f777f878f979fa7afb7bfc7cfd7dfe7eff7ff"
    );
}

#[test]
fn credential_from_zero_entropy() {
    assert_eq!(credential_from_entropy(&[0_u8; 32]), "0".repeat(64));
    assert_eq!(credential_from_entropy(&[255_u8; 32]), "f".repeat(64));
}

#[test]
fn hex_of_nothing_is_empty() {
    assert_eq!(encode_hex(&[]), "");
}

#[test]
fn hex_puts_the_high_half_first() {
    assert_eq!(encode_hex(&[0x0f]), "0f");
    assert_eq!(encode_hex(&[0xf0]), "f0");
    assert_eq!(encode_hex(&[0x00, 0x01, 0x9a, 0xbc, 0xde, 0xff]), "00019abcdeff");
}

#[test]
fn hex_matches_the_standard_formatting() {
    for byte in 0..=255_u8 {
        assert_eq!(encode_hex(&[byte]), format!("{:02x}", byte));
    }
}

#[test]
fn decimal_of_small_and_large_numbers() {
    assert_eq!(decimal(0), "0");
    assert_eq!(decimal(9), "9");
    assert_eq!(decimal(10), "10");
    assert_eq!(decimal(8765), "8765");
    assert_eq!(decimal(65535), "65535");
}

#[test]
fn decimal_matches_the_standard_formatting() {
    for n in [0_u16, 1, 99, 100, 101, 1000, 9999, 10000, 32768, 65534] {
        assert_eq!(decimal(n), format!("{}", n));
    }
}
