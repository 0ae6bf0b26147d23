use burrow_client::crypto::{create_attestation, Keypair};
use burrow_client::error::BurrowError;
use std::time::{SystemTime, UNIX_EPOCH};

fn now() -> u64 {
    SystemTime::now().duration_since(UNIX_EPOCH).unwrap().as_secs()
}

#[test]
fn test_create_attestation() {
    let keypair = Keypair::generate();
    let attestation = create_attestation(&keypair, Some("myapp"), now());

    assert!(!attestation.public_key.is_empty());
    assert_eq!(attestation.requested_subdomain, Some("myapp".to_string()));
    assert!(attestation.timestamp > 0);
    assert!(!attestation.signature.is_empty());
}

#[test]
fn test_create_attestation_no_subdomain() {
    let keypair = Keypair::generate();
    let attestation = create_attestation(&keypair, None, now());

    assert!(attestation.requested_subdomain.is_none());
}

#[test]
fn test_keypair_generate() {
    let keypair = Keypair::generate();
    assert_eq!(keypair.verifying_key.len(), 32);
}

#[test]
fn test_keypair_save_load() {
    // The key file's text is what is saved and loaded; the file itself is
    // the caller's.
    let original = Keypair::generate();
    let saved = original.to_file_text();

    let loaded = Keypair::from_file_text(&saved).unwrap();

    assert_eq!(original.verifying_key, loaded.verifying_key);
    assert_eq!(original.signing_key, loaded.signing_key);
}

// The first test vector of RFC 8032, section 7.1.
const SEED: [u8; 32] = [
    0x9d, 0x61, 0xb1, 0x9d, 0xef, 0xfd, 0x5a, 0x60, 0xba, 0x84, 0x4a, 0xf4, 0x92, 0xec, 0x2c, 0xc4,
    0x44, 0x49, 0xc5, 0x69, 0x7b, 0x32, 0x69, 0x19, 0x70, 0x3b, 0xac, 0x03, 0x1c, 0xae, 0x7f, 0x60,
];
const PUBLIC: [u8; 32] = [
    0xd7, 0x5a, 0x98, 0x01, 0x82, 0xb1, 0x0a, 0xb7, 0xd5, 0x4b, 0xfe, 0xd3, 0xc9, 0x64, 0x07, 0x3a,
    0x0e, 0xe1, 0x72, 0xf3, 0xda, 0xa6, 0x23, 0x25, 0xaf, 0x02, 0x1a, 0x68, 0xf7, 0x07, 0x51, 0x1a,
];

#[test]
fn keypair_of_a_known_seed() {
    let keypair = Keypair::from_seed(SEED);
    assert_eq!(keypair.signing_key, SEED);
    assert_eq!(keypair.verifying_key, PUBLIC);
    assert_eq!(keypair.public_key_base64(), "11qYAYKxCrfVS/7TyWQHOg7hcvPapiMlrwIaaPcHURo=");
    let signature = keypair.sign(b"");
    assert_eq!(
        &signature[..8],
        &[0xe5, 0x56, 0x43, 0x00, 0xc3, 0x60, 0xac, 0x72]
    );
}

#[test]
fn key_file_text_is_indented_json() {
    let keypair = Keypair::from_seed(SEED);
    assert_eq!(
        keypair.to_file_text(),
        "{\n  \"public_key\": \"11qYAYKxCrfVS/7TyWQHOg7hcvPapiMlrwIaaPcHURo=\",\n  \"secret_key\": \"nWGxne/9WmC6hEr0kuwsxERJxWl7MmkZcDusAxyuf2DXWpgBgrEKt9VL/tPJZAc6DuFy89qmIyWvAhpo9wdRGg==\"\n}"
    );
}

#[test]
fn attestation_signs_the_registration_message() {
    let keypair = Keypair::from_seed(SEED);
    let with = create_attestation(&keypair, Some("myapp"), 1700000000);
    let without = create_attestation(&keypair, None, 1700000000);
    assert_eq!(with.timestamp, 1700000000);
    assert_eq!(with.public_key, "11qYAYKxCrfVS/7TyWQHOg7hcvPapiMlrwIaaPcHURo=");
    assert_eq!(with.signature.len(), 88);
    assert_ne!(with.signature, without.signature);
    let expected = keypair.sign(b"burrow:register:1700000000:myapp");
    let again = create_attestation(&keypair, Some("myapp"), 1700000000);
    assert_eq!(with.signature, again.signature);
    assert_eq!(burrow_client::encoding::decode_base64(&with.signature), Some(expected.to_vec()));
    let expected = keypair.sign(b"burrow:register:1700000000:");
    assert_eq!(burrow_client::encoding::decode_base64(&without.signature), Some(expected.to_vec()));
}

#[test]
fn key_file_faults() {
    let good = Keypair::from_seed(SEED).to_file_text();
    assert!(Keypair::from_file_text(&good).is_ok());
    assert_eq!(
        Keypair::from_file_text("not json"),
        Err(BurrowError::Json("Invalid keypair file".to_string()))
    );
    assert_eq!(
        Keypair::from_file_text(r#"{"public_key":"x"}"#),
        Err(BurrowError::Json("Invalid keypair file".to_string()))
    );
    match Keypair::from_file_text(r#"{"public_key":"AAAA","secret_key":"!!"}"#) {
        Err(BurrowError::Crypto(text)) => assert!(text.starts_with("Invalid secret key encoding: ")),
        other => panic!("unexpected {:?}", other),
    }
    assert_eq!(
        Keypair::from_file_text(r#"{"public_key":"AAAA","secret_key":"AAAA"}"#),
        Err(BurrowError::Crypto("Invalid secret key length".to_string()))
    );
    let secret = "nWGxne/9WmC6hEr0kuwsxERJxWl7MmkZcDusAxyuf2DXWpgBgrEKt9VL/tPJZAc6DuFy89qmIyWvAhpo9wdRGg==";
    match Keypair::from_file_text(&format!(r#"{{"public_key":"?","secret_key":"{}"}}"#, secret)) {
        Err(BurrowError::Crypto(text)) => assert!(text.starts_with("Invalid public key encoding: ")),
        other => panic!("unexpected {:?}", other),
    }
    assert_eq!(
        Keypair::from_file_text(&format!(r#"{{"public_key":"AAAA","secret_key":"{}"}}"#, secret)),
        Err(BurrowError::Crypto("Public key doesn't match secret key".to_string()))
    );
}

#[test]
fn error_texts() {
    assert_eq!(BurrowError::ConnectionFailed("x".to_string()).to_string(), "Connection failed: x");
    assert_eq!(BurrowError::RegistrationFailed("x".to_string()).to_string(), "Registration failed: x");
    assert_eq!(BurrowError::WebSocket("x".to_string()).to_string(), "WebSocket error: x");
    assert_eq!(BurrowError::Json("x".to_string()).to_string(), "JSON error: x");
    assert_eq!(BurrowError::Http("x".to_string()).to_string(), "HTTP error: x");
    assert_eq!(BurrowError::Io("x".to_string()).to_string(), "IO error: x");
    assert_eq!(BurrowError::Crypto("x".to_string()).to_string(), "Crypto error: x");
    assert_eq!(BurrowError::Protocol("x".to_string()).to_string(), "Protocol error: x");
    assert_eq!(BurrowError::Timeout.to_string(), "Timeout");
    assert_eq!(BurrowError::NotConnected.to_string(), "Not connected");
}
