use base58::ToBase58;

use signcore::crypto::parse_secret_key;
use signcore::errors::SigError;
use signcore::keypair::KeyPair;
use signcore::message::validate_message;
use signcore::text::validate_pubkey_string;
use signcore::text::validate_signature_string;

fn hex_bytes(s: &str) -> Vec<u8> {
    s.as_bytes()
        .chunks(2)
        .map(|c| u8::from_str_radix(std::str::from_utf8(c).unwrap(), 16).unwrap())
        .collect()
}

// RFC 8032 test vector: a real scalar/point pair.
const RFC_SECRET_HEX: &str = "4ccd089b28ff96da9db6c346ec114e0f5b8a319f35aba624da8cf6ed4fb8a6fb";
const RFC_PUBLIC_HEX: &str = "3d4017c3e843895a92b70aa74d1b7ebc9c982ccf2ec4968cc0cd55f12af4660c";

fn rfc_combined_text() -> String {
    let mut combined = hex_bytes(RFC_SECRET_HEX);
    combined.extend_from_slice(&hex_bytes(RFC_PUBLIC_HEX));
    combined.as_slice().to_base58()
}

#[test]
fn message_rules() {
    assert_eq!(validate_message(b""), Err(SigError::EmptyInput));
    assert_eq!(validate_message(b"hi"), Ok(()));
    let long = vec![b'a'; 10000];
    assert_eq!(validate_message(&long), Ok(()));
    let too_long = vec![b'a'; 10001];
    assert_eq!(validate_message(&too_long), Err(SigError::MessageTooLong));
    assert_eq!(
        validate_message(b"a\0b"),
        Err(SigError::MessageContainsNullByte)
    );
    assert_eq!(
        validate_message(b"\0ab"),
        Err(SigError::MessageContainsNullByte)
    );
    assert_eq!(
        validate_message(b"ab\0"),
        Err(SigError::MessageContainsNullByte)
    );
}

#[test]
fn signature_text_guard() {
    assert_eq!(validate_signature_string(""), Err(SigError::EmptyInput));
    assert_eq!(validate_signature_string("x"), Ok(()));
    let at_bound = "s".repeat(200);
    assert_eq!(validate_signature_string(&at_bound), Ok(()));
    let over = "s".repeat(201);
    assert_eq!(
        validate_signature_string(&over),
        Err(SigError::InputTooLong { max: 200 })
    );
}

#[test]
fn pubkey_text_guard() {
    assert_eq!(validate_pubkey_string(""), Err(SigError::EmptyInput));
    let at_bound = "p".repeat(100);
    assert_eq!(validate_pubkey_string(&at_bound), Ok(()));
    let over = "p".repeat(101);
    assert_eq!(
        validate_pubkey_string(&over),
        Err(SigError::InputTooLong { max: 100 })
    );
}

#[test]
fn parse_accepts_real_pair() {
    let kp = parse_secret_key(&rfc_combined_text()).unwrap();
    assert_eq!(kp.secret, hex_bytes(RFC_SECRET_HEX));
    assert_eq!(kp.public, hex_bytes(RFC_PUBLIC_HEX));
}

#[test]
fn parse_empty_and_long_text() {
    assert_eq!(parse_secret_key(""), Err(SigError::EmptyInput));
    let over = "1".repeat(201);
    assert_eq!(
        parse_secret_key(&over),
        Err(SigError::InputTooLong { max: 200 })
    );
}

#[test]
fn parse_decoder_bound_is_typed_error() {
    // 133 leading-'1' characters denote 133 zero bytes, more than the
    // decoder's buffer holds; the parser rejects the text with a typed
    // error before the decoder runs.
    let r = parse_secret_key(&"1".repeat(133));
    assert!(matches!(r, Err(SigError::EncodingError { .. })), "{r:?}");
    let r = parse_secret_key(&"1".repeat(200));
    assert!(matches!(r, Err(SigError::EncodingError { .. })), "{r:?}");
    // At the bound the decoder runs: 132 ones decode to 132 zero bytes.
    assert_eq!(
        parse_secret_key(&"1".repeat(132)),
        Err(SigError::LengthMismatch {
            expected: 64,
            actual: 132
        })
    );
}

#[test]
fn parse_bad_base58() {
    // '0', 'O', 'I' and 'l' are outside the base58 alphabet.
    let r = parse_secret_key("0OIl");
    assert!(matches!(r, Err(SigError::EncodingError { .. })), "{r:?}");
}

#[test]
fn parse_length_mismatch_names_both_counts() {
    let short = vec![7u8; 63];
    assert_eq!(
        parse_secret_key(&short.as_slice().to_base58()),
        Err(SigError::LengthMismatch {
            expected: 64,
            actual: 63
        })
    );
    let long = vec![7u8; 65];
    assert_eq!(
        parse_secret_key(&long.as_slice().to_base58()),
        Err(SigError::LengthMismatch {
            expected: 64,
            actual: 65
        })
    );
}

#[test]
fn parse_rejects_undecodable_public_half_structurally() {
    // Scan for a public half the scheme's point decompression refuses;
    // the parser must report it as malformed, not as a length problem.
    let mut found = false;
    for first in 0u8..=255 {
        let mut combined = vec![0u8; 64];
        combined[32] = first;
        let text = combined.as_slice().to_base58();
        match parse_secret_key(&text) {
            Err(SigError::MalformedKeyOrSignature { .. }) => {
                found = true;
                break;
            }
            Err(e) => panic!("unexpected error kind: {e:?}"),
            Ok(_) => continue,
        }
    }
    assert!(found, "no undecodable public half among the candidates");
}

#[test]
fn from_parts_checks_lengths_then_structure() {
    assert_eq!(
        KeyPair::from_parts(vec![0u8; 31], vec![0u8; 32]),
        Err(SigError::LengthMismatch {
            expected: 32,
            actual: 31
        })
    );
    assert_eq!(
        KeyPair::from_parts(vec![0u8; 32], vec![0u8; 33]),
        Err(SigError::LengthMismatch {
            expected: 32,
            actual: 33
        })
    );
    let kp = KeyPair::from_parts(hex_bytes(RFC_SECRET_HEX), hex_bytes(RFC_PUBLIC_HEX)).unwrap();
    assert_eq!(kp.public, hex_bytes(RFC_PUBLIC_HEX));
}

