use sha2::{Digest, Sha256};

use gated_record::codec::{decode, encode};
use gated_record::dispatch::{execute, parse_operation, process_seal, process_unseal, Operation, Outcome};
use gated_record::errors::GateError;
use gated_record::record::seal;

#[test]
fn encode_decode_round_trip() {
    let record = seal(b"some signature text", b"open sesame").unwrap();
    let stored = encode(&record);
    let recovered = decode(&stored).unwrap();
    assert_eq!(recovered, record);
}

#[test]
fn encoding_layout_is_digest_length_payload() {
    let stored = process_seal(b"AB", b"pw").unwrap();
    assert_eq!(stored.len(), 32 + 8 + 2);
    let expected_digest = Sha256::digest(b"pw");
    assert_eq!(&stored[..32], expected_digest.as_slice());
    assert_eq!(&stored[32..40], &[2, 0, 0, 0, 0, 0, 0, 0]);
    assert_eq!(&stored[40..], b"AB");
}

#[test]
fn seal_is_deterministic() {
    let first = encode(&seal(b"payload", b"pw").unwrap());
    let second = encode(&seal(b"payload", b"pw").unwrap());
    assert_eq!(first, second);
}

#[test]
fn truncated_buffer_is_malformed() {
    assert_eq!(
        decode(&[0u8; 10]).unwrap_err(),
        GateError::MalformedRecord
    );
    assert_eq!(decode(&[]).unwrap_err(), GateError::MalformedRecord);
    assert_eq!(decode(&[0u8; 39]).unwrap_err(), GateError::MalformedRecord);
}

#[test]
fn over_length_buffer_is_malformed() {
    let mut stored = process_seal(b"AB", b"pw").unwrap();
    stored.push(0);
    assert_eq!(decode(&stored).unwrap_err(), GateError::MalformedRecord);
}

#[test]
fn length_field_past_end_is_malformed() {
    let mut stored = vec![0u8; 41];
    stored[32] = 200;
    assert_eq!(decode(&stored).unwrap_err(), GateError::MalformedRecord);
}

#[test]
fn non_text_stored_payload_is_malformed() {
    let mut stored = vec![0u8; 42];
    stored[32] = 2;
    stored[40] = 0xff;
    stored[41] = 0xfe;
    assert_eq!(decode(&stored).unwrap_err(), GateError::MalformedRecord);
}

#[test]
fn parse_operation_selects() {
    assert_eq!(parse_operation(0).unwrap(), Operation::Seal);
    assert_eq!(parse_operation(1).unwrap(), Operation::Unseal);
    assert_eq!(parse_operation(2).unwrap_err(), GateError::UnknownOperation);
    assert_eq!(
        parse_operation(255).unwrap_err(),
        GateError::UnknownOperation
    );
}

#[test]
fn unknown_selector_fails_whole_request() {
    let mut instruction = vec![7u8];
    instruction.extend_from_slice(b"pw");
    assert_eq!(
        execute(&instruction, b"whatever").unwrap_err(),
        GateError::UnknownOperation
    );
}

#[test]
fn execute_seals_then_unseals() {
    let mut seal_request = vec![0u8];
    seal_request.extend_from_slice(b"letmein");
    let stored = match execute(&seal_request, b"the signature").unwrap() {
        Outcome::Store(bytes) => bytes,
        Outcome::Reveal(_) => panic!("seal must yield bytes to store"),
    };

    let mut unseal_request = vec![1u8];
    unseal_request.extend_from_slice(b"letmein");
    match execute(&unseal_request, &stored).unwrap() {
        Outcome::Reveal(text) => assert_eq!(text, "the signature"),
        Outcome::Store(_) => panic!("unseal must reveal the payload"),
    }
}

#[test]
fn execute_rejects_wrong_password() {
    let mut seal_request = vec![0u8];
    seal_request.extend_from_slice(b"right");
    let stored = match execute(&seal_request, b"signature").unwrap() {
        Outcome::Store(bytes) => bytes,
        Outcome::Reveal(_) => panic!("seal must yield bytes to store"),
    };

    let mut unseal_request = vec![1u8];
    unseal_request.extend_from_slice(b"wrong");
    assert_eq!(
        execute(&unseal_request, &stored).unwrap_err(),
        GateError::AuthenticationFailed
    );
}

#[test]
fn non_text_password_rejected_before_storage_is_read() {
    // Even when the storage slot holds a malformed record, a non-text
    // password is the failure reported.
    assert_eq!(
        process_unseal(b"", &[0xff]).unwrap_err(),
        GateError::InvalidCredentialEncoding
    );
    let unseal_request = vec![1u8, 0xff, 0xfe];
    assert_eq!(
        execute(&unseal_request, b"garbage").unwrap_err(),
        GateError::InvalidCredentialEncoding
    );
}

#[test]
fn process_unseal_rejects_garbage_storage() {
    assert_eq!(
        process_unseal(b"not a record", b"pw").unwrap_err(),
        GateError::MalformedRecord
    );
}

#[test]
fn digest_is_real_sha256() {
    let stored = process_seal(b"payload", b"correct horse").unwrap();
    let expected = Sha256::digest(b"correct horse");
    assert_eq!(&stored[..32], expected.as_slice());
    assert_ne!(&stored[..32], b"correct horse\0\0\0\0\0\0\0\0\0\0\0\0\0\0\0\0\0\0\0".as_slice());
}
