use gated_record::errors::GateError;
use gated_record::record::{seal, unseal, SignatureRecord};

#[test]
fn seal_then_unseal_with_correct_password() {
    let record = seal(b"attack at dawn", b"pw").unwrap();
    assert_eq!(unseal(&record, b"pw").unwrap(), "attack at dawn");
}

#[test]
fn scenario_seal_ab_with_secret() {
    let record = seal(&[0x41, 0x42], b"secret").unwrap();
    assert_eq!(unseal(&record, b"secret").unwrap(), "AB");
    assert_eq!(
        unseal(&record, b"Secret").unwrap_err(),
        GateError::AuthenticationFailed
    );
}

#[test]
fn wrong_password_fails() {
    let record = seal(b"payload", b"pw1").unwrap();
    assert_eq!(
        unseal(&record, b"pw2").unwrap_err(),
        GateError::AuthenticationFailed
    );
}

#[test]
fn near_collision_passwords_fail() {
    let record = seal(b"payload", b"pw").unwrap();
    assert_eq!(
        unseal(&record, b"pw ").unwrap_err(),
        GateError::AuthenticationFailed
    );
    assert_eq!(
        unseal(&record, b" pw").unwrap_err(),
        GateError::AuthenticationFailed
    );
    assert_eq!(
        unseal(&record, b"").unwrap_err(),
        GateError::AuthenticationFailed
    );
}

#[test]
fn empty_password_and_payload_round() {
    let record = seal(b"", b"").unwrap();
    assert_eq!(unseal(&record, b"").unwrap(), "");
    assert_eq!(
        unseal(&record, b"x").unwrap_err(),
        GateError::AuthenticationFailed
    );
}

#[test]
fn non_text_password_rejected_by_seal() {
    assert_eq!(
        seal(b"payload", &[0xff, 0xfe, 0xfd]).unwrap_err(),
        GateError::InvalidCredentialEncoding
    );
}

#[test]
fn non_text_password_rejected_by_unseal() {
    let record = seal(b"payload", b"pw").unwrap();
    assert_eq!(
        unseal(&record, &[0xc0, 0x80]).unwrap_err(),
        GateError::InvalidCredentialEncoding
    );
}

#[test]
fn non_text_payload_rejected_by_seal() {
    assert_eq!(
        seal(&[0x80, 0x81], b"pw").unwrap_err(),
        GateError::InvalidCredentialEncoding
    );
}

#[test]
fn create_signature_then_verify() {
    let record = SignatureRecord::create_signature(String::from("the payload"), "hunter2");
    assert_eq!(record.verify_and_view("hunter2").unwrap(), "the payload");
    assert_eq!(
        record.verify_and_view("hunter3").unwrap_err(),
        GateError::AuthenticationFailed
    );
}

#[test]
fn unicode_payload_and_password_round() {
    let payload = "gr\u{fc}ne \u{9}\u{e9}toile \u{1f512}";
    let password = "p\u{e4}ssw\u{f6}rd \u{1f511}";
    let record = seal(payload.as_bytes(), password.as_bytes()).unwrap();
    assert_eq!(unseal(&record, password.as_bytes()).unwrap(), payload);
}
