use vstd::prelude::*;
use vstd::utf8::{decode_utf8, encode_utf8, valid_utf8};

use crate::errors::GateError;
use crate::hashing::{sha256_digest, sha256_of};
use crate::text::str_of_bytes;

verus! {

broadcast use vstd::utf8::encode_utf8_valid_utf8, vstd::utf8::encode_utf8_decode_utf8, vstd::utf8::decode_utf8_encode_utf8;

/// Mathematical content of a record: the payload text and the 32-byte
/// credential digest it is gated behind.
#[verifier::ext_equal]
pub struct RecordView {
    pub payload: Seq<char>,
    pub digest: Seq<u8>,
}

impl RecordView {
    /// Well-formed: the digest is exactly 32 bytes wide and the encoded
    /// payload fits the length field of the persisted format.
    pub open spec fn wf(self) -> bool {
        &&& self.digest.len() == 32
        &&& encode_utf8(self.payload).len() <= u64::MAX
    }
}

/// A text payload sealed behind the SHA-256 digest of a password.
///
/// The record is immutable after creation; the payload is read back only
/// through [`SignatureRecord::verify_and_view`] or [`unseal`], which demand
/// a password whose digest equals the stored one.
#[derive(Debug, PartialEq, Eq)]
pub struct SignatureRecord {
    signature: String,
    password_hash: Vec<u8>,
}

impl View for SignatureRecord {
    type V = RecordView;

    closed spec fn view(&self) -> RecordView {
        RecordView { payload: self.signature@, digest: self.password_hash@ }
    }
}

impl SignatureRecord {
    pub open spec fn wf(&self) -> bool {
        self@.wf()
    }

    /// Seal `signature` behind `password`: the stored digest is the SHA-256
    /// of the password's UTF-8 bytes, hashed once, with no salt.
    pub fn create_signature(signature: String, password: &str) -> (r: SignatureRecord)
        ensures
            r@.payload == signature@,
            r@.digest == sha256_of(encode_utf8(password@)),
            r.wf(),
    {
        // A byte slice's length is a usize, which bounds the encoded payload
        // below the storage format's length field.
        let _payload_len: usize = signature.as_str().as_bytes().len();
        let password_hash = sha256_digest(password.as_bytes());
        SignatureRecord { signature, password_hash }
    }

    /// Recompute the digest of `password` and compare it to the stored one
    /// over all 32 bytes; on equality return the payload, otherwise fail.
    pub fn verify_and_view(&self, password: &str) -> (r: Result<&str, GateError>)
        requires
            self.wf(),
        ensures
            r is Ok <==> sha256_of(encode_utf8(password@)) == self@.digest,
            r matches Ok(p) ==> p@ == self@.payload,
            r matches Err(e) ==> e == GateError::AuthenticationFailed,
    {
        let attempt = sha256_digest(password.as_bytes());
        if digests_equal(&attempt, &self.password_hash) {
            Ok(self.signature.as_str())
        } else {
            Err(GateError::AuthenticationFailed)
        }
    }

    /// The payload text, without the password check.  Only the codec may
    /// read it: every public road to the payload goes through the digest
    /// comparison.
    pub(crate) fn payload_text(&self) -> (r: &str)
        ensures
            r@ == self@.payload,
    {
        self.signature.as_str()
    }

    /// The stored digest bytes.
    pub(crate) fn digest_bytes(&self) -> (r: &[u8])
        ensures
            r@ == self@.digest,
    {
        self.password_hash.as_slice()
    }

    /// Rebuild a record from already-validated parts (used when decoding).
    pub(crate) fn assemble(signature: String, password_hash: Vec<u8>) -> (r: SignatureRecord)
        requires
            password_hash@.len() == 32,
            encode_utf8(signature@).len() <= u64::MAX,
        ensures
            r@ == (RecordView { payload: signature@, digest: password_hash@ }),
            r.wf(),
    {
        SignatureRecord { signature, password_hash }
    }
}

/// All-or-nothing comparison of two 32-byte digests: every byte pair is
/// folded into the accumulator, with no early exit on a mismatch.
fn digests_equal(a: &Vec<u8>, b: &Vec<u8>) -> (r: bool)
    requires
        a@.len() == 32,
        b@.len() == 32,
    ensures
        r == (a@ == b@),
{
    let mut acc: u8 = 0;
    let mut i: usize = 0;
    while i < 32
        invariant
            a@.len() == 32,
            b@.len() == 32,
            i <= 32,
            acc == 0 <==> (forall|j: int| 0 <= j < i ==> a@[j] == b@[j]),
        decreases 32 - i,
    {
        let x: u8 = a[i];
        let y: u8 = b[i];
        let diff: u8 = x ^ y;
        let folded: u8 = acc | diff;
        proof {
            assert((x ^ y) == 0 <==> x == y) by (bit_vector);
            assert((acc | diff) == 0 <==> acc == 0 && diff == 0) by (bit_vector);
        }
        acc = folded;
        i = i + 1;
    }
    if acc == 0 {
        proof {
            assert(a@ =~= b@);
        }
        true
    } else {
        false
    }
}

/// What sealing yields: `None` exactly when one of the byte inputs is not
/// valid text, otherwise the record holding the decoded payload and the
/// digest of the password bytes.
pub open spec fn seal_spec(payload: Seq<u8>, password: Seq<u8>) -> Option<RecordView> {
    if valid_utf8(payload) && valid_utf8(password) {
        Some(RecordView { payload: decode_utf8(payload), digest: sha256_of(password) })
    } else {
        None
    }
}

/// What unsealing yields: the payload exactly when the password is valid
/// text whose digest equals the stored one, and otherwise the error that
/// names which of the two checks failed.
pub open spec fn unseal_spec(record: RecordView, password: Seq<u8>) -> Result<Seq<char>, GateError> {
    if !valid_utf8(password) {
        Err(GateError::InvalidCredentialEncoding)
    } else if sha256_of(password) == record.digest {
        Ok(record.payload)
    } else {
        Err(GateError::AuthenticationFailed)
    }
}

/// Create a record from raw payload and password bytes.  Both inputs must
/// be valid text; the password is validated, and rejected, before any
/// hashing happens.
pub fn seal(payload: &[u8], password: &[u8]) -> (r: Result<SignatureRecord, GateError>)
    ensures
        r is Ok <==> seal_spec(payload@, password@) is Some,
        r matches Ok(rec) ==> Some(rec@) == seal_spec(payload@, password@) && rec.wf(),
        r matches Err(e) ==> e == GateError::InvalidCredentialEncoding,
{
    let pw: &str = match str_of_bytes(password) {
        Some(p) => p,
        None => {
            return Err(GateError::InvalidCredentialEncoding);
        },
    };
    let text: &str = match str_of_bytes(payload) {
        Some(t) => t,
        None => {
            return Err(GateError::InvalidCredentialEncoding);
        },
    };
    Ok(SignatureRecord::create_signature(String::from_str(text), pw))
}

/// Recover the payload of `record` given password bytes: valid text with
/// the sealed digest, or the typed failure.
pub fn unseal<'a>(record: &'a SignatureRecord, password: &[u8]) -> (r: Result<&'a str, GateError>)
    requires
        record.wf(),
    ensures
        r matches Ok(p) ==> unseal_spec(record@, password@) == Ok::<Seq<char>, GateError>(p@),
        r matches Err(e) ==> unseal_spec(record@, password@) == Err::<Seq<char>, GateError>(e),
{
    match str_of_bytes(password) {
        None => Err(GateError::InvalidCredentialEncoding),
        Some(p) => record.verify_and_view(p),
    }
}

/// Sealing is deterministic: any two records produced from the same payload
/// and password bytes are identical, digests included.
pub proof fn lemma_seal_deterministic(
    payload: Seq<u8>,
    password: Seq<u8>,
    r1: RecordView,
    r2: RecordView,
)
    requires
        seal_spec(payload, password) == Some(r1),
        seal_spec(payload, password) == Some(r2),
    ensures
        r1 == r2,
        r1.digest == r2.digest,
{
}

/// Unsealing a sealed record with the very password it was sealed with
/// returns the payload text exactly.
pub proof fn lemma_correct_password_succeeds(payload: Seq<u8>, password: Seq<u8>, rec: RecordView)
    requires
        seal_spec(payload, password) == Some(rec),
    ensures
        unseal_spec(rec, password) == Ok::<Seq<char>, GateError>(decode_utf8(payload)),
{
}

/// Unsealing with a different password fails with `AuthenticationFailed`,
/// for every pair of passwords whose SHA-256 digests differ.  (The record
/// compares digests and nothing else, so a pair of distinct passwords that
/// collide under SHA-256 would be the one exception; no such pair is
/// known.)
pub proof fn lemma_wrong_password_fails(
    payload: Seq<u8>,
    pw_seal: Seq<u8>,
    pw_attempt: Seq<u8>,
    rec: RecordView,
)
    requires
        seal_spec(payload, pw_seal) == Some(rec),
        valid_utf8(pw_attempt),
        sha256_of(pw_seal) != sha256_of(pw_attempt),
    ensures
        unseal_spec(rec, pw_attempt) == Err::<Seq<char>, GateError>(
            GateError::AuthenticationFailed,
        ),
{
}

/// A password that is not valid text is rejected by both operations with
/// `InvalidCredentialEncoding`, whatever the payload or record holds.
pub proof fn lemma_non_text_password_rejected(
    payload: Seq<u8>,
    password: Seq<u8>,
    rec: RecordView,
)
    requires
        !valid_utf8(password),
    ensures
        seal_spec(payload, password) is None,
        unseal_spec(rec, password) == Err::<Seq<char>, GateError>(
            GateError::InvalidCredentialEncoding,
        ),
{
}

} // verus!
