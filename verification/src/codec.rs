use vstd::bytes::{
    lemma_auto_spec_u64_to_from_le_bytes, spec_u64_from_le_bytes, spec_u64_to_le_bytes,
    u64_from_le_bytes, u64_to_le_bytes,
};
use vstd::prelude::*;
use vstd::slice::{slice_subrange, slice_to_vec};
use vstd::utf8::{decode_utf8, encode_utf8, valid_utf8};

use crate::errors::GateError;
use crate::record::{RecordView, SignatureRecord};
use crate::text::str_of_bytes;

verus! {

broadcast use vstd::utf8::encode_utf8_valid_utf8, vstd::utf8::encode_utf8_decode_utf8, vstd::utf8::decode_utf8_encode_utf8;

/// The persisted bytes of a record: the 32-byte digest, then the payload's
/// byte length as 8 little-endian bytes, then the payload bytes themselves.
/// The explicit length makes the framing unambiguous for arbitrary payload
/// bytes and rules out trailing garbage.
pub open spec fn encoded(v: RecordView) -> Seq<u8> {
    v.digest + spec_u64_to_le_bytes(encode_utf8(v.payload).len() as u64) + encode_utf8(v.payload)
}

/// What decoding yields: `None` exactly when the buffer is shorter than the
/// 40-byte header, when its length field disagrees with the bytes actually
/// present, or when the payload bytes are not valid text.
pub open spec fn decode_spec(bytes: Seq<u8>) -> Option<RecordView> {
    if bytes.len() < 40 {
        None
    } else if bytes.len() != 40 + spec_u64_from_le_bytes(bytes.subrange(32, 40)) {
        None
    } else if !valid_utf8(bytes.subrange(40, bytes.len() as int)) {
        None
    } else {
        Some(
            RecordView {
                payload: decode_utf8(bytes.subrange(40, bytes.len() as int)),
                digest: bytes.subrange(0, 32),
            },
        )
    }
}

/// Append every byte of `src` to `out`, in order.
fn push_all(out: &mut Vec<u8>, src: &[u8])
    ensures
        final(out)@ == old(out)@ + src@,
{
    let n: usize = src.len();
    let mut i: usize = 0;
    while i < n
        invariant
            n == src@.len(),
            i <= n,
            out@ == old(out)@ + src@.subrange(0, i as int),
        decreases n - i,
    {
        out.push(src[i]);
        proof {
            assert(old(out)@ + src@.subrange(0, i + 1) =~= (old(out)@ + src@.subrange(
                0,
                i as int,
            )).push(src@[i as int]));
        }
        i = i + 1;
    }
    proof {
        assert(src@.subrange(0, n as int) =~= src@);
    }
}

/// Serialise a record for persistence.  The encoding is deterministic: the
/// same record always yields the same bytes.
pub fn encode(record: &SignatureRecord) -> (out: Vec<u8>)
    requires
        record.wf(),
    ensures
        out@ == encoded(record@),
{
    let mut out: Vec<u8> = Vec::new();
    push_all(&mut out, record.digest_bytes());
    let payload: &[u8] = record.payload_text().as_bytes();
    let length_bytes = u64_to_le_bytes(payload.len() as u64);
    push_all(&mut out, length_bytes.as_slice());
    push_all(&mut out, payload);
    proof {
        assert(out@ =~= encoded(record@));
    }
    out
}

/// Parse persisted bytes back into a record; every framing violation, and a
/// payload that is not valid text, fails with `MalformedRecord`.
pub fn decode(bytes: &[u8]) -> (r: Result<SignatureRecord, GateError>)
    ensures
        r is Ok <==> decode_spec(bytes@) is Some,
        r matches Ok(rec) ==> Some(rec@) == decode_spec(bytes@) && rec.wf(),
        r matches Err(e) ==> e == GateError::MalformedRecord,
{
    let total: usize = bytes.len();
    if total < 40 {
        return Err(GateError::MalformedRecord);
    }
    let digest: Vec<u8> = slice_to_vec(slice_subrange(bytes, 0, 32));
    let length: u64 = u64_from_le_bytes(slice_subrange(bytes, 32, 40));
    if (total - 40) as u64 != length {
        return Err(GateError::MalformedRecord);
    }
    let payload_bytes = slice_subrange(bytes, 40, total);
    match str_of_bytes(payload_bytes) {
        None => Err(GateError::MalformedRecord),
        Some(p) => Ok(SignatureRecord::assemble(String::from_str(p), digest)),
    }
}

/// Round trip: decoding the encoding of any well-formed record view yields
/// exactly that view back.
pub proof fn lemma_round_trip(v: RecordView)
    requires
        v.wf(),
    ensures
        decode_spec(encoded(v)) == Some(v),
{
    lemma_auto_spec_u64_to_from_le_bytes();
    let b = encoded(v);
    let payload = encode_utf8(v.payload);
    let length_bytes = spec_u64_to_le_bytes(payload.len() as u64);
    assert(b.subrange(0, 32) =~= v.digest);
    assert(b.subrange(32, 40) =~= length_bytes);
    assert(b.subrange(40, b.len() as int) =~= payload);
    assert(decode_spec(b) == Some(v));
}

/// Framing violations never decode: a buffer shorter than the header, or
/// one whose length field disagrees with the bytes actually present, is
/// malformed whatever it holds.
pub proof fn lemma_malformed_rejected(bytes: Seq<u8>)
    requires
        bytes.len() < 40 || bytes.len() != 40 + spec_u64_from_le_bytes(bytes.subrange(32, 40)),
    ensures
        decode_spec(bytes) is None,
{
}

} // verus!
