use vstd::prelude::*;
use vstd::slice::slice_subrange;
use vstd::utf8::{decode_utf8, valid_utf8};

use crate::codec::{decode, decode_spec, encode, encoded, lemma_round_trip};
use crate::errors::GateError;
use crate::record::{
    lemma_correct_password_succeeds, seal, seal_spec, unseal, unseal_spec, RecordView,
};
use crate::text::str_of_bytes;

verus! {

/// The two operations of the request protocol, decoded once from the
/// selector byte at the boundary.
#[derive(Clone, Copy, Debug, PartialEq, Eq, Structural)]
pub enum Operation {
    Seal,
    Unseal,
}

/// What a successful request yields: encoded record bytes to be written to
/// storage, or the revealed payload text.
#[derive(Debug)]
pub enum Outcome {
    Store(Vec<u8>),
    Reveal(String),
}

/// Mathematical content of an [`Outcome`].
pub enum OutcomeView {
    Store(Seq<u8>),
    Reveal(Seq<char>),
}

impl View for Outcome {
    type V = OutcomeView;

    open spec fn view(&self) -> OutcomeView {
        match self {
            Outcome::Store(bytes) => OutcomeView::Store(bytes@),
            Outcome::Reveal(text) => OutcomeView::Reveal(text@),
        }
    }
}

/// Map the selector byte to its operation: `0` seals, `1` unseals, and any
/// other value fails with `UnknownOperation`.
pub fn parse_operation(selector: u8) -> (r: Result<Operation, GateError>)
    ensures
        selector == 0 ==> r == Ok::<Operation, GateError>(Operation::Seal),
        selector == 1 ==> r == Ok::<Operation, GateError>(Operation::Unseal),
        selector != 0 && selector != 1 ==> r == Err::<Operation, GateError>(
            GateError::UnknownOperation,
        ),
{
    if selector == 0 {
        Ok(Operation::Seal)
    } else if selector == 1 {
        Ok(Operation::Unseal)
    } else {
        Err(GateError::UnknownOperation)
    }
}

/// Seal raw payload bytes behind raw password bytes and serialise the
/// resulting record for storage.
pub fn process_seal(payload: &[u8], password: &[u8]) -> (r: Result<Vec<u8>, GateError>)
    ensures
        r is Ok <==> seal_spec(payload@, password@) is Some,
        r matches Ok(stored) ==> seal_spec(payload@, password@) matches Some(v) && stored@
            == encoded(v) && v.wf(),
        r matches Err(e) ==> e == GateError::InvalidCredentialEncoding,
{
    match seal(payload, password) {
        Ok(record) => Ok(encode(&record)),
        Err(e) => Err(e),
    }
}

/// Decode stored record bytes and recover their payload given raw password
/// bytes.  The password is validated first: a non-text password is rejected
/// before the stored record is even looked at.
pub fn process_unseal(stored: &[u8], password: &[u8]) -> (r: Result<String, GateError>)
    ensures
        !valid_utf8(password@) ==> r == Err::<String, GateError>(
            GateError::InvalidCredentialEncoding,
        ),
        valid_utf8(password@) && decode_spec(stored@) is None ==> r == Err::<String, GateError>(
            GateError::MalformedRecord,
        ),
        decode_spec(stored@) matches Some(v) ==> {
            &&& (r matches Ok(text) ==> unseal_spec(v, password@) == Ok::<Seq<char>, GateError>(
                text@,
            ))
            &&& (r matches Err(e) ==> unseal_spec(v, password@) == Err::<Seq<char>, GateError>(e))
        },
{
    if str_of_bytes(password).is_none() {
        return Err(GateError::InvalidCredentialEncoding);
    }
    let record = match decode(stored) {
        Ok(record) => record,
        Err(e) => {
            return Err(e);
        },
    };
    match unseal(&record, password) {
        Ok(payload) => Ok(String::from_str(payload)),
        Err(e) => Err(e),
    }
}

/// What a whole request yields.  Byte 0 of the instruction selects the
/// operation and the remaining bytes are the password; `slot` holds the
/// externally stored bytes the operation works on (the payload source for a
/// seal, the persisted record for an unseal).  A non-text password is
/// rejected before the stored record is decoded.
pub open spec fn execute_spec(instruction: Seq<u8>, slot: Seq<u8>) -> Result<
    OutcomeView,
    GateError,
>
    recommends
        instruction.len() >= 1,
{
    let password = instruction.subrange(1, instruction.len() as int);
    if instruction[0] == 0 {
        match seal_spec(slot, password) {
            Some(v) => Ok(OutcomeView::Store(encoded(v))),
            None => Err(GateError::InvalidCredentialEncoding),
        }
    } else if instruction[0] == 1 {
        if !valid_utf8(password) {
            Err(GateError::InvalidCredentialEncoding)
        } else {
            match decode_spec(slot) {
                Some(v) => match unseal_spec(v, password) {
                    Ok(text) => Ok(OutcomeView::Reveal(text)),
                    Err(e) => Err(e),
                },
                None => Err(GateError::MalformedRecord),
            }
        }
    } else {
        Err(GateError::UnknownOperation)
    }
}

/// Run one request against the bytes of its designated storage slot.
pub fn execute(instruction: &[u8], slot: &[u8]) -> (r: Result<Outcome, GateError>)
    requires
        instruction@.len() >= 1,
    ensures
        r matches Ok(outcome) ==> execute_spec(instruction@, slot@) == Ok::<
            OutcomeView,
            GateError,
        >(outcome@),
        r matches Err(e) ==> execute_spec(instruction@, slot@) == Err::<OutcomeView, GateError>(e),
{
    let operation = match parse_operation(instruction[0]) {
        Ok(operation) => operation,
        Err(e) => {
            return Err(e);
        },
    };
    let password = slice_subrange(instruction, 1, instruction.len());
    match operation {
        Operation::Seal => match process_seal(slot, password) {
            Ok(stored) => Ok(Outcome::Store(stored)),
            Err(e) => Err(e),
        },
        Operation::Unseal => match process_unseal(slot, password) {
            Ok(text) => Ok(Outcome::Reveal(text)),
            Err(e) => Err(e),
        },
    }
}

/// Protocol round trip: the bytes a seal hands to storage decode back to
/// the very record that was sealed, and unsealing that record with the same
/// password returns the payload text.  (The well-formedness hypothesis
/// carries the digest width; `process_seal` guarantees it of every record
/// it stores.)
pub proof fn lemma_store_then_unseal(payload: Seq<u8>, password: Seq<u8>, v: RecordView)
    requires
        seal_spec(payload, password) == Some(v),
        v.wf(),
    ensures
        decode_spec(encoded(v)) == Some(v),
        unseal_spec(v, password) == Ok::<Seq<char>, GateError>(decode_utf8(payload)),
{
    lemma_round_trip(v);
    lemma_correct_password_succeeds(payload, password, v);
}

/// A selector outside the defined set fails with `UnknownOperation`, and no
/// record is touched: the result is the same whatever the slot holds.
pub proof fn lemma_unknown_operation(instruction: Seq<u8>, slot: Seq<u8>)
    requires
        instruction.len() >= 1,
        instruction[0] != 0,
        instruction[0] != 1,
    ensures
        execute_spec(instruction, slot) == Err::<OutcomeView, GateError>(
            GateError::UnknownOperation,
        ),
{
}

} // verus!
