//! The argument of an initialization call: the raw bytes that the host hands
//! over, and the optional text that they encode.

use crate::error::GreeterError;
use vstd::prelude::*;

verus! {

/// `candid::Error`: why a buffer could not be decoded.
#[verifier::external_type_specification]
#[verifier::external_body]
pub struct ExCandidError(candid::Error);

/// Whether `raw` begins with the four bytes `DIDL`, with which every encoded
/// argument list begins.
pub open spec fn bears_magic(raw: Seq<u8>) -> bool {
    &&& raw.len() >= 4
    &&& raw[0] == 0x44
    &&& raw[1] == 0x49
    &&& raw[2] == 0x44
    &&& raw[3] == 0x4c
}

/// `candid::decode_args`, asked for one optional text.
///
/// The one thing claimed is that a buffer which is decoded begins with the
/// magic bytes: the decoder reads them first and turns down a buffer without
/// them. Nothing is claimed of what comes out of a buffer that has them. The
/// decoder gives up where little of the stack is left to it, so what it
/// answers is not settled by the bytes alone.
#[verifier::external_body]
pub(crate) fn decode_optional_text(raw: &[u8]) -> (decoded: Result<
    Option<String>,
    candid::Error,
>)
    ensures
        decoded is Ok ==> bears_magic(raw@),
{
    match candid::decode_args::<(Option<String>,)>(raw) {
        Ok((text,)) => Ok(text),
        Err(error) => Err(error),
    }
}

/// What the decoder's answer means for the call: the text that the caller
/// names, `None` where the caller names none, or the refusal to go on.
pub fn accept_decoded(decoded: Result<Option<String>, candid::Error>) -> (argument: Result<
    Option<String>,
    GreeterError,
>)
    ensures
        match decoded {
            Ok(text) => argument == Ok::<Option<String>, GreeterError>(text),
            Err(_) => argument == Err::<Option<String>, GreeterError>(GreeterError::Decode),
        },
{
    match decoded {
        Ok(text) => Ok(text),
        Err(_) => Err(GreeterError::Decode),
    }
}

/// Reads the argument of an initialization call.
///
/// An empty buffer means that the caller supplied nothing, and is never
/// handed to the decoder. Any other buffer is decoded as one optional text;
/// the only failure is a buffer that the decoder turns down, as it does every
/// buffer that lacks the magic bytes.
pub fn read_argument(raw: &[u8]) -> (argument: Result<Option<String>, GreeterError>)
    ensures
        raw@.len() == 0 ==> argument == Ok::<Option<String>, GreeterError>(None),
        raw@.len() > 0 && !bears_magic(raw@) ==> argument is Err,
        argument matches Err(error) ==> error == GreeterError::Decode && raw@.len() > 0,
{
    if raw.len() == 0 {
        Ok(None)
    } else {
        accept_decoded(decode_optional_text(raw))
    }
}

} // verus!
