//! File-payload handling: whole-file base64 encoding for reads, and the
//! preparation of a write from a base64 payload.
//!
//! The driver does the reading and writing; what the bytes mean is decided
//! here.

use vstd::prelude::*;

use crate::dispatch::{spec_file_name, file_name_of};

verus! {

/// What base64's standard engine encodes the given bytes to: one text for
/// one byte sequence, on every machine alike.
pub uninterp spec fn base64_of(bytes: Seq<u8>) -> Seq<char>;

/// What base64's standard engine decodes the given text to: the bytes when
/// the text is a well-formed encoding, and nothing otherwise; a function of
/// the text alone.
pub uninterp spec fn base64_decoded(s: Seq<char>) -> Option<Seq<u8>>;

/// Relies on base64's standard engine (`STANDARD.decode`): the decoded
/// bytes, exactly when the text is a well-formed base64 encoding.
#[verifier::external_body]
fn base64_decode(s: &str) -> (r: Option<Vec<u8>>)
    ensures
        match r {
            Some(v) => base64_decoded(s@) == Some(v@),
            None => base64_decoded(s@) is None,
        },
{
    match base64::Engine::decode(&base64::engine::general_purpose::STANDARD, s) {
        Ok(v) => Some(v),
        Err(_) => None,
    }
}

/// Relies on base64's standard engine (`STANDARD.encode`): the encoding of
/// the bytes, a function of the bytes alone. The length bound keeps the
/// engine's output-size arithmetic within `usize`.
#[verifier::external_body]
fn base64_encode(data: &Vec<u8>) -> (r: String)
    requires
        data@.len() <= 3 * (usize::MAX as int / 4),
    ensures
        r@ == base64_of(data@),
{
    base64::Engine::encode(&base64::engine::general_purpose::STANDARD, data.as_slice())
}

/// Encodes a whole file's bytes as base64 text.
pub fn read_file_data_as_base64(data: &Vec<u8>) -> (r: String)
    requires
        data@.len() <= 3 * (usize::MAX as int / 4),
    ensures
        r@ == base64_of(data@),
{
    base64_encode(data)
}

/// Prepares a file write from a base64 payload: the file name `name.format`
/// and the decoded bytes, or nothing when the payload is not well-formed
/// base64 (the write is then refused as a whole; no partial file appears).
pub fn prepare_file_write(name: &str, format: &str, data: &str) -> (r: Option<(String, Vec<u8>)>)
    ensures
        match r {
            Some((file, bytes)) => file@ == spec_file_name(name@, format@) && base64_decoded(data@)
                == Some(bytes@),
            None => base64_decoded(data@) is None,
        },
{
    match base64_decode(data) {
        Some(bytes) => Some((file_name_of(name, format), bytes)),
        None => None,
    }
}

} // verus!
