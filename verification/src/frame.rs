//! Length-prefixed framing for the byte channel.
//!
//! One frame is a 32-bit little-endian payload length followed by exactly
//! that many bytes of UTF-8 text. Encoding and decoding are symmetric; a
//! frame whose payload is not valid UTF-8 is dropped without ending the
//! stream, while a buffer that ends inside a frame is unrecoverable.

use vstd::prelude::*;
use vstd::bytes::{spec_u32_from_le_bytes, spec_u32_to_le_bytes, u32_from_le_bytes, u32_to_le_bytes};
use vstd::string::StringSliceAdditionalSpecFns;
use vstd::utf8::{decode_utf8, encode_utf8, valid_utf8};

verus! {

/// The bytes of one frame carrying the given payload.
pub open spec fn spec_frame(payload: Seq<u8>) -> Seq<u8> {
    spec_u32_to_le_bytes(payload.len() as u32) + payload
}

/// True when the buffer holds a full length prefix at `pos`.
pub open spec fn frame_header_complete(bytes: Seq<u8>, pos: int) -> bool {
    pos + 4 <= bytes.len()
}

/// The payload length declared by the prefix at `pos`.
pub open spec fn frame_declared_len(bytes: Seq<u8>, pos: int) -> u32
    recommends
        frame_header_complete(bytes, pos),
{
    spec_u32_from_le_bytes(bytes.subrange(pos, pos + 4))
}

/// True when the buffer holds the whole frame that starts at `pos`.
pub open spec fn frame_complete(bytes: Seq<u8>, pos: int) -> bool {
    &&& frame_header_complete(bytes, pos)
    &&& pos + 4 + frame_declared_len(bytes, pos) <= bytes.len()
}

/// The payload of the frame that starts at `pos`.
pub open spec fn frame_payload(bytes: Seq<u8>, pos: int) -> Seq<u8>
    recommends
        frame_complete(bytes, pos),
{
    bytes.subrange(pos + 4, pos + 4 + frame_declared_len(bytes, pos))
}

/// The position just past the frame that starts at `pos`.
pub open spec fn frame_end(bytes: Seq<u8>, pos: int) -> int
    recommends
        frame_complete(bytes, pos),
{
    pos + 4 + frame_declared_len(bytes, pos)
}

/// Outcome of decoding one frame from a buffer.
pub enum FrameDecode {
    /// A whole frame with UTF-8 payload; `next` is the position just past it.
    Text { text: String, next: usize },
    /// A whole frame whose payload is not UTF-8: this frame alone is
    /// dropped, and reading continues at `next`.
    Skip { next: usize },
    /// The buffer ends before the length prefix or the payload is complete.
    Truncated,
}

/// Relies on `String::from_utf8`, which returns the string decoded from the
/// given bytes exactly when they are valid UTF-8.
#[verifier::external_body]
fn payload_to_text(payload: Vec<u8>) -> (r: Option<String>)
    ensures
        r is Some <==> valid_utf8(payload@),
        r matches Some(s) ==> s@ == decode_utf8(payload@),
{
    match String::from_utf8(payload) {
        Ok(s) => Some(s),
        Err(_) => None,
    }
}

/// Encodes one frame: the UTF-8 byte length of `text` as a little-endian
/// 32-bit prefix, then the bytes themselves.
pub fn encode_frame(text: &str) -> (r: Vec<u8>)
    requires
        encode_utf8(text@).len() <= u32::MAX,
    ensures
        r@ == spec_frame(encode_utf8(text@)),
{
    let bytes = text.as_bytes();
    let len = bytes.len() as u32;
    let mut r = u32_to_le_bytes(len);
    r.extend_from_slice(bytes);
    proof {
        vstd::bytes::lemma_auto_spec_u32_to_from_le_bytes();
        assert(r@ =~= spec_frame(encode_utf8(text@)));
    }
    r
}

/// Decodes the frame that starts at `pos`: reads the length prefix, then
/// exactly that many payload bytes, then decodes them as UTF-8. A payload
/// that is not UTF-8 yields `Skip`; a buffer that ends inside the prefix or
/// the payload yields `Truncated`.
pub fn decode_frame(bytes: &Vec<u8>, pos: usize) -> (r: FrameDecode)
    requires
        pos <= bytes@.len(),
    ensures
        !frame_complete(bytes@, pos as int) ==> r is Truncated,
        frame_complete(bytes@, pos as int) ==> {
            let payload = frame_payload(bytes@, pos as int);
            if valid_utf8(payload) {
                r matches FrameDecode::Text { text, next }
                    && text@ == decode_utf8(payload)
                    && next == frame_end(bytes@, pos as int)
            } else {
                r matches FrameDecode::Skip { next }
                    && next == frame_end(bytes@, pos as int)
            }
        },
{
    if bytes.len() - pos < 4 {
        return FrameDecode::Truncated;
    }
    let header = vstd::slice::slice_subrange(bytes.as_slice(), pos, pos + 4);
    let declared = u32_from_le_bytes(header);
    let declared_usize = declared as usize;
    if bytes.len() - (pos + 4) < declared_usize {
        return FrameDecode::Truncated;
    }
    let body = vstd::slice::slice_subrange(bytes.as_slice(), pos + 4, pos + 4 + declared_usize);
    let payload = vstd::slice::slice_to_vec(body);
    let next = pos + 4 + declared_usize;
    assert(payload@ == frame_payload(bytes@, pos as int));
    match payload_to_text(payload) {
        Some(text) => FrameDecode::Text { text, next },
        None => FrameDecode::Skip { next },
    }
}

/// Writing then reading one frame yields back the original text exactly:
/// the frame built from `text` is complete, decodes to `text`, and is
/// consumed whole.
pub proof fn lemma_frame_round_trip(text: Seq<char>)
    requires
        encode_utf8(text).len() <= u32::MAX,
    ensures
        ({
            let frame = spec_frame(encode_utf8(text));
            &&& frame_complete(frame, 0)
            &&& valid_utf8(frame_payload(frame, 0))
            &&& decode_utf8(frame_payload(frame, 0)) == text
            &&& frame_end(frame, 0) == frame.len()
        }),
{
    let payload = encode_utf8(text);
    let frame = spec_frame(payload);
    vstd::bytes::lemma_auto_spec_u32_to_from_le_bytes();
    assert(frame.subrange(0, 4) =~= spec_u32_to_le_bytes(payload.len() as u32));
    assert(frame_declared_len(frame, 0) == payload.len());
    assert(frame_payload(frame, 0) =~= payload);
    vstd::utf8::encode_utf8_valid_utf8(text);
    vstd::utf8::encode_utf8_decode_utf8(text);
}

} // verus!
