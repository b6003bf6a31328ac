//! Error responses exchanged on the agent RPC channel.
//!
//! An error payload is `code (4B BE, i32) | message_len (4B BE) | message
//! (UTF-8)`.

use vstd::prelude::*;
use vstd::string::StringSliceAdditionalSpecFns;
use vstd::utf8::{decode_utf8, encode_utf8, encode_utf8_decode_utf8, encode_utf8_valid_utf8, valid_utf8};
use crate::codec::{
    be32, copy_range, extend_bytes, get_be32, lemma_be32_roundtrip, push_be32, read_be32,
};
use crate::text::string_from_utf8;

verus! {

/// Error response message.
#[derive(Debug, Clone)]
pub struct ErrorResponse {
    /// HTTP-style error code.
    pub code: i32,
    /// Human-readable message.
    pub message: String,
}

/// Why an error payload could not be decoded.
#[derive(Debug, Clone, Copy, PartialEq, Eq, Structural)]
pub enum ErrorDecodeError {
    /// Fewer than 8 bytes: no complete header.
    TooShort,
    /// The header announces more message bytes than the payload holds.
    MessageTruncated,
    /// The message bytes are not UTF-8.
    InvalidUtf8,
}

/// The payload bytes of an error response with this code and message.
pub open spec fn error_payload(code: i32, message: Seq<char>) -> Seq<u8> {
    be32(code as u32) + be32(encode_utf8(message).len() as u32) + encode_utf8(message)
}

/// The code and message an error payload decodes to.
pub open spec fn decode_error_payload(data: Seq<u8>) -> Result<(i32, Seq<char>), ErrorDecodeError> {
    if data.len() < 8 {
        Err(ErrorDecodeError::TooShort)
    } else {
        let len = read_be32(data, 4) as int;
        if data.len() < 8 + len {
            Err(ErrorDecodeError::MessageTruncated)
        } else if !valid_utf8(data.subrange(8, 8 + len)) {
            Err(ErrorDecodeError::InvalidUtf8)
        } else {
            Ok((read_be32(data, 0) as i32, decode_utf8(data.subrange(8, 8 + len))))
        }
    }
}

impl ErrorResponse {
    /// Creates an error response.
    pub fn new(code: i32, message: &str) -> (r: Self)
        ensures
            r.code == code,
            r.message@ == message@,
    {
        Self { code, message: message.to_owned() }
    }

    /// Encodes the response payload.
    pub fn encode(&self) -> (buf: Vec<u8>)
        ensures
            buf@ == error_payload(self.code, self.message@),
    {
        let mut buf: Vec<u8> = Vec::new();
        push_be32(&mut buf, #[verifier::truncate] (self.code as u32));
        let msg_bytes = self.message.as_str().as_bytes();
        push_be32(&mut buf, #[verifier::truncate] (msg_bytes.len() as u32));
        extend_bytes(&mut buf, msg_bytes);
        buf
    }

    /// Decodes a response payload.
    pub fn decode(data: &[u8]) -> (r: Result<Self, ErrorDecodeError>)
        ensures
            match r {
                Ok(e) => decode_error_payload(data@) == Ok::<(i32, Seq<char>), ErrorDecodeError>(
                    (e.code, e.message@),
                ),
                Err(err) => decode_error_payload(data@) == Err::<(i32, Seq<char>), ErrorDecodeError>(
                    err,
                ),
            },
    {
        if data.len() < 8 {
            return Err(ErrorDecodeError::TooShort);
        }
        let code = #[verifier::truncate] (get_be32(data, 0) as i32);
        let msg_len = get_be32(data, 4) as usize;
        if data.len() - 8 < msg_len {
            return Err(ErrorDecodeError::MessageTruncated);
        }
        let bytes = copy_range(data, 8, 8 + msg_len);
        match string_from_utf8(bytes) {
            Some(message) => Ok(Self { code, message }),
            None => Err(ErrorDecodeError::InvalidUtf8),
        }
    }
}

/// Decoding an encoded error response gives back its code and message.
pub proof fn lemma_error_payload_roundtrip(code: i32, message: Seq<char>)
    requires
        encode_utf8(message).len() <= u32::MAX,
    ensures
        decode_error_payload(error_payload(code, message)) == Ok::<(i32, Seq<char>), ErrorDecodeError>(
            (code, message),
        ),
{
    let bytes = encode_utf8(message);
    let len = bytes.len() as u32;
    let p = error_payload(code, message);
    let empty = Seq::<u8>::empty();
    assert(p =~= empty + be32(code as u32) + (be32(len) + bytes));
    lemma_be32_roundtrip(code as u32, empty, be32(len) + bytes);
    assert(p =~= be32(code as u32) + be32(len) + bytes);
    lemma_be32_roundtrip(len, be32(code as u32), bytes);
    assert(p.subrange(8, 8 + len as int) =~= bytes);
    encode_utf8_valid_utf8(message);
    encode_utf8_decode_utf8(message);
    assert(((code as u32) as i32) == code) by (bit_vector);
}

} // verus!
