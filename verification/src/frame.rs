//! Length-prefixed RPC framing (wire format V2).
//!
//! ```text
//! +----------------+----------------+------------------+----------------+---------
//! | Length (4B BE) | Type (4B BE)   | TraceLen (2B BE) | TraceID bytes  | Payload
//! +----------------+----------------+------------------+----------------+---------
//! ```
//! `Length = 4 + 2 + TraceLen + PayloadLen` (the type field, the trace length
//! field, the trace bytes and the payload).

use vstd::prelude::*;
use vstd::string::StringSliceAdditionalSpecFns;
use crate::codec::{
    be16, be32, copy_range, extend_bytes, get_be16, get_be32, lemma_be16_roundtrip,
    lemma_be32_roundtrip, push_be16, push_be32, read_be16, read_be32,
};
use crate::text::{padded_number, text_with_number};
use crate::wire::{lemma_message_type_roundtrip, message_type_of, message_type_value, MessageType};

verus! {

/// Largest trace id carried in a frame, in bytes.
pub const MAX_TRACE_LEN: usize = 65535;

/// Why a frame could not be read.
#[derive(Debug, Clone, Copy, PartialEq, Eq, Structural)]
pub enum FrameError {
    /// The input ended before the frame did.
    Truncated,
    /// The type field holds a value that names no message kind.
    UnknownType(u32),
}

impl FrameError {
    /// The error's text: for an unknown type, `unknown message type: ` and
    /// the value in decimal.
    pub open spec fn message_spec(self) -> Seq<char> {
        match self {
            FrameError::Truncated => "message truncated"@,
            FrameError::UnknownType(v) => "unknown message type: "@ + padded_number(v as nat, 10, 0),
        }
    }

    /// The error's text.
    pub fn message(&self) -> (m: String)
        ensures
            m@ == self.message_spec(),
    {
        match self {
            FrameError::Truncated => "message truncated".to_owned(),
            FrameError::UnknownType(v) => text_with_number("unknown message type: ", *v, 10, 0),
        }
    }
}

/// A frame whose type field has not been interpreted.
#[derive(Debug, Clone)]
pub struct RawFrame {
    /// Numeric value of the type field.
    pub type_value: u32,
    /// Trace id bytes.
    pub trace: Vec<u8>,
    /// Payload bytes.
    pub payload: Vec<u8>,
    /// Number of input bytes the frame occupies.
    pub consumed: usize,
}

/// A frame with a known message kind.
#[derive(Debug, Clone)]
pub struct Frame {
    /// Message kind.
    pub msg_type: MessageType,
    /// Trace id bytes.
    pub trace: Vec<u8>,
    /// Payload bytes.
    pub payload: Vec<u8>,
    /// Number of input bytes the frame occupies.
    pub consumed: usize,
}

/// Number of trace-id bytes a frame carries for a trace id of these bytes:
/// longer ids are cut to [`MAX_TRACE_LEN`].
pub open spec fn trace_field_len(trace: Seq<u8>) -> int {
    if trace.len() <= 65535 {
        trace.len() as int
    } else {
        65535
    }
}

/// The bytes of a frame of the given type value, trace id and payload. The
/// length field wraps modulo 2^32 as a `u32`.
pub open spec fn frame_bytes(type_value: u32, trace: Seq<u8>, payload: Seq<u8>) -> Seq<u8> {
    let tl = trace_field_len(trace);
    be32((6 + tl + payload.len()) as u32) + be32(type_value) + be16(tl as u16) + trace.subrange(
        0,
        tl,
    ) + payload
}

/// Reading a frame whose type field is not interpreted: the type value,
/// trace bytes, payload bytes and number of bytes consumed, or `None` when
/// the input ends first.
///
/// A length field below 6 carries no trace length: the bytes after the
/// header that it covers are the payload. Otherwise the payload is what the
/// length leaves after the trace (none when the trace claims more).
pub open spec fn decode_raw(s: Seq<u8>) -> Option<(u32, Seq<u8>, Seq<u8>, int)> {
    if s.len() < 8 {
        None
    } else {
        let length = read_be32(s, 0) as int;
        let ty = read_be32(s, 4);
        let remaining = if length >= 4 {
            length - 4
        } else {
            0
        };
        if remaining < 2 {
            if s.len() < 8 + remaining {
                None
            } else {
                Some((ty, Seq::<u8>::empty(), s.subrange(8, 8 + remaining), 8 + remaining))
            }
        } else if s.len() < 10 {
            None
        } else {
            let tl = read_be16(s, 8) as int;
            let payload_len = if remaining >= 2 + tl {
                remaining - 2 - tl
            } else {
                0
            };
            if s.len() < 10 + tl + payload_len {
                None
            } else {
                Some(
                    (
                        ty,
                        s.subrange(10, 10 + tl),
                        s.subrange(10 + tl, 10 + tl + payload_len),
                        10 + tl + payload_len,
                    ),
                )
            }
        }
    }
}

/// Reading a frame: a header shorter than 8 bytes is truncation; a type value
/// that names no message kind is rejected before the rest is read.
pub open spec fn decode_frame(s: Seq<u8>) -> Result<(MessageType, Seq<u8>, Seq<u8>, int), FrameError> {
    if s.len() < 8 {
        Err(FrameError::Truncated)
    } else {
        match message_type_of(read_be32(s, 4)) {
            None => Err(FrameError::UnknownType(read_be32(s, 4))),
            Some(t) => match decode_raw(s) {
                None => Err(FrameError::Truncated),
                Some((_, trace, payload, n)) => Ok((t, trace, payload, n)),
            },
        }
    }
}

/// Builds a frame of `msg_type` carrying `trace_id` (cut to
/// [`MAX_TRACE_LEN`] bytes) and `payload`.
pub fn build_message(msg_type: MessageType, trace_id: &str, payload: &[u8]) -> (buf: Vec<u8>)
    requires
        6 + trace_field_len(trace_id.spec_bytes()) + payload@.len() <= usize::MAX,
    ensures
        buf@ == frame_bytes(message_type_value(msg_type), trace_id.spec_bytes(), payload@),
{
    let trace_bytes = trace_id.as_bytes();
    let trace_len: usize = if trace_bytes.len() <= MAX_TRACE_LEN {
        trace_bytes.len()
    } else {
        MAX_TRACE_LEN
    };
    let length: usize = 4 + 2 + trace_len + payload.len();
    let mut buf: Vec<u8> = Vec::new();
    push_be32(&mut buf, #[verifier::truncate] (length as u32));
    push_be32(&mut buf, msg_type.wire_value());
    push_be16(&mut buf, trace_len as u16);
    let trace_part = copy_range(trace_bytes, 0, trace_len);
    extend_bytes(&mut buf, trace_part.as_slice());
    extend_bytes(&mut buf, payload);
    buf
}

/// Reads one frame from the start of `s` without interpreting its type
/// field.
pub fn decode_raw_frame(s: &[u8]) -> (r: Option<RawFrame>)
    ensures
        match r {
            None => decode_raw(s@) is None,
            Some(f) => decode_raw(s@) == Some(
                (f.type_value, f.trace@, f.payload@, f.consumed as int),
            ),
        },
{
    if s.len() < 8 {
        return None;
    }
    let length = get_be32(s, 0) as usize;
    let ty = get_be32(s, 4);
    let remaining: usize = if length >= 4 {
        length - 4
    } else {
        0
    };
    if remaining < 2 {
        if s.len() - 8 < remaining {
            return None;
        }
        let payload = copy_range(s, 8, 8 + remaining);
        return Some(RawFrame { type_value: ty, trace: Vec::new(), payload, consumed: 8 + remaining });
    }
    if s.len() < 10 {
        return None;
    }
    let tl = get_be16(s, 8) as usize;
    let payload_len: usize = if remaining - 2 >= tl {
        remaining - 2 - tl
    } else {
        0
    };
    if s.len() - 10 < tl || s.len() - 10 - tl < payload_len {
        return None;
    }
    let trace = copy_range(s, 10, 10 + tl);
    let payload = copy_range(s, 10 + tl, 10 + tl + payload_len);
    Some(RawFrame { type_value: ty, trace, payload, consumed: 10 + tl + payload_len })
}

/// Reads one frame from the start of `s`.
pub fn decode_message(s: &[u8]) -> (r: Result<Frame, FrameError>)
    ensures
        match r {
            Err(e) => decode_frame(s@) == Err::<(MessageType, Seq<u8>, Seq<u8>, int), FrameError>(e),
            Ok(f) => decode_frame(s@) == Ok::<(MessageType, Seq<u8>, Seq<u8>, int), FrameError>(
                (f.msg_type, f.trace@, f.payload@, f.consumed as int),
            ),
        },
{
    if s.len() < 8 {
        return Err(FrameError::Truncated);
    }
    let raw_type = get_be32(s, 4);
    let msg_type = match MessageType::from_u32(raw_type) {
        Some(t) => t,
        None => return Err(FrameError::UnknownType(raw_type)),
    };
    match decode_raw_frame(s) {
        None => Err(FrameError::Truncated),
        Some(f) => Ok(Frame { msg_type, trace: f.trace, payload: f.payload, consumed: f.consumed }),
    }
}

/// Decoding a built frame gives back its type value, its (possibly cut)
/// trace id and its payload, whatever bytes follow it.
pub proof fn lemma_frame_roundtrip_raw(type_value: u32, trace: Seq<u8>, payload: Seq<u8>, rest: Seq<u8>)
    requires
        6 + trace_field_len(trace) + payload.len() <= u32::MAX,
    ensures
        decode_raw(frame_bytes(type_value, trace, payload) + rest) == Some(
            (
                type_value,
                trace.subrange(0, trace_field_len(trace)),
                payload,
                frame_bytes(type_value, trace, payload).len() as int,
            ),
        ),
{
    let tl = trace_field_len(trace);
    let length = (6 + tl + payload.len()) as u32;
    let t = trace.subrange(0, tl);
    let f = frame_bytes(type_value, trace, payload);
    let s = f + rest;
    let empty = Seq::<u8>::empty();
    assert(s =~= empty + be32(length) + (be32(type_value) + be16(tl as u16) + t + payload + rest));
    lemma_be32_roundtrip(length, empty, be32(type_value) + be16(tl as u16) + t + payload + rest);
    assert(s =~= be32(length) + be32(type_value) + (be16(tl as u16) + t + payload + rest));
    lemma_be32_roundtrip(type_value, be32(length), be16(tl as u16) + t + payload + rest);
    assert(s =~= (be32(length) + be32(type_value)) + be16(tl as u16) + (t + payload + rest));
    lemma_be16_roundtrip(tl as u16, be32(length) + be32(type_value), t + payload + rest);
    assert(f.len() == 10 + tl + payload.len());
    assert(s.subrange(10, 10 + tl) =~= t);
    assert(s.subrange(10 + tl, 10 + tl + payload.len()) =~= payload);
}

/// Decoding a built frame of a message kind gives back that kind, the
/// (possibly cut) trace id and the payload, whatever bytes follow it.
pub proof fn lemma_frame_roundtrip(t: MessageType, trace: Seq<u8>, payload: Seq<u8>, rest: Seq<u8>)
    requires
        6 + trace_field_len(trace) + payload.len() <= u32::MAX,
    ensures
        decode_frame(frame_bytes(message_type_value(t), trace, payload) + rest) == Ok::<
            (MessageType, Seq<u8>, Seq<u8>, int),
            FrameError,
        >(
            (
                t,
                trace.subrange(0, trace_field_len(trace)),
                payload,
                frame_bytes(message_type_value(t), trace, payload).len() as int,
            ),
        ),
{
    let v = message_type_value(t);
    let tl = trace_field_len(trace);
    let length = (6 + tl + payload.len()) as u32;
    let s = frame_bytes(v, trace, payload) + rest;
    lemma_frame_roundtrip_raw(v, trace, payload, rest);
    assert(s =~= be32(length) + be32(v) + (be16(tl as u16) + trace.subrange(0, tl) + payload + rest));
    lemma_be32_roundtrip(v, be32(length), be16(tl as u16) + trace.subrange(0, tl) + payload + rest);
    lemma_message_type_roundtrip(t);
}

} // verus!
