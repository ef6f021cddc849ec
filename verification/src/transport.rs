//! Frames queued for the telemetry writer.

use vstd::prelude::*;
use crate::protocol::{
    cobs_encoding, encode_frame, frame_type_id, raw_frame, EncodeError, FrameType, MAX_ENCODED_FRAME,
    MAX_PAYLOAD,
};

verus! {

/// A pre-encoded frame ready for transmission.
pub struct EncodedFrame {
    buf: [u8; 68],
    len: usize,
}

impl EncodedFrame {
    /// The bytes to transmit.
    pub closed spec fn spec_bytes(&self) -> Seq<u8> {
        self.buf@.take(self.len as int)
    }

    #[verifier::type_invariant]
    spec fn wf(&self) -> bool {
        self.len <= MAX_ENCODED_FRAME
    }

    /// Encode a frame of type `frame_type` carrying `payload`. Fails exactly
    /// when the payload exceeds `MAX_PAYLOAD`; otherwise the bytes are the
    /// COBS encoding of the raw frame followed by the zero delimiter, four
    /// bytes more than the payload.
    pub fn encode(frame_type: FrameType, payload: &[u8]) -> (r: Result<EncodedFrame, EncodeError>)
        ensures
            payload@.len() > MAX_PAYLOAD ==> r == Err::<EncodedFrame, EncodeError>(
                EncodeError::PayloadTooLarge,
            ),
            payload@.len() <= MAX_PAYLOAD ==> (r matches Ok(f) && f.spec_bytes()
                == cobs_encoding(raw_frame(frame_type_id(frame_type), payload@)).push(0u8)
                && f.spec_bytes().len() == payload@.len() + 4),
    {
        let mut buf = [0u8; 68];
        let id = frame_type.to_u8();
        match encode_frame(id, payload, &mut buf) {
            Ok(len) => Ok(EncodedFrame { buf, len }),
            Err(e) => Err(e),
        }
    }

    /// The bytes to transmit.
    pub fn as_bytes(&self) -> (b: &[u8])
        ensures
            b@ == self.spec_bytes(),
    {
        proof {
            use_type_invariant(self);
        }
        &self.buf[0..self.len]
    }
}

} // verus!
