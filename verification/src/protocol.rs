//! Telemetry wire framing: `[type] [payload...] [crc8]`, COBS-encoded and
//! terminated by a zero delimiter.

use vstd::prelude::*;

verus! {

/// Maximum payload size for any single frame (core or feature-specific).
pub const MAX_PAYLOAD: usize = 64;

/// Maximum raw frame size before COBS encoding: type(1) + payload + crc(1).
pub const MAX_RAW_FRAME: usize = 66;

/// Maximum COBS-encoded frame size including the trailing zero delimiter.
pub const MAX_ENCODED_FRAME: usize = 68;

/// Central registry of frame type IDs on the wire.
#[derive(Debug, Clone, Copy, PartialEq, Eq, Structural)]
pub enum FrameType {
    /// Core motion telemetry (wire id 0x01).
    CoreTelemetry,
}

/// The wire id of a frame type.
pub open spec fn frame_type_id(t: FrameType) -> u8 {
    match t {
        FrameType::CoreTelemetry => 0x01u8,
    }
}

/// The frame type registered under a wire id, if any.
pub open spec fn frame_type_of(v: u8) -> Option<FrameType> {
    if v == 0x01 {
        Some(FrameType::CoreTelemetry)
    } else {
        None
    }
}

impl FrameType {
    /// Look up the frame type registered under wire id `v`.
    pub fn from_u8(v: u8) -> (r: Option<FrameType>)
        ensures
            r == frame_type_of(v),
    {
        match v {
            0x01 => Some(FrameType::CoreTelemetry),
            _ => None,
        }
    }

    /// The wire id of this frame type.
    pub fn to_u8(self) -> (v: u8)
        ensures
            v == frame_type_id(self),
            frame_type_of(v) == Some(self),
    {
        match self {
            FrameType::CoreTelemetry => 0x01,
        }
    }
}

#[derive(Debug, Clone, Copy, PartialEq, Eq, Structural)]
pub enum EncodeError {
    PayloadTooLarge,
    BufferTooSmall,
}

#[derive(Debug, Clone, Copy, PartialEq, Eq, Structural)]
pub enum DecodeError {
    InvalidCobs,
    TooShort,
    CrcMismatch,
    PayloadTooLarge,
}

/// `k` steps of the CRC-8 register with polynomial 0x07: shift left, and xor
/// in the polynomial when the bit shifted out was set.
pub open spec fn crc8_shift(crc: u8, k: nat) -> u8
    decreases k,
{
    if k == 0 {
        crc
    } else {
        let next: u8 = if crc & 0x80u8 != 0 {
            ((crc << 1u8) ^ 0x07u8) as u8
        } else {
            (crc << 1u8) as u8
        };
        crc8_shift(next, (k - 1) as nat)
    }
}

/// CRC-8/SMBUS checksum (poly 0x07, init 0, no reflection, no final xor):
/// each byte is xored into the register, which is then shifted eight times.
pub open spec fn crc8_smbus(data: Seq<u8>) -> u8
    decreases data.len(),
{
    if data.len() == 0 {
        0
    } else {
        crc8_shift(crc8_smbus(data.drop_last()) ^ data.last(), 8)
    }
}

/// The COBS encoding (without trailing delimiter) that the `cobs` crate
/// produces for `source`.
pub uninterp spec fn cobs_encoding(source: Seq<u8>) -> Seq<u8>;

/// The frame that the `cobs` crate decodes from `source` into a buffer
/// whose contents were `dest`, or `None` where it reports an error.
pub uninterp spec fn cobs_decoding(source: Seq<u8>, dest: Seq<u8>) -> Option<Seq<u8>>;

/// The largest size a COBS encoding of `n` bytes can take.
pub open spec fn cobs_max_encoded_len(n: nat) -> nat {
    if n == 0 {
        1
    } else {
        n + (n + 253) / 254
    }
}

/// `crc::Crc::<u8>::checksum` with the `CRC_8_SMBUS` algorithm (width 8,
/// poly 0x07, init 0, refin/refout false, xorout 0). Claimed: the result is
/// the bitwise CRC-8/SMBUS of `data` that `crc8_smbus` writes out.
#[verifier::external_body]
fn crc8_checksum(data: &[u8]) -> (c: u8)
    ensures
        c == crc8_smbus(data@),
{
    crc::Crc::<u8>::new(&crc::CRC_8_SMBUS).checksum(data)
}

/// Whether `cobs::encode` of `source` into a buffer of `dest_len` bytes
/// stays within the buffer. For a non-empty source of at most 253 bytes it
/// writes every byte of the encoding except the final code byte of a source
/// that ends in zero, which it leaves out when that falls past the buffer;
/// for longer sources the maximal length that the crate documents is asked.
pub open spec fn cobs_encode_fits(source: Seq<u8>, dest_len: nat) -> bool {
    if source.len() == 0 {
        true
    } else if source.len() <= 253 {
        dest_len >= source.len() + if source.last() == 0 {
            0nat
        } else {
            1nat
        }
    } else {
        dest_len >= cobs_max_encoded_len(source.len())
    }
}

/// `cobs::encode`. Claimed: it returns the length of the COBS encoding of
/// `source`, which never exceeds the maximal encoded length that the crate
/// documents and holds no zero byte (the sentinel COBS removes), and it leaves
/// the length of `dest` alone; when the encoding fits `dest` it stands at the
/// start of `dest`. For a source of at most 253 bytes (no block of 254
/// non-zero bytes fits) the encoding is exactly one byte longer than the
/// source; every write goes to a position of the encoding, so nothing past
/// it changes, and when the encoding is one byte longer than `dest` (a
/// source ending in zero) `dest` holds all of it but the last byte. The
/// crate panics when a write falls past `dest`, which `cobs_encode_fits`
/// rules out. For longer sources nothing is said of the bytes of `dest`
/// past the encoding.
#[verifier::external_body]
fn cobs_encode_into(source: &[u8], dest: &mut [u8]) -> (n: usize)
    requires
        cobs_encode_fits(source@, old(dest)@.len()),
    ensures
        n == cobs_encoding(source@).len(),
        1 <= n <= cobs_max_encoded_len(source@.len()),
        final(dest)@.len() == old(dest)@.len(),
        n <= old(dest)@.len() ==> final(dest)@.take(n as int) == cobs_encoding(source@),
        forall|i: int| 0 <= i < n ==> #[trigger] cobs_encoding(source@)[i] != 0u8,
        source@.len() <= 253 ==> n == source@.len() + 1,
        source@.len() <= 253 && n <= old(dest)@.len() ==> final(dest)@.skip(n as int) == old(
            dest,
        )@.skip(n as int),
        source@.len() <= 253 && n > old(dest)@.len() ==> final(dest)@ == cobs_encoding(
            source@,
        ).take(old(dest)@.len() as int),
{
    cobs::encode(source, dest)
}

/// `cobs::decode`, reporting the decoded frame size (`DecodeReport::frame_size`)
/// or `None` for any `cobs::DecodeError`. Claimed: success and the frame are
/// those named by `cobs_decoding`; a decoded frame fits `dest` and stands at its
/// start; and decoding inverts `cobs::encode` for every frame that fits `dest`.
/// Nothing is said of the bytes of `dest` past the frame.
#[verifier::external_body]
fn cobs_decode_into(source: &[u8], dest: &mut [u8]) -> (r: Option<usize>)
    ensures
        final(dest)@.len() == old(dest)@.len(),
        r is Some <==> cobs_decoding(source@, old(dest)@) is Some,
        r matches Some(n) ==> {
            &&& n == cobs_decoding(source@, old(dest)@).unwrap().len()
            &&& n <= old(dest)@.len()
            &&& final(dest)@.take(n as int) == cobs_decoding(source@, old(dest)@).unwrap()
        },
        forall|x: Seq<u8>|
            source@ == cobs_encoding(x) && x.len() <= old(dest)@.len() ==> r == Some(
                x.len() as usize,
            ) && final(dest)@.take(x.len() as int) == x,
{
    match cobs::decode(source, dest) {
        Ok(report) => Some(report.frame_size()),
        Err(_) => None,
    }
}

/// Wire ids and frame types correspond one to one.
pub proof fn lemma_frame_type_ids(t: FrameType, v: u8)
    ensures
        frame_type_of(frame_type_id(t)) == Some(t),
        frame_type_of(v) == Some(t) ==> frame_type_id(t) == v,
{
}

/// The raw (pre-COBS) frame: type byte, payload, then the CRC-8 of both.
pub open spec fn raw_frame(frame_type: u8, payload: Seq<u8>) -> Seq<u8> {
    let body = seq![frame_type] + payload;
    body.push(crc8_smbus(body))
}

/// The shape of a raw frame: its length, type byte, payload bytes and
/// trailing checksum.
pub proof fn lemma_raw_frame_shape(frame_type: u8, payload: Seq<u8>)
    ensures
        raw_frame(frame_type, payload).len() == payload.len() + 2,
        raw_frame(frame_type, payload)[0] == frame_type,
        raw_frame(frame_type, payload).subrange(1, payload.len() + 1int) == payload,
        raw_frame(frame_type, payload).last() == crc8_smbus(
            raw_frame(frame_type, payload).drop_last(),
        ),
{
    let body = seq![frame_type] + payload;
    assert(raw_frame(frame_type, payload).drop_last() =~= body);
    assert(raw_frame(frame_type, payload).subrange(1, payload.len() + 1int) =~= payload);
}

/// Whether `encode_frame` can be called without the COBS encoder panicking:
/// either the payload is refused as too large, or the COBS encoder's writes
/// for the raw frame stay within `out` (one byte more than the raw frame,
/// or just the raw frame's length when its checksum is zero).
pub open spec fn encode_frame_fits(frame_type: u8, payload: Seq<u8>, out_len: nat) -> bool {
    payload.len() + 2 > MAX_RAW_FRAME || cobs_encode_fits(raw_frame(frame_type, payload), out_len)
}

/// Encode a frame: `[type] [payload...] [crc8]`, then COBS-encode and append
/// the zero delimiter.
///
/// Returns the number of bytes written to `out`, including the delimiter.
pub fn encode_frame(frame_type: u8, payload: &[u8], out: &mut [u8]) -> (r: Result<usize, EncodeError>)
    requires
        encode_frame_fits(frame_type, payload@, old(out)@.len()),
    ensures
        final(out)@.len() == old(out)@.len(),
        payload@.len() + 2 > MAX_RAW_FRAME ==> r == Err::<usize, EncodeError>(
            EncodeError::PayloadTooLarge,
        ) && final(out)@ == old(out)@,
        payload@.len() + 2 <= MAX_RAW_FRAME ==> {
            let enc = cobs_encoding(raw_frame(frame_type, payload@));
            &&& enc.len() == payload@.len() + 3
            &&& forall|i: int| 0 <= i < enc.len() ==> #[trigger] enc[i] != 0u8
            &&& old(out)@.len() < payload@.len() + 4 ==> r == Err::<usize, EncodeError>(
                EncodeError::BufferTooSmall,
            ) && final(out)@ == if old(out)@.len() >= enc.len() {
                enc + old(out)@.skip(enc.len() as int)
            } else {
                enc.take(old(out)@.len() as int)
            }
            &&& old(out)@.len() >= payload@.len() + 4 ==> r == Ok::<usize, EncodeError>(
                (payload@.len() + 4) as usize,
            ) && final(out)@ == enc.push(0u8) + old(out)@.skip(payload@.len() + 4int)
        },
{
    let plen = payload.len();
    if plen > MAX_RAW_FRAME - 2 {
        return Err(EncodeError::PayloadTooLarge);
    }
    let raw_len = plen + 2;
    let mut raw = [0u8; 66];
    raw[0] = frame_type;
    let mut i: usize = 0;
    while i < plen
        invariant
            plen == payload@.len(),
            plen + 2 <= MAX_RAW_FRAME,
            i <= plen,
            raw@.len() == MAX_RAW_FRAME,
            raw@[0] == frame_type,
            forall|j: int| 0 <= j < i ==> raw@[j + 1] == payload@[j],
        decreases plen - i,
    {
        raw[i + 1] = payload[i];
        i = i + 1;
    }
    let ghost body = seq![frame_type] + payload@;
    assert(raw@.subrange(0, plen + 1) =~= body);
    let crc = crc8_checksum(&raw[0..plen + 1]);
    raw[plen + 1] = crc;
    assert(raw@.subrange(0, raw_len as int) =~= raw_frame(frame_type, payload@));
    let ghost before = out@;
    let cobs_len = cobs_encode_into(&raw[0..raw_len], out);
    let ghost enc = cobs_encoding(raw_frame(frame_type, payload@));
    if cobs_len + 1 > out.len() {
        proof {
            if cobs_len <= out.len() {
                assert(out@ =~= out@.take(cobs_len as int) + out@.skip(cobs_len as int));
                assert(out@ =~= enc + before.skip(enc.len() as int));
            }
        }
        return Err(EncodeError::BufferTooSmall);
    }
    assert(out@ =~= out@.take(cobs_len as int) + out@.skip(cobs_len as int));
    let ghost mid = out@;
    out[cobs_len] = 0x00;
    assert(out@ =~= enc.push(0u8) + before.skip(cobs_len + 1)) by {
        assert(mid.skip(cobs_len as int) == before.skip(cobs_len as int));
        assert forall|i: int| cobs_len < i < out@.len() implies out@[i] == before[i] by {
            assert(mid.skip(cobs_len as int)[i - cobs_len] == before.skip(cobs_len as int)[i - cobs_len]);
        }
    }
    Ok(cobs_len + 1)
}

/// What `decode_frame` reports for a decoded raw frame `raw` and an output
/// buffer of `out_len` bytes: the frame type and payload length, or the
/// first check that fails.
pub open spec fn check_raw_frame(raw: Seq<u8>, out_len: nat) -> Result<(u8, usize), DecodeError> {
    if raw.len() < 2 {
        Err(DecodeError::TooShort)
    } else if raw.last() != crc8_smbus(raw.drop_last()) {
        Err(DecodeError::CrcMismatch)
    } else if raw.len() - 2 > out_len {
        Err(DecodeError::PayloadTooLarge)
    } else {
        Ok((raw[0], (raw.len() - 2) as usize))
    }
}

/// The result of `decode_frame` on COBS data `cobs_data` with an output
/// buffer of `out_len` bytes.
pub open spec fn decode_frame_result(cobs_data: Seq<u8>, out_len: nat) -> Result<(u8, usize), DecodeError> {
    match cobs_decoding(cobs_data, Seq::new(MAX_RAW_FRAME as nat, |i: int| 0u8)) {
        None => Err(DecodeError::InvalidCobs),
        Some(raw) => check_raw_frame(raw, out_len),
    }
}

/// Every frame `decode_frame` accepts carries a correct checksum: its last
/// byte is the CRC-8/SMBUS of the type and payload before it, whatever the
/// payload length. A decoded frame of at least two bytes whose last byte
/// differs from that checksum is refused with `CrcMismatch`.
pub proof fn lemma_decode_checks_crc(cobs_data: Seq<u8>, out_len: nat)
    ensures
        ({
            let dec = cobs_decoding(cobs_data, Seq::new(MAX_RAW_FRAME as nat, |i: int| 0u8));
            &&& decode_frame_result(cobs_data, out_len) matches Ok((t, n)) ==> {
                &&& dec is Some
                &&& dec.unwrap().len() >= 2
                &&& dec.unwrap()[0] == t
                &&& dec.unwrap().last() == crc8_smbus(dec.unwrap().drop_last())
            }
            &&& (dec is Some && dec.unwrap().len() >= 2 && dec.unwrap().last() != crc8_smbus(
                dec.unwrap().drop_last(),
            )) ==> decode_frame_result(cobs_data, out_len) == Err::<(u8, usize), DecodeError>(
                DecodeError::CrcMismatch,
            )
        }),
{
}

/// Decode a COBS-encoded frame (without trailing zero delimiter).
///
/// Returns `(frame_type, payload_len)` with the payload written into the
/// start of `payload_out`; on error `payload_out` is left as it was.
pub fn decode_frame(cobs_data: &[u8], payload_out: &mut [u8]) -> (r: Result<(u8, usize), DecodeError>)
    ensures
        r == decode_frame_result(cobs_data@, old(payload_out)@.len()),
        r matches Ok((_, n)) ==> n <= MAX_PAYLOAD && n <= old(payload_out)@.len(),
        final(payload_out)@.len() == old(payload_out)@.len(),
        r is Err ==> final(payload_out)@ == old(payload_out)@,
        r matches Ok((t, n)) ==> {
            let raw = cobs_decoding(cobs_data@, Seq::new(MAX_RAW_FRAME as nat, |i: int| 0u8)).unwrap();
            &&& final(payload_out)@ == raw.subrange(1, n + 1) + old(payload_out)@.skip(n as int)
        },
        forall|t: u8, p: Seq<u8>|
            p.len() <= MAX_PAYLOAD && p.len() <= old(payload_out)@.len() && cobs_data@
                == cobs_encoding(#[trigger] raw_frame(t, p)) ==> r == Ok::<(u8, usize), DecodeError>(
                (t, p.len() as usize),
            ) && final(payload_out)@ == p + old(payload_out)@.skip(p.len() as int),
{
    let mut raw = [0u8; 66];
    assert(raw@ =~= Seq::new(MAX_RAW_FRAME as nat, |i: int| 0u8));
    let ghost zeros = raw@;
    let decoded = cobs_decode_into(cobs_data, &mut raw);
    let raw_len = match decoded {
        Some(n) => n,
        None => {
            return Err(DecodeError::InvalidCobs);
        },
    };
    let ghost rawf = cobs_decoding(cobs_data@, zeros).unwrap();
    assert(raw@.take(raw_len as int) == rawf);
    proof {
        assert forall|t: u8, p: Seq<u8>|
            p.len() <= MAX_PAYLOAD && p.len() <= old(payload_out)@.len() && cobs_data@
                == cobs_encoding(#[trigger] raw_frame(t, p)) implies rawf == raw_frame(t, p)
            && check_raw_frame(rawf, old(payload_out)@.len()) == Ok::<(u8, usize), DecodeError>(
            (t, p.len() as usize)) by {
            lemma_raw_frame_shape(t, p);
        }
    }
    if raw_len < 2 {
        return Err(DecodeError::TooShort);
    }
    let frame_type = raw[0];
    let payload_len = raw_len - 2;
    let received_crc = raw[raw_len - 1];
    assert(raw@.subrange(0, raw_len - 1) =~= rawf.drop_last());
    let computed_crc = crc8_checksum(&raw[0..raw_len - 1]);
    if received_crc != computed_crc {
        return Err(DecodeError::CrcMismatch);
    }
    if payload_len > payload_out.len() {
        return Err(DecodeError::PayloadTooLarge);
    }
    let ghost old_out = payload_out@;
    let mut i: usize = 0;
    while i < payload_len
        invariant
            payload_len + 2 == raw_len,
            raw_len <= raw@.len(),
            raw@.take(raw_len as int) == rawf,
            payload_len <= payload_out@.len(),
            payload_out@.len() == old_out.len(),
            i <= payload_len,
            forall|j: int| 0 <= j < i ==> payload_out@[j] == rawf[j + 1],
            forall|j: int| i <= j < old_out.len() ==> payload_out@[j] == old_out[j],
        decreases payload_len - i,
    {
        payload_out[i] = raw[i + 1];
        i = i + 1;
    }
    assert(payload_out@ =~= rawf.subrange(1, payload_len + 1) + old_out.skip(payload_len as int));
    proof {
        assert forall|t: u8, p: Seq<u8>|
            p.len() <= MAX_PAYLOAD && p.len() <= old_out.len() && cobs_data@
                == cobs_encoding(#[trigger] raw_frame(t, p)) implies frame_type == t
            && payload_len == p.len() && payload_out@ == p + old_out.skip(p.len() as int) by {
            lemma_raw_frame_shape(t, p);
        }
    }
    Ok((frame_type, payload_len))
}

} // verus!
