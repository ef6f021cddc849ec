//! Byte layout of the core telemetry payload (device to browser).
//!
//! Fixed 15-byte layout:
//! ```text
//! position: f32 LE  [0..4]
//! velocity: f32 LE  [4..8]
//! torque:   f32 LE  [8..12]
//! phase:    u8       [12]
//! sequence: u16 LE   [13..15]
//! ```
//! The three floating-point fields are carried here by their IEEE-754 bit
//! patterns (`f32::to_bits`), which is what their little-endian bytes encode.

use vstd::prelude::*;

verus! {

/// Size of the core telemetry payload in bytes.
pub const CORE_TELEMETRY_SIZE: usize = 15;

/// The fields of a core telemetry payload, floats by their bit patterns.
#[derive(Debug, Clone, Copy, PartialEq, Eq, Structural)]
pub struct TelemetryFields {
    pub position_bits: u32,
    pub velocity_bits: u32,
    pub torque_bits: u32,
    pub phase: u8,
    pub sequence: u16,
}

/// Byte `k` (0 = least significant) of `v`.
pub open spec fn byte_of(v: u32, k: u32) -> u8 {
    ((v >> (8 * k)) & 0xff) as u8
}

/// The little-endian bytes of a 32-bit value.
pub open spec fn le_u32(v: u32) -> Seq<u8> {
    seq![byte_of(v, 0), byte_of(v, 1), byte_of(v, 2), byte_of(v, 3)]
}

/// The little-endian bytes of a 16-bit value.
pub open spec fn le_u16(v: u16) -> Seq<u8> {
    seq![(v & 0xff) as u8, (v >> 8u16) as u8]
}

/// The 15 payload bytes of `f`.
pub open spec fn telemetry_bytes(f: TelemetryFields) -> Seq<u8> {
    le_u32(f.position_bits) + le_u32(f.velocity_bits) + le_u32(f.torque_bits) + seq![f.phase]
        + le_u16(f.sequence)
}

/// The 32-bit value of four little-endian bytes.
pub open spec fn u32_from_le(b0: u8, b1: u8, b2: u8, b3: u8) -> u32 {
    (b0 as u32) | (b1 as u32) << 8u32 | (b2 as u32) << 16u32 | (b3 as u32) << 24u32
}

fn write_u32_le(buf: &mut [u8; 15], at: usize, v: u32)
    requires
        at + 4 <= 15,
    ensures
        final(buf)@ == old(buf)@.update(at as int, byte_of(v, 0)).update(
            at + 1,
            byte_of(v, 1),
        ).update(at + 2, byte_of(v, 2)).update(at + 3, byte_of(v, 3)),
{
    let b0: u8 = (v & 0xff) as u8;
    let b1: u8 = ((v >> 8u32) & 0xff) as u8;
    let b2: u8 = ((v >> 16u32) & 0xff) as u8;
    let b3: u8 = ((v >> 24u32) & 0xff) as u8;
    assert(b0 == byte_of(v, 0) && b1 == byte_of(v, 1) && b2 == byte_of(v, 2) && b3 == byte_of(v, 3))
        by (bit_vector)
        requires
            b0 == (v & 0xff) as u8,
            b1 == ((v >> 8u32) & 0xff) as u8,
            b2 == ((v >> 16u32) & 0xff) as u8,
            b3 == ((v >> 24u32) & 0xff) as u8,
    ;
    buf[at] = b0;
    buf[at + 1] = b1;
    buf[at + 2] = b2;
    buf[at + 3] = b3;
}

impl TelemetryFields {
    /// Write the payload bytes into `buf`.
    pub fn to_bytes(&self, buf: &mut [u8; 15])
        ensures
            final(buf)@ == telemetry_bytes(*self),
    {
        write_u32_le(buf, 0, self.position_bits);
        write_u32_le(buf, 4, self.velocity_bits);
        write_u32_le(buf, 8, self.torque_bits);
        buf[12] = self.phase;
        buf[13] = (self.sequence & 0xff) as u8;
        buf[14] = (self.sequence >> 8u16) as u8;
        assert(buf@ =~= telemetry_bytes(*self));
    }

    /// Read the fields from payload bytes.
    pub fn from_bytes(buf: &[u8; 15]) -> (f: TelemetryFields)
        ensures
            f.position_bits == u32_from_le(buf@[0], buf@[1], buf@[2], buf@[3]),
            f.velocity_bits == u32_from_le(buf@[4], buf@[5], buf@[6], buf@[7]),
            f.torque_bits == u32_from_le(buf@[8], buf@[9], buf@[10], buf@[11]),
            f.phase == buf@[12],
            f.sequence == (buf@[13] as u16) | (buf@[14] as u16) << 8u16,
    {
        TelemetryFields {
            position_bits: (buf[0] as u32) | (buf[1] as u32) << 8u32 | (buf[2] as u32) << 16u32 | (
            buf[3] as u32) << 24u32,
            velocity_bits: (buf[4] as u32) | (buf[5] as u32) << 8u32 | (buf[6] as u32) << 16u32 | (
            buf[7] as u32) << 24u32,
            torque_bits: (buf[8] as u32) | (buf[9] as u32) << 8u32 | (buf[10] as u32) << 16u32 | (
            buf[11] as u32) << 24u32,
            phase: buf[12],
            sequence: (buf[13] as u16) | (buf[14] as u16) << 8u16,
        }
    }
}

proof fn lemma_u32_le_round_trip(v: u32)
    ensures
        u32_from_le(byte_of(v, 0), byte_of(v, 1), byte_of(v, 2), byte_of(v, 3)) == v,
{
    assert(((((v >> 0u32) & 0xff) as u8) as u32) | ((((v >> 8u32) & 0xff) as u8) as u32) << 8u32 | ((((v
        >> 16u32) & 0xff) as u8) as u32) << 16u32 | ((((v >> 24u32) & 0xff) as u8) as u32) << 24u32
        == v) by (bit_vector);
}

/// Decoding the bytes of a telemetry payload gives back every field.
pub proof fn lemma_telemetry_round_trip(f: TelemetryFields)
    ensures
        ({
            let b = telemetry_bytes(f);
            &&& b.len() == CORE_TELEMETRY_SIZE
            &&& u32_from_le(b[0], b[1], b[2], b[3]) == f.position_bits
            &&& u32_from_le(b[4], b[5], b[6], b[7]) == f.velocity_bits
            &&& u32_from_le(b[8], b[9], b[10], b[11]) == f.torque_bits
            &&& b[12] == f.phase
            &&& (b[13] as u16) | (b[14] as u16) << 8u16 == f.sequence
        }),
{
    lemma_u32_le_round_trip(f.position_bits);
    lemma_u32_le_round_trip(f.velocity_bits);
    lemma_u32_le_round_trip(f.torque_bits);
    let s = f.sequence;
    assert((((s & 0xff) as u8) as u16) | (((s >> 8u16) as u8) as u16) << 8u16 == s) by (bit_vector);
}

} // verus!
