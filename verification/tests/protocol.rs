use ossm::protocol::{
    decode_frame, encode_frame, DecodeError, EncodeError, FrameType, MAX_ENCODED_FRAME, MAX_PAYLOAD,
};
use ossm::telemetry::{TelemetryFields, CORE_TELEMETRY_SIZE};
use ossm::transport::EncodedFrame;

/// Bitwise CRC-8/SMBUS (poly 0x07, init 0), written out for checking.
fn crc8_reference(data: &[u8]) -> u8 {
    let mut crc: u8 = 0;
    for &b in data {
        crc ^= b;
        for _ in 0..8 {
            if crc & 0x80 != 0 {
                crc = (crc << 1) ^ 0x07;
            } else {
                crc <<= 1;
            }
        }
    }
    crc
}

#[test]
fn frame_encode_decode_round_trip() {
    let telemetry = TelemetryFields {
        position_bits: 0.25f32.to_bits(),
        velocity_bits: 0.8f32.to_bits(),
        torque_bits: 0.6f32.to_bits(),
        phase: 3,
        sequence: 1000,
    };

    let mut payload = [0u8; CORE_TELEMETRY_SIZE];
    telemetry.to_bytes(&mut payload);

    let mut encoded = [0u8; MAX_ENCODED_FRAME];
    let len = encode_frame(FrameType::CoreTelemetry.to_u8(), &payload, &mut encoded).unwrap();

    let cobs_data = &encoded[..len - 1];
    let mut decoded_payload = [0u8; MAX_PAYLOAD];
    let (frame_type, payload_len) = decode_frame(cobs_data, &mut decoded_payload).unwrap();

    assert_eq!(frame_type, FrameType::CoreTelemetry.to_u8());
    assert_eq!(payload_len, CORE_TELEMETRY_SIZE);

    let decoded =
        TelemetryFields::from_bytes(decoded_payload[..CORE_TELEMETRY_SIZE].try_into().unwrap());
    assert_eq!(f32::from_bits(decoded.position_bits), 0.25f32);
    assert_eq!(f32::from_bits(decoded.velocity_bits), 0.8f32);
    assert_eq!(decoded.phase, telemetry.phase);
    assert_eq!(decoded.sequence, telemetry.sequence);
}

#[test]
fn corrupt_crc_rejected() {
    let payload = [0x42; 8];

    let mut encoded = [0u8; MAX_ENCODED_FRAME];
    let len = encode_frame(FrameType::CoreTelemetry.to_u8(), &payload, &mut encoded).unwrap();

    encoded[1] ^= 0xFF;

    let cobs_data = &encoded[..len - 1];
    let mut decoded_payload = [0u8; MAX_PAYLOAD];
    let result = decode_frame(cobs_data, &mut decoded_payload);

    assert!(matches!(
        result,
        Err(DecodeError::CrcMismatch) | Err(DecodeError::InvalidCobs)
    ));
}

#[test]
fn frame_type_ids() {
    assert_eq!(FrameType::from_u8(0x01), Some(FrameType::CoreTelemetry));
    assert_eq!(FrameType::from_u8(0x00), None);
    assert_eq!(FrameType::from_u8(0x10), None);
    assert_eq!(FrameType::CoreTelemetry.to_u8(), 0x01);
}

#[test]
fn encoded_frame_has_exact_cobs_bytes() {
    // Raw frame: [0x01, 0x00, 0x05, crc]; COBS replaces the zero.
    let payload = [0x00u8, 0x05];
    let crc = crc8_reference(&[0x01, 0x00, 0x05]);
    assert_ne!(crc, 0);
    let mut out = [0xAAu8; MAX_ENCODED_FRAME];
    let len = encode_frame(0x01, &payload, &mut out).unwrap();
    assert_eq!(len, 6);
    assert_eq!(&out[..len], &[0x02, 0x01, 0x03, 0x05, crc, 0x00]);
}

#[test]
fn crc_of_check_string() {
    // CRC-8/SMBUS check value of "123456789" is 0xF4: a frame of type '1'
    // with payload "23456789" ends with that byte before COBS encoding.
    let payload = *b"23456789";
    let mut out = [0u8; MAX_ENCODED_FRAME];
    let len = encode_frame(b'1', &payload, &mut out).unwrap();
    // No zero in the raw frame: one code byte, the ten raw bytes, delimiter.
    assert_eq!(len, 12);
    assert_eq!(out[0], 11);
    assert_eq!(&out[1..10], b"123456789");
    assert_eq!(out[10], 0xF4);
    assert_eq!(out[11], 0);
}

#[test]
fn payload_too_large_is_refused() {
    let payload = [7u8; MAX_PAYLOAD + 1];
    let mut out = [0u8; 4];
    assert_eq!(
        encode_frame(0x01, &payload, &mut out),
        Err(EncodeError::PayloadTooLarge)
    );
    assert_eq!(out, [0u8; 4]);
}

#[test]
fn max_payload_is_accepted() {
    let payload = [9u8; MAX_PAYLOAD];
    let mut out = [0u8; MAX_ENCODED_FRAME];
    let len = encode_frame(0x01, &payload, &mut out).unwrap();
    assert_eq!(len, MAX_ENCODED_FRAME);
    let mut back = [0u8; MAX_PAYLOAD];
    assert_eq!(decode_frame(&out[..len - 1], &mut back), Ok((0x01, MAX_PAYLOAD)));
    assert_eq!(back, payload);
}

#[test]
fn output_buffer_too_small() {
    // Three payload bytes: raw frame of 5 bytes, encoding of 6 bytes, plus
    // the delimiter needs 7.
    let payload = [1u8, 2, 3];
    let mut out = [0u8; 6];
    assert_eq!(
        encode_frame(0x01, &payload, &mut out),
        Err(EncodeError::BufferTooSmall)
    );
}

#[test]
fn zero_checksum_frame_in_a_buffer_of_the_raw_length() {
    // CRC-8/SMBUS of [0x01] is 0x07, so the raw frame [0x01, 0x07] gets a
    // zero checksum: [0x01, 0x07, 0x00], encoded as [0x03, 0x01, 0x07, 0x01].
    // A 3-byte buffer takes all but the final code byte and is too small.
    let mut out = [0xAAu8; 3];
    assert_eq!(
        encode_frame(0x01, &[0x07], &mut out),
        Err(EncodeError::BufferTooSmall)
    );
    assert_eq!(out, [0x03, 0x01, 0x07]);
    let mut out = [0xAAu8; 5];
    assert_eq!(encode_frame(0x01, &[0x07], &mut out), Ok(5));
    assert_eq!(out, [0x03, 0x01, 0x07, 0x01, 0x00]);
}

#[test]
fn decode_errors() {
    let mut out = [0u8; MAX_PAYLOAD];
    // Empty input is not a COBS frame.
    assert_eq!(decode_frame(&[], &mut out), Err(DecodeError::InvalidCobs));
    // A code byte promising more bytes than present.
    assert_eq!(decode_frame(&[0x05, 0x01], &mut out), Err(DecodeError::InvalidCobs));
    // One decoded byte is too short for type + crc.
    assert_eq!(decode_frame(&[0x02, 0x01], &mut out), Err(DecodeError::TooShort));
    // Type 0x01, crc byte wrong.
    let bad = crc8_reference(&[0x01]) ^ 0x01;
    assert_eq!(decode_frame(&[0x03, 0x01, bad], &mut out), Err(DecodeError::CrcMismatch));
    // A valid frame whose payload does not fit the output.
    let payload = [5u8, 6, 7, 8];
    let mut enc = [0u8; MAX_ENCODED_FRAME];
    let len = encode_frame(0x01, &payload, &mut enc).unwrap();
    let mut small = [0xEEu8; 3];
    assert_eq!(decode_frame(&enc[..len - 1], &mut small), Err(DecodeError::PayloadTooLarge));
    assert_eq!(small, [0xEE; 3]);
}

#[test]
fn empty_payload_round_trip() {
    let mut enc = [0u8; MAX_ENCODED_FRAME];
    let len = encode_frame(0x01, &[], &mut enc).unwrap();
    let mut out = [0x55u8; 2];
    assert_eq!(decode_frame(&enc[..len - 1], &mut out), Ok((0x01, 0)));
    assert_eq!(out, [0x55, 0x55]);
}

#[test]
fn encoded_frame_matches_encode_frame() {
    let payload = [0u8, 1, 2, 0, 3];
    let frame = EncodedFrame::encode(FrameType::CoreTelemetry, &payload).unwrap();
    let mut out = [0u8; MAX_ENCODED_FRAME];
    let len = encode_frame(0x01, &payload, &mut out).unwrap();
    assert_eq!(frame.as_bytes(), &out[..len]);
    assert!(matches!(
        EncodedFrame::encode(FrameType::CoreTelemetry, &[0u8; MAX_PAYLOAD + 1]),
        Err(EncodeError::PayloadTooLarge)
    ));
}

#[test]
fn core_telemetry_round_trip() {
    let fields = TelemetryFields {
        position_bits: 0.75f32.to_bits(),
        velocity_bits: 0.5f32.to_bits(),
        torque_bits: 1.0f32.to_bits(),
        phase: 2,
        sequence: 42,
    };

    let mut payload = [0u8; CORE_TELEMETRY_SIZE];
    fields.to_bytes(&mut payload);

    let decoded = TelemetryFields::from_bytes(&payload);
    assert_eq!(f32::from_bits(decoded.position_bits), 0.75f32);
    assert_eq!(f32::from_bits(decoded.velocity_bits), 0.5f32);
    assert_eq!(f32::from_bits(decoded.torque_bits), 1.0f32);
    assert_eq!(decoded.phase, fields.phase);
    assert_eq!(decoded.sequence, fields.sequence);
}

#[test]
fn telemetry_byte_layout() {
    let f = TelemetryFields {
        position_bits: 0x0403_0201,
        velocity_bits: 0x0807_0605,
        torque_bits: 0x0C0B_0A09,
        phase: 0x0D,
        sequence: 0x0F0E,
    };
    let mut buf = [0u8; CORE_TELEMETRY_SIZE];
    f.to_bytes(&mut buf);
    assert_eq!(buf, [1, 2, 3, 4, 5, 6, 7, 8, 9, 10, 11, 12, 13, 14, 15]);
    assert_eq!(0.75f32.to_le_bytes(), 0.75f32.to_bits().to_le_bytes());
}
