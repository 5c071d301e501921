use instanced_draw::codec::InstanceRecord;
use instanced_draw::codec::RECORD_BYTES;
use instanced_draw::codec::decode_record;
use instanced_draw::codec::encode_group;
use instanced_draw::codec::push_word_le;
use instanced_draw::codec::read_word_le;

fn record(px: f32, py: f32, pz: f32, s: f32, c: [f32; 4]) -> InstanceRecord {
    InstanceRecord {
        pos_x: px.to_bits(),
        pos_y: py.to_bits(),
        pos_z: pz.to_bits(),
        scale: s.to_bits(),
        color_r: c[0].to_bits(),
        color_g: c[1].to_bits(),
        color_b: c[2].to_bits(),
        color_a: c[3].to_bits(),
    }
}

#[test]
fn round_trip_preserves_bits() {
    let r = record(1.5, -2.25, 3.75, 0.5, [1.0, 0.25, 0.0, 1.0]);
    let bytes = encode_group(&vec![r]);
    let back = decode_record(&bytes, 0);
    assert_eq!(back, r);
}

#[test]
fn round_trip_preserves_odd_bit_patterns() {
    // Negative zero and a NaN payload must survive bit for bit.
    let r = InstanceRecord {
        pos_x: (-0.0f32).to_bits(),
        pos_y: f32::NAN.to_bits(),
        pos_z: f32::INFINITY.to_bits(),
        scale: f32::MIN_POSITIVE.to_bits(),
        color_r: 0xdead_beef,
        color_g: 0,
        color_b: 0xffff_ffff,
        color_a: 1,
    };
    let bytes = encode_group(&vec![r]);
    assert_eq!(decode_record(&bytes, 0), r);
}

#[test]
fn round_trip_second_record_of_group() {
    let a = record(1.0, 2.0, 3.0, 1.0, [1.0, 1.0, 1.0, 1.0]);
    let b = record(-4.0, 5.5, -6.125, 2.0, [0.0, 0.5, 1.0, 0.125]);
    let bytes = encode_group(&vec![a, b]);
    assert_eq!(decode_record(&bytes, 0), a);
    assert_eq!(decode_record(&bytes, RECORD_BYTES), b);
}

#[test]
fn packed_layout_is_little_endian() {
    // 1.0f32 is 0x3f800000; its little-endian bytes are 00 00 80 3f.
    let r = record(1.0, 0.0, 0.0, 2.0, [1.0, 0.0, 0.0, 1.0]);
    let bytes = encode_group(&vec![r]);
    assert_eq!(&bytes[0..4], &[0x00, 0x00, 0x80, 0x3f]);
    // Position occupies bytes [0,12), scale [12,16).
    assert_eq!(&bytes[4..12], &[0u8; 8]);
    assert_eq!(&bytes[12..16], &2.0f32.to_le_bytes());
    // Color occupies bytes [16,32).
    assert_eq!(&bytes[16..20], &1.0f32.to_le_bytes());
    assert_eq!(&bytes[28..32], &1.0f32.to_le_bytes());
}

#[test]
fn group_size_is_32_bytes_per_record() {
    let r = record(0.0, 0.0, 0.0, 1.0, [1.0, 1.0, 1.0, 1.0]);
    assert_eq!(encode_group(&vec![]).len(), 0);
    assert_eq!(encode_group(&vec![r; 4]).len(), 128);
    assert_eq!(encode_group(&vec![r; 7]).len(), 7 * RECORD_BYTES);
}

#[test]
fn word_codec_round_trips() {
    let mut out: Vec<u8> = Vec::new();
    push_word_le(&mut out, 0x0102_03ff);
    assert_eq!(out, vec![0xff, 0x03, 0x02, 0x01]);
    assert_eq!(read_word_le(&out, 0), 0x0102_03ff);
}
