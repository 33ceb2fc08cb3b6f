use ledsync::animation::{AnimationDescriptor, RainbowAnimation, SolidAnimation};
use ledsync::messages::{
    decode_set_animation, decode_set_bpm, encode_set_animation, encode_set_bpm, SetBpm, WireError,
};
use ledsync::wire::read_varint;

#[test]
fn varint_reads_value_and_end() {
    assert_eq!(read_varint(&[0xAC, 0x02], 0), Some((300, 2)));
    assert_eq!(read_varint(&[0x00, 0xAC, 0x02, 0x05], 1), Some((300, 3)));
    assert_eq!(read_varint(&[0xFF, 0xFF, 0xFF, 0xFF, 0x0F], 0), Some((u32::MAX as u64, 5)));
}

#[test]
fn varint_keeps_low_32_bits_of_ten_bytes() {
    let minus_one = [0xFF, 0xFF, 0xFF, 0xFF, 0xFF, 0xFF, 0xFF, 0xFF, 0xFF, 0x01];
    assert_eq!(read_varint(&minus_one, 0), Some((u32::MAX as u64, 10)));
    assert_eq!(read_varint(&[0x80, 0x80, 0x80, 0x80, 0x80, 0x01], 0), Some((0, 6)));
}

#[test]
fn unterminated_or_overlong_varint_is_refused() {
    assert_eq!(read_varint(&[0x80; 11], 0), None);
    assert_eq!(read_varint(&[0x80; 10], 0), None);
    assert_eq!(read_varint(&[0x80], 0), None);
    assert_eq!(read_varint(&[], 0), None);
    assert_eq!(read_varint(&[0x01], 1), None);
}

#[test]
fn encoded_varints_use_base_128_groups() {
    assert_eq!(encode_set_bpm(300), vec![0x08, 0xAC, 0x02]);
    assert_eq!(encode_set_bpm(u16::MAX), vec![0x08, 0xFF, 0xFF, 0x03]);
}

#[test]
fn rainbow_encodes_as_nested_message() {
    let a = AnimationDescriptor::Rainbow(RainbowAnimation { speed: 300 });
    assert_eq!(encode_set_animation(&a), vec![0x0A, 0x03, 0x08, 0xAC, 0x02]);
}

#[test]
fn default_rainbow_encodes_with_empty_body() {
    let a = AnimationDescriptor::Rainbow(RainbowAnimation { speed: 0 });
    assert_eq!(encode_set_animation(&a), vec![0x0A, 0x00]);
    assert_eq!(decode_set_animation(&[0x0A, 0x00]), Ok(a));
}

#[test]
fn solid_encodes_under_second_case() {
    let a = AnimationDescriptor::Solid(SolidAnimation { color: 1 });
    assert_eq!(encode_set_animation(&a), vec![0x12, 0x02, 0x08, 0x01]);
}

#[test]
fn animation_round_trips() {
    let cases = [
        AnimationDescriptor::Rainbow(RainbowAnimation { speed: 0 }),
        AnimationDescriptor::Rainbow(RainbowAnimation { speed: 1 }),
        AnimationDescriptor::Rainbow(RainbowAnimation { speed: 127 }),
        AnimationDescriptor::Rainbow(RainbowAnimation { speed: 128 }),
        AnimationDescriptor::Rainbow(RainbowAnimation { speed: u32::MAX }),
        AnimationDescriptor::Solid(SolidAnimation { color: 0 }),
        AnimationDescriptor::Solid(SolidAnimation { color: 0x00FF_8800 }),
        AnimationDescriptor::Solid(SolidAnimation { color: u32::MAX }),
    ];
    for a in cases.iter() {
        let bytes = encode_set_animation(a);
        assert_eq!(decode_set_animation(&bytes), Ok(*a));
    }
}

#[test]
fn bpm_encodes_and_round_trips() {
    assert_eq!(encode_set_bpm(128), vec![0x08, 0x80, 0x01]);
    assert_eq!(encode_set_bpm(0), Vec::<u8>::new());
    for bpm in [0u16, 1, 120, 128, 300, u16::MAX] {
        let bytes = encode_set_bpm(bpm);
        assert_eq!(decode_set_bpm(&bytes), Ok(SetBpm { bpm: bpm as i32 }));
    }
}

#[test]
fn empty_animation_payload_names_no_animation() {
    assert_eq!(decode_set_animation(&[]), Err(WireError::MissingAnimation));
}

#[test]
fn unknown_fields_are_skipped() {
    let bytes = [0x18, 0x05, 0x0A, 0x02, 0x08, 0x07, 0x25, 1, 2, 3, 4];
    assert_eq!(
        decode_set_animation(&bytes),
        Ok(AnimationDescriptor::Rainbow(RainbowAnimation { speed: 7 }))
    );
    assert_eq!(decode_set_bpm(&[0x10, 0x01, 0x08, 0x05]), Ok(SetBpm { bpm: 5 }));
}

#[test]
fn last_animation_case_wins() {
    let bytes = [0x0A, 0x02, 0x08, 0x07, 0x12, 0x02, 0x08, 0x09];
    assert_eq!(
        decode_set_animation(&bytes),
        Ok(AnimationDescriptor::Solid(SolidAnimation { color: 9 }))
    );
}

#[test]
fn malformed_animation_payloads_are_refused() {
    assert_eq!(decode_set_animation(&[0xFF]), Err(WireError::Malformed));
    assert_eq!(decode_set_animation(&[0x08, 0x01]), Err(WireError::Malformed));
    assert_eq!(decode_set_animation(&[0x0A, 0x05, 0x08]), Err(WireError::Malformed));
    assert_eq!(decode_set_animation(&[0x00, 0x00]), Err(WireError::Malformed));
    assert_eq!(decode_set_animation(&[0x0B]), Err(WireError::Malformed));
}

#[test]
fn malformed_bpm_payloads_are_refused() {
    assert_eq!(decode_set_bpm(&[0x08]), Err(WireError::Malformed));
    assert_eq!(decode_set_bpm(&[0x0A, 0x00]), Err(WireError::Malformed));
}

#[test]
fn large_bpm_keeps_its_low_32_bits() {
    assert_eq!(decode_set_bpm(&[0x08, 0xFF, 0xFF, 0xFF, 0xFF, 0x0F]), Ok(SetBpm { bpm: -1 }));
    assert_eq!(decode_set_bpm(&[0x08, 0xF0, 0xA2, 0x04]), Ok(SetBpm { bpm: 70000 }));
    let minus_two = [0x08, 0xFE, 0xFF, 0xFF, 0xFF, 0xFF, 0xFF, 0xFF, 0xFF, 0xFF, 0x01];
    assert_eq!(decode_set_bpm(&minus_two), Ok(SetBpm { bpm: -2 }));
}
