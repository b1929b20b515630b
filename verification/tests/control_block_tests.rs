//! The control block: byte layout, accessors and the float round trip.

use electron_bot::extra_data::ExtraData;
use electron_bot::types::JointAngles;

fn angles_from_f32(values: [f32; 6]) -> JointAngles {
    JointAngles(values.iter().map(|v| v.to_bits()).collect())
}

fn angles_to_f32(angles: &JointAngles) -> [f32; 6] {
    let mut out = [0.0f32; 6];
    for (i, bits) in angles.as_array().iter().enumerate() {
        out[i] = f32::from_bits(*bits);
    }
    out
}

#[test]
fn control_block_round_trip_is_bit_exact() {
    let sent = [10.0f32, 20.0, 30.0, 40.0, 50.0, 60.0];
    let mut block = ExtraData::new();
    block.set_joint_angles(&angles_from_f32(sent), true);
    assert!(block.is_enabled());
    let back = angles_to_f32(&block.get_joint_angles());
    for i in 0..6 {
        assert_eq!(back[i].to_bits(), sent[i].to_bits());
        assert_eq!(back[i], sent[i]);
    }
}

#[test]
fn control_block_byte_layout() {
    let sent = [45.0f32, 90.0, 0.0, 0.0, 0.0, 0.0];
    let mut block = ExtraData::new();
    block.set_joint_angles(&angles_from_f32(sent), true);
    let bytes = block.get_raw();
    assert_eq!(bytes[0], 1);
    assert_eq!(&bytes[1..5], &45.0f32.to_le_bytes());
    assert_eq!(f32::from_le_bytes([bytes[1], bytes[2], bytes[3], bytes[4]]), 45.0);
    assert_eq!(&bytes[5..9], &90.0f32.to_le_bytes());
    assert_eq!(f32::from_le_bytes([bytes[5], bytes[6], bytes[7], bytes[8]]), 90.0);
}

#[test]
fn disabled_block_writes_a_zero_flag() {
    let mut block = ExtraData::new();
    block.set_joint_angles(&angles_from_f32([1.0; 6]), false);
    assert_eq!(block.get_raw()[0], 0);
    assert!(!block.is_enabled());
}

#[test]
fn reserved_bytes_survive_angle_writes() {
    let mut block = ExtraData::new();
    block.set_byte(30, 0xAB);
    block.set_joint_angles(&angles_from_f32([5.0; 6]), true);
    assert_eq!(block.get_byte(30), Some(0xAB));
}

#[test]
fn new_block_is_zero_and_clear_resets() {
    let mut block = ExtraData::new();
    assert!(block.get_raw().iter().all(|b| *b == 0));
    block.set_byte(3, 77);
    block.clear();
    assert!(block.get_raw().iter().all(|b| *b == 0));
}

#[test]
fn set_raw_copies_prefix_and_refuses_long_payloads() {
    let mut block = ExtraData::new();
    block.set_byte(31, 9);
    block.set_raw(&vec![1, 2, 3]);
    assert_eq!(block.get_byte(0), Some(1));
    assert_eq!(block.get_byte(1), Some(2));
    assert_eq!(block.get_byte(2), Some(3));
    assert_eq!(block.get_byte(31), Some(9));
    let before = block.get_raw().clone();
    block.set_raw(&vec![0u8; 33]);
    assert_eq!(block.get_raw(), &before);
}

#[test]
fn byte_accessors_respect_the_block_bounds() {
    let mut block = ExtraData::new();
    block.set_byte(31, 5);
    assert_eq!(block.get_byte(31), Some(5));
    assert_eq!(block.get_byte(32), None);
    block.set_byte(32, 6);
    assert_eq!(block.get_raw().len(), 32);
}

#[test]
fn u16_accessors_are_little_endian() {
    let mut block = ExtraData::new();
    block.set_u16(4, 0xBEEF);
    assert_eq!(block.get_byte(4), Some(0xEF));
    assert_eq!(block.get_byte(5), Some(0xBE));
    assert_eq!(block.get_u16(4), Some(0xBEEF));
    assert_eq!(block.get_u16(31), None);
    let before = block.get_raw().clone();
    block.set_u16(31, 7);
    assert_eq!(block.get_raw(), &before);
}

#[test]
fn u32_accessors_are_little_endian() {
    let mut block = ExtraData::new();
    block.set_u32(8, 0xDEADBEEF);
    assert_eq!(block.get_byte(8), Some(0xEF));
    assert_eq!(block.get_byte(9), Some(0xBE));
    assert_eq!(block.get_byte(10), Some(0xAD));
    assert_eq!(block.get_byte(11), Some(0xDE));
    assert_eq!(block.get_u32(8), Some(0xDEADBEEF));
    assert_eq!(block.get_u32(29), None);
}

#[test]
fn set_enable_touches_only_the_flag() {
    let mut block = ExtraData::new();
    block.set_byte(1, 42);
    block.set_enable(true);
    assert!(block.is_enabled());
    assert_eq!(block.get_byte(1), Some(42));
    block.set_enable(false);
    assert!(!block.is_enabled());
}

#[test]
fn as_mut_data_writes_show_through() {
    let mut block = ExtraData::new();
    block.as_mut_data()[2] = 9;
    assert_eq!(block.get_byte(2), Some(9));
    assert_eq!(block.as_data()[2], 9);
}

#[test]
fn joint_angles_round_trip_through_bytes() {
    let angles = JointAngles(vec![0x3F800000, 0, 0x40000000, 7, 0xFFFFFFFF, 1]);
    let bytes = angles.to_bytes();
    assert_eq!(bytes.len(), 24);
    assert_eq!(&bytes[0..4], &[0x00, 0x00, 0x80, 0x3F]);
    let back = JointAngles::from_bytes(&bytes);
    assert_eq!(back.as_array(), angles.as_array());
}

#[test]
fn joint_angles_get_and_set_respect_bounds() {
    let mut angles = JointAngles::new();
    assert_eq!(angles.get(0), Some(0));
    assert_eq!(angles.get(6), None);
    assert_eq!(angles.set(2, 99), Some(()));
    assert_eq!(angles.get(2), Some(99));
    assert_eq!(angles.set(6, 1), None);
}
