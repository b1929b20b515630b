//! Protocol arithmetic, transmit planning and tail building.

use electron_bot::constants::{
    CYCLES, CYCLE_REMAINDER, CYCLE_STRIDE, EXTRA_DATA_SIZE, FRAME_HEIGHT, FRAME_SIZE, FRAME_WIDTH,
    PACKET_COUNT, PACKET_SIZE, TAIL_SIZE, TIMEOUT_MS, USB_PID, USB_VID,
};
use electron_bot::extra_data::ExtraData;
use electron_bot::sync::{build_tail, SyncContext};
use electron_bot::usb::{copy_range, transmit_chunks};

#[test]
fn packetization_identity_literals() {
    assert_eq!(4 * (84 * 512 + 192), 172800);
    assert_eq!(CYCLES * (PACKET_COUNT * PACKET_SIZE + 192), FRAME_SIZE);
    assert_eq!(CYCLES * CYCLE_STRIDE, FRAME_SIZE);
}

#[test]
fn protocol_constants_exact() {
    assert_eq!(USB_VID, 0x1001);
    assert_eq!(USB_PID, 0x8023);
    assert_eq!(TIMEOUT_MS, 100);
    assert_eq!(FRAME_WIDTH, 240);
    assert_eq!(FRAME_HEIGHT, 240);
    assert_eq!(FRAME_SIZE, 172800);
    assert_eq!(PACKET_SIZE, 512);
    assert_eq!(PACKET_COUNT, 84);
    assert_eq!(TAIL_SIZE, 224);
    assert_eq!(EXTRA_DATA_SIZE, 32);
    assert_eq!(CYCLE_REMAINDER, 192);
    assert_eq!(CYCLES, 4);
}

#[test]
fn transmit_of_whole_packet_issues_two_writes() {
    let payload = vec![7u8; 512];
    let chunks = transmit_chunks(&payload);
    assert_eq!(chunks.len(), 2);
    assert_eq!(chunks[0].len(), 512);
    assert_eq!(chunks[0], payload);
    assert_eq!(chunks[1].len(), 0);
}

#[test]
fn transmit_of_short_payload_issues_one_write() {
    let payload = vec![1u8; 511];
    let chunks = transmit_chunks(&payload);
    assert_eq!(chunks.len(), 1);
    assert_eq!(chunks[0], payload);
}

#[test]
fn transmit_of_tail_sized_payload_issues_one_write() {
    let payload = vec![9u8; 224];
    let chunks = transmit_chunks(&payload);
    assert_eq!(chunks.len(), 1);
    assert_eq!(chunks[0], payload);
}

#[test]
fn transmit_of_multiple_packets_issues_two_writes() {
    let payload = vec![3u8; 1024];
    let chunks = transmit_chunks(&payload);
    assert_eq!(chunks.len(), 2);
    assert_eq!(chunks[1].len(), 0);
}

#[test]
fn transmit_of_empty_payload_issues_two_writes() {
    let chunks = transmit_chunks(&Vec::new());
    assert_eq!(chunks.len(), 2);
    assert_eq!(chunks[0].len(), 0);
    assert_eq!(chunks[1].len(), 0);
}

#[test]
fn copy_range_takes_the_named_window() {
    let src: Vec<u8> = (0..32).collect();
    let mid = copy_range(&src, 8, 4);
    assert_eq!(mid, vec![8, 9, 10, 11]);
    let empty = copy_range(&src, 32, 0);
    assert!(empty.is_empty());
}

#[test]
fn tail_packet_is_remainder_then_control_block() {
    let mut frame = vec![0u8; FRAME_SIZE];
    for (i, b) in frame.iter_mut().enumerate() {
        *b = (i % 251) as u8;
    }
    let mut extra = ExtraData::new();
    let payload: Vec<u8> = (100..132).collect();
    extra.set_raw(&payload);
    let offset = PACKET_COUNT * PACKET_SIZE;
    let tail = build_tail(&frame, offset, &extra);
    assert_eq!(tail.len(), TAIL_SIZE);
    assert_eq!(&tail[..192], &frame[offset..offset + 192]);
    assert_eq!(&tail[192..], &payload[..]);
}

#[test]
fn sync_context_counts_and_toggles() {
    let mut ctx = SyncContext::new();
    assert_eq!(ctx.timestamp, 0);
    assert_eq!(ctx.ping_pong_index, 0);
    assert_eq!(ctx.cycles, 4);
    assert_eq!(ctx.current_index(), 0);
    ctx.toggle();
    assert_eq!(ctx.timestamp, 1);
    assert_eq!(ctx.ping_pong_index, 1);
    assert_eq!(ctx.current_index(), 1);
    ctx.toggle();
    assert_eq!(ctx.timestamp, 2);
    assert_eq!(ctx.ping_pong_index, 0);
}

#[test]
fn sync_context_default_is_fresh() {
    let ctx = SyncContext::default();
    assert_eq!(ctx.timestamp, 0);
    assert_eq!(ctx.ping_pong_index, 0);
}
