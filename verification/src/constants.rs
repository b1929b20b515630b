//! Protocol constants shared by the transport and the sync engine.

use vstd::prelude::*;

verus! {

/// USB vendor id of the controller.
pub const USB_VID: u16 = 0x1001;

/// USB product id of the controller.
pub const USB_PID: u16 = 0x8023;

/// Timeout of one bulk transfer, in milliseconds.
pub const TIMEOUT_MS: u64 = 100;

/// Width of the display, in pixels.
pub const FRAME_WIDTH: usize = 240;

/// Height of the display, in pixels.
pub const FRAME_HEIGHT: usize = 240;

/// Size of one frame, in bytes: three bytes (blue, green, red) per pixel.
pub const FRAME_SIZE: usize = FRAME_WIDTH * FRAME_HEIGHT * 3;

/// Size of one full bulk packet, in bytes.
pub const PACKET_SIZE: usize = 512;

/// Number of full packets sent per cycle.
pub const PACKET_COUNT: usize = 84;

/// Size of the tail packet that ends each cycle, in bytes.
pub const TAIL_SIZE: usize = 224;

/// Size of the control block, in bytes.
pub const EXTRA_DATA_SIZE: usize = 32;

/// Frame bytes carried by the tail packet of each cycle.
pub const CYCLE_REMAINDER: usize = TAIL_SIZE - EXTRA_DATA_SIZE;

/// Number of request/response cycles in one synchronization call.
pub const CYCLES: usize = 4;

/// Frame bytes consumed by one cycle: the full packets plus the remainder.
pub const CYCLE_STRIDE: usize = PACKET_COUNT * PACKET_SIZE + CYCLE_REMAINDER;

/// The load-bearing identity of the protocol: the cycles together carry
/// the whole frame exactly once, with no gap and no overlap.
pub proof fn lemma_packetization_identity()
    ensures
        CYCLES * (PACKET_COUNT * PACKET_SIZE + CYCLE_REMAINDER) == FRAME_SIZE,
        CYCLES * CYCLE_STRIDE == FRAME_SIZE,
{
}

} // verus!
