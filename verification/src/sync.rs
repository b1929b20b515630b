//! The sync engine: one synchronization call drives the transport
//! through the fixed multi-cycle exchange the firmware expects.

use vstd::prelude::*;

use crate::constants::{
    CYCLES, CYCLE_REMAINDER, CYCLE_STRIDE, EXTRA_DATA_SIZE, PACKET_COUNT, PACKET_SIZE, TAIL_SIZE,
};
use crate::extra_data::ExtraData;
use crate::image::ImageBuffer;
use crate::types::JointAngles;
use crate::usb::{copy_range, UsbDevice};

verus! {

/// Attempts granted to each status read.
pub const RECEIVE_RETRIES: u32 = 5;

/// Attempts granted to each packet write.
pub const TRANSMIT_RETRIES: usize = 3;

/// Result of one synchronization call.
pub type SyncResult = Result<bool, String>;

/// The parity index after one call: the two values alternate.
pub open spec fn spec_toggle_index(i: u8) -> u8 {
    if i == 0 {
        1u8
    } else {
        0u8
    }
}

/// The parity index is two-valued: every call flips it, and two calls
/// bring it back.
pub proof fn lemma_parity_round_trip(i: u8)
    requires
        i <= 1,
    ensures
        spec_toggle_index(i) != i,
        spec_toggle_index(i) <= 1,
        spec_toggle_index(spec_toggle_index(i)) == i,
{
}

/// Host-side bookkeeping of the call sequence: a monotone call
/// counter and the two-valued parity index.
#[derive(Debug, Clone, PartialEq)]
pub struct SyncContext {
    /// Number of completed synchronization calls.
    pub timestamp: u32,
    /// The parity index, toggled once per call.
    pub ping_pong_index: u8,
    /// Cycles per call; fixed by the protocol.
    pub cycles: usize,
}

impl SyncContext {
    /// A well-formed context keeps the parity two-valued and the
    /// cycle count the protocol's.
    pub open spec fn wf(&self) -> bool {
        self.ping_pong_index <= 1 && self.cycles == CYCLES
    }

    /// A fresh context: no calls yet.
    pub fn new() -> (r: Self)
        ensures
            r.wf(),
            r.timestamp == 0,
            r.ping_pong_index == 0,
            r.cycles == CYCLES,
    {
        SyncContext { timestamp: 0, ping_pong_index: 0, cycles: CYCLES }
    }

    /// Counts one completed call: the counter grows by one and the
    /// parity flips.
    pub fn toggle(&mut self)
        requires
            old(self).timestamp < u32::MAX,
        ensures
            final(self).timestamp == old(self).timestamp + 1,
            final(self).ping_pong_index == spec_toggle_index(old(self).ping_pong_index),
            final(self).cycles == old(self).cycles,
            old(self).wf() ==> final(self).wf(),
    {
        self.timestamp = self.timestamp + 1;
        self.ping_pong_index = if self.ping_pong_index == 0 {
            1
        } else {
            0
        };
    }

    /// The parity index as a buffer selector.
    pub fn current_index(&self) -> (r: usize)
        ensures
            r == self.ping_pong_index as usize,
    {
        self.ping_pong_index as usize
    }
}

impl Default for SyncContext {
    /// A fresh context.
    fn default() -> (r: Self)
        ensures
            r.wf(),
            r.timestamp == 0,
            r.ping_pong_index == 0,
    {
        SyncContext::new()
    }
}

/// Builds the tail packet of one cycle: the remainder of the frame
/// segment, then the whole control block.
pub fn build_tail(frame: &Vec<u8>, offset: usize, extra: &ExtraData) -> (tail: Vec<u8>)
    requires
        offset + CYCLE_REMAINDER <= frame@.len(),
        extra.wf(),
    ensures
        tail@.len() == TAIL_SIZE,
        tail@ == frame@.subrange(offset as int, offset + CYCLE_REMAINDER) + extra@,
{
    let mut tail = copy_range(frame, offset, CYCLE_REMAINDER);
    let block = extra.get_raw();
    let mut i: usize = 0;
    while i < EXTRA_DATA_SIZE
        invariant
            extra.wf(),
            block@ == extra@,
            i <= EXTRA_DATA_SIZE,
            tail@.len() == CYCLE_REMAINDER + i,
            tail@.subrange(0, CYCLE_REMAINDER as int) == frame@.subrange(
                offset as int,
                offset + CYCLE_REMAINDER,
            ),
            forall|k: int| 0 <= k < i ==> tail@[CYCLE_REMAINDER + k] == extra@[k],
            offset + CYCLE_REMAINDER <= frame@.len(),
        decreases EXTRA_DATA_SIZE - i,
    {
        let ghost prev = tail@;
        tail.push(block[i]);
        proof {
            assert(tail@.subrange(0, CYCLE_REMAINDER as int) =~= prev.subrange(
                0,
                CYCLE_REMAINDER as int,
            ));
        }
        i = i + 1;
    }
    proof {
        assert(tail@ =~= frame@.subrange(offset as int, offset + CYCLE_REMAINDER) + extra@);
    }
    tail
}

/// The frame segment one cycle consumes: one stride, starting at the
/// cycle's offset.
pub open spec fn cycle_segment(frame: Seq<u8>, cycle: int) -> Seq<u8> {
    frame.subrange(cycle * (CYCLE_STRIDE as int), (cycle + 1) * (CYCLE_STRIDE as int))
}

/// The frame bytes of one full packet of one cycle.
pub open spec fn packet_bytes(frame: Seq<u8>, cycle: int, i: int) -> Seq<u8> {
    frame.subrange(
        cycle * (CYCLE_STRIDE as int) + i * (PACKET_SIZE as int),
        cycle * (CYCLE_STRIDE as int) + (i + 1) * (PACKET_SIZE as int),
    )
}

/// The frame bytes one cycle's tail packet carries.
pub open spec fn tail_frame_bytes(frame: Seq<u8>, cycle: int) -> Seq<u8> {
    frame.subrange(
        cycle * (CYCLE_STRIDE as int) + (PACKET_COUNT * PACKET_SIZE) as int,
        (cycle + 1) * (CYCLE_STRIDE as int),
    )
}

/// No gap and no overlap, within a cycle: the 84 packets and the
/// tail's frame part, laid end to end, are exactly the cycle's
/// segment.
pub proof fn lemma_cycle_writes_cover_segment(frame: Seq<u8>, cycle: int)
    requires
        frame.len() == crate::constants::FRAME_SIZE,
        0 <= cycle < CYCLES,
    ensures
        forall|i: int|
            0 <= i < PACKET_COUNT ==> #[trigger] packet_bytes(frame, cycle, i) == cycle_segment(
                frame,
                cycle,
            ).subrange(i * (PACKET_SIZE as int), (i + 1) * (PACKET_SIZE as int)),
        tail_frame_bytes(frame, cycle) == cycle_segment(frame, cycle).subrange(
            (PACKET_COUNT * PACKET_SIZE) as int,
            CYCLE_STRIDE as int,
        ),
{
    assert(CYCLE_STRIDE == 43200);
    assert(crate::constants::FRAME_SIZE == 172800);
    assert forall|i: int| 0 <= i < PACKET_COUNT implies #[trigger] packet_bytes(frame, cycle, i)
        == cycle_segment(frame, cycle).subrange(
        i * (PACKET_SIZE as int),
        (i + 1) * (PACKET_SIZE as int),
    ) by {
        assert(packet_bytes(frame, cycle, i) =~= cycle_segment(frame, cycle).subrange(
            i * (PACKET_SIZE as int),
            (i + 1) * (PACKET_SIZE as int),
        ));
    }
    assert(tail_frame_bytes(frame, cycle) =~= cycle_segment(frame, cycle).subrange(
        (PACKET_COUNT * PACKET_SIZE) as int,
        CYCLE_STRIDE as int,
    ));
}

/// No gap and no overlap, across the call: the four cycles' segments,
/// laid end to end, are exactly the frame — together with
/// `lemma_cycle_writes_cover_segment`, the whole frame goes to the
/// wire exactly once per call.
pub proof fn lemma_cycles_cover_frame(frame: Seq<u8>)
    requires
        frame.len() == crate::constants::FRAME_SIZE,
    ensures
        cycle_segment(frame, 0) + cycle_segment(frame, 1) + cycle_segment(frame, 2)
            + cycle_segment(frame, 3) == frame,
{
    assert(CYCLE_STRIDE == 43200);
    assert(crate::constants::FRAME_SIZE == 172800);
    assert(cycle_segment(frame, 0) + cycle_segment(frame, 1) + cycle_segment(frame, 2)
        + cycle_segment(frame, 3) =~= frame);
}

/// Reads into `buf` until a whole block of `expected_len` bytes
/// arrives, up to `max_retries` attempts; fewer bytes do not count.
fn receive_exact_with_retry(
    usb: &mut UsbDevice,
    buf: &mut Vec<u8>,
    expected_len: usize,
    max_retries: u32,
) -> (r: Result<usize, String>)
    ensures
        *final(usb) == *old(usb),
        final(buf)@.len() == old(buf)@.len(),
        r matches Ok(n) ==> n == expected_len,
        max_retries == 0 ==> r is Err,
{
    let mut retry: u32 = 0;
    while retry < max_retries
        invariant
            *usb == *old(usb),
            buf@.len() == old(buf)@.len(),
        decreases max_retries - retry,
    {
        match usb.receive(buf) {
            Ok(len) => {
                if len == expected_len {
                    return Ok(len);
                }
            },
            Err(_) => {},
        }
        retry = retry + 1;
    }
    Err(String::from_str("receive retries exhausted"))
}

/// One synchronization exchange: per cycle, a best-effort status
/// read, the cycle's 84 packets in order, then its tail packet; the
/// frame offset advances one stride per cycle, so the four cycles
/// carry the whole frame exactly once.  Transfers that still fail
/// after their retries are counted, not escalated; the context counts
/// the call and flips its parity.  A whole status block, when one
/// arrived, is left in `status`.
pub fn run_sync(
    usb: &mut UsbDevice,
    frame: &ImageBuffer,
    extra: &ExtraData,
    context: &mut SyncContext,
    status: &mut ExtraData,
) -> (failures: u32)
    requires
        frame.wf(),
        extra.wf(),
        old(status).wf(),
        old(context).wf(),
        old(context).timestamp < u32::MAX,
    ensures
        *final(usb) == *old(usb),
        final(context).timestamp == old(context).timestamp + 1,
        final(context).ping_pong_index == spec_toggle_index(old(context).ping_pong_index),
        final(context).cycles == old(context).cycles,
        final(context).wf(),
        final(status).wf(),
        failures <= (CYCLES * (PACKET_COUNT + 2)) as u32,
{
    proof {
        assert(CYCLE_STRIDE == 43200);
        assert(crate::constants::FRAME_SIZE == 172800);
        assert(CYCLES * CYCLE_STRIDE == crate::constants::FRAME_SIZE);
    }
    let frame_len = frame.as_data().len();
    let frame_data = copy_range(frame.as_data(), 0, frame_len);
    proof {
        assert(frame_data@ =~= frame@);
    }
    let mut rx: Vec<u8> = Vec::new();
    let mut j: usize = 0;
    while j < EXTRA_DATA_SIZE
        invariant
            j <= EXTRA_DATA_SIZE,
            rx@.len() == j,
        decreases EXTRA_DATA_SIZE - j,
    {
        rx.push(0);
        j = j + 1;
    }
    let mut failures: u32 = 0;
    let mut cycle: usize = 0;
    while cycle < CYCLES
        invariant
            *usb == *old(usb),
            status.wf(),
            rx@.len() == EXTRA_DATA_SIZE,
            frame@.len() == crate::constants::FRAME_SIZE,
            frame_data@ == frame@,
            extra.wf(),
            cycle <= CYCLES,
            failures as int <= 86 * (cycle as int),
        decreases CYCLES - cycle,
    {
        match receive_exact_with_retry(usb, &mut rx, EXTRA_DATA_SIZE, RECEIVE_RETRIES) {
            Ok(_) => {
                status.set_raw(&rx);
            },
            Err(_) => {
                failures = failures + 1;
            },
        }
        proof {
            assert(CYCLE_STRIDE == 43200);
            assert(crate::constants::FRAME_SIZE == 172800);
        }
        let base = cycle * CYCLE_STRIDE;
        let mut i: usize = 0;
        while i < PACKET_COUNT
            invariant
                *usb == *old(usb),
                status.wf(),
                rx@.len() == EXTRA_DATA_SIZE,
                frame@.len() == crate::constants::FRAME_SIZE,
                frame_data@ == frame@,
                extra.wf(),
                cycle < CYCLES,
                base == cycle * CYCLE_STRIDE,
                i <= PACKET_COUNT,
                failures as int <= 86 * (cycle as int) + 1 + i,
            decreases PACKET_COUNT - i,
        {
            proof {
                assert(CYCLE_STRIDE == 43200);
                assert(crate::constants::FRAME_SIZE == 172800);
            }
            let start = base + i * PACKET_SIZE;
            let packet = copy_range(&frame_data, start, PACKET_SIZE);
            proof {
                assert(packet@ == packet_bytes(frame@, cycle as int, i as int));
            }
            if usb.transmit_with_retry(&packet, TRANSMIT_RETRIES).is_err() {
                failures = failures + 1;
            }
            i = i + 1;
        }
        let tail = build_tail(&frame_data, base + PACKET_COUNT * PACKET_SIZE, extra);
        proof {
            assert(tail@ == tail_frame_bytes(frame@, cycle as int) + extra@);
        }
        if usb.transmit_with_retry(&tail, TRANSMIT_RETRIES).is_err() {
            failures = failures + 1;
        }
        cycle = cycle + 1;
    }
    context.toggle();
    failures
}

/// One synchronization call over a frame and control block: the
/// exchange runs its cycles to completion and the call reports
/// success; transfer failures inside a cycle are retried and then
/// tolerated, as the firmware keeps polling regardless.
pub fn sync(
    usb: &mut UsbDevice,
    image_buffer: &ImageBuffer,
    extra_data: &ExtraData,
    context: &mut SyncContext,
) -> (r: SyncResult)
    requires
        image_buffer.wf(),
        extra_data.wf(),
        old(context).wf(),
        old(context).timestamp < u32::MAX,
    ensures
        *final(usb) == *old(usb),
        final(context).timestamp == old(context).timestamp + 1,
        final(context).ping_pong_index == spec_toggle_index(old(context).ping_pong_index),
        final(context).wf(),
        r == Ok::<bool, String>(true),
{
    let mut status = ExtraData::new();
    let _failures = run_sync(usb, image_buffer, extra_data, context, &mut status);
    Ok(true)
}

/// One synchronization call that sends only the frame, with an
/// all-zero control block.
pub fn sync_image(usb: &mut UsbDevice, image_buffer: &ImageBuffer, context: &mut SyncContext) -> (r:
    SyncResult)
    requires
        image_buffer.wf(),
        old(context).wf(),
        old(context).timestamp < u32::MAX,
    ensures
        *final(usb) == *old(usb),
        final(context).timestamp == old(context).timestamp + 1,
        final(context).ping_pong_index == spec_toggle_index(old(context).ping_pong_index),
        final(context).wf(),
        r == Ok::<bool, String>(true),
{
    let extra = ExtraData::new();
    sync(usb, image_buffer, &extra, context)
}

/// One synchronization call that sends only servo angles, enabled,
/// over a black frame.
pub fn sync_joints(usb: &mut UsbDevice, angles: &JointAngles, context: &mut SyncContext) -> (r:
    SyncResult)
    requires
        angles.wf(),
        old(context).wf(),
        old(context).timestamp < u32::MAX,
    ensures
        *final(usb) == *old(usb),
        final(context).timestamp == old(context).timestamp + 1,
        final(context).ping_pong_index == spec_toggle_index(old(context).ping_pong_index),
        final(context).wf(),
        r == Ok::<bool, String>(true),
{
    let image = ImageBuffer::new();
    let mut extra = ExtraData::new();
    extra.set_joint_angles(angles, true);
    sync(usb, &image, &extra, context)
}

} // verus!
