//! The call surface: one bot instance owning a frame buffer, a
//! control block, the received status, and at most one live binding.

use vstd::prelude::*;

use crate::constants::{EXTRA_DATA_SIZE, FRAME_HEIGHT, FRAME_SIZE, FRAME_WIDTH};
use crate::error::BotError;
use crate::extra_data::ExtraData;
use crate::image::{pixel_index, pixel_is, placed_pixel_ok, ImageBuffer};
use crate::sync::{run_sync, spec_toggle_index, SyncContext};
use crate::types::{u32_from_le_bytes, u32_le_bytes, DeviceInfo, JointAngles};
use crate::usb::UsbDevice;

verus! {

/// A bot instance: the owner of the buffers and of at most one live
/// endpoint binding.
pub struct ElectronBot {
    /// The binding, while one is live.
    pub usb: Option<UsbDevice>,
    /// Whether a binding is live.
    pub is_connected: bool,
    /// The frame to send.
    pub image: ImageBuffer,
    /// The control block to send.
    pub extra: ExtraData,
    /// The status block last received from the device.
    pub extra_rx: ExtraData,
    /// Call counter and parity index.
    pub context: SyncContext,
}

/// A bot with its binding dropped and its connection flag cleared;
/// everything else keeps its value.
pub open spec fn disconnected_state(b: ElectronBot) -> ElectronBot {
    ElectronBot { usb: None, is_connected: false, ..b }
}

/// Clearing a binding twice is the same as clearing it once.
pub proof fn lemma_disconnect_idempotent(b: ElectronBot)
    ensures
        !disconnected_state(b).is_connected,
        disconnected_state(b).usb is None,
        disconnected_state(disconnected_state(b)) == disconnected_state(b),
{
}

impl ElectronBot {
    /// A well-formed bot keeps its buffers at their fixed sizes, its
    /// context two-valued, and a binding behind the connection flag.
    pub open spec fn wf(&self) -> bool {
        &&& self.image.wf()
        &&& self.extra.wf()
        &&& self.extra_rx.wf()
        &&& self.context.wf()
        &&& (self.is_connected ==> self.usb is Some)
    }

    /// A fresh bot: black frame, zero control block, no binding.
    pub fn new() -> (r: Self)
        ensures
            r.wf(),
            !r.is_connected,
            r.usb is None,
            r.context.timestamp == 0,
            r.context.ping_pong_index == 0,
            forall|i: int| 0 <= i < FRAME_SIZE ==> r.image@[i] == 0u8,
            forall|i: int| 0 <= i < EXTRA_DATA_SIZE ==> r.extra@[i] == 0u8,
            forall|i: int| 0 <= i < EXTRA_DATA_SIZE ==> r.extra_rx@[i] == 0u8,
    {
        ElectronBot {
            usb: None,
            is_connected: false,
            image: ImageBuffer::new(),
            extra: ExtraData::new(),
            extra_rx: ExtraData::new(),
            context: SyncContext::new(),
        }
    }

    /// Lists the identities of the attached USB devices.
    pub fn scan_devices() -> (r: Vec<DeviceInfo>)
        ensures
            forall|k: int|
                0 <= k < r@.len() ==> (#[trigger] r@[k]).info@ == crate::discovery::device_id_chars(
                    r@[k].vid,
                    r@[k].pid,
                ),
    {
        crate::discovery::scan_devices()
    }

    /// Takes ownership of a bound endpoint pair: any prior binding is
    /// dropped first, the connection flag is set and the call counter
    /// starts over.
    pub fn attach(&mut self, usb: UsbDevice)
        ensures
            final(self).usb == Some(usb),
            final(self).is_connected,
            final(self).context.timestamp == 0,
            final(self).context.ping_pong_index == old(self).context.ping_pong_index,
            final(self).context.cycles == old(self).context.cycles,
            final(self).image == old(self).image,
            final(self).extra == old(self).extra,
            final(self).extra_rx == old(self).extra_rx,
            old(self).wf() ==> final(self).wf(),
    {
        self.usb = None;
        self.usb = Some(usb);
        self.is_connected = true;
        self.context.timestamp = 0;
    }

    /// Drops any binding and clears the connection flag; calling this
    /// with no binding is a no-op on an already disconnected state.
    pub fn disconnect(&mut self)
        ensures
            *final(self) == disconnected_state(*old(self)),
            !final(self).is_connected,
            final(self).usb is None,
            old(self).wf() ==> final(self).wf(),
    {
        self.is_connected = false;
        self.usb = None;
    }

    /// Whether a binding is live.
    pub fn is_connected(&self) -> (r: bool)
        ensures
            r == self.is_connected,
    {
        self.is_connected
    }

    /// One synchronization call over the current frame and control
    /// block.  Without a live binding it refuses before any transfer;
    /// with one, the exchange runs its cycles to completion, the call
    /// counter grows, the parity flips, and the last whole status
    /// block received is kept.
    pub fn sync(&mut self) -> (r: Result<bool, BotError>)
        requires
            old(self).wf(),
            old(self).context.timestamp < u32::MAX,
        ensures
            final(self).wf(),
            !old(self).is_connected ==> {
                &&& r matches Err(e) && e is NotConnected
                &&& *final(self) == *old(self)
            },
            old(self).is_connected ==> {
                &&& r == Ok::<bool, BotError>(true)
                &&& final(self).context.timestamp == old(self).context.timestamp + 1
                &&& final(self).context.ping_pong_index == spec_toggle_index(
                    old(self).context.ping_pong_index,
                )
                &&& final(self).is_connected == old(self).is_connected
                &&& final(self).image == old(self).image
                &&& final(self).extra == old(self).extra
            },
    {
        if !self.is_connected {
            return Err(BotError::NotConnected);
        }
        match &mut self.usb {
            Some(usb) => {
                let _failures = run_sync(
                    usb,
                    &self.image,
                    &self.extra,
                    &mut self.context,
                    &mut self.extra_rx,
                );
                Ok(true)
            },
            None => Err(BotError::NotConnected),
        }
    }

    /// Loads an RGB source into the frame, reversing channels into
    /// device order, centered when the dimensions differ; a source
    /// buffer shorter than its stated dimensions is refused.
    pub fn set_image_from_data(&mut self, data: &Vec<u8>, width: usize, height: usize) -> (r:
        Result<(), BotError>)
        requires
            old(self).wf(),
            width * height * 3 <= usize::MAX,
        ensures
            final(self).wf(),
            final(self).usb == old(self).usb,
            final(self).is_connected == old(self).is_connected,
            final(self).extra == old(self).extra,
            final(self).context == old(self).context,
            data@.len() < width * height * 3 ==> {
                &&& r matches Err(e) && e is ImageError
                &&& final(self).image == old(self).image
            },
            data@.len() >= width * height * 3 ==> {
                &&& r is Ok
                &&& forall|px: int, py: int|
                    #![trigger pixel_index(px, py)]
                    0 <= px < FRAME_WIDTH && 0 <= py < FRAME_HEIGHT ==> placed_pixel_ok(
                        final(self).image@,
                        data@,
                        width as int,
                        height as int,
                        px,
                        py,
                    )
            },
    {
        match self.image.load_from_data(data, width, height) {
            Ok(_) => Ok(()),
            Err(m) => Err(BotError::ImageError(m)),
        }
    }

    /// Fills the frame with one RGB color, stored in device order; a
    /// color of fewer than three components is refused.
    pub fn set_image_from_color(&mut self, color: &Vec<u8>) -> (r: Result<(), BotError>)
        requires
            old(self).wf(),
        ensures
            final(self).wf(),
            final(self).usb == old(self).usb,
            final(self).is_connected == old(self).is_connected,
            final(self).extra == old(self).extra,
            final(self).context == old(self).context,
            color@.len() < 3 ==> {
                &&& r matches Err(e) && e is ImageError
                &&& final(self).image == old(self).image
            },
            color@.len() >= 3 ==> {
                &&& r is Ok
                &&& forall|px: int, py: int|
                    #![trigger pixel_index(px, py)]
                    0 <= px < FRAME_WIDTH && 0 <= py < FRAME_HEIGHT ==> pixel_is(
                        final(self).image@,
                        px,
                        py,
                        (color@[2], color@[1], color@[0]),
                    )
            },
    {
        if color.len() < 3 {
            return Err(BotError::ImageError(String::from_str("color needs three components")));
        }
        self.image.clear(crate::types::Color::Custom(color[0], color[1], color[2]));
        Ok(())
    }

    /// Copies a payload into the front of the control block; payloads
    /// longer than the block are refused.
    pub fn set_extra_data(&mut self, data: &Vec<u8>) -> (r: Result<(), BotError>)
        requires
            old(self).wf(),
        ensures
            final(self).wf(),
            final(self).usb == old(self).usb,
            final(self).is_connected == old(self).is_connected,
            final(self).image == old(self).image,
            final(self).context == old(self).context,
            data@.len() > EXTRA_DATA_SIZE ==> {
                &&& r matches Err(e) && e is ImageError
                &&& final(self).extra == old(self).extra
            },
            data@.len() <= EXTRA_DATA_SIZE ==> {
                &&& r is Ok
                &&& forall|k: int| 0 <= k < data@.len() ==> final(self).extra@[k] == data@[k]
                &&& forall|k: int|
                    data@.len() <= k < EXTRA_DATA_SIZE ==> final(self).extra@[k] == old(
                        self,
                    ).extra@[k]
            },
    {
        if data.len() > EXTRA_DATA_SIZE {
            return Err(BotError::ImageError(String::from_str("payload longer than the block")));
        }
        self.extra.set_raw(data);
        Ok(())
    }

    /// The status block last received from the device.
    pub fn get_extra_data(&self) -> (r: &Vec<u8>)
        ensures
            r@ == self.extra_rx@,
    {
        self.extra_rx.get_raw()
    }

    /// Writes the enable flag and the six angles into the control
    /// block; the reserved bytes keep their values.
    pub fn set_joint_angles(&mut self, angles: &JointAngles, enable: bool) -> (r: Result<
        (),
        BotError,
    >)
        requires
            old(self).wf(),
            angles.wf(),
        ensures
            final(self).wf(),
            final(self).usb == old(self).usb,
            final(self).is_connected == old(self).is_connected,
            final(self).image == old(self).image,
            final(self).context == old(self).context,
            r is Ok,
            final(self).extra@[0] == if enable { 1u8 } else { 0u8 },
            forall|j: int|
                0 <= j < 6 ==> final(self).extra@.subrange(1 + j * 4, 5 + j * 4) == u32_le_bytes(
                    angles.0@[j],
                ),
            forall|k: int|
                25 <= k < EXTRA_DATA_SIZE ==> final(self).extra@[k] == old(self).extra@[k],
    {
        self.extra.set_joint_angles(angles, enable);
        Ok(())
    }

    /// Reads the six angles back from the last received status block.
    pub fn get_joint_angles(&self) -> (r: JointAngles)
        requires
            self.wf(),
        ensures
            r.wf(),
            forall|j: int|
                0 <= j < 6 ==> r.0@[j] == u32_from_le_bytes(
                    self.extra_rx@[1 + j * 4],
                    self.extra_rx@[2 + j * 4],
                    self.extra_rx@[3 + j * 4],
                    self.extra_rx@[4 + j * 4],
                ),
    {
        self.extra_rx.get_joint_angles()
    }
}

} // verus!
