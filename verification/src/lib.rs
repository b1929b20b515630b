//! Driver library for a small USB-attached display/servo controller.
//!
//! The device shows a 240x240 BGR image and drives six servos.  A host
//! program fills a frame buffer and a 32-byte control block, then runs a
//! fixed multi-cycle bulk-transfer exchange with the device firmware.
//! The packetization scheme, the control-block byte layout, the image
//! buffer operations and the endpoint-discovery decisions are verified;
//! the raw USB calls stand behind a small set of trusted wrappers.

pub mod bot;
pub mod constants;
pub mod discovery;
pub mod error;
pub mod extra_data;
pub mod image;
pub mod sync;
pub mod types;
pub mod usb;

pub use bot::ElectronBot;
pub use error::BotError;
pub use extra_data::ExtraData;
pub use image::ImageBuffer;
pub use sync::SyncContext;
pub use sync::SyncResult;
pub use types::Color;
pub use types::DeviceInfo;
pub use types::JointAngles;
pub use usb::UsbDevice;
