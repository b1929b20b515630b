//! Errors reported while talking to the controller.

use vstd::prelude::*;

verus! {

/// What can go wrong while binding to the device or exchanging data.
#[derive(Debug, Clone)]
pub enum BotError {
    /// No attached USB device carries the expected vendor/product identity.
    DeviceNotFound,
    /// A device matched but no interface offered both bulk directions.
    InterfaceNotFound,
    /// A USB operation outside a transfer failed.
    UsbError(String),
    /// A bulk-OUT transfer failed outright.
    SendFailed(String),
    /// A bulk-IN transfer failed outright.
    ReceiveFailed(String),
    /// A source image buffer or control payload had the wrong shape.
    ImageError(String),
    /// An operation that needs a live binding ran without one.
    NotConnected,
}

impl BotError {
    /// The message of this error, in words.
    pub open spec fn spec_message(&self) -> Seq<char> {
        match self {
            BotError::DeviceNotFound => "device not found"@,
            BotError::InterfaceNotFound => "interface not found"@,
            BotError::UsbError(s) => "usb error: "@ + s@,
            BotError::SendFailed(s) => "send failed: "@ + s@,
            BotError::ReceiveFailed(s) => "receive failed: "@ + s@,
            BotError::ImageError(s) => "image error: "@ + s@,
            BotError::NotConnected => "not connected"@,
        }
    }

    /// Renders the error as text.
    pub fn message(&self) -> (r: String)
        ensures
            r@ == self.spec_message(),
    {
        match self {
            BotError::DeviceNotFound => String::from_str("device not found"),
            BotError::InterfaceNotFound => String::from_str("interface not found"),
            BotError::UsbError(s) => String::from_str("usb error: ").concat(s.as_str()),
            BotError::SendFailed(s) => String::from_str("send failed: ").concat(s.as_str()),
            BotError::ReceiveFailed(s) => String::from_str("receive failed: ").concat(s.as_str()),
            BotError::ImageError(s) => String::from_str("image error: ").concat(s.as_str()),
            BotError::NotConnected => String::from_str("not connected"),
        }
    }
}

} // verus!
