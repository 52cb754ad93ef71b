//! The parsed representation of a USB control Setup packet.

use vstd::prelude::*;

verus! {

/// Transfer direction of a control request, seen from the host.
#[derive(PartialEq, Eq, Copy, Clone, Debug, Structural)]
pub enum UsbDirection {
    /// Host to device.
    Out,
    /// Device to host.
    In,
}

/// The type of a control request.
#[derive(PartialEq, Eq, Copy, Clone, Debug, Structural)]
pub enum RequestType {
    /// Request defined by the USB standard.
    Standard,
    /// Request defined by the device class specification.
    Class,
    /// Vendor-specific request.
    Vendor,
    /// Reserved request type.
    Reserved,
}

/// The recipient of a control request.
#[derive(PartialEq, Eq, Copy, Clone, Debug, Structural)]
pub enum Recipient {
    /// The whole device.
    Device,
    /// An interface of the device.
    Interface,
    /// An endpoint of the device.
    Endpoint,
    /// Some other recipient.
    Other,
}

/// A control request, decoded from the 8-byte Setup packet.
///
/// One `Request` is constructed per control transfer and discarded when the
/// transfer completes.
#[derive(PartialEq, Eq, Copy, Clone, Debug, Structural)]
pub struct Request {
    /// Direction of the data stage (and of the request as a whole).
    pub direction: UsbDirection,
    /// Standard, class or vendor request.
    pub request_type: RequestType,
    /// Device, interface or endpoint recipient.
    pub recipient: Recipient,
    /// The bRequest code.
    pub request: u8,
    /// The wValue field.
    pub value: u16,
    /// The wIndex field.
    pub index: u16,
    /// The wLength field: how many data-stage bytes the host expects.
    pub length: u16,
}

impl Request {
    /// Standard request code GET_STATUS.
    pub const GET_STATUS: u8 = 0;

    /// Standard request code CLEAR_FEATURE.
    pub const CLEAR_FEATURE: u8 = 1;

    /// Standard request code SET_FEATURE.
    pub const SET_FEATURE: u8 = 3;

    /// Standard request code SET_ADDRESS.
    pub const SET_ADDRESS: u8 = 5;

    /// Standard request code GET_DESCRIPTOR.
    pub const GET_DESCRIPTOR: u8 = 6;

    /// Standard request code SET_DESCRIPTOR.
    pub const SET_DESCRIPTOR: u8 = 7;

    /// Standard request code GET_CONFIGURATION.
    pub const GET_CONFIGURATION: u8 = 8;

    /// Standard request code SET_CONFIGURATION.
    pub const SET_CONFIGURATION: u8 = 9;

    /// Standard request code GET_INTERFACE.
    pub const GET_INTERFACE: u8 = 10;

    /// Standard request code SET_INTERFACE.
    pub const SET_INTERFACE: u8 = 11;

    /// Feature selector ENDPOINT_HALT.
    pub const FEATURE_ENDPOINT_HALT: u16 = 0;

    /// Feature selector DEVICE_REMOTE_WAKEUP.
    pub const FEATURE_DEVICE_REMOTE_WAKEUP: u16 = 1;

    /// Decomposes `value` into the descriptor type (high byte) and descriptor
    /// index (low byte), as GET_DESCRIPTOR encodes them.
    pub fn descriptor_type_index(&self) -> (r: (u8, u8))
        ensures
            r.0 == (self.value / 256) as u8,
            r.1 == (self.value % 256) as u8,
    {
        ((self.value / 256) as u8, (self.value % 256) as u8)
    }
}

} // verus!
