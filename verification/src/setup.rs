//! Decoding of captured setup packets.
//!
//! A control endpoint's QH captures the 8 setup bytes as one little-endian
//! word. The fields of the USB setup packet sit at fixed byte offsets within
//! it: request type, request, value, index, length.

use vstd::prelude::*;

verus! {

/// Standard request code for SetAddress.
pub const REQUEST_SET_ADDRESS: u8 = 5;

/// Request-type byte of a captured setup word.
pub open spec fn setup_request_type(word: u64) -> u8 {
    (word & 0xFF) as u8
}

/// Request byte of a captured setup word.
pub open spec fn setup_request(word: u64) -> u8 {
    ((word >> 8) & 0xFF) as u8
}

/// Value field of a captured setup word.
pub open spec fn setup_value(word: u64) -> u16 {
    ((word >> 16) & 0xFFFF) as u16
}

/// Index field of a captured setup word.
pub open spec fn setup_index(word: u64) -> u16 {
    ((word >> 32) & 0xFFFF) as u16
}

/// Length field of a captured setup word.
pub open spec fn setup_length(word: u64) -> u16 {
    ((word >> 48) & 0xFFFF) as u16
}

/// One decoded setup packet.
#[derive(Clone, Copy, PartialEq, Eq, Structural, Debug)]
pub struct SetupPacket {
    /// Request characteristics: direction, type, recipient.
    pub request_type: u8,
    /// The request itself.
    pub request: u8,
    /// Request-specific value; for SetAddress, the assigned address.
    pub value: u16,
    /// Request-specific index or offset.
    pub index: u16,
    /// Number of bytes in the data stage.
    pub length: u16,
}

impl SetupPacket {
    /// Split a captured setup word into the five packet fields.
    pub fn decode(word: u64) -> (r: SetupPacket)
        ensures
            r.request_type == setup_request_type(word),
            r.request == setup_request(word),
            r.value == setup_value(word),
            r.index == setup_index(word),
            r.length == setup_length(word),
    {
        SetupPacket {
            request_type: (word & 0xFF) as u8,
            request: ((word >> 8) & 0xFF) as u8,
            value: ((word >> 16) & 0xFFFF) as u16,
            index: ((word >> 32) & 0xFFFF) as u16,
            length: ((word >> 48) & 0xFFFF) as u16,
        }
    }

    /// Whether the packet is a standard, device-directed SetAddress request.
    pub fn is_set_address(&self) -> (r: bool)
        ensures
            r == (self.request_type == 0 && self.request == REQUEST_SET_ADDRESS),
    {
        self.request_type == 0 && self.request == REQUEST_SET_ADDRESS
    }
}

} // verus!
