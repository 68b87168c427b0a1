//! Core of a full-speed USB device-controller driver.
//!
//! The driver programs a hardware scheme built on per-endpoint queue heads
//! (QH) and transfer descriptors (TD) that live in memory shared between the
//! CPU and a DMA-capable USB engine, and exposes that hardware as a pollable
//! device bus to a protocol stack. Every hardware-shared word is accessed
//! through a volatile cell, each QH/TD slot has exactly one software owner at
//! a time, and a bounded lock-free channel records diagnostic events without
//! ever blocking a producer.

use vstd::prelude::*;

pub mod bus;
pub mod debug_events;
pub mod instance;
pub mod qh;
pub mod setup;
pub mod td;
pub mod vcell;

verus! {

/// Direction of an endpoint or of a transfer, seen from the host: `Out`
/// carries data to the device, `In` to the host.
#[derive(Clone, Copy, PartialEq, Eq, Structural, Debug)]
pub enum Direction {
    /// Host-to-device.
    Out,
    /// Device-to-host.
    In,
}

/// Transfer type of an endpoint.
#[derive(Clone, Copy, PartialEq, Eq, Structural, Debug)]
pub enum EndpointType {
    /// Message pipe used for setup, data and status stages.
    Control,
    /// Periodic, unacknowledged stream.
    Isochronous,
    /// Large, acknowledged bulk stream.
    Bulk,
    /// Small, periodic, acknowledged transfers.
    Interrupt,
}

/// Errors the driver reports synchronously to the protocol stack. None of
/// them is fatal: the device stays in a well-defined state.
#[derive(Clone, Copy, PartialEq, Eq, Structural, Debug)]
pub enum UsbError {
    /// The operation cannot proceed right now; retry after the next poll.
    WouldBlock,
    /// The requested transfer exceeds what one descriptor can carry.
    BufferOverflow,
    /// No free endpoint slot is left for an allocation request.
    EndpointOverflow,
    /// The endpoint is unknown, of the wrong direction, or not allocated.
    InvalidEndpoint,
    /// The endpoint exists but is not usable in the current device state.
    InvalidState,
    /// The endpoint is halted; the halt must be cleared before retrying.
    Stalled,
}

} // verus!
