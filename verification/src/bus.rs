//! The bus adapter: endpoint bookkeeping and the poll/event state machine.
//!
//! The adapter owns the QH table (one slot per endpoint-direction pair) and a
//! software handle per slot, and translates controller status snapshots into
//! the protocol events a generic USB device framework expects: reset, setup,
//! completion bitmaps, suspend and resume. Address assignment is deferred, as
//! the protocol demands: the address written by `set_address` takes effect
//! only once the status stage of the triggering control transfer completes.
//! Protocol anomalies (an unknown endpoint, a glitched handle) are absorbed,
//! never panics: the device side must stay responsive whatever the host does.

use vstd::prelude::*;

use crate::Direction;
use crate::EndpointType;
use crate::UsbError;
use crate::instance::UsbInstance;
use crate::qh::QH;
use crate::qh::caps_with_max_packet_len;
use crate::td::TD_MAX_TRANSFER_BYTES;
use crate::td::TransferStatus;
use crate::td::td_active;
use crate::td::td_failed;
use crate::td::td_halted;
use crate::td::td_ioc;
use crate::td::td_terminate;
use crate::td::td_total_bytes;

verus! {

/// Endpoint numbers run from 0 to 15.
pub const EP_NUMBERS: usize = 16;

/// One QH slot per endpoint-direction pair.
pub const QH_COUNT: usize = 32;

/// A handle naming one endpoint-direction pair.
#[derive(Clone, Copy, PartialEq, Eq, Structural, Debug)]
pub struct EndpointAddress {
    /// Endpoint number, 0 to 15.
    pub number: usize,
    /// Direction of the pipe.
    pub direction: Direction,
}

/// Software bookkeeping for one QH slot.
#[derive(Clone, Copy, PartialEq, Eq, Structural, Debug)]
pub struct EndpointSlot {
    /// The slot was handed out by `alloc_ep` and not cleared by a reset.
    pub allocated: bool,
    /// Transfer type committed at allocation.
    pub ep_type: EndpointType,
    /// Maximum packet size requested at allocation.
    pub max_packet_size: u16,
    /// The endpoint is halted.
    pub stalled: bool,
    /// The endpoint may carry traffic in the current device state.
    pub enabled: bool,
    /// A transfer has been armed on the slot's overlay.
    pub armed: bool,
    /// Length the current transfer was armed with.
    pub armed_len: u32,
}

/// Protocol state of the device, mirrored from controller signals.
#[derive(Clone, Copy, PartialEq, Eq, Structural, Debug)]
pub enum DeviceState {
    /// After power-on or bus reset: no address, endpoint 0 control only.
    DefaultState,
    /// The device answered a SetAddress request.
    Addressed,
    /// A configuration was accepted; non-zero endpoints are armed.
    Configured,
}

/// One snapshot of the controller's interrupt and completion status, read
/// once per poll by the unverified register-access layer.
#[derive(Clone, Copy, PartialEq, Eq, Structural, Debug)]
pub struct PollStatus {
    /// Bus reset seen.
    pub reset: bool,
    /// A token was processed; the bitmaps below say where.
    pub usb_interrupt: bool,
    /// Port change (resume signalling) seen.
    pub port_change: bool,
    /// Suspend signalling seen.
    pub suspend: bool,
    /// OUT endpoints with completed receives, one bit per endpoint number.
    pub ep_out: u16,
    /// IN endpoints with completed transmits, one bit per endpoint number.
    pub ep_in_complete: u16,
    /// Endpoints with captured setup packets, one bit per endpoint number.
    pub ep_setup: u16,
}

/// The protocol-level event a poll reports to the device framework.
#[derive(Clone, Copy, PartialEq, Eq, Structural, Debug)]
pub enum PollResult {
    /// No relevant status bit was set; nothing was mutated.
    NoEvent,
    /// A bus reset must be handled.
    Reset,
    /// Completion bitmaps for the framework to read and write buffers.
    Data { ep_out: u16, ep_in_complete: u16, ep_setup: u16 },
    /// The bus went idle.
    Suspend,
    /// Activity resumed after a suspend.
    Resume,
}

/// Ghost-level snapshot of the whole adapter, the subject of every contract.
pub struct BusView {
    /// The QH table.
    pub qhs: Seq<QH>,
    /// The software slot table.
    pub slots: Seq<EndpointSlot>,
    /// Protocol state.
    pub state: DeviceState,
    /// The active device address; tokens to any other address are ignored.
    pub address: u8,
    /// An address assigned by the host but not yet activated.
    pub pending_address: Option<u8>,
    /// The controller was enabled.
    pub enabled: bool,
    /// The bus is suspended.
    pub suspended: bool,
}

/// QH index of an endpoint number and direction: IN slots sit at odd indices.
pub open spec fn spec_index_of(number: int, direction: Direction) -> int {
    2 * number + if direction == Direction::In {
        1int
    } else {
        0int
    }
}

/// QH index of an endpoint handle.
pub open spec fn spec_qh_index(ep: EndpointAddress) -> int {
    spec_index_of(ep.number as int, ep.direction)
}

/// A slot as it looks before any allocation.
pub open spec fn free_slot() -> EndpointSlot {
    EndpointSlot {
        allocated: false,
        ep_type: EndpointType::Bulk,
        max_packet_size: 0,
        stalled: false,
        enabled: false,
        armed: false,
        armed_len: 0,
    }
}

/// Lowest endpoint number an allocation of `ep_type` may use: only control
/// pipes may claim endpoint 0.
pub open spec fn spec_alloc_start(ep_type: EndpointType) -> int {
    if ep_type == EndpointType::Control {
        0
    } else {
        1
    }
}

/// Length an OUT slot is armed with for one receive: the requested maximum
/// packet size, clamped as the QH field clamps it.
pub open spec fn spec_rx_len(slot: EndpointSlot) -> u32 {
    if slot.max_packet_size > 1024 {
        1024
    } else {
        slot.max_packet_size as u32
    }
}

/// Slot `i` is re-primed on entering the configured state: an allocated,
/// non-control OUT slot (OUT slots sit at even indices). IN endpoints are
/// armed by `write` when there is data to send.
pub open spec fn spec_primed_at(v: BusView, i: int) -> bool {
    &&& v.slots[i].allocated
    &&& v.slots[i].ep_type != EndpointType::Control
    &&& i % 2 == 0
}

/// What a status snapshot is categorized as, in priority order.
pub open spec fn spec_poll_result(status: PollStatus) -> PollResult {
    if status.reset {
        PollResult::Reset
    } else if status.usb_interrupt {
        PollResult::Data {
            ep_out: status.ep_out,
            ep_in_complete: status.ep_in_complete,
            ep_setup: status.ep_setup,
        }
    } else if status.port_change {
        PollResult::Resume
    } else if status.suspend {
        PollResult::Suspend
    } else {
        PollResult::NoEvent
    }
}

/// A poll of `status` activates a pending address exactly when a token was
/// processed and the endpoint-0 IN completion — the status stage of the
/// SetAddress control transfer — is reported.
pub open spec fn spec_activates_address(v: BusView, status: PollStatus) -> bool {
    &&& !status.reset
    &&& status.usb_interrupt
    &&& status.ep_in_complete & 1 != 0
    &&& v.pending_address is Some
}

/// The address a pending assignment would activate.
pub open spec fn spec_pending(v: BusView) -> u8 {
    match v.pending_address {
        Some(address) => address,
        None => 0,
    }
}

/// Views `v0` and `v1` agree on everything but the tables.
pub open spec fn same_scalars(v0: BusView, v1: BusView) -> bool {
    &&& v1.state == v0.state
    &&& v1.address == v0.address
    &&& v1.pending_address == v0.pending_address
    &&& v1.enabled == v0.enabled
    &&& v1.suspended == v0.suspended
}

/// Between `v0` and `v1`, slot `idx` was re-armed for one transfer of `len`
/// bytes: the bookkeeping records the armed length and the slot's overlay is
/// active with that byte count and interrupt-on-complete set; nothing else
/// changed.
pub open spec fn spec_armed(v0: BusView, v1: BusView, idx: int, len: u32) -> bool {
    &&& v1.slots == v0.slots.update(
        idx,
        (EndpointSlot { armed: true, armed_len: len, ..v0.slots[idx] }),
    )
    &&& v1.qhs == v0.qhs.update(idx, v1.qhs[idx])
    &&& td_active(v1.qhs[idx].overlay_td().token_word())
    &&& !td_halted(v1.qhs[idx].overlay_td().token_word())
    &&& td_total_bytes(v1.qhs[idx].overlay_td().token_word()) == len
    &&& td_ioc(v1.qhs[idx].overlay_td().token_word())
    &&& td_terminate(v1.qhs[idx].overlay_td().next_word())
    &&& v1.qhs[idx].capabilities_word() == v0.qhs[idx].capabilities_word()
    &&& v1.qhs[idx].setup_word() == v0.qhs[idx].setup_word()
    &&& same_scalars(v0, v1)
}

/// Between `v0` and `v1`, the hardware's halt of slot `idx` was noted: the
/// slot is disarmed and marked stalled, and stays so until the upper stack
/// clears the halt; nothing else changed.
pub open spec fn spec_halt_noted(v0: BusView, v1: BusView, idx: int) -> bool {
    &&& v1.slots == v0.slots.update(
        idx,
        (EndpointSlot { armed: false, stalled: true, ..v0.slots[idx] }),
    )
    &&& v1.qhs == v0.qhs
    &&& same_scalars(v0, v1)
}

/// Bytes a completed OUT transfer moved: the armed length minus what the
/// hardware left untransferred. A count that exceeds what was armed is a
/// hardware anomaly and reads as zero rather than corrupting state.
pub open spec fn spec_read_count(v: BusView, ep: EndpointAddress) -> u32 {
    let armed_len = v.slots[spec_qh_index(ep)].armed_len;
    let remaining = td_total_bytes(v.qhs[spec_qh_index(ep)].overlay_td().token_word());
    if remaining <= armed_len {
        (armed_len - remaining) as u32
    } else {
        0
    }
}

/// The driver: QH table, endpoint handles, and protocol bookkeeping. It owns
/// the capability to the controller's register block for its whole lifetime.
pub struct BusAdapter {
    _instance: UsbInstance,
    qhs: Vec<QH>,
    slots: Vec<EndpointSlot>,
    state: DeviceState,
    device_address: u8,
    pending_address: Option<u8>,
    enabled: bool,
    suspended: bool,
}

impl View for BusAdapter {
    type V = BusView;

    closed spec fn view(&self) -> BusView {
        BusView {
            qhs: self.qhs@,
            slots: self.slots@,
            state: self.state,
            address: self.device_address,
            pending_address: self.pending_address,
            enabled: self.enabled,
            suspended: self.suspended,
        }
    }
}

impl BusAdapter {
    /// Both tables hold one entry per endpoint-direction pair.
    pub open spec fn wf(&self) -> bool {
        self@.qhs.len() == QH_COUNT && self@.slots.len() == QH_COUNT
    }

    /// Create an adapter with zeroed QHs, every slot free, no address and the
    /// device in its default state. The adapter consumes the controller
    /// capability, so only one adapter per hardware block can exist.
    pub fn new(instance: UsbInstance) -> (r: BusAdapter)
        ensures
            r.wf(),
            r@.state == DeviceState::DefaultState,
            r@.address == 0,
            r@.pending_address is None,
            !r@.enabled,
            !r@.suspended,
            forall|i: int| 0 <= i < QH_COUNT ==> #[trigger] r@.slots[i] == free_slot(),
            forall|i: int|
                0 <= i < QH_COUNT ==> (#[trigger] r@.qhs[i]).capabilities_word() == 0
                    && r@.qhs[i].setup_word() == 0 && !td_active(r@.qhs[i].overlay_td().token_word()),
    {
        let mut qhs: Vec<QH> = Vec::new();
        let mut slots: Vec<EndpointSlot> = Vec::new();
        let mut i: usize = 0;
        while i < QH_COUNT
            invariant
                i <= QH_COUNT,
                qhs@.len() == i,
                slots@.len() == i,
                forall|j: int| 0 <= j < i ==> #[trigger] slots@[j] == free_slot(),
                forall|j: int|
                    0 <= j < i ==> (#[trigger] qhs@[j]).capabilities_word() == 0
                        && qhs@[j].setup_word() == 0 && !td_active(qhs@[j].overlay_td().token_word()),
            decreases QH_COUNT - i,
        {
            qhs.push(QH::new());
            slots.push(
                EndpointSlot {
                    allocated: false,
                    ep_type: EndpointType::Bulk,
                    max_packet_size: 0,
                    stalled: false,
                    enabled: false,
                    armed: false,
                    armed_len: 0,
                },
            );
            i += 1;
        }
        BusAdapter {
            _instance: instance,
            qhs,
            slots,
            state: DeviceState::DefaultState,
            device_address: 0,
            pending_address: None,
            enabled: false,
            suspended: false,
        }
    }

    /// QH index of an endpoint handle.
    pub fn qh_index(ep: EndpointAddress) -> (r: usize)
        requires
            ep.number < EP_NUMBERS,
        ensures
            r == spec_qh_index(ep),
            r < QH_COUNT,
    {
        2 * ep.number + if ep.direction == Direction::In {
            1
        } else {
            0
        }
    }

    /// Power the controller on.
    pub fn enable(&mut self)
        ensures
            final(self)@ == (BusView { enabled: true, ..old(self)@ }),
    {
        self.enabled = true;
    }

    /// The active device address.
    pub fn address(&self) -> (r: u8)
        ensures
            r == self@.address,
    {
        self.device_address
    }

    /// An address assigned by the host but not yet activated, if any.
    pub fn pending_address(&self) -> (r: Option<u8>)
        ensures
            r == self@.pending_address,
    {
        self.pending_address
    }

    /// The device's protocol state.
    pub fn device_state(&self) -> (r: DeviceState)
        ensures
            r == self@.state,
    {
        self.state
    }

    /// Whether the controller acknowledges a token addressed to `address`:
    /// only the active address is answered. An address assigned by the host
    /// but still pending is not yet acknowledged.
    pub fn accepts_token(&self, address: u8) -> (r: bool)
        ensures
            r == (address == self@.address),
    {
        address == self.device_address
    }

    /// Borrow the QH at `index`, for status inspection.
    pub fn qh(&self, index: usize) -> (r: &QH)
        requires
            self.wf(),
            index < QH_COUNT,
        ensures
            *r == self@.qhs[index as int],
    {
        &self.qhs[index]
    }

    /// Store a captured setup packet into the QH at `index`. This mirrors the
    /// controller's own write; the unverified register-access layer (or a
    /// test standing in for the hardware) calls it.
    pub fn write_setup(&mut self, index: usize, value: u64)
        requires
            old(self).wf(),
            index < QH_COUNT,
        ensures
            final(self).wf(),
            final(self)@.qhs == old(self)@.qhs.update(index as int, final(self)@.qhs[index as int]),
            final(self)@.qhs[index as int].setup_word() == value,
            final(self)@.qhs[index as int].capabilities_word() == old(self)@.qhs[index as int].capabilities_word(),
            final(self)@.qhs[index as int].overlay_td() == old(self)@.qhs[index as int].overlay_td(),
            final(self)@.slots == old(self)@.slots,
            same_scalars(old(self)@, final(self)@),
    {
        let qh = &mut self.qhs[index];
        qh.write_setup(value);
    }

    /// Overwrite the overlay token of the QH at `index`. This mirrors the
    /// controller completing (or failing) a transfer; the unverified
    /// register-access layer or a test calls it.
    pub fn write_overlay_token(&mut self, index: usize, token: u32)
        requires
            old(self).wf(),
            index < QH_COUNT,
        ensures
            final(self).wf(),
            final(self)@.qhs == old(self)@.qhs.update(index as int, final(self)@.qhs[index as int]),
            final(self)@.qhs[index as int].overlay_td().token_word() == token,
            final(self)@.qhs[index as int].capabilities_word() == old(self)@.qhs[index as int].capabilities_word(),
            final(self)@.qhs[index as int].setup_word() == old(self)@.qhs[index as int].setup_word(),
            final(self)@.slots == old(self)@.slots,
            same_scalars(old(self)@, final(self)@),
    {
        let qh = &mut self.qhs[index];
        qh.write_overlay_token(token);
    }

    /// Hand out the first free slot of the requested direction, program its
    /// QH capabilities with the (clamped) maximum packet length, and return
    /// its handle. Exhaustion is reported as `EndpointOverflow` and changes
    /// nothing.
    pub fn alloc_ep(
        &mut self,
        direction: Direction,
        ep_type: EndpointType,
        max_packet_size: u16,
    ) -> (r: Result<EndpointAddress, UsbError>)
        requires
            old(self).wf(),
        ensures
            final(self).wf(),
            ({
                let start = spec_alloc_start(ep_type);
                match r {
                    Ok(ep) => {
                        let idx = spec_qh_index(ep);
                        &&& ep.direction == direction
                        &&& start <= ep.number < EP_NUMBERS
                        &&& !old(self)@.slots[idx].allocated
                        &&& forall|m: int|
                            start <= m < ep.number ==> (#[trigger] old(self)@.slots[spec_index_of(
                                m,
                                direction,
                            )]).allocated
                        &&& final(self)@.slots == old(self)@.slots.update(
                            idx,
                            (EndpointSlot {
                                allocated: true,
                                ep_type: ep_type,
                                max_packet_size: max_packet_size,
                                stalled: false,
                                enabled: ep_type == EndpointType::Control,
                                armed: false,
                                armed_len: 0,
                            }),
                        )
                        &&& final(self)@.qhs == old(self)@.qhs.update(idx, final(self)@.qhs[idx])
                        &&& final(self)@.qhs[idx].capabilities_word() == caps_with_max_packet_len(
                            old(self)@.qhs[idx].capabilities_word(),
                            max_packet_size as u32,
                        )
                        &&& final(self)@.qhs[idx].setup_word() == old(self)@.qhs[idx].setup_word()
                        &&& final(self)@.qhs[idx].overlay_td() == old(self)@.qhs[idx].overlay_td()
                        &&& same_scalars(old(self)@, final(self)@)
                    },
                    Err(e) => {
                        &&& e == UsbError::EndpointOverflow
                        &&& forall|m: int|
                            start <= m < EP_NUMBERS ==> (#[trigger] old(self)@.slots[spec_index_of(
                                m,
                                direction,
                            )]).allocated
                        &&& final(self)@ == old(self)@
                    },
                }
            }),
    {
        let start: usize = if ep_type == EndpointType::Control {
            0
        } else {
            1
        };
        let mut number: usize = start;
        while number < EP_NUMBERS
            invariant
                old(self).wf(),
                start == spec_alloc_start(ep_type),
                start <= number <= EP_NUMBERS,
                *self == *old(self),
                forall|m: int|
                    start <= m < number ==> (#[trigger] self@.slots[spec_index_of(
                        m,
                        direction,
                    )]).allocated,
            decreases EP_NUMBERS - number,
        {
            let ep = EndpointAddress { number, direction };
            let idx = BusAdapter::qh_index(ep);
            if !self.slots[idx].allocated {
                let qh = &mut self.qhs[idx];
                qh.set_max_packet_len(max_packet_size as u32);
                self.slots[idx] = EndpointSlot {
                    allocated: true,
                    ep_type,
                    max_packet_size,
                    stalled: false,
                    enabled: ep_type == EndpointType::Control,
                    armed: false,
                    armed_len: 0,
                };
                return Ok(ep);
            }
            number += 1;
        }
        Err(UsbError::EndpointOverflow)
    }

    /// Handle a bus reset: clear every endpoint slot and every QH — the
    /// pre-reset configuration, the stored maximum packet length among it, is
    /// gone — drop the active and any pending address, and return to the
    /// default state. Handles allocated before the reset are no longer usable
    /// until re-allocated, and their QHs must be re-programmed.
    pub fn reset(&mut self)
        requires
            old(self).wf(),
        ensures
            final(self).wf(),
            final(self)@.state == DeviceState::DefaultState,
            final(self)@.address == 0,
            final(self)@.pending_address is None,
            final(self)@.enabled == old(self)@.enabled,
            final(self)@.suspended == old(self)@.suspended,
            forall|i: int| 0 <= i < QH_COUNT ==> #[trigger] final(self)@.slots[i] == free_slot(),
            forall|i: int|
                0 <= i < QH_COUNT ==> (#[trigger] final(self)@.qhs[i]).capabilities_word() == 0
                    && final(self)@.qhs[i].setup_word() == 0
                    && final(self)@.qhs[i].overlay_td().token_word() == 0
                    && !td_active(final(self)@.qhs[i].overlay_td().token_word()),
    {
        let mut i: usize = 0;
        while i < QH_COUNT
            invariant
                old(self).wf(),
                i <= QH_COUNT,
                self.qhs@.len() == QH_COUNT,
                self.slots@.len() == QH_COUNT,
                self.state == old(self).state,
                self.device_address == old(self).device_address,
                self.pending_address == old(self).pending_address,
                self.enabled == old(self).enabled,
                self.suspended == old(self).suspended,
                forall|j: int| 0 <= j < i ==> #[trigger] self.slots@[j] == free_slot(),
                forall|j: int|
                    0 <= j < i ==> (#[trigger] self.qhs@[j]).capabilities_word() == 0
                        && self.qhs@[j].setup_word() == 0 && self.qhs@[j].overlay_td().token_word()
                        == 0 && !td_active(self.qhs@[j].overlay_td().token_word()),
            decreases QH_COUNT - i,
        {
            self.qhs[i] = QH::new();
            self.slots[i] = EndpointSlot {
                allocated: false,
                ep_type: EndpointType::Bulk,
                max_packet_size: 0,
                stalled: false,
                enabled: false,
                armed: false,
                armed_len: 0,
            };
            i += 1;
        }
        self.state = DeviceState::DefaultState;
        self.device_address = 0;
        self.pending_address = None;
    }

    /// Record the address the host assigned. Per the USB protocol the new
    /// address must not take effect before the status stage of the SetAddress
    /// control transfer is acknowledged, so the active address is untouched
    /// here; `poll` activates the pending value when it sees the endpoint-0
    /// IN completion.
    pub fn set_address(&mut self, address: u8)
        requires
            address < 128,
        ensures
            final(self)@ == (BusView { pending_address: Some(address), ..old(self)@ }),
    {
        self.pending_address = Some(address);
    }

    /// Enter the configured state: every allocated endpoint becomes usable,
    /// every free slot stays disabled, and each allocated non-control OUT
    /// endpoint is re-primed from its stored capabilities — its overlay is
    /// armed for one receive of the (clamped) maximum packet size. IN
    /// endpoints are armed by `write` when there is data to send.
    pub fn configure(&mut self)
        requires
            old(self).wf(),
        ensures
            final(self).wf(),
            final(self)@.state == DeviceState::Configured,
            final(self)@.address == old(self)@.address,
            final(self)@.pending_address == old(self)@.pending_address,
            final(self)@.enabled == old(self)@.enabled,
            final(self)@.suspended == old(self)@.suspended,
            forall|i: int|
                0 <= i < QH_COUNT ==> #[trigger] final(self)@.slots[i] == (if spec_primed_at(
                    old(self)@,
                    i,
                ) {
                    EndpointSlot {
                        enabled: true,
                        armed: true,
                        armed_len: spec_rx_len(old(self)@.slots[i]),
                        ..old(self)@.slots[i]
                    }
                } else {
                    EndpointSlot { enabled: old(self)@.slots[i].allocated, ..old(self)@.slots[i] }
                }),
            forall|i: int|
                0 <= i < QH_COUNT && !spec_primed_at(old(self)@, i)
                    ==> (#[trigger] final(self)@.qhs[i]) == old(self)@.qhs[i],
            forall|i: int|
                0 <= i < QH_COUNT && spec_primed_at(old(self)@, i)
                    ==> td_active((#[trigger] final(self)@.qhs[i]).overlay_td().token_word())
                    && td_total_bytes(final(self)@.qhs[i].overlay_td().token_word())
                    == spec_rx_len(old(self)@.slots[i])
                    && td_ioc(final(self)@.qhs[i].overlay_td().token_word())
                    && td_terminate(final(self)@.qhs[i].overlay_td().next_word())
                    && final(self)@.qhs[i].capabilities_word()
                    == old(self)@.qhs[i].capabilities_word()
                    && final(self)@.qhs[i].setup_word() == old(self)@.qhs[i].setup_word(),
    {
        let mut i: usize = 0;
        while i < QH_COUNT
            invariant
                old(self).wf(),
                i <= QH_COUNT,
                self.qhs@.len() == QH_COUNT,
                self.slots@.len() == QH_COUNT,
                self.state == old(self).state,
                self.device_address == old(self).device_address,
                self.pending_address == old(self).pending_address,
                self.enabled == old(self).enabled,
                self.suspended == old(self).suspended,
                forall|j: int| i <= j < QH_COUNT ==> #[trigger] self.slots@[j] == old(self).slots@[j],
                forall|j: int| i <= j < QH_COUNT ==> (#[trigger] self.qhs@[j]) == old(self).qhs@[j],
                forall|j: int|
                    0 <= j < i ==> #[trigger] self.slots@[j] == (if spec_primed_at(old(self)@, j) {
                        EndpointSlot {
                            enabled: true,
                            armed: true,
                            armed_len: spec_rx_len(old(self)@.slots[j]),
                            ..old(self)@.slots[j]
                        }
                    } else {
                        EndpointSlot {
                            enabled: old(self)@.slots[j].allocated,
                            ..old(self)@.slots[j]
                        }
                    }),
                forall|j: int|
                    0 <= j < i && !spec_primed_at(old(self)@, j) ==> (#[trigger] self.qhs@[j])
                        == old(self).qhs@[j],
                forall|j: int|
                    0 <= j < i && spec_primed_at(old(self)@, j) ==> td_active(
                        (#[trigger] self.qhs@[j]).overlay_td().token_word(),
                    ) && td_total_bytes(self.qhs@[j].overlay_td().token_word()) == spec_rx_len(
                        old(self)@.slots[j],
                    ) && td_ioc(self.qhs@[j].overlay_td().token_word()) && td_terminate(
                        self.qhs@[j].overlay_td().next_word(),
                    ) && self.qhs@[j].capabilities_word() == old(self).qhs@[j].capabilities_word()
                        && self.qhs@[j].setup_word() == old(self).qhs@[j].setup_word(),
            decreases QH_COUNT - i,
        {
            let slot = self.slots[i];
            if slot.allocated && !(slot.ep_type == EndpointType::Control) && i % 2 == 0 {
                let rx_len: u32 = if slot.max_packet_size > 1024 {
                    1024
                } else {
                    slot.max_packet_size as u32
                };
                let qh = &mut self.qhs[i];
                qh.arm_overlay(rx_len, true);
                self.slots[i] = EndpointSlot {
                    enabled: true,
                    armed: true,
                    armed_len: rx_len,
                    ..slot
                };
            } else {
                self.slots[i] = EndpointSlot { enabled: slot.allocated, ..slot };
            }
            i += 1;
        }
        self.state = DeviceState::Configured;
    }

    /// Categorize one status snapshot, in priority order: reset, then token
    /// traffic, then resume, then suspend. A snapshot with nothing relevant
    /// reports `NoEvent` and mutates nothing. When token traffic reports the
    /// endpoint-0 IN completion — the status stage of a control transfer —
    /// any pending address becomes active, and the device leaves the default
    /// state if that address is non-zero.
    pub fn poll(&mut self, status: PollStatus) -> (r: PollResult)
        requires
            old(self).wf(),
        ensures
            final(self).wf(),
            r == spec_poll_result(status),
            spec_activates_address(old(self)@, status) ==> final(self)@ == (BusView {
                address: spec_pending(old(self)@),
                pending_address: None,
                state: if spec_pending(old(self)@) != 0 {
                    DeviceState::Addressed
                } else {
                    DeviceState::DefaultState
                },
                ..old(self)@
            }),
            !spec_activates_address(old(self)@, status) ==> final(self)@ == old(self)@,
    {
        if status.reset {
            PollResult::Reset
        } else if status.usb_interrupt {
            if status.ep_in_complete & 1 != 0 {
                match self.pending_address {
                    Some(address) => {
                        self.device_address = address;
                        self.pending_address = None;
                        self.state = if address != 0 {
                            DeviceState::Addressed
                        } else {
                            DeviceState::DefaultState
                        };
                    },
                    None => {},
                }
            }
            PollResult::Data {
                ep_out: status.ep_out,
                ep_in_complete: status.ep_in_complete,
                ep_setup: status.ep_setup,
            }
        } else if status.port_change {
            PollResult::Resume
        } else if status.suspend {
            PollResult::Suspend
        } else {
            PollResult::NoEvent
        }
    }

    /// Arm one IN transfer of the whole buffer and report how many bytes the
    /// hardware will move. The checks, in order: the handle must name an
    /// allocated IN endpoint, usable and not halted, the previous transfer
    /// must not still be in flight nor have failed, and the buffer must fit
    /// one descriptor. A previous transfer the hardware halted or errored is
    /// reported as the endpoint error and leaves the endpoint halted until
    /// the upper stack clears it. The bytes themselves travel by DMA from the
    /// caller's buffer; only the bookkeeping lives here.
    pub fn write(&mut self, ep: EndpointAddress, buf: &[u8]) -> (r: Result<usize, UsbError>)
        requires
            old(self).wf(),
        ensures
            final(self).wf(),
            ({
                let idx = spec_qh_index(ep);
                let v0 = old(self)@;
                let v1 = final(self)@;
                let tok = v0.qhs[idx].overlay_td().token_word();
                if ep.number >= EP_NUMBERS || ep.direction != Direction::In
                    || !v0.slots[idx].allocated {
                    r == Result::<usize, UsbError>::Err(UsbError::InvalidEndpoint) && v1 == v0
                } else if !v0.slots[idx].enabled {
                    r == Result::<usize, UsbError>::Err(UsbError::InvalidState) && v1 == v0
                } else if v0.slots[idx].stalled {
                    r == Result::<usize, UsbError>::Err(UsbError::Stalled) && v1 == v0
                } else if v0.slots[idx].armed && td_active(tok) {
                    r == Result::<usize, UsbError>::Err(UsbError::WouldBlock) && v1 == v0
                } else if v0.slots[idx].armed && td_failed(tok) {
                    r == Result::<usize, UsbError>::Err(UsbError::Stalled) && spec_halt_noted(
                        v0,
                        v1,
                        idx,
                    )
                } else if buf@.len() > TD_MAX_TRANSFER_BYTES {
                    r == Result::<usize, UsbError>::Err(UsbError::BufferOverflow) && v1 == v0
                } else {
                    r == Result::<usize, UsbError>::Ok(buf@.len() as usize) && spec_armed(
                        v0,
                        v1,
                        idx,
                        buf@.len() as u32,
                    )
                }
            }),
    {
        if ep.number >= EP_NUMBERS {
            return Err(UsbError::InvalidEndpoint);
        }
        if !(ep.direction == Direction::In) {
            return Err(UsbError::InvalidEndpoint);
        }
        let idx = BusAdapter::qh_index(ep);
        let slot = self.slots[idx];
        if !slot.allocated {
            return Err(UsbError::InvalidEndpoint);
        }
        if !slot.enabled {
            return Err(UsbError::InvalidState);
        }
        if slot.stalled {
            return Err(UsbError::Stalled);
        }
        if slot.armed {
            match self.qhs[idx].overlay().status() {
                TransferStatus::Pending => {
                    return Err(UsbError::WouldBlock);
                },
                TransferStatus::Success => {},
                _ => {
                    self.slots[idx] = EndpointSlot { armed: false, stalled: true, ..slot };
                    return Err(UsbError::Stalled);
                },
            }
        }
        let len = buf.len();
        if len > TD_MAX_TRANSFER_BYTES as usize {
            return Err(UsbError::BufferOverflow);
        }
        let qh = &mut self.qhs[idx];
        qh.arm_overlay(len as u32, true);
        self.slots[idx] = EndpointSlot { armed: true, armed_len: len as u32, ..slot };
        Ok(len)
    }

    /// Drain one completed OUT transfer and re-arm the endpoint for the next
    /// receive. The first call on a fresh endpoint arms it and reports
    /// `WouldBlock`, as does a transfer still in flight; a completed transfer
    /// reports how many bytes arrived. A transfer the hardware halted or
    /// errored is reported as the endpoint error and leaves the endpoint
    /// halted until the upper stack clears it. The bytes themselves travel by
    /// DMA into the caller's buffer; only the bookkeeping lives here.
    pub fn read(&mut self, ep: EndpointAddress) -> (r: Result<usize, UsbError>)
        requires
            old(self).wf(),
        ensures
            final(self).wf(),
            ({
                let idx = spec_qh_index(ep);
                let v0 = old(self)@;
                let v1 = final(self)@;
                let tok = v0.qhs[idx].overlay_td().token_word();
                if ep.number >= EP_NUMBERS || ep.direction != Direction::Out
                    || !v0.slots[idx].allocated {
                    r == Result::<usize, UsbError>::Err(UsbError::InvalidEndpoint) && v1 == v0
                } else if !v0.slots[idx].enabled {
                    r == Result::<usize, UsbError>::Err(UsbError::InvalidState) && v1 == v0
                } else if v0.slots[idx].stalled {
                    r == Result::<usize, UsbError>::Err(UsbError::Stalled) && v1 == v0
                } else if !v0.slots[idx].armed {
                    r == Result::<usize, UsbError>::Err(UsbError::WouldBlock) && spec_armed(
                        v0,
                        v1,
                        idx,
                        spec_rx_len(v0.slots[idx]),
                    )
                } else if td_active(tok) {
                    r == Result::<usize, UsbError>::Err(UsbError::WouldBlock) && v1 == v0
                } else if td_failed(tok) {
                    r == Result::<usize, UsbError>::Err(UsbError::Stalled) && spec_halt_noted(
                        v0,
                        v1,
                        idx,
                    )
                } else {
                    r == Result::<usize, UsbError>::Ok(spec_read_count(v0, ep) as usize)
                        && spec_armed(v0, v1, idx, spec_rx_len(v0.slots[idx]))
                }
            }),
    {
        if ep.number >= EP_NUMBERS {
            return Err(UsbError::InvalidEndpoint);
        }
        if !(ep.direction == Direction::Out) {
            return Err(UsbError::InvalidEndpoint);
        }
        let idx = BusAdapter::qh_index(ep);
        let slot = self.slots[idx];
        if !slot.allocated {
            return Err(UsbError::InvalidEndpoint);
        }
        if !slot.enabled {
            return Err(UsbError::InvalidState);
        }
        if slot.stalled {
            return Err(UsbError::Stalled);
        }
        let rx_len: u32 = if slot.max_packet_size > 1024 {
            1024
        } else {
            slot.max_packet_size as u32
        };
        if !slot.armed {
            let qh = &mut self.qhs[idx];
            qh.arm_overlay(rx_len, true);
            self.slots[idx] = EndpointSlot { armed: true, armed_len: rx_len, ..slot };
            return Err(UsbError::WouldBlock);
        }
        let remaining = {
            let qh = &self.qhs[idx];
            match qh.overlay().status() {
                TransferStatus::Pending => {
                    return Err(UsbError::WouldBlock);
                },
                TransferStatus::Success => {},
                _ => {
                    self.slots[idx] = EndpointSlot { armed: false, stalled: true, ..slot };
                    return Err(UsbError::Stalled);
                },
            }
            qh.overlay().total_bytes()
        };
        let received: u32 = if remaining <= slot.armed_len {
            slot.armed_len - remaining
        } else {
            0
        };
        let qh = &mut self.qhs[idx];
        qh.arm_overlay(rx_len, true);
        self.slots[idx] = EndpointSlot { armed: true, armed_len: rx_len, ..slot };
        Ok(received as usize)
    }

    /// Halt or clear an endpoint. A handle that names no allocated endpoint
    /// is a protocol anomaly: it is absorbed without effect.
    pub fn set_stalled(&mut self, ep: EndpointAddress, stalled: bool)
        requires
            old(self).wf(),
        ensures
            final(self).wf(),
            ({
                let idx = spec_qh_index(ep);
                if ep.number < EP_NUMBERS && old(self)@.slots[idx].allocated {
                    final(self)@.slots == old(self)@.slots.update(
                        idx,
                        (EndpointSlot { stalled: stalled, ..old(self)@.slots[idx] }),
                    ) && final(self)@.qhs == old(self)@.qhs && same_scalars(
                        old(self)@,
                        final(self)@,
                    )
                } else {
                    final(self)@ == old(self)@
                }
            }),
    {
        if ep.number >= EP_NUMBERS {
            return ;
        }
        let idx = BusAdapter::qh_index(ep);
        let slot = self.slots[idx];
        if !slot.allocated {
            return ;
        }
        self.slots[idx] = EndpointSlot { stalled, ..slot };
    }

    /// Whether an endpoint is halted; an unknown handle reads as not halted.
    pub fn is_stalled(&self, ep: EndpointAddress) -> (r: bool)
        requires
            self.wf(),
        ensures
            r == (ep.number < EP_NUMBERS && self@.slots[spec_qh_index(ep)].allocated
                && self@.slots[spec_qh_index(ep)].stalled),
    {
        if ep.number >= EP_NUMBERS {
            return false;
        }
        let idx = BusAdapter::qh_index(ep);
        let slot = self.slots[idx];
        slot.allocated && slot.stalled
    }

    /// Note that the bus went idle.
    pub fn suspend(&mut self)
        ensures
            final(self)@ == (BusView { suspended: true, ..old(self)@ }),
    {
        self.suspended = true;
    }

    /// Note that bus activity resumed.
    pub fn resume(&mut self)
        ensures
            final(self)@ == (BusView { suspended: false, ..old(self)@ }),
    {
        self.suspended = false;
    }
}

} // verus!
