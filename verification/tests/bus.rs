use usbd_core::Direction;
use usbd_core::EndpointType;
use usbd_core::UsbError;
use usbd_core::bus::BusAdapter;
use usbd_core::instance::UsbInstance;
use usbd_core::bus::DeviceState;
use usbd_core::bus::PollResult;
use usbd_core::bus::PollStatus;
use usbd_core::setup::SetupPacket;

fn make_bus() -> BusAdapter {
    let mut taken = false;
    BusAdapter::new(UsbInstance::take(&mut taken).unwrap())
}

fn idle_status() -> PollStatus {
    PollStatus {
        reset: false,
        usb_interrupt: false,
        port_change: false,
        suspend: false,
        ep_out: 0,
        ep_in_complete: 0,
        ep_setup: 0,
    }
}

#[test]
fn fresh_bus_is_default_and_unaddressed() {
    let bus = make_bus();
    assert_eq!(bus.device_state(), DeviceState::DefaultState);
    assert_eq!(bus.address(), 0);
    assert_eq!(bus.pending_address(), None);
    assert!(bus.accepts_token(0));
    assert!(!bus.accepts_token(5));
    assert_eq!(bus.qh(0).capabilities(), 0);
}

#[test]
fn alloc_programs_qh_capabilities() {
    let mut bus = make_bus();
    let ep = bus.alloc_ep(Direction::In, EndpointType::Bulk, 512).unwrap();
    assert_eq!(ep.number, 1);
    assert_eq!(ep.direction, Direction::In);
    let idx = 2 * ep.number + 1;
    assert_eq!(bus.qh(idx).max_packet_len(), 512);
    // a request above the field's range is clamped, as the QH clamps it
    let ep2 = bus.alloc_ep(Direction::In, EndpointType::Bulk, 2000).unwrap();
    assert_eq!(bus.qh(2 * ep2.number + 1).max_packet_len(), 1024);
}

#[test]
fn alloc_exhaustion_reports_overflow() {
    let mut bus = make_bus();
    // non-control endpoints use numbers 1 to 15
    for n in 1..16 {
        let ep = bus.alloc_ep(Direction::In, EndpointType::Bulk, 64).unwrap();
        assert_eq!(ep.number, n);
    }
    assert_eq!(
        bus.alloc_ep(Direction::In, EndpointType::Bulk, 64),
        Err(UsbError::EndpointOverflow)
    );
    // the device is not corrupted: the other direction still allocates
    let ep = bus.alloc_ep(Direction::Out, EndpointType::Bulk, 64).unwrap();
    assert_eq!(ep.number, 1);
    assert_eq!(bus.device_state(), DeviceState::DefaultState);
}

#[test]
fn control_claims_endpoint_zero() {
    let mut bus = make_bus();
    let ep_out = bus.alloc_ep(Direction::Out, EndpointType::Control, 64).unwrap();
    let ep_in = bus.alloc_ep(Direction::In, EndpointType::Control, 64).unwrap();
    assert_eq!(ep_out.number, 0);
    assert_eq!(ep_in.number, 0);
}

#[test]
fn write_needs_configuration() {
    let mut bus = make_bus();
    let ep = bus.alloc_ep(Direction::In, EndpointType::Bulk, 64).unwrap();
    assert_eq!(bus.write(ep, &[1, 2, 3]), Err(UsbError::InvalidState));
    bus.configure();
    assert_eq!(bus.device_state(), DeviceState::Configured);
    assert_eq!(bus.write(ep, &[1, 2, 3]), Ok(3));
    // the previous transfer is still in flight
    assert_eq!(bus.write(ep, &[4]), Err(UsbError::WouldBlock));
    // hardware completes it; writing works again
    bus.write_overlay_token(2 * ep.number + 1, 0);
    assert_eq!(bus.write(ep, &[4]), Ok(1));
}

#[test]
fn write_rejects_oversized_and_unknown() {
    let mut bus = make_bus();
    let ep = bus.alloc_ep(Direction::In, EndpointType::Bulk, 64).unwrap();
    bus.configure();
    let big = vec![0u8; 0x5001];
    assert_eq!(bus.write(ep, &big), Err(UsbError::BufferOverflow));
    let wrong_dir = usbd_core::bus::EndpointAddress { number: ep.number, direction: Direction::Out };
    assert_eq!(bus.write(wrong_dir, &[0]), Err(UsbError::InvalidEndpoint));
    let out_of_range = usbd_core::bus::EndpointAddress { number: 16, direction: Direction::In };
    assert_eq!(bus.write(out_of_range, &[0]), Err(UsbError::InvalidEndpoint));
    // the largest transfer one descriptor can carry is accepted exactly
    let largest = vec![0u8; 0x5000];
    assert_eq!(bus.write(ep, &largest), Ok(0x5000));
}

#[test]
fn pending_address_needs_endpoint_zero_completion() {
    let mut bus = make_bus();
    bus.set_address(7);
    // another endpoint's IN completion does not activate the address
    let mut s = idle_status();
    s.usb_interrupt = true;
    s.ep_in_complete = 0b10;
    bus.poll(s);
    assert_eq!(bus.address(), 0);
    assert_eq!(bus.pending_address(), Some(7));
    // the endpoint-0 IN completion does
    let mut s = idle_status();
    s.usb_interrupt = true;
    s.ep_in_complete = 1;
    bus.poll(s);
    assert_eq!(bus.address(), 7);
    assert_eq!(bus.pending_address(), None);
}

#[test]
fn configure_primes_out_endpoints() {
    let mut bus = make_bus();
    let ep = bus.alloc_ep(Direction::Out, EndpointType::Bulk, 64).unwrap();
    let idx = 2 * ep.number;
    assert!(!bus.qh(idx).overlay().is_active());
    // entering the configured state re-primes the receive side from the
    // stored capabilities
    bus.configure();
    assert!(bus.qh(idx).overlay().is_active());
    assert_eq!(bus.qh(idx).overlay().total_bytes(), 64);
    // nothing has arrived yet
    assert_eq!(bus.read(ep), Err(UsbError::WouldBlock));
    // hardware receives 13 bytes: active clears, 51 bytes left untransferred
    bus.write_overlay_token(idx, 51 << 16);
    assert_eq!(bus.read(ep), Ok(13));
    // the endpoint was re-armed for the next packet
    assert!(bus.qh(idx).overlay().is_active());
}

#[test]
fn configure_leaves_in_and_control_unarmed() {
    let mut bus = make_bus();
    let ep0 = bus.alloc_ep(Direction::Out, EndpointType::Control, 64).unwrap();
    let ep_in = bus.alloc_ep(Direction::In, EndpointType::Bulk, 64).unwrap();
    bus.configure();
    assert!(!bus.qh(2 * ep0.number).overlay().is_active());
    assert!(!bus.qh(2 * ep_in.number + 1).overlay().is_active());
}

#[test]
fn stall_blocks_traffic_until_cleared() {
    let mut bus = make_bus();
    let ep = bus.alloc_ep(Direction::In, EndpointType::Interrupt, 8).unwrap();
    bus.configure();
    assert!(!bus.is_stalled(ep));
    bus.set_stalled(ep, true);
    assert!(bus.is_stalled(ep));
    assert_eq!(bus.write(ep, &[1]), Err(UsbError::Stalled));
    bus.set_stalled(ep, false);
    assert!(!bus.is_stalled(ep));
    assert_eq!(bus.write(ep, &[1]), Ok(1));
}

#[test]
fn failed_transfer_halts_endpoint() {
    let mut bus = make_bus();
    let ep = bus.alloc_ep(Direction::In, EndpointType::Bulk, 64).unwrap();
    bus.configure();
    assert_eq!(bus.write(ep, &[1, 2, 3]), Ok(3));
    // hardware halts the transfer: active bit clear, halted bit set
    bus.write_overlay_token(2 * ep.number + 1, 0x40);
    assert_eq!(bus.write(ep, &[4]), Err(UsbError::Stalled));
    assert!(bus.is_stalled(ep));
    // the upper stack clears the halt; traffic flows again
    bus.set_stalled(ep, false);
    assert_eq!(bus.write(ep, &[4]), Ok(1));
}

#[test]
fn failed_receive_halts_endpoint() {
    let mut bus = make_bus();
    let ep = bus.alloc_ep(Direction::Out, EndpointType::Bulk, 64).unwrap();
    bus.configure();
    // the receive primed at configure is still in flight
    assert_eq!(bus.read(ep), Err(UsbError::WouldBlock));
    // hardware reports a transaction error on the receive
    bus.write_overlay_token(2 * ep.number, 0x08);
    assert_eq!(bus.read(ep), Err(UsbError::Stalled));
    assert!(bus.is_stalled(ep));
    bus.set_stalled(ep, false);
    // the next read re-arms the endpoint
    assert_eq!(bus.read(ep), Err(UsbError::WouldBlock));
    assert!(bus.qh(2 * ep.number).overlay().is_active());
}

#[test]
fn reset_clears_endpoint_configuration() {
    let mut bus = make_bus();
    let ep = bus.alloc_ep(Direction::In, EndpointType::Bulk, 64).unwrap();
    let idx = 2 * ep.number + 1;
    bus.configure();
    bus.set_address(9);
    assert_eq!(bus.write(ep, &[1, 2]), Ok(2));
    assert_eq!(bus.qh(idx).max_packet_len(), 64);
    bus.reset();
    assert_eq!(bus.device_state(), DeviceState::DefaultState);
    assert_eq!(bus.address(), 0);
    assert_eq!(bus.pending_address(), None);
    // the pre-reset QH configuration is gone: capabilities and overlay zeroed
    assert_eq!(bus.qh(idx).capabilities(), 0);
    assert_eq!(bus.qh(idx).max_packet_len(), 0);
    assert!(!bus.qh(idx).overlay().is_active());
    // the old handle is unusable until re-allocation
    assert_eq!(bus.write(ep, &[1, 2]), Err(UsbError::InvalidEndpoint));
    assert!(!bus.is_stalled(ep));
    // re-allocation hands the number out again and re-programs the QH
    let ep2 = bus.alloc_ep(Direction::In, EndpointType::Bulk, 64).unwrap();
    assert_eq!(ep2.number, 1);
    assert_eq!(bus.qh(idx).max_packet_len(), 64);
}

#[test]
fn poll_categorizes_in_priority_order() {
    let mut bus = make_bus();
    assert_eq!(bus.poll(idle_status()), PollResult::NoEvent);
    assert_eq!(bus.device_state(), DeviceState::DefaultState);
    let mut s = idle_status();
    s.reset = true;
    s.usb_interrupt = true;
    assert_eq!(bus.poll(s), PollResult::Reset);
    let mut s = idle_status();
    s.usb_interrupt = true;
    s.ep_out = 0b10;
    assert_eq!(
        bus.poll(s),
        PollResult::Data { ep_out: 0b10, ep_in_complete: 0, ep_setup: 0 }
    );
    let mut s = idle_status();
    s.port_change = true;
    s.suspend = true;
    assert_eq!(bus.poll(s), PollResult::Resume);
    let mut s = idle_status();
    s.suspend = true;
    assert_eq!(bus.poll(s), PollResult::Suspend);
}

#[test]
fn set_address_takes_effect_after_status_stage() {
    let mut bus = make_bus();
    bus.enable();
    let ep0_out = bus.alloc_ep(Direction::Out, EndpointType::Control, 64).unwrap();
    let ep0_in = bus.alloc_ep(Direction::In, EndpointType::Control, 64).unwrap();
    assert_eq!(ep0_out.number, 0);
    assert_eq!(ep0_in.number, 0);

    // host sends SetAddress(5): the controller captures the setup packet
    // into QH 0 and reports it in the setup bitmap
    bus.write_setup(0, 0x0000_0000_0005_0500);
    let mut s = idle_status();
    s.usb_interrupt = true;
    s.ep_setup = 1;
    assert_eq!(
        bus.poll(s),
        PollResult::Data { ep_out: 0, ep_in_complete: 0, ep_setup: 1 }
    );
    let packet = SetupPacket::decode(bus.qh(0).setup());
    assert_eq!(packet.request_type, 0x00);
    assert_eq!(packet.request, 0x05);
    assert_eq!(packet.value, 5);
    assert!(packet.is_set_address());

    // the upper stack assigns the address; it must not take effect yet
    bus.set_address(5);
    assert_eq!(bus.address(), 0);
    assert!(bus.accepts_token(0));
    assert!(!bus.accepts_token(5));

    // zero-length status stage on endpoint 0 IN
    assert_eq!(bus.write(ep0_in, &[]), Ok(0));
    bus.write_overlay_token(1, 0);
    let mut s = idle_status();
    s.usb_interrupt = true;
    s.ep_in_complete = 1;
    assert_eq!(
        bus.poll(s),
        PollResult::Data { ep_out: 0, ep_in_complete: 1, ep_setup: 0 }
    );

    // only now is traffic to address 5 acknowledged, and address 0 ignored
    assert_eq!(bus.address(), 5);
    assert_eq!(bus.pending_address(), None);
    assert_eq!(bus.device_state(), DeviceState::Addressed);
    assert!(bus.accepts_token(5));
    assert!(!bus.accepts_token(0));
}

#[test]
fn suspend_and_resume_toggle_only_the_flag() {
    let mut bus = make_bus();
    bus.set_address(3);
    bus.suspend();
    assert_eq!(bus.pending_address(), Some(3));
    bus.resume();
    assert_eq!(bus.pending_address(), Some(3));
    assert_eq!(bus.address(), 0);
}
