use usbd_core::qh::QH;
use usbd_core::td::TransferStatus;

#[test]
fn max_packet_len() {
    let mut qh = QH::new();
    qh.set_max_packet_len(0x333);
    assert_eq!(qh.max_packet_len(), 0x333);
    assert_eq!(qh.capabilities(), 0x333 << 16);
}

#[test]
fn ios() {
    let mut qh = QH::new();
    qh.set_interrupt_on_setup(true);
    assert_eq!(qh.capabilities(), 1 << 15);
}

#[test]
fn zlt() {
    let mut qh = QH::new();
    qh.set_zero_length_termination(false);
    assert_eq!(qh.capabilities(), 1 << 29);
}

#[test]
fn max_packet_len_clamps_above_1024() {
    let mut qh = QH::new();
    qh.set_max_packet_len(2000);
    assert_eq!(qh.max_packet_len(), 1024);
    qh.set_max_packet_len(1024);
    assert_eq!(qh.max_packet_len(), 1024);
    qh.set_max_packet_len(1025);
    assert_eq!(qh.max_packet_len(), 1024);
    qh.set_max_packet_len(0);
    assert_eq!(qh.max_packet_len(), 0);
    qh.set_max_packet_len(8);
    assert_eq!(qh.max_packet_len(), 8);
}

#[test]
fn setters_leave_other_bits_alone() {
    let mut qh = QH::new();
    qh.set_max_packet_len(512);
    qh.set_interrupt_on_setup(true);
    qh.set_zero_length_termination(false);
    assert_eq!(qh.capabilities(), (512 << 16) | (1 << 15) | (1 << 29));
    qh.set_interrupt_on_setup(false);
    assert_eq!(qh.capabilities(), (512 << 16) | (1 << 29));
    qh.set_zero_length_termination(true);
    assert_eq!(qh.capabilities(), 512 << 16);
    assert_eq!(qh.max_packet_len(), 512);
}

#[test]
fn fresh_qh_is_zeroed_and_inactive() {
    let qh = QH::new();
    assert_eq!(qh.capabilities(), 0);
    assert_eq!(qh.setup(), 0);
    assert!(!qh.overlay().is_active());
    assert_eq!(qh.overlay().token(), 0);
}

#[test]
fn qh_fits_hardware_stride() {
    assert!(core::mem::size_of::<QH>() <= 64);
}

#[test]
fn setup_buffer_round_trip() {
    let mut qh = QH::new();
    qh.write_setup(0x1122_3344_5566_7788);
    assert_eq!(qh.setup(), 0x1122_3344_5566_7788);
    assert_eq!(qh.capabilities(), 0);
}

#[test]
fn arm_overlay_hands_descriptor_to_hardware() {
    let mut qh = QH::new();
    qh.arm_overlay(256, true);
    let td = qh.overlay();
    assert!(td.is_active());
    assert_eq!(td.total_bytes(), 256);
    assert_eq!(td.token() & 0x8000, 0x8000);
    assert_eq!(td.next_pointer(), 1);
    assert_eq!(td.status(), TransferStatus::Pending);
}
