use usbd_core::td::TD;
use usbd_core::td::TransferStatus;
use usbd_core::vcell::VCell;

#[test]
fn vcell_read_write_modify() {
    let mut cell: VCell<u32> = VCell::new(0xFF);
    assert_eq!(cell.read(), 0xFF);
    cell.write(0x1234_5678);
    assert_eq!(cell.read(), 0x1234_5678);
    let mut cell: VCell<u32> = VCell::new(0xFF);
    cell.modify(0x0F, 0, 0xA);
    assert_eq!(cell.read(), 0xFA);
    let mut cell: VCell<u32> = VCell::new(0);
    cell.modify(0x07FF_0000, 16, 0x333);
    assert_eq!(cell.read(), 0x333 << 16);
}

#[test]
fn fresh_td_is_inactive() {
    let td = TD::new();
    assert!(!td.is_active());
    assert!(!td.is_halted());
    assert_eq!(td.token(), 0);
    assert_eq!(td.next_pointer(), 0);
    assert_eq!(td.status(), TransferStatus::Success);
}

#[test]
fn token_fields_compose() {
    let mut td = TD::new();
    td.set_total_bytes(0x123);
    td.set_interrupt_on_complete(true);
    td.set_active();
    assert_eq!(td.total_bytes(), 0x123);
    assert!(td.is_active());
    assert_eq!(td.token(), (0x123 << 16) | 0x8000 | 0x80);
    assert_eq!(td.status(), TransferStatus::Pending);
    td.set_interrupt_on_complete(false);
    assert_eq!(td.token(), (0x123 << 16) | 0x80);
}

#[test]
fn status_decodes_in_priority_order() {
    let mut td = TD::new();
    td.write_token(0x80 | 0x40);
    assert_eq!(td.status(), TransferStatus::Pending);
    td.write_token(0x40 | 0x20 | 0x08);
    assert_eq!(td.status(), TransferStatus::Halted);
    td.write_token(0x20 | 0x08);
    assert_eq!(td.status(), TransferStatus::DataBufferError);
    td.write_token(0x08);
    assert_eq!(td.status(), TransferStatus::TransactionError);
    td.write_token(0);
    assert_eq!(td.status(), TransferStatus::Success);
}

#[test]
fn chaining_and_termination() {
    let mut td = TD::new();
    td.set_next(0x2000_0040);
    assert_eq!(td.next_pointer(), 0x2000_0040);
    td.set_terminate();
    assert_eq!(td.next_pointer(), 1);
}

#[test]
fn buffer_fragments_follow_pages() {
    let mut td = TD::new();
    td.set_buffer(0x2000_0123);
    assert_eq!(td.buffer(0), 0x2000_0123);
    assert_eq!(td.buffer(1), 0x2000_1000);
    assert_eq!(td.buffer(2), 0x2000_2000);
    assert_eq!(td.buffer(3), 0x2000_3000);
    assert_eq!(td.buffer(4), 0x2000_4000);
}
