use usbd_core::setup::SetupPacket;

#[test]
fn decode_set_address() {
    // bytes on the wire: 00 05 05 00 00 00 00 00
    let packet = SetupPacket::decode(0x0000_0000_0005_0500);
    assert_eq!(packet.request_type, 0x00);
    assert_eq!(packet.request, 0x05);
    assert_eq!(packet.value, 5);
    assert_eq!(packet.index, 0);
    assert_eq!(packet.length, 0);
    assert!(packet.is_set_address());
}

#[test]
fn decode_get_descriptor() {
    // bytes on the wire: 80 06 00 01 00 00 40 00
    let packet = SetupPacket::decode(0x0040_0000_0100_0680);
    assert_eq!(packet.request_type, 0x80);
    assert_eq!(packet.request, 0x06);
    assert_eq!(packet.value, 0x0100);
    assert_eq!(packet.index, 0);
    assert_eq!(packet.length, 0x40);
    assert!(!packet.is_set_address());
}

#[test]
fn decode_all_ones() {
    let packet = SetupPacket::decode(u64::MAX);
    assert_eq!(packet.request_type, 0xFF);
    assert_eq!(packet.request, 0xFF);
    assert_eq!(packet.value, 0xFFFF);
    assert_eq!(packet.index, 0xFFFF);
    assert_eq!(packet.length, 0xFFFF);
}
