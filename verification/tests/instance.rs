use usbd_core::instance::UsbInstance;

#[test]
fn controller_taken_once() {
    let mut taken = false;
    assert!(UsbInstance::take(&mut taken).is_some());
    // a second acquisition over the same flag must fail, never alias
    assert!(UsbInstance::take(&mut taken).is_none());
    assert!(UsbInstance::take(&mut taken).is_none());
}
