use usb_otg::bits::{extract, is_set, merge, place};
use usb_otg::setup::{
    decode_rx_status, decode_setup, RxStatus, SetupPacket, STS_DATA_UPDT, STS_SETUP_COMPLETE,
    STS_SETUP_UPDT,
};
use usb_otg::types::Direction;

#[test]
fn fields_are_extracted_and_placed() {
    assert_eq!(extract(0x0000_0750, 0x0000_07F0, 4), 0x75);
    assert_eq!(place(0x75, 0x0000_07F0, 4), 0x0000_0750);
    assert_eq!(place(0xFFFF, 0x0000_07F0, 4), 0x0000_07F0);
    assert_eq!(merge(0xFFFF_FFFF, 0x0000_07F0, 0x0000_0120), 0xFFFF_F92F);
    assert!(is_set(0x8000_0000, 0x8000_0000));
    assert!(!is_set(0x7FFF_FFFF, 0x8000_0000));
}

#[test]
fn setup_packet_is_decoded_field_by_field() {
    let get_descriptor = [0x80u8, 0x06, 0x00, 0x01, 0x00, 0x00, 0x12, 0x00];
    let setup = decode_setup(&get_descriptor).unwrap();
    assert_eq!(
        setup,
        SetupPacket { request_type: 0x80, request: 6, value: 0x0100, index: 0, length: 18 }
    );
    assert_eq!(setup.direction(), Direction::DeviceToHost);
    let set_address = [0x00u8, 0x05, 0x2A, 0x00, 0x00, 0x00, 0x00, 0x00, 0xFF];
    let setup = decode_setup(&set_address).unwrap();
    assert_eq!(setup.value, 42);
    assert_eq!(setup.length, 0);
    assert_eq!(setup.direction(), Direction::HostToDevice);
    let wide = [0x7Fu8, 0xFF, 0xFF, 0xFF, 0x34, 0x12, 0xFF, 0xFF];
    let setup = decode_setup(&wide).unwrap();
    assert_eq!(setup.value, 0xFFFF);
    assert_eq!(setup.index, 0x1234);
    assert_eq!(setup.length, 0xFFFF);
    assert_eq!(setup.direction(), Direction::HostToDevice);
}

#[test]
fn short_setup_packet_is_not_decoded() {
    assert_eq!(decode_setup(&[0x80, 0x06, 0, 1, 0, 0, 0x12]), None);
    assert_eq!(decode_setup(&[]), None);
}

#[test]
fn rx_status_is_decoded_from_its_fields() {
    let word = (STS_SETUP_UPDT << 17) | (8 << 4);
    assert_eq!(decode_rx_status(word), RxStatus { endpoint: 0, byte_count: 8, status: 6 });
    let word = (STS_DATA_UPDT << 17) | (64 << 4) | 3;
    assert_eq!(decode_rx_status(word), RxStatus { endpoint: 3, byte_count: 64, status: 2 });
    let word = STS_SETUP_COMPLETE << 17;
    assert_eq!(decode_rx_status(word), RxStatus { endpoint: 0, byte_count: 0, status: 4 });
    assert_eq!(
        decode_rx_status(u32::MAX),
        RxStatus { endpoint: 15, byte_count: 2047, status: 15 }
    );
}
