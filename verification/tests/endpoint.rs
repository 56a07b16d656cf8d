use usb_otg::endpoint::{check_buffer_len, Endpoint};
use usb_otg::endpoints::ep_type;
use usb_otg::types::{Direction, EndpointState, TransferType};

#[test]
fn new_endpoint_is_disabled_and_has_no_buffers() {
    let endpoint = Endpoint::new();
    assert!(matches!(endpoint.state(), EndpointState::Disabled));
    assert!(endpoint.slice_in().is_none());
    assert!(endpoint.slice_out().is_none());
    assert_eq!(endpoint.transfer_size(), 0);
    assert_eq!(endpoint.room(Direction::DeviceToHost), 0);
    assert_eq!(endpoint.room(Direction::HostToDevice), 0);
    assert_eq!(endpoint.transfer_direction(), Direction::HostToDevice);
    assert_eq!(endpoint.request_type(), Direction::HostToDevice);
}

#[test]
fn buffer_length_must_be_a_power_of_two_from_eight_on() {
    for (len, ok) in [(4usize, false), (8, true), (15, false), (16, true), (32, true)] {
        assert_eq!(check_buffer_len(len), ok, "length {}", len);
    }
    assert!(!check_buffer_len(0));
    assert!(!check_buffer_len(1));
    assert!(!check_buffer_len(2));
    assert!(!check_buffer_len(7));
    assert!(!check_buffer_len(9));
    assert!(check_buffer_len(64));
    assert!(check_buffer_len(1 << 20));
    assert!(!check_buffer_len((1 << 20) + 8));
    assert!(!check_buffer_len(usize::MAX));
    assert!(check_buffer_len(usize::MAX / 2 + 1));
}

#[test]
fn transfer_types_have_their_codes() {
    assert_eq!(ep_type(TransferType::Control), 0);
    assert_eq!(ep_type(TransferType::Isochronous), 1);
    assert_eq!(ep_type(TransferType::Bulk), 2);
    assert_eq!(ep_type(TransferType::Interrupt), 3);
}
