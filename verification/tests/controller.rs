use usb_otg::fields::{
    DCFG_DAD_MASK, DCTL_SDIS, EPCTL_EPDIS, EPCTL_EPENA, EPCTL_EPTYP_MASK, EPCTL_MPSIZ0_MASK,
    EPCTL_MPSIZ_MASK, EPCTL_SD0PID, EPCTL_STALL, EPCTL_TXFNUM_MASK, EPCTL_USBAEP, GAHBCFG_GINTMSK,
    GINT_BASELINE, GRSTCTL_AHBIDL, GRSTCTL_CSRST, GRSTCTL_TXFFLSH, PCGCCTL_GATEHCLK,
    PCGCCTL_STPPCLK,
};
use usb_otg::packet::ByteOrder;
use usb_otg::regs::{Access, Register, NUM_ENDPOINTS};
use usb_otg::sim::{ScriptedBus, ScriptedClient};
use usb_otg::types::{
    BulkInState, BulkOutState, CtrlState, DeviceSpeed, Direction, EndpointState, InterruptState,
    TransferType, UsbError, UsbState,
};
use usb_otg::usbotg::{Usbotg, USBD_FS_SPEED, USBD_HS_SPEED, USBD_UNKNOWN_SPEED};

type Usb = Usbotg<ScriptedBus, ScriptedClient>;

fn controller(answers: Vec<u32>) -> Usb {
    Usbotg::with_byte_order(ScriptedBus::new(answers), ByteOrder::Little)
}

fn log(usb: &Usb) -> Vec<Access> {
    usb.registers().log().clone()
}

fn is_power_of_two_at_least_eight(len: usize) -> bool {
    len >= 8 && len.count_ones() == 1
}

#[test]
fn new_controller_is_disabled_and_untouched() {
    let usb = controller(vec![]);
    assert_eq!(usb.get_state(), UsbState::Disabled);
    assert_eq!(usb.address(), 0);
    assert!(usb.client().is_none());
    assert!(!usb.is_enabled_clock());
    assert!(log(&usb).is_empty());
    for endpoint in 0..NUM_ENDPOINTS {
        let descriptor = usb.descriptor(endpoint).unwrap();
        assert!(matches!(descriptor.state(), EndpointState::Disabled));
        assert!(descriptor.slice_in().is_none());
        assert!(descriptor.slice_out().is_none());
        assert_eq!(descriptor.transfer_size(), 0);
        assert_eq!(descriptor.room(Direction::DeviceToHost), 0);
        assert_eq!(descriptor.room(Direction::HostToDevice), 0);
        assert_eq!(descriptor.transfer_direction(), Direction::HostToDevice);
        assert_eq!(descriptor.request_type(), Direction::HostToDevice);
    }
}

#[test]
fn new_controller_takes_the_byte_order_of_the_processor() {
    let usb: Usb = Usbotg::new(ScriptedBus::new(vec![]));
    let expected = if 1u32.to_ne_bytes() == [1, 0, 0, 0] { ByteOrder::Little } else { ByteOrder::Big };
    assert_eq!(usb.byte_order(), expected);
    let word = 0xA1B2_C3D4u32;
    assert_eq!(usb_otg::packet::data_packet_to_bytes(usb.byte_order(), word), word.to_ne_bytes());
}

#[test]
fn clock_gate_is_switched() {
    let mut usb = controller(vec![]);
    usb.enable_clock();
    assert!(usb.is_enabled_clock());
    usb.enable_clock();
    assert!(usb.is_enabled_clock());
    usb.disable_clock();
    assert!(!usb.is_enabled_clock());
    assert!(log(&usb).is_empty());
}

#[test]
fn buffer_lengths_decide_whether_an_endpoint_can_be_activated() {
    for len in [4usize, 8, 15, 16, 32] {
        let ok = is_power_of_two_at_least_eight(len);
        let expected = if ok { Ok(()) } else { Err(UsbError::Configuration) };

        let mut usb = controller(vec![]);
        assert_eq!(usb.endpoint_set_in_buffer(1, vec![0; len]), expected, "length {}", len);
        assert_eq!(usb.endpoint_set_out_buffer(1, vec![0; len]), expected, "length {}", len);
        assert_eq!(usb.activate_endpoint_in(TransferType::Bulk, 1), expected, "length {}", len);
        assert_eq!(usb.activate_endpoint_out(TransferType::Bulk, 1), expected, "length {}", len);
        assert_eq!(usb.descriptor(1).unwrap().slice_in().is_some(), ok);
        assert_eq!(log(&usb).is_empty(), !ok);

        let mut usb = controller(vec![]);
        assert_eq!(usb.endpoint_set_ctrl_buffer(vec![0; len]), expected, "length {}", len);
        assert_eq!(usb.activate_endpoint_in(TransferType::Control, 0), expected, "length {}", len);
        assert_eq!(usb.activate_endpoint_out(TransferType::Control, 0), expected, "length {}", len);
        let room = if ok { len } else { 0 };
        assert_eq!(usb.descriptor(0).unwrap().room(Direction::DeviceToHost), room);
        assert_eq!(usb.descriptor(0).unwrap().room(Direction::HostToDevice), room);
    }
}

#[test]
fn endpoint_needs_both_buffers_to_be_activated() {
    let mut usb = controller(vec![]);
    assert_eq!(usb.endpoint_set_in_buffer(2, vec![0; 64]), Ok(()));
    assert_eq!(usb.activate_endpoint_in(TransferType::Interrupt, 2), Err(UsbError::Configuration));
    assert_eq!(usb.endpoint_set_out_buffer(2, vec![0; 8]), Ok(()));
    assert_eq!(usb.activate_endpoint_in(TransferType::Interrupt, 2), Ok(()));
    assert_eq!(usb.descriptor(2).unwrap().room(Direction::DeviceToHost), 64);
    assert_eq!(usb.descriptor(2).unwrap().room(Direction::HostToDevice), 8);
}

#[test]
fn buffers_are_refused_for_endpoints_that_cannot_take_them() {
    let mut usb = controller(vec![]);
    assert_eq!(usb.endpoint_set_in_buffer(0, vec![0; 64]), Err(UsbError::Configuration));
    assert_eq!(usb.endpoint_set_out_buffer(0, vec![0; 64]), Err(UsbError::Configuration));
    assert_eq!(usb.endpoint_set_in_buffer(6, vec![0; 64]), Err(UsbError::Configuration));
    assert_eq!(usb.endpoint_set_out_buffer(usize::MAX, vec![0; 64]), Err(UsbError::Configuration));
    assert_eq!(usb.endpoint_set_in_buffer(5, vec![0; 64]), Ok(()));
    assert_eq!(usb.endpoint_set_out_buffer(5, vec![0; 64]), Ok(()));
}

#[test]
fn control_buffer_serves_both_directions() {
    let mut usb = controller(vec![]);
    let buffer: Vec<u8> = (0..16).collect();
    assert_eq!(usb.endpoint_set_ctrl_buffer(buffer.clone()), Ok(()));
    assert_eq!(usb.descriptor(0).unwrap().slice_in(), Some(&buffer));
    assert_eq!(usb.descriptor(0).unwrap().slice_out(), Some(&buffer));
}

#[test]
fn activation_is_refused_with_the_right_error() {
    let mut usb = controller(vec![]);
    usb.endpoint_set_in_buffer(1, vec![0; 64]).unwrap();
    usb.endpoint_set_out_buffer(1, vec![0; 64]).unwrap();
    assert_eq!(
        usb.activate_endpoint_in(TransferType::Isochronous, 1),
        Err(UsbError::UnsupportedFeature)
    );
    assert_eq!(
        usb.activate_endpoint_out(TransferType::Isochronous, 1),
        Err(UsbError::UnsupportedFeature)
    );
    assert_eq!(
        usb.endpoint_in_out_enable(TransferType::Isochronous, 1),
        Err(UsbError::UnsupportedFeature)
    );
    assert_eq!(usb.activate_endpoint_in(TransferType::Bulk, 6), Err(UsbError::Configuration));
    assert_eq!(
        usb.activate_endpoint_out(TransferType::Isochronous, 6),
        Err(UsbError::Configuration)
    );
    assert_eq!(usb.activate_endpoint_in(TransferType::Bulk, 2), Err(UsbError::Configuration));
    assert!(matches!(usb.descriptor(1).unwrap().state(), EndpointState::Disabled));
    assert!(log(&usb).is_empty());
}

#[test]
fn activation_programs_an_inactive_endpoint() {
    let mut usb = controller(vec![0, 0]);
    usb.endpoint_set_in_buffer(1, vec![0; 64]).unwrap();
    usb.endpoint_set_out_buffer(1, vec![0; 64]).unwrap();
    assert_eq!(usb.endpoint_in_enable(TransferType::Bulk, 1), Ok(()));
    assert!(matches!(
        usb.descriptor(1).unwrap().state(),
        EndpointState::Bulk(Some(BulkInState::Init), None)
    ));
    assert_eq!(usb.endpoint_out_enable(TransferType::Bulk, 1), Ok(()));
    assert!(matches!(
        usb.descriptor(1).unwrap().state(),
        EndpointState::Bulk(Some(BulkInState::Init), Some(BulkOutState::Init))
    ));
    assert_eq!(
        log(&usb),
        vec![
            Access::Modify(Register::Daintmsk, 0x0000_0002, 0x0000_0002),
            Access::Read(Register::Diepctl(1), 0),
            Access::Modify(
                Register::Diepctl(1),
                EPCTL_MPSIZ_MASK | EPCTL_EPTYP_MASK | EPCTL_TXFNUM_MASK | EPCTL_SD0PID
                    | EPCTL_USBAEP,
                (2 << 18) | (1 << 22) | EPCTL_SD0PID | EPCTL_USBAEP,
            ),
            Access::Modify(Register::Daintmsk, 0x0002_0000, 0x0002_0000),
            Access::Read(Register::Doepctl(1), 0),
            Access::Modify(
                Register::Doepctl(1),
                EPCTL_MPSIZ_MASK | EPCTL_EPTYP_MASK | EPCTL_SD0PID | EPCTL_USBAEP,
                (2 << 18) | EPCTL_SD0PID | EPCTL_USBAEP,
            ),
        ]
    );
}

#[test]
fn activation_leaves_an_active_endpoint_as_it_is() {
    let mut usb = controller(vec![EPCTL_USBAEP, EPCTL_USBAEP]);
    usb.endpoint_set_in_buffer(3, vec![0; 64]).unwrap();
    usb.endpoint_set_out_buffer(3, vec![0; 64]).unwrap();
    assert_eq!(usb.endpoint_in_out_enable(TransferType::Interrupt, 3), Ok(()));
    assert!(matches!(
        usb.descriptor(3).unwrap().state(),
        EndpointState::Interrupt(64, InterruptState::Init)
    ));
    assert_eq!(
        log(&usb),
        vec![
            Access::Modify(Register::Daintmsk, 0x0000_0008, 0x0000_0008),
            Access::Read(Register::Diepctl(3), EPCTL_USBAEP),
            Access::Modify(Register::Daintmsk, 0x0008_0000, 0x0008_0000),
            Access::Read(Register::Doepctl(3), EPCTL_USBAEP),
        ]
    );
}

#[test]
fn control_endpoint_is_a_control_endpoint_whatever_is_asked() {
    let mut usb = controller(vec![]);
    usb.endpoint_set_ctrl_buffer(vec![0; 64]).unwrap();
    assert_eq!(usb.endpoint_in_out_enable(TransferType::Isochronous, 0), Ok(()));
    assert!(matches!(usb.descriptor(0).unwrap().state(), EndpointState::Ctrl(CtrlState::Init)));
    assert_eq!(
        log(&usb),
        vec![
            Access::Modify(Register::Daintmsk, 0x0000_0001, 0x0000_0001),
            Access::Read(Register::Diepctl(0), 0),
            Access::Modify(
                Register::Diepctl(0),
                EPCTL_MPSIZ0_MASK | EPCTL_TXFNUM_MASK | EPCTL_EPENA,
                EPCTL_EPENA,
            ),
            Access::Modify(Register::Daintmsk, 0x0001_0000, 0x0001_0000),
            Access::Read(Register::Doepctl(0), 0),
            Access::Modify(Register::Doepctl(0), EPCTL_EPENA, EPCTL_EPENA),
        ]
    );
}

#[test]
fn descriptors_exist_for_six_endpoints() {
    let usb = controller(vec![]);
    assert!(usb.descriptor(5).is_some());
    assert!(usb.descriptor(6).is_none());
    assert!(usb.descriptor(usize::MAX).is_none());
}

#[test]
fn disabled_endpoint_is_dropped_and_can_be_activated_again() {
    let mut usb = controller(vec![EPCTL_USBAEP, EPCTL_USBAEP, 0]);
    usb.endpoint_set_in_buffer(2, vec![0; 8]).unwrap();
    usb.endpoint_set_out_buffer(2, vec![0; 8]).unwrap();
    usb.endpoint_in_out_enable(TransferType::Bulk, 2).unwrap();
    let before = log(&usb).len();
    assert_eq!(usb.endpoint_disable(2), Ok(()));
    assert!(matches!(usb.descriptor(2).unwrap().state(), EndpointState::Disabled));
    assert!(usb.descriptor(2).unwrap().slice_in().is_some());
    assert_eq!(
        log(&usb)[before..],
        [
            Access::Modify(Register::Daintmsk, 0x0004_0004, 0),
            Access::Modify(
                Register::Diepctl(2),
                EPCTL_USBAEP | EPCTL_EPDIS | 0x0800_0000,
                EPCTL_EPDIS | 0x0800_0000
            ),
            Access::Modify(
                Register::Doepctl(2),
                EPCTL_USBAEP | EPCTL_EPDIS | 0x0800_0000,
                EPCTL_EPDIS | 0x0800_0000
            ),
        ]
    );
    assert_eq!(usb.endpoint_disable(0), Err(UsbError::Configuration));
    assert_eq!(usb.endpoint_disable(6), Err(UsbError::Configuration));
    assert_eq!(log(&usb).len(), before + 3);
    assert_eq!(usb.endpoint_in_enable(TransferType::Interrupt, 2), Ok(()));
    assert!(matches!(
        usb.descriptor(2).unwrap().state(),
        EndpointState::Interrupt(64, InterruptState::Init)
    ));
}

#[test]
fn enable_initializes_the_peripheral() {
    let mut usb = controller(vec![0, 0, GRSTCTL_AHBIDL]);
    usb.endpoint_set_ctrl_buffer(vec![0; 64]).unwrap();
    usb.endpoint_in_out_enable(TransferType::Control, 0).unwrap();
    let before = log(&usb).len();
    assert_eq!(usb.enable(), Ok(()));
    assert_eq!(usb.get_state(), UsbState::Initialized);
    assert!(matches!(usb.descriptor(0).unwrap().state(), EndpointState::Disabled));
    assert!(usb.descriptor(0).unwrap().slice_in().is_some());
    let accesses = log(&usb)[before..].to_vec();
    assert_eq!(accesses[0], Access::Modify(Register::Gahbcfg, GAHBCFG_GINTMSK, 0));
    assert_eq!(accesses[1], Access::Modify(Register::Gusbcfg, 0x40, 0x40));
    assert_eq!(accesses[2], Access::Read(Register::Grstctl, GRSTCTL_AHBIDL));
    assert_eq!(accesses[3], Access::Modify(Register::Grstctl, GRSTCTL_CSRST, GRSTCTL_CSRST));
    assert_eq!(accesses[4], Access::Read(Register::Grstctl, 0));
    assert_eq!(accesses[5], Access::Modify(Register::Gccfg, 0x0001_0000, 0x0001_0000));
    assert_eq!(accesses[6], Access::Modify(Register::Gusbcfg, 0x6000_0000, 0));
    assert_eq!(accesses[7], Access::Modify(Register::Gusbcfg, 0x4000_0000, 0x4000_0000));
    for fifo in 0..6 {
        assert_eq!(accesses[8 + fifo], Access::Write(Register::Dieptxf(fifo), 0));
    }
    let tail = &accesses[accesses.len() - 8..];
    assert_eq!(
        tail,
        &[
            Access::Write(Register::Gintmsk, 0),
            Access::Write(Register::Gintsts, 0xBFFF_FFFF),
            Access::Modify(Register::Gintmsk, GINT_BASELINE, GINT_BASELINE),
            Access::Modify(Register::Pcgcctl, PCGCCTL_STPPCLK | PCGCCTL_GATEHCLK, 0),
            Access::Modify(Register::Dctl, DCTL_SDIS, DCTL_SDIS),
            Access::Write(Register::Grxfsiz, 0x80),
            Access::Modify(Register::Dieptxf(0), 0xFFFF_FFFF, 0x0040_0080),
            Access::Modify(Register::Dieptxf(1), 0xFFFF_FFFF, 0x0080_00C0),
        ]
    );
    assert_eq!(accesses.len(), 85);
}

#[test]
fn enable_stops_endpoints_that_it_finds_enabled() {
    let mut answers = vec![GRSTCTL_AHBIDL, 0, 0, 0];
    answers.extend([EPCTL_EPENA, 0, 0, EPCTL_EPENA]);
    let mut usb = controller(answers);
    assert_eq!(usb.enable(), Ok(()));
    let accesses = log(&usb);
    let at = accesses
        .iter()
        .position(|a| *a == Access::Read(Register::Diepctl(0), EPCTL_EPENA))
        .unwrap();
    assert_eq!(accesses[at + 1], Access::Write(Register::Diepctl(0), 0));
    assert_eq!(accesses[at + 2], Access::Modify(Register::Diepctl(0), 0x0800_0000, 0x0800_0000));
    assert_eq!(accesses[at + 3], Access::Write(Register::Dieptsiz(0), 0));
    assert_eq!(accesses[at + 4], Access::Write(Register::Diepint(0), 0xFB7F));
    assert_eq!(accesses[at + 5], Access::Read(Register::Doepctl(0), 0));
    assert_eq!(accesses[at + 6], Access::Write(Register::Doepctl(0), 0));
    assert_eq!(accesses[at + 7], Access::Write(Register::Doeptsiz(0), 0));
    let at = accesses
        .iter()
        .position(|a| *a == Access::Read(Register::Doepctl(1), EPCTL_EPENA))
        .unwrap();
    assert_eq!(accesses[at + 1], Access::Write(Register::Doepctl(1), 0));
    assert_eq!(
        accesses[at + 2],
        Access::Modify(Register::Doepctl(1), EPCTL_EPDIS | 0x0800_0000, EPCTL_EPDIS | 0x0800_0000)
    );
    assert_eq!(accesses.len(), 87);
}

#[test]
fn enable_twice_initializes_once() {
    let mut usb = controller(vec![GRSTCTL_AHBIDL]);
    assert_eq!(usb.enable(), Ok(()));
    let after_first = log(&usb);
    assert_eq!(usb.enable(), Ok(()));
    assert_eq!(usb.get_state(), UsbState::Initialized);
    assert_eq!(log(&usb), after_first);
    assert_eq!(usb.enable_as_device(DeviceSpeed::Full), Ok(()));
    assert_eq!(log(&usb), after_first);
}

#[test]
fn enable_fails_when_the_core_is_never_idle() {
    let mut usb = controller(vec![]);
    assert_eq!(usb.enable(), Err(UsbError::HardwareTimeout));
    assert_eq!(usb.get_state(), UsbState::Disabled);
    let accesses = log(&usb);
    assert_eq!(accesses.len(), 200_002);
    assert!(accesses[2..].iter().all(|a| *a == Access::Read(Register::Grstctl, 0)));
}

#[test]
fn enable_fails_when_the_reset_never_ends() {
    let mut answers = vec![GRSTCTL_CSRST; 200_001];
    answers[0] = GRSTCTL_AHBIDL;
    let mut usb = controller(answers);
    assert_eq!(usb.enable(), Err(UsbError::HardwareTimeout));
    assert_eq!(usb.get_state(), UsbState::Disabled);
    assert_eq!(log(&usb).len(), 200_004);
}

#[test]
fn enable_fails_when_a_flush_never_ends() {
    let mut answers = vec![GRSTCTL_TXFFLSH; 200_002];
    answers[0] = GRSTCTL_AHBIDL;
    answers[1] = 0;
    let mut usb = controller(answers);
    assert_eq!(usb.enable(), Err(UsbError::HardwareTimeout));
    assert_eq!(usb.get_state(), UsbState::Disabled);
    assert_eq!(usb.enable(), Err(UsbError::HardwareTimeout));
}

#[test]
fn enable_can_be_tried_again_after_a_timeout() {
    let mut answers = vec![0; 200_000];
    answers.push(GRSTCTL_AHBIDL);
    let mut usb = controller(answers);
    assert_eq!(usb.initialization(), Err(UsbError::HardwareTimeout));
    assert_eq!(usb.get_state(), UsbState::Disabled);
    assert_eq!(usb.enable(), Ok(()));
    assert_eq!(usb.get_state(), UsbState::Initialized);
}

#[test]
fn low_speed_is_not_supported() {
    let mut usb = controller(vec![GRSTCTL_AHBIDL]);
    assert_eq!(usb.enable_as_device(DeviceSpeed::Low), Err(UsbError::UnsupportedFeature));
    assert_eq!(usb.get_state(), UsbState::Disabled);
    assert!(log(&usb).is_empty());
    assert_eq!(usb.enable_as_device(DeviceSpeed::Full), Ok(()));
    assert_eq!(usb.get_state(), UsbState::Initialized);
}

#[test]
fn start_connects_and_detach_disconnects() {
    let mut usb = controller(vec![GRSTCTL_AHBIDL]);
    usb.enable().unwrap();
    let before = log(&usb).len();
    usb.attach();
    assert_eq!(usb.get_state(), UsbState::Started);
    assert_eq!(
        log(&usb)[before..],
        [
            Access::Modify(Register::Gahbcfg, GAHBCFG_GINTMSK, GAHBCFG_GINTMSK),
            Access::Modify(Register::Pcgcctl, PCGCCTL_STPPCLK | PCGCCTL_GATEHCLK, 0),
            Access::Modify(Register::Dctl, DCTL_SDIS, 0),
        ]
    );
    let before = log(&usb).len();
    usb.detach();
    assert_eq!(usb.get_state(), UsbState::Initialized);
    assert_eq!(
        log(&usb)[before..],
        [
            Access::Modify(Register::Pcgcctl, PCGCCTL_STPPCLK | PCGCCTL_GATEHCLK, 0),
            Access::Modify(Register::Dctl, DCTL_SDIS, DCTL_SDIS),
            Access::Modify(Register::Gahbcfg, GAHBCFG_GINTMSK, 0),
        ]
    );
    usb.start();
    assert_eq!(usb.get_state(), UsbState::Started);
}

#[test]
fn detach_leaves_a_disabled_controller_disabled() {
    let mut usb = controller(vec![]);
    usb.detach();
    assert_eq!(usb.get_state(), UsbState::Disabled);
    assert_eq!(log(&usb).len(), 3);
}

#[test]
fn stop_device_acknowledges_masks_and_flushes() {
    let mut usb = controller(vec![]);
    assert_eq!(usb.stop_device(), Ok(()));
    let accesses = log(&usb);
    assert_eq!(accesses[0], Access::Write(Register::Diepint(0), 0xFB7F));
    assert_eq!(accesses[1], Access::Write(Register::Doepint(0), 0xFB7F));
    assert_eq!(accesses[11], Access::Write(Register::Doepint(5), 0xFB7F));
    assert_eq!(
        accesses[12..],
        [
            Access::Write(Register::Diepmsk, 0),
            Access::Write(Register::Doepmsk, 0),
            Access::Write(Register::Daintmsk, 0),
            Access::Write(Register::Grstctl, 0),
            Access::Modify(Register::Grstctl, 0x10, 0x10),
            Access::Read(Register::Grstctl, 0),
            Access::Write(Register::Grstctl, 0),
            Access::Modify(Register::Grstctl, 0x20 | 0x7C0, 0x20 | (0x10 << 6)),
            Access::Read(Register::Grstctl, 0),
        ]
    );
    let mut usb = controller(vec![0x10; 200_000]);
    assert_eq!(usb.stop_device(), Err(UsbError::HardwareTimeout));
}

#[test]
fn address_is_staged_and_written() {
    let mut usb = controller(vec![]);
    usb.set_address(42);
    usb.enable_address();
    assert_eq!(usb.address(), 42);
    assert_eq!(
        log(&usb),
        vec![
            Access::Modify(Register::Dcfg, DCFG_DAD_MASK, 0),
            Access::Modify(Register::Dcfg, DCFG_DAD_MASK, 42 << 4),
        ]
    );
    usb.set_address(0x1FF);
    assert_eq!(usb.address(), 0x1FF);
    assert_eq!(log(&usb)[3], Access::Modify(Register::Dcfg, DCFG_DAD_MASK, 0x7F << 4));
}

#[test]
fn device_speed_is_read_from_the_status() {
    let mut usb = controller(vec![0 << 1, 1 << 1, 3 << 1, 2 << 1, 0xFFFF_FFF9]);
    assert_eq!(usb.get_device_speed(), USBD_HS_SPEED);
    assert_eq!(usb.get_device_speed(), USBD_FS_SPEED);
    assert_eq!(usb.get_device_speed(), USBD_FS_SPEED);
    assert_eq!(usb.get_device_speed(), USBD_UNKNOWN_SPEED);
    assert_eq!(usb.get_device_speed(), USBD_HS_SPEED);
    assert_eq!(log(&usb).len(), 5);
}

#[test]
fn mode_is_read_from_the_interrupt_status() {
    let mut usb = controller(vec![0xFFFF_FFFE, 0x0000_0001]);
    assert_eq!(usb.get_mode(), 0);
    assert_eq!(usb.get_mode(), 1);
    assert_eq!(log(&usb)[1], Access::Read(Register::Gintsts, 1));
}

#[test]
fn stall_is_set_and_cleared() {
    let mut usb = controller(vec![0, EPCTL_EPENA, 3 << 18, 0, 2 << 18]);
    assert_eq!(usb.ep_set_stall_in(0), Ok(()));
    assert_eq!(usb.ep_set_stall_out(0), Ok(()));
    assert_eq!(usb.ep_set_stall_in(2), Ok(()));
    assert_eq!(usb.ep_set_stall_out(2), Ok(()));
    assert_eq!(usb.ep_clear_stall_in(0), Ok(()));
    assert_eq!(usb.ep_clear_stall_out(0), Ok(()));
    assert_eq!(usb.ep_clear_stall_in(2), Ok(()));
    assert_eq!(usb.ep_clear_stall_out(2), Ok(()));
    assert_eq!(usb.ep_clear_stall_in(5), Ok(()));
    assert_eq!(usb.ep_set_stall_in(6), Err(UsbError::Configuration));
    assert_eq!(usb.ep_set_stall_out(6), Err(UsbError::Configuration));
    assert_eq!(usb.ep_clear_stall_in(6), Err(UsbError::Configuration));
    assert_eq!(usb.ep_clear_stall_out(usize::MAX), Err(UsbError::Configuration));
    usb.endpoint_resume_in(2);
    usb.endpoint_resume_out(2);
    assert_eq!(
        log(&usb),
        vec![
            Access::Modify(Register::Diepctl(0), EPCTL_STALL, EPCTL_STALL),
            Access::Modify(Register::Doepctl(0), EPCTL_STALL, EPCTL_STALL),
            Access::Read(Register::Diepctl(2), 0),
            Access::Modify(Register::Diepctl(2), EPCTL_EPDIS, 0),
            Access::Modify(Register::Diepctl(2), EPCTL_STALL, EPCTL_STALL),
            Access::Read(Register::Doepctl(2), EPCTL_EPENA),
            Access::Modify(Register::Doepctl(2), EPCTL_STALL, EPCTL_STALL),
            Access::Modify(Register::Diepctl(0), EPCTL_STALL, 0),
            Access::Modify(Register::Doepctl(0), EPCTL_STALL, 0),
            Access::Modify(Register::Diepctl(2), EPCTL_STALL, 0),
            Access::Read(Register::Diepctl(2), 3 << 18),
            Access::Modify(Register::Diepctl(2), EPCTL_SD0PID, EPCTL_SD0PID),
            Access::Modify(Register::Doepctl(2), EPCTL_STALL, 0),
            Access::Read(Register::Doepctl(2), 0),
            Access::Modify(Register::Diepctl(5), EPCTL_STALL, 0),
            Access::Read(Register::Diepctl(5), 2 << 18),
            Access::Modify(Register::Diepctl(5), EPCTL_SD0PID, EPCTL_SD0PID),
        ]
    );
}
