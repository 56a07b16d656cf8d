use usb_otg::regs::{poll, Access, Register, Registers};
use usb_otg::sim::ScriptedBus;

#[test]
fn scripted_bus_answers_in_order_then_zero() {
    let mut bus = ScriptedBus::new(vec![7, 9]);
    assert_eq!(bus.read(Register::Gintsts), 7);
    bus.write(Register::Gintmsk, 3);
    assert_eq!(bus.pop(), 9);
    assert_eq!(bus.read(Register::Cid), 0);
    assert_eq!(
        bus.log(),
        &vec![
            Access::Read(Register::Gintsts, 7),
            Access::Write(Register::Gintmsk, 3),
            Access::Pop(9),
            Access::Read(Register::Cid, 0),
        ]
    );
}

#[test]
fn poll_stops_at_the_wanted_value() {
    let mut bus = ScriptedBus::new(vec![0, 0, 0x8000_0000, 0]);
    assert!(poll(&mut bus, Register::Grstctl, 0x8000_0000, true, 10));
    assert_eq!(bus.log().len(), 3);
    let mut bus = ScriptedBus::new(vec![]);
    assert!(!poll(&mut bus, Register::Grstctl, 0x8000_0000, true, 10));
    assert_eq!(bus.log().len(), 10);
}
