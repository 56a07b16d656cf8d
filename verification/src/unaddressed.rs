//! What a bus reset and the end of enumeration do to the device address and
//! to the endpoints behind the control endpoint.

use vstd::prelude::*;
use crate::bits::{any_set, placed};
use crate::endpoints::{in_bit, out_bit, USB_OTG_CORE_ID_300A};
use crate::fields::{
    DAINTMSK_IEPM_MASK, DAINTMSK_OEPM_MASK, DCFG_DAD_MASK, DCFG_DSPD_MASK, DCTL_CGINAK,
    DCTL_RWUSIG, EPCTL_MPSIZ0_MASK, GINT_CMOD, GINT_ENUMDNE, GINT_USBRST, GUSBCFG_TRDT_MASK,
    GUSBCFG_TRDT_SHIFT,
};
use crate::inactive::{
    bus_reset_deactivates_the_others, enumeration_keeps_the_others_inactive, others_left_inactive,
    others_stay_inactive,
};
use crate::interrupt::{
    bus_reset_keeps_invariant, Interrupt, RESET_FLUSH_FIFO, RESET_IN_MASK, RESET_OUT_MASK,
};
use crate::order::{interrupts_pending, lone_source_is_served_alone};
use crate::regs::{Access, Register, NUM_ENDPOINTS};
use crate::types::TransferType;
use crate::usbotg::{Model, TURNAROUND_TIME};

verus! {

/// Whether an access can change the address field of the device
/// configuration.
pub open spec fn touches_address(access: Access) -> bool {
    match access {
        Access::Write(Register::Dcfg, _) => true,
        Access::Modify(Register::Dcfg, mask, _) => mask & DCFG_DAD_MASK != 0,
        _ => false,
    }
}

/// The access that sets the address field of the device configuration to 0.
pub open spec fn address_clearing() -> Access {
    Access::Modify(Register::Dcfg, DCFG_DAD_MASK, 0)
}

/// Whether the engine has left the address field of the device configuration
/// at 0: the last access in `log` that could change it is the one that
/// clears it.
pub open spec fn address_left_zero(log: Seq<Access>) -> bool
    decreases log.len(),
{
    if log.len() == 0 {
        false
    } else if log.last() == address_clearing() {
        true
    } else if touches_address(log.last()) {
        false
    } else {
        address_left_zero(log.drop_last())
    }
}

/// An access that cannot change the address field leaves it at 0 if it was.
proof fn address_stays_zero(log: Seq<Access>, access: Access)
    requires
        address_left_zero(log),
        !touches_address(access),
    ensures
        address_left_zero(log.push(access)),
{
    assert(log.push(access).drop_last() =~= log);
}

/// Arming the control OUT endpoint leaves the address field at 0 if it was.
proof fn arming_keeps_address(m: Model)
    requires
        address_left_zero(m.bus.log),
    ensures
        address_left_zero(m.ep0_out_start().bus.log),
        m.ep0_out_start() == m.with_bus(m.ep0_out_start().bus),
{
    let id = m.read(Register::Cid);
    address_stays_zero(m.bus.log, Access::Read(Register::Cid, m.bus.next()));
    let seen = if m.bus.next() > USB_OTG_CORE_ID_300A {
        address_stays_zero(id.bus.log, Access::Read(Register::Doepctl(0), id.bus.next()));
        id.read(Register::Doepctl(0))
    } else {
        id
    };
    let cleared = seen.write(Register::Doeptsiz(0), 0);
    address_stays_zero(seen.bus.log, Access::Write(Register::Doeptsiz(0), 0));
    let armed = m.ep0_out_start();
    if armed != seen {
        address_stays_zero(cleared.bus.log, armed.bus.log.last());
        assert(armed.bus.log =~= cleared.bus.log.push(armed.bus.log.last()));
    }
}

/// Activating the control endpoint leaves the address field at 0 if it was,
/// and changes no descriptor but that of endpoint 0.
proof fn control_activation_keeps_address(m: Model)
    requires
        m.wf(),
        address_left_zero(m.bus.log),
    ensures
        address_left_zero(m.usb_reset().1.bus.log),
        m.usb_reset().1.addr == m.addr,
        m.usb_reset().1.endpoints.len() == m.endpoints.len(),
        forall|i: int| 1 <= i < NUM_ENDPOINTS ==> m.usb_reset().1.endpoints[i] == m.endpoints[i],
{
    let control = TransferType::Control;
    let (out, a) = m.activate_endpoint_out(control, 0);
    if out is Ok {
        let unmasked = m.modify(
            Register::Daintmsk,
            out_bit(0),
            out_bit(0),
        );
        address_stays_zero(m.bus.log, unmasked.bus.log.last());
        let read = unmasked.read(Register::Doepctl(0));
        address_stays_zero(unmasked.bus.log, read.bus.log.last());
        if a.bus != read.bus {
            address_stays_zero(read.bus.log, a.bus.log.last());
            assert(a.bus.log =~= read.bus.log.push(a.bus.log.last()));
        }
        let (inward, b) = a.activate_endpoint_in(control, 0);
        if inward is Ok {
            let unmasked = a.modify(
                Register::Daintmsk,
                in_bit(0),
                in_bit(0),
            );
            address_stays_zero(a.bus.log, unmasked.bus.log.last());
            let read = unmasked.read(Register::Diepctl(0));
            address_stays_zero(unmasked.bus.log, read.bus.log.last());
            if b.bus != read.bus {
                address_stays_zero(read.bus.log, b.bus.log.last());
                assert(b.bus.log =~= read.bus.log.push(b.bus.log.last()));
            }
            assert(DCFG_DSPD_MASK & DCFG_DAD_MASK == 0) by (bit_vector);
            address_stays_zero(b.bus.log, m.usb_reset().1.bus.log.last());
            assert(m.usb_reset().1.bus.log =~= b.bus.log.push(m.usb_reset().1.bus.log.last()));
        }
    }
}

/// A bus reset leaves the device unaddressed and every endpoint but the
/// control endpoint disabled, in its descriptor and in the core.
pub proof fn bus_reset_unaddresses_the_device(m: Model)
    requires
        m.wf(),
        m.service_bus_reset().0 is Ok,
    ensures
        m.service_bus_reset().1.wf(),
        m.service_bus_reset().1.addr == 0,
        address_left_zero(m.service_bus_reset().1.bus.log),
        others_left_inactive(m.service_bus_reset().1.bus.log),
        forall|i: int|
            1 <= i < NUM_ENDPOINTS ==> (#[trigger] m.service_bus_reset().1.endpoints[i]).state
                is Disabled,
{
    bus_reset_deactivates_the_others(m);
    let (flushed, f) = m.modify(Register::Dctl, DCTL_RWUSIG, 0).flush_tx_fifo(RESET_FLUSH_FIFO);
    let unaddressed = f.release_endpoints(0).modify(
        Register::Daintmsk,
        DAINTMSK_OEPM_MASK | DAINTMSK_IEPM_MASK,
        out_bit(0) | in_bit(0),
    ).modify(Register::Doepmsk, RESET_OUT_MASK, RESET_OUT_MASK).modify(
        Register::Diepmsk,
        RESET_IN_MASK,
        RESET_IN_MASK,
    ).modify(Register::Dcfg, DCFG_DAD_MASK, 0);
    assert(unaddressed.bus.log.last() == address_clearing());
    arming_keeps_address(unaddressed);
    let reset = m.service_bus_reset().1;
    assert(reset.bus == unaddressed.ep0_out_start().bus);
    bus_reset_keeps_invariant(m);
}

/// The end of enumeration leaves the address where it is, in the controller
/// and in the device configuration, changes no descriptor but that of the
/// control endpoint, and leaves the endpoints behind it inactive in the core
/// if they were.
pub proof fn enumeration_keeps_the_address(m: Model)
    requires
        m.wf(),
        address_left_zero(m.bus.log),
    ensures
        address_left_zero(m.service_enumeration_done().1.bus.log),
        m.service_enumeration_done().1.addr == m.addr,
        others_left_inactive(m.bus.log) ==> others_left_inactive(
            m.service_enumeration_done().1.bus.log,
        ),
        forall|i: int|
            1 <= i < NUM_ENDPOINTS ==> (#[trigger] m.service_enumeration_done().1.endpoints[i])
                == m.endpoints[i],
{
    if others_left_inactive(m.bus.log) {
        enumeration_keeps_the_others_inactive(m);
    }
    let readied = m.activate_setup();
    address_stays_zero(m.bus.log, Access::Modify(Register::Diepctl(0), EPCTL_MPSIZ0_MASK, 0));
    address_stays_zero(
        m.bus.log.push(Access::Modify(Register::Diepctl(0), EPCTL_MPSIZ0_MASK, 0)),
        Access::Modify(Register::Dctl, DCTL_CGINAK, DCTL_CGINAK),
    );
    let timed = readied.modify(
        Register::Gusbcfg,
        GUSBCFG_TRDT_MASK,
        placed(TURNAROUND_TIME, GUSBCFG_TRDT_MASK, GUSBCFG_TRDT_SHIFT),
    );
    address_stays_zero(readied.bus.log, timed.bus.log.last());
    control_activation_keeps_address(timed);
    let (result, activated) = timed.usb_reset();
    if result is Ok {
        arming_keeps_address(activated);
    }
}

/// After a bus reset and the end of enumeration that follows it, the device
/// address is 0, in the controller and in the device configuration, and
/// every endpoint but the control endpoint is disabled, in its descriptor and
/// in the core.
pub proof fn reset_and_enumeration_leave_the_device_unaddressed(m: Model)
    requires
        m.wf(),
        m.service_bus_reset().0 is Ok,
    ensures
        ({
            let reset = m.service_bus_reset().1;
            let done = reset.service_enumeration_done().1;
            &&& reset.addr == 0 && done.addr == 0
            &&& address_left_zero(reset.bus.log) && address_left_zero(done.bus.log)
            &&& others_left_inactive(reset.bus.log) && others_left_inactive(done.bus.log)
            &&& forall|i: int|
                1 <= i < NUM_ENDPOINTS ==> reset.endpoints[i].state is Disabled
                    && done.endpoints[i].state is Disabled
        }),
{
    bus_reset_unaddresses_the_device(m);
    enumeration_keeps_the_address(m.service_bus_reset().1);
}

/// An interrupt that finds only a bus reset pending, and serves it well,
/// leaves the device unaddressed and every endpoint but the control endpoint
/// disabled, in its descriptor and in the core.
pub proof fn bus_reset_interrupt_unaddresses_the_device(m: Model)
    requires
        m.wf(),
        !any_set(m.bus.next(), GINT_CMOD),
        interrupts_pending(m) == GINT_USBRST,
        m.handle_interrupt().0 is Ok,
    ensures
        m.handle_interrupt().1.wf(),
        m.handle_interrupt().1.addr == 0,
        address_left_zero(m.handle_interrupt().1.bus.log),
        others_left_inactive(m.handle_interrupt().1.bus.log),
        forall|i: int|
            1 <= i < NUM_ENDPOINTS ==> (#[trigger] m.handle_interrupt().1.endpoints[i]).state
                is Disabled,
{
    lone_source_is_served_alone(m, 7);
    assert(any_set(GINT_USBRST, GINT_USBRST)) by (bit_vector);
    let begun = m.read(Register::Gintsts).read(Register::Gintmsk);
    assert forall|i: int| 0 <= i < NUM_ENDPOINTS implies (#[trigger] begun.endpoints[i]).wf() by {
        assert(m.endpoints[i].wf());
    }
    let served = begun.service_bus_reset().1;
    assert(begun.service(Interrupt::BusReset) == begun.service_bus_reset());
    bus_reset_unaddresses_the_device(begun);
    address_stays_zero(served.bus.log, Access::Write(Register::Gintsts, GINT_USBRST));
    others_stay_inactive(served.bus.log, Access::Write(Register::Gintsts, GINT_USBRST));
    let reset = served.write(Register::Gintsts, GINT_USBRST);
    assert(m.handle_interrupt().1 == reset);
    assert forall|i: int| 0 <= i < NUM_ENDPOINTS implies (#[trigger] reset.endpoints[i]).wf() by {
        assert(served.endpoints[i].wf());
    }
}

/// An interrupt that finds only the end of enumeration pending leaves the
/// address where it is, in the controller and in the device configuration,
/// changes no descriptor but that of the control endpoint, and leaves the
/// endpoints behind it inactive in the core if they were.
pub proof fn enumeration_interrupt_keeps_the_address(m: Model)
    requires
        m.wf(),
        !any_set(m.bus.next(), GINT_CMOD),
        interrupts_pending(m) == GINT_ENUMDNE,
        address_left_zero(m.bus.log),
    ensures
        address_left_zero(m.handle_interrupt().1.bus.log),
        m.handle_interrupt().1.addr == m.addr,
        others_left_inactive(m.bus.log) ==> others_left_inactive(m.handle_interrupt().1.bus.log),
        forall|i: int|
            1 <= i < NUM_ENDPOINTS ==> (#[trigger] m.handle_interrupt().1.endpoints[i])
                == m.endpoints[i],
{
    lone_source_is_served_alone(m, 8);
    assert(any_set(GINT_ENUMDNE, GINT_ENUMDNE)) by (bit_vector);
    let status = m.read(Register::Gintsts);
    address_stays_zero(m.bus.log, Access::Read(Register::Gintsts, m.bus.next()));
    let begun = status.read(Register::Gintmsk);
    address_stays_zero(status.bus.log, Access::Read(Register::Gintmsk, status.bus.next()));
    if others_left_inactive(m.bus.log) {
        others_stay_inactive(m.bus.log, Access::Read(Register::Gintsts, m.bus.next()));
        others_stay_inactive(status.bus.log, Access::Read(Register::Gintmsk, status.bus.next()));
    }
    assert forall|i: int| 0 <= i < NUM_ENDPOINTS implies (#[trigger] begun.endpoints[i]).wf() by {
        assert(m.endpoints[i].wf());
    }
    enumeration_keeps_the_address(begun);
    let (result, enumerated) = begun.service_enumeration_done();
    assert(begun.service(Interrupt::EnumerationDone) == begun.service_enumeration_done());
    address_stays_zero(enumerated.bus.log, Access::Write(Register::Gintsts, GINT_ENUMDNE));
    if others_left_inactive(m.bus.log) {
        others_stay_inactive(enumerated.bus.log, Access::Write(Register::Gintsts, GINT_ENUMDNE));
    }
    assert forall|i: int| 1 <= i < NUM_ENDPOINTS implies (#[trigger] m.handle_interrupt().1.endpoints[
        i
    ]) == m.endpoints[i] by {
        assert(enumerated.endpoints[i] == begun.endpoints[i]);
    }
}

/// A bus-reset interrupt followed by an enumeration-done interrupt leaves
/// the device address at 0, in the controller and in the device
/// configuration, and every endpoint but the control endpoint disabled, in
/// its descriptor and in the core.
pub proof fn reset_and_enumeration_interrupts_leave_the_device_unaddressed(m: Model)
    requires
        m.wf(),
        !any_set(m.bus.next(), GINT_CMOD),
        interrupts_pending(m) == GINT_USBRST,
        m.handle_interrupt().0 is Ok,
        !any_set(m.handle_interrupt().1.bus.next(), GINT_CMOD),
        interrupts_pending(m.handle_interrupt().1) == GINT_ENUMDNE,
    ensures
        ({
            let reset = m.handle_interrupt().1;
            let done = reset.handle_interrupt().1;
            &&& reset.addr == 0 && done.addr == 0
            &&& address_left_zero(reset.bus.log) && address_left_zero(done.bus.log)
            &&& others_left_inactive(reset.bus.log) && others_left_inactive(done.bus.log)
            &&& forall|i: int|
                1 <= i < NUM_ENDPOINTS ==> reset.endpoints[i].state is Disabled
                    && done.endpoints[i].state is Disabled
        }),
{
    bus_reset_interrupt_unaddresses_the_device(m);
    enumeration_interrupt_keeps_the_address(m.handle_interrupt().1);
}

} // verus!
