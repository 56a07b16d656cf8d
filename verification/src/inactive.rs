//! What a bus reset does in the core to the endpoints behind the control
//! endpoint: it takes them out of use, and the end of enumeration leaves
//! them so.

use vstd::prelude::*;
use crate::bits::{any_set, placed};
use crate::endpoints::{
    in_bit, out_bit, state_for_in, state_for_out, type_code, USB_OTG_CORE_ID_300A,
};
use crate::fields::{
    DAINTMSK_IEPM_MASK, DAINTMSK_OEPM_MASK, DCFG_DAD_MASK, DCTL_RWUSIG, EPCTL_EPTYP_MASK,
    EPCTL_EPTYP_SHIFT, EPCTL_MPSIZ0_MASK, EPCTL_MPSIZ_MASK, EPCTL_SD0PID, EPCTL_SNAK, EPCTL_STALL,
    EPCTL_TXFNUM_MASK, EPCTL_TXFNUM_SHIFT, EPCTL_USBAEP, EPINT_ALL_FLAGS, GUSBCFG_TRDT_MASK,
    GUSBCFG_TRDT_SHIFT,
};
use crate::interrupt::{release_mask, RESET_FLUSH_FIFO, RESET_IN_MASK, RESET_OUT_MASK};
use crate::regs::{Access, Register, NUM_ENDPOINTS};
use crate::types::TransferType;
use crate::usbotg::{Model, TURNAROUND_TIME};

verus! {

/// Whether `reg` is the IN or the OUT control register of `endpoint`.
pub open spec fn is_control_of(reg: Register, endpoint: usize) -> bool {
    reg == Register::Diepctl(endpoint) || reg == Register::Doepctl(endpoint)
}

/// Whether an access can change the bit of the endpoint control register
/// `reg` that says that the endpoint is active.
pub open spec fn touches_activity(access: Access, reg: Register) -> bool {
    match access {
        Access::Write(r, _) => r == reg,
        Access::Modify(r, mask, _) => r == reg && mask & EPCTL_USBAEP != 0,
        _ => false,
    }
}

/// Whether an access clears the bit of the endpoint control register `reg`
/// that says that the endpoint is active.
pub open spec fn deactivates(access: Access, reg: Register) -> bool {
    access matches Access::Modify(r, mask, value) && r == reg && mask & EPCTL_USBAEP != 0 && value
        & EPCTL_USBAEP == 0
}

/// Whether the engine has left the endpoint of the control register `reg`
/// inactive in the core: the last access in `log` that could change its
/// active bit is one that clears it.
pub open spec fn left_inactive(log: Seq<Access>, reg: Register) -> bool
    decreases log.len(),
{
    if log.len() == 0 {
        false
    } else if deactivates(log.last(), reg) {
        true
    } else if touches_activity(log.last(), reg) {
        false
    } else {
        left_inactive(log.drop_last(), reg)
    }
}

/// Whether the engine has left `endpoint` inactive in the core, in both
/// directions.
pub open spec fn endpoint_left_inactive(log: Seq<Access>, endpoint: usize) -> bool {
    left_inactive(log, Register::Diepctl(endpoint)) && left_inactive(
        log,
        Register::Doepctl(endpoint),
    )
}

/// Whether the engine has left every endpoint behind the control endpoint
/// inactive in the core, in both directions.
pub open spec fn others_left_inactive(log: Seq<Access>) -> bool {
    forall|i: usize| 1 <= i < NUM_ENDPOINTS ==> #[trigger] endpoint_left_inactive(log, i)
}

/// Whether an access writes to an endpoint control register.
pub open spec fn on_control_register(access: Access) -> bool {
    match access {
        Access::Write(r, _) => r is Diepctl || r is Doepctl,
        Access::Modify(r, _, _) => r is Diepctl || r is Doepctl,
        _ => false,
    }
}

/// An access that cannot change the active bit leaves the endpoint inactive
/// if it was.
proof fn stays_inactive(log: Seq<Access>, access: Access, reg: Register)
    requires
        left_inactive(log, reg),
        !touches_activity(access, reg),
    ensures
        left_inactive(log.push(access), reg),
{
    assert(log.push(access).drop_last() =~= log);
}

/// Releasing endpoint `n` takes it out of use if it is not the control
/// endpoint, and leaves every other endpoint inactive that was.
proof fn release_of_one(m: Model, n: usize, i: usize, reg: Register)
    requires
        is_control_of(reg, i),
    ensures
        i == n && n >= 1 ==> left_inactive(m.release_endpoint(n).bus.log, reg),
        i != n && left_inactive(m.bus.log, reg) ==> left_inactive(
            m.release_endpoint(n).bus.log,
            reg,
        ),
{
    assert((EPCTL_STALL | EPCTL_SNAK | EPCTL_USBAEP) & EPCTL_USBAEP != 0 && EPCTL_SNAK
        & EPCTL_USBAEP == 0) by (bit_vector);
    let a = m.write(Register::Diepint(n), EPINT_ALL_FLAGS);
    let b = a.modify(Register::Diepctl(n), release_mask(n), EPCTL_SNAK);
    let c = b.write(Register::Doepint(n), EPINT_ALL_FLAGS);
    let d = c.modify(Register::Doepctl(n), release_mask(n), EPCTL_SNAK);
    assert(d == m.release_endpoint(n));
    assert(b.bus.log.drop_last() =~= a.bus.log);
    assert(c.bus.log.drop_last() =~= b.bus.log);
    assert(d.bus.log.drop_last() =~= c.bus.log);
    if i != n && left_inactive(m.bus.log, reg) {
        stays_inactive(m.bus.log, a.bus.log.last(), reg);
        stays_inactive(a.bus.log, b.bus.log.last(), reg);
        stays_inactive(b.bus.log, c.bus.log.last(), reg);
        stays_inactive(c.bus.log, d.bus.log.last(), reg);
    }
    if i == n && n >= 1 {
        if reg == Register::Diepctl(n) {
            assert(deactivates(b.bus.log.last(), reg));
            assert(left_inactive(b.bus.log, reg));
            stays_inactive(b.bus.log, c.bus.log.last(), reg);
            stays_inactive(c.bus.log, d.bus.log.last(), reg);
        } else {
            assert(deactivates(d.bus.log.last(), reg));
        }
    }
}

/// Releasing the endpoints from `from` on takes those behind the control
/// endpoint out of use, and leaves the endpoints before `from` inactive that
/// were.
proof fn release_of_all(m: Model, from: nat, i: usize, reg: Register)
    requires
        is_control_of(reg, i),
        1 <= i < NUM_ENDPOINTS,
    ensures
        from <= i ==> left_inactive(m.release_endpoints(from).bus.log, reg),
        i < from && left_inactive(m.bus.log, reg) ==> left_inactive(
            m.release_endpoints(from).bus.log,
            reg,
        ),
    decreases NUM_ENDPOINTS - from,
{
    if from < NUM_ENDPOINTS {
        release_of_one(m, from as usize, i, reg);
        release_of_all(m.release_endpoint(from as usize), from + 1, i, reg);
    }
}

/// Arming the control OUT endpoint leaves an endpoint behind the control
/// endpoint inactive if it was.
proof fn arming_keeps_inactive(m: Model, i: usize, reg: Register)
    requires
        is_control_of(reg, i),
        i >= 1,
        left_inactive(m.bus.log, reg),
    ensures
        left_inactive(m.ep0_out_start().bus.log, reg),
{
    let id = m.read(Register::Cid);
    stays_inactive(m.bus.log, Access::Read(Register::Cid, m.bus.next()), reg);
    let seen = if m.bus.next() > USB_OTG_CORE_ID_300A {
        stays_inactive(id.bus.log, Access::Read(Register::Doepctl(0), id.bus.next()), reg);
        id.read(Register::Doepctl(0))
    } else {
        id
    };
    let cleared = seen.write(Register::Doeptsiz(0), 0);
    stays_inactive(seen.bus.log, Access::Write(Register::Doeptsiz(0), 0), reg);
    let armed = m.ep0_out_start();
    if armed != seen {
        stays_inactive(cleared.bus.log, armed.bus.log.last(), reg);
        assert(armed.bus.log =~= cleared.bus.log.push(armed.bus.log.last()));
    }
}

/// A bus reset takes an endpoint behind the control endpoint out of use.
proof fn bus_reset_deactivates_one(m: Model, i: usize, reg: Register)
    requires
        is_control_of(reg, i),
        1 <= i < NUM_ENDPOINTS,
        m.service_bus_reset().0 is Ok,
    ensures
        left_inactive(m.service_bus_reset().1.bus.log, reg),
{
    let (flushed, f) = m.modify(Register::Dctl, DCTL_RWUSIG, 0).flush_tx_fifo(RESET_FLUSH_FIFO);
    release_of_all(f, 0, i, reg);
    let a = f.release_endpoints(0);
    let b = a.modify(
        Register::Daintmsk,
        DAINTMSK_OEPM_MASK | DAINTMSK_IEPM_MASK,
        out_bit(0) | in_bit(0),
    );
    stays_inactive(a.bus.log, b.bus.log.last(), reg);
    let c = b.modify(Register::Doepmsk, RESET_OUT_MASK, RESET_OUT_MASK);
    stays_inactive(b.bus.log, c.bus.log.last(), reg);
    let d = c.modify(Register::Diepmsk, RESET_IN_MASK, RESET_IN_MASK);
    stays_inactive(c.bus.log, d.bus.log.last(), reg);
    let e = d.modify(Register::Dcfg, DCFG_DAD_MASK, 0);
    stays_inactive(d.bus.log, e.bus.log.last(), reg);
    arming_keeps_inactive(e, i, reg);
    assert(m.service_bus_reset().1.bus == e.ep0_out_start().bus);
}

/// Activating one side of the control endpoint leaves an endpoint behind it
/// inactive if it was.
proof fn control_side_keeps_inactive(m: Model, i: usize, reg: Register)
    requires
        is_control_of(reg, i),
        i >= 1,
        left_inactive(m.bus.log, reg),
    ensures
        left_inactive(m.activate_endpoint_out(TransferType::Control, 0).1.bus.log, reg),
        left_inactive(m.activate_endpoint_in(TransferType::Control, 0).1.bus.log, reg),
{
    let control = TransferType::Control;
    let (out, a) = m.activate_endpoint_out(control, 0);
    if out is Ok {
        let unmasked = m.modify(Register::Daintmsk, out_bit(0), out_bit(0));
        stays_inactive(m.bus.log, unmasked.bus.log.last(), reg);
        let read = unmasked.read(Register::Doepctl(0));
        stays_inactive(unmasked.bus.log, read.bus.log.last(), reg);
        if a.bus != read.bus {
            stays_inactive(read.bus.log, a.bus.log.last(), reg);
            assert(a.bus.log =~= read.bus.log.push(a.bus.log.last()));
        }
    }
    let (inward, b) = m.activate_endpoint_in(control, 0);
    if inward is Ok {
        let unmasked = m.modify(Register::Daintmsk, in_bit(0), in_bit(0));
        stays_inactive(m.bus.log, unmasked.bus.log.last(), reg);
        let read = unmasked.read(Register::Diepctl(0));
        stays_inactive(unmasked.bus.log, read.bus.log.last(), reg);
        if b.bus != read.bus {
            stays_inactive(read.bus.log, b.bus.log.last(), reg);
            assert(b.bus.log =~= read.bus.log.push(b.bus.log.last()));
        }
    }
}

/// The end of enumeration leaves an endpoint behind the control endpoint
/// inactive if it was.
proof fn enumeration_keeps_one_inactive(m: Model, i: usize, reg: Register)
    requires
        is_control_of(reg, i),
        i >= 1,
        left_inactive(m.bus.log, reg),
    ensures
        left_inactive(m.service_enumeration_done().1.bus.log, reg),
{
    let first = m.modify(Register::Diepctl(0), EPCTL_MPSIZ0_MASK, 0);
    stays_inactive(m.bus.log, first.bus.log.last(), reg);
    let readied = m.activate_setup();
    stays_inactive(first.bus.log, readied.bus.log.last(), reg);
    assert(readied.bus.log =~= first.bus.log.push(readied.bus.log.last()));
    let timed = readied.modify(
        Register::Gusbcfg,
        GUSBCFG_TRDT_MASK,
        placed(TURNAROUND_TIME, GUSBCFG_TRDT_MASK, GUSBCFG_TRDT_SHIFT),
    );
    stays_inactive(readied.bus.log, timed.bus.log.last(), reg);
    control_side_keeps_inactive(timed, i, reg);
    let (out, a) = timed.activate_endpoint_out(TransferType::Control, 0);
    if out is Ok {
        control_side_keeps_inactive(a, i, reg);
        let (inward, b) = a.activate_endpoint_in(TransferType::Control, 0);
        if inward is Ok {
            let (result, activated) = timed.usb_reset();
            stays_inactive(b.bus.log, activated.bus.log.last(), reg);
            assert(activated.bus.log =~= b.bus.log.push(activated.bus.log.last()));
            arming_keeps_inactive(activated, i, reg);
        }
    }
}

/// A bus reset takes every endpoint behind the control endpoint out of use
/// in the core: the last that the engine does to the active bit of each of
/// their control registers is to clear it.
pub proof fn bus_reset_deactivates_the_others(m: Model)
    requires
        m.service_bus_reset().0 is Ok,
    ensures
        others_left_inactive(m.service_bus_reset().1.bus.log),
{
    let log = m.service_bus_reset().1.bus.log;
    assert forall|i: usize| 1 <= i < NUM_ENDPOINTS implies #[trigger] endpoint_left_inactive(
        log,
        i,
    ) by {
        bus_reset_deactivates_one(m, i, Register::Diepctl(i));
        bus_reset_deactivates_one(m, i, Register::Doepctl(i));
    }
}

/// The end of enumeration leaves the endpoints behind the control endpoint
/// inactive in the core if they were.
pub proof fn enumeration_keeps_the_others_inactive(m: Model)
    requires
        others_left_inactive(m.bus.log),
    ensures
        others_left_inactive(m.service_enumeration_done().1.bus.log),
{
    let log = m.service_enumeration_done().1.bus.log;
    assert forall|i: usize| 1 <= i < NUM_ENDPOINTS implies #[trigger] endpoint_left_inactive(
        log,
        i,
    ) by {
        assert(endpoint_left_inactive(m.bus.log, i));
        enumeration_keeps_one_inactive(m, i, Register::Diepctl(i));
        enumeration_keeps_one_inactive(m, i, Register::Doepctl(i));
    }
}

/// An access that writes to no endpoint control register leaves the
/// endpoints behind the control endpoint inactive if they were.
pub proof fn others_stay_inactive(log: Seq<Access>, access: Access)
    requires
        others_left_inactive(log),
        !on_control_register(access),
    ensures
        others_left_inactive(log.push(access)),
{
    assert forall|i: usize| 1 <= i < NUM_ENDPOINTS implies #[trigger] endpoint_left_inactive(
        log.push(access),
        i,
    ) by {
        assert(endpoint_left_inactive(log, i));
        stays_inactive(log, access, Register::Diepctl(i));
        stays_inactive(log, access, Register::Doepctl(i));
    }
}

/// Whether an access sets the bit of the endpoint control register `reg` that
/// says that the endpoint is active.
pub open spec fn activates(access: Access, reg: Register) -> bool {
    access matches Access::Modify(r, mask, value) && r == reg && mask & EPCTL_USBAEP != 0 && value
        & EPCTL_USBAEP != 0
}

/// An endpoint behind the control endpoint that the core reports inactive,
/// as it is after a bus reset, comes into use again when its IN side is
/// activated: its interrupt is unmasked, its control register is read, and
/// the core is given its type, its transmit FIFO and data toggle DATA0 and is
/// told that the endpoint is active; the descriptor is no longer disabled.
pub proof fn activation_brings_the_in_side_into_use(
    m: Model,
    transfer_type: TransferType,
    endpoint: usize,
)
    requires
        1 <= endpoint < NUM_ENDPOINTS,
        m.endpoints.len() == NUM_ENDPOINTS,
        m.can_activate(transfer_type, endpoint) is Ok,
        !any_set(m.bus.next(), EPCTL_USBAEP),
    ensures
        ({
            let after = m.activate_endpoint_in(transfer_type, endpoint).1;
            &&& after.bus.log == m.bus.log + seq![
                Access::Modify(Register::Daintmsk, in_bit(endpoint), in_bit(endpoint)),
                Access::Read(Register::Diepctl(endpoint), m.bus.next()),
                Access::Modify(
                    Register::Diepctl(endpoint),
                    EPCTL_MPSIZ_MASK | EPCTL_EPTYP_MASK | EPCTL_TXFNUM_MASK | EPCTL_SD0PID
                        | EPCTL_USBAEP,
                    placed(type_code(transfer_type), EPCTL_EPTYP_MASK, EPCTL_EPTYP_SHIFT) | placed(
                        endpoint as u32,
                        EPCTL_TXFNUM_MASK,
                        EPCTL_TXFNUM_SHIFT,
                    ) | EPCTL_SD0PID | EPCTL_USBAEP,
                ),
            ]
            &&& activates(after.bus.log.last(), Register::Diepctl(endpoint))
            &&& after.endpoints[endpoint as int].state == state_for_in(
                transfer_type,
                m.endpoints[endpoint as int].state,
            )
            &&& !(after.endpoints[endpoint as int].state is Disabled)
        }),
{
    let after = m.activate_endpoint_in(transfer_type, endpoint).1;
    let kind = placed(type_code(transfer_type), EPCTL_EPTYP_MASK, EPCTL_EPTYP_SHIFT);
    let fifo = placed(endpoint as u32, EPCTL_TXFNUM_MASK, EPCTL_TXFNUM_SHIFT);
    assert((EPCTL_MPSIZ_MASK | EPCTL_EPTYP_MASK | EPCTL_TXFNUM_MASK | EPCTL_SD0PID | EPCTL_USBAEP)
        & EPCTL_USBAEP != 0 && (kind | fifo | EPCTL_SD0PID | EPCTL_USBAEP) & EPCTL_USBAEP != 0)
        by (bit_vector);
    assert(after.bus.log =~= m.bus.log + seq![
        Access::Modify(Register::Daintmsk, in_bit(endpoint), in_bit(endpoint)),
        Access::Read(Register::Diepctl(endpoint), m.bus.next()),
        Access::Modify(
            Register::Diepctl(endpoint),
            EPCTL_MPSIZ_MASK | EPCTL_EPTYP_MASK | EPCTL_TXFNUM_MASK | EPCTL_SD0PID | EPCTL_USBAEP,
            kind | fifo | EPCTL_SD0PID | EPCTL_USBAEP,
        ),
    ]);
}

/// The same for the OUT side of an endpoint behind the control endpoint.
pub proof fn activation_brings_the_out_side_into_use(
    m: Model,
    transfer_type: TransferType,
    endpoint: usize,
)
    requires
        1 <= endpoint < NUM_ENDPOINTS,
        m.endpoints.len() == NUM_ENDPOINTS,
        m.can_activate(transfer_type, endpoint) is Ok,
        !any_set(m.bus.next(), EPCTL_USBAEP),
    ensures
        ({
            let after = m.activate_endpoint_out(transfer_type, endpoint).1;
            &&& after.bus.log == m.bus.log + seq![
                Access::Modify(Register::Daintmsk, out_bit(endpoint), out_bit(endpoint)),
                Access::Read(Register::Doepctl(endpoint), m.bus.next()),
                Access::Modify(
                    Register::Doepctl(endpoint),
                    EPCTL_MPSIZ_MASK | EPCTL_EPTYP_MASK | EPCTL_SD0PID | EPCTL_USBAEP,
                    placed(type_code(transfer_type), EPCTL_EPTYP_MASK, EPCTL_EPTYP_SHIFT)
                        | EPCTL_SD0PID | EPCTL_USBAEP,
                ),
            ]
            &&& activates(after.bus.log.last(), Register::Doepctl(endpoint))
            &&& after.endpoints[endpoint as int].state == state_for_out(
                transfer_type,
                m.endpoints[endpoint as int].state,
            )
            &&& !(after.endpoints[endpoint as int].state is Disabled)
        }),
{
    let after = m.activate_endpoint_out(transfer_type, endpoint).1;
    let kind = placed(type_code(transfer_type), EPCTL_EPTYP_MASK, EPCTL_EPTYP_SHIFT);
    assert((EPCTL_MPSIZ_MASK | EPCTL_EPTYP_MASK | EPCTL_SD0PID | EPCTL_USBAEP) & EPCTL_USBAEP != 0
        && (kind | EPCTL_SD0PID | EPCTL_USBAEP) & EPCTL_USBAEP != 0) by (bit_vector);
    assert(after.bus.log =~= m.bus.log + seq![
        Access::Modify(Register::Daintmsk, out_bit(endpoint), out_bit(endpoint)),
        Access::Read(Register::Doepctl(endpoint), m.bus.next()),
        Access::Modify(
            Register::Doepctl(endpoint),
            EPCTL_MPSIZ_MASK | EPCTL_EPTYP_MASK | EPCTL_SD0PID | EPCTL_USBAEP,
            kind | EPCTL_SD0PID | EPCTL_USBAEP,
        ),
    ]);
}

} // verus!
