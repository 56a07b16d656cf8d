//! What serving interrupts leaves as it was: the engine adds accesses and
//! callbacks to what it has done, and changes neither its lifecycle state nor
//! the partition of the FIFO memory.

use vstd::prelude::*;
use crate::bits::{any_set, placed};
use crate::client::{Callback, filled};
use crate::control::{InStep, in_step, state_after_in};
use crate::endpoint::EndpointModel;
use crate::endpoints::{in_bit, out_bit, USB_OTG_CORE_ID_300A};
use crate::fields::{
    DAINTMSK_IEPM_MASK, DAINTMSK_OEPM_MASK, DCFG_DAD_MASK, DCTL_RWUSIG, DIEPEMPMSK_MASK,
    DIEPINT_EPDISD, DIEPINT_INEPNE, DIEPINT_ITTXFE, DIEPINT_TOC, DIEPINT_XFRC, DOEPINT_NAK,
    DOEPINT_OTEPDIS, DOEPINT_STSPHSRX, DOEPINT_STUP, DOEPINT_XFRC, GINT_RXFLVL, GRSTCTL_TXFFLSH,
    GRSTCTL_TXFNUM_MASK, GRSTCTL_TXFNUM_SHIFT, GUSBCFG_TRDT_MASK, GUSBCFG_TRDT_SHIFT,
};
use crate::interrupt::{Interrupt, RESET_FLUSH_FIFO, RESET_IN_MASK, RESET_OUT_MASK, SOURCES};
use crate::lifecycle::RETRY_CEILING;
use crate::regs::{Bus, Register, polled, NUM_ENDPOINTS};
use crate::setup::RxStatus;
use crate::types::{Direction, CtrlState, EndpointState, TransferType};
use crate::usbotg::{Model, TURNAROUND_TIME};

verus! {

/// Whether `log` is `start` with more behind it.
pub open spec fn begins_with<A>(log: Seq<A>, start: Seq<A>) -> bool {
    &&& start.len() <= log.len()
    &&& forall|i: int| 0 <= i < start.len() ==> #[trigger] log[i] == start[i]
}

impl Bus {
    /// Whether this model is `earlier` after more accesses: what was logged is
    /// still there, oldest first, and the device answers as it did.
    pub open spec fn follows(self, earlier: Bus) -> bool {
        &&& self.answers == earlier.answers
        &&& self.clock == earlier.clock
        &&& self.served >= earlier.served
        &&& begins_with(self.log, earlier.log)
    }
}

impl Model {
    /// Whether this model is `earlier` after interrupts were served: the
    /// accesses and the callbacks that were made are still there, oldest
    /// first, with more behind them; the lifecycle state, the byte order and
    /// the partition of the FIFO memory are what they were; a client is set
    /// now if and only if one was; and no endpoint behind the control
    /// endpoint has come into use.
    pub open spec fn follows(self, earlier: Model) -> bool {
        &&& self.state == earlier.state
        &&& self.order == earlier.order
        &&& self.fifo == earlier.fifo
        &&& self.bus.follows(earlier.bus)
        &&& self.client is Some <==> earlier.client is Some
        &&& earlier.client matches Some(c) ==> begins_with(self.client->Some_0.calls, c.calls)
            && c.replies == self.client->Some_0.replies
        &&& earlier.endpoints.len() == NUM_ENDPOINTS ==> self.stays_disabled_after(earlier)
    }

    /// Whether this model has a descriptor for each endpoint, and has every
    /// endpoint behind the control endpoint disabled that was disabled in
    /// `earlier`.
    pub open spec fn stays_disabled_after(self, earlier: Model) -> bool {
        &&& self.endpoints.len() == NUM_ENDPOINTS
        &&& forall|i: int|
            1 <= i < NUM_ENDPOINTS && (#[trigger] earlier.endpoints[i]).state is Disabled
                ==> self.endpoints[i].state is Disabled
    }
}

/// What holds from one interrupt to the next holds across any number of
/// them: a model that follows a later one follows every earlier one.
pub proof fn follows_is_transitive(a: Model, b: Model, c: Model)
    requires
        b.follows(a),
        c.follows(b),
    ensures
        c.follows(a),
{
}

proof fn polled_follows(bus: Bus, reg: Register, mask: u32, want: bool, budget: nat)
    ensures
        polled(bus, reg, mask, want, budget).1.follows(bus),
    decreases budget,
{
    if budget > 0 && (bus.next() & mask != 0) != want {
        polled_follows(bus.read(reg), reg, mask, want, (budget - 1) as nat);
    }
}

proof fn flush_follows(m: Model, num: u32)
    ensures
        m.flush_tx_fifo(num).1.follows(m),
{
    let asked = m.write(Register::Grstctl, 0).modify(
        Register::Grstctl,
        GRSTCTL_TXFFLSH | GRSTCTL_TXFNUM_MASK,
        GRSTCTL_TXFFLSH | placed(
            num,
            GRSTCTL_TXFNUM_MASK,
            GRSTCTL_TXFNUM_SHIFT,
        ),
    );
    polled_follows(
        asked.bus,
        Register::Grstctl,
        GRSTCTL_TXFFLSH,
        false,
        RETRY_CEILING as nat,
    );
}

proof fn read_packet_follows(m: Model, endpoint: usize, len: u32)
    ensures
        m.read_packet(endpoint, len).1.follows(m),
{
}

proof fn write_packet_follows(m: Model, endpoint: usize, len: usize)
    ensures
        m.write_packet(endpoint, len).1.follows(m),
{
}

proof fn take_packet_follows(m: Model, status: RxStatus)
    ensures
        m.take_packet(status).follows(m),
{
    read_packet_follows(m, status.endpoint, status.byte_count);
}

/// Serving the receive FIFO only adds to what was done.
pub proof fn rx_fifo_only_adds(m: Model)
    ensures
        m.service_rx_fifo().follows(m),
{
    let masked = m.modify(Register::Gintmsk, GINT_RXFLVL, 0);
    let popped = masked.read(Register::Grxstsp);
    take_packet_follows(popped, RxStatus::of(masked.bus.next()));
}

proof fn complete_follows(m: Model)
    ensures
        m.complete_ctrl_status().follows(m),
{
}

proof fn start_in_follows(m: Model)
    ensures
        m.ep_0_start_transfer_in().follows(m),
{
}

proof fn ctrl_in_follows(m: Model)
    ensures
        m.ctrl_in().follows(m),
{
    if m.serves_control() {
        let e = m.endpoints[0];
        let reply = m.reply();
        let asked = m.called(Callback::InData(0)).with_endpoint(
            0,
            EndpointModel {
                slice_in: Some(filled(e.slice_in->Some_0, reply.bytes)),
                ..e
            },
        );
        let step = in_step(reply.in_data, e.room(Direction::DeviceToHost) as usize);
        if let InStep::Send(size, _) = step {
            start_in_follows(
                asked.with_transfer(0, size, Direction::DeviceToHost).with_endpoint_state(
                    0,
                    EndpointState::Ctrl(state_after_in(step)),
                ),
            );
        }
    }
}

proof fn ctrl_out_follows(m: Model)
    ensures
        m.ctrl_out().follows(m),
{
}

proof fn ctrl_setup_follows(m: Model)
    ensures
        m.handle_ctrl_setup().follows(m),
{
    if m.serves_control() {
        let e = m.endpoints[0];
        let shown = m.called(Callback::Setup(0, e.slice_out->Some_0));
        complete_follows(shown);
        ctrl_in_follows(
            shown.with_endpoint_state(
                0,
                EndpointState::Ctrl(CtrlState::ReadIn),
            ),
        );
        ctrl_out_follows(
            shown.with_endpoint_state(
                0,
                EndpointState::Ctrl(CtrlState::WriteOut),
            ),
        );
    }
}

/// Serving the end of a SETUP stage only adds to what was done.
pub proof fn setup_done_only_adds(m: Model)
    ensures
        m.setup_done().follows(m),
{
    let started = m.write(
        Register::Doepint(0),
        DOEPINT_STUP,
    ).ep_0_start_transfer_out();
    let id = started.read(Register::Cid);
    let seen = if started.bus.next() >= USB_OTG_CORE_ID_300A {
        let flags = id.read(Register::Doepint(0));
        if any_set(id.bus.next(), DOEPINT_STSPHSRX) {
            flags.write(Register::Doepint(0), DOEPINT_STSPHSRX)
        } else {
            flags
        }
    } else {
        id
    };
    assert(seen.follows(m));
    ctrl_setup_follows(seen);
}

proof fn status_phase_follows(m: Model)
    ensures
        m.status_phase_received().follows(m),
{
    complete_follows(m.write(Register::Doepint(0), DOEPINT_STSPHSRX));
}

proof fn out_endpoint_follows(m: Model)
    ensures
        m.service_out_endpoint().follows(m),
{
    let flags = m.bus.next();
    let read = m.read(Register::Doepint(0));
    let pending = flags & read.bus.next();
    let a = read.read(Register::Doepmsk).ack_out(pending, DOEPINT_XFRC);
    let b = if any_set(pending, DOEPINT_STUP) {
        setup_done_only_adds(a);
        a.setup_done()
    } else {
        a
    };
    let c = b.ack_out(pending, DOEPINT_OTEPDIS);
    let d = if any_set(pending, DOEPINT_STSPHSRX) {
        status_phase_follows(c);
        c.status_phase_received()
    } else {
        c
    };
    assert(a.follows(m));
    assert(b.follows(m));
    assert(c.follows(m));
    assert(d.follows(m));
}

/// What the service of the OUT endpoint does once the end of a SETUP stage
/// is served only adds to what was done.
pub proof fn rest_of_out_endpoint_only_adds(m: Model, pending: u32)
    ensures
        ({
            let c = m.ack_out(pending, DOEPINT_OTEPDIS);
            let d = if any_set(pending, DOEPINT_STSPHSRX) {
                c.status_phase_received()
            } else {
                c
            };
            d.ack_out(pending, DOEPINT_NAK).follows(m)
        }),
{
    let c = m.ack_out(pending, DOEPINT_OTEPDIS);
    status_phase_follows(c);
}

proof fn in_complete_follows(m: Model)
    ensures
        m.in_transfer_complete().follows(m),
{
    ctrl_in_follows(
        m.modify(Register::Diepempmsk, DIEPEMPMSK_MASK, 0).write(
            Register::Diepint(0),
            DIEPINT_XFRC,
        ),
    );
}

proof fn tx_empty_follows(m: Model)
    ensures
        m.tx_fifo_empty().follows(m),
{
    write_packet_follows(m, 0, m.endpoints[0].transfer_size);
}

proof fn in_endpoint_follows(m: Model)
    ensures
        m.service_in_endpoint().follows(m),
{
    let flags = m.bus.next();
    let read = m.read(Register::Diepint(0));
    let pending = flags & read.bus.next();
    let masks = read.read(Register::Diepmsk).read(Register::Diepempmsk);
    let a = if any_set(pending, DIEPINT_XFRC) {
        in_complete_follows(masks);
        masks.in_transfer_complete()
    } else {
        masks
    };
    let b = a.ack_in(pending, DIEPINT_TOC).ack_in(
        pending,
        DIEPINT_ITTXFE,
    ).ack_in(pending, DIEPINT_INEPNE).ack_in(pending, DIEPINT_EPDISD);
    tx_empty_follows(b);
    assert(a.follows(m));
    assert(b.follows(m));
}

proof fn release_follows(m: Model, from: nat)
    ensures
        m.release_endpoints(from).follows(m),
    decreases NUM_ENDPOINTS - from,
{
    if from < NUM_ENDPOINTS {
        release_follows(m.release_endpoint(from as usize), from + 1);
    }
}

proof fn out_start_follows(m: Model)
    ensures
        m.ep0_out_start().follows(m),
{
}

proof fn bus_reset_follows(m: Model)
    ensures
        m.service_bus_reset().1.follows(m),
{
    let quiet = m.modify(Register::Dctl, DCTL_RWUSIG, 0);
    flush_follows(quiet, RESET_FLUSH_FIFO);
    let (flushed, f) = quiet.flush_tx_fifo(RESET_FLUSH_FIFO);
    if flushed {
        release_follows(f, 0);
        let masked = f.release_endpoints(0).modify(
            Register::Daintmsk,
            DAINTMSK_OEPM_MASK | DAINTMSK_IEPM_MASK,
            out_bit(0) | in_bit(0),
        ).modify(
            Register::Doepmsk,
            RESET_OUT_MASK,
            RESET_OUT_MASK,
        ).modify(
            Register::Diepmsk,
            RESET_IN_MASK,
            RESET_IN_MASK,
        ).modify(Register::Dcfg, DCFG_DAD_MASK, 0);
        assert(masked.follows(m));
        out_start_follows(masked);
    }
}

proof fn activation_follows(m: Model)
    ensures
        m.activate_endpoint_in(TransferType::Control, 0).1.follows(m),
        m.activate_endpoint_out(TransferType::Control, 0).1.follows(m),
{
}

proof fn enumeration_follows(m: Model)
    ensures
        m.service_enumeration_done().1.follows(m),
{
    let timed = m.activate_setup().modify(
        Register::Gusbcfg,
        GUSBCFG_TRDT_MASK,
        placed(
            TURNAROUND_TIME,
            GUSBCFG_TRDT_MASK,
            GUSBCFG_TRDT_SHIFT,
        ),
    );
    activation_follows(timed);
    let (out, a) = timed.activate_endpoint_out(TransferType::Control, 0);
    activation_follows(a);
    let (result, reset) = timed.usb_reset();
    assert(reset.follows(m));
    out_start_follows(reset);
}

proof fn service_follows(m: Model, source: Interrupt)
    ensures
        m.service(source).1.follows(m),
{
    match source {
        Interrupt::RxFifoLevel => rx_fifo_only_adds(m),
        Interrupt::OutEndpoint => out_endpoint_follows(m),
        Interrupt::InEndpoint => in_endpoint_follows(m),
        Interrupt::BusReset => bus_reset_follows(m),
        Interrupt::EnumerationDone => enumeration_follows(m),
        _ => {},
    }
}

proof fn serve_follows(m: Model, pending: u32, source: Interrupt)
    ensures
        m.serve(pending, source).1.follows(m),
{
    service_follows(m, source);
}

/// Serving the sources from place `from` of the service order on only adds
/// to what was done.
pub proof fn serving_on_only_adds(m: Model, pending: u32, from: nat)
    ensures
        m.serve_from(pending, from).1.follows(m),
    decreases SOURCES - from,
{
    if from < SOURCES {
        serve_follows(m, pending, Interrupt::at(from));
        let (result, next) = m.serve(pending, Interrupt::at(from));
        if result is Ok {
            serving_on_only_adds(next, pending, from + 1);
        }
    }
}

/// Serving an interrupt adds to what the engine has done and takes nothing
/// back: the accesses and callbacks made before are still there, and neither
/// the lifecycle state nor the partition of the FIFO memory changes.
pub proof fn interrupt_only_adds(m: Model)
    ensures
        m.handle_interrupt().1.follows(m),
{
    let read = m.read(Register::Gintsts);
    let pending = m.bus.next() & read.bus.next();
    serving_on_only_adds(read.read(Register::Gintmsk), pending, 0);
}

} // verus!
