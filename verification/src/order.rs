//! The order in which an interrupt serves its sources.

use vstd::prelude::*;
use crate::bits::any_set;
use crate::fields::{
    GINT_CMOD, GINT_ENUMDNE, GINT_IEPINT, GINT_IISOIXFR, GINT_INCOMPISOOUT, GINT_LPMINT,
    GINT_MMIS, GINT_OEPINT, GINT_OTGINT, GINT_RXFLVL, GINT_SOF, GINT_SRQINT, GINT_USBRST,
    GINT_USBSUSP, GINT_WKUPINT,
};
use crate::history::rx_fifo_only_adds;
use crate::interrupt::{Interrupt, SOURCES};
use crate::regs::{Register, NUM_ENDPOINTS};
use crate::setup::RxStatus;
use crate::types::UsbError;
use crate::usbotg::Model;

verus! {

/// The sources that an interrupt finds set and unmasked when it begins in
/// `m`: the first two answers of the device, the status and its mask.
pub open spec fn interrupts_pending(m: Model) -> u32 {
    m.bus.next() & m.read(Register::Gintsts).bus.next()
}

/// What an interrupt does that finds exactly one source set and unmasked:
/// the status and its mask are read, the source is served, and if that went
/// well it is acknowledged.
pub open spec fn serves_alone(m: Model, source: Interrupt) -> (Result<(), UsbError>, Model) {
    m.read(Register::Gintsts).read(Register::Gintmsk).serve(source.flag(), source)
}

/// Sources that are not pending are passed over.
proof fn not_pending_are_passed_over(m: Model, pending: u32, from: nat, to: nat)
    requires
        from <= to <= SOURCES,
        forall|i: nat| from <= i < to ==> !any_set(pending, #[trigger] Interrupt::at(i).flag()),
    ensures
        m.serve_from(pending, from) == m.serve_from(pending, to),
    decreases to - from,
{
    if from < to {
        assert(!any_set(pending, Interrupt::at(from).flag()));
        not_pending_are_passed_over(m, pending, from + 1, to);
    }
}

/// No two sources share a bit of the interrupt status.
proof fn sources_have_bits_of_their_own()
    ensures
        forall|i: nat, j: nat|
            i < SOURCES && j < SOURCES && i != j ==> !any_set(
                #[trigger] Interrupt::at(i).flag(),
                #[trigger] Interrupt::at(j).flag(),
            ),
{
    assert(GINT_MMIS == 1u32 << 1 && GINT_RXFLVL == 1u32 << 4 && GINT_OEPINT == 1u32 << 19
        && GINT_IEPINT == 1u32 << 18 && GINT_WKUPINT == 1u32 << 31 && GINT_USBSUSP == 1u32 << 11
        && GINT_LPMINT == 1u32 << 27 && GINT_USBRST == 1u32 << 12 && GINT_ENUMDNE == 1u32 << 13
        && GINT_SOF == 1u32 << 3 && GINT_IISOIXFR == 1u32 << 20 && GINT_INCOMPISOOUT == 1u32 << 21
        && GINT_SRQINT == 1u32 << 30 && GINT_OTGINT == 1u32 << 2) by (bit_vector);
    assert forall|a: u32, b: u32| a < 32 && b < 32 && a != b implies #[trigger] ((1u32 << a) & (1u32
        << b)) == 0 by {
        assert((1u32 << a) & (1u32 << b) == 0) by (bit_vector)
            requires
                a < 32,
                b < 32,
                a != b,
        ;
    }
}

/// An interrupt that finds exactly one source set and unmasked serves that
/// source and nothing else.
pub proof fn lone_source_is_served_alone(m: Model, place: nat)
    requires
        place < SOURCES,
        !any_set(m.bus.next(), GINT_CMOD),
        interrupts_pending(m) == Interrupt::at(place).flag(),
    ensures
        m.handle_interrupt() == serves_alone(m, Interrupt::at(place)),
{
    sources_have_bits_of_their_own();
    let pending = interrupts_pending(m);
    let begun = m.read(Register::Gintsts).read(Register::Gintmsk);
    not_pending_are_passed_over(begun, pending, 0, place);
    let (result, served) = begun.serve(pending, Interrupt::at(place));
    not_pending_are_passed_over(served, pending, place + 1, SOURCES as nat);
}

/// The controller when an interrupt that begins in `m` comes to serve the
/// OUT endpoint: the status and its mask are read, and the sources that come
/// before the OUT endpoint in the service order are served.
pub open spec fn before_out_endpoint(m: Model) -> Model {
    m.read(Register::Gintsts).read(Register::Gintmsk).serve(
        interrupts_pending(m),
        Interrupt::ModeMismatch,
    ).1.serve(interrupts_pending(m), Interrupt::RxFifoLevel).1
}

/// The flags of the control OUT endpoint that an interrupt that begins in
/// `m` finds set and unmasked.
pub open spec fn out_flags_pending(m: Model) -> u32 {
    before_out_endpoint(m).bus.next() & before_out_endpoint(m).read(
        Register::Doepint(0),
    ).bus.next()
}

/// An interrupt in device mode serves the mode mismatch, the receive FIFO
/// and the OUT endpoint, in this order, and then the sources behind them.
pub proof fn interrupt_serves_in_order(m: Model)
    requires
        !any_set(m.bus.next(), GINT_CMOD),
        any_set(interrupts_pending(m), GINT_OEPINT),
    ensures
        m.handle_interrupt().1 == before_out_endpoint(m).service_out_endpoint().write(
            Register::Gintsts,
            GINT_OEPINT,
        ).serve_from(interrupts_pending(m), 3).1,
{
    let pending = interrupts_pending(m);
    let read = m.read(Register::Gintsts).read(Register::Gintmsk);
    let first = read.serve(pending, Interrupt::at(0)).1;
    let second = first.serve(pending, Interrupt::at(1)).1;
    let third = second.serve(pending, Interrupt::at(2)).1;
    assert(read.serve_from(pending, 0) == first.serve_from(pending, 1));
    assert(first.serve_from(pending, 1) == second.serve_from(pending, 2));
    assert(second.serve_from(pending, 2) == third.serve_from(pending, 3));
}

/// Serving the receive FIFO keeps the invariant of the controller, leaves
/// the client alone, and takes no buffer away.
proof fn receive_keeps_invariant(m: Model)
    requires
        m.wf(),
    ensures
        m.service_rx_fifo().wf(),
        m.service_rx_fifo().client == m.client,
        m.service_rx_fifo().endpoints[0].has_buffers() == m.endpoints[0].has_buffers(),
{
    let masked = m.modify(Register::Gintmsk, GINT_RXFLVL, 0);
    let status = RxStatus::of(masked.bus.next());
    let popped = masked.read(Register::Grxstsp);
    let (stored, read) = popped.read_packet(status.endpoint, status.byte_count);
    let taken = popped.take_packet(status);
    assert forall|i: int| 0 <= i < NUM_ENDPOINTS implies (#[trigger] read.endpoints[i]).wf() by {
        assert(m.endpoints[i].wf());
    }
    if stored is Ok {
        let decoded = read.setup_received(status.endpoint);
        assert forall|i: int| 0 <= i < NUM_ENDPOINTS implies (#[trigger] decoded.endpoints[i]).wf() by {
            assert(read.endpoints[i].wf());
        }
    }
    assert forall|i: int| 0 <= i < NUM_ENDPOINTS implies (#[trigger] taken.endpoints[i]).wf() by {
        assert(m.endpoints[i].wf());
        assert(read.endpoints[i].wf());
    }
}

/// An interrupt reaches the service of the OUT endpoint with the invariant
/// kept, with the client as it was, and with the buffers of the control
/// endpoint still assigned.
pub proof fn out_endpoint_is_reached_in_order(m: Model)
    requires
        m.wf(),
    ensures
        before_out_endpoint(m).wf(),
        before_out_endpoint(m).client == m.client,
        before_out_endpoint(m).endpoints[0].has_buffers() == m.endpoints[0].has_buffers(),
        before_out_endpoint(m).bus.log.len() >= m.bus.log.len(),
{
    let pending = interrupts_pending(m);
    let first = m.read(Register::Gintsts).read(Register::Gintmsk).serve(
        pending,
        Interrupt::ModeMismatch,
    ).1;
    assert forall|i: int| 0 <= i < NUM_ENDPOINTS implies (#[trigger] first.endpoints[i]).wf() by {
        assert(m.endpoints[i].wf());
    }
    receive_keeps_invariant(first);
    rx_fifo_only_adds(first);
}

} // verus!
