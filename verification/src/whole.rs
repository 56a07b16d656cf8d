//! A control read from its SETUP packet to the end of its status stage: how
//! often the client is asked for data, and when the status stage completes.

use vstd::prelude::*;
use crate::bits::any_set;
use crate::client::{Callback, Upper};
use crate::control::{is_last_packet, setup_step, SetupStep};
use crate::endpoints::{in_bit, USB_OTG_CORE_ID_300A};
use crate::fields::{
    DIEPINT_EPDISD, DIEPINT_INEPNE, DIEPINT_ITTXFE, DIEPINT_TOC, DIEPINT_TXFE, DIEPINT_XFRC,
    DOEPINT_NAK, DOEPINT_OTEPDIS, DOEPINT_STSPHSRX, DOEPINT_STUP, DOEPINT_XFRC, GINT_CMOD,
    GINT_IEPINT, GINT_OEPINT,
};
use crate::order::{interrupts_pending, lone_source_is_served_alone};
use crate::regs::{Register, NUM_ENDPOINTS};
use crate::types::{CtrlInResult, CtrlState, EndpointState};
use crate::usbotg::Model;

verus! {

/// `count` requests for data on the control endpoint.
pub open spec fn requests(count: nat) -> Seq<Callback> {
    Seq::new(count, |j: int| Callback::InData(0))
}

/// The client's answer to the request for data that is its callback number
/// `n`, counted over all callbacks from the first on.
pub open spec fn data_answer(client: Upper, n: nat) -> CtrlInResult {
    (client.replies)(n).in_data
}

/// Whether the client hands over the data of a transfer in `k` packets when
/// it is asked from its callback number `first` on: each answer is a packet,
/// and the last of the `k` is the first that is marked as the last.
pub open spec fn hands_over_in(client: Upper, first: nat, k: nat) -> bool {
    &&& k >= 1
    &&& forall|j: nat|
        j < k ==> (#[trigger] data_answer(client, first + j)) is Packet && (is_last_packet(
            data_answer(client, first + j),
        ) <==> j + 1 == k)
}

/// How many requests for data were made in a transfer of `k` packets once
/// `n` IN transfers have completed: one at the SETUP packet and one for each
/// completed transfer, up to `k` in all.
pub open spec fn requests_made(k: nat, n: nat) -> nat {
    if n + 1 < k {
        n + 1
    } else {
        k
    }
}

impl Model {
    /// The model after `n` IN transfers have completed on the control
    /// endpoint, one after the other.
    pub open spec fn in_transfers_complete(self, n: nat) -> Model
        decreases n,
    {
        if n == 0 {
            self
        } else {
            self.in_transfers_complete((n - 1) as nat).in_transfer_complete()
        }
    }

    /// Whether a SETUP packet that is handled now begins a control read that
    /// the client serves in `k` packets: control transfers can be served, the
    /// client accepts a request for data for the host, and hands the data
    /// over in `k` packets.
    pub open spec fn begins_read_of(self, k: nat) -> bool {
        &&& self.endpoints.len() == NUM_ENDPOINTS
        &&& self.serves_control()
        &&& setup_step(
            self.reply().setup,
            self.endpoints[0].transfer_size,
            self.endpoints[0].request_type,
        ) == SetupStep::DataIn
        &&& hands_over_in(self.client->Some_0, self.client->Some_0.calls.len() + 1, k)
    }

    /// Whether this model is in the data stage or the status stage of a
    /// control read that began in `start` and that the client serves in `k`
    /// packets, after `n` IN transfers have completed: the client was shown
    /// the SETUP packet and was asked for data as often as `n` calls for, and
    /// for nothing else; and the endpoint is in its data stage until the last
    /// packet is asked for, and in its status stage from then on.
    pub open spec fn in_read_of(self, start: Model, k: nat, n: nat) -> bool {
        &&& self.endpoints.len() == NUM_ENDPOINTS
        &&& self.serves_control()
        &&& self.client->Some_0.replies == start.client->Some_0.replies
        &&& self.client->Some_0.calls == start.client->Some_0.calls.push(
            Callback::Setup(0, start.endpoints[0].slice_out->Some_0),
        ) + requests(requests_made(k, n))
        &&& self.endpoints[0].state == EndpointState::Ctrl(
            if requests_made(k, n) < k {
                CtrlState::ReadIn
            } else {
                CtrlState::ReadStatus
            },
        )
    }
}

/// The SETUP packet of a control read makes the client hand over the first
/// packet.
proof fn read_begins(m: Model, k: nat)
    requires
        m.begins_read_of(k),
    ensures
        m.handle_ctrl_setup().in_read_of(m, k, 0),
{
    let client = m.client->Some_0;
    let first = client.calls.len() + 1;
    assert(data_answer(client, first + 0) is Packet);
    let after = m.handle_ctrl_setup();
    assert(after.client->Some_0.calls =~= client.calls.push(
        Callback::Setup(0, m.endpoints[0].slice_out->Some_0),
    ) + requests(1));
}

/// Each IN transfer that completes in the data stage makes the client hand
/// over the next packet; one that completes in the status stage asks the
/// client for nothing.
proof fn read_goes_on(x: Model, m: Model, k: nat, n: nat)
    requires
        m.begins_read_of(k),
        x.in_read_of(m, k, n),
    ensures
        x.in_transfer_complete().in_read_of(m, k, n + 1),
{
    let client = m.client->Some_0;
    let first = client.calls.len() + 1;
    let made = requests_made(k, n);
    let after = x.in_transfer_complete();
    if made < k {
        assert(x.client->Some_0.calls.len() == first + made);
        assert(data_answer(client, first + made) is Packet);
        assert(x.reply().in_data == data_answer(client, first + made));
        assert(requests(made + 1) =~= requests(made).push(Callback::InData(0)));
        assert(after.client->Some_0.calls =~= client.calls.push(
            Callback::Setup(0, m.endpoints[0].slice_out->Some_0),
        ) + requests(made + 1));
    }
}

/// A control read asks the client for data exactly as often as the client
/// has packets.  After the SETUP packet and `n` completed IN transfers the
/// client has been shown the SETUP packet and has been asked for data once
/// for the SETUP packet and once for each completed transfer, but no more
/// than `k` times in all, and has seen no other callback; the endpoint is in
/// its data stage as long as a packet is left to ask for, and in its status
/// stage from then on, however many more transfers complete.
pub proof fn control_read_asks_for_each_packet_once(m: Model, k: nat, n: nat)
    requires
        m.begins_read_of(k),
    ensures
        m.handle_ctrl_setup().in_transfers_complete(n).in_read_of(m, k, n),
    decreases n,
{
    if n == 0 {
        read_begins(m, k);
    } else {
        control_read_asks_for_each_packet_once(m, k, (n - 1) as nat);
        read_goes_on(m.handle_ctrl_setup().in_transfers_complete((n - 1) as nat), m, k, (n - 1) as nat);
    }
}

/// The status stage of a control read completes exactly once, and not before
/// the client has handed over its last packet.  When the host acknowledges
/// the status stage before that, the client sees nothing of it.  When it
/// does so afterwards, the client sees the status stage begin and end, once
/// each, and the endpoint is idle; and whatever of the two interrupts comes
/// again, the client sees nothing more.
pub proof fn control_read_completes_its_status_stage_once(m: Model, k: nat, n: nat)
    requires
        m.begins_read_of(k),
    ensures
        ({
            let x = m.handle_ctrl_setup().in_transfers_complete(n);
            let done = x.status_phase_received();
            &&& n + 1 < k ==> done.client == x.client && done.endpoints == x.endpoints
            &&& n + 1 >= k ==> {
                &&& done.client->Some_0.calls == x.client->Some_0.calls + seq![
                    Callback::Status(0),
                    Callback::StatusComplete(0),
                ]
                &&& done.endpoints[0].state == EndpointState::Ctrl(CtrlState::Init)
                &&& done.status_phase_received().client == done.client
                &&& done.in_transfer_complete().client == done.client
            }
        }),
{
    control_read_asks_for_each_packet_once(m, k, n);
    let x = m.handle_ctrl_setup().in_transfers_complete(n);
    let done = x.status_phase_received();
    if n + 1 >= k {
        assert(done.client->Some_0.calls =~= x.client->Some_0.calls + seq![
            Callback::Status(0),
            Callback::StatusComplete(0),
        ]);
    }
}

/// Whether two models differ in nothing but in what was done to the
/// peripheral.
pub open spec fn same_apart_from_bus(a: Model, b: Model) -> bool {
    a.with_bus(b.bus) == b
}

/// What the handlers of a control transfer make of the controller and of its
/// client does not depend on what was done to the peripheral before.
proof fn handlers_ignore_the_bus(a: Model, b: Model)
    requires
        same_apart_from_bus(a, b),
    ensures
        same_apart_from_bus(a.in_transfer_complete(), b.in_transfer_complete()),
        same_apart_from_bus(a.status_phase_received(), b.status_phase_received()),
        same_apart_from_bus(a.handle_ctrl_setup(), b.handle_ctrl_setup()),
        same_apart_from_bus(a.ep_0_start_transfer_out(), b.ep_0_start_transfer_out()),
{
}

/// The flags of an endpoint interrupt have bits of their own.
proof fn flags_have_bits_of_their_own()
    ensures
        any_set(GINT_IEPINT, GINT_IEPINT),
        any_set(GINT_OEPINT, GINT_OEPINT),
        any_set(DIEPINT_XFRC, DIEPINT_XFRC),
        !any_set(DIEPINT_XFRC, DIEPINT_TOC),
        !any_set(DIEPINT_XFRC, DIEPINT_ITTXFE),
        !any_set(DIEPINT_XFRC, DIEPINT_INEPNE),
        !any_set(DIEPINT_XFRC, DIEPINT_EPDISD),
        any_set(DOEPINT_STUP, DOEPINT_STUP),
        !any_set(DOEPINT_STUP, DOEPINT_XFRC),
        !any_set(DOEPINT_STUP, DOEPINT_OTEPDIS),
        !any_set(DOEPINT_STUP, DOEPINT_STSPHSRX),
        !any_set(DOEPINT_STUP, DOEPINT_NAK),
        any_set(DOEPINT_STSPHSRX, DOEPINT_STSPHSRX),
        !any_set(DOEPINT_STSPHSRX, DOEPINT_XFRC),
        !any_set(DOEPINT_STSPHSRX, DOEPINT_STUP),
        !any_set(DOEPINT_STSPHSRX, DOEPINT_OTEPDIS),
        !any_set(DOEPINT_STSPHSRX, DOEPINT_NAK),
{
    assert(GINT_IEPINT & GINT_IEPINT != 0 && GINT_OEPINT & GINT_OEPINT != 0 && DIEPINT_XFRC
        & DIEPINT_XFRC != 0 && DIEPINT_XFRC & DIEPINT_TOC == 0 && DIEPINT_XFRC & DIEPINT_ITTXFE == 0
        && DIEPINT_XFRC & DIEPINT_INEPNE == 0 && DIEPINT_XFRC & DIEPINT_EPDISD == 0) by (bit_vector);
    assert(DOEPINT_STUP & DOEPINT_STUP != 0 && DOEPINT_STUP & DOEPINT_XFRC == 0 && DOEPINT_STUP
        & DOEPINT_OTEPDIS == 0 && DOEPINT_STUP & DOEPINT_STSPHSRX == 0 && DOEPINT_STUP & DOEPINT_NAK
        == 0 && DOEPINT_STSPHSRX & DOEPINT_STSPHSRX != 0 && DOEPINT_STSPHSRX & DOEPINT_XFRC == 0
        && DOEPINT_STSPHSRX & DOEPINT_STUP == 0 && DOEPINT_STSPHSRX & DOEPINT_OTEPDIS == 0
        && DOEPINT_STSPHSRX & DOEPINT_NAK == 0) by (bit_vector);
}

/// The flags of the control OUT endpoint that an interrupt finds set and
/// unmasked when it finds only the OUT endpoint pending.
pub open spec fn lone_out_flags(m: Model) -> u32 {
    let begun = m.read(Register::Gintsts).read(Register::Gintmsk);
    begun.bus.next() & begun.read(Register::Doepint(0)).bus.next()
}

/// Whether an interrupt that begins in `m` finds the end of a SETUP stage and
/// nothing else: it runs in device mode, only the OUT endpoint is pending,
/// and of its flags only the one for a SETUP stage that is done.
pub open spec fn finds_setup_done(m: Model) -> bool {
    &&& !any_set(m.bus.next(), GINT_CMOD)
    &&& interrupts_pending(m) == GINT_OEPINT
    &&& lone_out_flags(m) == DOEPINT_STUP
}

/// Whether an interrupt that begins in `m` finds the acknowledgement of a
/// status stage and nothing else.
pub open spec fn finds_status_phase(m: Model) -> bool {
    &&& !any_set(m.bus.next(), GINT_CMOD)
    &&& interrupts_pending(m) == GINT_OEPINT
    &&& lone_out_flags(m) == DOEPINT_STSPHSRX
}

/// Whether an interrupt that begins in `m` finds a completed IN transfer and
/// nothing else: it runs in device mode, only the IN endpoint is pending, of
/// its flags only the one for a completed transfer, and no packet is wanted
/// for an empty transmit FIFO.
pub open spec fn finds_in_transfer_complete(m: Model) -> bool {
    let begun = m.read(Register::Gintsts).read(Register::Gintmsk);
    let flags = begun.bus.next();
    let masks = begun.read(Register::Diepint(0));
    let empty = masks.read(Register::Diepmsk);
    &&& !any_set(m.bus.next(), GINT_CMOD)
    &&& interrupts_pending(m) == GINT_IEPINT
    &&& flags & masks.bus.next() == DIEPINT_XFRC
    &&& !(any_set(flags, DIEPINT_TXFE) && any_set(empty.bus.next(), in_bit(0)))
}

/// An interrupt that finds the end of a SETUP stage and nothing else goes
/// well, and makes of the controller and its client what starting an OUT
/// transfer and handling the SETUP packet make of them.
pub proof fn setup_interrupt_handles_the_setup(m: Model)
    requires
        finds_setup_done(m),
    ensures
        m.handle_interrupt().0 is Ok,
        same_apart_from_bus(
            m.ep_0_start_transfer_out().handle_ctrl_setup(),
            m.handle_interrupt().1,
        ),
{
    lone_source_is_served_alone(m, 2);
    flags_have_bits_of_their_own();
    let begun = m.read(Register::Gintsts).read(Register::Gintmsk);
    let seen = begun.read(Register::Doepint(0)).read(Register::Doepmsk);
    let acked = seen.write(Register::Doepint(0), DOEPINT_STUP);
    handlers_ignore_the_bus(m, acked);
    let started = acked.ep_0_start_transfer_out();
    let id = started.read(Register::Cid);
    let cleared = if started.bus.next() >= USB_OTG_CORE_ID_300A {
        let flags = id.read(Register::Doepint(0));
        if any_set(id.bus.next(), DOEPINT_STSPHSRX) {
            flags.write(Register::Doepint(0), DOEPINT_STSPHSRX)
        } else {
            flags
        }
    } else {
        id
    };
    assert(same_apart_from_bus(m.ep_0_start_transfer_out(), cleared));
    handlers_ignore_the_bus(m.ep_0_start_transfer_out(), cleared);
    assert(seen.setup_done() == cleared.handle_ctrl_setup());
    assert(begun.service_out_endpoint() == seen.setup_done());
}

/// An interrupt that finds the acknowledgement of a status stage and nothing
/// else goes well, and makes of the controller and its client what the
/// service of that flag makes of them.
pub proof fn status_interrupt_serves_the_status_phase(m: Model)
    requires
        finds_status_phase(m),
    ensures
        m.handle_interrupt().0 is Ok,
        same_apart_from_bus(m.status_phase_received(), m.handle_interrupt().1),
{
    lone_source_is_served_alone(m, 2);
    flags_have_bits_of_their_own();
    let begun = m.read(Register::Gintsts).read(Register::Gintmsk);
    let seen = begun.read(Register::Doepint(0)).read(Register::Doepmsk);
    handlers_ignore_the_bus(m, seen);
    assert(begun.service_out_endpoint() == seen.status_phase_received());
}

/// An interrupt that finds a completed IN transfer and nothing else goes
/// well, and makes of the controller and its client what the service of that
/// flag makes of them.
pub proof fn in_interrupt_serves_the_completed_transfer(m: Model)
    requires
        finds_in_transfer_complete(m),
    ensures
        m.handle_interrupt().0 is Ok,
        same_apart_from_bus(m.in_transfer_complete(), m.handle_interrupt().1),
{
    lone_source_is_served_alone(m, 3);
    flags_have_bits_of_their_own();
    let begun = m.read(Register::Gintsts).read(Register::Gintmsk);
    let seen = begun.read(Register::Diepint(0)).read(Register::Diepmsk).read(Register::Diepempmsk);
    handlers_ignore_the_bus(m, seen);
    assert(begun.service_in_endpoint() == seen.in_transfer_complete());
}

impl Model {
    /// The model after `n` interrupts, one after the other.
    pub open spec fn after_interrupts(self, n: nat) -> Model
        decreases n,
    {
        if n == 0 {
            self
        } else {
            self.after_interrupts((n - 1) as nat).handle_interrupt().1
        }
    }
}

/// A run of interrupts of which each finds a completed IN transfer and
/// nothing else makes of the controller and its client what as many
/// completed IN transfers make of them.
proof fn in_interrupts_serve_the_completed_transfers(a: Model, b: Model, n: nat)
    requires
        same_apart_from_bus(a, b),
        forall|j: nat| j < n ==> finds_in_transfer_complete(#[trigger] b.after_interrupts(j)),
    ensures
        same_apart_from_bus(a.in_transfers_complete(n), b.after_interrupts(n)),
    decreases n,
{
    if n > 0 {
        let before = b.after_interrupts((n - 1) as nat);
        in_interrupts_serve_the_completed_transfers(a, b, (n - 1) as nat);
        assert(finds_in_transfer_complete(before));
        in_interrupt_serves_the_completed_transfer(before);
        handlers_ignore_the_bus(a.in_transfers_complete((n - 1) as nat), before);
    }
}

/// A control read asks the client for data exactly as often as the client
/// has packets, over all the interrupts that serve it.  The interrupt that
/// finds the end of the SETUP stage shows the client the SETUP packet and
/// asks it for the first packet; each interrupt that finds a completed IN
/// transfer asks it for the next, as long as one is left; and once the last
/// packet is asked for, no interrupt of the run asks for more.
pub proof fn control_read_asks_for_each_packet_once_over_its_interrupts(m: Model, k: nat, n: nat)
    requires
        finds_setup_done(m),
        m.ep_0_start_transfer_out().begins_read_of(k),
        forall|j: nat|
            j < n ==> finds_in_transfer_complete(
                #[trigger] m.handle_interrupt().1.after_interrupts(j),
            ),
    ensures
        m.handle_interrupt().1.after_interrupts(n).in_read_of(m.ep_0_start_transfer_out(), k, n),
{
    let armed = m.ep_0_start_transfer_out();
    setup_interrupt_handles_the_setup(m);
    control_read_asks_for_each_packet_once(armed, k, n);
    in_interrupts_serve_the_completed_transfers(
        armed.handle_ctrl_setup(),
        m.handle_interrupt().1,
        n,
    );
}

/// An interrupt that finds the acknowledgement of a status stage and nothing
/// else makes of a controller what the service of that flag makes of one
/// that differs from it only in what was done to the peripheral.
proof fn status_interrupt_after(y: Model, x: Model)
    requires
        same_apart_from_bus(y, x),
        finds_status_phase(x),
    ensures
        same_apart_from_bus(y.status_phase_received(), x.handle_interrupt().1),
{
    status_interrupt_serves_the_status_phase(x);
    handlers_ignore_the_bus(y, x);
}

/// Controllers that differ only in what was done to the peripheral have the
/// same client and the same descriptors.
proof fn same_client_and_descriptors(a: Model, b: Model)
    requires
        same_apart_from_bus(a, b),
    ensures
        a.client == b.client,
        a.endpoints == b.endpoints,
{
}

/// The interrupts that serve a control read make of the controller and its
/// client what the handlers of the read make of them: the interrupt for the
/// SETUP stage and `n` interrupts for completed IN transfers, and behind
/// them an interrupt for the acknowledged status stage.
proof fn read_is_served_by_its_interrupts(m: Model, n: nat)
    requires
        finds_setup_done(m),
        forall|j: nat|
            j < n ==> finds_in_transfer_complete(
                #[trigger] m.handle_interrupt().1.after_interrupts(j),
            ),
        finds_status_phase(m.handle_interrupt().1.after_interrupts(n)),
    ensures
        ({
            let x = m.handle_interrupt().1.after_interrupts(n);
            let y = m.ep_0_start_transfer_out().handle_ctrl_setup().in_transfers_complete(n);
            &&& same_apart_from_bus(y, x)
            &&& same_apart_from_bus(y.status_phase_received(), x.handle_interrupt().1)
        }),
{
    let armed = m.ep_0_start_transfer_out();
    let first = m.handle_interrupt().1;
    setup_interrupt_handles_the_setup(m);
    in_interrupts_serve_the_completed_transfers(armed.handle_ctrl_setup(), first, n);
    status_interrupt_after(
        armed.handle_ctrl_setup().in_transfers_complete(n),
        first.after_interrupts(n),
    );
}

/// What holds of the client and the control endpoint of one controller holds
/// of another that differs from it only in what was done to the peripheral.
proof fn completion_carries_over(y: Model, served: Model, x: Model, done: Model, late: bool)
    requires
        same_apart_from_bus(y, x),
        same_apart_from_bus(served, done),
        !late ==> served.client == y.client && served.endpoints == y.endpoints,
        late ==> served.client->Some_0.calls == y.client->Some_0.calls + seq![
            Callback::Status(0),
            Callback::StatusComplete(0),
        ] && served.endpoints[0].state == EndpointState::Ctrl(CtrlState::Init),
    ensures
        !late ==> done.client == x.client && done.endpoints == x.endpoints,
        late ==> done.client->Some_0.calls == x.client->Some_0.calls + seq![
            Callback::Status(0),
            Callback::StatusComplete(0),
        ] && done.endpoints[0].state == EndpointState::Ctrl(CtrlState::Init),
{
}

/// The status stage of a control read completes exactly once over the
/// interrupts that serve it, and not before the client has handed over its
/// last packet.  An interrupt that finds the status stage acknowledged
/// before that makes no callback.  One that finds it acknowledged afterwards
/// makes the client see the status stage begin and end, once each, and
/// leaves the endpoint idle.
pub proof fn control_read_completes_once_over_its_interrupts(m: Model, k: nat, n: nat)
    requires
        finds_setup_done(m),
        m.ep_0_start_transfer_out().begins_read_of(k),
        forall|j: nat|
            j < n ==> finds_in_transfer_complete(
                #[trigger] m.handle_interrupt().1.after_interrupts(j),
            ),
        finds_status_phase(m.handle_interrupt().1.after_interrupts(n)),
    ensures
        ({
            let x = m.handle_interrupt().1.after_interrupts(n);
            let done = x.handle_interrupt().1;
            &&& n + 1 < k ==> done.client == x.client && done.endpoints == x.endpoints
            &&& n + 1 >= k ==> {
                &&& done.client->Some_0.calls == x.client->Some_0.calls + seq![
                    Callback::Status(0),
                    Callback::StatusComplete(0),
                ]
                &&& done.endpoints[0].state == EndpointState::Ctrl(CtrlState::Init)
            }
        }),
{
    let x = m.handle_interrupt().1.after_interrupts(n);
    let y = m.ep_0_start_transfer_out().handle_ctrl_setup().in_transfers_complete(n);
    read_is_served_by_its_interrupts(m, n);
    control_read_completes_its_status_stage_once(m.ep_0_start_transfer_out(), k, n);
    completion_carries_over(
        y,
        y.status_phase_received(),
        x,
        x.handle_interrupt().1,
        n + 1 >= k,
    );
}

/// Once the status stage of a control transfer is completed, an interrupt
/// that finds it acknowledged once more makes no callback.
pub proof fn completed_status_stage_is_not_completed_again(m: Model)
    requires
        finds_status_phase(m),
        m.endpoints.len() == NUM_ENDPOINTS,
        m.endpoints[0].state == EndpointState::Ctrl(CtrlState::Init),
    ensures
        m.handle_interrupt().1.client == m.client,
        m.handle_interrupt().1.endpoints == m.endpoints,
{
    status_interrupt_serves_the_status_phase(m);
}

} // verus!
