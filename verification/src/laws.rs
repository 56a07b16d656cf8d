//! What holds of the controller across its calls.

use vstd::prelude::*;
use crate::client::Callback;
use crate::control::{in_step, setup_step, state_after_in, SetupStep};
use crate::endpoint::buffer_holds_whole_words;
use crate::fields::GINT_RXFLVL;
use crate::history::begins_with;
use crate::layout::{depth_sum, Partition, FIFO_RAM_WORDS};
use crate::lifecycle::{
    initialization_keeps_state, RX_FIFO_DEPTH, TX_FIFO_0_DEPTH, TX_FIFO_1_DEPTH,
};
use crate::packet::{packed, packet_round_trip, swapped, unpacked, words_for, ByteOrder};
use crate::regs::{Access, Register};
use crate::setup::RxStatus;
use crate::types::{Direction, CtrlSetupResult, CtrlState, EndpointState, UsbError, UsbState};
use crate::usbotg::Model;

verus! {

/// Once the controller has been enabled, enabling it again changes nothing:
/// the peripheral is initialized once, and the second call does not touch
/// it.
pub proof fn enable_twice_initializes_once(m: Model)
    requires
        m.enable().0 is Ok,
    ensures
        m.enable().1.enable() == (Ok::<(), UsbError>(()), m.enable().1),
        m.state == UsbState::Disabled ==> m.enable().1.state == UsbState::Initialized,
        m.state != UsbState::Disabled ==> m.enable().1 == m,
{
}

/// An initialization that goes well leaves the FIFO memory partitioned into
/// the receive FIFO and two transmit FIFOs that lie behind one another and
/// fill it exactly.
pub proof fn initialization_partitions_the_fifo_memory(m: Model)
    requires
        m.initialization().0 is Ok,
    ensures
        m.initialization().1.fifo == (Partition {
            rx: RX_FIFO_DEPTH,
            tx: seq![TX_FIFO_0_DEPTH, TX_FIFO_1_DEPTH],
        }),
        m.initialization().1.fifo.wf(),
        m.initialization().1.fifo.start(0) == RX_FIFO_DEPTH,
        m.initialization().1.fifo.start(1) == RX_FIFO_DEPTH + TX_FIFO_0_DEPTH,
        m.initialization().1.fifo.total() == FIFO_RAM_WORDS,
{
    initialization_keeps_state(m);
    let empty = Partition { rx: 0, tx: Seq::empty() };
    let one = empty.with_rx(RX_FIFO_DEPTH);
    let two = one.with_tx(TX_FIFO_0_DEPTH);
    let three = two.with_tx(TX_FIFO_1_DEPTH);
    reveal_with_fuel(depth_sum, 4);
    assert(empty.takes_rx(RX_FIFO_DEPTH));
    assert(one.takes_tx(0, TX_FIFO_0_DEPTH));
    assert(two.takes_tx(1, TX_FIFO_1_DEPTH));
    assert(three.tx =~= seq![TX_FIFO_0_DEPTH, TX_FIFO_1_DEPTH]);
}

/// A packet that is written and comes back through the receive FIFO is read
/// as it was written if words are laid out big end first; laid out little
/// end first, each group of four bytes is read reversed.  The bytes that are
/// compared are those of the whole words of the packet.
pub proof fn written_packet_reads_back(m: Model, endpoint: usize, len: u32)
    requires
        m.wf(),
        m.can_write(endpoint, len as usize),
        m.takes_packet(endpoint, len),
        m.write_packet(endpoint, len as usize).1.bus.incoming(words_for(len as nat)) == packed(
            m.endpoints[endpoint as int].slice_in->Some_0,
            words_for(len as nat),
        ),
    ensures
        ({
            let sent = m.endpoints[endpoint as int].slice_in->Some_0.take(
                4 * words_for(len as nat) as int,
            );
            let got = m.write_packet(endpoint, len as usize).1.read_packet(
                endpoint,
                len,
            ).1.endpoints[endpoint as int].slice_out->Some_0.take(4 * words_for(len as nat) as int);
            &&& m.order == ByteOrder::Big ==> got == sent
            &&& m.order == ByteOrder::Little ==> got == swapped(sent)
        }),
{
    let count = words_for(len as nat);
    let buffer = m.endpoints[endpoint as int].slice_in->Some_0;
    assert(m.endpoints[endpoint as int].wf());
    buffer_holds_whole_words(buffer.len());
    packet_round_trip(buffer, count);
    let after = m.write_packet(endpoint, len as usize).1.read_packet(endpoint, len).1;
    let got = after.endpoints[endpoint as int].slice_out->Some_0.take(4 * count as int);
    assert(got =~= unpacked(m.order, packed(buffer, count)));
}

/// A SETUP packet that asks for no data and that the client accepts makes
/// the client see the status stage begin and end, once each, and nothing of a
/// data stage; the control endpoint is idle afterwards.
pub proof fn setup_without_data_completes_at_once(m: Model)
    requires
        m.wf(),
        m.serves_control(),
        m.reply().setup == CtrlSetupResult::Accept,
        m.endpoints[0].transfer_size == 0,
    ensures
        m.handle_ctrl_setup().client->Some_0.calls == m.client->Some_0.calls + seq![
            Callback::Setup(0, m.endpoints[0].slice_out->Some_0),
            Callback::Status(0),
            Callback::StatusComplete(0),
        ],
        m.handle_ctrl_setup().endpoints[0].state == EndpointState::Ctrl(CtrlState::Init),
        m.handle_ctrl_setup().bus == m.bus,
{
    let calls = m.client->Some_0.calls;
    assert(m.handle_ctrl_setup().client->Some_0.calls =~= calls + seq![
        Callback::Setup(0, m.endpoints[0].slice_out->Some_0),
        Callback::Status(0),
        Callback::StatusComplete(0),
    ]);
}

/// A SETUP packet that asks for data for the host makes the client hand over
/// one packet and no more, and the status stage does not begin: the control
/// endpoint is in its status stage only if that packet was the last, and in
/// its data stage otherwise.
pub proof fn setup_with_data_asks_for_one_packet(m: Model)
    requires
        m.wf(),
        m.serves_control(),
        setup_step(m.reply().setup, m.endpoints[0].transfer_size, m.endpoints[0].request_type)
            == SetupStep::DataIn,
    ensures
        m.handle_ctrl_setup().client->Some_0.calls == m.client->Some_0.calls + seq![
            Callback::Setup(0, m.endpoints[0].slice_out->Some_0),
            Callback::InData(0),
        ],
        m.handle_ctrl_setup().endpoints[0].state == EndpointState::Ctrl(
            state_after_in(
                in_step(
                    (m.client->Some_0.replies)(m.client->Some_0.calls.len() + 1).in_data,
                    m.endpoints[0].room(Direction::DeviceToHost) as usize,
                ),
            ),
        ),
{
    let calls = m.client->Some_0.calls;
    let asked = m.called(Callback::Setup(0, m.endpoints[0].slice_out->Some_0)).with_endpoint_state(
        0,
        EndpointState::Ctrl(CtrlState::ReadIn),
    );
    assert(asked.serves_control());
    assert(asked.endpoints[0].room(Direction::DeviceToHost) == m.endpoints[0].room(
        Direction::DeviceToHost,
    ));
    assert(m.handle_ctrl_setup().client->Some_0.calls =~= calls + seq![
        Callback::Setup(0, m.endpoints[0].slice_out->Some_0),
        Callback::InData(0),
    ]);
}

/// When an IN transfer completes while the control endpoint is in its data
/// stage, the client hands over the next packet, and no other callback is
/// made; the endpoint moves to its status stage exactly if that packet is the
/// last.
pub proof fn data_stage_goes_on_packet_by_packet(m: Model)
    requires
        m.wf(),
        m.serves_control(),
        m.endpoints[0].state == EndpointState::Ctrl(CtrlState::ReadIn),
    ensures
        m.in_transfer_complete().client->Some_0.calls == m.client->Some_0.calls.push(
            Callback::InData(0),
        ),
        m.in_transfer_complete().endpoints[0].state == EndpointState::Ctrl(
            state_after_in(
                in_step(m.reply().in_data, m.endpoints[0].room(Direction::DeviceToHost) as usize),
            ),
        ),
{
}

/// The status stage is completed when the host acknowledges it while the
/// control endpoint is in its status stage, and only then: the client sees it
/// begin and end once and the endpoint is idle, so that another
/// acknowledgement makes no callback.
pub proof fn status_stage_completes_once(m: Model)
    requires
        m.wf(),
        m.serves_control(),
    ensures
        m.endpoints[0].state == EndpointState::Ctrl(CtrlState::ReadStatus)
            ==> m.status_phase_received().client->Some_0.calls == m.client->Some_0.calls + seq![
            Callback::Status(0),
            Callback::StatusComplete(0),
        ] && m.status_phase_received().endpoints[0].state == EndpointState::Ctrl(CtrlState::Init),
        m.endpoints[0].state != EndpointState::Ctrl(CtrlState::ReadStatus)
            ==> m.status_phase_received().client == m.client
            && m.status_phase_received().endpoints == m.endpoints,
        m.status_phase_received().status_phase_received().client
            == m.status_phase_received().client,
{
    let calls = m.client->Some_0.calls;
    if m.endpoints[0].state == EndpointState::Ctrl(CtrlState::ReadStatus) {
        assert(m.status_phase_received().client->Some_0.calls =~= calls + seq![
            Callback::Status(0),
            Callback::StatusComplete(0),
        ]);
    }
}

/// The receive FIFO is popped only under its mask: serving it masks its
/// interrupt first and unmasks it last, pops the status word once in between,
/// and apart from that only pops words of the FIFO.
pub proof fn receive_fifo_is_served_under_its_mask(m: Model)
    requires
        m.wf(),
    ensures
        ({
            let log = m.service_rx_fifo().bus.log;
            let start = m.bus.log.len() as int;
            &&& begins_with(log, m.bus.log)
            &&& log.len() >= start + 3
            &&& log[start] == Access::Modify(Register::Gintmsk, GINT_RXFLVL, 0)
            &&& log[start + 1] == Access::Read(Register::Grxstsp, m.bus.next())
            &&& log[log.len() - 1] == Access::Modify(Register::Gintmsk, GINT_RXFLVL, GINT_RXFLVL)
            &&& forall|k: int| start + 2 <= k < log.len() - 1 ==> (#[trigger] log[k]) is Pop
        }),
{
    let masked = m.modify(Register::Gintmsk, GINT_RXFLVL, 0);
    let status = RxStatus::of(masked.bus.next());
    let popped = masked.read(Register::Grxstsp);
    let taken = popped.take_packet(status);
    let count = words_for(status.byte_count as nat);
    assert(taken.bus == popped.bus || taken.bus == popped.bus.pop() || taken.bus
        == popped.bus.popped(count));
}

} // verus!
