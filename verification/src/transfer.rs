//! Control transfers on endpoint 0: the SETUP, data and status stages as the
//! client's answers drive them.

use vstd::prelude::*;
use crate::client::{filled, Callback, Client, Reply};
use crate::control::{
    in_step, next_in_state, on_in_data, on_out_data, on_setup, out_step, setup_step, state_after_in,
    state_after_out, InStep, OutStep, SetupStep,
};
use crate::endpoint::{Endpoint, EndpointModel};
use crate::regs::{Registers, NUM_ENDPOINTS};
use crate::setup::{decode_setup, SetupPacket};
use crate::types::{
    CtrlInResult, CtrlOutResult, CtrlSetupResult, CtrlState, Direction, EndpointState,
};
use crate::usbotg::{Model, Usbotg};

verus! {

broadcast use {Endpoint::view_unfolds, Usbotg::view_unfolds};

impl Model {
    /// Whether control transfers can be served: a client is set and the
    /// control endpoint has its buffers.
    pub open spec fn serves_control(self) -> bool {
        self.client is Some && self.endpoints[0].has_buffers()
    }

    /// The client's reaction to the next callback.
    pub open spec fn reply(self) -> Reply {
        self.client->Some_0.next()
    }

    /// The status stage of a control transfer completed: the client is told
    /// that it begins and that it is over, and the control endpoint is idle
    /// again.  Nothing happens where control transfers cannot be served.
    pub open spec fn complete_ctrl_status(self) -> Model {
        if self.serves_control() {
            self.called(Callback::Status(0)).called(Callback::StatusComplete(0)).with_endpoint_state(
                0,
                EndpointState::Ctrl(CtrlState::Init),
            )
        } else {
            self
        }
    }

    /// The client asked for the next packet of an IN data stage.  The client
    /// writes into the IN buffer.  A packet is sent, cut to what the IN buffer
    /// holds, and the last one moves the endpoint to the status stage; a delay
    /// changes nothing more; an error stalls the IN direction.  Nothing
    /// happens where control transfers cannot be served.
    pub open spec fn ctrl_in(self) -> Model {
        if self.serves_control() {
            let e = self.endpoints[0];
            let reply = self.reply();
            let m = self.called(Callback::InData(0)).with_endpoint(
                0,
                EndpointModel { slice_in: Some(filled(e.slice_in->Some_0, reply.bytes)), ..e },
            );
            let step = in_step(reply.in_data, e.room(Direction::DeviceToHost) as usize);
            match step {
                InStep::Send(size, _) => m.with_transfer(
                    0,
                    size,
                    Direction::DeviceToHost,
                ).with_endpoint_state(
                    0,
                    EndpointState::Ctrl(state_after_in(step)),
                ).ep_0_start_transfer_in(),
                InStep::Wait => m,
                InStep::Stall => m.ep_set_stall_in(0),
            }
        } else {
            self
        }
    }

    /// The client handed the data of an OUT data stage: it is shown the OUT
    /// buffer, of which no byte is data yet.  If it accepts, the endpoint
    /// moves to the status stage; if not, the OUT direction is stalled.
    /// Nothing happens where control transfers cannot be served.
    pub open spec fn ctrl_out(self) -> Model {
        if self.serves_control() {
            let reply = self.reply();
            let m = self.called(Callback::OutData(0, 0, self.endpoints[0].slice_out->Some_0));
            match out_step(reply.out_data) {
                OutStep::Accept => m.with_endpoint_state(
                    0,
                    EndpointState::Ctrl(state_after_out(OutStep::Accept)),
                ),
                OutStep::Stall => m.ep_set_stall_out(0),
            }
        } else {
            self
        }
    }

    /// A SETUP packet handled.  The client is shown the packet in the OUT
    /// buffer of the control endpoint, and its answer decides: the address
    /// that the packet carries is set; or the status stage is completed at
    /// once, for a request without data; or the endpoint enters its IN data
    /// stage and the client is asked for the first packet; or it enters its
    /// OUT data stage and the client is handed the data; or both directions
    /// are stalled.  Nothing happens where control transfers cannot be served.
    pub open spec fn handle_ctrl_setup(self) -> Model {
        if self.serves_control() {
            let e = self.endpoints[0];
            let packet = e.slice_out->Some_0;
            let m = self.called(Callback::Setup(0, packet));
            match setup_step(self.reply().setup, e.transfer_size, e.request_type) {
                SetupStep::Address => m.set_address(SetupPacket::of(packet).value),
                SetupStep::Status => m.complete_ctrl_status(),
                SetupStep::DataIn => m.with_endpoint_state(
                    0,
                    EndpointState::Ctrl(CtrlState::ReadIn),
                ).ctrl_in(),
                SetupStep::DataOut => m.with_endpoint_state(
                    0,
                    EndpointState::Ctrl(CtrlState::WriteOut),
                ).ctrl_out(),
                SetupStep::Stall => m.ep_set_stall_in(0).ep_set_stall_out(0),
            }
        } else {
            self
        }
    }

    /// A SETUP packet handled without a data stage: the client is shown the
    /// packet, and if it accepts a request without data the status stage is
    /// completed.  Nothing happens where control transfers cannot be served.
    pub open spec fn handle_ep0_setup(self) -> Model {
        if self.serves_control() {
            let e = self.endpoints[0];
            let m = self.called(Callback::Setup(0, e.slice_out->Some_0));
            if self.reply().setup == CtrlSetupResult::Accept && e.transfer_size == 0 {
                m.complete_ctrl_status()
            } else {
                m
            }
        } else {
            self
        }
    }
}

impl<R: Registers, C: Client> Usbotg<R, C> {
    fn serves_control(&self) -> (yes: bool)
        requires
            self@.wf(),
        ensures
            yes == self@.serves_control(),
    {
        self.client.is_some() && self.descriptors[0].slice_in.is_some()
            && self.descriptors[0].slice_out.is_some()
    }

    fn set_ctrl_state(&mut self, state: CtrlState)
        requires
            old(self)@.wf(),
            old(self)@.endpoints[0].has_buffers(),
        ensures
            final(self)@ == old(self)@.with_endpoint_state(0, EndpointState::Ctrl(state)),
            final(self)@.wf(),
    {
        self.descriptors[0].state = EndpointState::Ctrl(state);
        assert(self@.endpoints =~= old(self)@.with_endpoint_state(
            0,
            EndpointState::Ctrl(state),
        ).endpoints);
        assert forall|i: int| 0 <= i < NUM_ENDPOINTS implies (#[trigger] self@.endpoints[i]).wf() by {
            assert(old(self)@.endpoints[i].wf());
        }
    }

    /// Tells the client that the status stage begins and that it is over, and
    /// makes the control endpoint idle.
    pub(crate) fn complete_ctrl_status(&mut self)
        requires
            old(self)@.wf(),
        ensures
            final(self)@ == old(self)@.complete_ctrl_status(),
            final(self)@.wf(),
    {
        if !self.serves_control() {
            return ;
        }
        match &mut self.client {
            Some(client) => {
                client.ctrl_status(0);
                client.ctrl_status_complete(0);
            },
            None => {},
        }
        self.set_ctrl_state(CtrlState::Init);
    }

    /// Completes the status stage when the host has acknowledged it.
    pub(crate) fn handle_complete_ctrl_status(&mut self)
        requires
            old(self)@.wf(),
        ensures
            final(self)@ == old(self)@.complete_ctrl_status(),
            final(self)@.wf(),
    {
        self.complete_ctrl_status();
    }

    /// Asks the client for the next packet of an IN data stage and acts on
    /// its answer.
    pub(crate) fn ctrl_in(&mut self)
        requires
            old(self)@.wf(),
        ensures
            final(self)@ == old(self)@.ctrl_in(),
            final(self)@.wf(),
    {
        if !self.serves_control() {
            return ;
        }
        let capacity = self.descriptors[0].room(Direction::DeviceToHost);
        let result = match (&mut self.client, &mut self.descriptors[0].slice_in) {
            (Some(client), Some(buffer)) => client.ctrl_in(0, buffer.as_mut_slice()),
            _ => CtrlInResult::Delay,
        };
        assert(self@.endpoints =~= old(self)@.endpoints.update(
            0,
            EndpointModel {
                slice_in: Some(
                    filled(old(self)@.endpoints[0].slice_in->Some_0, old(self)@.reply().bytes),
                ),
                ..old(self)@.endpoints[0]
            },
        ));
        assert forall|i: int| 0 <= i < NUM_ENDPOINTS implies (#[trigger] self@.endpoints[i]).wf() by {
            assert(old(self)@.endpoints[i].wf());
        }
        let step = on_in_data(result, capacity);
        match step {
            InStep::Send(size, _) => {
                self.descriptors[0].transfer_size = size;
                self.descriptors[0].transfer_direction = Direction::DeviceToHost;
                self.descriptors[0].state = EndpointState::Ctrl(next_in_state(step));
                assert(self@.endpoints =~= old(self)@.called(Callback::InData(0)).with_endpoint(
                    0,
                    EndpointModel {
                        slice_in: Some(
                            filled(
                                old(self)@.endpoints[0].slice_in->Some_0,
                                old(self)@.reply().bytes,
                            ),
                        ),
                        ..old(self)@.endpoints[0]
                    },
                ).with_transfer(0, size, Direction::DeviceToHost).with_endpoint_state(
                    0,
                    EndpointState::Ctrl(state_after_in(step)),
                ).endpoints);
                assert forall|i: int| 0 <= i < NUM_ENDPOINTS implies (#[trigger] self@.endpoints[
                    i
                ]).wf() by {
                    assert(old(self)@.endpoints[i].wf());
                }
                self.ep_0_start_transfer_in();
            },
            InStep::Wait => {},
            InStep::Stall => {
                self.stall_in(0);
            },
        }
    }

    /// Hands the client the data of an OUT data stage and acts on its answer.
    pub(crate) fn ctrl_out(&mut self)
        requires
            old(self)@.wf(),
        ensures
            final(self)@ == old(self)@.ctrl_out(),
            final(self)@.wf(),
    {
        if !self.serves_control() {
            return ;
        }
        let result = match (&mut self.client, &self.descriptors[0].slice_out) {
            (Some(client), Some(buffer)) => client.ctrl_out(0, 0, buffer.as_slice()),
            _ => CtrlOutResult::Delay,
        };
        match on_out_data(result) {
            OutStep::Accept => {
                self.set_ctrl_state(CtrlState::ReadStatus);
            },
            OutStep::Stall => {
                self.stall_out(0);
            },
        }
    }

    /// Handles a SETUP packet that was received on the control endpoint.
    pub(crate) fn handle_ctrl_setup(&mut self)
        requires
            old(self)@.wf(),
        ensures
            final(self)@ == old(self)@.handle_ctrl_setup(),
            final(self)@.wf(),
    {
        if !self.serves_control() {
            return ;
        }
        let size = self.descriptors[0].transfer_size;
        let direction = self.descriptors[0].request_type;
        assert(self@.endpoints[0].wf());
        let address: u16 = match &self.descriptors[0].slice_out {
            Some(packet) => match decode_setup(packet.as_slice()) {
                Some(setup) => setup.value,
                None => 0,
            },
            None => 0,
        };
        let result = match (&mut self.client, &self.descriptors[0].slice_out) {
            (Some(client), Some(packet)) => client.ctrl_setup(0, packet.as_slice()),
            _ => CtrlSetupResult::Error,
        };
        match on_setup(result, size, direction) {
            SetupStep::Address => {
                self.set_address(address);
            },
            SetupStep::Status => {
                self.complete_ctrl_status();
            },
            SetupStep::DataIn => {
                self.set_ctrl_state(CtrlState::ReadIn);
                self.ctrl_in();
            },
            SetupStep::DataOut => {
                self.set_ctrl_state(CtrlState::WriteOut);
                self.ctrl_out();
            },
            SetupStep::Stall => {
                self.stall_in(0);
                self.stall_out(0);
            },
        }
    }

    /// Handles a SETUP packet of a request that has no data stage.
    pub fn handle_ep0_setup(&mut self)
        requires
            old(self)@.wf(),
        ensures
            final(self)@ == old(self)@.handle_ep0_setup(),
            final(self)@.wf(),
    {
        if !self.serves_control() {
            return ;
        }
        let size = self.descriptors[0].transfer_size;
        let result = match (&mut self.client, &self.descriptors[0].slice_out) {
            (Some(client), Some(packet)) => client.ctrl_setup(0, packet.as_slice()),
            _ => CtrlSetupResult::Error,
        };
        if result == CtrlSetupResult::Accept && size == 0 {
            self.complete_ctrl_status();
        }
    }
}

} // verus!
