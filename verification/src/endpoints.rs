//! Endpoint management: activation, stall, and the transfers of the control
//! endpoint.

use vstd::prelude::*;
use crate::bits::{any_set, extract, field, is_set, place, placed};
use crate::client::Client;
use crate::endpoint::Endpoint;
use crate::fields::{
    DAINTMSK_OEPM_SHIFT, DCFG_DSPD_MASK, DCFG_DSPD_SHIFT, DIEPTSIZ0_PKTCNT_MASK,
    DOEPTSIZ0_PKTCNT_MASK, DOEPTSIZ0_STUPCNT_MASK, DOEPTSIZ0_STUPCNT_SHIFT, EP0TSIZ_PKTCNT_SHIFT,
    EP0TSIZ_XFRSIZ_MASK, EP0TSIZ_XFRSIZ_SHIFT, EPCTL_CNAK, EPCTL_EPDIS, EPCTL_EPENA,
    EPCTL_EPTYP_MASK, EPCTL_EPTYP_SHIFT, EPCTL_MPSIZ0_MASK, EPCTL_MPSIZ_MASK, EPCTL_SD0PID,
    EPCTL_SNAK, EPCTL_STALL, EPCTL_TXFNUM_MASK, EPCTL_TXFNUM_SHIFT, EPCTL_USBAEP,
};
use crate::regs::{Register, Registers, NUM_ENDPOINTS};
use crate::types::{
    BulkInState, BulkOutState, CtrlState, Direction, EndpointState, InterruptState, TransferType,
    UsbError,
};
use crate::usbotg::{Model, Usbotg, USB_OTG_SPEED_FULL};

verus! {

broadcast use {Endpoint::view_unfolds, Usbotg::view_unfolds};

/// Largest packet of the control endpoint in bytes.
pub const EP0_MAX_PACKET: usize = 64;

/// The packet size that an interrupt endpoint starts with.
pub const INTERRUPT_PACKET_SIZE: u32 = 64;

/// The core identifier from which on the core re-arms the control OUT
/// endpoint by itself.
pub const USB_OTG_CORE_ID_300A: u32 = 0x4F54_300A;

/// The number of bytes that the control OUT endpoint is armed for: room for
/// three SETUP packets.
pub const SETUP_ROOM: u32 = 24;

/// The number of back-to-back SETUP packets that the control OUT endpoint
/// takes.
pub const SETUP_COUNT: u32 = 3;

/// The code of a transfer type in the endpoint type field.
pub open spec fn type_code(transfer_type: TransferType) -> u32 {
    match transfer_type {
        TransferType::Control => 0,
        TransferType::Isochronous => 1,
        TransferType::Bulk => 2,
        TransferType::Interrupt => 3,
    }
}

/// The bit of an IN endpoint in the all-endpoint interrupt mask.
pub open spec fn in_bit(endpoint: usize) -> u32 {
    1u32 << endpoint
}

/// The bit of an OUT endpoint in the all-endpoint interrupt mask.
pub open spec fn out_bit(endpoint: usize) -> u32 {
    1u32 << (endpoint + DAINTMSK_OEPM_SHIFT)
}

/// The state that activation of its IN side gives an endpoint.  The OUT side
/// of a bulk endpoint stays as it is.
pub open spec fn state_for_in(transfer_type: TransferType, state: EndpointState) -> EndpointState {
    match transfer_type {
        TransferType::Bulk => EndpointState::Bulk(
            Some(BulkInState::Init),
            match state {
                EndpointState::Bulk(_, out) => out,
                _ => None,
            },
        ),
        TransferType::Interrupt => EndpointState::Interrupt(
            INTERRUPT_PACKET_SIZE,
            InterruptState::Init,
        ),
        _ => EndpointState::Ctrl(CtrlState::Init),
    }
}

/// The state that activation of its OUT side gives an endpoint.  The IN side
/// of a bulk endpoint stays as it is.
pub open spec fn state_for_out(transfer_type: TransferType, state: EndpointState) -> EndpointState {
    match transfer_type {
        TransferType::Bulk => EndpointState::Bulk(
            match state {
                EndpointState::Bulk(inward, _) => inward,
                _ => None,
            },
            Some(BulkOutState::Init),
        ),
        TransferType::Interrupt => EndpointState::Interrupt(
            INTERRUPT_PACKET_SIZE,
            InterruptState::Init,
        ),
        _ => EndpointState::Ctrl(CtrlState::Init),
    }
}

impl Model {
    /// Whether `endpoint` can be activated for `transfer_type`, and the error
    /// if not: a configuration error for an endpoint that does not exist, an
    /// unsupported feature for an isochronous endpoint, a configuration error
    /// for an endpoint that lacks a buffer.  Endpoint 0 is a control endpoint
    /// whatever type is asked for.
    pub open spec fn can_activate(self, transfer_type: TransferType, endpoint: usize) -> Result<
        (),
        UsbError,
    > {
        if endpoint >= NUM_ENDPOINTS {
            Err(UsbError::Configuration)
        } else if endpoint != 0 && transfer_type == TransferType::Isochronous {
            Err(UsbError::UnsupportedFeature)
        } else if !self.endpoints[endpoint as int].has_buffers() {
            Err(UsbError::Configuration)
        } else {
            Ok(())
        }
    }

    /// Activation of the IN side of `endpoint`.  Where it is refused nothing
    /// changes.  Otherwise the endpoint's interrupt is unmasked, the endpoint
    /// gets its initial state, and if the core does not have it active yet it
    /// is set up: endpoint 0 is enabled, another endpoint gets its type, its
    /// transmit FIFO and data toggle DATA0.
    pub open spec fn activate_endpoint_in(self, transfer_type: TransferType, endpoint: usize) -> (
        Result<(), UsbError>,
        Model,
    ) {
        if self.can_activate(transfer_type, endpoint) is Err {
            (self.can_activate(transfer_type, endpoint), self)
        } else {
            let m = self.modify(Register::Daintmsk, in_bit(endpoint), in_bit(endpoint));
            let active = any_set(m.bus.next(), EPCTL_USBAEP);
            let m = m.read(Register::Diepctl(endpoint));
            if endpoint == 0 {
                let m = if active {
                    m
                } else {
                    m.modify(
                        Register::Diepctl(0),
                        EPCTL_MPSIZ0_MASK | EPCTL_TXFNUM_MASK | EPCTL_EPENA,
                        EPCTL_EPENA,
                    )
                };
                (Ok(()), m.with_endpoint_state(0, EndpointState::Ctrl(CtrlState::Init)))
            } else {
                let m = if active {
                    m
                } else {
                    m.modify(
                        Register::Diepctl(endpoint),
                        EPCTL_MPSIZ_MASK | EPCTL_EPTYP_MASK | EPCTL_TXFNUM_MASK | EPCTL_SD0PID
                            | EPCTL_USBAEP,
                        placed(type_code(transfer_type), EPCTL_EPTYP_MASK, EPCTL_EPTYP_SHIFT)
                            | placed(endpoint as u32, EPCTL_TXFNUM_MASK, EPCTL_TXFNUM_SHIFT)
                            | EPCTL_SD0PID | EPCTL_USBAEP,
                    )
                };
                (
                    Ok(()),
                    m.with_endpoint_state(
                        endpoint as int,
                        state_for_in(transfer_type, self.endpoints[endpoint as int].state),
                    ),
                )
            }
        }
    }

    /// Activation of the OUT side of `endpoint`, in the same way.
    pub open spec fn activate_endpoint_out(self, transfer_type: TransferType, endpoint: usize) -> (
        Result<(), UsbError>,
        Model,
    ) {
        if self.can_activate(transfer_type, endpoint) is Err {
            (self.can_activate(transfer_type, endpoint), self)
        } else {
            let m = self.modify(Register::Daintmsk, out_bit(endpoint), out_bit(endpoint));
            let active = any_set(m.bus.next(), EPCTL_USBAEP);
            let m = m.read(Register::Doepctl(endpoint));
            if endpoint == 0 {
                let m = if active {
                    m
                } else {
                    m.modify(Register::Doepctl(0), EPCTL_EPENA, EPCTL_EPENA)
                };
                (Ok(()), m.with_endpoint_state(0, EndpointState::Ctrl(CtrlState::Init)))
            } else {
                let m = if active {
                    m
                } else {
                    m.modify(
                        Register::Doepctl(endpoint),
                        EPCTL_MPSIZ_MASK | EPCTL_EPTYP_MASK | EPCTL_SD0PID | EPCTL_USBAEP,
                        placed(type_code(transfer_type), EPCTL_EPTYP_MASK, EPCTL_EPTYP_SHIFT)
                            | EPCTL_SD0PID | EPCTL_USBAEP,
                    )
                };
                (
                    Ok(()),
                    m.with_endpoint_state(
                        endpoint as int,
                        state_for_out(transfer_type, self.endpoints[endpoint as int].state),
                    ),
                )
            }
        }
    }

    /// Activation of both sides of `endpoint`: the IN side first, and the
    /// OUT side if that went well.
    pub open spec fn endpoint_in_out_enable(self, transfer_type: TransferType, endpoint: usize) -> (
        Result<(), UsbError>,
        Model,
    ) {
        let (result, m) = self.activate_endpoint_in(transfer_type, endpoint);
        if result is Err {
            (result, m)
        } else {
            m.activate_endpoint_out(transfer_type, endpoint)
        }
    }

    /// The control endpoint activated in both directions and the device set
    /// to full speed, as enumeration asks for.
    pub open spec fn usb_reset(self) -> (Result<(), UsbError>, Model) {
        let (out, m) = self.activate_endpoint_out(TransferType::Control, 0);
        if out is Err {
            (out, m)
        } else {
            let (inward, m) = m.activate_endpoint_in(TransferType::Control, 0);
            if inward is Err {
                (inward, m)
            } else {
                (
                    Ok(()),
                    m.modify(
                        Register::Dcfg,
                        DCFG_DSPD_MASK,
                        placed(USB_OTG_SPEED_FULL, DCFG_DSPD_MASK, DCFG_DSPD_SHIFT),
                    ),
                )
            }
        }
    }

    /// STALL set on the IN side of `endpoint`.  An endpoint other than 0 is
    /// read first, and if it is not enabled its disable request is withdrawn.
    pub open spec fn ep_set_stall_in(self, endpoint: usize) -> Model {
        if endpoint == 0 {
            self.modify(Register::Diepctl(0), EPCTL_STALL, EPCTL_STALL)
        } else {
            let enabled = any_set(self.bus.next(), EPCTL_EPENA);
            let m = self.read(Register::Diepctl(endpoint));
            let m = if enabled {
                m
            } else {
                m.modify(Register::Diepctl(endpoint), EPCTL_EPDIS, 0)
            };
            m.modify(Register::Diepctl(endpoint), EPCTL_STALL, EPCTL_STALL)
        }
    }

    /// STALL set on the OUT side of `endpoint`, in the same way.
    pub open spec fn ep_set_stall_out(self, endpoint: usize) -> Model {
        if endpoint == 0 {
            self.modify(Register::Doepctl(0), EPCTL_STALL, EPCTL_STALL)
        } else {
            let enabled = any_set(self.bus.next(), EPCTL_EPENA);
            let m = self.read(Register::Doepctl(endpoint));
            let m = if enabled {
                m
            } else {
                m.modify(Register::Doepctl(endpoint), EPCTL_EPDIS, 0)
            };
            m.modify(Register::Doepctl(endpoint), EPCTL_STALL, EPCTL_STALL)
        }
    }

    /// STALL cleared on the IN side of `endpoint`.  An endpoint other than 0
    /// is read then, and if the core has it as a bulk or an interrupt
    /// endpoint its data toggle is set back to DATA0.
    pub open spec fn ep_clear_stall_in(self, endpoint: usize) -> Model {
        if endpoint == 0 {
            self.modify(Register::Diepctl(0), EPCTL_STALL, 0)
        } else {
            let m = self.modify(Register::Diepctl(endpoint), EPCTL_STALL, 0);
            let code = field(m.bus.next(), EPCTL_EPTYP_MASK, EPCTL_EPTYP_SHIFT);
            let m = m.read(Register::Diepctl(endpoint));
            if code == type_code(TransferType::Interrupt) || code == type_code(TransferType::Bulk) {
                m.modify(Register::Diepctl(endpoint), EPCTL_SD0PID, EPCTL_SD0PID)
            } else {
                m
            }
        }
    }

    /// STALL cleared on the OUT side of `endpoint`, in the same way.
    pub open spec fn ep_clear_stall_out(self, endpoint: usize) -> Model {
        if endpoint == 0 {
            self.modify(Register::Doepctl(0), EPCTL_STALL, 0)
        } else {
            let m = self.modify(Register::Doepctl(endpoint), EPCTL_STALL, 0);
            let code = field(m.bus.next(), EPCTL_EPTYP_MASK, EPCTL_EPTYP_SHIFT);
            let m = m.read(Register::Doepctl(endpoint));
            if code == type_code(TransferType::Interrupt) || code == type_code(TransferType::Bulk) {
                m.modify(Register::Doepctl(endpoint), EPCTL_SD0PID, EPCTL_SD0PID)
            } else {
                m
            }
        }
    }

    /// `endpoint` disabled in both directions: its interrupts masked, the
    /// core told to drop it and to stop its transfers, and its descriptor
    /// reset.  Refused with a configuration error, and without any change,
    /// for the control endpoint and for an endpoint that does not exist.
    pub open spec fn endpoint_disable(self, endpoint: usize) -> (Result<(), UsbError>, Model) {
        if endpoint == 0 || endpoint >= NUM_ENDPOINTS {
            (Err(UsbError::Configuration), self)
        } else {
            (
                Ok(()),
                self.modify(Register::Daintmsk, in_bit(endpoint) | out_bit(endpoint), 0).modify(
                    Register::Diepctl(endpoint),
                    EPCTL_USBAEP | EPCTL_EPDIS | EPCTL_SNAK,
                    EPCTL_EPDIS | EPCTL_SNAK,
                ).modify(
                    Register::Doepctl(endpoint),
                    EPCTL_USBAEP | EPCTL_EPDIS | EPCTL_SNAK,
                    EPCTL_EPDIS | EPCTL_SNAK,
                ).with_endpoint(endpoint as int, self.endpoints[endpoint as int].reset()),
            )
        }
    }

    /// The size of the packet that the control endpoint sends next: the
    /// pending transfer, cut to the largest packet.
    pub open spec fn ep0_in_size(self) -> usize {
        if self.endpoints[0].transfer_size > EP0_MAX_PACKET {
            EP0_MAX_PACKET
        } else {
            self.endpoints[0].transfer_size
        }
    }

    /// An IN transfer started on the control endpoint: one packet of the
    /// pending size, cut to the largest packet, is programmed and the
    /// endpoint is enabled; for a packet that holds data the FIFO-empty
    /// interrupt of the endpoint is unmasked, so that the data is asked for.
    pub open spec fn ep_0_start_transfer_in(self) -> Model {
        let size = self.ep0_in_size();
        let m = if size == 0 {
            self.modify(
                Register::Dieptsiz(0),
                DIEPTSIZ0_PKTCNT_MASK | EP0TSIZ_XFRSIZ_MASK,
                placed(1, DIEPTSIZ0_PKTCNT_MASK, EP0TSIZ_PKTCNT_SHIFT),
            )
        } else {
            self.modify(
                Register::Dieptsiz(0),
                DIEPTSIZ0_PKTCNT_MASK | EP0TSIZ_XFRSIZ_MASK,
                0,
            ).with_transfer_size(0, size).modify(
                Register::Dieptsiz(0),
                DIEPTSIZ0_PKTCNT_MASK | EP0TSIZ_XFRSIZ_MASK,
                placed(1, DIEPTSIZ0_PKTCNT_MASK, EP0TSIZ_PKTCNT_SHIFT) | placed(
                    size as u32,
                    EP0TSIZ_XFRSIZ_MASK,
                    EP0TSIZ_XFRSIZ_SHIFT,
                ),
            )
        };
        let m = m.modify(Register::Diepctl(0), EPCTL_CNAK | EPCTL_EPENA, EPCTL_CNAK | EPCTL_EPENA);
        if size > 0 {
            m.modify(Register::Diepempmsk, in_bit(0), in_bit(0))
        } else {
            m
        }
    }

    /// The size that is pending on the control endpoint once an OUT transfer
    /// is started: nothing if nothing was pending, else one largest packet,
    /// or what the OUT buffer holds if that is less.
    pub open spec fn ep0_out_size(self) -> usize {
        if self.endpoints[0].transfer_size == 0 {
            0
        } else if self.endpoints[0].room(Direction::HostToDevice) < EP0_MAX_PACKET {
            self.endpoints[0].room(Direction::HostToDevice) as usize
        } else {
            EP0_MAX_PACKET
        }
    }

    /// An OUT transfer started on the control endpoint: one packet of the
    /// largest size is programmed and the endpoint is enabled; what is
    /// pending is pending from the host.
    pub open spec fn ep_0_start_transfer_out(self) -> Model {
        self.modify(Register::Doeptsiz(0), EP0TSIZ_XFRSIZ_MASK | DOEPTSIZ0_PKTCNT_MASK, 0)
            .with_transfer(0, self.ep0_out_size(), Direction::HostToDevice).modify(
            Register::Doeptsiz(0),
            DOEPTSIZ0_PKTCNT_MASK | EP0TSIZ_XFRSIZ_MASK,
            placed(1, DOEPTSIZ0_PKTCNT_MASK, EP0TSIZ_PKTCNT_SHIFT) | placed(
                EP0_MAX_PACKET as u32,
                EP0TSIZ_XFRSIZ_MASK,
                EP0TSIZ_XFRSIZ_SHIFT,
            ),
        ).modify(Register::Doepctl(0), EPCTL_CNAK | EPCTL_EPENA, EPCTL_CNAK | EPCTL_EPENA)
    }

    /// The control OUT endpoint armed for the next SETUP packets.  The core
    /// identifier is read first; a core that is newer than 3.00a has its
    /// endpoint read too and is left alone if the endpoint is enabled.
    pub open spec fn ep0_out_start(self) -> Model {
        let newer = self.bus.next() > USB_OTG_CORE_ID_300A;
        let m = self.read(Register::Cid);
        let enabled = any_set(m.bus.next(), EPCTL_EPENA);
        let m = if newer {
            m.read(Register::Doepctl(0))
        } else {
            m
        };
        if newer && enabled {
            m
        } else {
            m.write(Register::Doeptsiz(0), 0).modify(
                Register::Doeptsiz(0),
                DOEPTSIZ0_PKTCNT_MASK | EP0TSIZ_XFRSIZ_MASK | DOEPTSIZ0_STUPCNT_MASK,
                placed(1, DOEPTSIZ0_PKTCNT_MASK, EP0TSIZ_PKTCNT_SHIFT) | placed(
                    SETUP_ROOM,
                    EP0TSIZ_XFRSIZ_MASK,
                    EP0TSIZ_XFRSIZ_SHIFT,
                ) | placed(SETUP_COUNT, DOEPTSIZ0_STUPCNT_MASK, DOEPTSIZ0_STUPCNT_SHIFT),
            )
        }
    }
}

/// The bit of an IN endpoint in the all-endpoint interrupt mask.
pub(crate) fn in_mask(endpoint: usize) -> (bit: u32)
    requires
        endpoint < NUM_ENDPOINTS,
    ensures
        bit == in_bit(endpoint),
{
    1u32 << endpoint
}

/// The bit of an OUT endpoint in the all-endpoint interrupt mask.
pub(crate) fn out_mask(endpoint: usize) -> (bit: u32)
    requires
        endpoint < NUM_ENDPOINTS,
    ensures
        bit == out_bit(endpoint),
{
    1u32 << (endpoint as u32 + DAINTMSK_OEPM_SHIFT)
}

/// The code of a transfer type in the endpoint type field.
pub fn ep_type(transfer_type: TransferType) -> (code: u32)
    ensures
        code == type_code(transfer_type),
{
    match transfer_type {
        TransferType::Control => 0,
        TransferType::Isochronous => 1,
        TransferType::Bulk => 2,
        TransferType::Interrupt => 3,
    }
}

impl<R: Registers, C: Client> Usbotg<R, C> {
    fn check_activation(&self, transfer_type: TransferType, endpoint: usize) -> (result: Result<
        (),
        UsbError,
    >)
        requires
            self@.wf(),
        ensures
            result == self@.can_activate(transfer_type, endpoint),
    {
        if endpoint >= NUM_ENDPOINTS {
            return Err(UsbError::Configuration);
        }
        if endpoint != 0 && transfer_type == TransferType::Isochronous {
            return Err(UsbError::UnsupportedFeature);
        }
        if self.descriptors[endpoint].slice_in.is_none()
            || self.descriptors[endpoint].slice_out.is_none() {
            return Err(UsbError::Configuration);
        }
        Ok(())
    }

    fn set_endpoint_state(&mut self, endpoint: usize, state: EndpointState)
        requires
            old(self)@.wf(),
            endpoint < NUM_ENDPOINTS,
            old(self)@.endpoints[endpoint as int].has_buffers() || state is Disabled,
            endpoint == 0 ==> state is Ctrl || state is Disabled,
        ensures
            final(self)@ == old(self)@.with_endpoint_state(endpoint as int, state),
            final(self)@.wf(),
    {
        self.descriptors[endpoint].state = state;
        assert(self@.endpoints =~= old(self)@.with_endpoint_state(endpoint as int, state).endpoints);
        assert forall|i: int| 0 <= i < NUM_ENDPOINTS implies (#[trigger] self@.endpoints[i]).wf() by {
            assert(old(self)@.endpoints[i].wf());
        }
    }

    pub(crate) fn set_transfer(&mut self, endpoint: usize, size: usize, direction: Direction)
        requires
            old(self)@.wf(),
            endpoint < NUM_ENDPOINTS,
            size <= old(self)@.endpoints[endpoint as int].room(direction),
        ensures
            final(self)@ == old(self)@.with_transfer(endpoint as int, size, direction),
            final(self)@.wf(),
    {
        self.descriptors[endpoint].transfer_size = size;
        self.descriptors[endpoint].transfer_direction = direction;
        assert(self@.endpoints =~= old(self)@.with_transfer(
            endpoint as int,
            size,
            direction,
        ).endpoints);
        assert forall|i: int| 0 <= i < NUM_ENDPOINTS implies (#[trigger] self@.endpoints[i]).wf() by {
            assert(old(self)@.endpoints[i].wf());
        }
    }

    /// Activates the IN side of `endpoint` for `transfer_type`.
    ///
    /// Fails with a configuration error when the endpoint does not exist or
    /// lacks a buffer, and with an unsupported feature for an isochronous
    /// endpoint; nothing is changed then.
    pub fn activate_endpoint_in(&mut self, transfer_type: TransferType, endpoint: usize) -> (result:
        Result<(), UsbError>)
        requires
            old(self)@.wf(),
        ensures
            (result, final(self)@) == old(self)@.activate_endpoint_in(transfer_type, endpoint),
            result == old(self)@.can_activate(transfer_type, endpoint),
            final(self)@.wf(),
    {
        match self.check_activation(transfer_type, endpoint) {
            Ok(()) => {},
            Err(e) => {
                return Err(e);
            },
        }
        let bit = in_mask(endpoint);
        self.modify(Register::Daintmsk, bit, bit);
        let control = self.read(Register::Diepctl(endpoint));
        let active = is_set(control, EPCTL_USBAEP);
        if endpoint == 0 {
            if !active {
                self.modify(
                    Register::Diepctl(0),
                    EPCTL_MPSIZ0_MASK | EPCTL_TXFNUM_MASK | EPCTL_EPENA,
                    EPCTL_EPENA,
                );
            }
            self.set_endpoint_state(0, EndpointState::Ctrl(CtrlState::Init));
        } else {
            if !active {
                self.modify(
                    Register::Diepctl(endpoint),
                    EPCTL_MPSIZ_MASK | EPCTL_EPTYP_MASK | EPCTL_TXFNUM_MASK | EPCTL_SD0PID
                        | EPCTL_USBAEP,
                    place(ep_type(transfer_type), EPCTL_EPTYP_MASK, EPCTL_EPTYP_SHIFT) | place(
                        endpoint as u32,
                        EPCTL_TXFNUM_MASK,
                        EPCTL_TXFNUM_SHIFT,
                    ) | EPCTL_SD0PID | EPCTL_USBAEP,
                );
            }
            let state = match transfer_type {
                TransferType::Bulk => EndpointState::Bulk(
                    Some(BulkInState::Init),
                    match self.descriptors[endpoint].state {
                        EndpointState::Bulk(_, out) => out,
                        _ => None,
                    },
                ),
                TransferType::Interrupt => EndpointState::Interrupt(
                    INTERRUPT_PACKET_SIZE,
                    InterruptState::Init,
                ),
                _ => EndpointState::Ctrl(CtrlState::Init),
            };
            self.set_endpoint_state(endpoint, state);
        }
        Ok(())
    }

    /// Activates the OUT side of `endpoint` for `transfer_type`.
    ///
    /// Fails with a configuration error when the endpoint does not exist or
    /// lacks a buffer, and with an unsupported feature for an isochronous
    /// endpoint; nothing is changed then.
    pub fn activate_endpoint_out(&mut self, transfer_type: TransferType, endpoint: usize) -> (result:
        Result<(), UsbError>)
        requires
            old(self)@.wf(),
        ensures
            (result, final(self)@) == old(self)@.activate_endpoint_out(transfer_type, endpoint),
            result == old(self)@.can_activate(transfer_type, endpoint),
            final(self)@.wf(),
    {
        match self.check_activation(transfer_type, endpoint) {
            Ok(()) => {},
            Err(e) => {
                return Err(e);
            },
        }
        let bit = out_mask(endpoint);
        self.modify(Register::Daintmsk, bit, bit);
        let control = self.read(Register::Doepctl(endpoint));
        let active = is_set(control, EPCTL_USBAEP);
        if endpoint == 0 {
            if !active {
                self.modify(Register::Doepctl(0), EPCTL_EPENA, EPCTL_EPENA);
            }
            self.set_endpoint_state(0, EndpointState::Ctrl(CtrlState::Init));
        } else {
            if !active {
                self.modify(
                    Register::Doepctl(endpoint),
                    EPCTL_MPSIZ_MASK | EPCTL_EPTYP_MASK | EPCTL_SD0PID | EPCTL_USBAEP,
                    place(ep_type(transfer_type), EPCTL_EPTYP_MASK, EPCTL_EPTYP_SHIFT)
                        | EPCTL_SD0PID | EPCTL_USBAEP,
                );
            }
            let state = match transfer_type {
                TransferType::Bulk => EndpointState::Bulk(
                    match self.descriptors[endpoint].state {
                        EndpointState::Bulk(inward, _) => inward,
                        _ => None,
                    },
                    Some(BulkOutState::Init),
                ),
                TransferType::Interrupt => EndpointState::Interrupt(
                    INTERRUPT_PACKET_SIZE,
                    InterruptState::Init,
                ),
                _ => EndpointState::Ctrl(CtrlState::Init),
            };
            self.set_endpoint_state(endpoint, state);
        }
        Ok(())
    }

    /// Enables `endpoint` for IN transfers of `transfer_type`.
    pub fn endpoint_in_enable(&mut self, transfer_type: TransferType, endpoint: usize) -> (result:
        Result<(), UsbError>)
        requires
            old(self)@.wf(),
        ensures
            (result, final(self)@) == old(self)@.activate_endpoint_in(transfer_type, endpoint),
            final(self)@.wf(),
    {
        self.activate_endpoint_in(transfer_type, endpoint)
    }

    /// Enables `endpoint` for OUT transfers of `transfer_type`.
    pub fn endpoint_out_enable(&mut self, transfer_type: TransferType, endpoint: usize) -> (result:
        Result<(), UsbError>)
        requires
            old(self)@.wf(),
        ensures
            (result, final(self)@) == old(self)@.activate_endpoint_out(transfer_type, endpoint),
            final(self)@.wf(),
    {
        self.activate_endpoint_out(transfer_type, endpoint)
    }

    /// Enables `endpoint` for transfers of `transfer_type` in both
    /// directions.
    pub fn endpoint_in_out_enable(&mut self, transfer_type: TransferType, endpoint: usize) -> (result:
        Result<(), UsbError>)
        requires
            old(self)@.wf(),
        ensures
            (result, final(self)@) == old(self)@.endpoint_in_out_enable(transfer_type, endpoint),
            final(self)@.wf(),
    {
        match self.endpoint_in_enable(transfer_type, endpoint) {
            Ok(()) => self.endpoint_out_enable(transfer_type, endpoint),
            Err(e) => Err(e),
        }
    }

    /// Activates the control endpoint in both directions and sets the device
    /// to full speed.
    pub(crate) fn usb_reset(&mut self) -> (result: Result<(), UsbError>)
        requires
            old(self)@.wf(),
        ensures
            (result, final(self)@) == old(self)@.usb_reset(),
            final(self)@.wf(),
    {
        match self.activate_endpoint_out(TransferType::Control, 0) {
            Ok(()) => {},
            Err(e) => {
                return Err(e);
            },
        }
        match self.activate_endpoint_in(TransferType::Control, 0) {
            Ok(()) => {},
            Err(e) => {
                return Err(e);
            },
        }
        self.set_device_speed(USB_OTG_SPEED_FULL);
        Ok(())
    }

    /// Sets STALL on the IN side of `endpoint`.
    pub(crate) fn stall_in(&mut self, endpoint: usize)
        requires
            endpoint < NUM_ENDPOINTS,
        ensures
            final(self)@ == old(self)@.ep_set_stall_in(endpoint),
            final(self)@ == old(self)@.with_bus(final(self)@.bus),
    {
        if endpoint != 0 {
            let control = self.read(Register::Diepctl(endpoint));
            if !is_set(control, EPCTL_EPENA) {
                self.modify(Register::Diepctl(endpoint), EPCTL_EPDIS, 0);
            }
        }
        self.modify(Register::Diepctl(endpoint), EPCTL_STALL, EPCTL_STALL);
    }

    /// Sets STALL on the OUT side of `endpoint`.
    pub(crate) fn stall_out(&mut self, endpoint: usize)
        requires
            endpoint < NUM_ENDPOINTS,
        ensures
            final(self)@ == old(self)@.ep_set_stall_out(endpoint),
            final(self)@ == old(self)@.with_bus(final(self)@.bus),
    {
        if endpoint != 0 {
            let control = self.read(Register::Doepctl(endpoint));
            if !is_set(control, EPCTL_EPENA) {
                self.modify(Register::Doepctl(endpoint), EPCTL_EPDIS, 0);
            }
        }
        self.modify(Register::Doepctl(endpoint), EPCTL_STALL, EPCTL_STALL);
    }

    /// Clears STALL on the IN side of `endpoint`.
    pub(crate) fn unstall_in(&mut self, endpoint: usize)
        requires
            endpoint < NUM_ENDPOINTS,
        ensures
            final(self)@ == old(self)@.ep_clear_stall_in(endpoint),
            final(self)@ == old(self)@.with_bus(final(self)@.bus),
    {
        self.modify(Register::Diepctl(endpoint), EPCTL_STALL, 0);
        if endpoint != 0 {
            let control = self.read(Register::Diepctl(endpoint));
            let code = extract(control, EPCTL_EPTYP_MASK, EPCTL_EPTYP_SHIFT);
            if code == 3 || code == 2 {
                self.modify(Register::Diepctl(endpoint), EPCTL_SD0PID, EPCTL_SD0PID);
            }
        }
    }

    /// Clears STALL on the OUT side of `endpoint`.
    pub(crate) fn unstall_out(&mut self, endpoint: usize)
        requires
            endpoint < NUM_ENDPOINTS,
        ensures
            final(self)@ == old(self)@.ep_clear_stall_out(endpoint),
            final(self)@ == old(self)@.with_bus(final(self)@.bus),
    {
        self.modify(Register::Doepctl(endpoint), EPCTL_STALL, 0);
        if endpoint != 0 {
            let control = self.read(Register::Doepctl(endpoint));
            let code = extract(control, EPCTL_EPTYP_MASK, EPCTL_EPTYP_SHIFT);
            if code == 3 || code == 2 {
                self.modify(Register::Doepctl(endpoint), EPCTL_SD0PID, EPCTL_SD0PID);
            }
        }
    }

    /// Sets STALL on the IN side of `endpoint`.  Fails with a configuration
    /// error, and touches nothing, when there is no such endpoint.
    pub fn ep_set_stall_in(&mut self, endpoint: usize) -> (result: Result<(), UsbError>)
        ensures
            endpoint < NUM_ENDPOINTS ==> result is Ok && final(self)@ == old(self)@.ep_set_stall_in(
                endpoint,
            ),
            endpoint >= NUM_ENDPOINTS ==> result == Err::<(), UsbError>(UsbError::Configuration)
                && final(self)@ == old(self)@,
            old(self)@.wf() ==> final(self)@.wf(),
    {
        if endpoint >= NUM_ENDPOINTS {
            return Err(UsbError::Configuration);
        }
        self.stall_in(endpoint);
        Ok(())
    }

    /// Sets STALL on the OUT side of `endpoint`.  Fails with a configuration
    /// error, and touches nothing, when there is no such endpoint.
    pub fn ep_set_stall_out(&mut self, endpoint: usize) -> (result: Result<(), UsbError>)
        ensures
            endpoint < NUM_ENDPOINTS ==> result is Ok && final(self)@ == old(
                self,
            )@.ep_set_stall_out(endpoint),
            endpoint >= NUM_ENDPOINTS ==> result == Err::<(), UsbError>(UsbError::Configuration)
                && final(self)@ == old(self)@,
            old(self)@.wf() ==> final(self)@.wf(),
    {
        if endpoint >= NUM_ENDPOINTS {
            return Err(UsbError::Configuration);
        }
        self.stall_out(endpoint);
        Ok(())
    }

    /// Clears STALL on the IN side of `endpoint`; on an endpoint other than
    /// the control endpoint the data toggle goes back to DATA0 with it.  Fails
    /// with a configuration error, and touches nothing, when there is no such
    /// endpoint.
    pub fn ep_clear_stall_in(&mut self, endpoint: usize) -> (result: Result<(), UsbError>)
        ensures
            endpoint < NUM_ENDPOINTS ==> result is Ok && final(self)@ == old(
                self,
            )@.ep_clear_stall_in(endpoint),
            endpoint >= NUM_ENDPOINTS ==> result == Err::<(), UsbError>(UsbError::Configuration)
                && final(self)@ == old(self)@,
            old(self)@.wf() ==> final(self)@.wf(),
    {
        if endpoint >= NUM_ENDPOINTS {
            return Err(UsbError::Configuration);
        }
        self.unstall_in(endpoint);
        Ok(())
    }

    /// Clears STALL on the OUT side of `endpoint`; on an endpoint other than
    /// the control endpoint the data toggle goes back to DATA0 with it.  Fails
    /// with a configuration error, and touches nothing, when there is no such
    /// endpoint.
    pub fn ep_clear_stall_out(&mut self, endpoint: usize) -> (result: Result<(), UsbError>)
        ensures
            endpoint < NUM_ENDPOINTS ==> result is Ok && final(self)@ == old(
                self,
            )@.ep_clear_stall_out(endpoint),
            endpoint >= NUM_ENDPOINTS ==> result == Err::<(), UsbError>(UsbError::Configuration)
                && final(self)@ == old(self)@,
            old(self)@.wf() ==> final(self)@.wf(),
    {
        if endpoint >= NUM_ENDPOINTS {
            return Err(UsbError::Configuration);
        }
        self.unstall_out(endpoint);
        Ok(())
    }

    /// Disables `endpoint` in both directions: its interrupts are masked, the
    /// core is told to drop it and to stop its transfers, and its descriptor
    /// is reset, so that whatever was pending is discarded.  Fails with a
    /// configuration error, and changes nothing, for the control endpoint and
    /// for an endpoint that does not exist.
    pub fn endpoint_disable(&mut self, endpoint: usize) -> (result: Result<(), UsbError>)
        requires
            old(self)@.wf(),
        ensures
            (result, final(self)@) == old(self)@.endpoint_disable(endpoint),
            final(self)@.wf(),
    {
        if endpoint == 0 || endpoint >= NUM_ENDPOINTS {
            return Err(UsbError::Configuration);
        }
        self.modify(Register::Daintmsk, in_mask(endpoint) | out_mask(endpoint), 0);
        self.modify(
            Register::Diepctl(endpoint),
            EPCTL_USBAEP | EPCTL_EPDIS | EPCTL_SNAK,
            EPCTL_EPDIS | EPCTL_SNAK,
        );
        self.modify(
            Register::Doepctl(endpoint),
            EPCTL_USBAEP | EPCTL_EPDIS | EPCTL_SNAK,
            EPCTL_EPDIS | EPCTL_SNAK,
        );
        self.descriptors[endpoint].state = EndpointState::Disabled;
        self.descriptors[endpoint].transfer_size = 0;
        assert(self@.endpoints =~= old(self)@.endpoint_disable(endpoint).1.endpoints);
        assert forall|i: int| 0 <= i < NUM_ENDPOINTS implies (#[trigger] self@.endpoints[i]).wf() by {
            assert(old(self)@.endpoints[i].wf());
        }
        Ok(())
    }

    /// Starts an IN transfer of the pending size on the control endpoint.
    pub(crate) fn ep_0_start_transfer_in(&mut self)
        requires
            old(self)@.wf(),
        ensures
            final(self)@ == old(self)@.ep_0_start_transfer_in(),
            final(self)@.wf(),
    {
        let mut size = self.descriptors[0].transfer_size;
        if size == 0 {
            self.modify(
                Register::Dieptsiz(0),
                DIEPTSIZ0_PKTCNT_MASK | EP0TSIZ_XFRSIZ_MASK,
                place(1, DIEPTSIZ0_PKTCNT_MASK, EP0TSIZ_PKTCNT_SHIFT),
            );
        } else {
            self.modify(Register::Dieptsiz(0), DIEPTSIZ0_PKTCNT_MASK | EP0TSIZ_XFRSIZ_MASK, 0);
            if size > EP0_MAX_PACKET {
                size = EP0_MAX_PACKET;
            }
            assert(self@.endpoints[0].wf());
            let direction = self.descriptors[0].transfer_direction;
            self.set_transfer(0, size, direction);
            self.modify(
                Register::Dieptsiz(0),
                DIEPTSIZ0_PKTCNT_MASK | EP0TSIZ_XFRSIZ_MASK,
                place(1, DIEPTSIZ0_PKTCNT_MASK, EP0TSIZ_PKTCNT_SHIFT) | place(
                    size as u32,
                    EP0TSIZ_XFRSIZ_MASK,
                    EP0TSIZ_XFRSIZ_SHIFT,
                ),
            );
        }
        self.modify(Register::Diepctl(0), EPCTL_CNAK | EPCTL_EPENA, EPCTL_CNAK | EPCTL_EPENA);
        if size > 0 {
            self.modify(Register::Diepempmsk, in_mask(0), in_mask(0));
        }
    }

    /// Starts an OUT transfer on the control endpoint.
    pub(crate) fn ep_0_start_transfer_out(&mut self)
        requires
            old(self)@.wf(),
        ensures
            final(self)@ == old(self)@.ep_0_start_transfer_out(),
            final(self)@.wf(),
    {
        self.modify(Register::Doeptsiz(0), EP0TSIZ_XFRSIZ_MASK | DOEPTSIZ0_PKTCNT_MASK, 0);
        let size = if self.descriptors[0].transfer_size == 0 {
            0
        } else if self.descriptors[0].room(Direction::HostToDevice) < EP0_MAX_PACKET {
            self.descriptors[0].room(Direction::HostToDevice)
        } else {
            EP0_MAX_PACKET
        };
        self.set_transfer(0, size, Direction::HostToDevice);
        self.modify(
            Register::Doeptsiz(0),
            DOEPTSIZ0_PKTCNT_MASK | EP0TSIZ_XFRSIZ_MASK,
            place(1, DOEPTSIZ0_PKTCNT_MASK, EP0TSIZ_PKTCNT_SHIFT) | place(
                EP0_MAX_PACKET as u32,
                EP0TSIZ_XFRSIZ_MASK,
                EP0TSIZ_XFRSIZ_SHIFT,
            ),
        );
        self.modify(Register::Doepctl(0), EPCTL_CNAK | EPCTL_EPENA, EPCTL_CNAK | EPCTL_EPENA);
    }

    /// Arms the control OUT endpoint for the next SETUP packets.
    pub(crate) fn ep0_out_start(&mut self)
        ensures
            final(self)@ == old(self)@.ep0_out_start(),
            final(self)@ == old(self)@.with_bus(final(self)@.bus),
    {
        let id = self.read(Register::Cid);
        if id > USB_OTG_CORE_ID_300A {
            let control = self.read(Register::Doepctl(0));
            if is_set(control, EPCTL_EPENA) {
                return ;
            }
        }
        self.write(Register::Doeptsiz(0), 0);
        self.modify(
            Register::Doeptsiz(0),
            DOEPTSIZ0_PKTCNT_MASK | EP0TSIZ_XFRSIZ_MASK | DOEPTSIZ0_STUPCNT_MASK,
            place(1, DOEPTSIZ0_PKTCNT_MASK, EP0TSIZ_PKTCNT_SHIFT) | place(
                SETUP_ROOM,
                EP0TSIZ_XFRSIZ_MASK,
                EP0TSIZ_XFRSIZ_SHIFT,
            ) | place(SETUP_COUNT, DOEPTSIZ0_STUPCNT_MASK, DOEPTSIZ0_STUPCNT_SHIFT),
        );
    }
}

} // verus!
