//! The interrupt dispatcher: one entry point that reads the interrupt status
//! once and serves every source that is pending and unmasked.

use vstd::prelude::*;
use crate::bits::{any_set, is_set, placed};
use crate::client::{Callback, Client};
use crate::endpoint::{Endpoint, EndpointModel};
use crate::endpoints::{in_bit, in_mask, out_bit, out_mask, USB_OTG_CORE_ID_300A};
use crate::fields::{
    DAINTMSK_IEPM_MASK, DAINTMSK_OEPM_MASK, DCFG_DAD_MASK, DCTL_RWUSIG, DIEPEMPMSK_MASK,
    DIEPINT_EPDISD, DIEPINT_INEPNE, DIEPINT_ITTXFE, DIEPINT_TOC, DIEPINT_TXFE, DIEPINT_XFRC,
    DOEPINT_NAK, DOEPINT_OTEPDIS, DOEPINT_STSPHSRX, DOEPINT_STUP, DOEPINT_XFRC, DSTS_SUSPSTS,
    EPCTL_SNAK, EPCTL_STALL, EPCTL_USBAEP, EPINT_ALL_FLAGS, GINT_CMOD, GINT_ENUMDNE, GINT_IEPINT,
    GINT_IISOIXFR, GINT_INCOMPISOOUT, GINT_LPMINT, GINT_MMIS, GINT_OEPINT, GINT_OTGINT,
    GINT_RXFLVL, GINT_SOF, GINT_SRQINT, GINT_USBRST, GINT_USBSUSP, GINT_WKUPINT,
    GUSBCFG_TRDT_MASK, GUSBCFG_TRDT_SHIFT, PCGCCTL_STPPCLK,
};
use crate::regs::{Register, Registers, NUM_ENDPOINTS};
use crate::setup::{
    decode_rx_status, decode_setup, RxStatus, SetupPacket, STS_DATA_UPDT, STS_SETUP_COMPLETE,
    STS_SETUP_UPDT,
};
use crate::types::{CtrlState, EndpointState, UsbError};
use crate::usbotg::{Model, Usbotg, TURNAROUND_TIME};

verus! {

broadcast use {Endpoint::view_unfolds, Usbotg::view_unfolds};

/// The sources of the global interrupt that the dispatcher serves.
#[derive(Copy, Clone, Debug, PartialEq, Eq, Structural)]
pub enum Interrupt {
    ModeMismatch,
    RxFifoLevel,
    OutEndpoint,
    InEndpoint,
    Wakeup,
    Suspend,
    Lpm,
    BusReset,
    EnumerationDone,
    StartOfFrame,
    IncompleteIsoIn,
    IncompleteIsoOut,
    SessionRequest,
    Otg,
}

/// Number of sources that the dispatcher serves.
pub const SOURCES: usize = 14;

/// The transmit FIFO number that a bus reset flushes.
pub const RESET_FLUSH_FIFO: u32 = 10;

/// The endpoint interrupts that a bus reset unmasks for OUT endpoints: SETUP
/// done, transfer complete, endpoint disabled, status phase received, NAK.
pub const RESET_OUT_MASK: u32 = 0x0000_202B;

/// The endpoint interrupts that a bus reset unmasks for IN endpoints:
/// timeout, transfer complete, endpoint disabled.
pub const RESET_IN_MASK: u32 = 0x0000_000B;

impl Interrupt {
    /// The source that is served in place `i`.
    pub open spec fn at(i: nat) -> Interrupt {
        if i == 0 {
            Interrupt::ModeMismatch
        } else if i == 1 {
            Interrupt::RxFifoLevel
        } else if i == 2 {
            Interrupt::OutEndpoint
        } else if i == 3 {
            Interrupt::InEndpoint
        } else if i == 4 {
            Interrupt::Wakeup
        } else if i == 5 {
            Interrupt::Suspend
        } else if i == 6 {
            Interrupt::Lpm
        } else if i == 7 {
            Interrupt::BusReset
        } else if i == 8 {
            Interrupt::EnumerationDone
        } else if i == 9 {
            Interrupt::StartOfFrame
        } else if i == 10 {
            Interrupt::IncompleteIsoIn
        } else if i == 11 {
            Interrupt::IncompleteIsoOut
        } else if i == 12 {
            Interrupt::SessionRequest
        } else {
            Interrupt::Otg
        }
    }

    /// The bit of the source in the global interrupt status and mask.
    pub open spec fn flag(self) -> u32 {
        match self {
            Interrupt::ModeMismatch => GINT_MMIS,
            Interrupt::RxFifoLevel => GINT_RXFLVL,
            Interrupt::OutEndpoint => GINT_OEPINT,
            Interrupt::InEndpoint => GINT_IEPINT,
            Interrupt::Wakeup => GINT_WKUPINT,
            Interrupt::Suspend => GINT_USBSUSP,
            Interrupt::Lpm => GINT_LPMINT,
            Interrupt::BusReset => GINT_USBRST,
            Interrupt::EnumerationDone => GINT_ENUMDNE,
            Interrupt::StartOfFrame => GINT_SOF,
            Interrupt::IncompleteIsoIn => GINT_IISOIXFR,
            Interrupt::IncompleteIsoOut => GINT_INCOMPISOOUT,
            Interrupt::SessionRequest => GINT_SRQINT,
            Interrupt::Otg => GINT_OTGINT,
        }
    }

    /// The source that is served in place `i` of the service order.
    pub fn nth(i: usize) -> (source: Interrupt)
        ensures
            source == Interrupt::at(i as nat),
    {
        if i == 0 {
            Interrupt::ModeMismatch
        } else if i == 1 {
            Interrupt::RxFifoLevel
        } else if i == 2 {
            Interrupt::OutEndpoint
        } else if i == 3 {
            Interrupt::InEndpoint
        } else if i == 4 {
            Interrupt::Wakeup
        } else if i == 5 {
            Interrupt::Suspend
        } else if i == 6 {
            Interrupt::Lpm
        } else if i == 7 {
            Interrupt::BusReset
        } else if i == 8 {
            Interrupt::EnumerationDone
        } else if i == 9 {
            Interrupt::StartOfFrame
        } else if i == 10 {
            Interrupt::IncompleteIsoIn
        } else if i == 11 {
            Interrupt::IncompleteIsoOut
        } else if i == 12 {
            Interrupt::SessionRequest
        } else {
            Interrupt::Otg
        }
    }

    /// The bit of the source in the global interrupt status and mask.
    pub fn bit(self) -> (flag: u32)
        ensures
            flag == self.flag(),
    {
        match self {
            Interrupt::ModeMismatch => GINT_MMIS,
            Interrupt::RxFifoLevel => GINT_RXFLVL,
            Interrupt::OutEndpoint => GINT_OEPINT,
            Interrupt::InEndpoint => GINT_IEPINT,
            Interrupt::Wakeup => GINT_WKUPINT,
            Interrupt::Suspend => GINT_USBSUSP,
            Interrupt::Lpm => GINT_LPMINT,
            Interrupt::BusReset => GINT_USBRST,
            Interrupt::EnumerationDone => GINT_ENUMDNE,
            Interrupt::StartOfFrame => GINT_SOF,
            Interrupt::IncompleteIsoIn => GINT_IISOIXFR,
            Interrupt::IncompleteIsoOut => GINT_INCOMPISOOUT,
            Interrupt::SessionRequest => GINT_SRQINT,
            Interrupt::Otg => GINT_OTGINT,
        }
    }
}

/// The bits of an endpoint control register that a bus reset replaces: STALL
/// and the NAK request, and for an endpoint other than the control endpoint
/// the bit that says that the endpoint is active.
pub open spec fn release_mask(endpoint: usize) -> u32 {
    if endpoint == 0 {
        EPCTL_STALL | EPCTL_SNAK
    } else {
        EPCTL_STALL | EPCTL_SNAK | EPCTL_USBAEP
    }
}

impl Model {
    /// The SETUP packet in the OUT buffer of `endpoint` decoded into the
    /// descriptor: the direction it asks for, and as pending in that
    /// direction the length it asks for, cut to what the buffer of that
    /// direction holds.
    pub open spec fn setup_received(self, endpoint: usize) -> Model {
        let e = self.endpoints[endpoint as int];
        let setup = SetupPacket::of(e.slice_out->Some_0);
        self.with_endpoint(
            endpoint as int,
            EndpointModel {
                request_type: setup.direction(),
                transfer_direction: setup.direction(),
                transfer_size: if setup.length <= e.room(setup.direction()) {
                    setup.length as usize
                } else {
                    e.room(setup.direction()) as usize
                },
                ..e
            },
        )
    }

    /// A packet taken from the receive FIFO, as its status word `status`
    /// says: the end of a SETUP stage drops one word; a data packet that
    /// holds bytes is read into its endpoint; a SETUP packet is read into its
    /// endpoint and, where it was stored, decoded.
    pub open spec fn take_packet(self, status: RxStatus) -> Model {
        if status.status == STS_SETUP_COMPLETE {
            if status.byte_count == 0 {
                self.with_bus(self.bus.pop())
            } else {
                self
            }
        } else if status.status == STS_DATA_UPDT {
            if status.byte_count != 0 {
                self.read_packet(status.endpoint, status.byte_count).1
            } else {
                self
            }
        } else if status.status == STS_SETUP_UPDT {
            let (stored, m) = self.read_packet(status.endpoint, status.byte_count);
            if stored is Ok {
                m.setup_received(status.endpoint)
            } else {
                m
            }
        } else {
            self
        }
    }

    /// The receive FIFO served: with its interrupt masked, the status word is
    /// popped and the packet is taken; then the interrupt is unmasked again.
    pub open spec fn service_rx_fifo(self) -> Model {
        let m = self.modify(Register::Gintmsk, GINT_RXFLVL, 0);
        let status = RxStatus::of(m.bus.next());
        m.read(Register::Grxstsp).take_packet(status).modify(
            Register::Gintmsk,
            GINT_RXFLVL,
            GINT_RXFLVL,
        )
    }

    /// A SETUP stage done: the flag is acknowledged, an OUT transfer is
    /// started, a core from 3.00a on has a status-phase flag that it still
    /// shows acknowledged, and the SETUP packet is handled.
    pub open spec fn setup_done(self) -> Model {
        let m = self.write(Register::Doepint(0), DOEPINT_STUP).ep_0_start_transfer_out();
        let newer = m.bus.next() >= USB_OTG_CORE_ID_300A;
        let m = m.read(Register::Cid);
        let m = if newer {
            let stale = any_set(m.bus.next(), DOEPINT_STSPHSRX);
            let m = m.read(Register::Doepint(0));
            if stale {
                m.write(Register::Doepint(0), DOEPINT_STSPHSRX)
            } else {
                m
            }
        } else {
            m
        };
        m.handle_ctrl_setup()
    }

    /// The status phase received: the flag is acknowledged, and a control
    /// endpoint that is in its status stage completes it.
    pub open spec fn status_phase_received(self) -> Model {
        let m = self.write(Register::Doepint(0), DOEPINT_STSPHSRX);
        if m.endpoints[0].state == EndpointState::Ctrl(CtrlState::ReadStatus) {
            m.complete_ctrl_status()
        } else {
            m
        }
    }

    /// `self` after `flag` of the OUT endpoint interrupt was acknowledged, if
    /// it is in `pending`.
    pub open spec fn ack_out(self, pending: u32, flag: u32) -> Model {
        if any_set(pending, flag) {
            self.write(Register::Doepint(0), flag)
        } else {
            self
        }
    }

    /// `self` after `flag` of the IN endpoint interrupt was acknowledged, if
    /// it is in `pending`.
    pub open spec fn ack_in(self, pending: u32, flag: u32) -> Model {
        if any_set(pending, flag) {
            self.write(Register::Diepint(0), flag)
        } else {
            self
        }
    }

    /// The OUT side of the control endpoint served: its flags and their mask
    /// are read once, and each flag that is set and unmasked is served in
    /// turn: transfer complete, SETUP done, OUT token while disabled, status
    /// phase received, NAK.
    pub open spec fn service_out_endpoint(self) -> Model {
        let flags = self.bus.next();
        let m = self.read(Register::Doepint(0));
        let pending = flags & m.bus.next();
        let m = m.read(Register::Doepmsk).ack_out(pending, DOEPINT_XFRC);
        let m = if any_set(pending, DOEPINT_STUP) {
            m.setup_done()
        } else {
            m
        };
        let m = m.ack_out(pending, DOEPINT_OTEPDIS);
        let m = if any_set(pending, DOEPINT_STSPHSRX) {
            m.status_phase_received()
        } else {
            m
        };
        m.ack_out(pending, DOEPINT_NAK)
    }

    /// An IN transfer complete: the FIFO-empty interrupts are masked, the
    /// flag is acknowledged, and a control endpoint that is in its IN data
    /// stage asks the client for the next packet.
    pub open spec fn in_transfer_complete(self) -> Model {
        let m = self.modify(Register::Diepempmsk, DIEPEMPMSK_MASK, 0).write(
            Register::Diepint(0),
            DIEPINT_XFRC,
        );
        if m.endpoints[0].state == EndpointState::Ctrl(CtrlState::ReadIn) {
            m.ctrl_in()
        } else {
            m
        }
    }

    /// The transmit FIFO of the control endpoint empty: the pending packet is
    /// written into it, if it can be, and the FIFO-empty interrupt of the
    /// endpoint is masked.
    pub open spec fn tx_fifo_empty(self) -> Model {
        self.write_packet(0, self.endpoints[0].transfer_size).1.modify(
            Register::Diepempmsk,
            in_bit(0),
            0,
        )
    }

    /// The IN side of the control endpoint served: its flags, their mask and
    /// the FIFO-empty mask are read once, and each flag that is set and
    /// unmasked is served in turn: transfer complete, timeout, IN token while
    /// the FIFO was empty, NAK effective, endpoint disabled, FIFO empty.
    pub open spec fn service_in_endpoint(self) -> Model {
        let flags = self.bus.next();
        let m = self.read(Register::Diepint(0));
        let pending = flags & m.bus.next();
        let m = m.read(Register::Diepmsk);
        let wanted = any_set(flags, DIEPINT_TXFE) && any_set(m.bus.next(), in_bit(0));
        let m = m.read(Register::Diepempmsk);
        let m = if any_set(pending, DIEPINT_XFRC) {
            m.in_transfer_complete()
        } else {
            m
        };
        let m = m.ack_in(pending, DIEPINT_TOC).ack_in(pending, DIEPINT_ITTXFE).ack_in(
            pending,
            DIEPINT_INEPNE,
        ).ack_in(pending, DIEPINT_EPDISD);
        if wanted {
            m.tx_fifo_empty()
        } else {
            m
        }
    }

    /// A suspend served: the device status is read, and if the bus is
    /// suspended the PHY clock is stopped.
    pub open spec fn service_suspend(self) -> Model {
        let suspended = any_set(self.bus.next(), DSTS_SUSPSTS);
        let m = self.read(Register::Dsts);
        if suspended {
            m.modify(Register::Pcgcctl, PCGCCTL_STPPCLK, PCGCCTL_STPPCLK)
        } else {
            m
        }
    }

    /// Every endpoint from `from` on after a bus reset: its interrupt flags
    /// acknowledged, its STALL cleared, and set to answer NAK; an endpoint
    /// other than the control endpoint is no longer active in the core.
    pub open spec fn release_endpoints(self, from: nat) -> Model
        decreases NUM_ENDPOINTS - from,
    {
        if from >= NUM_ENDPOINTS {
            self
        } else {
            self.release_endpoint(from as usize).release_endpoints(from + 1)
        }
    }

    /// One endpoint after a bus reset.
    pub open spec fn release_endpoint(self, n: usize) -> Model {
        self.write(Register::Diepint(n), EPINT_ALL_FLAGS).modify(
            Register::Diepctl(n),
            release_mask(n),
            EPCTL_SNAK,
        ).write(Register::Doepint(n), EPINT_ALL_FLAGS).modify(
            Register::Doepctl(n),
            release_mask(n),
            EPCTL_SNAK,
        )
    }

    /// The descriptors after a bus reset: every endpoint but the control
    /// endpoint is reset, and the staged address is 0.
    pub open spec fn bus_reset_state(self) -> Model {
        Model {
            endpoints: Seq::new(
                NUM_ENDPOINTS as nat,
                |i: int|
                    if i == 0 {
                        self.endpoints[0]
                    } else {
                        self.endpoints[i].reset()
                    },
            ),
            addr: 0,
            ..self
        }
    }

    /// A bus reset served: remote wakeup signalling stops and the transmit
    /// FIFO is flushed; every endpoint is released, and those behind the
    /// control endpoint are no longer active; only the interrupts of the
    /// control endpoint stay unmasked; the device address is 0; the
    /// control OUT endpoint is armed for the next SETUP packet; every other
    /// endpoint is disabled; and the client is told.  A flush that reaches
    /// the retry ceiling ends it with a hardware timeout before anything else
    /// is done.
    pub open spec fn service_bus_reset(self) -> (Result<(), UsbError>, Model) {
        let (flushed, m) = self.modify(Register::Dctl, DCTL_RWUSIG, 0).flush_tx_fifo(
            RESET_FLUSH_FIFO,
        );
        if !flushed {
            (Err(UsbError::HardwareTimeout), m)
        } else {
            (
                Ok(()),
                m.release_endpoints(0).modify(
                    Register::Daintmsk,
                    DAINTMSK_OEPM_MASK | DAINTMSK_IEPM_MASK,
                    out_bit(0) | in_bit(0),
                ).modify(Register::Doepmsk, RESET_OUT_MASK, RESET_OUT_MASK).modify(
                    Register::Diepmsk,
                    RESET_IN_MASK,
                    RESET_IN_MASK,
                ).modify(Register::Dcfg, DCFG_DAD_MASK, 0).ep0_out_start().bus_reset_state().called(
                    Callback::BusReset,
                ),
            )
        }
    }

    /// The end of enumeration served: the control endpoint is readied, the
    /// turnaround time is set, the control endpoint is activated in both
    /// directions at full speed, and the control OUT endpoint is armed for
    /// the next SETUP packet.  An activation that is refused ends it with its
    /// error.
    pub open spec fn service_enumeration_done(self) -> (Result<(), UsbError>, Model) {
        let (result, m) = self.activate_setup().modify(
            Register::Gusbcfg,
            GUSBCFG_TRDT_MASK,
            placed(TURNAROUND_TIME, GUSBCFG_TRDT_MASK, GUSBCFG_TRDT_SHIFT),
        ).usb_reset();
        if result is Err {
            (result, m)
        } else {
            (Ok(()), m.ep0_out_start())
        }
    }

    /// What serving `source` does, apart from acknowledging it.
    pub open spec fn service(self, source: Interrupt) -> (Result<(), UsbError>, Model) {
        match source {
            Interrupt::RxFifoLevel => (Ok(()), self.service_rx_fifo()),
            Interrupt::OutEndpoint => (Ok(()), self.service_out_endpoint()),
            Interrupt::InEndpoint => (Ok(()), self.service_in_endpoint()),
            Interrupt::Wakeup => (Ok(()), self.modify(Register::Dctl, DCTL_RWUSIG, 0)),
            Interrupt::Suspend => (Ok(()), self.service_suspend()),
            Interrupt::BusReset => self.service_bus_reset(),
            Interrupt::EnumerationDone => self.service_enumeration_done(),
            _ => (Ok(()), self),
        }
    }

    /// `source` served if it is in `pending`: its handler runs, and if that
    /// went well the source is acknowledged by writing its bit to the
    /// interrupt status.
    pub open spec fn serve(self, pending: u32, source: Interrupt) -> (Result<(), UsbError>, Model) {
        if any_set(pending, source.flag()) {
            let (result, m) = self.service(source);
            if result is Err {
                (result, m)
            } else {
                (Ok(()), m.write(Register::Gintsts, source.flag()))
            }
        } else {
            (Ok(()), self)
        }
    }

    /// The sources from place `from` of the service order on served, each if
    /// it is in `pending`, up to the first that fails.
    pub open spec fn serve_from(self, pending: u32, from: nat) -> (Result<(), UsbError>, Model)
        decreases SOURCES - from,
    {
        if from >= SOURCES {
            (Ok(()), self)
        } else {
            let (result, m) = self.serve(pending, Interrupt::at(from));
            if result is Err {
                (result, m)
            } else {
                m.serve_from(pending, from + 1)
            }
        }
    }

    /// One interrupt handled: the interrupt status and its mask are read
    /// once; in device mode every source that is both set and unmasked is
    /// served in the service order, and in host mode none is.
    pub open spec fn handle_interrupt(self) -> (Result<(), UsbError>, Model) {
        let status = self.bus.next();
        let m = self.read(Register::Gintsts);
        let pending = status & m.bus.next();
        let m = m.read(Register::Gintmsk);
        if any_set(status, GINT_CMOD) {
            (Ok(()), m)
        } else {
            m.serve_from(pending, 0)
        }
    }
}

/// Releasing the endpoints changes nothing but the peripheral.
proof fn release_keeps_state(m: Model, from: nat)
    ensures
        m.release_endpoints(from) == m.with_bus(m.release_endpoints(from).bus),
    decreases NUM_ENDPOINTS - from,
{
    if from < NUM_ENDPOINTS {
        release_keeps_state(m.release_endpoint(from as usize), from + 1);
    }
}

/// A bus reset keeps the invariant of the controller, and of its own state
/// changes only the descriptors behind the control endpoint, the staged
/// address and what the client has seen.
pub proof fn bus_reset_keeps_invariant(m: Model)
    requires
        m.wf(),
    ensures
        m.service_bus_reset().1.wf(),
        m.service_bus_reset().1.state == m.state,
        m.service_bus_reset().1.fifo == m.fifo,
        m.service_bus_reset().1.order == m.order,
        m.service_bus_reset().1.endpoints[0] == m.endpoints[0],
{
    let (flushed, f) = m.modify(Register::Dctl, DCTL_RWUSIG, 0).flush_tx_fifo(RESET_FLUSH_FIFO);
    if flushed {
        release_keeps_state(f, 0);
        let after = m.service_bus_reset().1;
        assert forall|i: int| 0 <= i < NUM_ENDPOINTS implies (#[trigger] after.endpoints[i]).wf() by {
            assert(m.endpoints[i].wf());
        }
    }
}

impl<R: Registers, C: Client> Usbotg<R, C> {
    fn setup_received(&mut self, endpoint: usize)
        requires
            old(self)@.wf(),
            endpoint < NUM_ENDPOINTS,
            old(self)@.endpoints[endpoint as int].slice_out is Some,
        ensures
            final(self)@ == old(self)@.setup_received(endpoint),
            final(self)@.wf(),
    {
        assert(self@.endpoints[endpoint as int].wf());
        let decoded = match &self.descriptors[endpoint].slice_out {
            Some(packet) => decode_setup(packet.as_slice()),
            None => None,
        };
        match decoded {
            Some(setup) => {
                let direction = setup.direction();
                let room = self.descriptors[endpoint].room(direction);
                self.descriptors[endpoint].request_type = direction;
                self.descriptors[endpoint].transfer_direction = direction;
                self.descriptors[endpoint].transfer_size = if setup.length as usize <= room {
                    setup.length as usize
                } else {
                    room
                };
            },
            None => {},
        }
        assert(self@.endpoints =~= old(self)@.setup_received(endpoint).endpoints);
        assert forall|i: int| 0 <= i < NUM_ENDPOINTS implies (#[trigger] self@.endpoints[i]).wf() by {
            assert(old(self)@.endpoints[i].wf());
        }
    }

    fn take_packet(&mut self, status: RxStatus)
        requires
            old(self)@.wf(),
        ensures
            final(self)@ == old(self)@.take_packet(status),
            final(self)@.wf(),
    {
        if status.status == STS_SETUP_COMPLETE {
            if status.byte_count == 0 {
                let _ = self.registers.pop();
            }
        } else if status.status == STS_DATA_UPDT {
            if status.byte_count != 0 {
                let _ = self.read_packet(status.endpoint, status.byte_count);
            }
        } else if status.status == STS_SETUP_UPDT {
            match self.read_packet(status.endpoint, status.byte_count) {
                Ok(()) => {
                    self.setup_received(status.endpoint);
                },
                Err(_) => {},
            }
        }
    }

    fn service_rx_fifo(&mut self)
        requires
            old(self)@.wf(),
        ensures
            final(self)@ == old(self)@.service_rx_fifo(),
            final(self)@.wf(),
    {
        self.modify(Register::Gintmsk, GINT_RXFLVL, 0);
        let status = decode_rx_status(self.read(Register::Grxstsp));
        self.take_packet(status);
        self.modify(Register::Gintmsk, GINT_RXFLVL, GINT_RXFLVL);
    }

    fn setup_done(&mut self)
        requires
            old(self)@.wf(),
        ensures
            final(self)@ == old(self)@.setup_done(),
            final(self)@.wf(),
    {
        self.write(Register::Doepint(0), DOEPINT_STUP);
        self.ep_0_start_transfer_out();
        let id = self.read(Register::Cid);
        if id >= USB_OTG_CORE_ID_300A {
            let flags = self.read(Register::Doepint(0));
            if is_set(flags, DOEPINT_STSPHSRX) {
                self.write(Register::Doepint(0), DOEPINT_STSPHSRX);
            }
        }
        self.handle_ctrl_setup();
    }

    fn status_phase_received(&mut self)
        requires
            old(self)@.wf(),
        ensures
            final(self)@ == old(self)@.status_phase_received(),
            final(self)@.wf(),
    {
        self.write(Register::Doepint(0), DOEPINT_STSPHSRX);
        let in_status = match self.descriptors[0].state {
            EndpointState::Ctrl(CtrlState::ReadStatus) => true,
            _ => false,
        };
        if in_status {
            self.handle_complete_ctrl_status();
        }
    }

    fn ack_out(&mut self, pending: u32, flag: u32)
        ensures
            final(self)@ == old(self)@.ack_out(pending, flag),
    {
        if is_set(pending, flag) {
            self.write(Register::Doepint(0), flag);
        }
    }

    fn ack_in(&mut self, pending: u32, flag: u32)
        ensures
            final(self)@ == old(self)@.ack_in(pending, flag),
    {
        if is_set(pending, flag) {
            self.write(Register::Diepint(0), flag);
        }
    }

    fn service_out_endpoint(&mut self)
        requires
            old(self)@.wf(),
        ensures
            final(self)@ == old(self)@.service_out_endpoint(),
            final(self)@.wf(),
    {
        let flags = self.read(Register::Doepint(0));
        let mask = self.read(Register::Doepmsk);
        let pending = flags & mask;
        if is_set(pending, DOEPINT_XFRC) {
            self.write(Register::Doepint(0), DOEPINT_XFRC);
        }
        if is_set(pending, DOEPINT_STUP) {
            self.setup_done();
        }
        self.ack_out(pending, DOEPINT_OTEPDIS);
        if is_set(pending, DOEPINT_STSPHSRX) {
            self.status_phase_received();
        }
        self.ack_out(pending, DOEPINT_NAK);
    }

    fn in_transfer_complete(&mut self)
        requires
            old(self)@.wf(),
        ensures
            final(self)@ == old(self)@.in_transfer_complete(),
            final(self)@.wf(),
    {
        self.modify(Register::Diepempmsk, DIEPEMPMSK_MASK, 0);
        self.write(Register::Diepint(0), DIEPINT_XFRC);
        let in_data = match self.descriptors[0].state {
            EndpointState::Ctrl(CtrlState::ReadIn) => true,
            _ => false,
        };
        if in_data {
            self.ctrl_in();
        }
    }

    fn tx_fifo_empty(&mut self)
        requires
            old(self)@.wf(),
        ensures
            final(self)@ == old(self)@.tx_fifo_empty(),
            final(self)@.wf(),
    {
        let _ = self.write_empty_tx_fifo(0);
        self.modify(Register::Diepempmsk, in_mask(0), 0);
    }

    fn service_in_endpoint(&mut self)
        requires
            old(self)@.wf(),
        ensures
            final(self)@ == old(self)@.service_in_endpoint(),
            final(self)@.wf(),
    {
        let flags = self.read(Register::Diepint(0));
        let mask = self.read(Register::Diepmsk);
        let empty_mask = self.read(Register::Diepempmsk);
        let pending = flags & mask;
        let wanted = is_set(flags, DIEPINT_TXFE) && is_set(empty_mask, in_mask(0));
        if is_set(pending, DIEPINT_XFRC) {
            self.in_transfer_complete();
        }
        self.ack_in(pending, DIEPINT_TOC);
        self.ack_in(pending, DIEPINT_ITTXFE);
        self.ack_in(pending, DIEPINT_INEPNE);
        self.ack_in(pending, DIEPINT_EPDISD);
        if wanted {
            self.tx_fifo_empty();
        }
    }

    fn service_suspend(&mut self)
        ensures
            final(self)@ == old(self)@.service_suspend(),
    {
        let status = self.read(Register::Dsts);
        if is_set(status, DSTS_SUSPSTS) {
            self.modify(Register::Pcgcctl, PCGCCTL_STPPCLK, PCGCCTL_STPPCLK);
        }
    }

    fn bus_reset_state(&mut self)
        requires
            old(self)@.wf(),
        ensures
            final(self)@ == old(self)@.bus_reset_state(),
            final(self)@.wf(),
    {
        let mut i: usize = 1;
        while i < NUM_ENDPOINTS
            invariant
                1 <= i <= NUM_ENDPOINTS,
                old(self)@.wf(),
                self@.endpoints.len() == NUM_ENDPOINTS,
                self@.endpoints[0] == old(self)@.endpoints[0],
                forall|j: int| 1 <= j < i ==> self@.endpoints[j] == old(self)@.endpoints[j].reset(),
                forall|j: int| i <= j < NUM_ENDPOINTS ==> self@.endpoints[j] == old(self)@.endpoints[j],
                self@ == (Model { endpoints: self@.endpoints, ..old(self)@ }),
            decreases NUM_ENDPOINTS - i,
        {
            let ghost before = self@;
            self.descriptors[i].state = EndpointState::Disabled;
            self.descriptors[i].transfer_size = 0;
            assert(self@.endpoints =~= before.endpoints.update(
                i as int,
                before.endpoints[i as int].reset(),
            ));
            i = i + 1;
        }
        self.addr = 0;
        assert(self@.endpoints =~= old(self)@.bus_reset_state().endpoints);
        assert forall|j: int| 0 <= j < NUM_ENDPOINTS implies (#[trigger] self@.endpoints[j]).wf() by {
            assert(old(self)@.endpoints[j].wf());
        }
    }

    fn service_bus_reset(&mut self) -> (result: Result<(), UsbError>)
        requires
            old(self)@.wf(),
        ensures
            (result, final(self)@) == old(self)@.service_bus_reset(),
            final(self)@.wf(),
    {
        self.modify(Register::Dctl, DCTL_RWUSIG, 0);
        if !self.flush_tx_fifo(RESET_FLUSH_FIFO) {
            return Err(UsbError::HardwareTimeout);
        }
        let ghost flushed = self@;
        let mut i: usize = 0;
        while i < NUM_ENDPOINTS
            invariant
                i <= NUM_ENDPOINTS,
                flushed.release_endpoints(0) == self@.release_endpoints(i as nat),
                self@ == old(self)@.with_bus(self@.bus),
            decreases NUM_ENDPOINTS - i,
        {
            let mask: u32 = if i == 0 {
                EPCTL_STALL | EPCTL_SNAK
            } else {
                EPCTL_STALL | EPCTL_SNAK | EPCTL_USBAEP
            };
            self.write(Register::Diepint(i), EPINT_ALL_FLAGS);
            self.modify(Register::Diepctl(i), mask, EPCTL_SNAK);
            self.write(Register::Doepint(i), EPINT_ALL_FLAGS);
            self.modify(Register::Doepctl(i), mask, EPCTL_SNAK);
            i = i + 1;
        }
        self.modify(
            Register::Daintmsk,
            DAINTMSK_OEPM_MASK | DAINTMSK_IEPM_MASK,
            out_mask(0) | in_mask(0),
        );
        self.modify(Register::Doepmsk, RESET_OUT_MASK, RESET_OUT_MASK);
        self.modify(Register::Diepmsk, RESET_IN_MASK, RESET_IN_MASK);
        self.modify(Register::Dcfg, DCFG_DAD_MASK, 0);
        self.ep0_out_start();
        self.bus_reset_state();
        match &mut self.client {
            Some(client) => {
                client.bus_reset();
            },
            None => {},
        }
        Ok(())
    }

    fn service_enumeration_done(&mut self) -> (result: Result<(), UsbError>)
        requires
            old(self)@.wf(),
        ensures
            (result, final(self)@) == old(self)@.service_enumeration_done(),
            final(self)@.wf(),
    {
        self.activate_setup();
        self.set_turnaround_time();
        match self.usb_reset() {
            Ok(()) => {},
            Err(e) => {
                return Err(e);
            },
        }
        self.ep0_out_start();
        Ok(())
    }

    fn service(&mut self, source: Interrupt) -> (result: Result<(), UsbError>)
        requires
            old(self)@.wf(),
        ensures
            (result, final(self)@) == old(self)@.service(source),
            final(self)@.wf(),
    {
        match source {
            Interrupt::RxFifoLevel => {
                self.service_rx_fifo();
                Ok(())
            },
            Interrupt::OutEndpoint => {
                self.service_out_endpoint();
                Ok(())
            },
            Interrupt::InEndpoint => {
                self.service_in_endpoint();
                Ok(())
            },
            Interrupt::Wakeup => {
                self.modify(Register::Dctl, DCTL_RWUSIG, 0);
                Ok(())
            },
            Interrupt::Suspend => {
                self.service_suspend();
                Ok(())
            },
            Interrupt::BusReset => self.service_bus_reset(),
            Interrupt::EnumerationDone => self.service_enumeration_done(),
            _ => Ok(()),
        }
    }

    fn serve(&mut self, pending: u32, source: Interrupt) -> (result: Result<(), UsbError>)
        requires
            old(self)@.wf(),
        ensures
            (result, final(self)@) == old(self)@.serve(pending, source),
            final(self)@.wf(),
    {
        if !is_set(pending, source.bit()) {
            return Ok(());
        }
        match self.service(source) {
            Ok(()) => {
                self.write(Register::Gintsts, source.bit());
                Ok(())
            },
            Err(e) => Err(e),
        }
    }

    /// Handles one interrupt of the peripheral.
    ///
    /// Reads the interrupt status and its mask once and serves every source
    /// that is set and unmasked, in a fixed order, acknowledging each after
    /// its handler.  Fails with a hardware timeout when a bus reset cannot
    /// flush the transmit FIFO, and with a configuration error when the end of
    /// enumeration finds the control endpoint without buffers; the source
    /// that failed and those behind it are left pending then.
    pub fn handle_interrupt(&mut self) -> (result: Result<(), UsbError>)
        requires
            old(self)@.wf(),
        ensures
            (result, final(self)@) == old(self)@.handle_interrupt(),
            final(self)@.wf(),
    {
        let status = self.read(Register::Gintsts);
        let mask = self.read(Register::Gintmsk);
        if is_set(status, GINT_CMOD) {
            return Ok(());
        }
        let pending = status & mask;
        let ghost start = self@;
        let mut i: usize = 0;
        while i < SOURCES
            invariant
                i <= SOURCES,
                self@.wf(),
                old(self)@.handle_interrupt() == start.serve_from(pending, 0),
                start.serve_from(pending, 0) == self@.serve_from(pending, i as nat),
            decreases SOURCES - i,
        {
            let ghost before = self@;
            match self.serve(pending, Interrupt::nth(i)) {
                Ok(()) => {},
                Err(e) => {
                    assert(before.serve_from(pending, i as nat) == (
                        Err::<(), UsbError>(e),
                        self@,
                    ));
                    return Err(e);
                },
            }
            i = i + 1;
        }
        Ok(())
    }

    /// Reads the mode in which the core runs: 0 as a device, 1 as a host.
    pub fn get_mode(&mut self) -> (mode: u32)
        ensures
            final(self)@ == old(self)@.read(Register::Gintsts),
            mode == old(self)@.bus.next() & GINT_CMOD,
            old(self)@.wf() ==> final(self)@.wf(),
    {
        self.read(Register::Gintsts) & GINT_CMOD
    }
}

} // verus!
