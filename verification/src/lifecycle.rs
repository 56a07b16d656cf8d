//! Bringing the controller up and down: core reset, device initialization,
//! connecting to the bus.

use vstd::prelude::*;
use crate::bits::{any_set, is_set, place, placed};
use crate::client::Client;
use crate::endpoint::Endpoint;
use crate::fields::{
    DCFG_DSPD_MASK, DCFG_DSPD_SHIFT, DCFG_PFIVL_MASK, DCFG_PFIVL_SHIFT, DCTL_SDIS,
    DIEPTXF_DEPTH_MASK, DIEPTXF_DEPTH_SHIFT, DIEPTXF_START_MASK, DIEPTXF_START_SHIFT, EPCTL_EPDIS,
    EPCTL_EPENA, EPCTL_SNAK, EPINT_ALL_FLAGS, GAHBCFG_GINTMSK, GCCFG_PWRDWN, GCCFG_VBDEN,
    GINT_ALL_FLAGS, GINT_BASELINE, GOTGCTL_BVALOEN, GOTGCTL_BVALOVAL, GRSTCTL_AHBIDL,
    GRSTCTL_CSRST, GRSTCTL_RXFFLSH, GRSTCTL_TXFFLSH, GRSTCTL_TXFNUM_MASK, GRSTCTL_TXFNUM_SHIFT,
    GUSBCFG_FDMOD, GUSBCFG_FHMOD, GUSBCFG_PHYSEL,
};
use crate::layout::{FifoLayout, Partition};
use crate::regs::{poll, polled, Register, Registers, NUM_ENDPOINTS};
use crate::types::{DeviceSpeed, EndpointState, UsbError, UsbState};
use crate::usbotg::{Model, Usbotg, USB_OTG_SPEED_FULL};

verus! {

broadcast use {Endpoint::view_unfolds, Usbotg::view_unfolds};

/// How often a register is read at most while waiting for the device.
pub const RETRY_CEILING: u32 = 200000;

/// The role of a device.
pub const USB_DEVICE_MODE: u32 = 0;

/// The role of a host.
pub const USB_HOST_MODE: u32 = 1;

/// The FIFO number that stands for all transmit FIFOs in a flush.
pub const ALL_TX_FIFOS: u32 = 0x10;

/// The code of a periodic frame interval of 80 percent.
pub const DCFG_FRAME_INTERVAL_80: u32 = 0;

/// How many cycles the core is given to change its role.
pub const MODE_SWITCH_CYCLES: u32 = 650000;

/// Depth of the receive FIFO in words.
pub const RX_FIFO_DEPTH: u32 = 0x80;

/// Depth of transmit FIFO 0 in words.
pub const TX_FIFO_0_DEPTH: u32 = 0x40;

/// Depth of transmit FIFO 1 in words.
pub const TX_FIFO_1_DEPTH: u32 = 0x80;

/// The bits that stop an enabled endpoint: endpoint 0 is told to answer NAK,
/// the others are disabled as well.
pub open spec fn stop_bits(endpoint: usize) -> u32 {
    if endpoint == 0 {
        EPCTL_SNAK
    } else {
        EPCTL_EPDIS | EPCTL_SNAK
    }
}

impl Model {
    /// The model after `reg` was read until the bits under `mask` were set
    /// (`want`) or clear, at most `budget` times, and whether they came to be
    /// so.
    pub open spec fn polled(self, reg: Register, mask: u32, want: bool, budget: nat) -> (
        bool,
        Model,
    ) {
        let (ok, bus) = polled(self.bus, reg, mask, want, budget);
        (ok, self.with_bus(bus))
    }

    /// A soft reset of the core: wait for the AHB master to be idle, set the
    /// reset bit, wait for the core to clear it.  False when either wait
    /// reaches the retry ceiling.
    pub open spec fn core_reset(self) -> (bool, Model) {
        let (idle, m) = self.polled(Register::Grstctl, GRSTCTL_AHBIDL, true, RETRY_CEILING as nat);
        if !idle {
            (false, m)
        } else {
            m.modify(Register::Grstctl, GRSTCTL_CSRST, GRSTCTL_CSRST).polled(
                Register::Grstctl,
                GRSTCTL_CSRST,
                false,
                RETRY_CEILING as nat,
            )
        }
    }

    /// A flush of transmit FIFO `num`: ask for it, wait for the core to clear
    /// the request.  False when the wait reaches the retry ceiling.
    pub open spec fn flush_tx_fifo(self, num: u32) -> (bool, Model) {
        self.write(Register::Grstctl, 0).modify(
            Register::Grstctl,
            GRSTCTL_TXFFLSH | GRSTCTL_TXFNUM_MASK,
            GRSTCTL_TXFFLSH | placed(num, GRSTCTL_TXFNUM_MASK, GRSTCTL_TXFNUM_SHIFT),
        ).polled(Register::Grstctl, GRSTCTL_TXFFLSH, false, RETRY_CEILING as nat)
    }

    /// A flush of the receive FIFO.  False when the wait reaches the retry
    /// ceiling.
    pub open spec fn flush_rx_fifo(self) -> (bool, Model) {
        self.write(Register::Grstctl, 0).modify(
            Register::Grstctl,
            GRSTCTL_RXFFLSH,
            GRSTCTL_RXFFLSH,
        ).polled(Register::Grstctl, GRSTCTL_RXFFLSH, false, RETRY_CEILING as nat)
    }

    /// The core with the PHY selected, reset and powered.  False when the
    /// reset reaches the retry ceiling; the transceiver is then left off.
    pub open spec fn core_initialization(self) -> (bool, Model) {
        let (ok, m) = self.modify(Register::Gusbcfg, GUSBCFG_PHYSEL, GUSBCFG_PHYSEL).core_reset();
        if ok {
            (true, m.modify(Register::Gccfg, GCCFG_PWRDWN, GCCFG_PWRDWN))
        } else {
            (false, m)
        }
    }

    /// The core forced into the role `usb_mode`.
    pub open spec fn set_current_mode(self, usb_mode: u32) -> Model {
        let m = self.modify(Register::Gusbcfg, GUSBCFG_FDMOD | GUSBCFG_FHMOD, 0);
        if usb_mode == USB_HOST_MODE {
            m.modify(Register::Gusbcfg, GUSBCFG_FHMOD, GUSBCFG_FHMOD)
        } else {
            m.modify(Register::Gusbcfg, GUSBCFG_FDMOD, GUSBCFG_FDMOD)
        }
    }

    /// The size registers of the transmit FIFOs from `from` on, cleared.
    pub open spec fn clear_tx_sizes(self, from: nat) -> Model
        decreases NUM_ENDPOINTS - from,
    {
        if from >= NUM_ENDPOINTS {
            self
        } else {
            self.write(Register::Dieptxf(from as usize), 0).clear_tx_sizes(from + 1)
        }
    }

    /// The IN side of `endpoint` brought to rest: its control register is
    /// read and cleared, an endpoint found enabled is stopped, its transfer
    /// size is cleared and its interrupt flags are acknowledged.
    pub open spec fn quiesce_in(self, endpoint: usize) -> Model {
        let enabled = any_set(self.bus.next(), EPCTL_EPENA);
        let m = self.read(Register::Diepctl(endpoint)).write(Register::Diepctl(endpoint), 0);
        let m = if enabled {
            m.modify(Register::Diepctl(endpoint), stop_bits(endpoint), stop_bits(endpoint))
        } else {
            m
        };
        m.write(Register::Dieptsiz(endpoint), 0).write(Register::Diepint(endpoint), EPINT_ALL_FLAGS)
    }

    /// The OUT side of `endpoint` brought to rest, in the same way.
    pub open spec fn quiesce_out(self, endpoint: usize) -> Model {
        let enabled = any_set(self.bus.next(), EPCTL_EPENA);
        let m = self.read(Register::Doepctl(endpoint)).write(Register::Doepctl(endpoint), 0);
        let m = if enabled {
            m.modify(Register::Doepctl(endpoint), stop_bits(endpoint), stop_bits(endpoint))
        } else {
            m
        };
        m.write(Register::Doeptsiz(endpoint), 0).write(Register::Doepint(endpoint), EPINT_ALL_FLAGS)
    }

    /// Both sides of every endpoint from `from` on brought to rest.
    pub open spec fn quiesce_from(self, from: nat) -> Model
        decreases NUM_ENDPOINTS - from,
    {
        if from >= NUM_ENDPOINTS {
            self
        } else {
            self.quiesce_in(from as usize).quiesce_out(from as usize).quiesce_from(from + 1)
        }
    }

    /// The first part of device initialization, up to the FIFO flushes.
    pub open spec fn device_setup(self) -> Model {
        self.clear_tx_sizes(0).modify(Register::Dctl, DCTL_SDIS, DCTL_SDIS).modify(
            Register::Gccfg,
            GCCFG_VBDEN,
            0,
        ).modify(
            Register::Gotgctl,
            GOTGCTL_BVALOEN | GOTGCTL_BVALOVAL,
            GOTGCTL_BVALOEN | GOTGCTL_BVALOVAL,
        ).write(Register::Pcgcctl, 0).modify(
            Register::Dcfg,
            DCFG_PFIVL_MASK,
            placed(DCFG_FRAME_INTERVAL_80, DCFG_PFIVL_MASK, DCFG_PFIVL_SHIFT),
        ).modify(
            Register::Dcfg,
            DCFG_DSPD_MASK,
            placed(USB_OTG_SPEED_FULL, DCFG_DSPD_MASK, DCFG_DSPD_SHIFT),
        )
    }

    /// The last part of device initialization, after the FIFO flushes: every
    /// endpoint interrupt masked, every endpoint at rest, and of the global
    /// sources exactly the baseline set unmasked.
    pub open spec fn device_masks(self) -> Model {
        self.write(Register::Diepmsk, 0).write(Register::Doepmsk, 0).write(
            Register::Daintmsk,
            0,
        ).quiesce_from(0).write(Register::Gintmsk, 0).write(Register::Gintsts, GINT_ALL_FLAGS).modify(
            Register::Gintmsk,
            GINT_BASELINE,
            GINT_BASELINE,
        )
    }

    /// Device initialization: the device is set up for full speed, both FIFOs
    /// are flushed, and the endpoints and interrupts are brought to their
    /// initial state.  A flush that reaches the retry ceiling ends it with a
    /// hardware timeout.
    pub open spec fn device_initialization(self) -> (Result<(), UsbError>, Model) {
        let (tx_ok, m) = self.device_setup().flush_tx_fifo(ALL_TX_FIFOS);
        if !tx_ok {
            (Err(UsbError::HardwareTimeout), m)
        } else {
            let (rx_ok, m) = m.flush_rx_fifo();
            if !rx_ok {
                (Err(UsbError::HardwareTimeout), m)
            } else {
                (Ok(()), m.device_masks())
            }
        }
    }

    /// The interrupt flags of every endpoint from `from` on acknowledged.
    pub open spec fn clear_endpoint_flags(self, from: nat) -> Model
        decreases NUM_ENDPOINTS - from,
    {
        if from >= NUM_ENDPOINTS {
            self
        } else {
            self.write(Register::Diepint(from as usize), EPINT_ALL_FLAGS).write(
                Register::Doepint(from as usize),
                EPINT_ALL_FLAGS,
            ).clear_endpoint_flags(from + 1)
        }
    }

    /// The device stopped: every endpoint interrupt acknowledged and masked,
    /// both FIFOs flushed.  A flush that reaches the retry ceiling ends it
    /// with a hardware timeout.
    pub open spec fn stop_device(self) -> (Result<(), UsbError>, Model) {
        let (rx_ok, m) = self.clear_endpoint_flags(0).write(Register::Diepmsk, 0).write(
            Register::Doepmsk,
            0,
        ).write(Register::Daintmsk, 0).flush_rx_fifo();
        if !rx_ok {
            (Err(UsbError::HardwareTimeout), m)
        } else {
            let (tx_ok, m) = m.flush_tx_fifo(ALL_TX_FIFOS);
            if tx_ok {
                (Ok(()), m)
            } else {
                (Err(UsbError::HardwareTimeout), m)
            }
        }
    }

    /// Every descriptor reset, and the FIFO memory unassigned.
    pub open spec fn core_state_reset(self) -> Model {
        Model {
            endpoints: Seq::new(NUM_ENDPOINTS as nat, |i: int| self.endpoints[i].reset()),
            fifo: Partition { rx: 0, tx: Seq::empty() },
            ..self
        }
    }

    /// The receive FIFO given `size` words, if the partition takes it.
    pub open spec fn set_rx_fifo(self, size: u32) -> (Result<(), UsbError>, Model) {
        if self.fifo.takes_rx(size) {
            (Ok(()), (Model { fifo: self.fifo.with_rx(size), ..self }).write(Register::Grxfsiz, size))
        } else {
            (Err(UsbError::Configuration), self)
        }
    }

    /// Transmit FIFO `fifo` given `size` words behind the FIFOs assigned
    /// before it, if the partition takes it.
    pub open spec fn set_tx_fifo(self, fifo: usize, size: u32) -> (Result<(), UsbError>, Model) {
        if self.fifo.takes_tx(fifo, size) {
            (
                Ok(()),
                (Model { fifo: self.fifo.with_tx(size), ..self }).modify(
                    Register::Dieptxf(fifo),
                    DIEPTXF_DEPTH_MASK | DIEPTXF_START_MASK,
                    placed(size, DIEPTXF_DEPTH_MASK, DIEPTXF_DEPTH_SHIFT) | placed(
                        self.fifo.total() as u32,
                        DIEPTXF_START_MASK,
                        DIEPTXF_START_SHIFT,
                    ),
                ),
            )
        } else {
            (Err(UsbError::Configuration), self)
        }
    }

    /// The FIFO memory partitioned: the receive FIFO, then transmit FIFOs 0
    /// and 1.
    pub open spec fn partition_fifos(self) -> Model {
        self.set_rx_fifo(RX_FIFO_DEPTH).1.set_tx_fifo(0, TX_FIFO_0_DEPTH).1.set_tx_fifo(
            1,
            TX_FIFO_1_DEPTH,
        ).1
    }

    /// Initialization of the controller: the descriptors are reset, global
    /// interrupts are masked, the core is reset and made a device, the device
    /// is initialized and kept off the bus, and the FIFO memory is
    /// partitioned.  A wait that reaches the retry ceiling ends it with a
    /// hardware timeout.
    pub open spec fn initialization(self) -> (Result<(), UsbError>, Model) {
        let (reset_ok, m) = self.core_state_reset().modify(
            Register::Gahbcfg,
            GAHBCFG_GINTMSK,
            0,
        ).core_initialization();
        if !reset_ok {
            (Err(UsbError::HardwareTimeout), m)
        } else {
            let (result, m) = m.set_current_mode(USB_DEVICE_MODE).device_initialization();
            if result is Err {
                (result, m)
            } else {
                (Ok(()), m.device_disconnect().partition_fifos())
            }
        }
    }

    /// Enabling the controller: nothing when it is not disabled; otherwise
    /// its initialization, after which it is initialized if that went well and
    /// still disabled if not.
    pub open spec fn enable(self) -> (Result<(), UsbError>, Model) {
        if self.state != UsbState::Disabled {
            (Ok(()), self)
        } else {
            let (result, m) = self.initialization();
            if result is Ok {
                (result, m.with_state(UsbState::Initialized))
            } else {
                (result, m)
            }
        }
    }

    /// Starting the controller: interrupts are let through and the device is
    /// connected to the bus.
    pub open spec fn start(self) -> Model {
        self.modify(Register::Gahbcfg, GAHBCFG_GINTMSK, GAHBCFG_GINTMSK).device_connect().with_state(
            UsbState::Started,
        )
    }

    /// Detaching the controller: the device is taken off the bus and
    /// interrupts are masked; a started controller is initialized again.
    pub open spec fn detach(self) -> Model {
        let m = self.device_disconnect().modify(Register::Gahbcfg, GAHBCFG_GINTMSK, 0);
        if self.state == UsbState::Started {
            m.with_state(UsbState::Initialized)
        } else {
            m
        }
    }
}

/// Clearing the transmit FIFO sizes changes nothing but the peripheral.
proof fn clear_tx_sizes_keeps_state(m: Model, from: nat)
    ensures
        m.clear_tx_sizes(from) == m.with_bus(m.clear_tx_sizes(from).bus),
    decreases NUM_ENDPOINTS - from,
{
    if from < NUM_ENDPOINTS {
        clear_tx_sizes_keeps_state(m.write(Register::Dieptxf(from as usize), 0), from + 1);
    }
}

/// Bringing the endpoints to rest changes nothing but the peripheral.
proof fn quiesce_keeps_state(m: Model, from: nat)
    ensures
        m.quiesce_from(from) == m.with_bus(m.quiesce_from(from).bus),
    decreases NUM_ENDPOINTS - from,
{
    if from < NUM_ENDPOINTS {
        quiesce_keeps_state(m.quiesce_in(from as usize).quiesce_out(from as usize), from + 1);
    }
}

/// Device initialization changes nothing but the peripheral.
pub proof fn device_initialization_keeps_state(m: Model)
    ensures
        m.device_initialization().1 == m.with_bus(m.device_initialization().1.bus),
{
    clear_tx_sizes_keeps_state(m, 0);
    let (tx_ok, flushed) = m.device_setup().flush_tx_fifo(ALL_TX_FIFOS);
    if tx_ok {
        let (rx_ok, flushed) = flushed.flush_rx_fifo();
        if rx_ok {
            quiesce_keeps_state(
                flushed.write(Register::Diepmsk, 0).write(Register::Doepmsk, 0).write(
                    Register::Daintmsk,
                    0,
                ),
                0,
            );
        }
    }
}

/// Initialization leaves of the controller's own state what it was, but for
/// the descriptors, which are reset, and the partition of the FIFO memory,
/// which is made anew.
pub proof fn initialization_keeps_state(m: Model)
    ensures
        m.initialization().1.state == m.state,
        m.initialization().1.addr == m.addr,
        m.initialization().1.order == m.order,
        m.initialization().1.client == m.client,
        m.initialization().1.endpoints == m.core_state_reset().endpoints,
        m.initialization().0 is Ok ==> m.initialization().1.fifo
            == m.core_state_reset().partition_fifos().fifo,
        m.initialization().0 is Err ==> m.initialization().1.fifo == m.core_state_reset().fifo,
{
    let (reset_ok, reset) = m.core_state_reset().modify(
        Register::Gahbcfg,
        GAHBCFG_GINTMSK,
        0,
    ).core_initialization();
    if reset_ok {
        device_initialization_keeps_state(reset.set_current_mode(USB_DEVICE_MODE));
    }
}

impl<R: Registers, C: Client> Usbotg<R, C> {
    /// Reads `reg` until the bits under `mask` are set (`want`) or clear, at
    /// most `budget` times; tells whether they came to be so.
    pub(crate) fn poll(&mut self, reg: Register, mask: u32, want: bool, budget: u32) -> (ok: bool)
        requires
            reg.wf(),
        ensures
            (ok, final(self)@) == old(self)@.polled(reg, mask, want, budget as nat),
            final(self)@ == old(self)@.with_bus(final(self)@.bus),
    {
        poll(&mut self.registers, reg, mask, want, budget)
    }

    /// Resets the core.
    pub(crate) fn core_reset(&mut self) -> (ok: bool)
        ensures
            (ok, final(self)@) == old(self)@.core_reset(),
            final(self)@ == old(self)@.with_bus(final(self)@.bus),
    {
        if !self.poll(Register::Grstctl, GRSTCTL_AHBIDL, true, RETRY_CEILING) {
            return false;
        }
        self.modify(Register::Grstctl, GRSTCTL_CSRST, GRSTCTL_CSRST);
        self.poll(Register::Grstctl, GRSTCTL_CSRST, false, RETRY_CEILING)
    }

    /// Flushes transmit FIFO `num`, or all of them for [`ALL_TX_FIFOS`].
    pub(crate) fn flush_tx_fifo(&mut self, num: u32) -> (ok: bool)
        ensures
            (ok, final(self)@) == old(self)@.flush_tx_fifo(num),
            final(self)@ == old(self)@.with_bus(final(self)@.bus),
    {
        self.write(Register::Grstctl, 0);
        self.modify(
            Register::Grstctl,
            GRSTCTL_TXFFLSH | GRSTCTL_TXFNUM_MASK,
            GRSTCTL_TXFFLSH | place(num, GRSTCTL_TXFNUM_MASK, GRSTCTL_TXFNUM_SHIFT),
        );
        self.poll(Register::Grstctl, GRSTCTL_TXFFLSH, false, RETRY_CEILING)
    }

    /// Flushes the receive FIFO.
    pub(crate) fn flush_rx_fifo(&mut self) -> (ok: bool)
        ensures
            (ok, final(self)@) == old(self)@.flush_rx_fifo(),
            final(self)@ == old(self)@.with_bus(final(self)@.bus),
    {
        self.write(Register::Grstctl, 0);
        self.modify(Register::Grstctl, GRSTCTL_RXFFLSH, GRSTCTL_RXFFLSH);
        self.poll(Register::Grstctl, GRSTCTL_RXFFLSH, false, RETRY_CEILING)
    }

    /// Selects the PHY, resets the core and powers the transceiver.
    pub(crate) fn core_initialization(&mut self) -> (ok: bool)
        ensures
            (ok, final(self)@) == old(self)@.core_initialization(),
            final(self)@ == old(self)@.with_bus(final(self)@.bus),
    {
        self.modify(Register::Gusbcfg, GUSBCFG_PHYSEL, GUSBCFG_PHYSEL);
        if !self.core_reset() {
            return false;
        }
        self.modify(Register::Gccfg, GCCFG_PWRDWN, GCCFG_PWRDWN);
        true
    }

    /// Forces the core into the role `usb_mode` and gives it time to change.
    pub(crate) fn set_current_mode(&mut self, usb_mode: u32)
        ensures
            final(self)@ == old(self)@.set_current_mode(usb_mode),
            final(self)@ == old(self)@.with_bus(final(self)@.bus),
    {
        self.modify(Register::Gusbcfg, GUSBCFG_FDMOD | GUSBCFG_FHMOD, 0);
        if usb_mode == USB_HOST_MODE {
            self.modify(Register::Gusbcfg, GUSBCFG_FHMOD, GUSBCFG_FHMOD);
        } else {
            self.modify(Register::Gusbcfg, GUSBCFG_FDMOD, GUSBCFG_FDMOD);
        }
        let ghost switched = self@;
        let mut cycle: u32 = 0;
        while cycle < MODE_SWITCH_CYCLES
            invariant
                self@ == switched,
            decreases MODE_SWITCH_CYCLES - cycle,
        {
            self.registers.nop();
            cycle = cycle + 1;
        }
    }

    fn quiesce_in(&mut self, endpoint: usize)
        requires
            endpoint < NUM_ENDPOINTS,
        ensures
            final(self)@ == old(self)@.quiesce_in(endpoint),
            final(self)@ == old(self)@.with_bus(final(self)@.bus),
    {
        let control = self.read(Register::Diepctl(endpoint));
        self.write(Register::Diepctl(endpoint), 0);
        if is_set(control, EPCTL_EPENA) {
            let stop: u32 = if endpoint == 0 {
                EPCTL_SNAK
            } else {
                EPCTL_EPDIS | EPCTL_SNAK
            };
            self.modify(Register::Diepctl(endpoint), stop, stop);
        }
        self.write(Register::Dieptsiz(endpoint), 0);
        self.write(Register::Diepint(endpoint), EPINT_ALL_FLAGS);
    }

    fn quiesce_out(&mut self, endpoint: usize)
        requires
            endpoint < NUM_ENDPOINTS,
        ensures
            final(self)@ == old(self)@.quiesce_out(endpoint),
            final(self)@ == old(self)@.with_bus(final(self)@.bus),
    {
        let control = self.read(Register::Doepctl(endpoint));
        self.write(Register::Doepctl(endpoint), 0);
        if is_set(control, EPCTL_EPENA) {
            let stop: u32 = if endpoint == 0 {
                EPCTL_SNAK
            } else {
                EPCTL_EPDIS | EPCTL_SNAK
            };
            self.modify(Register::Doepctl(endpoint), stop, stop);
        }
        self.write(Register::Doeptsiz(endpoint), 0);
        self.write(Register::Doepint(endpoint), EPINT_ALL_FLAGS);
    }

    /// Initializes the device side of the core.
    pub(crate) fn device_initialization(&mut self) -> (result: Result<(), UsbError>)
        ensures
            (result, final(self)@) == old(self)@.device_initialization(),
            final(self)@ == old(self)@.with_bus(final(self)@.bus),
    {
        let mut i: usize = 0;
        while i < NUM_ENDPOINTS
            invariant
                i <= NUM_ENDPOINTS,
                old(self)@.clear_tx_sizes(0) == self@.clear_tx_sizes(i as nat),
                self@ == old(self)@.with_bus(self@.bus),
            decreases NUM_ENDPOINTS - i,
        {
            self.write(Register::Dieptxf(i), 0);
            i = i + 1;
        }
        self.modify(Register::Dctl, DCTL_SDIS, DCTL_SDIS);
        self.modify(Register::Gccfg, GCCFG_VBDEN, 0);
        self.modify(
            Register::Gotgctl,
            GOTGCTL_BVALOEN | GOTGCTL_BVALOVAL,
            GOTGCTL_BVALOEN | GOTGCTL_BVALOVAL,
        );
        self.write(Register::Pcgcctl, 0);
        self.modify(
            Register::Dcfg,
            DCFG_PFIVL_MASK,
            place(DCFG_FRAME_INTERVAL_80, DCFG_PFIVL_MASK, DCFG_PFIVL_SHIFT),
        );
        self.set_device_speed(USB_OTG_SPEED_FULL);
        assert(self@ == old(self)@.device_setup());
        if !self.flush_tx_fifo(ALL_TX_FIFOS) {
            return Err(UsbError::HardwareTimeout);
        }
        if !self.flush_rx_fifo() {
            return Err(UsbError::HardwareTimeout);
        }
        let ghost flushed = self@;
        self.write(Register::Diepmsk, 0);
        self.write(Register::Doepmsk, 0);
        self.write(Register::Daintmsk, 0);
        let ghost masked = self@;
        let mut i: usize = 0;
        while i < NUM_ENDPOINTS
            invariant
                i <= NUM_ENDPOINTS,
                masked.quiesce_from(0) == self@.quiesce_from(i as nat),
                self@ == old(self)@.with_bus(self@.bus),
            decreases NUM_ENDPOINTS - i,
        {
            self.quiesce_in(i);
            self.quiesce_out(i);
            i = i + 1;
        }
        self.write(Register::Gintmsk, 0);
        self.write(Register::Gintsts, GINT_ALL_FLAGS);
        self.modify(Register::Gintmsk, GINT_BASELINE, GINT_BASELINE);
        assert(self@ == flushed.device_masks());
        Ok(())
    }

    /// Stops the device: acknowledges and masks every endpoint interrupt and
    /// flushes both FIFOs.
    pub fn stop_device(&mut self) -> (result: Result<(), UsbError>)
        ensures
            (result, final(self)@) == old(self)@.stop_device(),
            final(self)@ == old(self)@.with_bus(final(self)@.bus),
            old(self)@.wf() ==> final(self)@.wf(),
    {
        let mut i: usize = 0;
        while i < NUM_ENDPOINTS
            invariant
                i <= NUM_ENDPOINTS,
                old(self)@.clear_endpoint_flags(0) == self@.clear_endpoint_flags(i as nat),
                self@ == old(self)@.with_bus(self@.bus),
            decreases NUM_ENDPOINTS - i,
        {
            self.write(Register::Diepint(i), EPINT_ALL_FLAGS);
            self.write(Register::Doepint(i), EPINT_ALL_FLAGS);
            i = i + 1;
        }
        self.write(Register::Diepmsk, 0);
        self.write(Register::Doepmsk, 0);
        self.write(Register::Daintmsk, 0);
        if !self.flush_rx_fifo() {
            return Err(UsbError::HardwareTimeout);
        }
        if !self.flush_tx_fifo(ALL_TX_FIFOS) {
            return Err(UsbError::HardwareTimeout);
        }
        Ok(())
    }

    /// Resets every descriptor and unassigns the FIFO memory.
    fn core_state_reset(&mut self)
        requires
            old(self)@.wf(),
        ensures
            final(self)@ == old(self)@.core_state_reset(),
            final(self)@.wf(),
    {
        let mut i: usize = 0;
        while i < NUM_ENDPOINTS
            invariant
                i <= NUM_ENDPOINTS,
                old(self)@.wf(),
                self@.endpoints.len() == NUM_ENDPOINTS,
                forall|j: int| 0 <= j < i ==> self@.endpoints[j] == old(self)@.endpoints[j].reset(),
                forall|j: int| i <= j < NUM_ENDPOINTS ==> self@.endpoints[j] == old(self)@.endpoints[j],
                self@ == (Model { endpoints: self@.endpoints, ..old(self)@ }),
            decreases NUM_ENDPOINTS - i,
        {
            let ghost before = self@;
            self.descriptors[i].state = EndpointState::Disabled;
            self.descriptors[i].transfer_size = 0;
            assert(self@.endpoints =~= before.endpoints.update(
                i as int,
                before.endpoints[i as int].reset(),
            ));
            i = i + 1;
        }
        self.fifo = FifoLayout::new();
        assert(self@.endpoints =~= old(self)@.core_state_reset().endpoints);
        assert forall|j: int| 0 <= j < NUM_ENDPOINTS implies (#[trigger] self@.endpoints[j]).wf() by {
            assert(old(self)@.endpoints[j].wf());
        }
    }

    /// Gives the receive FIFO `size` words.
    pub(crate) fn set_rx_fifo(&mut self, size: u32) -> (result: Result<(), UsbError>)
        requires
            old(self)@.wf(),
        ensures
            (result, final(self)@) == old(self)@.set_rx_fifo(size),
            final(self)@.wf(),
    {
        match self.fifo.set_rx(size) {
            Ok(()) => {
                self.write(Register::Grxfsiz, size);
                Ok(())
            },
            Err(e) => Err(e),
        }
    }

    /// Gives transmit FIFO `tx_fifo_no` `size` words behind the FIFOs that
    /// were assigned before it.
    pub(crate) fn set_tx_fifo(&mut self, tx_fifo_no: usize, size: u32) -> (result: Result<
        (),
        UsbError,
    >)
        requires
            old(self)@.wf(),
        ensures
            (result, final(self)@) == old(self)@.set_tx_fifo(tx_fifo_no, size),
            final(self)@.wf(),
    {
        match self.fifo.add_tx(tx_fifo_no, size) {
            Ok(start) => {
                self.modify(
                    Register::Dieptxf(tx_fifo_no),
                    DIEPTXF_DEPTH_MASK | DIEPTXF_START_MASK,
                    place(size, DIEPTXF_DEPTH_MASK, DIEPTXF_DEPTH_SHIFT) | place(
                        start,
                        DIEPTXF_START_MASK,
                        DIEPTXF_START_SHIFT,
                    ),
                );
                Ok(())
            },
            Err(e) => Err(e),
        }
    }

    /// Initializes the controller: resets the core, makes it a device,
    /// initializes the device side, keeps it off the bus and partitions the
    /// FIFO memory.  Fails with a hardware timeout when the core does not
    /// finish a reset or a flush within the retry ceiling.
    pub fn initialization(&mut self) -> (result: Result<(), UsbError>)
        requires
            old(self)@.wf(),
        ensures
            (result, final(self)@) == old(self)@.initialization(),
            final(self)@.wf(),
    {
        self.core_state_reset();
        self.disable_global_interrupt();
        if !self.core_initialization() {
            return Err(UsbError::HardwareTimeout);
        }
        self.set_current_mode(USB_DEVICE_MODE);
        match self.device_initialization() {
            Ok(()) => {},
            Err(e) => {
                return Err(e);
            },
        }
        self.device_disconnect();
        let _ = self.set_rx_fifo(RX_FIFO_DEPTH);
        let _ = self.set_tx_fifo(0, TX_FIFO_0_DEPTH);
        let _ = self.set_tx_fifo(1, TX_FIFO_1_DEPTH);
        Ok(())
    }

    /// Lets interrupts through and connects the device to the bus.
    pub(crate) fn device_start(&mut self)
        ensures
            final(self)@ == old(self)@.modify(
                Register::Gahbcfg,
                GAHBCFG_GINTMSK,
                GAHBCFG_GINTMSK,
            ).device_connect(),
    {
        self.enable_global_interrupt();
        self.device_connect();
    }

    /// Powers the controller: initializes it if it is disabled, and does
    /// nothing otherwise.
    pub fn enable(&mut self) -> (result: Result<(), UsbError>)
        requires
            old(self)@.wf(),
        ensures
            (result, final(self)@) == old(self)@.enable(),
            final(self)@.wf(),
    {
        if self.state != UsbState::Disabled {
            return Ok(());
        }
        match self.initialization() {
            Ok(()) => {
                self.set_state(UsbState::Initialized);
                Ok(())
            },
            Err(e) => Err(e),
        }
    }

    /// Lets the host enumerate the device.
    pub fn start(&mut self)
        ensures
            final(self)@ == old(self)@.start(),
            old(self)@.wf() ==> final(self)@.wf(),
    {
        self.device_start();
        self.set_state(UsbState::Started);
    }

    /// Enables the controller as a device of the given speed.  Only full
    /// speed is supported.
    pub fn enable_as_device(&mut self, speed: DeviceSpeed) -> (result: Result<(), UsbError>)
        requires
            old(self)@.wf(),
        ensures
            final(self)@.wf(),
            speed == DeviceSpeed::Low ==> result == Err::<(), UsbError>(UsbError::UnsupportedFeature)
                && final(self)@ == old(self)@,
            speed == DeviceSpeed::Full ==> (result, final(self)@) == old(self)@.enable(),
    {
        match speed {
            DeviceSpeed::Low => Err(UsbError::UnsupportedFeature),
            DeviceSpeed::Full => self.enable(),
        }
    }

    /// Attaches the device to the bus.
    pub fn attach(&mut self)
        ensures
            final(self)@ == old(self)@.start(),
            old(self)@.wf() ==> final(self)@.wf(),
    {
        self.start();
    }

    /// Detaches the device from the bus.
    pub fn detach(&mut self)
        ensures
            final(self)@ == old(self)@.detach(),
            old(self)@.wf() ==> final(self)@.wf(),
    {
        let started = self.state == UsbState::Started;
        self.device_disconnect();
        self.disable_global_interrupt();
        if started {
            self.set_state(UsbState::Initialized);
        }
    }
}

} // verus!
