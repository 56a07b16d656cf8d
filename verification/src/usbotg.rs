//! The controller: its state, its model, and the calls that configure it.

use vstd::prelude::*;
use vstd::slice::slice_to_vec;
use crate::bits::{extract, field, place, placed};
use crate::client::{Callback, Client, Upper};
use crate::endpoint::{buffer_len_ok, check_buffer_len, Endpoint, EndpointModel};
use crate::fields::{
    DCFG_DAD_MASK, DCFG_DAD_SHIFT, DCFG_DSPD_MASK, DCFG_DSPD_SHIFT, DCTL_CGINAK, DCTL_SDIS,
    DSTS_ENUMSPD_MASK, DSTS_ENUMSPD_SHIFT, EPCTL_MPSIZ0_MASK, GAHBCFG_GINTMSK, GUSBCFG_TRDT_MASK,
    GUSBCFG_TRDT_SHIFT, PCGCCTL_GATEHCLK, PCGCCTL_STPPCLK,
};
use crate::layout::{FifoLayout, Partition};
use crate::packet::{native_byte_order, ByteOrder};
use crate::regs::{Bus, Register, Registers, NUM_ENDPOINTS};
use crate::types::{Direction, EndpointState, UsbError, UsbState};

verus! {

broadcast use Endpoint::view_unfolds;

/// The model of the controller: its own state, what it has done to the
/// peripheral and what it has asked of its client.
#[verifier::ext_equal]
pub struct Model {
    /// The lifecycle state.
    pub state: UsbState,
    /// The endpoint descriptors, by endpoint number.
    pub endpoints: Seq<EndpointModel>,
    /// The device address that was last staged.
    pub addr: u16,
    /// The byte order in which received words are laid out.
    pub order: ByteOrder,
    /// The partition of the FIFO memory.
    pub fifo: Partition,
    /// The peripheral.
    pub bus: Bus,
    /// The client, once one is set.
    pub client: Option<Upper>,
}

/// Whether an endpoint state is one that the control endpoint can have.
pub open spec fn ctrl_or_disabled(state: EndpointState) -> bool {
    state is Disabled || state is Ctrl
}

impl Model {
    /// The invariant of the controller: there is one descriptor for each
    /// endpoint and each keeps its own invariant, endpoint 0 is a control
    /// endpoint, and the FIFOs fit in the FIFO memory.
    pub open spec fn wf(self) -> bool {
        &&& self.endpoints.len() == NUM_ENDPOINTS
        &&& forall|i: int| 0 <= i < NUM_ENDPOINTS ==> (#[trigger] self.endpoints[i]).wf()
        &&& ctrl_or_disabled(self.endpoints[0].state)
        &&& self.fifo.wf()
    }

    /// A controller that has not been touched: disabled, without client and
    /// without buffers.
    pub open spec fn fresh(bus: Bus, order: ByteOrder) -> Model {
        Model {
            state: UsbState::Disabled,
            endpoints: Seq::new(NUM_ENDPOINTS as nat, |i: int| EndpointModel::fresh()),
            addr: 0,
            order,
            fifo: Partition { rx: 0, tx: Seq::empty() },
            bus,
            client: None,
        }
    }

    /// The model with `bus` for its peripheral.
    pub open spec fn with_bus(self, bus: Bus) -> Model {
        Model { bus, ..self }
    }

    /// The model with `endpoint` as descriptor `i`.
    pub open spec fn with_endpoint(self, i: int, endpoint: EndpointModel) -> Model {
        Model { endpoints: self.endpoints.update(i, endpoint), ..self }
    }

    /// The model with descriptor `i` in `state`.
    pub open spec fn with_endpoint_state(self, i: int, state: EndpointState) -> Model {
        self.with_endpoint(i, EndpointModel { state, ..self.endpoints[i] })
    }

    /// The model with a pending transfer of `size` bytes on descriptor `i`,
    /// in the direction it had.
    pub open spec fn with_transfer_size(self, i: int, size: usize) -> Model {
        self.with_endpoint(i, EndpointModel { transfer_size: size, ..self.endpoints[i] })
    }

    /// The model with a pending transfer of `size` bytes in `direction` on
    /// descriptor `i`.
    pub open spec fn with_transfer(self, i: int, size: usize, direction: Direction) -> Model {
        self.with_endpoint(
            i,
            EndpointModel {
                transfer_size: size,
                transfer_direction: direction,
                ..self.endpoints[i]
            },
        )
    }

    /// The model in lifecycle state `state`.
    pub open spec fn with_state(self, state: UsbState) -> Model {
        Model { state, ..self }
    }

    /// The model after a read of `reg`; the value read is `self.bus.next()`.
    pub open spec fn read(self, reg: Register) -> Model {
        self.with_bus(self.bus.read(reg))
    }

    /// The model after `value` was written to `reg`.
    pub open spec fn write(self, reg: Register, value: u32) -> Model {
        self.with_bus(self.bus.write(reg, value))
    }

    /// The model after the bits under `mask` in `reg` were replaced by
    /// `value`.
    pub open spec fn modify(self, reg: Register, mask: u32, value: u32) -> Model {
        self.with_bus(self.bus.modify(reg, mask, value))
    }

    /// The model after `call` was made on the client, if there is one.
    pub open spec fn called(self, call: Callback) -> Model {
        match self.client {
            Some(c) => Model { client: Some(c.after(call)), ..self },
            None => self,
        }
    }

    /// The model after the client's buffer was assigned to the control
    /// endpoint: both directions get the bytes of `buf`.  Nothing else
    /// changes, but that a pending transfer that is longer than `buf` is cut
    /// to its length.
    pub open spec fn endpoint_set_ctrl_buffer(self, buf: Seq<u8>) -> Model {
        self.with_endpoint(
            0,
            (EndpointModel {
                slice_in: Some(buf),
                slice_out: Some(buf),
                ..self.endpoints[0]
            }).fitted(),
        )
    }

    /// The model after `buf` was assigned as IN buffer of `endpoint`.
    /// Nothing else changes, but that a pending transfer to the host that is
    /// longer than `buf` is cut to its length.
    pub open spec fn endpoint_set_in_buffer(self, endpoint: int, buf: Seq<u8>) -> Model {
        self.with_endpoint(
            endpoint,
            (EndpointModel { slice_in: Some(buf), ..self.endpoints[endpoint] }).fitted(),
        )
    }

    /// The model after `buf` was assigned as OUT buffer of `endpoint`.
    /// Nothing else changes, but that a pending transfer from the host that
    /// is longer than `buf` is cut to its length.
    pub open spec fn endpoint_set_out_buffer(self, endpoint: int, buf: Seq<u8>) -> Model {
        self.with_endpoint(
            endpoint,
            (EndpointModel { slice_out: Some(buf), ..self.endpoints[endpoint] }).fitted(),
        )
    }

    /// The model after `address` was written to the device configuration.
    pub open spec fn set_device_address(self, address: u32) -> Model {
        self.modify(Register::Dcfg, DCFG_DAD_MASK, 0).modify(
            Register::Dcfg,
            DCFG_DAD_MASK,
            placed(address, DCFG_DAD_MASK, DCFG_DAD_SHIFT),
        )
    }

    /// The model after `addr` was staged and written to the device
    /// configuration.
    pub open spec fn set_address(self, addr: u16) -> Model {
        (Model { addr, ..self }).set_device_address(addr as u32)
    }

    /// The model after the device was connected to the bus: the clocks run
    /// and the pull-up is on.
    pub open spec fn device_connect(self) -> Model {
        self.modify(Register::Pcgcctl, PCGCCTL_STPPCLK | PCGCCTL_GATEHCLK, 0).modify(
            Register::Dctl,
            DCTL_SDIS,
            0,
        )
    }

    /// The model after the device was taken off the bus: the clocks run and
    /// the pull-up is off.
    pub open spec fn device_disconnect(self) -> Model {
        self.modify(Register::Pcgcctl, PCGCCTL_STPPCLK | PCGCCTL_GATEHCLK, 0).modify(
            Register::Dctl,
            DCTL_SDIS,
            DCTL_SDIS,
        )
    }

    /// The model after the control endpoint was readied for enumeration.
    pub open spec fn activate_setup(self) -> Model {
        self.modify(Register::Diepctl(0), EPCTL_MPSIZ0_MASK, 0).modify(
            Register::Dctl,
            DCTL_CGINAK,
            DCTL_CGINAK,
        )
    }
}

/// The speed code for high speed.
pub const USBD_HS_SPEED: u32 = 0;

/// The speed code for full speed.
pub const USBD_FS_SPEED: u32 = 2;

/// The speed code for an enumerated speed that is neither.
pub const USBD_UNKNOWN_SPEED: u32 = 0xF;

/// The speed setting of the device configuration for full speed.
pub const USB_OTG_SPEED_FULL: u32 = 3;

/// The turnaround time for a 48 MHz core clock.
pub const TURNAROUND_TIME: u32 = 6;

/// The speed code for what the device status reports as enumerated speed.
pub open spec fn speed_code(enumerated: u32) -> u32 {
    if enumerated == 0 {
        USBD_HS_SPEED
    } else if enumerated == 1 || enumerated == 3 {
        USBD_FS_SPEED
    } else {
        USBD_UNKNOWN_SPEED
    }
}

/// The models of a list of descriptors.
pub open spec fn models(descriptors: Seq<Endpoint>) -> Seq<EndpointModel> {
    Seq::new(descriptors.len(), |i: int| descriptors[i]@)
}

/// The model of a client, if there is one.
pub open spec fn upper<C: Client>(client: Option<C>) -> Option<Upper> {
    match client {
        Some(c) => Some(c@),
        None => None,
    }
}

/// The device-mode controller.  It owns the access to the peripheral and the
/// client that consumes its transfers.
pub struct Usbotg<R: Registers, C: Client> {
    pub(crate) registers: R,
    pub(crate) state: UsbState,
    pub(crate) client: Option<C>,
    pub(crate) descriptors: [Endpoint; NUM_ENDPOINTS],
    pub(crate) addr: u16,
    pub(crate) order: ByteOrder,
    pub(crate) fifo: FifoLayout,
}

impl<R: Registers, C: Client> Usbotg<R, C> {
    /// The model of this controller.
    pub closed spec fn view(&self) -> Model {
        Model {
            state: self.state,
            endpoints: models(self.descriptors@),
            addr: self.addr,
            order: self.order,
            fifo: self.fifo@,
            bus: self.registers@,
            client: upper(self.client),
        }
    }

    /// Spells the model out over the fields, for the rest of the crate.
    pub(crate) broadcast proof fn view_unfolds(&self)
        ensures
            #[trigger] self.view() == (Model {
                state: self.state,
                endpoints: models(self.descriptors@),
                addr: self.addr,
                order: self.order,
                fifo: self.fifo@,
                bus: self.registers@,
                client: upper(self.client),
            }),
    {
    }

    /// A controller for the peripheral behind `registers`, which lays
    /// received words out in the byte order of this processor.
    pub fn new(registers: R) -> (usb: Self)
        ensures
            usb@ == Model::fresh(registers@, usb@.order),
            usb@.wf(),
    {
        Self::with_byte_order(registers, native_byte_order())
    }

    /// A controller for the peripheral behind `registers`, which lays
    /// received words out in the given byte order.
    pub fn with_byte_order(registers: R, order: ByteOrder) -> (usb: Self)
        ensures
            usb@ == Model::fresh(registers@, order),
            usb@.wf(),
    {
        let descriptors = [
            Endpoint::new(),
            Endpoint::new(),
            Endpoint::new(),
            Endpoint::new(),
            Endpoint::new(),
            Endpoint::new(),
        ];
        let usb = Usbotg {
            registers,
            state: UsbState::Disabled,
            client: None,
            descriptors,
            addr: 0,
            order,
            fifo: FifoLayout::new(),
        };
        assert(usb@.endpoints =~= Model::fresh(registers@, order).endpoints);
        usb
    }

    /// The access to the peripheral.
    pub fn registers(&self) -> (registers: &R)
        ensures
            registers@ == self@.bus,
    {
        &self.registers
    }

    /// The client, if one is set.
    pub fn client(&self) -> (client: Option<&C>)
        ensures
            client matches Some(c) ==> self@.client == Some(c@),
            client is None ==> self@.client is None,
    {
        self.client.as_ref()
    }

    /// Descriptor `endpoint`, if there is such an endpoint.
    pub fn descriptor(&self, endpoint: usize) -> (descriptor: Option<&Endpoint>)
        ensures
            endpoint < NUM_ENDPOINTS ==> (descriptor matches Some(d) && d@
                == self@.endpoints[endpoint as int]),
            endpoint >= NUM_ENDPOINTS ==> descriptor is None,
    {
        if endpoint < NUM_ENDPOINTS {
            Some(&self.descriptors[endpoint])
        } else {
            None
        }
    }

    /// Whether the peripheral clock is on.
    pub fn is_enabled_clock(&self) -> (on: bool)
        ensures
            on == self@.bus.clock,
    {
        self.registers.clock()
    }

    /// Switches the peripheral clock on.
    pub fn enable_clock(&mut self)
        ensures
            final(self)@ == old(self)@.with_bus(old(self)@.bus.gate(true)),
            old(self)@.wf() ==> final(self)@.wf(),
    {
        self.registers.set_clock(true);
    }

    /// Switches the peripheral clock off.
    pub fn disable_clock(&mut self)
        ensures
            final(self)@ == old(self)@.with_bus(old(self)@.bus.gate(false)),
            old(self)@.wf() ==> final(self)@.wf(),
    {
        self.registers.set_clock(false);
    }

    /// The device address that was last staged.
    pub fn address(&self) -> (addr: u16)
        ensures
            addr == self@.addr,
    {
        self.addr
    }

    /// The byte order in which received words are laid out.
    pub fn byte_order(&self) -> (order: ByteOrder)
        ensures
            order == self@.order,
    {
        self.order
    }

    /// The lifecycle state.
    pub fn get_state(&self) -> (state: UsbState)
        ensures
            state == self@.state,
    {
        self.state
    }

    pub(crate) fn set_state(&mut self, state: UsbState)
        ensures
            final(self)@ == old(self)@.with_state(state),
    {
        self.state = state;
    }

    /// Sets the client that consumes the transfers; an earlier one is
    /// dropped.
    pub fn set_client(&mut self, client: C)
        ensures
            final(self)@ == (Model { client: Some(client@), ..old(self)@ }),
            old(self)@.wf() ==> final(self)@.wf(),
    {
        self.client = Some(client);
    }

    /// Assigns `buf` to the control endpoint, for both directions, and
    /// changes nothing else; only a pending transfer that `buf` cannot hold is
    /// cut to its length.  Refused with a configuration error, and without
    /// any change, when the length of `buf` is under eight or no power of
    /// two.
    pub fn endpoint_set_ctrl_buffer(&mut self, buf: Vec<u8>) -> (result: Result<(), UsbError>)
        requires
            old(self)@.wf(),
        ensures
            final(self)@.wf(),
            buffer_len_ok(buf@.len()) ==> result is Ok && final(self)@ == old(
                self,
            )@.endpoint_set_ctrl_buffer(buf@),
            !buffer_len_ok(buf@.len()) ==> result == Err::<(), UsbError>(UsbError::Configuration)
                && final(self)@ == old(self)@,
    {
        if !check_buffer_len(buf.len()) {
            return Err(UsbError::Configuration);
        }
        let copy = slice_to_vec(buf.as_slice());
        self.descriptors[0].slice_in = Some(copy);
        self.descriptors[0].slice_out = Some(buf);
        self.descriptors[0].fit();
        assert(self@.endpoints =~= old(self)@.endpoint_set_ctrl_buffer(buf@).endpoints);
        assert forall|i: int| 0 <= i < NUM_ENDPOINTS implies (#[trigger] self@.endpoints[i]).wf() by {
            assert(old(self)@.endpoints[i].wf());
        }
        Ok(())
    }

    /// Whether `buf` can be assigned to `endpoint`: the endpoint is one of
    /// those behind the control endpoint, and the length of `buf` is accepted.
    pub open spec fn accepts_buffer(endpoint: usize, buf: Seq<u8>) -> bool {
        buffer_len_ok(buf.len()) && 0 < endpoint < NUM_ENDPOINTS
    }

    /// Assigns `buf` as IN buffer of `endpoint` and changes nothing else; only
    /// a pending transfer to the host that `buf` cannot hold is cut to its
    /// length.  Refused with a configuration error, and without any change,
    /// when the length of `buf` is under eight or no power of two, or when
    /// `endpoint` is 0 or does not exist.
    pub fn endpoint_set_in_buffer(&mut self, endpoint: usize, buf: Vec<u8>) -> (result: Result<
        (),
        UsbError,
    >)
        requires
            old(self)@.wf(),
        ensures
            final(self)@.wf(),
            Self::accepts_buffer(endpoint, buf@) ==> result is Ok && final(self)@ == old(
                self,
            )@.endpoint_set_in_buffer(endpoint as int, buf@),
            !Self::accepts_buffer(endpoint, buf@) ==> result == Err::<(), UsbError>(
                UsbError::Configuration,
            ) && final(self)@ == old(self)@,
    {
        if !check_buffer_len(buf.len()) || endpoint == 0 || endpoint >= NUM_ENDPOINTS {
            return Err(UsbError::Configuration);
        }
        self.descriptors[endpoint].slice_in = Some(buf);
        self.descriptors[endpoint].fit();
        assert(self@.endpoints =~= old(self)@.endpoint_set_in_buffer(
            endpoint as int,
            buf@,
        ).endpoints);
        assert forall|i: int| 0 <= i < NUM_ENDPOINTS implies (#[trigger] self@.endpoints[i]).wf() by {
            assert(old(self)@.endpoints[i].wf());
        }
        Ok(())
    }

    /// Assigns `buf` as OUT buffer of `endpoint` and changes nothing else;
    /// only a pending transfer from the host that `buf` cannot hold is cut to
    /// its length.  Refused with a configuration error, and without any
    /// change, when the length of `buf` is under eight or no power of two, or
    /// when `endpoint` is 0 or does not exist.
    pub fn endpoint_set_out_buffer(&mut self, endpoint: usize, buf: Vec<u8>) -> (result: Result<
        (),
        UsbError,
    >)
        requires
            old(self)@.wf(),
        ensures
            final(self)@.wf(),
            Self::accepts_buffer(endpoint, buf@) ==> result is Ok && final(self)@ == old(
                self,
            )@.endpoint_set_out_buffer(endpoint as int, buf@),
            !Self::accepts_buffer(endpoint, buf@) ==> result == Err::<(), UsbError>(
                UsbError::Configuration,
            ) && final(self)@ == old(self)@,
    {
        if !check_buffer_len(buf.len()) || endpoint == 0 || endpoint >= NUM_ENDPOINTS {
            return Err(UsbError::Configuration);
        }
        self.descriptors[endpoint].slice_out = Some(buf);
        self.descriptors[endpoint].fit();
        assert(self@.endpoints =~= old(self)@.endpoint_set_out_buffer(
            endpoint as int,
            buf@,
        ).endpoints);
        assert forall|i: int| 0 <= i < NUM_ENDPOINTS implies (#[trigger] self@.endpoints[i]).wf() by {
            assert(old(self)@.endpoints[i].wf());
        }
        Ok(())
    }

    /// Reads `reg` from the peripheral.
    pub(crate) fn read(&mut self, reg: Register) -> (value: u32)
        requires
            reg.wf(),
        ensures
            value == old(self)@.bus.next(),
            final(self)@ == old(self)@.read(reg),
    {
        self.registers.read(reg)
    }

    /// Overwrites `reg` with `value`.
    pub(crate) fn write(&mut self, reg: Register, value: u32)
        requires
            reg.wf(),
        ensures
            final(self)@ == old(self)@.write(reg, value),
    {
        self.registers.write(reg, value);
    }

    /// Replaces the bits of `reg` under `mask` by those of `value`.
    pub(crate) fn modify(&mut self, reg: Register, mask: u32, value: u32)
        requires
            reg.wf(),
        ensures
            final(self)@ == old(self)@.modify(reg, mask, value),
    {
        self.registers.modify(reg, mask, value);
    }

    /// Lets the core raise interrupts.
    pub(crate) fn enable_global_interrupt(&mut self)
        ensures
            final(self)@ == old(self)@.modify(Register::Gahbcfg, GAHBCFG_GINTMSK, GAHBCFG_GINTMSK),
    {
        self.modify(Register::Gahbcfg, GAHBCFG_GINTMSK, GAHBCFG_GINTMSK);
    }

    /// Keeps the core from raising interrupts.
    pub(crate) fn disable_global_interrupt(&mut self)
        ensures
            final(self)@ == old(self)@.modify(Register::Gahbcfg, GAHBCFG_GINTMSK, 0),
    {
        self.modify(Register::Gahbcfg, GAHBCFG_GINTMSK, 0);
    }

    /// Sets the turnaround time for a 48 MHz core clock.
    pub(crate) fn set_turnaround_time(&mut self)
        ensures
            final(self)@ == old(self)@.modify(
                Register::Gusbcfg,
                GUSBCFG_TRDT_MASK,
                placed(TURNAROUND_TIME, GUSBCFG_TRDT_MASK, GUSBCFG_TRDT_SHIFT),
            ),
    {
        self.modify(
            Register::Gusbcfg,
            GUSBCFG_TRDT_MASK,
            place(TURNAROUND_TIME, GUSBCFG_TRDT_MASK, GUSBCFG_TRDT_SHIFT),
        );
    }

    /// Sets the speed of the device.
    pub(crate) fn set_device_speed(&mut self, speed: u32)
        ensures
            final(self)@ == old(self)@.modify(
                Register::Dcfg,
                DCFG_DSPD_MASK,
                placed(speed, DCFG_DSPD_MASK, DCFG_DSPD_SHIFT),
            ),
    {
        self.modify(
            Register::Dcfg,
            DCFG_DSPD_MASK,
            place(speed, DCFG_DSPD_MASK, DCFG_DSPD_SHIFT),
        );
    }

    /// Reads the speed at which the device was enumerated and gives its code.
    pub fn get_device_speed(&mut self) -> (speed: u32)
        ensures
            final(self)@ == old(self)@.read(Register::Dsts),
            speed == speed_code(field(old(self)@.bus.next(), DSTS_ENUMSPD_MASK, DSTS_ENUMSPD_SHIFT)),
            old(self)@.wf() ==> final(self)@.wf(),
    {
        let status = self.read(Register::Dsts);
        let enumerated = extract(status, DSTS_ENUMSPD_MASK, DSTS_ENUMSPD_SHIFT);
        if enumerated == 0 {
            USBD_HS_SPEED
        } else if enumerated == 1 || enumerated == 3 {
            USBD_FS_SPEED
        } else {
            USBD_UNKNOWN_SPEED
        }
    }

    /// Writes `address` to the device configuration.
    pub(crate) fn set_device_address(&mut self, address: u32)
        ensures
            final(self)@ == old(self)@.set_device_address(address),
    {
        self.modify(Register::Dcfg, DCFG_DAD_MASK, 0);
        self.modify(
            Register::Dcfg,
            DCFG_DAD_MASK,
            place(address, DCFG_DAD_MASK, DCFG_DAD_SHIFT),
        );
    }

    /// Stages `addr` as the device address and writes it to the device
    /// configuration at once.  (USB 2.0 lets a device take its new address
    /// only after the status stage of the request; this core is given the
    /// address as soon as the request arrives and applies it in time itself.)
    pub fn set_address(&mut self, addr: u16)
        ensures
            final(self)@ == old(self)@.set_address(addr),
            old(self)@.wf() ==> final(self)@.wf(),
    {
        self.addr = addr;
        self.set_device_address(addr as u32);
    }

    /// Does nothing: the address is in effect as soon as it is set.
    pub fn enable_address(&mut self)
        ensures
            final(self)@ == old(self)@,
            old(self)@.wf() ==> final(self)@.wf(),
    {
    }

    /// Connects the device to the bus.
    pub(crate) fn device_connect(&mut self)
        ensures
            final(self)@ == old(self)@.device_connect(),
    {
        self.modify(Register::Pcgcctl, PCGCCTL_STPPCLK | PCGCCTL_GATEHCLK, 0);
        self.modify(Register::Dctl, DCTL_SDIS, 0);
    }

    /// Takes the device off the bus.
    pub(crate) fn device_disconnect(&mut self)
        ensures
            final(self)@ == old(self)@.device_disconnect(),
    {
        self.modify(Register::Pcgcctl, PCGCCTL_STPPCLK | PCGCCTL_GATEHCLK, 0);
        self.modify(Register::Dctl, DCTL_SDIS, DCTL_SDIS);
    }

    /// Readies the control endpoint for enumeration.
    pub(crate) fn activate_setup(&mut self)
        ensures
            final(self)@ == old(self)@.activate_setup(),
    {
        self.modify(Register::Diepctl(0), EPCTL_MPSIZ0_MASK, 0);
        self.modify(Register::Dctl, DCTL_CGINAK, DCTL_CGINAK);
    }

    /// Does nothing: a halted IN endpoint resumes when its stall is cleared.
    pub fn endpoint_resume_in(&mut self, endpoint: usize)
        ensures
            final(self)@ == old(self)@,
            old(self)@.wf() ==> final(self)@.wf(),
    {
    }

    /// Does nothing: a halted OUT endpoint resumes when its stall is cleared.
    pub fn endpoint_resume_out(&mut self, endpoint: usize)
        ensures
            final(self)@ == old(self)@,
            old(self)@.wf() ==> final(self)@.wf(),
    {
    }
}

} // verus!
