//! The states of the controller and of its endpoints, and the values that
//! pass between the engine and its client.

use vstd::prelude::*;

verus! {

/// Lifecycle state of the controller.
#[derive(Copy, Clone, Debug, PartialEq, Eq, Structural)]
pub enum UsbState {
    Disabled,
    Started,
    Initialized,
    PoweredOn,
    Attached,
    Configured,
}

/// State of the control endpoint (endpoint 0).
#[derive(Copy, Clone, Debug, PartialEq, Eq, Structural)]
pub enum CtrlState {
    /// Idle, waiting for a SETUP packet from the host.
    Init,
    /// In the data stage of a control read.
    ReadIn,
    /// In the status stage.
    ReadStatus,
    /// In the data stage of a control write.
    WriteOut,
    /// An address waits to be set in hardware.
    SetAddress,
}

/// IN side of a bulk endpoint.
#[derive(Copy, Clone, Debug, PartialEq, Eq, Structural)]
pub enum BulkInState {
    /// Ready to perform transactions.
    Init,
    /// An IN packet of this size is pending.
    In(usize),
}

/// OUT side of a bulk endpoint.
#[derive(Copy, Clone, Debug, PartialEq, Eq, Structural)]
pub enum BulkOutState {
    /// Ready to perform transactions.
    Init,
    /// An OUT packet waits in the buffer for the client to read it.
    OutDelay,
    /// Data of this size waits for a reply.
    OutData(usize),
}

/// State of an interrupt endpoint.
#[derive(Copy, Clone, Debug, PartialEq, Eq, Structural)]
pub enum InterruptState {
    /// Ready to perform transactions.
    Init,
    /// An IN packet of this size is pending.
    In(usize),
}

/// State of an endpoint, by the transfer type it was activated for.
#[derive(Copy, Clone, Debug)]
pub enum EndpointState {
    Disabled,
    Ctrl(CtrlState),
    Bulk(Option<BulkInState>, Option<BulkOutState>),
    /// The maximum packet size and the state.
    Interrupt(u32, InterruptState),
}

/// The four transfer types of USB.
#[derive(Copy, Clone, Debug, PartialEq, Eq, Structural)]
pub enum TransferType {
    Control,
    Isochronous,
    Bulk,
    Interrupt,
}

/// Speed at which a device can be asked to run.
#[derive(Copy, Clone, Debug, PartialEq, Eq, Structural)]
pub enum DeviceSpeed {
    Full,
    Low,
}

/// Direction of the data stage of a control transfer.
#[derive(Copy, Clone, Debug, PartialEq, Eq, Structural)]
pub enum Direction {
    HostToDevice,
    DeviceToHost,
}

/// The client's answer to a SETUP packet.
#[derive(Copy, Clone, Debug, PartialEq, Eq, Structural)]
pub enum CtrlSetupResult {
    /// The request is accepted.
    Accept,
    /// The request is accepted and sets the device address.
    OkSetAddress,
    /// The request is refused.
    Error,
}

/// The client's answer when asked for data to send to the host.
#[derive(Copy, Clone, Debug, PartialEq, Eq, Structural)]
pub enum CtrlInResult {
    /// A packet of the given size is in the IN buffer; the flag tells whether
    /// it is the last of the transfer.
    Packet(usize, bool),
    /// No data is ready yet.
    Delay,
    /// The request cannot be served.
    Error,
}

/// The client's answer when handed data from the host.
#[derive(Copy, Clone, Debug, PartialEq, Eq, Structural)]
pub enum CtrlOutResult {
    /// The data is accepted.
    Accept,
    /// The client cannot take the data yet.
    Delay,
    /// The client refuses the data.
    Halted,
}

/// Why a call on the controller failed.
#[derive(Copy, Clone, Debug, PartialEq, Eq, Structural)]
pub enum UsbError {
    /// A buffer has the wrong size, an endpoint number is out of range, or an
    /// endpoint lacks its buffers.
    Configuration,
    /// The device did not finish a reset or a flush within the retry ceiling.
    HardwareTimeout,
    /// The controller does not do what was asked for.
    UnsupportedFeature,
}

} // verus!
