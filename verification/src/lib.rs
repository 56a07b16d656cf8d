//! Device-mode engine for an on-chip USB OTG full-speed controller.
//!
//! The engine turns the peripheral's interrupts into the USB control-transfer
//! protocol and moves packet data between endpoint buffers and the packet
//! FIFOs.  It reaches the peripheral through the [`regs::Registers`] trait and
//! the upper layer through the [`client::Client`] trait, and it is verified
//! against a model of the two in which the device may answer any read with
//! any value and the client may react to any callback in any way.
//!
//! The controller is [`usbotg::Usbotg`].  Its model, [`usbotg::Model`], holds
//! the state of the controller together with every access it has made to the
//! peripheral and every callback it has made on its client; the contract of
//! each call says what the call makes of the model.  What holds over several
//! calls is stated in [`laws`], [`history`], [`order`], [`inactive`],
//! [`unaddressed`], [`stalled`] and [`whole`].
//!
//! The modules, from the leaves up:
//!
//! - [`bits`] and [`fields`]: bit fields, and those of the peripheral.
//! - [`regs`]: the registers, the access to them, and the model of it.
//! - [`types`]: the states of controller and endpoints, and the answers of a
//!   client.
//! - [`packet`], [`setup`], [`layout`], [`control`]: packing of packets,
//!   decoding of SETUP packets and status words, the partition of the FIFO
//!   memory, and the decisions of a control transfer.
//! - [`endpoint`] and [`client`]: endpoint descriptors, and the client with
//!   its model.
//! - [`sim`]: a peripheral and a client that follow a script.
//! - [`usbotg`], [`lifecycle`], [`endpoints`], [`datapath`], [`transfer`],
//!   [`interrupt`]: the controller.

pub mod bits;
pub mod fields;
pub mod regs;
pub mod types;
pub mod packet;
pub mod setup;
pub mod layout;
pub mod control;
pub mod endpoint;
pub mod client;
pub mod sim;
pub mod usbotg;
pub mod lifecycle;
pub mod endpoints;
pub mod datapath;
pub mod transfer;
pub mod interrupt;
pub mod history;
pub mod order;
pub mod laws;
pub mod inactive;
pub mod unaddressed;
pub mod stalled;
pub mod whole;
