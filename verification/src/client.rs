//! The upper layer that consumes control transfers, and its model.

use vstd::prelude::*;
use crate::types::{CtrlInResult, CtrlOutResult, CtrlSetupResult};

verus! {

/// One callback into the client, with what it was handed.
#[verifier::ext_equal]
pub enum Callback {
    /// A SETUP packet arrived on the endpoint; the packet is shown.
    Setup(usize, Seq<u8>),
    /// Data is wanted for the endpoint; the client fills the IN buffer.
    InData(usize),
    /// Data of the given length arrived on the endpoint; the OUT buffer is
    /// shown.
    OutData(usize, u32, Seq<u8>),
    /// The status stage begins on the endpoint.
    Status(usize),
    /// The status stage is over on the endpoint.
    StatusComplete(usize),
    /// The bus was reset.
    BusReset,
}

/// What the client does in one callback: its answer to each kind of question
/// and the bytes it leaves at the start of a buffer it may fill.
#[verifier::ext_equal]
pub struct Reply {
    pub setup: CtrlSetupResult,
    pub in_data: CtrlInResult,
    pub out_data: CtrlOutResult,
    pub bytes: Seq<u8>,
}

/// What the engine knows of its client: the callbacks it has made, in order,
/// and how the client reacts to each.  Nothing is assumed of those reactions.
#[verifier::ext_equal]
pub struct Upper {
    /// The callbacks made so far, oldest first.
    pub calls: Seq<Callback>,
    /// The client's reaction to the callback that comes after `n` earlier ones.
    pub replies: spec_fn(nat) -> Reply,
}

impl Upper {
    /// The client's reaction to the next callback.
    pub open spec fn next(self) -> Reply {
        (self.replies)(self.calls.len())
    }

    /// The model after `call` was made.
    pub open spec fn after(self, call: Callback) -> Upper {
        Upper { calls: self.calls.push(call), ..self }
    }
}

/// A buffer after the client has written `bytes` at its start: what does not
/// fit is dropped, and what `bytes` does not reach stays.
pub open spec fn filled(buffer: Seq<u8>, bytes: Seq<u8>) -> Seq<u8> {
    Seq::new(buffer.len(), |i: int| if i < bytes.len() { bytes[i] } else { buffer[i] })
}

/// The consumer of control transfers.  Each method is one callback; the
/// engine makes them from its interrupt handler.
pub trait Client {
    /// The model of the callbacks made on this value.  A verified
    /// implementation gives its own: the model given here is one fixed value,
    /// which no callback can change as the methods ask.  It is here for
    /// implementations that are not verified, which need none.
    open spec fn view(&self) -> Upper {
        arbitrary()
    }

    /// A SETUP packet arrived on `endpoint`; `packet` is the OUT buffer that
    /// holds it.
    fn ctrl_setup(&mut self, endpoint: usize, packet: &[u8]) -> (result: CtrlSetupResult)
        ensures
            result == old(self)@.next().setup,
            final(self)@ == old(self)@.after(Callback::Setup(endpoint, packet@)),
    ;

    /// The host asks for data on `endpoint`; the client writes the next packet
    /// into `buffer`.
    fn ctrl_in(&mut self, endpoint: usize, buffer: &mut [u8]) -> (result: CtrlInResult)
        ensures
            result == old(self)@.next().in_data,
            final(buffer)@ == filled(old(buffer)@, old(self)@.next().bytes),
            final(self)@ == old(self)@.after(Callback::InData(endpoint)),
    ;

    /// `len` bytes from the host are in `data`, the OUT buffer of `endpoint`.
    fn ctrl_out(&mut self, endpoint: usize, len: u32, data: &[u8]) -> (result: CtrlOutResult)
        ensures
            result == old(self)@.next().out_data,
            final(self)@ == old(self)@.after(Callback::OutData(endpoint, len, data@)),
    ;

    /// The status stage of the transfer on `endpoint` begins.
    fn ctrl_status(&mut self, endpoint: usize)
        ensures
            final(self)@ == old(self)@.after(Callback::Status(endpoint)),
    ;

    /// The status stage of the transfer on `endpoint` is over.
    fn ctrl_status_complete(&mut self, endpoint: usize)
        ensures
            final(self)@ == old(self)@.after(Callback::StatusComplete(endpoint)),
    ;

    /// The host has reset the bus.
    fn bus_reset(&mut self)
        ensures
            final(self)@ == old(self)@.after(Callback::BusReset),
    ;
}

} // verus!
