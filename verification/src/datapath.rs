//! The FIFO datapath: endpoint buffers to transmit FIFO words, and receive
//! FIFO words to endpoint buffers.

use vstd::prelude::*;
use crate::client::Client;
use crate::endpoint::{buffer_holds_whole_words, Endpoint, EndpointModel};
use crate::packet::{
    clear_start, cleared, pack_words, packed, received, unpack_into, unpacked, word_count, words_for,
};
use crate::regs::{pop_words, push_words, Registers, NUM_ENDPOINTS};
use crate::types::{Direction, UsbError};
use crate::usbotg::{Model, Usbotg};

verus! {

broadcast use {Endpoint::view_unfolds, Usbotg::view_unfolds};

impl Model {
    /// Whether a packet of `len` bytes can be written for `endpoint`: the
    /// endpoint exists and has a transmit FIFO, and its IN buffer holds `len`
    /// bytes.
    pub open spec fn can_write(self, endpoint: usize, len: usize) -> bool {
        &&& endpoint < NUM_ENDPOINTS
        &&& endpoint < self.fifo.tx.len()
        &&& self.endpoints[endpoint as int].slice_in matches Some(b) && len <= b.len()
    }

    /// A packet written: the first `len` bytes of the IN buffer of
    /// `endpoint`, filled up to whole words from the buffer, go into the
    /// endpoint's transmit FIFO word by word.  Refused with a configuration
    /// error, and without a word pushed, where it cannot be written.
    pub open spec fn write_packet(self, endpoint: usize, len: usize) -> (Result<(), UsbError>, Model) {
        if self.can_write(endpoint, len) {
            (
                Ok(()),
                self.with_bus(
                    self.bus.pushed(
                        endpoint,
                        packed(
                            self.endpoints[endpoint as int].slice_in->Some_0,
                            words_for(len as nat),
                        ),
                    ),
                ),
            )
        } else {
            (Err(UsbError::Configuration), self)
        }
    }

    /// Whether a packet of `len` bytes can be stored for `endpoint`: the
    /// endpoint exists and its OUT buffer holds the words of the packet.
    pub open spec fn takes_packet(self, endpoint: usize, len: u32) -> bool {
        &&& endpoint < NUM_ENDPOINTS
        &&& self.endpoints[endpoint as int].slice_out matches Some(b) && 4 * words_for(len as nat)
            <= b.len()
    }

    /// A packet read: the words of a packet of `len` bytes are popped from
    /// the receive FIFO.  Where the packet can be stored, its bytes are
    /// received into the OUT buffer of `endpoint` and `len` bytes from the
    /// host are pending there; where not, the words are dropped and a
    /// configuration error is reported.
    pub open spec fn read_packet(self, endpoint: usize, len: u32) -> (Result<(), UsbError>, Model) {
        let count = words_for(len as nat);
        let m = self.with_bus(self.bus.popped(count));
        if self.takes_packet(endpoint, len) {
            let e = self.endpoints[endpoint as int];
            (
                Ok(()),
                m.with_endpoint(
                    endpoint as int,
                    EndpointModel {
                        slice_out: Some(
                            received(
                                e.slice_out->Some_0,
                                unpacked(self.order, self.bus.incoming(count)),
                            ),
                        ),
                        transfer_size: len as usize,
                        transfer_direction: Direction::HostToDevice,
                        ..e
                    },
                ),
            )
        } else {
            (Err(UsbError::Configuration), m)
        }
    }

    /// The start of the OUT buffer of `endpoint` cleared.  Refused with a
    /// configuration error where there is no such endpoint or no such buffer.
    pub open spec fn clear_endpoint_out_buffer(self, endpoint: usize) -> (
        Result<(), UsbError>,
        Model,
    ) {
        if endpoint < NUM_ENDPOINTS && self.endpoints[endpoint as int].slice_out is Some {
            let e = self.endpoints[endpoint as int];
            (
                Ok(()),
                self.with_endpoint(
                    endpoint as int,
                    EndpointModel { slice_out: Some(cleared(e.slice_out->Some_0)), ..e },
                ),
            )
        } else {
            (Err(UsbError::Configuration), self)
        }
    }

    /// The start of the IN buffer of `endpoint` cleared.  Refused with a
    /// configuration error where there is no such endpoint or no such buffer.
    pub open spec fn clear_endpoint_in_buffer(self, endpoint: usize) -> (
        Result<(), UsbError>,
        Model,
    ) {
        if endpoint < NUM_ENDPOINTS && self.endpoints[endpoint as int].slice_in is Some {
            let e = self.endpoints[endpoint as int];
            (
                Ok(()),
                self.with_endpoint(
                    endpoint as int,
                    EndpointModel { slice_in: Some(cleared(e.slice_in->Some_0)), ..e },
                ),
            )
        } else {
            (Err(UsbError::Configuration), self)
        }
    }
}

impl<R: Registers, C: Client> Usbotg<R, C> {
    /// Writes the first `len` bytes of the IN buffer of endpoint `ep` into
    /// its transmit FIFO.
    ///
    /// Fails with a configuration error, and pushes nothing, when the
    /// endpoint does not exist or has no transmit FIFO, or when its IN buffer
    /// is missing or shorter than `len`.
    pub fn write_packet(&mut self, ep: usize, len: usize) -> (result: Result<(), UsbError>)
        requires
            old(self)@.wf(),
        ensures
            (result, final(self)@) == old(self)@.write_packet(ep, len),
            final(self)@.wf(),
    {
        if ep >= NUM_ENDPOINTS || ep >= self.fifo.tx_count() {
            return Err(UsbError::Configuration);
        }
        let words = match &self.descriptors[ep].slice_in {
            Some(buffer) => {
                if len > buffer.len() {
                    return Err(UsbError::Configuration);
                }
                proof {
                    assert(self@.endpoints[ep as int].wf());
                    buffer_holds_whole_words(buffer@.len());
                }
                pack_words(buffer.as_slice(), word_count(len))
            },
            None => {
                return Err(UsbError::Configuration);
            },
        };
        push_words(&mut self.registers, ep, &words);
        Ok(())
    }

    /// Pops a packet of `len` bytes from the receive FIFO and stores it in
    /// the OUT buffer of endpoint `ep`.
    ///
    /// Fails with a configuration error when the endpoint does not exist,
    /// when it has no OUT buffer, or when its OUT buffer does not hold the
    /// words of the packet; the words are popped and dropped then.
    pub fn read_packet(&mut self, ep: usize, len: u32) -> (result: Result<(), UsbError>)
        requires
            old(self)@.wf(),
        ensures
            (result, final(self)@) == old(self)@.read_packet(ep, len),
            final(self)@.wf(),
    {
        let count = word_count(len as usize);
        let words = pop_words(&mut self.registers, count);
        if ep >= NUM_ENDPOINTS {
            return Err(UsbError::Configuration);
        }
        let fits = match &self.descriptors[ep].slice_out {
            Some(buffer) => count <= buffer.len() / 4,
            None => false,
        };
        if !fits {
            return Err(UsbError::Configuration);
        }
        let order = self.order;
        match &mut self.descriptors[ep].slice_out {
            Some(buffer) => {
                unpack_into(buffer, order, &words);
            },
            None => {},
        }
        self.descriptors[ep].transfer_size = len as usize;
        self.descriptors[ep].transfer_direction = Direction::HostToDevice;
        assert(self@.endpoints =~= old(self)@.read_packet(ep, len).1.endpoints);
        assert forall|i: int| 0 <= i < NUM_ENDPOINTS implies (#[trigger] self@.endpoints[i]).wf() by {
            assert(old(self)@.endpoints[i].wf());
        }
        Ok(())
    }

    /// Clears the first eight bytes of the OUT buffer of endpoint `ep`.  Fails
    /// with a configuration error when there is no such endpoint or when it
    /// has no OUT buffer.
    pub fn clear_endpoint_out_buffer(&mut self, ep: usize) -> (result: Result<(), UsbError>)
        requires
            old(self)@.wf(),
        ensures
            (result, final(self)@) == old(self)@.clear_endpoint_out_buffer(ep),
            final(self)@.wf(),
    {
        if ep >= NUM_ENDPOINTS {
            return Err(UsbError::Configuration);
        }
        if self.descriptors[ep].slice_out.is_none() {
            return Err(UsbError::Configuration);
        }
        match &mut self.descriptors[ep].slice_out {
            Some(buffer) => {
                clear_start(buffer);
            },
            None => {},
        }
        assert(self@.endpoints =~= old(self)@.clear_endpoint_out_buffer(ep).1.endpoints);
        assert forall|i: int| 0 <= i < NUM_ENDPOINTS implies (#[trigger] self@.endpoints[i]).wf() by {
            assert(old(self)@.endpoints[i].wf());
        }
        Ok(())
    }

    /// Clears the first eight bytes of the IN buffer of endpoint `ep`.  Fails
    /// with a configuration error when there is no such endpoint or when it
    /// has no IN buffer.
    pub fn clear_endpoint_in_buffer(&mut self, ep: usize) -> (result: Result<(), UsbError>)
        requires
            old(self)@.wf(),
        ensures
            (result, final(self)@) == old(self)@.clear_endpoint_in_buffer(ep),
            final(self)@.wf(),
    {
        if ep >= NUM_ENDPOINTS {
            return Err(UsbError::Configuration);
        }
        if self.descriptors[ep].slice_in.is_none() {
            return Err(UsbError::Configuration);
        }
        match &mut self.descriptors[ep].slice_in {
            Some(buffer) => {
                clear_start(buffer);
            },
            None => {},
        }
        assert(self@.endpoints =~= old(self)@.clear_endpoint_in_buffer(ep).1.endpoints);
        assert forall|i: int| 0 <= i < NUM_ENDPOINTS implies (#[trigger] self@.endpoints[i]).wf() by {
            assert(old(self)@.endpoints[i].wf());
        }
        Ok(())
    }

    /// Writes the pending packet of the control endpoint into the transmit
    /// FIFO of endpoint `epnum`.
    pub(crate) fn write_empty_tx_fifo(&mut self, epnum: usize) -> (result: Result<(), UsbError>)
        requires
            old(self)@.wf(),
        ensures
            (result, final(self)@) == old(self)@.write_packet(
                epnum,
                old(self)@.endpoints[0].transfer_size,
            ),
            final(self)@.wf(),
    {
        let size = self.descriptors[0].transfer_size;
        self.write_packet(epnum, size)
    }
}

} // verus!
