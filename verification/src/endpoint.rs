//! Endpoint descriptors: the buffers of an endpoint and the state of its
//! transfer.

use vstd::prelude::*;
use vstd::arithmetic::power2::{lemma_pow2_adds, lemma_pow2_strictly_increases, lemma2_to64, pow2};
use crate::types::{Direction, EndpointState};

verus! {

/// Smallest length of an endpoint buffer in bytes.
pub const MIN_BUFFER_LEN: usize = 8;

/// Whether `n` is a power of two.
pub open spec fn is_power_of_two(n: nat) -> bool {
    exists|k: nat| n == pow2(k)
}

/// Whether a buffer of `len` bytes can serve an endpoint: it holds at least
/// eight bytes and its length is a power of two.
pub open spec fn buffer_len_ok(len: nat) -> bool {
    len >= MIN_BUFFER_LEN && is_power_of_two(len)
}

/// Whether `n` is a power of two.
///
/// Calls `usize::is_power_of_two`, which returns true if and only if the
/// number is 2 to the power of some `k`.
#[verifier::external_body]
fn power_of_two(n: usize) -> (yes: bool)
    ensures
        yes == is_power_of_two(n as nat),
{
    n.is_power_of_two()
}

/// Tests whether a buffer of `len` bytes can serve an endpoint.
pub fn check_buffer_len(len: usize) -> (ok: bool)
    ensures
        ok == buffer_len_ok(len as nat),
{
    len >= MIN_BUFFER_LEN && power_of_two(len)
}

/// A buffer that can serve an endpoint holds a whole number of words.
pub proof fn buffer_holds_whole_words(len: nat)
    requires
        buffer_len_ok(len),
    ensures
        len % 8 == 0,
{
    let k = choose|k: nat| len == pow2(k);
    lemma2_to64();
    if k < 3 {
        lemma_pow2_strictly_increases(k, 3);
    } else {
        lemma_pow2_adds(3, (k - 3) as nat);
        assert(len == 8 * pow2((k - 3) as nat));
    }
}

/// The model of an endpoint descriptor.
#[verifier::ext_equal]
pub struct EndpointModel {
    /// The bytes of the IN buffer, if one is assigned.
    pub slice_in: Option<Seq<u8>>,
    /// The bytes of the OUT buffer, if one is assigned.
    pub slice_out: Option<Seq<u8>>,
    /// The state of the endpoint, by its transfer type.
    pub state: EndpointState,
    /// The size of the pending transfer in bytes.
    pub transfer_size: usize,
    /// The direction in which the pending transfer moves: to the host out of
    /// the IN buffer, or from the host into the OUT buffer.
    pub transfer_direction: Direction,
    /// The direction of the data stage that the last SETUP packet asked for.
    pub request_type: Direction,
}

impl EndpointModel {
    /// A disabled endpoint without buffers.
    pub open spec fn fresh() -> EndpointModel {
        EndpointModel {
            slice_in: None,
            slice_out: None,
            state: EndpointState::Disabled,
            transfer_size: 0,
            transfer_direction: Direction::HostToDevice,
            request_type: Direction::HostToDevice,
        }
    }

    /// Whether both buffers are assigned.
    pub open spec fn has_buffers(self) -> bool {
        self.slice_in is Some && self.slice_out is Some
    }

    /// The number of bytes that the buffer for transfers in `direction` holds:
    /// the IN buffer for transfers to the host, the OUT buffer for transfers
    /// from the host; 0 when that buffer is not assigned.
    pub open spec fn room(self, direction: Direction) -> nat {
        match direction {
            Direction::DeviceToHost => match self.slice_in {
                Some(b) => b.len(),
                None => 0,
            },
            Direction::HostToDevice => match self.slice_out {
                Some(b) => b.len(),
                None => 0,
            },
        }
    }

    /// The invariant of a descriptor: an assigned buffer has an accepted
    /// length, the pending transfer fits in the buffer of its direction, and
    /// an endpoint that is not disabled has both buffers.
    pub open spec fn wf(self) -> bool {
        &&& self.slice_in matches Some(b) ==> buffer_len_ok(b.len())
        &&& self.slice_out matches Some(b) ==> buffer_len_ok(b.len())
        &&& self.transfer_size <= self.room(self.transfer_direction)
        &&& !(self.state is Disabled) ==> self.has_buffers()
    }

    /// The descriptor with its pending transfer held to the buffer of its
    /// direction: a size that fits stays, one that does not is cut to what
    /// the buffer holds.
    pub open spec fn fitted(self) -> EndpointModel {
        if self.transfer_size <= self.room(self.transfer_direction) {
            self
        } else {
            EndpointModel { transfer_size: self.room(self.transfer_direction) as usize, ..self }
        }
    }

    /// The descriptor after a reset: disabled, nothing pending, its buffers
    /// still assigned.
    pub open spec fn reset(self) -> EndpointModel {
        EndpointModel { state: EndpointState::Disabled, transfer_size: 0, ..self }
    }
}

/// An endpoint descriptor.
pub struct Endpoint {
    pub(crate) slice_in: Option<Vec<u8>>,
    pub(crate) slice_out: Option<Vec<u8>>,
    pub(crate) state: EndpointState,
    pub(crate) transfer_size: usize,
    pub(crate) transfer_direction: Direction,
    pub(crate) request_type: Direction,
}

/// The bytes of a buffer, if there is one.
pub open spec fn bytes_of_buffer(buffer: Option<Vec<u8>>) -> Option<Seq<u8>> {
    match buffer {
        Some(b) => Some(b@),
        None => None,
    }
}

impl Endpoint {
    /// The model of this descriptor.
    pub closed spec fn view(&self) -> EndpointModel {
        EndpointModel {
            slice_in: bytes_of_buffer(self.slice_in),
            slice_out: bytes_of_buffer(self.slice_out),
            state: self.state,
            transfer_size: self.transfer_size,
            transfer_direction: self.transfer_direction,
            request_type: self.request_type,
        }
    }

    /// Spells the model out over the fields, for the rest of the crate.
    pub(crate) broadcast proof fn view_unfolds(&self)
        ensures
            #[trigger] self.view() == (EndpointModel {
                slice_in: bytes_of_buffer(self.slice_in),
                slice_out: bytes_of_buffer(self.slice_out),
                state: self.state,
                transfer_size: self.transfer_size,
                transfer_direction: self.transfer_direction,
                request_type: self.request_type,
            }),
    {
    }

    /// A disabled endpoint without buffers.
    pub fn new() -> (endpoint: Self)
        ensures
            endpoint@ == EndpointModel::fresh(),
            endpoint@.wf(),
    {
        Endpoint {
            slice_in: None,
            slice_out: None,
            state: EndpointState::Disabled,
            transfer_size: 0,
            transfer_direction: Direction::HostToDevice,
            request_type: Direction::HostToDevice,
        }
    }

    /// The state of the endpoint.
    pub fn state(&self) -> (state: EndpointState)
        ensures
            state == self@.state,
    {
        self.state
    }

    /// The size of the pending transfer in bytes.
    pub fn transfer_size(&self) -> (size: usize)
        ensures
            size == self@.transfer_size,
    {
        self.transfer_size
    }

    /// The direction in which the pending transfer moves.
    pub fn transfer_direction(&self) -> (direction: Direction)
        ensures
            direction == self@.transfer_direction,
    {
        self.transfer_direction
    }

    /// The direction that the last SETUP packet asked for.
    pub fn request_type(&self) -> (direction: Direction)
        ensures
            direction == self@.request_type,
    {
        self.request_type
    }

    /// The IN buffer, if one is assigned.
    pub fn slice_in(&self) -> (buffer: Option<&Vec<u8>>)
        ensures
            buffer matches Some(b) ==> self@.slice_in == Some(b@),
            buffer is None ==> self@.slice_in is None,
    {
        self.slice_in.as_ref()
    }

    /// The OUT buffer, if one is assigned.
    pub fn slice_out(&self) -> (buffer: Option<&Vec<u8>>)
        ensures
            buffer matches Some(b) ==> self@.slice_out == Some(b@),
            buffer is None ==> self@.slice_out is None,
    {
        self.slice_out.as_ref()
    }

    /// The number of bytes that the buffer for transfers in `direction` holds;
    /// 0 when that buffer is not assigned.
    pub fn room(&self, direction: Direction) -> (bytes: usize)
        ensures
            bytes == self@.room(direction),
    {
        let buffer = match direction {
            Direction::DeviceToHost => &self.slice_in,
            Direction::HostToDevice => &self.slice_out,
        };
        match buffer {
            Some(b) => b.len(),
            None => 0,
        }
    }

    /// Holds the pending transfer to the buffer of its direction.
    pub(crate) fn fit(&mut self)
        ensures
            final(self)@ == old(self)@.fitted(),
    {
        let room = self.room(self.transfer_direction);
        if self.transfer_size > room {
            self.transfer_size = room;
        }
    }
}

} // verus!
