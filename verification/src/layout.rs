//! The partition of the FIFO memory: the receive FIFO first, then one
//! transmit FIFO after the other.

use vstd::prelude::*;
use crate::regs::NUM_ENDPOINTS;
use crate::types::UsbError;

verus! {

/// Size of the FIFO memory in words.
pub const FIFO_RAM_WORDS: u32 = 320;

/// The sum of the first `n` depths.
pub open spec fn depth_sum(depths: Seq<u32>, n: nat) -> nat
    decreases n,
{
    if n == 0 {
        0
    } else {
        (depth_sum(depths, (n - 1) as nat) + depths[n - 1]) as nat
    }
}

/// A partition: the depth of the receive FIFO and those of the transmit
/// FIFOs, in words.
#[verifier::ext_equal]
pub struct Partition {
    pub rx: u32,
    pub tx: Seq<u32>,
}

impl Partition {
    /// The first word of transmit FIFO `n`, or of the free memory when `n` is
    /// the number of transmit FIFOs.
    pub open spec fn start(self, n: nat) -> nat
        recommends
            n <= self.tx.len(),
    {
        (self.rx + depth_sum(self.tx, n)) as nat
    }

    /// The number of words in use.
    pub open spec fn total(self) -> nat {
        self.start(self.tx.len())
    }

    /// There is at most one transmit FIFO for each endpoint, and the FIFOs fit
    /// in the memory.
    pub open spec fn wf(self) -> bool {
        &&& self.tx.len() <= NUM_ENDPOINTS
        &&& self.total() <= FIFO_RAM_WORDS
    }

    /// The partition with `depth` as its receive FIFO.
    pub open spec fn with_rx(self, depth: u32) -> Partition {
        Partition { rx: depth, ..self }
    }

    /// The partition with one more transmit FIFO.
    pub open spec fn with_tx(self, depth: u32) -> Partition {
        Partition { tx: self.tx.push(depth), ..self }
    }

    /// Whether the receive FIFO can be given `depth` words: no transmit FIFO
    /// lies behind it yet, and it fits.
    pub open spec fn takes_rx(self, depth: u32) -> bool {
        self.tx.len() == 0 && depth <= FIFO_RAM_WORDS
    }

    /// Whether transmit FIFO `fifo` can be added with `depth` words: it is the
    /// next one, and it fits behind the others.
    pub open spec fn takes_tx(self, fifo: usize, depth: u32) -> bool {
        &&& fifo == self.tx.len()
        &&& fifo < NUM_ENDPOINTS
        &&& self.total() + depth <= FIFO_RAM_WORDS
    }
}

/// The sum over a longer list agrees with the sum over its beginning.
proof fn depth_sum_of_push(depths: Seq<u32>, depth: u32, n: nat)
    requires
        n <= depths.len(),
    ensures
        depth_sum(depths.push(depth), n) == depth_sum(depths, n),
    decreases n,
{
    if n > 0 {
        depth_sum_of_push(depths, depth, (n - 1) as nat);
    }
}

/// The FIFOs of a partition lie one behind the other: the receive FIFO at
/// word 0, each transmit FIFO where the one before it ends, and none beyond
/// the memory.
pub proof fn partition_is_contiguous(p: Partition, n: nat)
    requires
        p.wf(),
        n < p.tx.len(),
    ensures
        p.start(0) == p.rx,
        p.start(n + 1) == p.start(n) + p.tx[n as int],
        p.start(n + 1) <= FIFO_RAM_WORDS,
{
    sum_grows(p.tx, n + 1, p.tx.len());
}

/// A sum over more depths is no smaller.
proof fn sum_grows(depths: Seq<u32>, n: nat, m: nat)
    requires
        n <= m,
    ensures
        depth_sum(depths, n) <= depth_sum(depths, m),
    decreases m,
{
    if n < m {
        sum_grows(depths, n, (m - 1) as nat);
    }
}

/// The partition table of the FIFO memory.
pub struct FifoLayout {
    rx: u32,
    tx: Vec<u32>,
}

impl FifoLayout {
    /// The partition that this table holds.
    pub closed spec fn view(&self) -> Partition {
        Partition { rx: self.rx, tx: self.tx@ }
    }

    /// A table with an empty receive FIFO and no transmit FIFO.
    pub fn new() -> (layout: Self)
        ensures
            layout@ == (Partition { rx: 0, tx: Seq::empty() }),
            layout@.wf(),
    {
        FifoLayout { rx: 0, tx: Vec::new() }
    }

    /// The number of transmit FIFOs.
    pub fn tx_count(&self) -> (n: usize)
        ensures
            n == self@.tx.len(),
    {
        self.tx.len()
    }

    /// The depth of the receive FIFO.
    pub fn rx_depth(&self) -> (depth: u32)
        ensures
            depth == self@.rx,
    {
        self.rx
    }

    /// The number of words in use.
    pub fn total(&self) -> (words: u32)
        requires
            self@.wf(),
        ensures
            words == self@.total(),
    {
        let mut words: u32 = self.rx;
        let mut i: usize = 0;
        while i < self.tx.len()
            invariant
                self@.wf(),
                i <= self.tx.len(),
                words == self@.start(i as nat),
            decreases self.tx.len() - i,
        {
            proof {
                sum_grows(self.tx@, (i + 1) as nat, self.tx@.len());
            }
            words = words + self.tx[i];
            i = i + 1;
        }
        words
    }

    /// Sets the depth of the receive FIFO.  Refused once a transmit FIFO lies
    /// behind it, or when it does not fit.
    pub fn set_rx(&mut self, depth: u32) -> (result: Result<(), UsbError>)
        requires
            old(self)@.wf(),
        ensures
            final(self)@.wf(),
            old(self)@.takes_rx(depth) ==> result is Ok && final(self)@ == old(self)@.with_rx(depth),
            !old(self)@.takes_rx(depth) ==> result == Err::<(), UsbError>(UsbError::Configuration)
                && final(self)@ == old(self)@,
    {
        if self.tx.len() != 0 || depth > FIFO_RAM_WORDS {
            return Err(UsbError::Configuration);
        }
        self.rx = depth;
        Ok(())
    }

    /// Adds transmit FIFO `fifo` with `depth` words behind the others and
    /// gives its first word.  Refused when `fifo` is not the next one or when
    /// it does not fit.
    pub fn add_tx(&mut self, fifo: usize, depth: u32) -> (result: Result<u32, UsbError>)
        requires
            old(self)@.wf(),
        ensures
            final(self)@.wf(),
            old(self)@.takes_tx(fifo, depth) ==> result == Ok::<u32, UsbError>(
                old(self)@.total() as u32,
            ) && final(self)@ == old(self)@.with_tx(depth),
            !old(self)@.takes_tx(fifo, depth) ==> result == Err::<u32, UsbError>(
                UsbError::Configuration,
            ) && final(self)@ == old(self)@,
    {
        if fifo != self.tx.len() || fifo >= NUM_ENDPOINTS {
            return Err(UsbError::Configuration);
        }
        let start = self.total();
        if depth > FIFO_RAM_WORDS - start {
            return Err(UsbError::Configuration);
        }
        self.tx.push(depth);
        proof {
            depth_sum_of_push(old(self).tx@, depth, old(self).tx@.len());
        }
        Ok(start)
    }
}

} // verus!
