//! The register interface of the peripheral and its model.

use vstd::prelude::*;

verus! {

/// Number of endpoints of the peripheral; endpoint 0 is the control endpoint.
pub const NUM_ENDPOINTS: usize = 6;

/// The registers that the engine touches.  Those that exist once per endpoint
/// carry the endpoint number.
#[derive(Clone, Copy, Debug, PartialEq, Eq, Structural)]
pub enum Register {
    Gotgctl,
    Gahbcfg,
    Gusbcfg,
    Grstctl,
    Gintsts,
    Gintmsk,
    Grxstsp,
    Grxfsiz,
    Dieptxf(usize),
    Gccfg,
    Cid,
    Dcfg,
    Dctl,
    Dsts,
    Diepmsk,
    Doepmsk,
    Daintmsk,
    Diepempmsk,
    Diepctl(usize),
    Diepint(usize),
    Dieptsiz(usize),
    Doepctl(usize),
    Doepint(usize),
    Doeptsiz(usize),
    Pcgcctl,
}

impl Register {
    /// A per-endpoint register names an endpoint that exists.
    pub open spec fn wf(self) -> bool {
        match self {
            Register::Dieptxf(n) => n < NUM_ENDPOINTS,
            Register::Diepctl(n) => n < NUM_ENDPOINTS,
            Register::Diepint(n) => n < NUM_ENDPOINTS,
            Register::Dieptsiz(n) => n < NUM_ENDPOINTS,
            Register::Doepctl(n) => n < NUM_ENDPOINTS,
            Register::Doepint(n) => n < NUM_ENDPOINTS,
            Register::Doeptsiz(n) => n < NUM_ENDPOINTS,
            _ => true,
        }
    }
}

/// One access to the peripheral, as the engine made it.
#[derive(Clone, Copy, Debug, PartialEq, Eq, Structural)]
pub enum Access {
    /// A register was read and the device answered with the value.
    Read(Register, u32),
    /// A register was overwritten with the value.
    Write(Register, u32),
    /// The bits under the mask were replaced by those of the value.
    Modify(Register, u32, u32),
    /// A word was pushed into the transmit FIFO of the endpoint.
    Push(usize, u32),
    /// A word was popped from the receive FIFO.
    Pop(u32),
}

/// What the engine knows of the peripheral: every access it has made, in
/// order, whether it has switched the peripheral clock on, and the answers the
/// device gives to reads.  Nothing is assumed of those answers, so whatever is
/// proved over this model holds however the device behaves.
#[verifier::ext_equal]
pub struct Bus {
    /// The accesses made so far, oldest first.
    pub log: Seq<Access>,
    /// The value with which the device answers the read or pop that comes
    /// after `n` earlier ones.
    pub answers: spec_fn(nat) -> u32,
    /// How many reads and pops have been answered.
    pub served: nat,
    /// Whether the peripheral clock is on.
    pub clock: bool,
}

impl Bus {
    /// The value that the next read or pop returns.
    pub open spec fn next(self) -> u32 {
        (self.answers)(self.served)
    }

    /// The model after a read of `reg`.
    pub open spec fn read(self, reg: Register) -> Bus {
        Bus { log: self.log.push(Access::Read(reg, self.next())), served: self.served + 1, ..self }
    }

    /// The model after `value` was written to `reg`.
    pub open spec fn write(self, reg: Register, value: u32) -> Bus {
        Bus { log: self.log.push(Access::Write(reg, value)), ..self }
    }

    /// The model after the bits under `mask` in `reg` were replaced by `value`.
    pub open spec fn modify(self, reg: Register, mask: u32, value: u32) -> Bus {
        Bus { log: self.log.push(Access::Modify(reg, mask, value)), ..self }
    }

    /// The model after `word` was pushed into the transmit FIFO of `endpoint`.
    pub open spec fn push(self, endpoint: usize, word: u32) -> Bus {
        Bus { log: self.log.push(Access::Push(endpoint, word)), ..self }
    }

    /// The model after a word was popped from the receive FIFO.
    pub open spec fn pop(self) -> Bus {
        Bus { log: self.log.push(Access::Pop(self.next())), served: self.served + 1, ..self }
    }

    /// The model after the clock gate was set.
    pub open spec fn gate(self, on: bool) -> Bus {
        Bus { clock: on, ..self }
    }

    /// The model after `words` were pushed, one after the other, into the
    /// transmit FIFO of `endpoint`.
    pub open spec fn pushed(self, endpoint: usize, words: Seq<u32>) -> Bus {
        Bus {
            log: self.log + Seq::new(words.len(), |i: int| Access::Push(endpoint, words[i])),
            ..self
        }
    }

    /// The next `count` values with which the device answers.
    pub open spec fn incoming(self, count: nat) -> Seq<u32> {
        Seq::new(count, |i: int| (self.answers)((self.served + i) as nat))
    }

    /// The model after `count` words were popped from the receive FIFO.
    pub open spec fn popped(self, count: nat) -> Bus {
        Bus {
            log: self.log + Seq::new(count, |i: int| Access::Pop(self.incoming(count)[i])),
            served: self.served + count,
            ..self
        }
    }
}

/// Access to the peripheral: its registers, its packet FIFOs and its clock
/// gate.  A read may consume what it returns, so every method that touches the
/// device takes `&mut self`.
pub trait Registers {
    /// The model of the accesses made through this value.  A verified
    /// implementation gives its own: the model given here is one fixed value,
    /// which no access can change as the methods ask.  It is here for
    /// implementations that are not verified, which need none.
    open spec fn view(&self) -> Bus {
        arbitrary()
    }

    /// Reads `reg`.
    fn read(&mut self, reg: Register) -> (value: u32)
        requires
            reg.wf(),
        ensures
            value == old(self)@.next(),
            final(self)@ == old(self)@.read(reg),
    ;

    /// Overwrites `reg` with `value`.
    fn write(&mut self, reg: Register, value: u32)
        requires
            reg.wf(),
        ensures
            final(self)@ == old(self)@.write(reg, value),
    ;

    /// Replaces the bits of `reg` under `mask` by those of `value` and leaves
    /// the others as they are.
    fn modify(&mut self, reg: Register, mask: u32, value: u32)
        requires
            reg.wf(),
        ensures
            final(self)@ == old(self)@.modify(reg, mask, value),
    ;

    /// Pushes `word` into the transmit FIFO of `endpoint`.
    fn push(&mut self, endpoint: usize, word: u32)
        requires
            endpoint < NUM_ENDPOINTS,
        ensures
            final(self)@ == old(self)@.push(endpoint, word),
    ;

    /// Pops a word from the receive FIFO.
    fn pop(&mut self) -> (word: u32)
        ensures
            word == old(self)@.next(),
            final(self)@ == old(self)@.pop(),
    ;

    /// Spends one processor cycle without touching the device.
    fn nop(&mut self)
        ensures
            final(self)@ == old(self)@,
    ;

    /// Opens or closes the clock gate of the peripheral.
    fn set_clock(&mut self, on: bool)
        ensures
            final(self)@ == old(self)@.gate(on),
    ;

    /// Whether the clock gate is open.
    fn clock(&self) -> (on: bool)
        ensures
            on == self@.clock,
    ;
}

/// The outcome of reading `reg` until the bits under `mask` are set (`want`)
/// or clear, at most `budget` times: whether they came to be so, and the model
/// after the reads.
pub open spec fn polled(bus: Bus, reg: Register, mask: u32, want: bool, budget: nat) -> (bool, Bus)
    decreases budget,
{
    if budget == 0 {
        (false, bus)
    } else if (bus.next() & mask != 0) == want {
        (true, bus.read(reg))
    } else {
        polled(bus.read(reg), reg, mask, want, (budget - 1) as nat)
    }
}

/// Reads `reg` until the bits under `mask` are set (`want`) or clear, at most
/// `budget` times; tells whether they came to be so.
pub fn poll<R: Registers>(
    bus: &mut R,
    reg: Register,
    mask: u32,
    want: bool,
    budget: u32,
) -> (ok: bool)
    requires
        reg.wf(),
    ensures
        (ok, final(bus)@) == polled(old(bus)@, reg, mask, want, budget as nat),
{
    let mut left: u32 = budget;
    while left > 0
        invariant
            reg.wf(),
            polled(old(bus)@, reg, mask, want, budget as nat) == polled(
                bus@,
                reg,
                mask,
                want,
                left as nat,
            ),
        decreases left,
    {
        let value = bus.read(reg);
        if (value & mask != 0) == want {
            return true;
        }
        left = left - 1;
    }
    false
}

/// Pushes `words`, one after the other, into the transmit FIFO of `endpoint`.
pub fn push_words<R: Registers>(bus: &mut R, endpoint: usize, words: &Vec<u32>)
    requires
        endpoint < NUM_ENDPOINTS,
    ensures
        final(bus)@ == old(bus)@.pushed(endpoint, words@),
{
    let mut i: usize = 0;
    while i < words.len()
        invariant
            endpoint < NUM_ENDPOINTS,
            i <= words@.len(),
            bus@ == old(bus)@.pushed(endpoint, words@.take(i as int)),
        decreases words@.len() - i,
    {
        bus.push(endpoint, words[i]);
        i = i + 1;
        assert(bus@.log =~= old(bus)@.pushed(endpoint, words@.take(i as int)).log);
    }
    assert(words@.take(i as int) =~= words@);
    assert(old(bus)@.pushed(endpoint, words@.take(0)).log =~= old(bus)@.log);
}

/// Pops `count` words from the receive FIFO.
pub fn pop_words<R: Registers>(bus: &mut R, count: usize) -> (words: Vec<u32>)
    ensures
        words@ == old(bus)@.incoming(count as nat),
        final(bus)@ == old(bus)@.popped(count as nat),
{
    let mut words: Vec<u32> = Vec::new();
    let mut i: usize = 0;
    while i < count
        invariant
            i <= count,
            words@ == old(bus)@.incoming(i as nat),
            bus@ == old(bus)@.popped(i as nat),
        decreases count - i,
    {
        let word = bus.pop();
        words.push(word);
        i = i + 1;
        assert(words@ =~= old(bus)@.incoming(i as nat));
        assert(bus@.log =~= old(bus)@.popped(i as nat).log);
    }
    words
}

} // verus!
