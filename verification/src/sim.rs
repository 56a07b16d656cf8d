//! Scripted stand-ins for the peripheral and for the client.  They answer from
//! prepared lists and record what the engine does, so that the engine can be
//! run without the device.

use vstd::prelude::*;
use vstd::slice::slice_to_vec;
use crate::client::{filled, Callback, Client, Reply, Upper};
use crate::regs::{Access, Bus, Register, Registers};
use crate::types::{CtrlInResult, CtrlOutResult, CtrlSetupResult};

verus! {

/// A peripheral that answers reads and pops from a list, in order, and with 0
/// once the list is used up.  It records every access.
pub struct ScriptedBus {
    answers: Vec<u32>,
    pos: usize,
    beyond: Ghost<nat>,
    log: Vec<Access>,
    clock: bool,
}

impl ScriptedBus {
    /// The answer that the list holds for the read after `n` earlier ones.
    pub open spec fn answer(answers: Seq<u32>, n: nat) -> u32 {
        if n < answers.len() {
            answers[n as int]
        } else {
            0
        }
    }

    /// The list of answers this value was made with.
    pub closed spec fn answers(&self) -> Seq<u32> {
        self.answers@
    }

    /// A peripheral with its clock off that has not been touched and will
    /// answer with `answers`.
    pub fn new(answers: Vec<u32>) -> (bus: Self)
        ensures
            bus.answers() == answers@,
            forall|n: nat| #[trigger] (bus@.answers)(n) == Self::answer(answers@, n),
            bus@.log == Seq::<Access>::empty(),
            bus@.served == 0,
            !bus@.clock,
    {
        ScriptedBus { answers, pos: 0, beyond: Ghost(0), log: Vec::new(), clock: false }
    }

    /// The accesses recorded so far.
    pub fn log(&self) -> (log: &Vec<Access>)
        ensures
            log@ == self@.log,
    {
        &self.log
    }

    fn take(&mut self) -> (value: u32)
        ensures
            value == old(self)@.next(),
            final(self)@.served == old(self)@.served + 1,
            final(self)@.answers == old(self)@.answers,
            final(self)@.clock == old(self)@.clock,
            final(self).log == old(self).log,
    {
        if self.pos < self.answers.len() {
            let value = self.answers[self.pos];
            self.pos = self.pos + 1;
            self.beyond = Ghost(0);
            value
        } else {
            self.beyond = Ghost(self.beyond@ + 1);
            0
        }
    }
}

impl Registers for ScriptedBus {
    closed spec fn view(&self) -> Bus {
        Bus {
            log: self.log@,
            answers: |n: nat| Self::answer(self.answers@, n),
            served: if self.pos < self.answers.len() {
                self.pos as nat
            } else {
                self.pos as nat + self.beyond@
            },
            clock: self.clock,
        }
    }

    fn read(&mut self, reg: Register) -> (value: u32) {
        let value = self.take();
        self.log.push(Access::Read(reg, value));
        value
    }

    fn write(&mut self, reg: Register, value: u32) {
        self.log.push(Access::Write(reg, value));
    }

    fn modify(&mut self, reg: Register, mask: u32, value: u32) {
        self.log.push(Access::Modify(reg, mask, value));
    }

    fn push(&mut self, endpoint: usize, word: u32) {
        self.log.push(Access::Push(endpoint, word));
    }

    fn pop(&mut self) -> (word: u32) {
        let word = self.take();
        self.log.push(Access::Pop(word));
        word
    }

    fn nop(&mut self) {
    }

    fn set_clock(&mut self, on: bool) {
        self.clock = on;
    }

    fn clock(&self) -> (on: bool) {
        self.clock
    }
}

/// What a scripted client does in one callback.
pub struct Script {
    pub setup: CtrlSetupResult,
    pub in_data: CtrlInResult,
    pub out_data: CtrlOutResult,
    pub bytes: Vec<u8>,
}

impl Script {
    /// The reaction that this entry stands for.
    pub open spec fn reply(&self) -> Reply {
        Reply { setup: self.setup, in_data: self.in_data, out_data: self.out_data, bytes: self.bytes@ }
    }

    /// The reaction of a client whose script is used up: it refuses.
    pub open spec fn refusal() -> Reply {
        Reply {
            setup: CtrlSetupResult::Error,
            in_data: CtrlInResult::Error,
            out_data: CtrlOutResult::Halted,
            bytes: Seq::empty(),
        }
    }

    /// An entry that answers a SETUP packet with `setup` and refuses the rest.
    pub fn on_setup(setup: CtrlSetupResult) -> (script: Self)
        ensures
            script.reply() == (Reply { setup, ..Self::refusal() }),
    {
        Script {
            setup,
            in_data: CtrlInResult::Error,
            out_data: CtrlOutResult::Halted,
            bytes: Vec::new(),
        }
    }

    /// An entry that answers a request for data with `in_data` after writing
    /// `bytes`, and refuses the rest.
    pub fn on_in_data(in_data: CtrlInResult, bytes: Vec<u8>) -> (script: Self)
        ensures
            script.reply() == (Reply { in_data, bytes: bytes@, ..Self::refusal() }),
    {
        Script { setup: CtrlSetupResult::Error, in_data, out_data: CtrlOutResult::Halted, bytes }
    }

    /// An entry that answers data from the host with `out_data` and refuses
    /// the rest.
    pub fn on_out_data(out_data: CtrlOutResult) -> (script: Self)
        ensures
            script.reply() == (Reply { out_data, ..Self::refusal() }),
    {
        Script {
            setup: CtrlSetupResult::Error,
            in_data: CtrlInResult::Error,
            out_data,
            bytes: Vec::new(),
        }
    }
}

/// A callback as a scripted client records it.
#[derive(Debug)]
pub enum Call {
    Setup(usize, Vec<u8>),
    InData(usize),
    OutData(usize, u32, Vec<u8>),
    Status(usize),
    StatusComplete(usize),
    BusReset,
}

impl Call {
    /// The callback that this record stands for.
    pub open spec fn callback(&self) -> Callback {
        match self {
            Call::Setup(endpoint, packet) => Callback::Setup(*endpoint, packet@),
            Call::InData(endpoint) => Callback::InData(*endpoint),
            Call::OutData(endpoint, len, data) => Callback::OutData(*endpoint, *len, data@),
            Call::Status(endpoint) => Callback::Status(*endpoint),
            Call::StatusComplete(endpoint) => Callback::StatusComplete(*endpoint),
            Call::BusReset => Callback::BusReset,
        }
    }
}

/// A client that reacts to its callbacks as a list says, one entry for each,
/// and refuses once the list is used up.  It records every callback.
pub struct ScriptedClient {
    script: Vec<Script>,
    calls: Vec<Call>,
}

impl ScriptedClient {
    /// The reaction that the list holds for the callback after `n` earlier
    /// ones.
    pub open spec fn reaction(script: Seq<Script>, n: nat) -> Reply {
        if n < script.len() {
            script[n as int].reply()
        } else {
            Script::refusal()
        }
    }

    /// The callbacks that the records stand for.
    pub open spec fn callbacks(calls: Seq<Call>) -> Seq<Callback> {
        Seq::new(calls.len(), |i: int| calls[i].callback())
    }

    /// The list this value was made with.
    pub closed spec fn script(&self) -> Seq<Script> {
        self.script@
    }

    /// A client that has not been called and will react as `script` says.
    pub fn new(script: Vec<Script>) -> (client: Self)
        ensures
            client.script() == script@,
            forall|n: nat| #[trigger] (client@.replies)(n) == Self::reaction(script@, n),
            client@.calls == Seq::<Callback>::empty(),
    {
        let client = ScriptedClient { script, calls: Vec::new() };
        assert(client@.calls =~= Seq::<Callback>::empty());
        client
    }

    /// The callbacks recorded so far.
    pub fn calls(&self) -> (calls: &Vec<Call>)
        ensures
            Self::callbacks(calls@) == self@.calls,
    {
        &self.calls
    }

    fn record(&mut self, call: Call)
        ensures
            final(self)@ == old(self)@.after(call.callback()),
            final(self).script == old(self).script,
    {
        self.calls.push(call);
        assert(final(self)@.calls =~= old(self)@.calls.push(call.callback()));
    }
}

impl Client for ScriptedClient {
    closed spec fn view(&self) -> Upper {
        Upper {
            calls: Self::callbacks(self.calls@),
            replies: |n: nat| Self::reaction(self.script@, n),
        }
    }

    fn ctrl_setup(&mut self, endpoint: usize, packet: &[u8]) -> (result: CtrlSetupResult) {
        let n = self.calls.len();
        let result = if n < self.script.len() {
            self.script[n].setup
        } else {
            CtrlSetupResult::Error
        };
        self.record(Call::Setup(endpoint, slice_to_vec(packet)));
        result
    }

    fn ctrl_in(&mut self, endpoint: usize, buffer: &mut [u8]) -> (result: CtrlInResult) {
        let n = self.calls.len();
        let mut result = CtrlInResult::Error;
        if n < self.script.len() {
            result = self.script[n].in_data;
            let len = self.script[n].bytes.len();
            let mut i: usize = 0;
            while i < len && i < buffer.len()
                invariant
                    n < self.script.len(),
                    len == self.script[n as int].bytes.len(),
                    buffer@.len() == old(buffer)@.len(),
                    i <= len,
                    i <= buffer@.len(),
                    forall|j: int| 0 <= j < i ==> buffer@[j] == self.script[n as int].bytes@[j],
                    forall|j: int| i <= j < buffer@.len() ==> buffer@[j] == old(buffer)@[j],
                decreases len - i,
            {
                buffer[i] = self.script[n].bytes[i];
                i = i + 1;
            }
        }
        assert(buffer@ =~= filled(old(buffer)@, old(self)@.next().bytes));
        self.record(Call::InData(endpoint));
        result
    }

    fn ctrl_out(&mut self, endpoint: usize, len: u32, data: &[u8]) -> (result: CtrlOutResult) {
        let n = self.calls.len();
        let result = if n < self.script.len() {
            self.script[n].out_data
        } else {
            CtrlOutResult::Halted
        };
        self.record(Call::OutData(endpoint, len, slice_to_vec(data)));
        result
    }

    fn ctrl_status(&mut self, endpoint: usize) {
        self.record(Call::Status(endpoint));
    }

    fn ctrl_status_complete(&mut self, endpoint: usize) {
        self.record(Call::StatusComplete(endpoint));
    }

    fn bus_reset(&mut self) {
        self.record(Call::BusReset);
    }
}

} // verus!
