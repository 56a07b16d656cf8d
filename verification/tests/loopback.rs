use std::collections::VecDeque;

use usb_otg::client::Client;
use usb_otg::fields::{
    DOEPINT_STUP, GINT_OEPINT, GINT_RXFLVL, GRSTCTL_AHBIDL,
};
use usb_otg::packet::ByteOrder;
use usb_otg::regs::{Register, Registers};
use usb_otg::types::{CtrlInResult, CtrlOutResult, CtrlSetupResult, CtrlState, EndpointState, UsbState};
use usb_otg::usbotg::Usbotg;

/// A peripheral whose transmit FIFOs feed its receive FIFO, and whose
/// registers read as a list says, by register, and as an idle core once the
/// list of a register is used up.
struct Loopback {
    fifo: VecDeque<u32>,
    reads: Vec<(Register, VecDeque<u32>)>,
    writes: usize,
    clock: bool,
}

impl Loopback {
    fn new() -> Self {
        Loopback { fifo: VecDeque::new(), reads: Vec::new(), writes: 0, clock: false }
    }

    fn answering(mut self, reg: Register, values: &[u32]) -> Self {
        self.reads.push((reg, values.iter().copied().collect()));
        self
    }
}

impl Registers for Loopback {
    fn read(&mut self, reg: Register) -> u32 {
        for (register, values) in self.reads.iter_mut() {
            if *register == reg {
                if let Some(value) = values.pop_front() {
                    return value;
                }
            }
        }
        if reg == Register::Grstctl {
            GRSTCTL_AHBIDL
        } else {
            0
        }
    }

    fn write(&mut self, _reg: Register, _value: u32) {
        self.writes += 1;
    }

    fn modify(&mut self, _reg: Register, _mask: u32, _value: u32) {
        self.writes += 1;
    }

    fn push(&mut self, _endpoint: usize, word: u32) {
        self.fifo.push_back(word);
    }

    fn pop(&mut self) -> u32 {
        self.fifo.pop_front().unwrap_or(0)
    }

    fn nop(&mut self) {}

    fn set_clock(&mut self, on: bool) {
        self.clock = on;
    }

    fn clock(&self) -> bool {
        self.clock
    }
}

/// A client that accepts every request and answers requests for data with a
/// run of numbers, eight at a time, three times.
struct Counter {
    setups: Vec<Vec<u8>>,
    packets: u8,
    statuses: usize,
    completions: usize,
    resets: usize,
}

impl Counter {
    fn new() -> Self {
        Counter { setups: Vec::new(), packets: 0, statuses: 0, completions: 0, resets: 0 }
    }
}

impl Client for Counter {
    fn ctrl_setup(&mut self, _endpoint: usize, packet: &[u8]) -> CtrlSetupResult {
        self.setups.push(packet[..8].to_vec());
        CtrlSetupResult::Accept
    }

    fn ctrl_in(&mut self, _endpoint: usize, buffer: &mut [u8]) -> CtrlInResult {
        for (i, byte) in buffer.iter_mut().take(8).enumerate() {
            *byte = 8 * self.packets + i as u8;
        }
        self.packets += 1;
        CtrlInResult::Packet(8, self.packets == 3)
    }

    fn ctrl_out(&mut self, _endpoint: usize, _len: u32, _data: &[u8]) -> CtrlOutResult {
        CtrlOutResult::Accept
    }

    fn ctrl_status(&mut self, _endpoint: usize) {
        self.statuses += 1;
    }

    fn ctrl_status_complete(&mut self, _endpoint: usize) {
        self.completions += 1;
    }

    fn bus_reset(&mut self) {
        self.resets += 1;
    }
}

fn filling(len: usize) -> Vec<u8> {
    let mut bytes: Vec<u8> = (0..len).map(|i| (i as u8).wrapping_mul(31).wrapping_add(3)).collect();
    bytes.resize(64, 0x77);
    bytes
}

#[test]
fn packet_written_to_an_endpoint_is_read_back_from_it() {
    for len in [0usize, 1, 4, 5, 8, 63, 64] {
        let mut usb: Usbotg<Loopback, Counter> =
            Usbotg::with_byte_order(Loopback::new(), ByteOrder::Big);
        assert_eq!(usb.enable(), Ok(()));
        assert_eq!(usb.get_state(), UsbState::Initialized);
        let sent = filling(len);
        usb.endpoint_set_in_buffer(1, sent.clone()).unwrap();
        usb.endpoint_set_out_buffer(1, vec![0xC3; 64]).unwrap();
        assert_eq!(usb.write_packet(1, len), Ok(()));
        assert_eq!(usb.registers().fifo.len(), (len + 3) / 4);
        assert_eq!(usb.read_packet(1, len as u32), Ok(()));
        assert!(usb.registers().fifo.is_empty());
        let descriptor = usb.descriptor(1).unwrap();
        assert_eq!(&descriptor.slice_out().unwrap()[..len], &sent[..len], "length {}", len);
        assert_eq!(descriptor.slice_in().unwrap(), &sent);
        assert_eq!(descriptor.transfer_size(), len);
    }
}

#[test]
fn control_read_runs_against_a_client_of_its_own() {
    let get_descriptor = [0x80u8, 0x06, 0x00, 0x01, 0x00, 0x00, 0x18, 0x00];
    let status = (6 << 17) | (8 << 4);
    let device = Loopback::new()
        .answering(Register::Gintsts, &[GINT_RXFLVL, GINT_OEPINT, 1 << 18, 1 << 18, GINT_OEPINT])
        .answering(Register::Gintmsk, &[u32::MAX; 5])
        .answering(Register::Grxstsp, &[status])
        .answering(Register::Doepint(0), &[DOEPINT_STUP, 0x20])
        .answering(Register::Doepmsk, &[u32::MAX; 2])
        .answering(Register::Diepint(0), &[1, 1])
        .answering(Register::Diepmsk, &[u32::MAX; 2]);
    let mut usb: Usbotg<Loopback, Counter> = Usbotg::with_byte_order(device, ByteOrder::Little);
    usb.enable().unwrap();
    usb.endpoint_set_ctrl_buffer(vec![0; 64]).unwrap();
    usb.set_client(Counter::new());
    usb.registers();
    let low = u32::from_le_bytes([0x80, 0x06, 0x00, 0x01]);
    let high = u32::from_le_bytes([0x00, 0x00, 0x18, 0x00]);
    let mut usb = feed(usb, &[low, high]);

    usb.handle_interrupt().unwrap();
    usb.handle_interrupt().unwrap();
    assert_eq!(usb.client().unwrap().setups, vec![get_descriptor.to_vec()]);
    assert_eq!(usb.client().unwrap().packets, 1);
    assert!(matches!(usb.descriptor(0).unwrap().state(), EndpointState::Ctrl(CtrlState::ReadIn)));
    usb.handle_interrupt().unwrap();
    assert_eq!(usb.client().unwrap().packets, 2);
    assert_eq!(usb.client().unwrap().statuses, 0);
    usb.handle_interrupt().unwrap();
    assert_eq!(usb.client().unwrap().packets, 3);
    assert!(matches!(
        usb.descriptor(0).unwrap().state(),
        EndpointState::Ctrl(CtrlState::ReadStatus)
    ));
    assert_eq!(&usb.descriptor(0).unwrap().slice_in().unwrap()[..8], &[16, 17, 18, 19, 20, 21, 22, 23]);
    assert_eq!(usb.client().unwrap().completions, 0);
    usb.handle_interrupt().unwrap();
    assert_eq!(usb.client().unwrap().statuses, 1);
    assert_eq!(usb.client().unwrap().completions, 1);
    assert_eq!(usb.client().unwrap().resets, 0);
    assert!(matches!(usb.descriptor(0).unwrap().state(), EndpointState::Ctrl(CtrlState::Init)));
}

/// Puts `words` into the receive FIFO by writing them as a packet of another
/// controller on the same device.
fn feed(usb: Usbotg<Loopback, Counter>, words: &[u32]) -> Usbotg<Loopback, Counter> {
    let mut bytes = Vec::new();
    for word in words {
        bytes.extend_from_slice(&word.to_be_bytes());
    }
    let len = bytes.len();
    bytes.resize(64, 0);
    let mut usb = usb;
    usb.endpoint_set_in_buffer(1, bytes).unwrap();
    usb.write_packet(1, len).unwrap();
    usb
}
