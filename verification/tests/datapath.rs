use usb_otg::fields::GRSTCTL_AHBIDL;
use usb_otg::packet::ByteOrder;
use usb_otg::regs::Access;
use usb_otg::sim::{ScriptedBus, ScriptedClient};
use usb_otg::types::{Direction, UsbError};
use usb_otg::usbotg::Usbotg;

type Usb = Usbotg<ScriptedBus, ScriptedClient>;

/// A controller that has been enabled on a device that is ready at once, and
/// that afterwards answers with `answers`.
fn enabled(order: ByteOrder, answers: &[u32]) -> Usb {
    let mut script = vec![0u32; 16];
    script[0] = GRSTCTL_AHBIDL;
    script.extend_from_slice(answers);
    let mut usb = Usbotg::with_byte_order(ScriptedBus::new(script), order);
    usb.enable().unwrap();
    assert_eq!(
        usb.registers().log().iter().filter(|a| matches!(a, Access::Read(..))).count(),
        16
    );
    usb
}

fn pushes(usb: &Usb, from: usize) -> Vec<(usize, u32)> {
    usb.registers().log()[from..]
        .iter()
        .map(|a| match a {
            Access::Push(endpoint, word) => (*endpoint, *word),
            other => panic!("not a push: {:?}", other),
        })
        .collect()
}

fn pattern(len: usize) -> Vec<u8> {
    let mut bytes: Vec<u8> = (0..len).map(|i| (i as u8).wrapping_mul(13).wrapping_add(5)).collect();
    bytes.resize(64, 0x5A);
    bytes
}

#[test]
fn write_packet_pushes_whole_words() {
    let mut usb = enabled(ByteOrder::Little, &[]);
    let bytes: Vec<u8> = (1..=16).collect();
    usb.endpoint_set_ctrl_buffer(bytes).unwrap();
    let before = usb.registers().log().len();
    assert_eq!(usb.write_packet(0, 5), Ok(()));
    assert_eq!(pushes(&usb, before), vec![(0, 0x0102_0304), (0, 0x0506_0708)]);
    let before = usb.registers().log().len();
    assert_eq!(usb.write_packet(0, 0), Ok(()));
    assert_eq!(pushes(&usb, before), vec![]);
    assert_eq!(usb.write_packet(0, 16), Ok(()));
    assert_eq!(
        pushes(&usb, before),
        vec![(0, 0x0102_0304), (0, 0x0506_0708), (0, 0x090A_0B0C), (0, 0x0D0E_0F10)]
    );
}

#[test]
fn write_packet_goes_to_the_fifo_of_its_endpoint() {
    let mut usb = enabled(ByteOrder::Little, &[]);
    usb.endpoint_set_in_buffer(1, vec![0xAB; 8]).unwrap();
    let before = usb.registers().log().len();
    assert_eq!(usb.write_packet(1, 8), Ok(()));
    assert_eq!(pushes(&usb, before), vec![(1, 0xABAB_ABAB), (1, 0xABAB_ABAB)]);
}

#[test]
fn write_packet_is_refused_where_it_cannot_be_written() {
    let mut usb = enabled(ByteOrder::Little, &[]);
    let before = usb.registers().log().len();
    assert_eq!(usb.write_packet(0, 4), Err(UsbError::Configuration));
    usb.endpoint_set_ctrl_buffer(vec![0; 8]).unwrap();
    assert_eq!(usb.write_packet(0, 9), Err(UsbError::Configuration));
    assert_eq!(usb.write_packet(6, 4), Err(UsbError::Configuration));
    usb.endpoint_set_in_buffer(2, vec![0; 8]).unwrap();
    assert_eq!(usb.write_packet(2, 4), Err(UsbError::Configuration));
    assert_eq!(usb.registers().log().len(), before);

    let mut fresh: Usb = Usbotg::with_byte_order(ScriptedBus::new(vec![]), ByteOrder::Little);
    fresh.endpoint_set_ctrl_buffer(vec![0; 8]).unwrap();
    assert_eq!(fresh.write_packet(0, 4), Err(UsbError::Configuration));
    assert!(fresh.registers().log().is_empty());
}

#[test]
fn read_packet_stores_the_words_in_the_byte_order() {
    let mut usb = enabled(ByteOrder::Little, &[0x0403_0201, 0x0807_0605, 0x0000_0009]);
    usb.endpoint_set_ctrl_buffer(vec![0xEE; 16]).unwrap();
    let before = usb.registers().log().len();
    assert_eq!(usb.read_packet(0, 9), Ok(()));
    assert_eq!(
        usb.registers().log()[before..],
        [Access::Pop(0x0403_0201), Access::Pop(0x0807_0605), Access::Pop(0x0000_0009)]
    );
    assert_eq!(
        usb.descriptor(0).unwrap().slice_out().unwrap(),
        &vec![1, 2, 3, 4, 5, 6, 7, 8, 9, 0, 0, 0, 0xEE, 0xEE, 0xEE, 0xEE]
    );
    assert_eq!(usb.descriptor(0).unwrap().slice_in().unwrap(), &vec![0xEE; 16]);
    assert_eq!(usb.descriptor(0).unwrap().transfer_size(), 9);

    let mut usb = enabled(ByteOrder::Big, &[0x0403_0201]);
    usb.endpoint_set_ctrl_buffer(vec![0xEE; 8]).unwrap();
    assert_eq!(usb.read_packet(0, 2), Ok(()));
    assert_eq!(usb.descriptor(0).unwrap().slice_out().unwrap(), &vec![4, 3, 2, 1, 0, 0, 0, 0]);
    assert_eq!(usb.descriptor(0).unwrap().transfer_size(), 2);
}

#[test]
fn read_packet_drops_what_it_cannot_store() {
    let mut usb = enabled(ByteOrder::Little, &[1, 2, 3, 4, 5, 6]);
    usb.endpoint_set_ctrl_buffer(vec![0xEE; 8]).unwrap();
    let before = usb.registers().log().len();
    assert_eq!(usb.read_packet(0, 9), Err(UsbError::Configuration));
    assert_eq!(usb.registers().log()[before..], [Access::Pop(1), Access::Pop(2), Access::Pop(3)]);
    assert_eq!(usb.descriptor(0).unwrap().slice_out().unwrap(), &vec![0xEE; 8]);
    assert_eq!(usb.descriptor(0).unwrap().transfer_size(), 0);
    assert_eq!(usb.read_packet(3, 4), Err(UsbError::Configuration));
    assert_eq!(usb.read_packet(15, 4), Err(UsbError::Configuration));
    assert_eq!(usb.registers().log()[before + 3..], [Access::Pop(4), Access::Pop(5)]);
    assert_eq!(usb.read_packet(0, 0), Ok(()));
    assert_eq!(usb.registers().log().len(), before + 5);
    assert_eq!(usb.descriptor(0).unwrap().slice_out().unwrap(), &vec![0, 0, 0, 0, 0, 0, 0, 0]);
}

#[test]
fn read_packet_asks_only_for_the_out_buffer() {
    let mut usb = enabled(ByteOrder::Little, &[]);
    usb.endpoint_set_in_buffer(1, vec![0; 8]).unwrap();
    usb.endpoint_set_out_buffer(1, vec![0xEE; 64]).unwrap();
    let before = usb.registers().log().len();
    assert_eq!(usb.read_packet(1, 32), Ok(()));
    assert_eq!(usb.registers().log().len(), before + 8);
    assert_eq!(usb.descriptor(1).unwrap().transfer_size(), 32);
    assert_eq!(usb.descriptor(1).unwrap().transfer_direction(), Direction::HostToDevice);
    assert_eq!(&usb.descriptor(1).unwrap().slice_out().unwrap()[..32], &[0u8; 32]);
    assert_eq!(&usb.descriptor(1).unwrap().slice_out().unwrap()[32..], &[0xEE; 32]);
    assert_eq!(usb.descriptor(1).unwrap().slice_in().unwrap(), &vec![0; 8]);
    assert_eq!(usb.read_packet(1, 64), Ok(()));
    assert_eq!(usb.descriptor(1).unwrap().transfer_size(), 64);
    assert_eq!(usb.read_packet(1, 65), Err(UsbError::Configuration));
    assert_eq!(usb.descriptor(1).unwrap().transfer_size(), 64);
}

#[test]
fn read_packet_needs_no_in_buffer() {
    let mut usb = enabled(ByteOrder::Little, &[0x0403_0201]);
    usb.endpoint_set_out_buffer(4, vec![0xEE; 8]).unwrap();
    assert_eq!(usb.read_packet(4, 3), Ok(()));
    assert_eq!(usb.descriptor(4).unwrap().slice_out().unwrap(), &vec![1, 2, 3, 4, 0, 0, 0, 0]);
    assert_eq!(usb.descriptor(4).unwrap().transfer_size(), 3);
}

#[test]
fn assigning_a_buffer_leaves_what_is_pending() {
    let mut usb = enabled(ByteOrder::Little, &[]);
    usb.endpoint_set_in_buffer(1, vec![0; 16]).unwrap();
    usb.endpoint_set_out_buffer(1, vec![0; 16]).unwrap();
    usb.read_packet(1, 5).unwrap();
    assert_eq!(usb.descriptor(1).unwrap().transfer_size(), 5);
    assert_eq!(usb.endpoint_set_out_buffer(1, vec![7; 8]), Ok(()));
    assert_eq!(usb.descriptor(1).unwrap().transfer_size(), 5);
    assert_eq!(usb.descriptor(1).unwrap().slice_out().unwrap(), &vec![7; 8]);
    assert_eq!(usb.endpoint_set_in_buffer(1, vec![9; 8]), Ok(()));
    assert_eq!(usb.descriptor(1).unwrap().transfer_size(), 5);
    assert_eq!(usb.descriptor(1).unwrap().transfer_direction(), Direction::HostToDevice);
    assert_eq!(usb.descriptor(1).unwrap().slice_in().unwrap(), &vec![9; 8]);
    assert_eq!(usb.endpoint_set_out_buffer(1, vec![7; 4]), Err(UsbError::Configuration));
    assert_eq!(usb.descriptor(1).unwrap().transfer_size(), 5);
    assert_eq!(usb.descriptor(1).unwrap().slice_out().unwrap(), &vec![7; 8]);
}

#[test]
fn assigning_a_shorter_buffer_cuts_what_no_longer_fits() {
    let mut usb = enabled(ByteOrder::Little, &[]);
    usb.endpoint_set_in_buffer(1, vec![0; 8]).unwrap();
    usb.endpoint_set_out_buffer(1, vec![0; 16]).unwrap();
    usb.read_packet(1, 12).unwrap();
    assert_eq!(usb.descriptor(1).unwrap().transfer_size(), 12);
    assert_eq!(usb.endpoint_set_in_buffer(1, vec![0; 8]), Ok(()));
    assert_eq!(usb.descriptor(1).unwrap().transfer_size(), 12);
    assert_eq!(usb.endpoint_set_out_buffer(1, vec![0; 8]), Ok(()));
    assert_eq!(usb.descriptor(1).unwrap().transfer_size(), 8);

    usb.endpoint_set_ctrl_buffer(vec![0; 64]).unwrap();
    usb.read_packet(0, 40).unwrap();
    assert_eq!(usb.endpoint_set_ctrl_buffer(vec![0; 64]), Ok(()));
    assert_eq!(usb.descriptor(0).unwrap().transfer_size(), 40);
    assert_eq!(usb.endpoint_set_ctrl_buffer(vec![0; 32]), Ok(()));
    assert_eq!(usb.descriptor(0).unwrap().transfer_size(), 32);
}

#[test]
fn buffers_are_cleared_at_their_start() {
    let mut usb = enabled(ByteOrder::Little, &[]);
    usb.endpoint_set_in_buffer(1, vec![7; 16]).unwrap();
    usb.endpoint_set_out_buffer(1, vec![9; 8]).unwrap();
    assert_eq!(usb.clear_endpoint_in_buffer(1), Ok(()));
    assert_eq!(
        usb.descriptor(1).unwrap().slice_in().unwrap(),
        &vec![0, 0, 0, 0, 0, 0, 0, 0, 7, 7, 7, 7, 7, 7, 7, 7]
    );
    assert_eq!(usb.descriptor(1).unwrap().slice_out().unwrap(), &vec![9; 8]);
    assert_eq!(usb.clear_endpoint_out_buffer(1), Ok(()));
    assert_eq!(usb.descriptor(1).unwrap().slice_out().unwrap(), &vec![0; 8]);
    assert_eq!(usb.clear_endpoint_out_buffer(2), Err(UsbError::Configuration));
    assert_eq!(usb.clear_endpoint_in_buffer(2), Err(UsbError::Configuration));
    assert_eq!(usb.clear_endpoint_out_buffer(6), Err(UsbError::Configuration));
    assert_eq!(usb.clear_endpoint_in_buffer(usize::MAX), Err(UsbError::Configuration));
    assert!(usb.descriptor(2).unwrap().slice_out().is_none());
}

#[test]
fn written_packet_reads_back_big_end_first() {
    for len in [0usize, 1, 4, 5, 8, 63, 64] {
        let sent = pattern(len);
        let mut writer = enabled(ByteOrder::Big, &[]);
        writer.endpoint_set_ctrl_buffer(sent.clone()).unwrap();
        let before = writer.registers().log().len();
        assert_eq!(writer.write_packet(0, len), Ok(()));
        let words: Vec<u32> = pushes(&writer, before).into_iter().map(|(_, word)| word).collect();
        assert_eq!(words.len(), (len + 3) / 4);

        let mut reader = enabled(ByteOrder::Big, &words);
        reader.endpoint_set_ctrl_buffer(vec![0xC3; 64]).unwrap();
        assert_eq!(reader.read_packet(0, len as u32), Ok(()));
        let got = reader.descriptor(0).unwrap().slice_out().unwrap();
        assert_eq!(&got[..len], &sent[..len], "length {}", len);
        assert_eq!(reader.descriptor(0).unwrap().transfer_size(), len);
    }
}

#[test]
fn written_packet_reads_back_reversed_little_end_first() {
    let sent = pattern(8);
    let mut writer = enabled(ByteOrder::Little, &[]);
    writer.endpoint_set_ctrl_buffer(sent.clone()).unwrap();
    let before = writer.registers().log().len();
    assert_eq!(writer.write_packet(0, 8), Ok(()));
    let words: Vec<u32> = pushes(&writer, before).into_iter().map(|(_, word)| word).collect();
    let mut reader = enabled(ByteOrder::Little, &words);
    reader.endpoint_set_ctrl_buffer(vec![0xC3; 64]).unwrap();
    assert_eq!(reader.read_packet(0, 8), Ok(()));
    let got = reader.descriptor(0).unwrap().slice_out().unwrap();
    assert_eq!(
        &got[..8],
        &[sent[3], sent[2], sent[1], sent[0], sent[7], sent[6], sent[5], sent[4]]
    );
}
