use usb_otg::packet::{
    byte_order_of, bytes_to_data_packet, clear_start, data_packet_to_bytes, pack_words,
    unpack_into, word_count, ByteOrder, ORDER_PROBE,
};

fn sample(len: usize) -> Vec<u8> {
    (0..len).map(|i| (i as u8).wrapping_mul(7).wrapping_add(1)).collect()
}

fn round_trip(order: ByteOrder, len: usize) -> (Vec<u8>, Vec<u8>) {
    let mut sent = sample(len);
    sent.resize(64, 0xEE);
    let words = pack_words(&sent, word_count(len));
    let mut got = vec![0xAAu8; 64];
    unpack_into(&mut got, order, &words);
    (sent, got)
}

#[test]
fn bytes_are_packed_most_significant_first() {
    assert_eq!(bytes_to_data_packet([0x12, 0x34, 0x56, 0x78]), 0x1234_5678);
    assert_eq!(bytes_to_data_packet([0, 0, 0, 1]), 1);
    assert_eq!(bytes_to_data_packet([0xFF, 0, 0, 0]), 0xFF00_0000);
    assert_eq!(bytes_to_data_packet([0xFF, 0xFF, 0xFF, 0xFF]), u32::MAX);
}

#[test]
fn words_are_split_in_either_order() {
    assert_eq!(data_packet_to_bytes(ByteOrder::Big, 0x1234_5678), [0x12, 0x34, 0x56, 0x78]);
    assert_eq!(data_packet_to_bytes(ByteOrder::Little, 0x1234_5678), [0x78, 0x56, 0x34, 0x12]);
    assert_eq!(data_packet_to_bytes(ByteOrder::Little, 0), [0, 0, 0, 0]);
    assert_eq!(data_packet_to_bytes(ByteOrder::Big, u32::MAX), [0xFF; 4]);
}

#[test]
fn word_count_rounds_up() {
    assert_eq!(word_count(0), 0);
    assert_eq!(word_count(1), 1);
    assert_eq!(word_count(4), 1);
    assert_eq!(word_count(5), 2);
    assert_eq!(word_count(8), 2);
    assert_eq!(word_count(63), 16);
    assert_eq!(word_count(64), 16);
    assert_eq!(word_count(usize::MAX), usize::MAX / 4 + 1);
}

#[test]
fn byte_order_is_read_off_the_probe() {
    assert_eq!(byte_order_of(ORDER_PROBE.to_be_bytes()), ByteOrder::Big);
    assert_eq!(byte_order_of(ORDER_PROBE.to_le_bytes()), ByteOrder::Little);
    assert_eq!(byte_order_of([1, 2, 3, 4]), ByteOrder::Big);
    assert_eq!(byte_order_of([4, 3, 2, 1]), ByteOrder::Little);
}

#[test]
fn pack_words_takes_whole_words_from_the_buffer() {
    let bytes = [1u8, 2, 3, 4, 5, 6, 7, 8];
    assert_eq!(pack_words(&bytes, 0), Vec::<u32>::new());
    assert_eq!(pack_words(&bytes, 1), vec![0x0102_0304]);
    assert_eq!(pack_words(&bytes, 2), vec![0x0102_0304, 0x0506_0708]);
}

#[test]
fn clear_start_zeroes_eight_bytes() {
    let mut buffer = vec![9u8; 16];
    clear_start(&mut buffer);
    assert_eq!(&buffer[..8], &[0u8; 8]);
    assert_eq!(&buffer[8..], &[9u8; 8]);
    let mut short = vec![9u8; 3];
    clear_start(&mut short);
    assert_eq!(short, vec![0, 0, 0]);
}

#[test]
fn unpack_into_clears_and_keeps_the_rest() {
    let mut buffer = vec![9u8; 16];
    unpack_into(&mut buffer, ByteOrder::Big, &vec![0x0102_0304]);
    assert_eq!(buffer, vec![1, 2, 3, 4, 0, 0, 0, 0, 9, 9, 9, 9, 9, 9, 9, 9]);
    let mut buffer = vec![9u8; 16];
    unpack_into(&mut buffer, ByteOrder::Little, &vec![0x0102_0304, 0x0506_0708, 0x090A_0B0C]);
    assert_eq!(buffer, vec![4, 3, 2, 1, 8, 7, 6, 5, 12, 11, 10, 9, 9, 9, 9, 9]);
}

#[test]
fn round_trip_big_end_first_reproduces_the_payload() {
    for len in [0usize, 1, 4, 5, 8, 63, 64] {
        let (sent, got) = round_trip(ByteOrder::Big, len);
        assert_eq!(&got[..len], &sent[..len], "length {}", len);
        let whole = 4 * word_count(len);
        assert_eq!(&got[..whole], &sent[..whole], "length {}", len);
    }
}

#[test]
fn round_trip_little_end_first_reverses_each_word() {
    for len in [4usize, 5, 8, 63, 64] {
        let (sent, got) = round_trip(ByteOrder::Little, len);
        for word in 0..word_count(len) {
            let mut group = sent[4 * word..4 * word + 4].to_vec();
            group.reverse();
            assert_eq!(&got[4 * word..4 * word + 4], &group[..], "length {} word {}", len, word);
        }
    }
    let (_, got) = round_trip(ByteOrder::Little, 0);
    assert_eq!(&got[..8], &[0u8; 8]);
}
