//! Packing of endpoint bytes into FIFO words and back.
//!
//! Towards the host, four bytes make one word with the first byte in the most
//! significant place.  From the host, a word is laid out in memory in the
//! byte order of the processor, which is found out once.

use vstd::prelude::*;

verus! {

/// The order of a word's bytes in memory.
#[derive(Copy, Clone, Debug, PartialEq, Eq, Structural)]
pub enum ByteOrder {
    /// Least significant byte first.
    Little,
    /// Most significant byte first.
    Big,
}

/// The word whose bytes are `b0`, `b1`, `b2`, `b3`, most significant first.
pub open spec fn word_of(b0: u8, b1: u8, b2: u8, b3: u8) -> u32 {
    (b0 * 0x100_0000 + b1 * 0x1_0000 + b2 * 0x100 + b3) as u32
}

/// The four bytes of `word` in the given order.
pub open spec fn bytes_of(order: ByteOrder, word: u32) -> Seq<u8> {
    let b0 = (word / 0x100_0000) as u8;
    let b1 = ((word / 0x1_0000) % 0x100) as u8;
    let b2 = ((word / 0x100) % 0x100) as u8;
    let b3 = (word % 0x100) as u8;
    match order {
        ByteOrder::Big => seq![b0, b1, b2, b3],
        ByteOrder::Little => seq![b3, b2, b1, b0],
    }
}

/// The number of words that hold `len` bytes.
pub open spec fn words_for(len: nat) -> nat {
    (len + 3) / 4
}

/// The first `count` words of `bytes`, as they go into a transmit FIFO.
pub open spec fn packed(bytes: Seq<u8>, count: nat) -> Seq<u32>
    recommends
        4 * count <= bytes.len(),
{
    Seq::new(
        count,
        |i: int| word_of(bytes[4 * i], bytes[4 * i + 1], bytes[4 * i + 2], bytes[4 * i + 3]),
    )
}

/// The bytes of `words`, as they come out of the receive FIFO.
pub open spec fn unpacked(order: ByteOrder, words: Seq<u32>) -> Seq<u8> {
    Seq::new(4 * words.len(), |j: int| bytes_of(order, words[j / 4])[j % 4])
}

/// `bytes` with each group of four reversed.
pub open spec fn swapped(bytes: Seq<u8>) -> Seq<u8>
    recommends
        bytes.len() % 4 == 0,
{
    Seq::new(bytes.len(), |j: int| bytes[j - j % 4 + (3 - j % 4)])
}

/// Packs four bytes into a FIFO word, the first byte in the most significant
/// place.
pub fn bytes_to_data_packet(bytes: [u8; 4]) -> (word: u32)
    ensures
        word == word_of(bytes[0], bytes[1], bytes[2], bytes[3]),
{
    let b0: u32 = bytes[0] as u32;
    let b1: u32 = bytes[1] as u32;
    let b2: u32 = bytes[2] as u32;
    let b3: u32 = bytes[3] as u32;
    assert(b0 << 24 == b0 * 0x100_0000 && b1 << 16 == b1 * 0x1_0000 && b2 << 8 == b2 * 0x100 && b3
        << 0 == b3) by (bit_vector)
        requires
            b0 < 0x100,
            b1 < 0x100,
            b2 < 0x100,
            b3 < 0x100,
    ;
    (b0 << 24) + (b1 << 16) + (b2 << 8) + (b3 << 0)
}

/// Splits a FIFO word into its four bytes in the given order.
pub fn data_packet_to_bytes(order: ByteOrder, data: u32) -> (bytes: [u8; 4])
    ensures
        bytes@ == bytes_of(order, data),
{
    let b0: u8 = (data / 0x100_0000) as u8;
    let b1: u8 = ((data / 0x1_0000) % 0x100) as u8;
    let b2: u8 = ((data / 0x100) % 0x100) as u8;
    let b3: u8 = (data % 0x100) as u8;
    let bytes = match order {
        ByteOrder::Big => [b0, b1, b2, b3],
        ByteOrder::Little => [b3, b2, b1, b0],
    };
    assert(bytes@ =~= bytes_of(order, data));
    bytes
}

/// Number of bytes at the start of a buffer that are cleared before a packet
/// is stored in it.
pub const CLEARED_LEN: usize = 8;

/// A buffer with its first eight bytes cleared.
pub open spec fn cleared(buffer: Seq<u8>) -> Seq<u8> {
    Seq::new(
        buffer.len(),
        |i: int|
            if i < CLEARED_LEN {
                0u8
            } else {
                buffer[i]
            },
    )
}

/// A buffer after `data` was received into it: `data` at its start, zeroes
/// behind it up to the eighth byte, and the rest as it was.
pub open spec fn received(buffer: Seq<u8>, data: Seq<u8>) -> Seq<u8>
    recommends
        data.len() <= buffer.len(),
{
    Seq::new(
        buffer.len(),
        |i: int|
            if i < data.len() {
                data[i]
            } else {
                cleared(buffer)[i]
            },
    )
}

/// The number of words that hold `len` bytes.
pub fn word_count(len: usize) -> (count: usize)
    ensures
        count == words_for(len as nat),
        4 * count < len + 4,
{
    if len % 4 == 0 {
        len / 4
    } else {
        len / 4 + 1
    }
}

/// Packs the first `count` words of `bytes`.
pub fn pack_words(bytes: &[u8], count: usize) -> (words: Vec<u32>)
    requires
        4 * count <= bytes@.len(),
    ensures
        words@ == packed(bytes@, count as nat),
{
    let mut words: Vec<u32> = Vec::new();
    let total = bytes.len();
    let mut i: usize = 0;
    while i < count
        invariant
            4 * count <= bytes@.len() == total,
            i <= count,
            words@ == packed(bytes@, i as nat),
        decreases count - i,
    {
        let word = bytes_to_data_packet(
            [bytes[4 * i], bytes[4 * i + 1], bytes[4 * i + 2], bytes[4 * i + 3]],
        );
        words.push(word);
        i = i + 1;
        assert(words@ =~= packed(bytes@, i as nat));
    }
    words
}

/// Clears the first eight bytes of `buffer`, or all of them if it holds
/// fewer.
pub fn clear_start(buffer: &mut Vec<u8>)
    ensures
        final(buffer)@ == cleared(old(buffer)@),
{
    let mut i: usize = 0;
    while i < CLEARED_LEN && i < buffer.len()
        invariant
            i <= CLEARED_LEN,
            buffer@.len() == old(buffer)@.len(),
            forall|k: int| 0 <= k < i ==> buffer@[k] == 0,
            forall|k: int| i <= k < buffer@.len() ==> buffer@[k] == old(buffer)@[k],
        decreases CLEARED_LEN - i,
    {
        buffer[i] = 0;
        i = i + 1;
    }
    assert(buffer@ =~= cleared(old(buffer)@));
}

/// Receives `words` into `buffer`: clears its start, then stores the bytes
/// of the words in the given order from its first byte on.
pub fn unpack_into(buffer: &mut Vec<u8>, order: ByteOrder, words: &Vec<u32>)
    requires
        4 * words@.len() <= old(buffer)@.len(),
    ensures
        final(buffer)@ == received(old(buffer)@, unpacked(order, words@)),
{
    clear_start(buffer);
    let ghost data = unpacked(order, words@);
    let total = buffer.len();
    let mut i: usize = 0;
    while i < words.len()
        invariant
            data == unpacked(order, words@),
            4 * words@.len() <= buffer@.len() == total,
            buffer@.len() == old(buffer)@.len(),
            i <= words@.len(),
            forall|k: int| 0 <= k < 4 * i ==> buffer@[k] == data[k],
            forall|k: int| 4 * i <= k < buffer@.len() ==> buffer@[k] == cleared(old(buffer)@)[k],
        decreases words@.len() - i,
    {
        let bytes = data_packet_to_bytes(order, words[i]);
        let ghost before = buffer@;
        buffer[4 * i] = bytes[0];
        buffer[4 * i + 1] = bytes[1];
        buffer[4 * i + 2] = bytes[2];
        buffer[4 * i + 3] = bytes[3];
        assert forall|k: int| 0 <= k < 4 * (i + 1) implies buffer@[k] == data[k] by {
            if k >= 4 * i {
                assert(k / 4 == i && k % 4 == k - 4 * i);
            } else {
                assert(buffer@[k] == before[k]);
            }
        }
        i = i + 1;
    }
    assert(buffer@ =~= received(old(buffer)@, data));
}

/// The word whose layout in memory tells the byte order apart.
pub const ORDER_PROBE: u32 = 0x0102_0304;

/// The layout of a word in this processor's memory.
///
/// Calls `u32::to_ne_bytes`, which returns the memory representation of the
/// integer in the byte order of the target: on every target that is one of the
/// two orders, and nothing is claimed of which.
#[verifier::external_body]
fn native_bytes(word: u32) -> (bytes: [u8; 4])
    ensures
        bytes@ == bytes_of(ByteOrder::Little, word) || bytes@ == bytes_of(ByteOrder::Big, word),
{
    word.to_ne_bytes()
}

/// The byte order that the layout `probe` of [`ORDER_PROBE`] shows: big when
/// the most significant byte comes first, little otherwise.
pub fn byte_order_of(probe: [u8; 4]) -> (order: ByteOrder)
    ensures
        order == if probe[0] == 1 {
            ByteOrder::Big
        } else {
            ByteOrder::Little
        },
        probe@ == bytes_of(ByteOrder::Big, ORDER_PROBE) ==> order == ByteOrder::Big,
        probe@ == bytes_of(ByteOrder::Little, ORDER_PROBE) ==> order == ByteOrder::Little,
{
    if probe[0] == 1 {
        ByteOrder::Big
    } else {
        ByteOrder::Little
    }
}

/// The byte order of the processor that runs this code.
pub(crate) fn native_byte_order() -> ByteOrder {
    byte_order_of(native_bytes(ORDER_PROBE))
}

/// Written out big end first, a packed word gives back its four bytes.
pub proof fn word_round_trip(b0: u8, b1: u8, b2: u8, b3: u8)
    ensures
        bytes_of(ByteOrder::Big, word_of(b0, b1, b2, b3)) == seq![b0, b1, b2, b3],
        bytes_of(ByteOrder::Little, word_of(b0, b1, b2, b3)) == seq![b3, b2, b1, b0],
{
    let w = word_of(b0, b1, b2, b3);
    assert(w == b0 * 0x100_0000 + b1 * 0x1_0000 + b2 * 0x100 + b3);
    assert(w / 0x100_0000 == b0 && (w / 0x1_0000) % 0x100 == b1 && (w / 0x100) % 0x100 == b2 && w
        % 0x100 == b3) by (bit_vector)
        requires
            w == b0 * 0x100_0000 + b1 * 0x1_0000 + b2 * 0x100 + b3,
    ;
    assert(bytes_of(ByteOrder::Big, w) =~= seq![b0, b1, b2, b3]);
    assert(bytes_of(ByteOrder::Little, w) =~= seq![b3, b2, b1, b0]);
}

/// What is packed into words and unpacked big end first is what it was;
/// unpacked little end first, each group of four bytes comes out reversed.
pub proof fn packet_round_trip(bytes: Seq<u8>, count: nat)
    requires
        4 * count <= bytes.len(),
    ensures
        unpacked(ByteOrder::Big, packed(bytes, count)) == bytes.take(4 * count as int),
        unpacked(ByteOrder::Little, packed(bytes, count)) == swapped(bytes.take(4 * count as int)),
{
    let words = packed(bytes, count);
    let head = bytes.take(4 * count as int);
    let big = unpacked(ByteOrder::Big, words);
    let little = unpacked(ByteOrder::Little, words);
    assert forall|j: int| 0 <= j < 4 * count implies big[j] == head[j] && little[j] == swapped(
        head,
    )[j] by {
        let i = j / 4;
        let r = j % 4;
        assert(j == 4 * i + r && 0 <= r < 4 && 0 <= i < count);
        let w = words[i];
        assert(w == word_of(bytes[4 * i], bytes[4 * i + 1], bytes[4 * i + 2], bytes[4 * i + 3]));
        word_round_trip(bytes[4 * i], bytes[4 * i + 1], bytes[4 * i + 2], bytes[4 * i + 3]);
        assert(big[j] == bytes_of(ByteOrder::Big, w)[r]);
        assert(little[j] == bytes_of(ByteOrder::Little, w)[r]);
        assert(swapped(head)[j] == head[j - r + (3 - r)]);
    }
    assert(big =~= head);
    assert(little =~= swapped(head));
}

} // verus!
