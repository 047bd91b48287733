//! Framing of audio: from a buffer of bytes to 16-bit PCM samples.
//!
//! The engine takes mono audio as signed 16-bit samples. A caller holds bytes,
//! two for each sample, in the byte order of the machine.

use vstd::prelude::*;

verus! {

/// The order in which the two bytes of a sample lie in memory.
#[derive(Debug, Clone, Copy, PartialEq, Eq, Structural)]
pub enum ByteOrder {
    /// The low byte comes first.
    LittleEndian,
    /// The high byte comes first.
    BigEndian,
}

/// The sample that two bytes stand for: the 16-bit number they form in the
/// given order, read in two's complement.
pub open spec fn sample_value(order: ByteOrder, first: u8, second: u8) -> int {
    let unsigned = match order {
        ByteOrder::LittleEndian => first + 256 * second,
        ByteOrder::BigEndian => 256 * first + second,
    };
    if unsigned < 32768 {
        unsigned
    } else {
        unsigned - 65536
    }
}

/// The samples that a buffer stands for: one for each full pair of bytes, in
/// the buffer's order. A last byte without a partner stands for nothing.
pub open spec fn pcm16(order: ByteOrder, data: Seq<u8>) -> Seq<i16> {
    Seq::new(
        (data.len() / 2) as nat,
        |i: int| sample_value(order, data[2 * i], data[2 * i + 1]) as i16,
    )
}

/// Reads one sample from its two bytes.
pub fn sample_from_bytes(order: ByteOrder, first: u8, second: u8) -> (sample: i16)
    ensures
        sample == sample_value(order, first, second),
{
    let unsigned: u32 = match order {
        ByteOrder::LittleEndian => first as u32 + 256 * (second as u32),
        ByteOrder::BigEndian => 256 * (first as u32) + second as u32,
    };
    if unsigned < 32768 {
        unsigned as i16
    } else {
        (unsigned as i32 - 65536) as i16
    }
}

/// Frames a buffer into samples.
///
/// Every full pair of bytes gives one sample. Where the buffer has an odd
/// length its last byte is dropped; that is no error.
pub fn pcm16_samples(order: ByteOrder, data: &[u8]) -> (samples: Vec<i16>)
    ensures
        samples@ == pcm16(order, data@),
{
    let count: usize = data.len() / 2;
    let mut samples: Vec<i16> = Vec::with_capacity(count);
    let mut index: usize = 0;
    while index < count
        invariant
            count == data.len() / 2,
            index <= count,
            samples.len() == index,
            forall|i: int|
                0 <= i < index ==> samples@[i] == sample_value(
                    order,
                    data@[2 * i],
                    data@[2 * i + 1],
                ),
        decreases count - index,
    {
        samples.push(sample_from_bytes(order, data[2 * index], data[2 * index + 1]));
        index += 1;
    }
    samples
}

/// Finds out in which order this machine keeps the bytes of a sample.
///
/// An `i16` read from the bytes 1 and 0 is 1 on a little-endian machine and
/// 256 on a big-endian one.
pub(crate) fn native_byte_order() -> ByteOrder {
    byte_order_of_probe(i16_from_ne_bytes([1, 0]))
}

/// Tells the byte order of a machine from what the machine made of a probe:
/// of the sample that it read from the bytes 1 and 0.
///
/// A probe of 1 means that the low byte came first. Any other machine reads
/// 256, and keeps the high byte first. Either way the bytes 1 and 0, read in
/// the order that is returned, give the probe again.
pub fn byte_order_of_probe(probe: i16) -> (order: ByteOrder)
    ensures
        order == ByteOrder::LittleEndian <==> probe == 1,
        order == ByteOrder::BigEndian <==> probe != 1,
        probe == sample_value(ByteOrder::LittleEndian, 1, 0) || probe == sample_value(
            ByteOrder::BigEndian,
            1,
            0,
        ) ==> sample_value(order, 1, 0) == probe,
{
    if probe == 1 {
        ByteOrder::LittleEndian
    } else {
        ByteOrder::BigEndian
    }
}

/// An empty buffer holds no sample, and neither does a single byte.
pub proof fn lemma_short_buffer_holds_no_sample(order: ByteOrder, data: Seq<u8>)
    requires
        data.len() < 2,
    ensures
        pcm16(order, data).len() == 0,
{
}

/// The byte that an odd buffer ends with is dropped: the buffer stands for
/// the same samples with and without it.
pub proof fn lemma_odd_trailing_byte_dropped(order: ByteOrder, data: Seq<u8>)
    requires
        data.len() % 2 == 1,
    ensures
        pcm16(order, data) == pcm16(order, data.drop_last()),
        pcm16(order, data).len() * 2 == data.len() - 1,
{
}

/// Audio may be fed in pieces: as long as a piece ends on a sample, the
/// pieces stand for the same samples as the whole.
pub proof fn lemma_chunked_feed(order: ByteOrder, head: Seq<u8>, tail: Seq<u8>)
    requires
        head.len() % 2 == 0,
    ensures
        pcm16(order, head + tail) == pcm16(order, head) + pcm16(order, tail),
{
}

/// `i16::from_ne_bytes`.
///
/// The standard library reads the two bytes in the byte order of the machine
/// it runs on, so the value is one of the two readings; which one is not
/// known before the call.
#[verifier::external_body]
fn i16_from_ne_bytes(bytes: [u8; 2]) -> (value: i16)
    ensures
        value == sample_value(ByteOrder::LittleEndian, bytes[0], bytes[1]) || value
            == sample_value(ByteOrder::BigEndian, bytes[0], bytes[1]),
{
    i16::from_ne_bytes(bytes)
}

} // verus!
