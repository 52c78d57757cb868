//! How packets follow one another on a stream: four bytes with the length, the
//! lowest byte first, and then the packet.
use crate::word::word_of;
use vstd::prelude::*;

verus! {

/// How many bytes stand in front of every packet.
pub const HEADER_LEN: usize = 4;

/// The byte that the side which opens a stream sends first, so that the other side
/// learns of the stream.
pub const GREETING: u8 = 0;

/// The four bytes of `value`, the lowest one first.
pub open spec fn le_bytes(value: int) -> Seq<u8> {
    seq![
        (value % 256) as u8,
        (value / 256 % 256) as u8,
        (value / 65536 % 256) as u8,
        (value / 16777216 % 256) as u8,
    ]
}

/// The number that four bytes stand for, the lowest one first.
pub open spec fn le_value(bytes: Seq<u8>) -> int {
    bytes[0] + 256 * bytes[1] + 65536 * bytes[2] + 16777216 * bytes[3]
}

/// A packet as it stands on the stream.
pub open spec fn on_wire(packet: Seq<u8>) -> Seq<u8> {
    le_bytes(crate::word::low_word(packet.len() as int)) + packet
}

/// Packets as they follow one another on the stream.
pub open spec fn all_on_wire(packets: Seq<Seq<u8>>) -> Seq<u8>
    decreases packets.len(),
{
    if packets.len() == 0 {
        Seq::empty()
    } else {
        on_wire(packets[0]) + all_on_wire(packets.skip(1))
    }
}

/// The packet at the front of a stream and what follows it, or nothing where the
/// stream ends before the packet does.
pub open spec fn first_packet(stream: Seq<u8>) -> Option<(Seq<u8>, Seq<u8>)> {
    if stream.len() < HEADER_LEN {
        None
    } else {
        let len = le_value(stream.take(HEADER_LEN as int));
        let rest = stream.skip(HEADER_LEN as int);
        if rest.len() < len {
            None
        } else {
            Some((rest.take(len), rest.skip(len)))
        }
    }
}

/// The packets that a stream carries, as long as they are whole.
pub open spec fn all_packets(stream: Seq<u8>) -> Seq<Seq<u8>>
    decreases stream.len(),
{
    match first_packet(stream) {
        Some((packet, rest)) if rest.len() < stream.len() => seq![packet] + all_packets(rest),
        _ => Seq::empty(),
    }
}

/// The bytes in front of a packet of `len` bytes.
pub fn header(len: usize) -> (r: [u8; 4])
    ensures
        r@ == le_bytes(crate::word::low_word(len as int)),
        len <= u32::MAX ==> r[0] + 256 * r[1] + 65536 * r[2] + 16777216 * r[3] == len,
{
    let word: u32 = word_of(len);
    let r: [u8; 4] = [
        (word % 256) as u8,
        (word / 256 % 256) as u8,
        (word / 65536 % 256) as u8,
        (word / 16777216 % 256) as u8,
    ];
    assert(r@ =~= le_bytes(crate::word::low_word(len as int)));
    r
}

/// The length that the bytes in front of a packet give.
pub fn packet_len(header: &[u8; 4]) -> (r: u32)
    ensures
        r == le_value(header@),
        r == header[0] + 256 * header[1] + 65536 * header[2] + 16777216 * header[3],
{
    header[0] as u32 + 256 * header[1] as u32 + 65536 * header[2] as u32 + 16777216
        * header[3] as u32
}

/// A packet as it stands on the stream.
pub fn write_packet(packet: &[u8]) -> (r: Vec<u8>)
    ensures
        r@ == on_wire(packet@),
        r@.len() == 4 + packet@.len(),
        r@.skip(4) == packet@,
        packet@.len() <= u32::MAX ==> r[0] + 256 * r[1] + 65536 * r[2] + 16777216 * r[3]
            == packet@.len(),
{
    let front: [u8; 4] = header(packet.len());
    let mut r: Vec<u8> = Vec::new();
    r.extend_from_slice(front.as_slice());
    r.extend_from_slice(packet);
    assert(r@ =~= on_wire(packet@));
    assert(r@.take(4) =~= front@);
    assert(r@.skip(4) =~= packet@);
    r
}

/// Whether the first byte of a stream is the one that every stream starts with.
pub fn is_greeting(byte: u8) -> (r: bool)
    ensures
        r == (byte == GREETING),
        r == (byte == 0),
{
    byte == GREETING
}

proof fn lemma_le_bytes(value: int)
    requires
        0 <= value < 0x1_0000_0000,
    ensures
        le_value(le_bytes(value)) == value,
        le_bytes(value).len() == HEADER_LEN,
{
}

/// What a reader gets back of a written packet is that packet, whatever follows it
/// on the stream. The length of a packet has 32 bits.
pub proof fn law_read_gives_back_written(packet: Seq<u8>, rest: Seq<u8>)
    requires
        packet.len() <= u32::MAX,
    ensures
        first_packet(on_wire(packet) + rest) == Some((packet, rest)),
{
    let stream = on_wire(packet) + rest;
    let front = le_bytes(packet.len() as int);
    lemma_le_bytes(packet.len() as int);
    assert(stream.take(HEADER_LEN as int) =~= front);
    assert(stream.skip(HEADER_LEN as int) =~= packet + rest);
    assert((packet + rest).take(packet.len() as int) =~= packet);
    assert((packet + rest).skip(packet.len() as int) =~= rest);
}

/// What a reader gets back of a stream of written packets are those packets, one by
/// one and in order. The length of a packet has 32 bits.
pub proof fn law_stream_gives_back_packets(packets: Seq<Seq<u8>>)
    requires
        forall|i: int| 0 <= i < packets.len() ==> (#[trigger] packets[i]).len() <= u32::MAX,
    ensures
        all_packets(all_on_wire(packets)) == packets,
    decreases packets.len(),
{
    if packets.len() > 0 {
        let rest = packets.skip(1);
        law_read_gives_back_written(packets[0], all_on_wire(rest));
        law_stream_gives_back_packets(rest);
        assert(seq![packets[0]] + rest =~= packets);
    } else {
        assert(all_packets(all_on_wire(packets)) =~= packets);
    }
}

/// Four bytes count by 256: one that is higher by one, `place` bytes behind the first, makes
/// the number higher by 256 that many times over, and no bytes but zeros stand for zero.
pub proof fn law_bytes_count_by_256(bytes: Seq<u8>, place: int, value: u8)
    requires
        bytes.len() == 4,
        0 <= place < 4,
    ensures
        le_value(bytes.update(place, value)) - le_value(bytes) == (value - bytes[place]) * (
        if place == 0 {
            1int
        } else if place == 1 {
            256
        } else if place == 2 {
            65536
        } else {
            16777216
        }),
        0 <= le_value(bytes) <= u32::MAX,
        le_value(bytes) == 0 <==> bytes == seq![0u8, 0u8, 0u8, 0u8],
{
    if le_value(bytes) == 0 {
        assert(bytes =~= seq![0u8, 0u8, 0u8, 0u8]);
    }
}

/// Four bytes and the number that they stand for are made of each other.
pub proof fn law_bytes_give_back_the_number(value: int, bytes: Seq<u8>)
    requires
        0 <= value <= u32::MAX,
        bytes.len() == 4,
    ensures
        le_bytes(value).len() == 4,
        le_value(le_bytes(value)) == value,
        le_bytes(le_value(bytes)) == bytes,
{
    lemma_le_bytes(value);
    lemma_le_value(bytes[0] as int, bytes[1] as int, bytes[2] as int, bytes[3] as int);
    assert(le_bytes(le_value(bytes)) =~= bytes);
}

proof fn lemma_le_value(a: int, b: int, c: int, d: int)
    requires
        0 <= a < 256,
        0 <= b < 256,
        0 <= c < 256,
        0 <= d < 256,
    ensures
        ({
            let value = a + 256 * b + 65536 * c + 16777216 * d;
            &&& value % 256 == a
            &&& value / 256 % 256 == b
            &&& value / 65536 % 256 == c
            &&& value / 16777216 % 256 == d
        }),
{
    let value = a + 256 * b + 65536 * c + 16777216 * d;
    assert(value / 256 == b + 256 * c + 65536 * d);
    assert(value / 65536 == c + 256 * d);
    assert(value / 16777216 == d);
}

/// On the stream a packet is whole, and stands behind four bytes with its length.
pub proof fn law_a_packet_stands_behind_its_length(packet: Seq<u8>)
    ensures
        on_wire(packet).len() == 4 + packet.len(),
        on_wire(packet).skip(4) == packet,
        packet.len() <= u32::MAX ==> le_value(on_wire(packet).take(4)) == packet.len(),
{
    let front = le_bytes(crate::word::low_word(packet.len() as int));
    assert(on_wire(packet).take(4) =~= front);
    assert(on_wire(packet).skip(4) =~= packet);
    if packet.len() <= u32::MAX {
        lemma_le_bytes(packet.len() as int);
    }
}

/// Packets that are written piece by piece stand on the stream as a whole.
pub proof fn law_packets_follow_one_another(first: Seq<Seq<u8>>, second: Seq<Seq<u8>>)
    ensures
        all_on_wire(first + second) == all_on_wire(first) + all_on_wire(second),
    decreases first.len(),
{
    if first.len() == 0 {
        assert(first + second =~= second);
        assert(all_on_wire(first) + all_on_wire(second) =~= all_on_wire(second));
    } else {
        law_packets_follow_one_another(first.skip(1), second);
        assert((first + second).skip(1) =~= first.skip(1) + second);
        assert(all_on_wire(first + second) =~= all_on_wire(first) + all_on_wire(second));
    }
}

/// A single packet stands on the stream as itself.
pub proof fn law_one_packet_on_the_stream(packet: Seq<u8>)
    ensures
        all_on_wire(seq![packet]) == on_wire(packet),
{
    assert(seq![packet].skip(1) =~= Seq::<Seq<u8>>::empty());
    assert(all_on_wire(Seq::<Seq<u8>>::empty()) =~= Seq::<u8>::empty());
    assert(all_on_wire(seq![packet]) =~= on_wire(packet));
}

} // verus!
