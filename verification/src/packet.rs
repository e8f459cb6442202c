//! RTP packets: what goes on the wire and what is read back from it.

use bytes::Bytes;
use rtp::header::Header;
use rtp::packet::Packet;
use vstd::prelude::*;
use webrtc_util::marshal::{Marshal, Unmarshal};

verus! {

/// The parts of a packet that the receiver looks at.
pub struct RtpPacket {
    pub version: u8,
    pub marker: bool,
    pub payload_type: u8,
    pub sequence_number: u16,
    pub timestamp: u32,
    pub ssrc: u32,
    pub payload: Vec<u8>,
}

/// A packet with its payload as a sequence.
pub struct RtpFields {
    pub version: u8,
    pub marker: bool,
    pub payload_type: u8,
    pub sequence_number: u16,
    pub timestamp: u32,
    pub ssrc: u32,
    pub payload: Seq<u8>,
}

impl View for RtpPacket {
    type V = RtpFields;

    open spec fn view(&self) -> RtpFields {
        RtpFields {
            version: self.version,
            marker: self.marker,
            payload_type: self.payload_type,
            sequence_number: self.sequence_number,
            timestamp: self.timestamp,
            ssrc: self.ssrc,
            payload: self.payload@,
        }
    }
}

/// The second byte of a packet: the marker bit above the payload type.
pub open spec fn marked(marker: bool, payload_type: u8) -> u8 {
    if marker {
        payload_type | 0x80
    } else {
        payload_type
    }
}

pub open spec fn big_endian_16(n: u16) -> Seq<u8> {
    seq![(n / 0x100) as u8, (n % 0x100) as u8]
}

pub open spec fn big_endian_32(n: u32) -> Seq<u8> {
    big_endian_16((n / 0x1_0000) as u16) + big_endian_16((n % 0x1_0000) as u16)
}

pub open spec fn read_16(b: Seq<u8>, at: int) -> int {
    b[at] * 0x100 + b[at + 1]
}

pub open spec fn read_32(b: Seq<u8>, at: int) -> int {
    read_16(b, at) * 0x1_0000 + read_16(b, at + 2)
}

/// A version 2 packet without contributing sources, extension or padding, as it stands on the
/// wire: a header of twelve bytes, then the payload.
pub open spec fn wire(
    marker: bool,
    payload_type: u8,
    sequence_number: u16,
    timestamp: u32,
    ssrc: u32,
    payload: Seq<u8>,
) -> Seq<u8> {
    seq![0x80u8, marked(marker, payload_type)] + big_endian_16(sequence_number) + big_endian_32(
        timestamp,
    ) + big_endian_32(ssrc) + payload
}

/// `rtp::packet::Packet::marshal` (by way of `webrtc_util::marshal::Marshal`) on a packet whose
/// header has version 2 and otherwise only the given fields: it allocates the packet's size, so it
/// succeeds, and it writes the header of twelve bytes in network order followed by the payload.
#[verifier::external_body]
pub(crate) fn marshal_packet(
    marker: bool,
    payload_type: u8,
    sequence_number: u16,
    timestamp: u32,
    ssrc: u32,
    payload: Vec<u8>,
) -> (written: Result<Vec<u8>, String>)
    ensures
        written is Ok,
        written->Ok_0@ == wire(marker, payload_type, sequence_number, timestamp, ssrc, payload@),
{
    let header = Header { version: 2, marker, payload_type, sequence_number, timestamp, ssrc, ..Default::default() };
    let packet = Packet { header, payload: Bytes::from(payload) };
    match packet.marshal() {
        Ok(bytes) => Ok(bytes.to_vec()),
        Err(e) => Err(e.to_string()),
    }
}

/// Whether the elements of a header extension that stand between `at` and `end` stay inside the
/// packet: those of one-byte headers, or those of two-byte headers.
pub open spec fn elements_fit(b: Seq<u8>, two_byte: bool, at: int, end: int) -> bool
    decreases
            (if at < end {
                end - at
            } else {
                0
            }),
{
    if at >= end {
        true
    } else if b[at] == 0 {
        elements_fit(b, two_byte, at + 1, end)
    } else if two_byte {
        &&& at + 1 < b.len()
        &&& at + 2 + b[at + 1] <= b.len()
        &&& elements_fit(b, two_byte, at + 2 + b[at + 1], end)
    } else if b[at] / 16 == 15 {
        true
    } else {
        &&& at + 2 + b[at] % 16 <= b.len()
        &&& elements_fit(b, two_byte, at + 2 + b[at] % 16, end)
    }
}

/// Whether no element of a header extension claims more bytes than the packet has. A packet
/// without an extension, or one that is cut short before its extension begins, has no such element.
pub open spec fn extensions_fit(b: Seq<u8>) -> bool {
    let at = 12 + 4 * (b[0] % 16);
    (b.len() >= at + 4 && b[0] / 16 % 2 == 1 && b.len() >= at + 4 + 4 * read_16(b, at + 2)) ==> {
        let end = at + 4 + 4 * read_16(b, at + 2);
        &&& read_16(b, at) == 0xbede ==> elements_fit(b, false, at + 4, end)
        &&& read_16(b, at) == 0x1000 ==> elements_fit(b, true, at + 4, end)
    }
}

/// Where the elements of a header extension that stand between `at` and `end` stop. A reserved
/// one-byte header ends them early; the last element may run past `end`.
pub open spec fn elements_end(b: Seq<u8>, two_byte: bool, at: int, end: int) -> int
    decreases
            (if at < end {
                end - at
            } else {
                0
            }),
{
    if at >= end {
        at
    } else if b[at] == 0 {
        elements_end(b, two_byte, at + 1, end)
    } else if two_byte {
        elements_end(b, two_byte, at + 2 + b[at + 1], end)
    } else if b[at] / 16 == 15 {
        at + 1
    } else {
        elements_end(b, two_byte, at + 2 + b[at] % 16, end)
    }
}

/// Where the header of a packet ends: twelve bytes, four for each contributing source, and the
/// extension where there is one. Nothing where the packet is cut short before that.
pub open spec fn header_end(b: Seq<u8>) -> Option<int> {
    let at = 12 + 4 * (b[0] % 16);
    let end = at + 4 + 4 * read_16(b, at + 2);
    if b.len() < 12 || b.len() < at {
        None
    } else if b[0] / 16 % 2 == 0 {
        Some(at)
    } else if b.len() < at + 4 || b.len() < end {
        None
    } else if read_16(b, at) == 0xbede {
        Some(elements_end(b, false, at + 4, end))
    } else if read_16(b, at) == 0x1000 {
        Some(elements_end(b, true, at + 4, end))
    } else {
        Some(end)
    }
}

/// What follows the header without its padding, where it is padded: the last byte tells how much.
pub open spec fn unpadded(rest: Seq<u8>, padded: bool) -> Option<Seq<u8>> {
    if !padded {
        Some(rest)
    } else if rest.len() > 0 && rest.last() <= rest.len() {
        Some(rest.take(rest.len() - rest.last()))
    } else {
        None
    }
}

/// What a datagram reads as: nothing where it is no packet.
pub open spec fn parsed(b: Seq<u8>) -> Option<RtpFields> {
    match header_end(b) {
        Some(end) => match unpadded(b.skip(end), b[0] / 32 % 2 == 1) {
            Some(payload) => Some(
                RtpFields {
                    version: (b[0] / 64) as u8,
                    marker: b[1] >= 128,
                    payload_type: (b[1] % 128) as u8,
                    sequence_number: read_16(b, 2) as u16,
                    timestamp: read_32(b, 4) as u32,
                    ssrc: read_32(b, 8) as u32,
                    payload,
                },
            ),
            None => None,
        },
        None => None,
    }
}

/// `rtp::packet::Packet::unmarshal` (by way of `webrtc_util::marshal::Unmarshal`): it reads the
/// fixed fields from their places, skips contributing sources and the header extension, takes the
/// padding off and keeps the rest as the payload; a datagram that is too short for what its header
/// announces is no packet. It panics on a header extension whose elements run past the datagram,
/// which is left out.
#[verifier::external_body]
pub(crate) fn unmarshal_packet(datagram: &[u8]) -> (packet: Option<RtpPacket>)
    requires
        extensions_fit(datagram@),
    ensures
        (match packet {
            Some(p) => Some(p@),
            None => None,
        }) == parsed(datagram@),
{
    let packet = Packet::unmarshal(&mut &datagram[..]).ok()?;
    Some(RtpPacket {
        version: packet.header.version,
        marker: packet.header.marker,
        payload_type: packet.header.payload_type,
        sequence_number: packet.header.sequence_number,
        timestamp: packet.header.timestamp,
        ssrc: packet.header.ssrc,
        payload: packet.payload.to_vec(),
    })
}

fn check_elements(b: &[u8], two_byte: bool, start: usize, end: usize) -> (fit: bool)
    requires
        end <= b@.len(),
    ensures
        fit == elements_fit(b@, two_byte, start as int, end as int),
{
    let size: usize = b.len();
    let mut at: usize = start;
    while at < end
        invariant
            size == b@.len(),
            end <= size,
            at < end ==> at < size,
            elements_fit(b@, two_byte, start as int, end as int) == elements_fit(
                b@,
                two_byte,
                at as int,
                end as int,
            ),
        decreases
                (if at < end {
                    end - at
                } else {
                    0
                }),
    {
        let first: u8 = b[at];
        if first == 0 {
            at += 1;
        } else if two_byte {
            if size - at < 2 {
                return false;
            }
            let len: usize = b[at + 1] as usize;
            if len > size - at - 2 {
                return false;
            }
            at += 2 + len;
        } else if first / 16 == 15 {
            return true;
        } else {
            let len: usize = (first % 16) as usize;
            if size - at < 2 + len {
                return false;
            }
            at += 2 + len;
        }
    }
    true
}

fn pair_at(b: &[u8], at: usize) -> (n: usize)
    requires
        at + 2 <= b@.len(),
    ensures
        n == read_16(b@, at as int),
{
    b[at] as usize * 0x100 + b[at + 1] as usize
}

/// Whether a datagram can be handed to the packet reader.
pub fn header_extension_fits(datagram: &[u8]) -> (fit: bool)
    ensures
        fit == extensions_fit(datagram@),
{
    let size: usize = datagram.len();
    if size < 16 {
        return true;
    }
    let at: usize = 12 + 4 * (datagram[0] % 16) as usize;
    if size < at + 4 || datagram[0] / 16 % 2 != 1 {
        return true;
    }
    let profile: usize = pair_at(datagram, at);
    let length: usize = 4 * pair_at(datagram, at + 2);
    if size - at - 4 < length {
        return true;
    }
    if profile == 0xbede {
        check_elements(datagram, false, at + 4, at + 4 + length)
    } else if profile == 0x1000 {
        check_elements(datagram, true, at + 4, at + 4 + length)
    } else {
        true
    }
}

/// Reading a datagram that was written gives back what was written.
pub proof fn reading_gives_back_what_was_written(
    marker: bool,
    payload_type: u8,
    sequence_number: u16,
    timestamp: u32,
    ssrc: u32,
    payload: Seq<u8>,
)
    requires
        payload_type < 128,
    ensures
        parsed(wire(marker, payload_type, sequence_number, timestamp, ssrc, payload)) == Some(
            RtpFields {
                version: 2,
                marker,
                payload_type,
                sequence_number,
                timestamp,
                ssrc,
                payload,
            },
        ),
        extensions_fit(wire(marker, payload_type, sequence_number, timestamp, ssrc, payload)),
{
    let b = wire(marker, payload_type, sequence_number, timestamp, ssrc, payload);
    assert(payload_type < 128 ==> (payload_type | 0x80) == payload_type + 128) by (bit_vector);
    assert(b.skip(12) =~= payload);
    assert(b[0] == 0x80);
    assert(read_16(b, 2) == sequence_number);
    assert(read_16(b, 4) == timestamp / 0x1_0000);
    assert(read_16(b, 6) == timestamp % 0x1_0000);
    assert(read_16(b, 8) == ssrc / 0x1_0000);
    assert(read_16(b, 10) == ssrc % 0x1_0000);
}

/// The header of a packet that can be read ends inside the packet.
pub proof fn the_header_ends_inside_the_packet(b: Seq<u8>)
    requires
        extensions_fit(b),
        header_end(b) is Some,
    ensures
        12 <= header_end(b)->0 <= b.len(),
{
    let at = 12 + 4 * (b[0] % 16);
    if b[0] / 16 % 2 == 1 {
        let end = at + 4 + 4 * read_16(b, at + 2);
        elements_end_inside(b, false, at + 4, end);
        elements_end_inside(b, true, at + 4, end);
    }
}

proof fn elements_end_inside(b: Seq<u8>, two_byte: bool, at: int, end: int)
    requires
        at <= b.len(),
        end <= b.len(),
    ensures
        at <= elements_end(b, two_byte, at, end),
        elements_fit(b, two_byte, at, end) ==> elements_end(b, two_byte, at, end) <= b.len(),
    decreases
            (if at < end {
                end - at
            } else {
                0
            }),
{
    if at < end {
        if b[at] == 0 {
            elements_end_inside(b, two_byte, at + 1, end);
        } else if two_byte {
            let next = at + 2 + b[at + 1];
            elements_end_grows(b, two_byte, next, end);
            if next <= b.len() {
                elements_end_inside(b, two_byte, next, end);
            }
        } else if b[at] / 16 != 15 {
            let next = at + 2 + b[at] % 16;
            elements_end_grows(b, two_byte, next, end);
            if next <= b.len() {
                elements_end_inside(b, two_byte, next, end);
            }
        }
    }
}

proof fn elements_end_grows(b: Seq<u8>, two_byte: bool, at: int, end: int)
    ensures
        at <= elements_end(b, two_byte, at, end),
    decreases
            (if at < end {
                end - at
            } else {
                0
            }),
{
    if at < end {
        if b[at] == 0 {
            elements_end_grows(b, two_byte, at + 1, end);
        } else if two_byte {
            elements_end_grows(b, two_byte, at + 2 + b[at + 1], end);
        } else if b[at] / 16 != 15 {
            elements_end_grows(b, two_byte, at + 2 + b[at] % 16, end);
        }
    }
}

/// Every field of a packet stands in its place on the wire, in network order: the version, the
/// marker above the payload type, the sequence number, the timestamp, the source identifier, and
/// from the twelfth byte on the payload.
pub proof fn every_field_stands_in_its_place(
    marker: bool,
    payload_type: u8,
    sequence_number: u16,
    timestamp: u32,
    ssrc: u32,
    payload: Seq<u8>,
    i: int,
)
    requires
        payload_type < 128,
        0 <= i < payload.len(),
    ensures
        ({
            let b = wire(marker, payload_type, sequence_number, timestamp, ssrc, payload);
            &&& b.len() == 12 + payload.len()
            &&& b[0] == 128
            &&& b[1] == if marker {
                payload_type + 128
            } else {
                payload_type as int
            }
            &&& b[2] * 256 + b[3] == sequence_number
            &&& ((b[4] * 256 + b[5]) * 256 + b[6]) * 256 + b[7] == timestamp
            &&& ((b[8] * 256 + b[9]) * 256 + b[10]) * 256 + b[11] == ssrc
            &&& b[12 + i] == payload[i]
        }),
{
    let b = wire(marker, payload_type, sequence_number, timestamp, ssrc, payload);
    assert(payload_type < 128 ==> (payload_type | 0x80) == payload_type + 128) by (bit_vector);
    assert(read_16(b, 4) == timestamp / 0x1_0000);
    assert(read_16(b, 6) == timestamp % 0x1_0000);
    assert(read_16(b, 8) == ssrc / 0x1_0000);
    assert(read_16(b, 10) == ssrc % 0x1_0000);
}

/// Whether the elements of a header extension follow each other at the given places: a byte of zero
/// fills one place, an element of two-byte headers has its length in its second byte, and one of
/// one-byte headers in the lower half of its only one. The last place is where they end: past the
/// extension, or at a one-byte header that is reserved for ending them.
pub open spec fn laid_out(b: Seq<u8>, two_byte: bool, places: Seq<int>, end: int) -> bool {
    &&& places.len() > 0
    &&& places.last() >= end || (!two_byte && b[places.last()] >= 240)
    &&& forall|k: int|
        0 <= k < places.len() - 1 ==> {
            &&& 0 <= #[trigger] places[k] < end
            &&& b[places[k]] == 0 ==> places[k + 1] == places[k] + 1
            &&& b[places[k]] != 0 && two_byte ==> places[k] + 1 < b.len() && places[k + 1]
                == places[k] + 2 + b[places[k] + 1]
            &&& b[places[k]] != 0 && !two_byte ==> b[places[k]] < 240 && places[k + 1] == places[k]
                + 2 + b[places[k]] % 16
        }
}

/// A header extension whose elements follow each other to their end fits exactly where none of them
/// ends outside the packet, and the payload begins behind the last.
pub proof fn elements_fit_where_none_ends_outside(
    b: Seq<u8>,
    two_byte: bool,
    places: Seq<int>,
    end: int,
)
    requires
        laid_out(b, two_byte, places, end),
        end <= b.len(),
    ensures
        elements_fit(b, two_byte, places[0], end) <==> places.len() == 1 || places.last()
            <= b.len(),
        elements_end(b, two_byte, places[0], end) == if places.last() >= end {
            places.last()
        } else {
            places.last() + 1
        },
    decreases places.len(),
{
    if places.len() > 1 {
        let rest = places.skip(1);
        assert(0 <= places[0] < end);
        assert(rest.last() == places.last());
        assert(rest[0] == places[1]);
        assert forall|k: int| 0 <= k < rest.len() - 1 implies {
            &&& 0 <= #[trigger] rest[k] < end
            &&& b[rest[k]] == 0 ==> rest[k + 1] == rest[k] + 1
            &&& b[rest[k]] != 0 && two_byte ==> rest[k] + 1 < b.len() && rest[k + 1] == rest[k] + 2
                + b[rest[k] + 1]
            &&& b[rest[k]] != 0 && !two_byte ==> b[rest[k]] < 240 && rest[k + 1] == rest[k] + 2
                + b[rest[k]] % 16
        } by {
            assert(rest[k] == places[k + 1]);
            assert(rest[k + 1] == places[k + 2]);
        }
        if rest.len() > 1 {
            assert(0 <= rest[0] < end);
        }
        elements_fit_where_none_ends_outside(b, two_byte, rest, end);
    }
}

/// A packet without a header extension can be read whatever it holds, and so can one whose extension
/// has no elements that could end outside: one of another kind, or one that is cut short.
pub proof fn most_packets_can_be_read(b: Seq<u8>)
    requires
        b.len() >= 12,
    ensures
        b[0] / 16 % 2 == 0 ==> extensions_fit(b),
        ({
            let at = 12 + 4 * (b[0] % 16);
            &&& b.len() < at + 4 ==> extensions_fit(b)
            &&& b[at] * 256 + b[at + 1] != 0xbede && b[at] * 256 + b[at + 1] != 0x1000
                ==> extensions_fit(b)
            &&& b.len() < at + 4 + 4 * (b[at + 2] * 256 + b[at + 3]) ==> extensions_fit(b)
        }),
{
}

/// Whether a header extension that is all there can be read depends on its elements alone, and on
/// the kind of headers that its first two bytes announce.
pub proof fn the_elements_decide(b: Seq<u8>)
    requires
        b[0] / 16 % 2 == 1,
        b.len() >= 16 + 4 * (b[0] % 16),
    ensures
        ({
            let at = 12 + 4 * (b[0] % 16);
            let end = at + 4 + 4 * (b[at + 2] * 256 + b[at + 3]);
            end <= b.len() ==> {
                &&& b[at] * 256 + b[at + 1] == 0xbede ==> (extensions_fit(b) <==> elements_fit(
                    b,
                    false,
                    at + 4,
                    end,
                ))
                &&& b[at] * 256 + b[at + 1] == 0x1000 ==> (extensions_fit(b) <==> elements_fit(
                    b,
                    true,
                    at + 4,
                    end,
                ))
            }
        }),
{
}

/// The packet as a model shows what is held of it, each part in its place.
pub proof fn the_model_shows_the_packet(p: RtpPacket)
    ensures
        p@.version == p.version,
        p@.marker == p.marker,
        p@.payload_type == p.payload_type,
        p@.sequence_number == p.sequence_number,
        p@.timestamp == p.timestamp,
        p@.ssrc == p.ssrc,
        p@.payload == p.payload@,
{
}

/// Padding is taken off as the last byte tells: what is left is the beginning of what there was, as
/// many bytes shorter; where the last byte tells of more than there is, or there is no last byte,
/// nothing can be read. Without padding everything is left.
pub proof fn padding_is_taken_off(rest: Seq<u8>)
    ensures
        unpadded(rest, false) == Some(rest),
        unpadded(rest, true) is Some <==> rest.len() > 0 && rest.last() <= rest.len(),
        unpadded(rest, true) matches Some(left) ==> left.len() + rest.last() == rest.len()
            && left.is_prefix_of(rest),
{
    if rest.len() > 0 && rest.last() <= rest.len() {
        let left = rest.take(rest.len() - rest.last());
        assert(left =~= rest.take(left.len() as int));
    }
}

/// The fields of a packet are read from their places, in network order; a datagram that is shorter
/// than its header announces is no packet, and the payload of one without contributing sources,
/// extension and padding is all that follows the twelve bytes of its header.
pub proof fn every_field_is_read_from_its_place(b: Seq<u8>)
    ensures
        b.len() < 12 ==> parsed(b) is None,
        b.len() < 12 + 4 * (b[0] % 16) ==> parsed(b) is None,
        parsed(b) matches Some(packet) ==> {
            &&& packet.version == b[0] / 64
            &&& packet.marker <==> b[1] >= 128
            &&& packet.payload_type == b[1] % 128
            &&& packet.sequence_number == b[2] * 256 + b[3]
            &&& packet.timestamp == ((b[4] * 256 + b[5]) * 256 + b[6]) * 256 + b[7]
            &&& packet.ssrc == ((b[8] * 256 + b[9]) * 256 + b[10]) * 256 + b[11]
        },
        b.len() >= 12 && b[0] % 64 == 0 ==> parsed(b) is Some && parsed(b)->0.payload == b.skip(12),
{
}

} // verus!
