//! The state of one RTP stream: addressing, sequence numbers, timestamps and telephone events.

use crate::codec::Codec;
use crate::packet::{marshal_packet, wire};
use vstd::prelude::*;

verus! {

/// The payload type of telephone events where the peer names none.
pub const DEFAULT_DTMF_PT: u8 = 101;

/// The volume, in decibels below the reference level, that telephone events are sent with.
pub const DTMF_VOLUME: u8 = 10;

/// A socket address.
#[derive(Clone, Copy, Debug, PartialEq, Eq, Structural)]
pub enum NetAddr {
    V4 { ip: u32, port: u16 },
    V6 { ip6: u128, port: u16, flow: u32, scope: u32 },
}

/// An IP address.
#[derive(Clone, Copy, Debug, PartialEq, Eq, Structural)]
pub enum IpAddress {
    V4 { ip: u32 },
    V6 { ip6: u128 },
}

impl NetAddr {
    pub open spec fn spec_ip(self) -> IpAddress {
        match self {
            NetAddr::V4 { ip, port } => IpAddress::V4 { ip },
            NetAddr::V6 { ip6, port, flow, scope } => IpAddress::V6 { ip6 },
        }
    }

    pub open spec fn spec_new(ip: IpAddress, port: u16) -> NetAddr {
        match ip {
            IpAddress::V4 { ip } => NetAddr::V4 { ip, port },
            IpAddress::V6 { ip6 } => NetAddr::V6 { ip6, port, flow: 0, scope: 0 },
        }
    }

    pub open spec fn spec_port(self) -> u16 {
        match self {
            NetAddr::V4 { port, .. } => port,
            NetAddr::V6 { port, .. } => port,
        }
    }

    pub fn port(&self) -> (port: u16)
        ensures
            port == self.spec_port(),
    {
        match self {
            NetAddr::V4 { port, .. } => *port,
            NetAddr::V6 { port, .. } => *port,
        }
    }

    pub fn ip(&self) -> (ip: IpAddress)
        ensures
            ip == self.spec_ip(),
    {
        match *self {
            NetAddr::V4 { ip, port: _ } => IpAddress::V4 { ip },
            NetAddr::V6 { ip6, port: _, flow: _, scope: _ } => IpAddress::V6 { ip6 },
        }
    }

    pub fn new(ip: IpAddress, port: u16) -> (addr: NetAddr)
        ensures
            addr == NetAddr::spec_new(ip, port),
    {
        match ip {
            IpAddress::V4 { ip } => NetAddr::V4 { ip, port },
            IpAddress::V6 { ip6 } => NetAddr::V6 { ip6, port, flow: 0, scope: 0 },
        }
    }
}

/// Bytes to put on the wire, and where to send them.
pub struct Datagram {
    pub bytes: Vec<u8>,
    pub to: NetAddr,
}

/// One RTP stream to and from a peer.
pub struct RtpTransport {
    pub remote_addr: NetAddr,
    pub ssrc: u32,
    pub codec: Codec,
    pub seq: u16,
    pub timestamp: u32,
    pub dtmf_pt: u8,
    pub ptime_ms: u32,
    /// Rate at which received audio is delivered.
    pub input_sample_rate: u32,
    /// Rate at which audio to send is supplied.
    pub output_sample_rate: u32,
}

/// `rand::random::<u32>`: any value may come back.
#[verifier::external_body]
fn random_u32() -> (n: u32) {
    rand::random::<u32>()
}

impl RtpTransport {
    /// A stream with a random source identifier, before its first packet.
    pub fn new(
        remote: NetAddr,
        codec: Codec,
        dtmf_pt: u8,
        ptime_ms: u32,
        input_sample_rate: u32,
        output_sample_rate: u32,
    ) -> (t: RtpTransport)
        ensures
            t == (RtpTransport {
                remote_addr: remote,
                ssrc: t.ssrc,
                codec,
                seq: 0,
                timestamp: 0,
                dtmf_pt,
                ptime_ms,
                input_sample_rate,
                output_sample_rate,
            }),
    {
        let ssrc: u32 = random_u32();
        RtpTransport::with_ssrc(
            ssrc,
            remote,
            codec,
            dtmf_pt,
            ptime_ms,
            input_sample_rate,
            output_sample_rate,
        )
    }

    /// A stream with the given source identifier, before its first packet.
    pub fn with_ssrc(
        ssrc: u32,
        remote: NetAddr,
        codec: Codec,
        dtmf_pt: u8,
        ptime_ms: u32,
        input_sample_rate: u32,
        output_sample_rate: u32,
    ) -> (t: RtpTransport)
        ensures
            t == (RtpTransport {
                remote_addr: remote,
                ssrc,
                codec,
                seq: 0,
                timestamp: 0,
                dtmf_pt,
                ptime_ms,
                input_sample_rate,
                output_sample_rate,
            }),
    {
        RtpTransport {
            remote_addr: remote,
            ssrc,
            codec,
            seq: 0,
            timestamp: 0,
            dtmf_pt,
            ptime_ms,
            input_sample_rate,
            output_sample_rate,
        }
    }

    pub fn remote(&self) -> (addr: NetAddr)
        ensures
            addr == self.remote_addr,
    {
        self.remote_addr
    }

    /// Whether the number of samples in a frame can be computed in 32 bits, at the rate of the
    /// codec and at the rate at which audio is supplied.
    pub open spec fn frames_fit(&self) -> bool {
        &&& 8000 * self.ptime_ms <= u32::MAX
        &&& self.output_sample_rate * self.ptime_ms <= u32::MAX
    }

    /// Samples per frame at the rate of the codec.
    pub open spec fn spec_spf(&self) -> int {
        8000 * self.ptime_ms / 1000
    }

    pub fn spf(&self) -> (n: u32)
        requires
            8000 * self.ptime_ms <= u32::MAX,
        ensures
            n == self.spec_spf(),
    {
        self.codec.sample_rate() * self.ptime_ms / 1000
    }

    /// Takes the next sequence number and writes a packet for the peer.
    pub fn send(&mut self, pt: u8, ts: u32, marker: bool, payload: Vec<u8>) -> (r: Result<
        Datagram,
        String,
    >)
        ensures
            *final(self) == (RtpTransport { seq: old(self).seq.wrapping_add(1), ..*old(self) }),
            r is Ok,
            r->Ok_0.to == old(self).remote_addr,
            r->Ok_0.bytes@ == wire(marker, pt, old(self).seq, ts, old(self).ssrc, payload@),
    {
        let seq: u16 = self.seq;
        self.seq = seq.wrapping_add(1);
        match marshal_packet(marker, pt, seq, ts, self.ssrc, payload) {
            Ok(bytes) => Ok(Datagram { bytes, to: self.remote_addr }),
            Err(e) => Err(e),
        }
    }

    /// The packets that announce one key press of `duration_ms` milliseconds. `event` is the code
    /// of the key; a key without a code is announced as code 0.
    pub fn send_dtmf_event(&self, event: Option<u8>, duration_ms: u32) -> (burst: DtmfBurst)
        requires
            self.ptime_ms > 0,
        ensures
            burst.ts == self.timestamp,
            burst.payload_type == self.dtmf_pt,
            burst.event == (match event {
                Some(e) => e,
                None => 0,
            }),
            burst.ptime_ms == self.ptime_ms,
            burst.duration == (if 8 * duration_ms <= u16::MAX {
                8 * duration_ms
            } else {
                u16::MAX as int
            }),
            burst.steps == (if duration_ms >= self.ptime_ms {
                (duration_ms / self.ptime_ms) as int
            } else {
                1
            }),
    {
        let event: u8 = match event {
            Some(e) => e,
            None => 0,
        };
        let ticks: u64 = 8 * duration_ms as u64;
        let duration: u16 = if ticks <= u16::MAX as u64 {
            ticks as u16
        } else {
            u16::MAX
        };
        let steps: u32 = if duration_ms >= self.ptime_ms {
            duration_ms / self.ptime_ms
        } else {
            1
        };
        DtmfBurst {
            ts: self.timestamp,
            payload_type: self.dtmf_pt,
            event,
            ptime_ms: self.ptime_ms,
            duration,
            steps,
        }
    }
}

/// The packets of one key press. They share a timestamp and follow each other one frame apart: the
/// beginning, `steps` reports of progress, and the end three times over.
pub struct DtmfBurst {
    pub ts: u32,
    pub payload_type: u8,
    pub event: u8,
    pub ptime_ms: u32,
    /// Length of the key press in samples at the rate of the codec.
    pub duration: u16,
    pub steps: u32,
}

/// One packet of a key press.
#[derive(Clone, Copy, Debug, PartialEq, Eq, Structural)]
pub struct DtmfPacket {
    pub marker: bool,
    pub event: u8,
    pub end: bool,
    pub volume: u8,
    pub duration: u16,
}

impl DtmfBurst {
    pub open spec fn len(&self) -> int {
        1 + self.steps + 3
    }

    /// The duration that the packet at position `i` reports: the samples of `i` frames, at most
    /// the length of the whole key press, and that length in the packets of the end.
    pub open spec fn reported(&self, i: int) -> int {
        if i <= self.steps && 8 * self.ptime_ms * i < self.duration {
            8 * self.ptime_ms * i
        } else {
            self.duration as int
        }
    }

    /// The packet at position `i`.
    pub open spec fn at(&self, i: int) -> DtmfPacket {
        DtmfPacket {
            marker: i == 0,
            event: self.event,
            end: i > self.steps,
            volume: DTMF_VOLUME,
            duration: if i == 0 {
                0
            } else {
                self.reported(i) as u16
            },
        }
    }

    /// The packet at position `i`, as long as there is one.
    pub fn packet(&self, i: u64) -> (packet: Option<DtmfPacket>)
        ensures
            packet == (if i < self.len() {
                Some(self.at(i as int))
            } else {
                None
            }),
    {
        let steps: u64 = self.steps as u64;
        if i >= 4 + steps {
            return None;
        }
        let elapsed: u128 = if i <= steps {
            assert(8 * self.ptime_ms * i <= 0x8_0000_0000 * 0x1_0000_0000) by (nonlinear_arith)
                requires
                    i <= u32::MAX,
            ;
            8 * self.ptime_ms as u128 * i as u128
        } else {
            self.duration as u128
        };
        let duration: u16 = if i == 0 {
            0
        } else if elapsed < self.duration as u128 {
            elapsed as u16
        } else {
            self.duration
        };
        Some(
            DtmfPacket {
                marker: i == 0,
                event: self.event,
                end: i > steps,
                volume: DTMF_VOLUME,
                duration,
            },
        )
    }

    /// In a key press only the first packet is marked, and exactly the last three packets announce
    /// the end, each with the length of the whole key press.
    pub proof fn ends_three_times(self, i: int)
        requires
            0 <= i < self.len(),
        ensures
            self.at(i).marker <==> i == 0,
            self.at(i).end <==> i >= self.len() - 3,
            self.at(i).end ==> self.at(i).duration == self.duration,
    {
    }

    /// The reported durations never shrink and never exceed the length of the key press.
    pub proof fn durations_grow(self, i: int, j: int)
        requires
            0 <= i <= j < self.len(),
        ensures
            self.at(i).duration <= self.at(j).duration <= self.duration,
    {
        assert(8 * self.ptime_ms * i <= 8 * self.ptime_ms * j) by (nonlinear_arith)
            requires
                i <= j,
        ;
        assert(8 * self.ptime_ms * i >= 0 && 8 * self.ptime_ms * j >= 0) by (nonlinear_arith)
            requires
                0 <= i <= j,
        ;
    }
}

impl NetAddr {
    /// An address made of an IP address and a port has them, and nothing else.
    pub proof fn an_address_has_what_it_was_made_of(ip: IpAddress, port: u16)
        ensures
            NetAddr::spec_new(ip, port).spec_ip() == ip,
            NetAddr::spec_new(ip, port).spec_port() == port,
            NetAddr::spec_new(ip, port) matches NetAddr::V6 { flow, scope, .. } ==> flow == 0
                && scope == 0,
            ip is V4 <==> NetAddr::spec_new(ip, port) is V4,
    {
    }
}

impl RtpTransport {
    /// A frame lasts as long as it should: eight samples for each millisecond.
    pub proof fn a_frame_lasts_its_time(self)
        ensures
            self.spec_spf() == 8 * self.ptime_ms,
    {
    }
}

impl DtmfBurst {
    /// Every packet of a key press names the same key at the same volume, the first reports no time
    /// elapsed, and each that follows it, up to the end, one frame more than the one before, as far
    /// as the key press lasts.
    pub proof fn each_packet_reports_one_frame_more(self, i: int)
        requires
            0 <= i < self.len(),
        ensures
            self.at(i).event == self.event,
            self.at(i).volume == 10,
            i == 0 ==> self.at(i).duration == 0,
            0 < i <= self.steps && 8 * self.ptime_ms * i <= self.duration ==> self.at(i).duration
                == 8 * self.ptime_ms * i,
            0 < i && 8 * self.ptime_ms * i > self.duration ==> self.at(i).duration == self.duration,
            self.len() == self.steps + 4,
    {
        assert(8 * self.ptime_ms * i >= 0) by (nonlinear_arith)
            requires
                i >= 0,
        ;
    }
}

impl NetAddr {
    /// The parts of an address are those that it names, whatever else it names.
    pub proof fn an_address_shows_its_parts(self)
        ensures
            self matches NetAddr::V4 { ip, port } ==> self.spec_ip() == (IpAddress::V4 { ip })
                && self.spec_port() == port,
            self matches NetAddr::V6 { ip6, port, .. } ==> self.spec_ip() == (IpAddress::V6 { ip6 })
                && self.spec_port() == port,
    {
    }
}

} // verus!
