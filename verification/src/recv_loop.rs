//! The receiving side of a stream: which packets count, where the peer is, which keys it pressed.

use crate::audio::AudioFrame;
use crate::codec::Codec;
use crate::event::{event_view, EndpointEvent, EventView};
use crate::packet::{extensions_fit, parsed, reading_gives_back_what_was_written, unmarshal_packet, wire, RtpFields, RtpPacket};
use crate::session::CallSession;
use crate::transport::{Datagram, NetAddr, RtpTransport};
use vstd::prelude::*;

verus! {

/// Nanoseconds without a packet after which a call has lost its media.
pub const MEDIA_TIMEOUT: u64 = 30_000_000_000;

/// Nanoseconds between two packets that keep an address translation alive.
pub const NAT_KEEPALIVE: u64 = 15_000_000_000;

/// Nanoseconds after which a key press counts as ended though its end was never announced.
pub const DTMF_END_TIMEOUT: u64 = 5_000_000_000;

/// Consecutive packets from one new source after which the peer counts as moved there. Fewer would
/// let an address translation that changes every few packets drag the stream about.
pub const SYMMETRIC_RTP_CONFIRM: u32 = 3;

/// What a telephone event packet does to the key press being tracked.
#[derive(Clone, Copy, Debug, PartialEq, Eq, Structural)]
pub enum DtmfTransition {
    /// The key press ended and is to be reported.
    EndEmit { event: u8 },
    /// The end of a key press that was reported already.
    EndStale,
    /// A key press began, or another one took its place.
    StartOrChange { event: u8 },
    /// More of the key press being tracked.
    StartRetransmit,
    NoChange,
}

/// What a detector of answering machine tones says of a frame.
#[derive(Clone, Copy, Debug, PartialEq, Eq, Structural)]
pub enum BeepOutcome {
    Detected { duration_ms: u64 },
    Timeout,
    Listening,
}

/// What the receive loop keeps from packet to packet. Times are nanoseconds on a monotonic clock.
#[derive(Clone, Copy, Debug, PartialEq, Eq)]
pub struct Tracking {
    pub last_rtp: u64,
    pub remote_ssrc: Option<u32>,
    pub dtmf_ev: Option<u8>,
    pub dtmf_timer: Option<u64>,
    /// A source other than the peer's address, with the number of packets that just came from it.
    pub pending_remote: Option<(NetAddr, u32)>,
    pub rx_pkts: u32,
}

/// The state of the receive loop.
pub struct RecvLoop {
    pub call_id: String,
    /// The session as it was when media began.
    pub session: CallSession,
    pub track: Tracking,
}

/// What became of a datagram.
pub enum Received {
    /// No packet for this stream.
    Ignored,
    /// A control packet: the peer is alive.
    Control,
    /// A telephone event, with its payload.
    TelephoneEvent { payload: Vec<u8> },
    /// Another packet of the stream. `expired` is a key press whose end was never announced and
    /// which is now taken to have ended; `samples` are there where the packet carries audio in the
    /// codec of the stream.
    Media { expired: Option<u8>, samples: Option<Vec<i16>> },
}

/// Where the peer is after a packet came from `from`, and which source is pending: the peer moves
/// only after a row of packets from one and the same other source.
pub open spec fn symmetric(
    remote: NetAddr,
    pending: Option<(NetAddr, u32)>,
    from: NetAddr,
) -> (NetAddr, Option<(NetAddr, u32)>) {
    if from == remote {
        (remote, None)
    } else {
        let n = match pending {
            Some((addr, k)) if addr == from => k + 1,
            _ => 1,
        };
        if n >= SYMMETRIC_RTP_CONFIRM {
            (from, None)
        } else {
            (remote, Some((from, n as u32)))
        }
    }
}

/// The peer's source identifier after a packet with identifier `ssrc`; the stream's own identifier
/// is never taken for the peer's.
pub open spec fn tracked_ssrc(known: Option<u32>, own: u32, ssrc: u32) -> Option<u32> {
    if ssrc == own {
        known
    } else {
        Some(ssrc)
    }
}

/// Whether a packet shows that the peer changed its source identifier.
pub open spec fn ssrc_changed(known: Option<u32>, own: u32, ssrc: u32) -> bool {
    known is Some && known != Some(ssrc) && ssrc != own
}

/// A key press that has gone on for too long without its end being announced.
pub open spec fn overdue(event: Option<u8>, timer: Option<u64>, now: u64) -> Option<u8> {
    if event is Some && timer is Some && now - timer->0 > DTMF_END_TIMEOUT {
        event
    } else {
        None
    }
}

impl Tracking {
    /// A pending source has fewer packets to its name than would make it the peer's address.
    pub open spec fn wf(self) -> bool {
        self.pending_remote matches Some((addr, n)) ==> 1 <= n < SYMMETRIC_RTP_CONFIRM
    }

    /// What is kept after a packet that arrived at `now`, on a stream with the given address of
    /// the peer, own source identifier, and payload types of telephone events and audio.
    pub open spec fn after(
        self,
        remote: NetAddr,
        own: u32,
        dtmf_pt: u8,
        audio_pt: u8,
        packet: RtpFields,
        from: NetAddr,
        now: u64,
    ) -> Tracking {
        let event = if ssrc_changed(self.remote_ssrc, own, packet.ssrc) {
            None
        } else {
            self.dtmf_ev
        };
        let late = packet.payload_type != dtmf_pt && overdue(event, self.dtmf_timer, now) is Some;
        Tracking {
            last_rtp: now,
            remote_ssrc: tracked_ssrc(self.remote_ssrc, own, packet.ssrc),
            dtmf_ev: if late {
                None
            } else {
                event
            },
            dtmf_timer: if late {
                None
            } else {
                self.dtmf_timer
            },
            pending_remote: symmetric(remote, self.pending_remote, from).1,
            rx_pkts: if packet.payload_type != dtmf_pt && packet.payload_type == audio_pt {
                self.rx_pkts.wrapping_add(1)
            } else {
                self.rx_pkts
            },
        }
    }

    /// The key press that a packet shows to be overdue.
    pub open spec fn expired(self, own: u32, packet: RtpFields, now: u64) -> Option<u8> {
        if ssrc_changed(self.remote_ssrc, own, packet.ssrc) {
            None
        } else {
            overdue(self.dtmf_ev, self.dtmf_timer, now)
        }
    }
}

impl Received {
    /// Whether the loop looks for a loss of media after this datagram: only where audio came.
    pub fn checks_timeout(&self) -> (check: bool)
        ensures
            check == (self matches Received::Media { samples: Some(s), .. }),
    {
        match self {
            Received::Media { expired: _, samples: Some(_) } => true,
            _ => false,
        }
    }
}

impl RtpTransport {
    /// The receive loop of this stream, before its first packet.
    pub fn start_recv_loop(&self, call_id: String, session: CallSession, now: u64) -> (l: RecvLoop)
        ensures
            l.call_id@ == call_id@,
            l.session@ == session@,
            l.track == (Tracking {
                last_rtp: now,
                remote_ssrc: None,
                dtmf_ev: None,
                dtmf_timer: None,
                pending_remote: None,
                rx_pkts: 0,
            }),
            l.track.wf(),
    {
        RecvLoop {
            call_id,
            session,
            track: Tracking {
                last_rtp: now,
                remote_ssrc: None,
                dtmf_ev: None,
                dtmf_timer: None,
                pending_remote: None,
                rx_pkts: 0,
            },
        }
    }
}

impl RecvLoop {
    /// The packet that keeps an address translation alive: a frame of silence.
    pub fn keepalive(&self, t: &mut RtpTransport) -> (r: Result<Datagram, String>)
        requires
            8000 * old(t).ptime_ms <= u32::MAX,
        ensures
            r is Ok,
            r->Ok_0.to == old(t).remote_addr,
            r->Ok_0.bytes@ == wire(
                false,
                old(t).codec.spec_payload_type(),
                old(t).seq,
                old(t).timestamp,
                old(t).ssrc,
                Seq::new(old(t).spec_spf() as nat, |i: int| old(t).codec.spec_silence_byte()),
            ),
            *final(t) == (RtpTransport { seq: old(t).seq.wrapping_add(1), ..*old(t) }),
            r->Ok_0.bytes@.len() == 12 + 8 * old(t).ptime_ms,
            forall|i: int|
                0 <= i < 8 * old(t).ptime_ms ==> #[trigger] r->Ok_0.bytes@[12 + i] == old(
                    t,
                ).codec.code(0),
    {
        proof {
            t.codec.the_silence_byte_is_the_code_of_silence();
        }
        let spf: u32 = t.spf();
        let payload: Vec<u8> = vec![t.codec.silence_byte(); spf as usize];
        assert(payload@ =~= Seq::new(t.spec_spf() as nat, |i: int| t.codec.spec_silence_byte()));
        let ts: u32 = t.timestamp;
        t.send(t.codec.payload_type(), ts, false, payload)
    }

    /// Takes a datagram in. `is_rtcp` tells whether it is a control packet.
    pub fn on_datagram(
        &mut self,
        t: &mut RtpTransport,
        datagram: &[u8],
        from: NetAddr,
        is_rtcp: bool,
        now: u64,
    ) -> (r: Received)
        requires
            old(self).track.wf(),
            datagram@.len() >= 12 && !is_rtcp ==> extensions_fit(datagram@),
        ensures
            final(self).track.wf(),
            final(self).call_id@ == old(self).call_id@,
            final(self).session@ == old(self).session@,
            datagram@.len() < 12 ==> r is Ignored && *final(self) == *old(self) && *final(t)
                == *old(t),
            datagram@.len() >= 12 && is_rtcp ==> r is Control && final(self).track == (Tracking {
                last_rtp: now,
                ..old(self).track
            }) && *final(t) == *old(t),
            datagram@.len() >= 12 && !is_rtcp ==> match parsed(datagram@) {
                Some(packet) => if packet.version == 2 {
                    packet_taken(*old(self), *final(self), *old(t), *final(t), packet, from, now, r)
                } else {
                    r is Ignored && *final(self) == *old(self) && *final(t) == *old(t)
                },
                None => r is Ignored && *final(self) == *old(self) && *final(t) == *old(t),
            },
    {
        if datagram.len() < 12 {
            return Received::Ignored;
        }
        if is_rtcp {
            self.track.last_rtp = now;
            return Received::Control;
        }
        match unmarshal_packet(datagram) {
            None => Received::Ignored,
            Some(packet) => {
                if packet.version != 2 {
                    Received::Ignored
                } else {
                    self.on_packet(t, packet, from, now)
                }
            },
        }
    }

    /// Takes a packet in: follows the peer's address and source identifier, and tells telephone
    /// events from audio.
    pub fn on_packet(
        &mut self,
        t: &mut RtpTransport,
        packet: RtpPacket,
        from: NetAddr,
        now: u64,
    ) -> (r: Received)
        requires
            old(self).track.wf(),
        ensures
            final(self).track.wf(),
            packet_taken(*old(self), *final(self), *old(t), *final(t), packet@, from, now, r),
    {
        if from != t.remote_addr {
            let n: u32 = match self.track.pending_remote {
                Some((addr, k)) => {
                    if addr == from {
                        k + 1
                    } else {
                        1
                    }
                },
                None => 1,
            };
            if n >= SYMMETRIC_RTP_CONFIRM {
                t.remote_addr = from;
                self.track.pending_remote = None;
            } else {
                self.track.pending_remote = Some((from, n));
            }
        } else {
            self.track.pending_remote = None;
        }
        let ssrc: u32 = packet.ssrc;
        if ssrc != t.ssrc {
            if let Some(known) = self.track.remote_ssrc {
                if ssrc != known {
                    self.track.dtmf_ev = None;
                }
            }
            self.track.remote_ssrc = Some(ssrc);
        }
        self.track.last_rtp = now;
        if packet.payload_type == t.dtmf_pt {
            return Received::TelephoneEvent { payload: packet.payload };
        }
        let mut expired: Option<u8> = None;
        if let Some(event) = self.track.dtmf_ev {
            if let Some(since) = self.track.dtmf_timer {
                if now > since && now - since > DTMF_END_TIMEOUT {
                    expired = Some(event);
                    self.track.dtmf_ev = None;
                    self.track.dtmf_timer = None;
                }
            }
        }
        if packet.payload_type != t.codec.payload_type() {
            return Received::Media { expired, samples: None };
        }
        self.track.rx_pkts = self.track.rx_pkts.wrapping_add(1);
        Received::Media { expired, samples: Some(t.codec.decode(&packet.payload)) }
    }

    /// Follows a key press. `transition` is what the event's packet does to it, where the packet
    /// could be read; the key press that ended is handed back.
    pub fn on_telephone_event(&mut self, transition: Option<DtmfTransition>, now: u64) -> (ended:
        Option<u8>)
        ensures
            ended == (match transition {
                Some(DtmfTransition::EndEmit { event }) => Some(event),
                _ => None,
            }),
            *final(self) == (RecvLoop {
                track: match transition {
                    Some(DtmfTransition::EndEmit { event }) => Tracking {
                        dtmf_ev: None,
                        dtmf_timer: None,
                        ..old(self).track
                    },
                    Some(DtmfTransition::StartOrChange { event }) => Tracking {
                        dtmf_ev: Some(event),
                        dtmf_timer: Some(now),
                        ..old(self).track
                    },
                    _ => old(self).track,
                },
                ..*old(self)
            }),
    {
        match transition {
            Some(DtmfTransition::EndEmit { event }) => {
                self.track.dtmf_ev = None;
                self.track.dtmf_timer = None;
                Some(event)
            },
            Some(DtmfTransition::StartOrChange { event }) => {
                self.track.dtmf_ev = Some(event);
                self.track.dtmf_timer = Some(now);
                None
            },
            _ => None,
        }
    }

    /// Reports a key press. `digit` is the key that the event's code stands for; a code without a
    /// key is not reported.
    pub fn key_pressed(&self, digit: Option<char>) -> (event: Option<EndpointEvent>)
        ensures
            event_view(event) == (match digit {
                Some(d) => Some(
                    EventView::DtmfReceived {
                        call_id: self.call_id@,
                        digit: d,
                        method: "rfc2833"@,
                    },
                ),
                None => None,
            }),
    {
        match digit {
            Some(d) => Some(
                EndpointEvent::DtmfReceived {
                    call_id: self.call_id.clone(),
                    digit: d,
                    method: "rfc2833".to_owned(),
                },
            ),
            None => None,
        }
    }

    /// Reports what the tone detector found. The detector has done its work once something is
    /// reported.
    pub fn on_beep(&self, outcome: BeepOutcome) -> (event: Option<EndpointEvent>)
        ensures
            event_view(event) == (match outcome {
                BeepOutcome::Detected { duration_ms } => Some(
                    EventView::BeepDetected { call_id: self.call_id@, duration_ms },
                ),
                BeepOutcome::Timeout => Some(EventView::BeepTimeout { call_id: self.call_id@ }),
                BeepOutcome::Listening => None,
            }),
    {
        match outcome {
            BeepOutcome::Detected { duration_ms } => Some(
                EndpointEvent::BeepDetected { call_id: self.call_id.clone(), duration_ms },
            ),
            BeepOutcome::Timeout => Some(
                EndpointEvent::BeepTimeout { call_id: self.call_id.clone() },
            ),
            BeepOutcome::Listening => None,
        }
    }

    /// The frame that is delivered: one channel at the rate at which audio is wanted. `pcm` holds
    /// the packet's samples at that rate.
    pub fn deliver(&self, t: &RtpTransport, pcm: Vec<i16>) -> (frame: AudioFrame)
        ensures
            frame.data@ == pcm@,
            frame.sample_rate == t.input_sample_rate,
            frame.num_channels == 1,
            frame.samples_per_channel == pcm@.len() as u32,
    {
        let n: u32 = pcm.len() as u32;
        AudioFrame {
            data: pcm,
            sample_rate: t.input_sample_rate,
            num_channels: 1,
            samples_per_channel: n,
        }
    }

    /// Whether the media is lost. A peer on hold is expected to send nothing.
    pub fn media_lost(&self, now: u64, held: bool) -> (lost: bool)
        ensures
            lost == (now - self.track.last_rtp > MEDIA_TIMEOUT && !held),
            lost <==> now - self.track.last_rtp > 30_000_000_000 && !held,
    {
        now > self.track.last_rtp && now - self.track.last_rtp > MEDIA_TIMEOUT && !held
    }

    /// Reports the loss of the media, unless the call was terminated before. The call is to be
    /// cancelled where something is reported.
    pub fn media_timeout(&self, terminated: bool) -> (event: Option<EndpointEvent>)
        ensures
            event_view(event) == (if terminated {
                None
            } else {
                Some(
                    EventView::CallTerminated {
                        session: self.session@,
                        reason: "media timeout"@,
                    },
                )
            }),
    {
        if terminated {
            None
        } else {
            Some(
                EndpointEvent::CallTerminated {
                    session: self.session.copy(),
                    reason: "media timeout".to_owned(),
                },
            )
        }
    }
}

/// What taking a packet in does to the loop and the stream, and what it hands back.
pub open spec fn packet_taken(
    before: RecvLoop,
    after: RecvLoop,
    t: RtpTransport,
    t_after: RtpTransport,
    packet: RtpFields,
    from: NetAddr,
    now: u64,
    r: Received,
) -> bool {
    &&& after == (RecvLoop {
        track: before.track.after(
            t.remote_addr,
            t.ssrc,
            t.dtmf_pt,
            t.codec.spec_payload_type(),
            packet,
            from,
            now,
        ),
        ..before
    })
    &&& t_after == (RtpTransport {
        remote_addr: symmetric(t.remote_addr, before.track.pending_remote, from).0,
        ..t
    })
    &&& match r {
        Received::TelephoneEvent { payload } => packet.payload_type == t.dtmf_pt && payload@
            == packet.payload,
        Received::Media { expired, samples } => {
            &&& packet.payload_type != t.dtmf_pt
            &&& expired == before.track.expired(t.ssrc, packet, now)
            &&& match samples {
                Some(s) => packet.payload_type == t.codec.spec_payload_type() && s@
                    == t.codec.decoded(packet.payload),
                None => packet.payload_type != t.codec.spec_payload_type(),
            }
        },
        _ => false,
    }
}

/// A peer hears what is sent: of a packet with encoded samples it reads the payload back, knows it
/// by its payload type, and decodes as many samples, each as the codec renders it.
pub proof fn what_is_sent_is_heard(
    codec: Codec,
    samples: Seq<i16>,
    marker: bool,
    sequence_number: u16,
    timestamp: u32,
    ssrc: u32,
)
    ensures
        ({
            let packet = parsed(
                wire(
                    marker,
                    codec.spec_payload_type(),
                    sequence_number,
                    timestamp,
                    ssrc,
                    codec.encoded(samples),
                ),
            );
            let heard = codec.decoded(packet->0.payload);
            &&& packet is Some
            &&& packet->0.version == 2
            &&& packet->0.ssrc == ssrc
            &&& packet->0.payload_type == codec.spec_payload_type()
            &&& heard.len() == samples.len()
            &&& forall|i: int|
                0 <= i < samples.len() ==> (#[trigger] heard[i]) == codec.sample(
                    codec.code(samples[i]),
                )
        }),
{
    reading_gives_back_what_was_written(
        marker,
        codec.spec_payload_type(),
        sequence_number,
        timestamp,
        ssrc,
        codec.encoded(samples),
    );
}

/// The stream's own source identifier is never taken for the peer's.
pub proof fn own_ssrc_is_never_tracked(known: Option<u32>, own: u32, ssrc: u32)
    requires
        known != Some(own),
    ensures
        tracked_ssrc(known, own, ssrc) != Some(own),
{
}

/// Where the peer is and which source is pending after packets came from the given sources.
pub open spec fn symmetric_run(
    remote: NetAddr,
    pending: Option<(NetAddr, u32)>,
    sources: Seq<NetAddr>,
) -> (NetAddr, Option<(NetAddr, u32)>)
    decreases sources.len(),
{
    if sources.len() == 0 {
        (remote, pending)
    } else {
        let (r, p) = symmetric_run(remote, pending, sources.drop_last());
        symmetric(r, p, sources.last())
    }
}

/// The stream moves to another address only when the last three packets all came from there, and
/// not before.
pub proof fn moves_after_three_in_a_row(remote: NetAddr, sources: Seq<NetAddr>)
    requires
        sources.len() > 0,
        symmetric_run(remote, None, sources).0 != symmetric_run(
            remote,
            None,
            sources.drop_last(),
        ).0,
    ensures
        sources.len() >= 3,
        forall|i: int|
            sources.len() - 3 <= i < sources.len() ==> sources[i] == symmetric_run(
                remote,
                None,
                sources,
            ).0,
{
    let n = sources.len() as int;
    pending_counts_the_row(remote, sources.drop_last());
    let (r, p) = symmetric_run(remote, None, sources.drop_last());
    assert(p is Some && (p->0).0 == sources.last() && (p->0).1 == 2);
    assert(sources.drop_last()[n - 2] == sources[n - 2]);
    assert(sources.drop_last()[n - 3] == sources[n - 3]);
}

/// A pending source is one that the last packets came from, as many as are counted.
proof fn pending_counts_the_row(remote: NetAddr, sources: Seq<NetAddr>)
    ensures
        symmetric_run(remote, None, sources).1 matches Some((addr, n)) ==> {
            &&& 1 <= n < SYMMETRIC_RTP_CONFIRM
            &&& n <= sources.len()
            &&& addr != symmetric_run(remote, None, sources).0
            &&& forall|i: int|
                sources.len() - n <= i < sources.len() ==> #[trigger] sources[i] == addr
        },
    decreases sources.len(),
{
    if sources.len() > 0 {
        let before = sources.drop_last();
        pending_counts_the_row(remote, before);
        let (r, p) = symmetric_run(remote, None, before);
        if let Some((addr, n)) = symmetric_run(remote, None, sources).1 {
            assert forall|i: int| sources.len() - n <= i < sources.len() implies #[trigger] sources[i]
                == addr by {
                if i < sources.len() - 1 {
                    assert(before[i] == sources[i]);
                }
            }
        }
    }
}

/// Three packets in a row from another address move the stream there, whatever came before.
pub proof fn three_in_a_row_move(remote: NetAddr, pending: Option<(NetAddr, u32)>, from: NetAddr)
    ensures
        symmetric_run(remote, pending, seq![from, from, from]).0 == from,
{
    let s = seq![from, from, from];
    assert(s.drop_last() =~= seq![from, from]);
    assert(s.drop_last().drop_last() =~= seq![from]);
    assert(s.drop_last().drop_last().drop_last() =~= Seq::empty());
    reveal_with_fuel(symmetric_run, 4);
}

/// A packet from the peer's own address sets a pending source back to nothing.
pub proof fn a_packet_from_the_peer_clears_pending(
    remote: NetAddr,
    pending: Option<(NetAddr, u32)>,
)
    ensures
        symmetric(remote, pending, remote) == (remote, None::<(NetAddr, u32)>),
{
}

/// Where the peer is, and which source is pending, after a packet: one from the peer's address
/// changes nothing but that no source is pending; the third in a row from another source moves the
/// stream there; one from another source that is not the third in a row leaves the stream where it
/// is and is counted, from one where its source was not pending.
pub proof fn the_peer_is_followed_step_by_step(
    remote: NetAddr,
    pending: Option<(NetAddr, u32)>,
    from: NetAddr,
)
    requires
        pending matches Some((addr, n)) ==> n < 3,
    ensures
        from == remote ==> symmetric(remote, pending, from).0 == remote,
        from == remote ==> symmetric(remote, pending, from).1 is None,
        from != remote && pending == Some((from, 2u32)) ==> symmetric(remote, pending, from).0
            == from,
        from != remote && pending == Some((from, 2u32)) ==> symmetric(remote, pending, from).1
            is None,
        from != remote && pending != Some((from, 2u32)) ==> symmetric(remote, pending, from).0
            == remote,
        from != remote && (pending is None || (pending->0).0 != from) ==> symmetric(
            remote,
            pending,
            from,
        ).1 == Some((from, 1u32)),
        from != remote && pending is Some && (pending->0).0 == from && (pending->0).1 < 2
            ==> symmetric(remote, pending, from).1 == Some((from, ((pending->0).1 + 1) as u32)),
{
}

/// What is kept from packet to packet follows each packet: the time it came, the identifier of the
/// peer's source unless it is our own, the source it came from, and one more packet where it carries
/// audio. A key press is forgotten when the peer's source changes, and when a packet that is no
/// telephone event comes more than five seconds after it began; otherwise it is kept.
pub proof fn what_is_kept_follows_each_packet(
    track: Tracking,
    remote: NetAddr,
    own: u32,
    dtmf_pt: u8,
    audio_pt: u8,
    packet: RtpFields,
    from: NetAddr,
    now: u64,
)
    ensures
        ({
            let after = track.after(remote, own, dtmf_pt, audio_pt, packet, from, now);
            let moved = track.remote_ssrc is Some && track.remote_ssrc->0 != packet.ssrc
                && packet.ssrc != own;
            let late = packet.payload_type != dtmf_pt && !moved && track.dtmf_ev is Some
                && track.dtmf_timer is Some && now - track.dtmf_timer->0 > 5_000_000_000;
            &&& after.last_rtp == now
            &&& packet.ssrc == own ==> after.remote_ssrc == track.remote_ssrc
            &&& packet.ssrc != own ==> after.remote_ssrc == Some(packet.ssrc)
            &&& after.pending_remote == symmetric(remote, track.pending_remote, from).1
            &&& moved || late ==> after.dtmf_ev is None
            &&& !moved && !late ==> after.dtmf_ev == track.dtmf_ev
            &&& late ==> after.dtmf_timer is None
            &&& !late ==> after.dtmf_timer == track.dtmf_timer
            &&& packet.payload_type != dtmf_pt && packet.payload_type == audio_pt
                ==> after.rx_pkts == (track.rx_pkts + 1) % 0x1_0000_0000
            &&& packet.payload_type == dtmf_pt || packet.payload_type != audio_pt ==> after.rx_pkts
                == track.rx_pkts
            &&& track.expired(own, packet, now) == if !moved && track.dtmf_ev is Some
                && track.dtmf_timer is Some && now - track.dtmf_timer->0 > 5_000_000_000 {
                track.dtmf_ev
            } else {
                None
            }
        }),
{
}

/// A packet under the payload type of telephone events is handed on as one, with its payload; every
/// other packet is taken for media. Audio is handed on exactly where the packet is in the codec of
/// the stream, each sample as its code stands for it, in order. A key press whose end was never
/// announced is handed on once, more than five seconds after it began. The stream changes in nothing
/// but the peer's address, and in that only with the third packet in a row from another.
pub proof fn a_packet_is_taken_for_what_it_is(
    before: RecvLoop,
    after: RecvLoop,
    t: RtpTransport,
    t_after: RtpTransport,
    packet: RtpFields,
    from: NetAddr,
    now: u64,
    r: Received,
)
    requires
        packet_taken(before, after, t, t_after, packet, from, now, r),
    ensures
        r is TelephoneEvent <==> packet.payload_type == t.dtmf_pt,
        r is Media <==> packet.payload_type != t.dtmf_pt,
        r matches Received::TelephoneEvent { payload } ==> payload@ == packet.payload,
        r matches Received::Media { expired, samples } ==> {
            &&& samples is Some <==> packet.payload_type == t.codec.spec_payload_type()
            &&& samples matches Some(s) ==> s@.len() == packet.payload.len() && forall|i: int|
                0 <= i < packet.payload.len() ==> #[trigger] s@[i] == t.codec.sample(
                    packet.payload[i],
                )
            &&& expired is Some <==> before.track.dtmf_ev is Some && before.track.dtmf_timer is Some
                && now - before.track.dtmf_timer->0 > 5_000_000_000 && !(
            before.track.remote_ssrc is Some && before.track.remote_ssrc->0 != packet.ssrc
                && packet.ssrc != t.ssrc)
            &&& expired is Some ==> expired == before.track.dtmf_ev && after.track.dtmf_ev is None
                && after.track.dtmf_timer is None
        },
        after.call_id == before.call_id,
        after.session == before.session,
        after.track.last_rtp == now,
        after.track.remote_ssrc == if packet.ssrc == t.ssrc {
            before.track.remote_ssrc
        } else {
            Some(packet.ssrc)
        },
        after.track.rx_pkts == if packet.payload_type != t.dtmf_pt && packet.payload_type
            == t.codec.spec_payload_type() {
            (before.track.rx_pkts + 1) % 0x1_0000_0000
        } else {
            before.track.rx_pkts as int
        },
        r is TelephoneEvent || r->expired is None ==> after.track.dtmf_timer
            == before.track.dtmf_timer,
        r is TelephoneEvent || r->expired is None ==> after.track.dtmf_ev == if before.track.remote_ssrc is Some
            && before.track.remote_ssrc->0 != packet.ssrc && packet.ssrc != t.ssrc {
            None
        } else {
            before.track.dtmf_ev
        },
        from == t.remote_addr ==> t_after.remote_addr == from && after.track.pending_remote is None,
        before.track.wf() && from != t.remote_addr ==> {
            let third = before.track.pending_remote == Some((from, 2u32));
            let second = before.track.pending_remote == Some((from, 1u32));
            &&& third ==> t_after.remote_addr == from && after.track.pending_remote is None
            &&& !third ==> t_after.remote_addr == t.remote_addr
            &&& second ==> after.track.pending_remote == Some((from, 2u32))
            &&& !third && !second ==> after.track.pending_remote == Some((from, 1u32))
        },
        t_after.ssrc == t.ssrc,
        t_after.codec == t.codec,
        t_after.seq == t.seq,
        t_after.timestamp == t.timestamp,
        t_after.dtmf_pt == t.dtmf_pt,
        t_after.ptime_ms == t.ptime_ms,
        t_after.input_sample_rate == t.input_sample_rate,
        t_after.output_sample_rate == t.output_sample_rate,
{
}

/// An address translation is kept alive twice, and a key press counts as ended, in the time that it
/// takes to lose the media.
pub proof fn keepalives_come_in_time()
    ensures
        2 * NAT_KEEPALIVE == MEDIA_TIMEOUT,
        MEDIA_TIMEOUT == 6 * DTMF_END_TIMEOUT,
        DTMF_END_TIMEOUT == 5_000_000_000,
{
}

} // verus!
