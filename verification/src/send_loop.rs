//! The sending side of a stream: one packet per tick, mixed from voice and background audio.

use crate::audio::{levels, mix, mixed, pad_partial_frame, padded, peak, silence, silent_frame, the_peak_is_the_loudest_sample, total_magnitude};
use crate::codec::Codec;
use crate::packet::wire;
use crate::transport::{Datagram, RtpTransport};
use vstd::prelude::*;

verus! {

/// Nanoseconds between two sender reports.
pub const REPORT_PERIOD: u64 = 5_000_000_000;

/// How well the background buffer was supplied since the last report.
#[derive(Clone, Copy, Debug, PartialEq, Eq, Structural)]
pub struct BgStats {
    pub empty_ticks: u32,
    pub partial_ticks: u32,
    pub full_ticks: u32,
    /// Samples taken from the buffer.
    pub sample_sum: u64,
    /// Sum of the lengths of the buffer before each tick took its samples.
    pub buf_len_sum: u64,
    pub buf_len_max: usize,
    /// Ticks whose samples were all zero.
    pub silent_ticks: u32,
    /// Ticks with a sample of magnitude above 100.
    pub loud_ticks: u32,
    /// Sum of the magnitudes of the samples taken.
    pub abs_sum: u64,
}

/// What is reported of the background buffer.
#[derive(Clone, Copy, Debug, PartialEq, Eq, Structural)]
pub struct BgHealth {
    pub ticks: u64,
    pub empty_ticks: u32,
    pub partial_ticks: u32,
    pub full_ticks: u32,
    pub drained: u64,
    pub avg_buf_ms: u128,
    pub max_buf: usize,
    pub silent_ticks: u32,
    pub loud_ticks: u32,
    pub avg_abs: u64,
}

impl BgStats {
    pub open spec fn zero() -> BgStats {
        BgStats {
            empty_ticks: 0,
            partial_ticks: 0,
            full_ticks: 0,
            sample_sum: 0,
            buf_len_sum: 0,
            buf_len_max: 0,
            silent_ticks: 0,
            loud_ticks: 0,
            abs_sum: 0,
        }
    }

    pub fn new() -> (stats: BgStats)
        ensures
            stats == BgStats::zero(),
    {
        BgStats {
            empty_ticks: 0,
            partial_ticks: 0,
            full_ticks: 0,
            sample_sum: 0,
            buf_len_sum: 0,
            buf_len_max: 0,
            silent_ticks: 0,
            loud_ticks: 0,
            abs_sum: 0,
        }
    }

    /// The counts after a tick that found `len_before` samples buffered and took `samples`, where
    /// a whole frame has `frame` samples. Counts wrap around.
    pub open spec fn after(self, len_before: usize, samples: Seq<i16>, frame: usize) -> BgStats {
        let n = samples.len();
        BgStats {
            empty_ticks: if n == 0 {
                self.empty_ticks.wrapping_add(1)
            } else {
                self.empty_ticks
            },
            partial_ticks: if 0 < n < frame {
                self.partial_ticks.wrapping_add(1)
            } else {
                self.partial_ticks
            },
            full_ticks: if 0 < n && frame <= n {
                self.full_ticks.wrapping_add(1)
            } else {
                self.full_ticks
            },
            sample_sum: self.sample_sum.wrapping_add(n as u64),
            buf_len_sum: self.buf_len_sum.wrapping_add(len_before as u64),
            buf_len_max: if len_before > self.buf_len_max {
                len_before
            } else {
                self.buf_len_max
            },
            silent_ticks: if n > 0 && peak(samples) == 0 {
                self.silent_ticks.wrapping_add(1)
            } else {
                self.silent_ticks
            },
            loud_ticks: if n > 0 && peak(samples) > 100 {
                self.loud_ticks.wrapping_add(1)
            } else {
                self.loud_ticks
            },
            abs_sum: self.abs_sum.wrapping_add(
                (total_magnitude(samples) % 0x1_0000_0000_0000_0000) as u64,
            ),
        }
    }

    pub fn record(&mut self, len_before: usize, samples: &Vec<i16>, frame: usize)
        ensures
            *final(self) == old(self).after(len_before, samples@, frame),
    {
        self.buf_len_sum = self.buf_len_sum.wrapping_add(len_before as u64);
        if len_before > self.buf_len_max {
            self.buf_len_max = len_before;
        }
        let n: usize = samples.len();
        self.sample_sum = self.sample_sum.wrapping_add(n as u64);
        if n == 0 {
            self.empty_ticks = self.empty_ticks.wrapping_add(1);
        } else if n < frame {
            self.partial_ticks = self.partial_ticks.wrapping_add(1);
        } else {
            self.full_ticks = self.full_ticks.wrapping_add(1);
        }
        let (max, sum) = levels(samples);
        self.abs_sum = self.abs_sum.wrapping_add(sum);
        if n > 0 {
            if max == 0 {
                self.silent_ticks = self.silent_ticks.wrapping_add(1);
            } else if max > 100 {
                self.loud_ticks = self.loud_ticks.wrapping_add(1);
            }
        }
    }

    pub open spec fn ticks(self) -> int {
        self.empty_ticks + self.partial_ticks + self.full_ticks
    }

    /// The report on these counts: none before the first tick.
    pub open spec fn health(self, rate: u32) -> Option<BgHealth> {
        if self.ticks() == 0 {
            None
        } else {
            Some(
                BgHealth {
                    ticks: self.ticks() as u64,
                    empty_ticks: self.empty_ticks,
                    partial_ticks: self.partial_ticks,
                    full_ticks: self.full_ticks,
                    drained: self.sample_sum,
                    avg_buf_ms: ((self.buf_len_sum as int / self.ticks()) * 1000
                        / rate as int) as u128,
                    max_buf: self.buf_len_max,
                    silent_ticks: self.silent_ticks,
                    loud_ticks: self.loud_ticks,
                    avg_abs: if self.sample_sum > 0 {
                        self.abs_sum / self.sample_sum
                    } else {
                        0
                    },
                },
            )
        }
    }

    pub fn report(&self, rate: u32) -> (health: Option<BgHealth>)
        requires
            rate > 0,
        ensures
            health == self.health(rate),
    {
        let ticks: u64 = self.empty_ticks as u64 + self.partial_ticks as u64
            + self.full_ticks as u64;
        if ticks == 0 {
            return None;
        }
        let avg_len: u64 = self.buf_len_sum / ticks;
        let avg_buf_ms: u128 = avg_len as u128 * 1000 / rate as u128;
        let avg_abs: u64 = if self.sample_sum > 0 {
            self.abs_sum / self.sample_sum
        } else {
            0
        };
        Some(
            BgHealth {
                ticks,
                empty_ticks: self.empty_ticks,
                partial_ticks: self.partial_ticks,
                full_ticks: self.full_ticks,
                drained: self.sample_sum,
                avg_buf_ms,
                max_buf: self.buf_len_max,
                silent_ticks: self.silent_ticks,
                loud_ticks: self.loud_ticks,
                avg_abs,
            },
        )
    }
}

/// What an RTCP sender report states.
#[derive(Clone, Copy, Debug, PartialEq, Eq, Structural)]
pub struct SenderReport {
    pub ssrc: u32,
    pub timestamp: u32,
    pub packets: u32,
    pub octets: u32,
}

/// The state of the send loop between two ticks.
pub struct SendLoop {
    /// Samples per frame at the rate at which audio is supplied.
    pub output_spf: usize,
    /// Samples per frame at the rate of the codec.
    pub spf: u32,
    /// Whether the next packet with audio begins a talk burst.
    pub first: bool,
    pub pkt_count: u32,
    pub octet_count: u32,
    pub stats: BgStats,
}

/// What woke the send loop.
#[derive(Clone, Copy, Debug, PartialEq, Eq, Structural)]
pub enum Wake {
    Cancelled,
    ReportDue,
    FrameDue,
}

/// What the send loop does on waking.
#[derive(Clone, Copy, Debug, PartialEq, Eq, Structural)]
pub enum OnWake {
    Stop,
    /// Nothing but the report is sent.
    Report { sender: SenderReport, health: Option<BgHealth> },
    Frame,
}

/// A tick after the background audio was taken.
pub struct Tick {
    pub ts: u32,
    /// The background frame, padded.
    pub bg: Vec<i16>,
}

/// What one tick records and sends.
pub struct Outgoing {
    pub ts: u32,
    /// The samples for the recording of the agent's side: a whole frame in every tick.
    pub recorded: Vec<i16>,
    /// Whether the recorded samples go on the wire; silence goes there otherwise.
    pub audible: bool,
    pub paused: bool,
    pub has_voice: bool,
    pub has_bg: bool,
}

impl Outgoing {
    /// Whether the tick is part of a talk burst. Background audio in a pause is not.
    pub open spec fn speaks(self) -> bool {
        self.audible && !self.paused
    }

    /// Whether the tick ends a talk burst: neither voice nor background flowed, and the voice has
    /// run empty.
    pub open spec fn rests(self, voice_empty: bool) -> bool {
        !self.paused && voice_empty && !self.has_voice && !self.has_bg
    }
}

/// Whether the next packet with audio begins a talk burst, after a run of ticks from the beginning
/// of a stream. With each tick stands whether it found the voice buffer empty at its end. This is
/// what [`SendLoop::packet`] and [`SendLoop::finish`] make of `first`.
pub open spec fn armed(ticks: Seq<(Outgoing, bool)>) -> bool
    decreases ticks.len(),
{
    if ticks.len() == 0 {
        true
    } else {
        let (out, voice_empty) = ticks.last();
        (armed(ticks.drop_last()) && !out.speaks()) || out.rests(voice_empty)
    }
}

/// Whether the packet of the tick at position `i` is marked.
pub open spec fn is_marked(ticks: Seq<(Outgoing, bool)>, i: int) -> bool {
    ticks[i].0.speaks() && armed(ticks.take(i))
}

/// Whether a tick between `from` and `to` ended a talk burst.
pub open spec fn rested_between(ticks: Seq<(Outgoing, bool)>, from: int, to: int) -> bool {
    exists|k: int| from <= k < to && (#[trigger] ticks[k]).0.rests(ticks[k].1)
}

/// The samples of a tick that sends voice over background: the mix where both are there, else
/// whichever is there, padded to a frame.
pub open spec fn voice_samples(voice: Seq<i16>, bg: Seq<i16>, frame: nat) -> Seq<i16> {
    if voice.len() > 0 && bg.len() > 0 {
        padded(mixed(voice, bg), frame)
    } else if voice.len() > 0 {
        padded(voice, frame)
    } else {
        padded(bg, frame)
    }
}

/// What is recorded of the samples of a tick: a frame of silence where there are none.
pub open spec fn recording(samples: Seq<i16>, frame: nat) -> Seq<i16> {
    if samples.len() > 0 {
        samples
    } else {
        silence(frame)
    }
}

impl RtpTransport {
    /// The send loop of this stream, before its first tick.
    pub fn start_send_loop(&self) -> (l: SendLoop)
        requires
            self.frames_fit(),
        ensures
            l == (SendLoop {
                output_spf: (self.output_sample_rate * self.ptime_ms / 1000) as usize,
                spf: self.spec_spf() as u32,
                first: true,
                pkt_count: 0,
                octet_count: 0,
                stats: BgStats::zero(),
            }),
    {
        let frame: u32 = self.output_sample_rate * self.ptime_ms / 1000;
        SendLoop {
            output_spf: frame as usize,
            spf: self.spf(),
            first: true,
            pkt_count: 0,
            octet_count: 0,
            stats: BgStats::new(),
        }
    }
}

impl SendLoop {
    /// The report that falls due every few seconds. The counts on the background buffer begin anew.
    pub fn report(&mut self, t: &RtpTransport) -> (r: (SenderReport, Option<BgHealth>))
        requires
            t.output_sample_rate > 0,
        ensures
            r.0 == (SenderReport {
                ssrc: t.ssrc,
                timestamp: t.timestamp,
                packets: old(self).pkt_count,
                octets: old(self).octet_count,
            }),
            r.1 == old(self).stats.health(t.output_sample_rate),
            *final(self) == (SendLoop { stats: BgStats::zero(), ..*old(self) }),
    {
        let sender = SenderReport {
            ssrc: t.ssrc,
            timestamp: t.timestamp,
            packets: self.pkt_count,
            octets: self.octet_count,
        };
        let health = self.stats.report(t.output_sample_rate);
        self.stats = BgStats::new();
        (sender, health)
    }

    /// What to do on waking. A report that is due sends no frame: frames go out at the pace of the
    /// codec alone, or the stream and the recording would run ahead of the clock.
    pub fn wake(&mut self, t: &RtpTransport, wake: Wake) -> (todo: OnWake)
        requires
            t.output_sample_rate > 0,
        ensures
            todo == (match wake {
                Wake::Cancelled => OnWake::Stop,
                Wake::ReportDue => OnWake::Report {
                    sender: SenderReport {
                        ssrc: t.ssrc,
                        timestamp: t.timestamp,
                        packets: old(self).pkt_count,
                        octets: old(self).octet_count,
                    },
                    health: old(self).stats.health(t.output_sample_rate),
                },
                Wake::FrameDue => OnWake::Frame,
            }),
            *final(self) == (if wake == Wake::ReportDue {
                SendLoop { stats: BgStats::zero(), ..*old(self) }
            } else {
                *old(self)
            }),
    {
        match wake {
            Wake::Cancelled => OnWake::Stop,
            Wake::ReportDue => {
                let (sender, health) = self.report(t);
                OnWake::Report { sender, health }
            },
            Wake::FrameDue => OnWake::Frame,
        }
    }

    /// Begins a tick: moves the timestamp on by one frame and takes the background audio, which
    /// flows whether the voice is paused or not. `bg_len` samples were buffered before `bg` was
    /// taken.
    pub fn begin(&mut self, t: &mut RtpTransport, bg_len: usize, bg: Vec<i16>) -> (tick: Tick)
        ensures
            tick.ts == old(t).timestamp,
            tick.bg@ == padded(bg@, old(self).output_spf as nat),
            *final(t) == (RtpTransport {
                timestamp: old(t).timestamp.wrapping_add(old(self).spf),
                ..*old(t)
            }),
            *final(self) == (SendLoop {
                stats: old(self).stats.after(bg_len, bg@, old(self).output_spf),
                ..*old(self)
            }),
    {
        let ts: u32 = t.timestamp;
        t.timestamp = ts.wrapping_add(self.spf);
        self.stats.record(bg_len, &bg, self.output_spf);
        Tick { ts, bg: pad_partial_frame(bg, self.output_spf) }
    }

    /// A tick while the voice is paused: the background alone. No voice is taken.
    pub fn paused_frame(&self, tick: Tick) -> (out: Outgoing)
        ensures
            out.ts == tick.ts,
            out.recorded@ == recording(tick.bg@, self.output_spf as nat),
            out.audible == (tick.bg@.len() > 0),
            out.paused,
            !out.has_voice,
            out.has_bg == (tick.bg@.len() > 0),
    {
        let has_bg: bool = !tick.bg.is_empty();
        let recorded = if has_bg {
            tick.bg
        } else {
            silent_frame(self.output_spf)
        };
        Outgoing {
            ts: tick.ts,
            recorded,
            audible: has_bg,
            paused: true,
            has_voice: false,
            has_bg,
        }
    }

    /// A tick with the voice that was taken: voice over background, recorded even where it is
    /// muted on the wire.
    pub fn voice_frame(&self, tick: Tick, voice: Vec<i16>, muted: bool) -> (out: Outgoing)
        ensures
            out.ts == tick.ts,
            out.recorded@ == recording(
                voice_samples(voice@, tick.bg@, self.output_spf as nat),
                self.output_spf as nat,
            ),
            out.audible == (!muted && (voice@.len() > 0 || tick.bg@.len() > 0)),
            !out.paused,
            out.has_voice == (voice@.len() > 0),
            out.has_bg == (tick.bg@.len() > 0),
    {
        let has_voice: bool = !voice.is_empty();
        let has_bg: bool = !tick.bg.is_empty();
        let samples = if has_voice && has_bg {
            mix(&voice, &tick.bg)
        } else if has_voice {
            voice
        } else {
            tick.bg
        };
        let samples = pad_partial_frame(samples, self.output_spf);
        let some: bool = !samples.is_empty();
        let recorded = if some {
            samples
        } else {
            silent_frame(self.output_spf)
        };
        Outgoing {
            ts: tick.ts,
            recorded,
            audible: some && !muted,
            paused: false,
            has_voice,
            has_bg,
        }
    }

    /// The payload of a tick. `resampled` holds the recorded samples brought to the rate of the
    /// codec, where that differs from the rate at which audio is supplied.
    pub open spec fn payload(
        &self,
        codec: Codec,
        out: Outgoing,
        resampled: Option<Vec<i16>>,
    ) -> Seq<u8> {
        if out.audible {
            codec.encoded(
                match resampled {
                    Some(r) => r@,
                    None => out.recorded@,
                },
            )
        } else {
            Seq::new(self.spf as nat, |i: int| codec.spec_silence_byte())
        }
    }

    /// Writes the packet of a tick. The first packet of a talk burst is marked; background audio
    /// in a pause begins no burst, and silence in a pause is not counted in octets.
    pub fn packet(
        &mut self,
        t: &mut RtpTransport,
        out: &Outgoing,
        resampled: Option<Vec<i16>>,
    ) -> (r: Result<Datagram, String>)
        ensures
            ({
                let payload = old(self).payload(old(t).codec, *out, resampled);
                &&& r is Ok
                &&& r->Ok_0.to == old(t).remote_addr
                &&& r->Ok_0.bytes@ == wire(
                    out.speaks() && old(self).first,
                    old(t).codec.spec_payload_type(),
                    old(t).seq,
                    out.ts,
                    old(t).ssrc,
                    payload,
                )
                &&& *final(self) == (SendLoop {
                    first: old(self).first && !out.speaks(),
                    pkt_count: old(self).pkt_count.wrapping_add(1),
                    octet_count: if out.paused && !out.audible {
                        old(self).octet_count
                    } else {
                        old(self).octet_count.wrapping_add(payload.len() as u32)
                    },
                    ..*old(self)
                })
            }),
            *final(t) == (RtpTransport { seq: old(t).seq.wrapping_add(1), ..*old(t) }),
            carries(r->Ok_0.bytes@, old(t).codec, old(self).spf, *out, resampled),
    {
        proof {
            what_is_heard_goes_on_the_wire(
                *self,
                t.codec,
                *out,
                resampled,
                out.speaks() && self.first,
                t.seq,
                t.ssrc,
            );
        }
        let ghost expected = self.payload(t.codec, *out, resampled);
        let mut marker: bool = false;
        let payload: Vec<u8> = if out.audible {
            let payload = match resampled {
                Some(samples) => t.codec.encode(&samples),
                None => t.codec.encode(&out.recorded),
            };
            if !out.paused {
                marker = self.first;
                self.first = false;
            }
            payload
        } else {
            vec![t.codec.silence_byte(); self.spf as usize]
        };
        assert(payload@ =~= expected);
        if !out.paused || out.audible {
            self.octet_count = self.octet_count.wrapping_add(payload.len() as u32);
        }
        self.pkt_count = self.pkt_count.wrapping_add(1);
        t.send(t.codec.payload_type(), out.ts, marker, payload)
    }

    /// Ends a tick. `voice_empty` tells whether the voice buffer has run empty; whoever waits for
    /// the voice to be played out is then to be notified, background audio or not. The next talk
    /// burst begins with a marked packet once neither voice nor background was flowing.
    pub fn finish(&mut self, out: &Outgoing, voice_empty: bool) -> (played_out: bool)
        ensures
            played_out == (!out.paused && voice_empty),
            *final(self) == (SendLoop {
                first: old(self).first || out.rests(voice_empty),
                ..*old(self)
            }),
    {
        if out.paused || !voice_empty {
            return false;
        }
        if !out.has_voice && !out.has_bg {
            self.first = true;
        }
        true
    }
}

/// A talk burst can begin exactly when every tick that spoke was followed by one that rested.
proof fn armed_when_rested(ticks: Seq<(Outgoing, bool)>)
    ensures
        armed(ticks) <==> forall|j: int|
            0 <= j < ticks.len() && (#[trigger] ticks[j]).0.speaks() ==> rested_between(
                ticks,
                j,
                ticks.len() as int,
            ),
    decreases ticks.len(),
{
    if ticks.len() > 0 {
        let before = ticks.drop_last();
        let n = before.len() as int;
        armed_when_rested(before);
        assert forall|j: int| 0 <= j <= n implies (rested_between(ticks, j, n + 1) <==> (
        rested_between(before, j, n) || ticks[n].0.rests(ticks[n].1))) by {
            if rested_between(before, j, n) {
                let k = choose|k: int| j <= k < n && (#[trigger] before[k]).0.rests(before[k].1);
                assert(ticks[k] == before[k]);
            }
            if rested_between(ticks, j, n + 1) {
                let k = choose|k: int|
                    j <= k < n + 1 && (#[trigger] ticks[k]).0.rests(ticks[k].1);
                if k < n {
                    assert(before[k] == ticks[k]);
                }
            }
        }
        if armed(ticks) {
            assert forall|j: int|
                0 <= j < ticks.len() && (#[trigger] ticks[j]).0.speaks() implies rested_between(
                ticks,
                j,
                ticks.len() as int,
            ) by {
                if j < n {
                    assert(before[j] == ticks[j]);
                }
            }
        } else {
            if ticks[n].0.speaks() {
                assert(!rested_between(before, n, n));
                assert(!rested_between(ticks, n, n + 1));
            } else {
                let j = choose|j: int|
                    0 <= j < before.len() && (#[trigger] before[j]).0.speaks() && !rested_between(
                        before,
                        j,
                        n,
                    );
                assert(ticks[j].0.speaks());
                assert(!rested_between(ticks, j, n + 1));
            }
        }
    }
}

/// The first packet of a talk burst is marked, and no other: the packet of a tick is marked exactly
/// when it speaks and every tick before it that spoke was followed, before this one, by a tick that
/// rested.
pub proof fn only_the_first_packet_of_a_burst_is_marked(ticks: Seq<(Outgoing, bool)>, i: int)
    requires
        0 <= i < ticks.len(),
    ensures
        is_marked(ticks, i) <==> ticks[i].0.speaks() && forall|j: int|
            0 <= j < i && (#[trigger] ticks[j]).0.speaks() ==> rested_between(ticks, j, i),
{
    let before = ticks.take(i);
    armed_when_rested(before);
    assert forall|j: int| 0 <= j <= i implies rested_between(before, j, i) == rested_between(
        ticks,
        j,
        i,
    ) by {
        if rested_between(before, j, i) {
            let k = choose|k: int| j <= k < i && (#[trigger] before[k]).0.rests(before[k].1);
            assert(ticks[k] == before[k]);
        }
        if rested_between(ticks, j, i) {
            let k = choose|k: int| j <= k < i && (#[trigger] ticks[k]).0.rests(ticks[k].1);
            assert(before[k] == ticks[k]);
        }
    }
    assert(forall|j: int| 0 <= j < i ==> before[j] == #[trigger] ticks[j]);
}

/// How many frames fell due in a run of wakings.
pub open spec fn frames_due(wakes: Seq<Wake>) -> nat
    decreases wakes.len(),
{
    if wakes.len() == 0 {
        0
    } else {
        frames_due(wakes.drop_last()) + if wakes.last() == Wake::FrameDue {
            1nat
        } else {
            0nat
        }
    }
}

/// The timestamp of a stream after a run of wakings, each answered as [`SendLoop::wake`] says: a
/// frame moves it on by `spf`, as [`SendLoop::begin`] does, and nothing else moves it.
pub open spec fn clock_after(ts: u32, spf: u32, wakes: Seq<Wake>) -> u32
    decreases wakes.len(),
{
    if wakes.len() == 0 {
        ts
    } else if wakes.last() == Wake::FrameDue {
        clock_after(ts, spf, wakes.drop_last()).wrapping_add(spf)
    } else {
        clock_after(ts, spf, wakes.drop_last())
    }
}

/// The timestamp moves on by exactly one frame for each frame that fell due, however many reports
/// fell due among them.
pub proof fn reports_do_not_move_the_clock(ts: u32, spf: u32, wakes: Seq<Wake>)
    ensures
        clock_after(ts, spf, wakes) == (ts + spf * frames_due(wakes)) % 0x1_0000_0000,
    decreases wakes.len(),
{
    if wakes.len() > 0 {
        let before = wakes.drop_last();
        reports_do_not_move_the_clock(ts, spf, before);
        let n = frames_due(before);
        let total = ts + spf * n;
        assert(spf * (n + 1) == spf * n + spf) by (nonlinear_arith);
        assert(total >= 0) by (nonlinear_arith)
            requires
                total == ts + spf * n,
        ;
        vstd::arithmetic::div_mod::lemma_add_mod_noop(total, spf as int, 0x1_0000_0000);
    } else {
        assert(spf * frames_due(wakes) == 0) by (nonlinear_arith)
            requires
                frames_due(wakes) == 0,
        ;
    }
}

/// Every tick records exactly one frame, paused or not, so the recording of the agent's side stays
/// aligned with the peer's. The buffers hand out at most one frame per tick.
pub proof fn every_tick_records_one_frame(voice: Seq<i16>, bg: Seq<i16>, frame: nat)
    requires
        voice.len() <= frame,
        bg.len() <= frame,
    ensures
        recording(padded(bg, frame), frame).len() == frame,
        recording(voice_samples(voice, padded(bg, frame), frame), frame).len() == frame,
{
}

/// Where audio is supplied at the rate of the codec, every packet carries exactly as many samples
/// as the timestamp moves on by.
pub proof fn every_packet_spans_one_frame(
    t: RtpTransport,
    l: SendLoop,
    out: Outgoing,
    voice: Seq<i16>,
    bg: Seq<i16>,
)
    requires
        t.frames_fit(),
        t.output_sample_rate == 8000,
        l.spf == t.spec_spf(),
        l.output_spf == t.output_sample_rate * t.ptime_ms / 1000,
        voice.len() <= l.output_spf,
        bg.len() <= l.output_spf,
        out.recorded@ == recording(padded(bg, l.output_spf as nat), l.output_spf as nat)
            || out.recorded@ == recording(
            voice_samples(voice, padded(bg, l.output_spf as nat), l.output_spf as nat),
            l.output_spf as nat,
        ),
    ensures
        l.payload(t.codec, out, None).len() == l.spf,
{
}

/// Whether the bytes of a packet, after the twelve of its header, are what a tick puts on the wire:
/// where it is audible, the code of each sample in its place, those of the resampled ones where
/// there are any, else those that are recorded; otherwise a frame of the code of silence.
pub open spec fn carries(
    bytes: Seq<u8>,
    codec: Codec,
    spf: u32,
    out: Outgoing,
    resampled: Option<Vec<i16>>,
) -> bool {
    &&& out.audible && resampled is Some ==> {
        &&& bytes.len() == 12 + resampled->0@.len()
        &&& forall|i: int|
            0 <= i < resampled->0@.len() ==> #[trigger] bytes[12 + i] == codec.code(
                resampled->0@[i],
            )
    }
    &&& out.audible && resampled is None ==> {
        &&& bytes.len() == 12 + out.recorded@.len()
        &&& forall|i: int|
            0 <= i < out.recorded@.len() ==> #[trigger] bytes[12 + i] == codec.code(
                out.recorded@[i],
            )
    }
    &&& !out.audible ==> {
        &&& bytes.len() == 12 + spf
        &&& forall|i: int| 0 <= i < spf ==> #[trigger] bytes[12 + i] == codec.code(0)
    }
}

/// What is to be heard goes on the wire, and nothing else: on the bytes of the packet that a tick
/// sends, after the twelve of its header, the code of every resampled sample stands in its place;
/// where nothing was resampled, that of every recorded sample; and in a tick that is not audible the
/// code of silence, for one frame.
pub proof fn what_is_heard_goes_on_the_wire(
    l: SendLoop,
    codec: Codec,
    out: Outgoing,
    resampled: Option<Vec<i16>>,
    marker: bool,
    seq: u16,
    ssrc: u32,
)
    ensures
        ({
            let bytes = wire(
                marker,
                codec.spec_payload_type(),
                seq,
                out.ts,
                ssrc,
                l.payload(codec, out, resampled),
            );
            &&& carries(bytes, codec, l.spf, out, resampled)
            &&& out.audible && resampled is Some ==> {
                &&& bytes.len() == 12 + resampled->0@.len()
                &&& forall|i: int|
                    0 <= i < resampled->0@.len() ==> #[trigger] bytes[12 + i] == codec.code(
                        resampled->0@[i],
                    )
            }
            &&& out.audible && resampled is None ==> {
                &&& bytes.len() == 12 + out.recorded@.len()
                &&& forall|i: int|
                    0 <= i < out.recorded@.len() ==> #[trigger] bytes[12 + i] == codec.code(
                        out.recorded@[i],
                    )
            }
            &&& !out.audible ==> {
                &&& bytes.len() == 12 + l.spf
                &&& forall|i: int| 0 <= i < l.spf ==> #[trigger] bytes[12 + i] == codec.code(0)
            }
        }),
{
    codec.the_silence_byte_is_the_code_of_silence();
}

/// A tick that has audio sends at least a whole frame, in which voice and background are heard at
/// once: where both have a sample their sum, or the nearest sample to it, where one has a sample that
/// one, and silence behind both. It is as long as the longest of the three.
pub proof fn voice_is_heard_over_the_background(
    voice: Seq<i16>,
    bg: Seq<i16>,
    frame: nat,
    i: int,
)
    requires
        voice.len() > 0 || bg.len() > 0,
        0 <= i < voice_samples(voice, bg, frame).len(),
    ensures
        ({
            let heard = voice_samples(voice, bg, frame);
            let v: int = if i < voice.len() {
                voice[i] as int
            } else {
                0
            };
            let b: int = if i < bg.len() {
                bg[i] as int
            } else {
                0
            };
            &&& heard.len() >= frame
            &&& heard.len() >= voice.len()
            &&& heard.len() >= bg.len()
            &&& heard.len() == frame || heard.len() == voice.len() || heard.len() == bg.len()
            &&& -32768 <= v + b <= 32767 ==> heard[i] == v + b
            &&& v + b > 32767 ==> heard[i] == 32767
            &&& v + b < -32768 ==> heard[i] == -32768
        }),
{
}

/// What is recorded of a tick is what it has to say, and a frame of silence where it has nothing to
/// say.
pub proof fn the_recording_has_what_was_said(samples: Seq<i16>, frame: nat)
    ensures
        samples.len() > 0 ==> recording(samples, frame) == samples,
        samples.len() == 0 ==> recording(samples, frame).len() == frame,
        samples.len() == 0 ==> forall|i: int|
            0 <= i < frame ==> #[trigger] recording(samples, frame)[i] == 0,
        voice_samples(Seq::empty(), Seq::empty(), frame).len() == 0,
{
}

/// A tick speaks when it is audible and not paused. It rests when it is not paused, there was
/// neither voice nor background, and the voice has run empty. A tick whose audio was drawn from what
/// flowed never does both.
pub proof fn a_tick_speaks_or_rests(out: Outgoing, voice_empty: bool)
    ensures
        out.speaks() <==> out.audible && !out.paused,
        out.rests(voice_empty) <==> voice_empty && !out.paused && !out.has_voice && !out.has_bg,
        (out.audible ==> out.has_voice || out.has_bg) ==> !(out.speaks() && out.rests(voice_empty)),
{
}

impl BgStats {
    /// Every tick is counted once, as empty, partial or full, with its samples, the length of the
    /// buffer before it, and their level. Counts go around at the end of their range.
    pub proof fn every_tick_is_counted_once(
        self,
        len_before: usize,
        samples: Seq<i16>,
        frame: usize,
    )
        requires
            samples.len() <= usize::MAX,
        ensures
            ({
                let after = self.after(len_before, samples, frame);
                let empty: int = if samples.len() == 0 {
                    1
                } else {
                    0
                };
                let full: int = if samples.len() > 0 && samples.len() >= frame {
                    1
                } else {
                    0
                };
                let silent: int = if samples.len() > 0 && (forall|i: int|
                    0 <= i < samples.len() ==> #[trigger] samples[i] == 0) {
                    1
                } else {
                    0
                };
                let loud: int = if exists|i: int|
                    0 <= i < samples.len() && (#[trigger] samples[i] > 100 || samples[i] < -100) {
                    1
                } else {
                    0
                };
                &&& after.empty_ticks == (self.empty_ticks + empty) % 0x1_0000_0000
                &&& after.full_ticks == (self.full_ticks + full) % 0x1_0000_0000
                &&& after.partial_ticks == (self.partial_ticks + (1 - empty - full))
                    % 0x1_0000_0000
                &&& after.silent_ticks == (self.silent_ticks + silent) % 0x1_0000_0000
                &&& after.loud_ticks == (self.loud_ticks + loud) % 0x1_0000_0000
                &&& after.sample_sum == (self.sample_sum + samples.len())
                    % 0x1_0000_0000_0000_0000
                &&& after.buf_len_sum == (self.buf_len_sum + len_before)
                    % 0x1_0000_0000_0000_0000
                &&& after.abs_sum == (self.abs_sum + total_magnitude(samples))
                    % 0x1_0000_0000_0000_0000
                &&& after.buf_len_max >= self.buf_len_max
                &&& after.buf_len_max >= len_before
                &&& after.buf_len_max == self.buf_len_max || after.buf_len_max == len_before
            }),
    {
        the_peak_is_the_loudest_sample(samples);
        total_is_positive(samples);
        if samples.len() > 0 {
            let k = choose|i: int|
                0 <= i < samples.len() && ((#[trigger] samples[i]) == peak(samples) || samples[i]
                    == -peak(samples));
            assert(samples[k] == peak(samples) || samples[k] == -peak(samples));
        }
    }

    /// The report passes the counts on, and its averages are what was summed over what was counted.
    pub proof fn the_report_averages_what_was_counted(self, rate: u32)
        requires
            rate > 0,
        ensures
            self.health(rate) is None <==> self.empty_ticks == 0 && self.partial_ticks == 0
                && self.full_ticks == 0,
            self.ticks() == self.empty_ticks + self.partial_ticks + self.full_ticks,
            self.health(rate) matches Some(h) ==> {
                &&& h.ticks == self.empty_ticks + self.partial_ticks + self.full_ticks
                &&& h.empty_ticks == self.empty_ticks
                &&& h.partial_ticks == self.partial_ticks
                &&& h.full_ticks == self.full_ticks
                &&& h.silent_ticks == self.silent_ticks
                &&& h.loud_ticks == self.loud_ticks
                &&& h.drained == self.sample_sum
                &&& h.max_buf == self.buf_len_max
                &&& h.avg_buf_ms == self.buf_len_sum as int / self.ticks() * 1000 / rate as int
                &&& self.sample_sum == 0 ==> h.avg_abs == 0
                &&& self.sample_sum > 0 ==> h.avg_abs * self.sample_sum <= self.abs_sum < (
                h.avg_abs + 1) * self.sample_sum
            },
    {
        if self.ticks() > 0 {
            let mean = self.buf_len_sum as int / self.ticks();
            vstd::arithmetic::div_mod::lemma_div_is_ordered_by_denominator(
                self.buf_len_sum as int,
                1,
                self.ticks(),
            );
            vstd::arithmetic::div_mod::lemma_div_is_ordered_by_denominator(
                mean * 1000,
                1,
                rate as int,
            );
            vstd::arithmetic::div_mod::lemma_div_pos_is_pos(self.buf_len_sum as int, self.ticks());
            vstd::arithmetic::div_mod::lemma_div_pos_is_pos(mean * 1000, rate as int);
        }
        if self.sample_sum > 0 {
            let q = (self.abs_sum / self.sample_sum) as int;
            vstd::arithmetic::div_mod::lemma_fundamental_div_mod(
                self.abs_sum as int,
                self.sample_sum as int,
            );
            assert(q * self.sample_sum == self.sample_sum * q) by (nonlinear_arith);
            assert((q + 1) * self.sample_sum == q * self.sample_sum + self.sample_sum)
                by (nonlinear_arith);
        }
    }
}

proof fn total_is_positive(s: Seq<i16>)
    ensures
        total_magnitude(s) >= 0,
    decreases s.len(),
{
    if s.len() > 0 {
        total_is_positive(s.drop_last());
    }
}

impl BgStats {
    /// Before the first tick nothing is counted.
    pub proof fn nothing_is_counted_at_first(rate: u32)
        ensures
            BgStats::zero().health(rate) is None,
            BgStats::zero().sample_sum == 0,
            BgStats::zero().buf_len_sum == 0,
            BgStats::zero().buf_len_max == 0,
            BgStats::zero().silent_ticks == 0,
            BgStats::zero().loud_ticks == 0,
            BgStats::zero().abs_sum == 0,
            BgStats::zero().ticks() == 0,
    {
    }
}

} // verus!
