use sip_transport::codec::Codec;
use sip_transport::event::EndpointEvent;
use sip_transport::packet::{header_extension_fits, RtpPacket};
use sip_transport::recv_loop::{BeepOutcome, DtmfTransition, Received, RecvLoop};
use sip_transport::send_loop::{BgStats, OnWake, SendLoop, Wake, REPORT_PERIOD};
use sip_transport::session::{CallDirection, CallSession};
use sip_transport::transport::{IpAddress, NetAddr, RtpTransport};

const SECOND: u64 = 1_000_000_000;

fn peer() -> NetAddr {
    NetAddr::V4 { ip: 0x0a00_0002, port: 4000 }
}

fn elsewhere() -> NetAddr {
    NetAddr::V4 { ip: 0x0a00_0003, port: 4002 }
}

fn stream() -> RtpTransport {
    RtpTransport::with_ssrc(0x1122_3344, peer(), Codec::PCMU, 101, 20, 16000, 8000)
}

fn receiver(t: &RtpTransport) -> RecvLoop {
    t.start_recv_loop("c1".to_string(), CallSession::new("c1".to_string(), CallDirection::Inbound), 0)
}

fn packet(payload_type: u8, ssrc: u32, payload: Vec<u8>) -> RtpPacket {
    RtpPacket { version: 2, marker: false, payload_type, sequence_number: 1, timestamp: 2, ssrc, payload }
}

fn datagram(payload_type: u8, ssrc: u32, payload: &[u8]) -> Vec<u8> {
    let mut b = vec![0x80, payload_type, 0, 1, 0, 0, 0, 2];
    b.extend_from_slice(&ssrc.to_be_bytes());
    b.extend_from_slice(payload);
    b
}

fn tick(l: &mut SendLoop, t: &mut RtpTransport, voice: Vec<i16>, bg: Vec<i16>, muted: bool) -> Vec<u8> {
    let n = bg.len();
    let tick = l.begin(t, n, bg);
    let out = l.voice_frame(tick, voice, muted);
    let bytes = l.packet(t, &out, None).unwrap().bytes;
    l.finish(&out, true);
    bytes
}

#[test]
fn packets_are_written_in_network_order() {
    let mut t = stream();
    t.seq = 0x0102;
    let d = t.send(0, 0xa1b2_c3d4, true, vec![9, 8]).unwrap();
    assert_eq!(d.to, peer());
    assert_eq!(d.bytes, vec![0x80, 0x80, 1, 2, 0xa1, 0xb2, 0xc3, 0xd4, 0x11, 0x22, 0x33, 0x44, 9, 8]);
    assert_eq!(t.seq, 0x0103);
}

#[test]
fn sequence_numbers_wrap() {
    let mut t = stream();
    t.seq = u16::MAX;
    let _ = t.send(0, 0, false, vec![]);
    assert_eq!(t.seq, 0);
}

#[test]
fn reading_gives_back_what_was_written() {
    let mut t = stream();
    let sent = t.send(101, 77, true, vec![1, 2, 3]).unwrap().bytes;
    let mut other = RtpTransport::with_ssrc(5, peer(), Codec::PCMU, 101, 20, 8000, 8000);
    let mut l = receiver(&other);
    match l.on_datagram(&mut other, &sent, peer(), false, 7) {
        Received::TelephoneEvent { payload } => assert_eq!(payload, vec![1, 2, 3]),
        _ => panic!("no telephone event"),
    }
    assert_eq!(l.track.remote_ssrc, Some(0x1122_3344));
    assert_eq!(l.track.last_rtp, 7);
}

#[test]
fn what_is_sent_is_heard() {
    let mut t = RtpTransport::with_ssrc(5, peer(), Codec::PCMA, 101, 1, 8000, 8000);
    let mut l = t.start_send_loop();
    let voice: Vec<i16> = vec![0, 1000, -1000, 8000, -8000, 32767, -32768, 17];
    let sent = tick(&mut l, &mut t, voice.clone(), vec![], false);
    let mut other = RtpTransport::with_ssrc(6, peer(), Codec::PCMA, 101, 1, 8000, 8000);
    let mut r = receiver(&other);
    match r.on_datagram(&mut other, &sent, peer(), false, 0) {
        Received::Media { samples: Some(heard), .. } => {
            assert_eq!(heard, Codec::PCMA.decode(&Codec::PCMA.encode(&voice)));
            assert_eq!(heard.len(), voice.len());
            for (s, d) in voice.iter().zip(heard) {
                assert!((*s as i32 - d as i32).abs() < (s.unsigned_abs() as i32 / 10).max(100));
            }
        },
        _ => panic!("no audio"),
    }
}

#[test]
fn source_identifiers_are_drawn_at_random() {
    let mut seen: Vec<u32> = Vec::new();
    for _ in 0..4 {
        seen.push(RtpTransport::new(peer(), Codec::PCMA, 96, 20, 8000, 8000).ssrc);
    }
    seen.dedup();
    assert!(seen.len() > 1);
}

#[test]
fn a_new_stream_starts_at_zero() {
    let t = RtpTransport::new(peer(), Codec::PCMA, 96, 30, 16000, 24000);
    assert_eq!((t.seq, t.timestamp, t.dtmf_pt, t.ptime_ms), (0, 0, 96, 30));
    assert_eq!((t.input_sample_rate, t.output_sample_rate), (16000, 24000));
    assert_eq!(t.remote(), peer());
    assert_eq!(t.spf(), 240);
}

#[test]
fn addresses_are_made_of_ip_and_port() {
    let v4 = NetAddr::new(IpAddress::V4 { ip: 9 }, 10);
    assert_eq!(v4, NetAddr::V4 { ip: 9, port: 10 });
    let v6 = NetAddr::new(IpAddress::V6 { ip6: 1 }, 2);
    assert_eq!(v6, NetAddr::V6 { ip6: 1, port: 2, flow: 0, scope: 0 });
    assert_eq!(v6.ip(), IpAddress::V6 { ip6: 1 });
    assert_eq!((v4.port(), v6.port()), (10, 2));
}

#[test]
fn a_key_press_of_200_ms_takes_fourteen_packets() {
    let burst = stream().send_dtmf_event(Some(5), 200);
    let all: Vec<_> = (0..20).filter_map(|i| burst.packet(i)).collect();
    assert_eq!(all.len(), 14);
    assert_eq!(burst.payload_type, 101);
    let durations: Vec<u16> = all.iter().map(|p| p.duration).collect();
    assert_eq!(durations, vec![0, 160, 320, 480, 640, 800, 960, 1120, 1280, 1440, 1600, 1600, 1600, 1600]);
    assert!(all.iter().all(|p| p.event == 5 && p.volume == 10));
    assert!(all[0].marker && all[1..].iter().all(|p| !p.marker));
    assert!(all[11..].iter().all(|p| p.end) && all[..11].iter().all(|p| !p.end));
}

#[test]
fn a_key_press_is_at_least_one_step_and_at_most_a_word_long() {
    let short = stream().send_dtmf_event(None, 5);
    assert_eq!((short.event, short.steps, short.duration), (0, 1, 40));
    let long = stream().send_dtmf_event(Some(1), 10_000);
    assert_eq!(long.duration, u16::MAX);
    assert_eq!(long.packet(500).unwrap().duration, u16::MAX);
    assert_eq!(stream().send_dtmf_event(Some(1), u32::MAX).duration, u16::MAX);
}

#[test]
fn the_first_packet_of_a_talk_burst_is_marked() {
    let mut t = stream();
    let mut l = t.start_send_loop();
    let first = tick(&mut l, &mut t, vec![100; 160], vec![], false);
    let second = tick(&mut l, &mut t, vec![100; 160], vec![], false);
    assert_eq!(first[1], 0x80);
    assert_eq!(second[1], 0x00);
    let silent = tick(&mut l, &mut t, vec![], vec![], false);
    assert_eq!(silent[1], 0x00);
    let again = tick(&mut l, &mut t, vec![100; 160], vec![], false);
    assert_eq!(again[1], 0x80);
}

#[test]
fn timestamps_move_on_by_one_frame() {
    let mut t = stream();
    t.timestamp = u32::MAX - 59;
    let mut l = t.start_send_loop();
    let b = tick(&mut l, &mut t, vec![], vec![], false);
    assert_eq!(&b[4..8], &(u32::MAX - 59).to_be_bytes());
    assert_eq!(t.timestamp, 100);
}

#[test]
fn every_packet_carries_one_frame() {
    let mut t = stream();
    let mut l = t.start_send_loop();
    for (voice, bg) in [(0, 0), (10, 0), (0, 10), (160, 10), (10, 160), (160, 160)] {
        let b = tick(&mut l, &mut t, vec![1; voice], vec![1; bg], false);
        assert_eq!(b.len(), 12 + 160);
    }
}

#[test]
fn voice_is_mixed_with_background() {
    let mut t = stream();
    let mut l = t.start_send_loop();
    let tick = l.begin(&mut t, 2, vec![1, 1]);
    let out = l.voice_frame(tick, vec![10, 20, 30], false);
    assert_eq!(&out.recorded[..4], &[11, 21, 30, 0]);
    assert_eq!(out.recorded.len(), 160);
    assert!(out.audible && out.has_voice && out.has_bg);
}

#[test]
fn a_muted_frame_is_recorded_and_sent_as_silence() {
    let mut t = stream();
    let mut l = t.start_send_loop();
    let tick = l.begin(&mut t, 0, vec![]);
    let out = l.voice_frame(tick, vec![500; 160], true);
    assert_eq!(out.recorded, vec![500; 160]);
    let b = l.packet(&mut t, &out, None).unwrap().bytes;
    assert!(b[12..].iter().all(|&c| c == 0xff));
    assert_eq!((l.pkt_count, l.octet_count), (1, 160));
    assert!(l.first);
}

#[test]
fn a_pause_sends_background_unmarked_and_counts_no_silent_octets() {
    let mut t = stream();
    let mut l = t.start_send_loop();
    let tick = l.begin(&mut t, 160, vec![700; 160]);
    let out = l.paused_frame(tick);
    assert_eq!(out.recorded, vec![700; 160]);
    let b = l.packet(&mut t, &out, None).unwrap().bytes;
    assert_eq!(b[1], 0);
    assert_eq!(l.octet_count, 160);
    assert!(l.first);
    assert!(!l.finish(&out, true));
    let tick = l.begin(&mut t, 0, vec![]);
    let out = l.paused_frame(tick);
    assert_eq!(out.recorded, vec![0; 160]);
    let _ = l.packet(&mut t, &out, None);
    assert_eq!((l.pkt_count, l.octet_count), (2, 160));
}

#[test]
fn resampled_audio_goes_on_the_wire() {
    let mut t = stream();
    let mut l = t.start_send_loop();
    let tick = l.begin(&mut t, 0, vec![]);
    let out = l.voice_frame(tick, vec![1; 160], false);
    let b = l.packet(&mut t, &out, Some(vec![0; 4])).unwrap().bytes;
    assert_eq!(&b[12..], &[0xff; 4]);
    assert_eq!(l.octet_count, 4);
}

#[test]
fn playout_is_done_once_the_voice_has_run_empty() {
    let mut t = stream();
    let mut l = t.start_send_loop();
    let tick = l.begin(&mut t, 1, vec![1]);
    let out = l.voice_frame(tick, vec![1], false);
    assert!(!l.finish(&out, false));
    assert!(l.finish(&out, true));
}

#[test]
fn a_due_report_sends_no_frame() {
    let mut t = stream();
    let mut l = t.start_send_loop();
    assert_eq!(l.wake(&t, Wake::FrameDue), OnWake::Frame);
    assert_eq!(l.wake(&t, Wake::Cancelled), OnWake::Stop);
    let _ = tick(&mut l, &mut t, vec![], vec![200, -200], false);
    match l.wake(&t, Wake::ReportDue) {
        OnWake::Report { sender, health } => {
            assert_eq!((sender.ssrc, sender.packets, sender.octets), (0x1122_3344, 1, 160));
            assert_eq!(sender.timestamp, 160);
            let health = health.unwrap();
            assert_eq!((health.ticks, health.partial_ticks, health.loud_ticks), (1, 1, 1));
            assert_eq!((health.drained, health.avg_abs, health.max_buf), (2, 200, 2));
        },
        _ => panic!("no report"),
    }
    assert_eq!(l.stats, BgStats::new());
    assert_eq!((t.timestamp, l.pkt_count), (160, 1));
}

#[test]
fn reports_do_not_move_the_clock() {
    let mut t = stream();
    let mut l = t.start_send_loop();
    for wake in [Wake::FrameDue, Wake::ReportDue, Wake::FrameDue, Wake::ReportDue, Wake::ReportDue, Wake::FrameDue] {
        if l.wake(&t, wake) == OnWake::Frame {
            let _ = tick(&mut l, &mut t, vec![], vec![], false);
        }
    }
    assert_eq!((t.timestamp, l.pkt_count, t.seq), (480, 3, 3));
    assert_eq!(REPORT_PERIOD, 5 * SECOND);
}

#[test]
fn background_health_is_averaged() {
    let mut stats = BgStats::new();
    assert!(stats.report(8000).is_none());
    stats.record(800, &vec![0; 160], 160);
    stats.record(0, &vec![], 160);
    let health = stats.report(8000).unwrap();
    assert_eq!((health.ticks, health.full_ticks, health.empty_ticks, health.silent_ticks), (2, 1, 1, 1));
    assert_eq!(health.avg_buf_ms, 50);
}

#[test]
fn the_keepalive_is_a_frame_of_silence() {
    let mut t = stream();
    t.timestamp = 9;
    let l = receiver(&t);
    let d = l.keepalive(&mut t).unwrap();
    assert_eq!(d.bytes.len(), 172);
    assert_eq!(&d.bytes[4..8], &[0, 0, 0, 9]);
    assert!(d.bytes[12..].iter().all(|&c| c == 0xff));
    assert_eq!((t.seq, t.timestamp), (1, 9));
}

#[test]
fn the_peer_moves_after_three_packets_in_a_row() {
    let mut t = stream();
    let mut l = receiver(&t);
    for _ in 0..2 {
        l.on_packet(&mut t, packet(0, 1, vec![]), elsewhere(), 0);
        assert_eq!(t.remote(), peer());
    }
    l.on_packet(&mut t, packet(0, 1, vec![]), peer(), 0);
    for _ in 0..2 {
        l.on_packet(&mut t, packet(0, 1, vec![]), elsewhere(), 0);
    }
    assert_eq!(t.remote(), peer());
    l.on_packet(&mut t, packet(0, 1, vec![]), elsewhere(), 0);
    assert_eq!(t.remote(), elsewhere());
    assert_eq!(l.track.pending_remote, None);
}

#[test]
fn sources_that_alternate_move_nothing() {
    let mut t = stream();
    let mut l = receiver(&t);
    let third = NetAddr::V4 { ip: 1, port: 1 };
    for _ in 0..5 {
        l.on_packet(&mut t, packet(0, 1, vec![]), elsewhere(), 0);
        l.on_packet(&mut t, packet(0, 1, vec![]), third, 0);
    }
    assert_eq!(t.remote(), peer());
}

#[test]
fn our_own_source_identifier_is_not_the_peers() {
    let mut t = stream();
    let mut l = receiver(&t);
    let own = t.ssrc;
    l.on_packet(&mut t, packet(0, own, vec![]), peer(), 0);
    assert_eq!(l.track.remote_ssrc, None);
    l.on_packet(&mut t, packet(0, 7, vec![]), peer(), 0);
    l.on_packet(&mut t, packet(0, own, vec![]), peer(), 0);
    assert_eq!(l.track.remote_ssrc, Some(7));
}

#[test]
fn a_new_source_identifier_forgets_the_key_press() {
    let mut t = stream();
    let mut l = receiver(&t);
    l.on_packet(&mut t, packet(0, 7, vec![]), peer(), 0);
    assert_eq!(l.on_telephone_event(Some(DtmfTransition::StartOrChange { event: 4 }), 0), None);
    assert_eq!(l.track.dtmf_ev, Some(4));
    l.on_packet(&mut t, packet(0, 8, vec![]), peer(), 0);
    assert_eq!(l.track.dtmf_ev, None);
    assert_eq!(l.track.remote_ssrc, Some(8));
}

#[test]
fn short_datagrams_and_control_packets_are_told_apart() {
    let mut t = stream();
    let mut l = receiver(&t);
    assert!(matches!(l.on_datagram(&mut t, &[0x80; 11], peer(), false, 5), Received::Ignored));
    assert_eq!(l.track.last_rtp, 0);
    assert!(matches!(l.on_datagram(&mut t, &[0x80; 12], peer(), true, 5), Received::Control));
    assert_eq!(l.track.last_rtp, 5);
    assert_eq!(l.track.remote_ssrc, None);
}

#[test]
fn another_version_is_ignored() {
    let mut t = stream();
    let mut l = receiver(&t);
    let mut d = datagram(0, 7, &[0xff]);
    d[0] = 0x40;
    assert!(matches!(l.on_datagram(&mut t, &d, peer(), false, 5), Received::Ignored));
    assert_eq!(l.track.remote_ssrc, None);
}

#[test]
fn audio_is_decoded_and_delivered() {
    let mut t = stream();
    let mut l = receiver(&t);
    let r = l.on_datagram(&mut t, &datagram(0, 7, &[0xff, 0x00]), peer(), false, 3);
    assert!(r.checks_timeout());
    match r {
        Received::Media { expired: None, samples: Some(s) } => {
            assert_eq!(s, Codec::PCMU.decode(&[0xff, 0x00]));
            assert_eq!(s[0], 0);
            let frame = l.deliver(&t, s);
            assert_eq!((frame.sample_rate, frame.num_channels, frame.samples_per_channel), (16000, 1, 2));
        },
        _ => panic!("no audio"),
    }
    assert_eq!(l.track.rx_pkts, 1);
}

#[test]
fn another_payload_type_is_no_audio() {
    let mut t = stream();
    let mut l = receiver(&t);
    let r = l.on_datagram(&mut t, &datagram(13, 7, &[1]), peer(), false, 3);
    assert!(!r.checks_timeout());
    assert!(matches!(r, Received::Media { expired: None, samples: None }));
    assert_eq!((l.track.rx_pkts, l.track.last_rtp), (0, 3));
}

#[test]
fn padding_is_cut_from_the_payload() {
    let mut t = stream();
    let mut l = receiver(&t);
    let mut d = datagram(101, 7, &[1, 2, 0, 2]);
    d[0] = 0xa0;
    match l.on_datagram(&mut t, &d, peer(), false, 3) {
        Received::TelephoneEvent { payload } => assert_eq!(payload, vec![1, 2]),
        _ => panic!("no telephone event"),
    }
}

#[test]
fn contributing_sources_and_extensions_are_skipped() {
    let mut t = stream();
    let mut l = receiver(&t);
    let cases: Vec<(u8, Vec<u8>, Option<Vec<u8>>)> = vec![
        (0x82, vec![1, 1, 1, 1, 2, 2, 2, 2, 7, 8], Some(vec![7, 8])),
        (0x82, vec![1, 1, 1, 1, 2, 2, 2], None),
        (0x90, vec![0xab, 0xcd, 0, 1, 9, 9, 9, 9, 7], Some(vec![7])),
        (0x90, vec![0xab, 0xcd, 0, 2, 9, 9, 9, 9], None),
        (0x90, vec![0xab, 0xcd, 0], None),
        (0x90, vec![0xbe, 0xde, 0, 1, 0xf0, 1, 2, 3, 7], Some(vec![1, 2, 3, 7])),
        (0x90, vec![0xbe, 0xde, 0, 1, 0, 0, 0, 0x11, 5, 6, 7], Some(vec![7])),
        (0x90, vec![0x10, 0x00, 0, 1, 3, 1, 9, 0, 7], Some(vec![7])),
        (0xa0, vec![1, 2, 3, 4], Some(vec![])),
        (0xa0, vec![1, 2, 3, 5], None),
        (0xa0, vec![1, 2, 0], Some(vec![1, 2, 0])),
        (0xa0, vec![], None),
    ];
    for (first, rest, payload) in cases {
        let mut d = datagram(101, 7, &rest);
        d[0] = first;
        assert!(header_extension_fits(&d));
        match (l.on_datagram(&mut t, &d, peer(), false, 0), payload) {
            (Received::TelephoneEvent { payload: read }, Some(payload)) => assert_eq!(read, payload),
            (Received::Ignored, None) => {},
            _ => panic!("{:?} was read otherwise", d),
        }
    }
}

#[test]
fn a_key_press_is_reported_once() {
    let t = stream();
    let mut l = receiver(&t);
    assert_eq!(l.on_telephone_event(Some(DtmfTransition::StartOrChange { event: 11 }), 5), None);
    assert_eq!(l.on_telephone_event(Some(DtmfTransition::StartRetransmit), 6), None);
    assert_eq!((l.track.dtmf_ev, l.track.dtmf_timer), (Some(11), Some(5)));
    assert_eq!(l.on_telephone_event(Some(DtmfTransition::EndEmit { event: 11 }), 7), Some(11));
    assert_eq!((l.track.dtmf_ev, l.track.dtmf_timer), (None, None));
    assert_eq!(l.on_telephone_event(Some(DtmfTransition::EndStale), 8), None);
    assert_eq!(l.on_telephone_event(None, 8), None);
    match l.key_pressed(Some('#')) {
        Some(EndpointEvent::DtmfReceived { call_id, digit, method }) => {
            assert_eq!((call_id.as_str(), digit, method.as_str()), ("c1", '#', "rfc2833"));
        },
        _ => panic!("no report"),
    }
    assert!(l.key_pressed(None).is_none());
}

#[test]
fn a_key_press_without_an_end_expires_after_five_seconds() {
    let mut t = stream();
    let mut l = receiver(&t);
    l.on_telephone_event(Some(DtmfTransition::StartOrChange { event: 3 }), SECOND);
    let r = l.on_packet(&mut t, packet(0, 1, vec![]), peer(), 6 * SECOND);
    assert!(matches!(r, Received::Media { expired: None, .. }));
    let r = l.on_packet(&mut t, packet(8, 1, vec![]), peer(), 6 * SECOND + 1);
    assert!(matches!(r, Received::Media { expired: Some(3), samples: None }));
    assert_eq!((l.track.dtmf_ev, l.track.dtmf_timer), (None, None));
}

#[test]
fn tones_are_reported() {
    let t = stream();
    let l = receiver(&t);
    let beep = l.on_beep(BeepOutcome::Detected { duration_ms: 350 });
    assert!(matches!(beep, Some(EndpointEvent::BeepDetected { call_id, duration_ms: 350 }) if call_id == "c1"));
    assert!(matches!(l.on_beep(BeepOutcome::Timeout), Some(EndpointEvent::BeepTimeout { .. })));
    assert!(l.on_beep(BeepOutcome::Listening).is_none());
}

#[test]
fn media_is_lost_after_thirty_seconds_unless_held() {
    let t = stream();
    let l = receiver(&t);
    assert!(!l.media_lost(30 * SECOND, false));
    assert!(l.media_lost(30 * SECOND + 1, false));
    assert!(!l.media_lost(31 * SECOND, true));
    match l.media_timeout(false) {
        Some(EndpointEvent::CallTerminated { session, reason }) => {
            assert_eq!((session.call_id.as_str(), reason.as_str()), ("c1", "media timeout"));
        },
        _ => panic!("no report"),
    }
    assert!(l.media_timeout(true).is_none());
}

#[test]
fn header_extensions_that_run_over_are_told() {
    let mut fits = datagram(0, 7, &[0xbe, 0xde, 0, 1, 0x10, 1, 0, 0, 9]);
    fits[0] = 0x90;
    assert!(header_extension_fits(&fits));
    let mut t = stream();
    let mut l = receiver(&t);
    match l.on_datagram(&mut t, &fits, peer(), false, 0) {
        Received::Media { samples: Some(s), .. } => assert_eq!(s.len(), 1),
        _ => panic!("no audio"),
    }
    let mut over = datagram(0, 7, &[0xbe, 0xde, 0, 1, 0, 0, 0, 0x1f]);
    over[0] = 0x90;
    assert!(!header_extension_fits(&over));
    let mut two_byte = datagram(0, 7, &[0x10, 0x00, 0, 1, 0, 0, 1, 9]);
    two_byte[0] = 0x90;
    assert!(!header_extension_fits(&two_byte));
    assert!(header_extension_fits(&datagram(0, 7, &[1, 2, 3])));
}
