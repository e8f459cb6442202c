use audio_codec_algorithms::{decode_alaw, decode_ulaw, encode_alaw, encode_ulaw};
use sip_transport::audio::{levels, mix, pad_partial_frame, silent_frame};
use sip_transport::codec::Codec;

#[test]
fn test_pad_partial_frame_pads_short() {
    let out = pad_partial_frame(vec![1, 2, 3], 8);
    assert_eq!(out.len(), 8);
    assert_eq!(&out[..3], &[1, 2, 3]);
    assert!(out[3..].iter().all(|&s| s == 0));
}

#[test]
fn test_pad_partial_frame_keeps_empty_and_full() {
    assert!(pad_partial_frame(Vec::new(), 8).is_empty());
    let full: Vec<i16> = (0..8).collect();
    assert_eq!(pad_partial_frame(full.clone(), 8), full);
}

#[test]
fn test_pcmu_roundtrip() {
    for &s in &[0i16, 100, 1000, 8000, -100, -1000, -8000] {
        let d = decode_ulaw(encode_ulaw(s));
        assert!((s as i32 - d as i32).unsigned_abs() < (s.unsigned_abs() as u32 / 10).max(100), "PCMU: {s} -> {d}");
    }
}

#[test]
fn test_pcma_roundtrip() {
    for &s in &[0i16, 100, 1000, 8000, -100, -1000, -8000] {
        let d = decode_alaw(encode_alaw(s));
        assert!((s as i32 - d as i32).unsigned_abs() < (s.unsigned_abs() as u32 / 10).max(100), "PCMA: {s} -> {d}");
    }
}

#[test]
fn test_codec_encode_decode() {
    let s = vec![0i16, 1000, -1000, 8000];
    assert_eq!(Codec::PCMU.encode(&s).len(), 4);
    assert_eq!(Codec::PCMU.decode(&Codec::PCMU.encode(&s)).len(), 4);
}

#[test]
fn test_codec_silence() {
    assert_eq!(Codec::PCMU.silence_byte(), 0xFF);
    assert_eq!(Codec::PCMA.silence_byte(), 0xD5);
}

#[test]
fn codecs_agree_with_their_tables_on_every_sample() {
    for s in i16::MIN..=i16::MAX {
        assert_eq!(Codec::PCMU.encode(&[s]), vec![encode_ulaw(s)]);
        assert_eq!(Codec::PCMA.encode(&[s]), vec![encode_alaw(s)]);
    }
    for code in 0..=u8::MAX {
        assert_eq!(Codec::PCMU.decode(&[code]), vec![decode_ulaw(code)]);
        assert_eq!(Codec::PCMA.decode(&[code]), vec![decode_alaw(code)]);
    }
}

fn segment(v: u32) -> u32 {
    if v < 64 { 0 } else { 1 + segment(v / 2) }
}

fn leading(v: u32) -> u32 {
    if v < 64 { v } else { leading(v / 2) }
}

#[test]
fn codes_lie_on_the_companding_curves() {
    for s in i16::MIN..=i16::MAX {
        let (sign, m) = if s >= 0 { (0, s as u32) } else { (128, (-1 - s as i32) as u32) };
        let v = m / 4 + 33;
        let word = if segment(v) >= 8 { 127 } else { 16 * segment(v) + leading(v) / 2 % 16 };
        assert_eq!(Codec::PCMU.encode(&[s])[0] as u32, 255 - (sign + word));
        let v = m / 8;
        let word = 16 * (if v < 32 { 0 } else { 1 + segment(v) }) + leading(v) / 2 % 16;
        assert_eq!(Codec::PCMA.encode(&[s])[0] as u32, (sign + word) ^ 0xd5);
    }
    for code in 0..=255u32 {
        let word = (255 - code) % 128;
        let m = 4 * (((2 * (word % 16) + 33) << (word / 16)) as i32 - 33);
        assert_eq!(Codec::PCMU.decode(&[code as u8])[0] as i32, if code >= 128 { m } else { -m });
        let plain = code ^ 0xd5;
        let word = plain % 128;
        let m = 8 * (if word < 16 { 2 * word + 1 } else { (2 * (word % 16) + 33) << (word / 16 - 1) }) as i32;
        assert_eq!(Codec::PCMA.decode(&[code as u8])[0] as i32, if plain < 128 { m } else { -m });
    }
}

#[test]
fn decoding_comes_close_to_every_sample() {
    for codec in [Codec::PCMU, Codec::PCMA] {
        for s in i16::MIN..=i16::MAX {
            let d = codec.decode(&codec.encode(&[s]))[0];
            assert!((s as i32 - d as i32).unsigned_abs() < (s.unsigned_abs() as u32 / 10).max(100));
        }
    }
}

#[test]
fn mu_law_silence_decodes_to_zero() {
    assert_eq!(Codec::PCMU.decode(&[0xff, 0xff]), vec![0, 0]);
}

#[test]
fn codecs_have_their_rate_and_payload_type() {
    assert_eq!(Codec::PCMU.sample_rate(), 8000);
    assert_eq!(Codec::PCMA.sample_rate(), 8000);
    assert_eq!(Codec::PCMU.payload_type(), 0);
    assert_eq!(Codec::PCMA.payload_type(), 8);
}

#[test]
fn padding_twice_is_padding_once() {
    let once = pad_partial_frame(vec![5, -5], 4);
    assert_eq!(once, vec![5, -5, 0, 0]);
    assert_eq!(pad_partial_frame(once.clone(), 4), once);
}

#[test]
fn a_frame_longer_than_asked_is_kept() {
    assert_eq!(pad_partial_frame(vec![1, 2, 3], 2), vec![1, 2, 3]);
}

#[test]
fn mixing_adds_and_clips() {
    assert_eq!(mix(&vec![1, 32000, -32000], &vec![2, 1000, -1000]), vec![3, 32767, -32768]);
}

#[test]
fn mixing_is_symmetric_and_keeps_the_longer_tail() {
    let (a, b) = (vec![10, 20, 30], vec![1]);
    assert_eq!(mix(&a, &b), vec![11, 20, 30]);
    assert_eq!(mix(&b, &a), mix(&a, &b));
}

#[test]
fn levels_take_magnitudes() {
    assert_eq!(levels(&vec![3, -7, i16::MIN]), (32768, 32778));
    assert_eq!(levels(&vec![]), (0, 0));
}

#[test]
fn silence_is_zero() {
    assert_eq!(silent_frame(3), vec![0, 0, 0]);
}
