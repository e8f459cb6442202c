//! The two G.711 companding codecs.

use audio_codec_algorithms::{decode_alaw, decode_ulaw, encode_alaw, encode_ulaw};
use vstd::prelude::*;

verus! {

/// How often `v` is halved to fit in six bits: the segment of the companding curve that it lies in.
pub open spec fn segment(v: nat) -> nat
    decreases v,
{
    if v < 64 {
        0
    } else {
        1 + segment(v / 2)
    }
}

/// The six leading bits of `v`, or all of it where it has fewer.
pub open spec fn leading(v: nat) -> nat
    decreases v,
{
    if v < 64 {
        v
    } else {
        leading(v / 2)
    }
}

/// `n` doubled `times` times.
pub open spec fn doubled(n: int, times: nat) -> int
    decreases times,
{
    if times == 0 {
        n
    } else {
        2 * doubled(n, (times - 1) as nat)
    }
}

/// The magnitude that is companded: that of the sample, where a negative one counts from minus one.
pub open spec fn companded(sample: i16) -> nat {
    if sample >= 0 {
        sample as nat
    } else {
        (-1 - sample) as nat
    }
}

/// The sign of a sample where it stands in a code.
pub open spec fn sign_bit(sample: i16) -> nat {
    if sample >= 0 {
        0
    } else {
        128
    }
}

/// The seven bits that mu-law codes a magnitude by: the segment, then the four bits that follow the
/// leading one. Magnitudes past the last segment all get its last value.
pub open spec fn ulaw_word(magnitude: nat) -> nat {
    let v = magnitude / 4 + 33;
    if segment(v) >= 8 {
        127
    } else {
        16 * segment(v) + leading(v) / 2 % 16
    }
}

/// The magnitude that seven bits of a mu-law code stand for: the middle of what they code.
pub open spec fn ulaw_magnitude(word: nat) -> int {
    4 * (doubled((2 * (word % 16) + 33) as int, word / 16) - 33)
}

/// The mu-law code of a linear sample: sign and seven bits, all inverted.
pub open spec fn ulaw_code(sample: i16) -> u8 {
    (255 - (sign_bit(sample) + ulaw_word(companded(sample)))) as u8
}

/// The linear sample that a mu-law code stands for.
pub open spec fn ulaw_sample(code: u8) -> i16 {
    let magnitude = ulaw_magnitude((255 - code) as nat % 128);
    if code >= 128 {
        magnitude as i16
    } else {
        (-magnitude) as i16
    }
}

/// The seven bits that A-law codes a magnitude by: the segment, then four bits. The first two
/// segments have the same steps.
pub open spec fn alaw_word(magnitude: nat) -> nat {
    let v = magnitude / 8;
    let s = if v < 32 {
        0
    } else {
        1 + segment(v)
    };
    16 * s + leading(v) / 2 % 16
}

/// The magnitude that seven bits of an A-law code stand for: the middle of what they code.
pub open spec fn alaw_magnitude(word: nat) -> int {
    if word < 16 {
        (8 * (2 * word + 1)) as int
    } else {
        8 * doubled((2 * (word % 16) + 33) as int, (word / 16 - 1) as nat)
    }
}

/// The A-law code of a linear sample: sign and seven bits, with the sign and every other bit
/// inverted.
pub open spec fn alaw_code(sample: i16) -> u8 {
    ((sign_bit(sample) + alaw_word(companded(sample))) as u8) ^ 0xd5
}

/// The linear sample that an A-law code stands for.
pub open spec fn alaw_sample(code: u8) -> i16 {
    let plain = code ^ 0xd5;
    let magnitude = alaw_magnitude(plain as nat % 128);
    if plain < 128 {
        magnitude as i16
    } else {
        (-magnitude) as i16
    }
}

/// `audio_codec_algorithms::encode_ulaw` takes the sign, a quarter of the magnitude with a bias of
/// 33, the segment by the position of its leading bit, and the four bits that follow; it inverts
/// the whole.
pub assume_specification[ encode_ulaw ](linear: i16) -> (code: u8)
    ensures
        code == ulaw_code(linear),
;

/// `audio_codec_algorithms::decode_ulaw` looks its code up in a table that holds these values.
pub assume_specification[ decode_ulaw ](encoded: u8) -> (sample: i16)
    ensures
        sample == ulaw_sample(encoded),
;

/// `audio_codec_algorithms::encode_alaw` takes the sign, an eighth of the magnitude, the segment by
/// the position of its leading bit, and four bits; it inverts the sign and every other bit.
pub assume_specification[ encode_alaw ](linear: i16) -> (code: u8)
    ensures
        code == alaw_code(linear),
;

/// `audio_codec_algorithms::decode_alaw` looks its code up in a table that holds these values.
pub assume_specification[ decode_alaw ](encoded: u8) -> (sample: i16)
    ensures
        sample == alaw_sample(encoded),
;

/// A G.711 codec, by its name in session descriptions.
#[derive(Clone, Copy, Debug, PartialEq, Eq, Structural)]
pub enum Codec {
    PCMU,
    PCMA,
}

impl Codec {
    /// The code that stands for `sample` on the wire.
    pub open spec fn code(self, sample: i16) -> u8 {
        match self {
            Codec::PCMU => ulaw_code(sample),
            Codec::PCMA => alaw_code(sample),
        }
    }

    /// The sample that `code` stands for.
    pub open spec fn sample(self, code: u8) -> i16 {
        match self {
            Codec::PCMU => ulaw_sample(code),
            Codec::PCMA => alaw_sample(code),
        }
    }

    /// The payload that carries `samples`: one code for each, in order.
    pub open spec fn encoded(self, samples: Seq<i16>) -> Seq<u8> {
        Seq::new(samples.len(), |i: int| self.code(samples[i]))
    }

    /// The samples that `payload` carries: one for each code, in order.
    pub open spec fn decoded(self, payload: Seq<u8>) -> Seq<i16> {
        Seq::new(payload.len(), |i: int| self.sample(payload[i]))
    }

    /// The RTP payload type.
    pub open spec fn spec_payload_type(self) -> u8 {
        match self {
            Codec::PCMU => 0,
            Codec::PCMA => 8,
        }
    }

    /// The code of silence.
    pub open spec fn spec_silence_byte(self) -> u8 {
        match self {
            Codec::PCMU => 0xff,
            Codec::PCMA => 0xd5,
        }
    }

    /// Samples per second, the same for both codecs.
    pub fn sample_rate(&self) -> (rate: u32)
        ensures
            rate == 8000,
    {
        8000
    }

    pub fn payload_type(&self) -> (pt: u8)
        ensures
            pt == self.spec_payload_type(),
    {
        match self {
            Codec::PCMU => 0,
            Codec::PCMA => 8,
        }
    }

    pub fn silence_byte(&self) -> (code: u8)
        ensures
            code == self.spec_silence_byte(),
            code == self.code(0),
    {
        assert(0u8 ^ 0xd5u8 == 0xd5u8) by (bit_vector);
        match self {
            Codec::PCMU => encode_ulaw(0),
            Codec::PCMA => encode_alaw(0),
        }
    }

    pub fn encode(&self, samples: &[i16]) -> (payload: Vec<u8>)
        ensures
            payload@ == self.encoded(samples@),
            payload@.len() == samples@.len(),
            forall|i: int|
                0 <= i < samples@.len() ==> #[trigger] payload@[i] == self.code(samples@[i]),
    {
        let mut payload: Vec<u8> = Vec::new();
        let mut i: usize = 0;
        while i < samples.len()
            invariant
                i <= samples@.len(),
                payload@ =~= self.encoded(samples@.take(i as int)),
            decreases samples@.len() - i,
        {
            let code: u8 = match self {
                Codec::PCMU => encode_ulaw(samples[i]),
                Codec::PCMA => encode_alaw(samples[i]),
            };
            payload.push(code);
            i += 1;
        }
        payload
    }

    pub fn decode(&self, payload: &[u8]) -> (samples: Vec<i16>)
        ensures
            samples@ == self.decoded(payload@),
            samples@.len() == payload@.len(),
            forall|i: int|
                0 <= i < payload@.len() ==> #[trigger] samples@[i] == self.sample(payload@[i]),
    {
        let mut samples: Vec<i16> = Vec::new();
        let mut i: usize = 0;
        while i < payload.len()
            invariant
                i <= payload@.len(),
                samples@ =~= self.decoded(payload@.take(i as int)),
            decreases payload@.len() - i,
        {
            let sample: i16 = match self {
                Codec::PCMU => decode_ulaw(payload[i]),
                Codec::PCMA => decode_alaw(payload[i]),
            };
            samples.push(sample);
            i += 1;
        }
        samples
    }
}

proof fn doubling_adds(a: int, b: int, times: nat)
    ensures
        doubled(a + b, times) == doubled(a, times) + doubled(b, times),
        doubled(0, times) == 0,
        a >= 0 ==> doubled(a, times) >= 0,
    decreases times,
{
    if times > 0 {
        doubling_adds(a, b, (times - 1) as nat);
    }
}

/// Every number lies between its leading bits and the next, moved back to where they stood.
proof fn leading_bits_bound(v: nat)
    requires
        v >= 32,
    ensures
        32 <= leading(v) < 64,
        doubled(leading(v) as int, segment(v)) <= v < doubled((leading(v) + 1) as int, segment(v)),
    decreases v,
{
    if v >= 64 {
        leading_bits_bound(v / 2);
    }
}

/// A number of `6 + times` bits at most has at most `times` segments below it.
proof fn segment_bound(v: nat, times: nat)
    requires
        v < doubled(64, times),
    ensures
        segment(v) <= times,
    decreases times,
{
    if v >= 64 {
        assert(times > 0);
        segment_bound(v / 2, (times - 1) as nat);
    }
}

/// The middle of the step that `v` lies in is at most half a step away, and a step is at most a
/// sixteenth of `v`.
proof fn middle_is_close(v: nat)
    requires
        v >= 32,
    ensures
        ({
            let middle = doubled((2 * (leading(v) / 2 % 16) + 33) as int, segment(v));
            let half = doubled(1, segment(v));
            &&& v - half < middle <= v + half
            &&& 1 <= half
            &&& 32 * half <= v
        }),
{
    leading_bits_bound(v);
    let s = segment(v);
    let t = (leading(v) / 2) as int;
    assert(2 * (leading(v) / 2 % 16) + 33 == 2 * t + 1);
    let half = doubled(1, s);
    doubling_adds(2 * t, 1, s);
    doubling_adds(2 * t + 1, 1, s);
    doubling_adds(leading(v) as int, 1, s);
    // Thirty-two halves fit below the leading bits.
    doubling_adds(1, 1, s);
    doubling_adds(2, 2, s);
    doubling_adds(4, 4, s);
    doubling_adds(8, 8, s);
    doubling_adds(16, 16, s);
    doubling_adds(32, leading(v) - 32, s);
    doubling_adds(leading(v) - 32, 0, s);
    assert(half >= 1) by {
        doubling_grows(1, s);
    }
}

proof fn doubling_grows(n: int, times: nat)
    requires
        n >= 1,
    ensures
        doubled(n, times) >= n,
    decreases times,
{
    if times > 0 {
        doubling_grows(n, (times - 1) as nat);
    }
}

proof fn ulaw_magnitude_is_close(m: nat)
    requires
        m < 32768,
    ensures
        ulaw_word(m) < 128,
        -50 < m - ulaw_magnitude(ulaw_word(m)) < 50 || -(m as int) < 12 * (m
            - ulaw_magnitude(ulaw_word(m))) < m,
        0 <= ulaw_magnitude(ulaw_word(m)) <= 32124,
{
    let v = m / 4 + 33;
    middle_is_close(v);
    reveal_with_fuel(doubled, 9);
    if segment(v) >= 8 {
        if v < 8192 {
            segment_bound(v, 7);
        }
        assert(ulaw_magnitude(127) == 32124);
    } else {
        let man = leading(v) / 2 % 16;
        let w = ulaw_word(m);
        assert(w / 16 == segment(v) && w % 16 == man);
        ulaw_magnitude_bound(w);
    }
}

proof fn ulaw_magnitude_bound(w: nat)
    requires
        w < 128,
    ensures
        0 <= ulaw_magnitude(w) <= 32124,
{
    reveal_with_fuel(doubled, 9);
}

proof fn alaw_magnitude_bound(w: nat)
    requires
        w < 128,
    ensures
        0 <= alaw_magnitude(w) <= 32256,
{
    reveal_with_fuel(doubled, 9);
}

proof fn alaw_magnitude_is_close(m: nat)
    requires
        m < 32768,
    ensures
        alaw_word(m) < 128,
        -50 < m - alaw_magnitude(alaw_word(m)) < 50 || -(m as int) < 12 * (m
            - alaw_magnitude(alaw_word(m))) < m,
        0 <= alaw_magnitude(alaw_word(m)) <= 32256,
{
    let v = m / 8;
    reveal_with_fuel(doubled, 9);
    let man = leading(v) / 2 % 16;
    let w = alaw_word(m);
    if v >= 32 {
        middle_is_close(v);
        segment_bound(v, 6);
        assert(w / 16 == segment(v) + 1 && w % 16 == man);
    } else {
        assert(w == v / 2);
    }
    alaw_magnitude_bound(w);
}

impl Codec {
    /// A sample that was coded and decoded again is close to what it was: to within a tenth of it,
    /// or a hundred where that is more.
    pub proof fn decoding_comes_close(self, sample: i16)
        ensures
            ({
                let heard = self.sample(self.code(sample));
                let away = if heard >= sample {
                    heard - sample
                } else {
                    sample - heard
                };
                let size = if sample >= 0 {
                    sample as int
                } else {
                    -sample
                };
                away < 100 || away < size / 10
            }),
    {
        let m = companded(sample);
        match self {
            Codec::PCMU => {
                ulaw_magnitude_is_close(m);
                let plain = sign_bit(sample) + ulaw_word(m);
                let code = ulaw_code(sample);
                assert(code == 255 - plain);
                assert((255 - code) as nat % 128 == ulaw_word(m));
            },
            Codec::PCMA => {
                alaw_magnitude_is_close(m);
                let plain: u8 = (sign_bit(sample) + alaw_word(m)) as u8;
                assert((plain ^ 0xd5) ^ 0xd5 == plain) by (bit_vector);
                assert(plain as nat % 128 == alaw_word(m));
            },
        }
    }
}

impl Codec {
    /// A payload carries its samples in time order, one code for each: the code at a position is
    /// that of the sample at that position.
    pub proof fn codes_stand_in_time_order(self, samples: Seq<i16>, i: int)
        requires
            0 <= i < samples.len(),
        ensures
            self.encoded(samples).len() == samples.len(),
            self.encoded(samples)[i] == self.code(samples[i]),
    {
    }

    /// The samples of a payload come in the order of its codes: the sample at a position is that of
    /// the code at that position.
    pub proof fn samples_stand_in_time_order(self, payload: Seq<u8>, i: int)
        requires
            0 <= i < payload.len(),
        ensures
            self.decoded(payload).len() == payload.len(),
            self.decoded(payload)[i] == self.sample(payload[i]),
    {
    }

    /// A stream can be cut anywhere: what follows the cut is coded, and decoded, as it would be
    /// alone.
    pub proof fn coding_knows_no_past(self, a: Seq<i16>, b: Seq<i16>, u: Seq<u8>, v: Seq<u8>)
        ensures
            self.encoded(a + b) == self.encoded(a) + self.encoded(b),
            self.decoded(u + v) == self.decoded(u) + self.decoded(v),
    {
        assert(self.encoded(a + b) =~= self.encoded(a) + self.encoded(b));
        assert(self.decoded(u + v) =~= self.decoded(u) + self.decoded(v));
    }

    /// The byte that fills silent packets is the code of silence, and decodes to as good as nothing.
    pub proof fn the_silence_byte_is_the_code_of_silence(self)
        ensures
            self.spec_silence_byte() == self.code(0),
            -100 < self.sample(self.spec_silence_byte()) < 100,
    {
        self.decoding_comes_close(0);
        assert(0u8 ^ 0xd5u8 == 0xd5u8) by (bit_vector);
    }

    /// The two codecs are told apart by their payload types, neither of which collides with the
    /// marker bit.
    pub proof fn codecs_are_told_apart(a: Codec, b: Codec)
        ensures
            a.spec_payload_type() == b.spec_payload_type() <==> a == b,
            a.spec_payload_type() < 128,
    {
    }

    /// The codec named PCMU is mu-law under payload type 0, the one named PCMA is A-law under payload
    /// type 8.
    pub proof fn each_codec_has_its_law(sample: i16, code: u8)
        ensures
            Codec::PCMU.spec_payload_type() == 0,
            Codec::PCMU.code(sample) == ulaw_code(sample),
            Codec::PCMU.sample(code) == ulaw_sample(code),
            Codec::PCMU.spec_silence_byte() == 0xff,
            Codec::PCMA.spec_payload_type() == 8,
            Codec::PCMA.code(sample) == alaw_code(sample),
            Codec::PCMA.sample(code) == alaw_sample(code),
            Codec::PCMA.spec_silence_byte() == 0xd5,
    {
    }
}

} // verus!
