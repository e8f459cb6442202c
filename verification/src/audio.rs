//! Sample frames: padding, mixing and level measurement.

use vstd::prelude::*;

verus! {

/// A block of interleaved samples.
pub struct AudioFrame {
    pub data: Vec<i16>,
    pub sample_rate: u32,
    pub num_channels: u32,
    pub samples_per_channel: u32,
}

/// `n` samples of silence.
pub open spec fn silence(n: nat) -> Seq<i16> {
    Seq::new(n, |i: int| 0i16)
}

pub fn silent_frame(n: usize) -> (samples: Vec<i16>)
    ensures
        samples@ == silence(n as nat),
{
    let samples: Vec<i16> = vec![0i16; n];
    assert(samples@ =~= silence(n as nat));
    samples
}

/// What a partial frame becomes: filled up with silence to `n` samples. An empty frame stays
/// empty, and one that already has `n` samples is kept.
pub open spec fn padded(samples: Seq<i16>, n: nat) -> Seq<i16> {
    if 0 < samples.len() < n {
        samples + silence((n - samples.len()) as nat)
    } else {
        samples
    }
}

/// Zero-pad a partial frame up to `n` samples (empty stays empty).
///
/// The send loop advances the RTP timestamp by one frame each tick, so a payload must span exactly
/// one frame: a short payload would look like packet loss to the receiver.
pub fn pad_partial_frame(samples: Vec<i16>, n: usize) -> (frame: Vec<i16>)
    ensures
        frame@ == padded(samples@, n as nat),
{
    let mut frame = samples;
    if !frame.is_empty() && frame.len() < n {
        frame.resize(n, 0);
        assert(frame@ =~= padded(samples@, n as nat));
    }
    frame
}

/// A frame drawn from a buffer that hands out at most `n` samples is, once padded, empty or
/// exactly `n` samples long.
pub proof fn padded_frame_is_whole(samples: Seq<i16>, n: nat)
    requires
        samples.len() <= n,
    ensures
        padded(samples, n).len() == 0 || padded(samples, n).len() == n,
        padded(samples, n).len() == 0 <==> samples.len() == 0,
{
}

/// Padding a frame a second time changes nothing.
pub proof fn padding_is_idempotent(samples: Seq<i16>, n: nat)
    ensures
        padded(padded(samples, n), n) == padded(samples, n),
{
}

/// `s[i]`, or silence past the end.
pub open spec fn sample_at(s: Seq<i16>, i: int) -> int {
    if 0 <= i < s.len() {
        s[i] as int
    } else {
        0
    }
}

/// `v` brought into the range of a sample.
pub open spec fn clamped(v: int) -> int {
    if v < -32768 {
        -32768
    } else if v > 32767 {
        32767
    } else {
        v
    }
}

/// Two frames played at once: sample by sample the sum, clamped, the shorter frame being continued
/// with silence.
pub open spec fn mixed(a: Seq<i16>, b: Seq<i16>) -> Seq<i16> {
    Seq::new(
        if a.len() >= b.len() {
            a.len()
        } else {
            b.len()
        },
        |i: int| clamped(sample_at(a, i) + sample_at(b, i)) as i16,
    )
}

pub fn mix(a: &Vec<i16>, b: &Vec<i16>) -> (out: Vec<i16>)
    ensures
        out@ == mixed(a@, b@),
{
    let len: usize = if a.len() >= b.len() {
        a.len()
    } else {
        b.len()
    };
    let mut out: Vec<i16> = Vec::new();
    let mut i: usize = 0;
    while i < len
        invariant
            i <= len,
            len == mixed(a@, b@).len(),
            out@ == mixed(a@, b@).take(i as int),
        decreases len - i,
    {
        let x: i32 = if i < a.len() {
            a[i] as i32
        } else {
            0
        };
        let y: i32 = if i < b.len() {
            b[i] as i32
        } else {
            0
        };
        let sum: i32 = x + y;
        let level: i32 = if sum < -32768 {
            -32768
        } else if sum > 32767 {
            32767
        } else {
            sum
        };
        out.push(level as i16);
        assert(out@ =~= mixed(a@, b@).take(i + 1));
        i += 1;
    }
    assert(mixed(a@, b@).take(len as int) =~= mixed(a@, b@));
    out
}

/// Mixing does not depend on which of the two frames is named first.
pub proof fn mixing_is_symmetric(a: Seq<i16>, b: Seq<i16>)
    ensures
        mixed(a, b) == mixed(b, a),
{
    assert(mixed(a, b) =~= mixed(b, a));
}

/// The distance of a sample from silence.
pub open spec fn magnitude(s: i16) -> int {
    if s < 0 {
        -s
    } else {
        s as int
    }
}

/// The largest magnitude in a frame, 0 for an empty one.
pub open spec fn peak(s: Seq<i16>) -> int
    decreases s.len(),
{
    if s.len() == 0 {
        0
    } else if magnitude(s.last()) > peak(s.drop_last()) {
        magnitude(s.last())
    } else {
        peak(s.drop_last())
    }
}

/// The sum of the magnitudes in a frame.
pub open spec fn total_magnitude(s: Seq<i16>) -> int
    decreases s.len(),
{
    if s.len() == 0 {
        0
    } else {
        total_magnitude(s.drop_last()) + magnitude(s.last())
    }
}

/// The peak of a frame, and its total magnitude modulo 2^64.
pub fn levels(samples: &Vec<i16>) -> (r: (u32, u64))
    ensures
        r.0 == peak(samples@),
        r.1 == total_magnitude(samples@) % 0x1_0000_0000_0000_0000,
{
    let mut max: u32 = 0;
    let mut sum: u64 = 0;
    let mut i: usize = 0;
    while i < samples.len()
        invariant
            i <= samples@.len(),
            max == peak(samples@.take(i as int)),
            sum == total_magnitude(samples@.take(i as int)) % 0x1_0000_0000_0000_0000,
        decreases samples@.len() - i,
    {
        let s: i32 = samples[i] as i32;
        let a: u32 = if s < 0 {
            (-s) as u32
        } else {
            s as u32
        };
        assert(samples@.take(i + 1).drop_last() =~= samples@.take(i as int));
        if a > max {
            max = a;
        }
        sum = sum.wrapping_add(a as u64);
        i += 1;
    }
    assert(samples@.take(samples@.len() as int) =~= samples@);
    (max, sum)
}

/// Silence is as long as it is asked for, and nothing but zero.
pub proof fn silence_is_zero(n: nat)
    ensures
        silence(n).len() == n,
        forall|i: int| 0 <= i < n ==> #[trigger] silence(n)[i] == 0,
{
}

/// Padding keeps every sample in its place, adds nothing but zeros behind them, and makes a frame
/// that has samples at least `n` long, but no longer than it has to be.
pub proof fn padding_adds_zeros_at_the_end(samples: Seq<i16>, n: nat)
    ensures
        samples.is_prefix_of(padded(samples, n)),
        forall|i: int|
            samples.len() <= i < padded(samples, n).len() ==> #[trigger] padded(samples, n)[i] == 0,
        samples.len() == 0 ==> padded(samples, n).len() == 0,
        samples.len() > 0 ==> padded(samples, n).len() >= n,
        padded(samples, n).len() <= n || padded(samples, n).len() == samples.len(),
{
    assert(samples =~= padded(samples, n).take(samples.len() as int));
}

/// Where both frames have a sample, their mix holds the sum as far as a sample can, and the nearest
/// sample otherwise; where one of them has run out, it holds the other's. The mix is as long as the
/// longer of the two.
pub proof fn mixing_adds_in_place(a: Seq<i16>, b: Seq<i16>, i: int)
    requires
        0 <= i,
    ensures
        mixed(a, b).len() >= a.len(),
        mixed(a, b).len() >= b.len(),
        mixed(a, b).len() == a.len() || mixed(a, b).len() == b.len(),
        i < a.len() && i < b.len() && -32768 <= a[i] + b[i] <= 32767 ==> mixed(a, b)[i] == a[i]
            + b[i],
        i < a.len() && i < b.len() && a[i] + b[i] > 32767 ==> mixed(a, b)[i] == 32767,
        i < a.len() && i < b.len() && a[i] + b[i] < -32768 ==> mixed(a, b)[i] == -32768,
        b.len() <= i < a.len() ==> mixed(a, b)[i] == a[i],
        a.len() <= i < b.len() ==> mixed(a, b)[i] == b[i],
{
}

/// No sample of a frame is farther from silence than its peak, and one is as far.
pub proof fn the_peak_is_the_loudest_sample(s: Seq<i16>)
    ensures
        forall|i: int| 0 <= i < s.len() ==> -peak(s) <= #[trigger] s[i] <= peak(s),
        s.len() > 0 ==> exists|i: int|
            0 <= i < s.len() && ((#[trigger] s[i]) == peak(s) || s[i] == -peak(s)),
        s.len() == 0 ==> peak(s) == 0,
    decreases s.len(),
{
    if s.len() > 0 {
        let before = s.drop_last();
        the_peak_is_the_loudest_sample(before);
        assert forall|i: int| 0 <= i < s.len() implies -peak(s) <= #[trigger] s[i] <= peak(s) by {
            if i < before.len() {
                assert(before[i] == s[i]);
            }
        }
        let last = s.len() - 1;
        if peak(s) == magnitude(s[last]) {
            assert(s[last] == peak(s) || s[last] == -peak(s));
        } else {
            let i = choose|i: int|
                0 <= i < before.len() && ((#[trigger] before[i]) == peak(before) || before[i]
                    == -peak(before));
            assert(s[i] == before[i]);
        }
    }
}

/// The total of two frames one after the other is the sum of their totals, and that of a single
/// sample is its distance from silence.
pub proof fn totals_add_up(a: Seq<i16>, b: Seq<i16>, sample: i16)
    ensures
        total_magnitude(a + b) == total_magnitude(a) + total_magnitude(b),
        total_magnitude(seq![sample]) == if sample >= 0 {
            sample as int
        } else {
            -sample
        },
        total_magnitude(Seq::empty()) == 0,
    decreases b.len(),
{
    reveal_with_fuel(total_magnitude, 2);
    assert(seq![sample].drop_last() =~= Seq::<i16>::empty());
    if b.len() == 0 {
        assert(a + b =~= a);
    } else {
        assert((a + b).drop_last() =~= a + b.drop_last());
        totals_add_up(a, b.drop_last(), sample);
    }
}

} // verus!
