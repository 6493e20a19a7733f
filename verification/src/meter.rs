//! Peak level meter.
//!
//! The meter keeps one peak register per stereo channel. A register holds the
//! bit pattern (`f32::to_bits`) of the largest absolute sample magnitude seen
//! since the register was last read. Working on bit patterns lets the host
//! share the registers between threads as plain 32-bit atomics: for finite,
//! non-negative floats, the unsigned order of the bit patterns agrees with the
//! order of the magnitudes, so "raise to the maximum" needs no floating-point
//! compare-and-swap. Here the registers are owned directly and every operation
//! is specified exactly over the bit patterns.

use vstd::prelude::*;

verus! {

/// Mask that clears the sign bit of an `f32` bit pattern: the remaining bits
/// encode the absolute value of the sample.
pub const SIGN_MASK: u32 = 0x7fff_ffff;

/// The bit pattern of the absolute value of the sample whose bit pattern is `b`.
pub open spec fn mag_bits(b: u32) -> u32 {
    b & SIGN_MASK
}

/// One update step: raise a peak register `p` to the magnitude of sample `s`.
pub open spec fn step_peak(p: u32, s: u32) -> u32 {
    if mag_bits(s) > p {
        mag_bits(s)
    } else {
        p
    }
}

/// Both registers after consuming an interleaved buffer two samples at a
/// time (left, right); a trailing odd sample is ignored.
pub open spec fn meter_fold(pl: u32, pr: u32, samples: Seq<u32>) -> (u32, u32)
    decreases samples.len(),
{
    if samples.len() < 2 {
        (pl, pr)
    } else {
        meter_fold(step_peak(pl, samples[0]), step_peak(pr, samples[1]), samples.skip(2))
    }
}

/// Tracks, per stereo channel, the largest absolute sample magnitude seen
/// since the last read, as `f32` bit patterns.
pub struct LevelMeter {
    pub peak_left: u32,
    pub peak_right: u32,
}

impl LevelMeter {
    /// Both registers start at zero, the bit pattern of `0.0`.
    pub fn new() -> (m: LevelMeter)
        ensures
            m.peak_left == 0,
            m.peak_right == 0,
    {
        LevelMeter { peak_left: 0, peak_right: 0 }
    }

    pub open spec fn peaks(self) -> (u32, u32) {
        (self.peak_left, self.peak_right)
    }

    /// Raise each channel's register to the magnitude of the given sample
    /// (arguments are `f32` bit patterns).
    pub fn update(&mut self, left: u32, right: u32)
        ensures
            final(self).peak_left == step_peak(old(self).peak_left, left),
            final(self).peak_right == step_peak(old(self).peak_right, right),
    {
        let left_mag = left & SIGN_MASK;
        let right_mag = right & SIGN_MASK;
        if left_mag > self.peak_left {
            self.peak_left = left_mag;
        }
        if right_mag > self.peak_right {
            self.peak_right = right_mag;
        }
    }

    /// Consume an interleaved stereo buffer (left, right, left, right, ...),
    /// updating both registers pair by pair; a trailing odd sample is ignored.
    pub fn process_buffer(&mut self, samples: &Vec<u32>)
        ensures
            final(self).peaks() == meter_fold(
                old(self).peak_left,
                old(self).peak_right,
                samples@,
            ),
    {
        let ghost all = samples@;
        let ghost pl0 = self.peak_left;
        let ghost pr0 = self.peak_right;
        proof {
            assert(all.skip(0) =~= all);
        }
        let n = samples.len();
        let mut i: usize = 0;
        while i + 1 < n
            invariant
                i <= n,
                n == all.len(),
                all == samples@,
                i % 2 == 0,
                meter_fold(pl0, pr0, all) == meter_fold(
                    self.peak_left,
                    self.peak_right,
                    all.skip(i as int),
                ),
            decreases n - i,
        {
            proof {
                assert(all.skip(i as int).len() >= 2);
                assert(all.skip(i as int)[0] == all[i as int]);
                assert(all.skip(i as int)[1] == all[i as int + 1]);
                assert(all.skip(i as int).skip(2) =~= all.skip(i as int + 2));
            }
            self.update(samples[i], samples[i + 1]);
            i = i + 2;
        }
        proof {
            assert(all.skip(i as int).len() < 2);
        }
    }

    /// Read both registers and reset them to zero: the returned pair is the
    /// peak observed since the previous read, and a second read with no
    /// intervening update returns `(0, 0)`, which the host renders as the
    /// silence floor.
    pub fn take_peak_bits(&mut self) -> (r: (u32, u32))
        ensures
            r == old(self).peaks(),
            final(self).peak_left == 0,
            final(self).peak_right == 0,
    {
        let r = (self.peak_left, self.peak_right);
        self.peak_left = 0;
        self.peak_right = 0;
        r
    }
}

impl Default for LevelMeter {
    fn default() -> (m: LevelMeter)
        ensures
            m.peaks() == (0u32, 0u32),
    {
        LevelMeter::new()
    }
}

/// What the meter reports is exactly the running maximum: after any sequence
/// of pair updates starting from cleared registers, each register holds a
/// value no smaller than every magnitude it was shown, and, unless it still
/// holds zero, a value that one of those samples actually had. (A read then
/// returns this maximum and clears the registers, so a second consecutive
/// read returns zero, the silence floor.)
pub proof fn lemma_peak_is_running_max(samples: Seq<u32>)
    ensures
        forall|k: int|
            0 <= k && 2 * k + 1 < samples.len() ==> meter_fold(0, 0, samples).0 >= #[trigger] mag_bits(
                samples[2 * k],
            ),
        forall|k: int|
            0 <= k && 2 * k + 1 < samples.len() ==> meter_fold(0, 0, samples).1 >= #[trigger] mag_bits(
                samples[2 * k + 1],
            ),
        meter_fold(0, 0, samples).0 == 0 || exists|k: int|
            0 <= k && 2 * k + 1 < samples.len() && meter_fold(0, 0, samples).0 == #[trigger] mag_bits(
                samples[2 * k],
            ),
        meter_fold(0, 0, samples).1 == 0 || exists|k: int|
            0 <= k && 2 * k + 1 < samples.len() && meter_fold(0, 0, samples).1 == #[trigger] mag_bits(
                samples[2 * k + 1],
            ),
{
    lemma_meter_fold_max(0, 0, samples);
}

/// Generalisation of `lemma_peak_is_running_max` to arbitrary starting
/// registers, proved by induction over the sample pairs.
proof fn lemma_meter_fold_max(pl: u32, pr: u32, samples: Seq<u32>)
    ensures
        meter_fold(pl, pr, samples).0 >= pl,
        meter_fold(pl, pr, samples).1 >= pr,
        forall|k: int|
            0 <= k && 2 * k + 1 < samples.len() ==> meter_fold(pl, pr, samples).0
                >= #[trigger] mag_bits(samples[2 * k]),
        forall|k: int|
            0 <= k && 2 * k + 1 < samples.len() ==> meter_fold(pl, pr, samples).1
                >= #[trigger] mag_bits(samples[2 * k + 1]),
        meter_fold(pl, pr, samples).0 == pl || exists|k: int|
            0 <= k && 2 * k + 1 < samples.len() && meter_fold(pl, pr, samples).0
                == #[trigger] mag_bits(samples[2 * k]),
        meter_fold(pl, pr, samples).1 == pr || exists|k: int|
            0 <= k && 2 * k + 1 < samples.len() && meter_fold(pl, pr, samples).1
                == #[trigger] mag_bits(samples[2 * k + 1]),
    decreases samples.len(),
{
    if samples.len() < 2 {
    } else {
        let pl1 = step_peak(pl, samples[0]);
        let pr1 = step_peak(pr, samples[1]);
        let rest = samples.skip(2);
        lemma_meter_fold_max(pl1, pr1, rest);
        assert forall|k: int| 0 <= k && 2 * k + 1 < samples.len() implies meter_fold(
            pl,
            pr,
            samples,
        ).0 >= #[trigger] mag_bits(samples[2 * k]) by {
            if k > 0 {
                assert(rest[2 * (k - 1)] == samples[2 * k]);
                assert(mag_bits(rest[2 * (k - 1)]) == mag_bits(samples[2 * k]));
            }
        }
        assert forall|k: int| 0 <= k && 2 * k + 1 < samples.len() implies meter_fold(
            pl,
            pr,
            samples,
        ).1 >= #[trigger] mag_bits(samples[2 * k + 1]) by {
            if k > 0 {
                assert(rest[2 * (k - 1) + 1] == samples[2 * k + 1]);
                assert(mag_bits(rest[2 * (k - 1) + 1]) == mag_bits(samples[2 * k + 1]));
            }
        }
        if meter_fold(pl, pr, samples).0 != pl {
            if meter_fold(pl, pr, samples).0 == pl1 && pl1 != pl {
                assert(pl1 == mag_bits(samples[0]));
                assert(meter_fold(pl, pr, samples).0 == mag_bits(samples[2 * 0int]));
            } else {
                let k0 = choose|k: int|
                    0 <= k && 2 * k + 1 < rest.len() && meter_fold(pl1, pr1, rest).0
                        == #[trigger] mag_bits(rest[2 * k]);
                assert(rest[2 * k0] == samples[2 * (k0 + 1)]);
                assert(meter_fold(pl, pr, samples).0 == mag_bits(samples[2 * (k0 + 1)]));
            }
        }
        if meter_fold(pl, pr, samples).1 != pr {
            if meter_fold(pl, pr, samples).1 == pr1 && pr1 != pr {
                assert(pr1 == mag_bits(samples[1]));
                assert(meter_fold(pl, pr, samples).1 == mag_bits(samples[2 * 0int + 1]));
            } else {
                let k0 = choose|k: int|
                    0 <= k && 2 * k + 1 < rest.len() && meter_fold(pl1, pr1, rest).1
                        == #[trigger] mag_bits(rest[2 * k + 1]);
                assert(rest[2 * k0 + 1] == samples[2 * (k0 + 1) + 1]);
                assert(meter_fold(pl, pr, samples).1 == mag_bits(samples[2 * (k0 + 1) + 1]));
            }
        }
    }
}

} // verus!
