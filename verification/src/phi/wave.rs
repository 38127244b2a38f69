use vstd::prelude::*;
use crate::phi::data::{div_toward_zero, lemma_div_toward_zero_bounds};

verus! {

/// The value that stands for a sine of one: samples are millionths.
pub const SINE_ONE: i32 = 1_000_000;

/// One full turn, in micro-radians.
pub const TAU_MICRO: u64 = 6_283_185;

/// One period of a wave, sampled at equal steps of phase, in millionths of its
/// peak. Sample `i` of `n` is the wave's value at `i / n` of a full turn. The game
/// reads its sines here.
#[derive(Debug)]
pub struct SineTable {
    pub samples: Vec<i32>,
}

/// The sample that stands for a phase, given in micro-radians, in a table of `len`
/// samples: the phase is taken modulo a full turn and rounded down to a step.
pub open spec fn sample_index(len: int, phase: int) -> int {
    (phase % (TAU_MICRO as int)) * len / (TAU_MICRO as int)
}

/// Whether samples may stand in a table: there is one at least, and none lies
/// beyond the peak.
pub open spec fn valid_samples(samples: Seq<i32>) -> bool {
    &&& samples.len() >= 1
    &&& forall|i: int| 0 <= i < samples.len() ==> -SINE_ONE <= #[trigger] samples[i] <= SINE_ONE
}

/// `amplitude` times a sample, in the unit of `amplitude`, rounded toward zero.
pub open spec fn scaled(amplitude: int, sample: int) -> int {
    div_toward_zero(amplitude * sample, SINE_ONE as int)
}

impl SineTable {
    pub open spec fn wf(self) -> bool {
        valid_samples(self.samples@)
    }

    /// The table's value at a phase given in micro-radians.
    pub open spec fn value_at(self, phase: int) -> int {
        self.samples@[sample_index(self.samples@.len() as int, phase)] as int
    }

    /// The offset of a wave of the given amplitude and angular velocity (in
    /// radians per second) after `t` microseconds.
    pub open spec fn offset_at(self, amplitude: int, angular_vel: int, t: int) -> int {
        scaled(amplitude, self.value_at(angular_vel * t))
    }

    /// Makes a table of the samples, if they may stand in one.
    pub fn new(samples: Vec<i32>) -> (r: Option<SineTable>)
        ensures
            r is Some <==> valid_samples(samples@),
            r matches Some(table) ==> table.samples == samples && table.wf(),
    {
        if samples.len() == 0 {
            return None;
        }
        let mut i: usize = 0;
        while i < samples.len()
            invariant
                0 <= i <= samples.len(),
                forall|j: int| 0 <= j < i ==> -SINE_ONE <= #[trigger] samples@[j] <= SINE_ONE,
            decreases samples.len() - i,
        {
            if samples[i] < -SINE_ONE || samples[i] > SINE_ONE {
                return None;
            }
            i += 1;
        }
        Some(SineTable { samples })
    }

    /// The table's value at a phase given in micro-radians.
    pub fn value(&self, phase: u128) -> (r: i32)
        requires
            self.wf(),
        ensures
            r == self.value_at(phase as int),
            -SINE_ONE <= r <= SINE_ONE,
    {
        let turn: u128 = TAU_MICRO as u128;
        let rem: u128 = phase % turn;
        let len: u128 = self.samples.len() as u128;
        proof {
            lemma_sample_index_in_range(len as int, phase as int);
            assert(0 <= rem * len <= 6_283_185 * 0xffff_ffff_ffff_ffff) by (nonlinear_arith)
                requires
                    0 <= rem < 6_283_185,
                    0 <= len <= 0xffff_ffff_ffff_ffff,
            ;
        }
        let index: usize = (rem * len / turn) as usize;
        self.samples[index]
    }

    /// The offset of a wave of the given amplitude and angular velocity (in
    /// radians per second) after `t` microseconds.
    pub fn offset(&self, amplitude: i32, angular_vel: u32, t: u64) -> (r: i64)
        requires
            self.wf(),
        ensures
            r == self.offset_at(amplitude as int, angular_vel as int, t as int),
            -abs_int(amplitude as int) <= r <= abs_int(amplitude as int),
    {
        assert(0 <= angular_vel as int * t as int <= 0xffff_ffff * 0xffff_ffff_ffff_ffff)
            by (nonlinear_arith);
        let phase: u128 = angular_vel as u128 * t as u128;
        let sample: i32 = self.value(phase);
        proof {
            lemma_scaled_within_amplitude(amplitude as int, sample as int);
        }
        let product: i64 = amplitude as i64 * sample as i64;
        product / (SINE_ONE as i64)
    }
}

/// The absolute value of an integer.
pub open spec fn abs_int(v: int) -> int {
    if v < 0 {
        -v
    } else {
        v
    }
}

/// Every phase has its sample in the table.
pub proof fn lemma_sample_index_in_range(len: int, phase: int)
    requires
        1 <= len,
    ensures
        0 <= sample_index(len, phase) < len,
{
    let turn = TAU_MICRO as int;
    let rem = phase % turn;
    assert(0 <= rem * len / turn < len) by (nonlinear_arith)
        requires
            0 <= rem < turn,
            len >= 1,
            turn == 6_283_185,
    {
        assert(rem * len < turn * len);
        assert(rem * len == turn * (rem * len / turn) + (rem * len) % turn);
        if rem * len / turn >= len {
            assert(turn * (rem * len / turn) >= turn * len);
        }
    }
}

/// A sample within the peak scales to an offset within the amplitude, and the
/// product fits well within 64 bits.
pub proof fn lemma_scaled_within_amplitude(amplitude: int, sample: int)
    requires
        -SINE_ONE <= sample <= SINE_ONE,
    ensures
        -abs_int(amplitude) <= scaled(amplitude, sample) <= abs_int(amplitude),
        -abs_int(amplitude) * 1_000_000 <= amplitude * sample <= abs_int(amplitude) * 1_000_000,
{
    let p = amplitude * sample;
    let m = abs_int(amplitude);
    assert(-m * 1_000_000 <= p <= m * 1_000_000) by (nonlinear_arith)
        requires
            p == amplitude * sample,
            m == abs_int(amplitude),
            -1_000_000 <= sample <= 1_000_000,
    ;
    lemma_div_toward_zero_bounds(p, 1_000_000);
    let q = div_toward_zero(p, 1_000_000);
    assert(-m <= q <= m) by (nonlinear_arith)
        requires
            -m * 1_000_000 <= p <= m * 1_000_000,
            p >= 0 ==> 0 <= q * 1_000_000 <= p,
            p <= 0 ==> p <= q * 1_000_000 <= 0,
            m >= 0,
    ;
}

} // verus!
