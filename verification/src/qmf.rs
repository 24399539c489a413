//! Two-level polyphase quadrature-mirror filter tree: 16-tap FIR legs over
//! a doubled delay-line buffer, splitting one full-rate stream into four
//! subbands (analysis) and reassembling them exactly (synthesis).

use crate::math::{
    clip_intp2, clip_intp2_spec, mul_i32_bounded24, rshift64_clip24, rshift_round_spec,
    trunc_i32_spec,
};
use vstd::array::ArrayAdditionalExecFns;
use vstd::prelude::*;

verus! {

/// 16-tap FIR coefficients of the outer filter pair (forward and mirrored
/// orderings).
pub const APTX_QMF_OUTER_COEFFS: [[i32; 16]; 2] = [
    [
        730, -413, -9611, 43626, -121026, 269973, -585547, 2801966, 697128, -160481, 27611,
        8478, -10043, 3511, 688, -897,
    ],
    [
        -897, 688, 3511, -10043, 8478, 27611, -160481, 697128, 2801966, -585547, 269973,
        -121026, 43626, -9611, -413, 730,
    ],
];

/// 16-tap FIR coefficients of the inner filter pair.
pub const APTX_QMF_INNER_COEFFS: [[i32; 16]; 2] = [
    [
        1033, -584, -13592, 61697, -171156, 381799, -828088, 3962579, 985888, -226954, 39048,
        11990, -14203, 4966, 973, -1268,
    ],
    [
        -1268, 973, 4966, -14203, 11990, 39048, -226954, 985888, 3962579, -828088, 381799,
        -171156, 61697, -13592, -584, 1033,
    ],
];

pub open spec fn outer_coeffs(i: int) -> Seq<i32> {
    APTX_QMF_OUTER_COEFFS@[i]@
}

pub open spec fn inner_coeffs(i: int) -> Seq<i32> {
    APTX_QMF_INNER_COEFFS@[i]@
}

/// One FIR delay line: a 16-sample window stored twice so that any cyclic
/// 16-sample window can be read contiguously, plus the write cursor.
#[derive(Clone, Copy)]
pub struct AptxFilterSignal {
    pub buffer: [i32; 32],
    pub pos: u8,
}

/// Mathematical model of a delay line.
#[verifier::ext_equal]
pub ghost struct FilterV {
    pub buffer: Seq<i32>,
    pub pos: int,
}

impl View for AptxFilterSignal {
    type V = FilterV;

    open spec fn view(&self) -> FilterV {
        FilterV { buffer: self.buffer@, pos: self.pos as int }
    }
}

impl FilterV {
    /// The cursor stays in the window and every stored sample fits in 25
    /// signed bits (synthesis pushes unclipped sums of two 24-bit values).
    pub open spec fn wf(&self) -> bool {
        &&& self.buffer.len() == 32
        &&& 0 <= self.pos < 16
        &&& forall|i: int| 0 <= i < 32 ==> -0x100_0000 <= #[trigger] self.buffer[i] <= 0x100_0000
    }
}

/// Writing one sample at the cursor and at its doubled mirror position,
/// then advancing the cursor cyclically.
pub open spec fn filter_push_spec(f: FilterV, sample: i32) -> FilterV {
    FilterV {
        buffer: f.buffer.update(f.pos, sample).update(f.pos + 16, sample),
        pos: (f.pos + 1) % 16,
    }
}

/// Dot product of the current 16-sample window with `coeffs`, taken over
/// the first `n` taps.
pub open spec fn conv_sum(f: FilterV, coeffs: Seq<i32>, n: int) -> int
    decreases n,
{
    if n <= 0 {
        0
    } else {
        conv_sum(f, coeffs, n - 1) + f.buffer[f.pos + n - 1] * coeffs[n - 1]
    }
}

/// Full 16-tap convolution, rounded right by `shift`, truncated to 32 bits
/// and saturated to 24 signed bits.
pub open spec fn convolution_spec(f: FilterV, coeffs: Seq<i32>, shift: nat) -> int {
    clip_intp2_spec(trunc_i32_spec(rshift_round_spec(conv_sum(f, coeffs, 16), shift)), 23)
}

/// The four values produced by one polyphase analysis application: the two
/// advanced delay lines, the low-subband output and the high-subband
/// output.
pub open spec fn analysis_step_spec(
    f0: FilterV,
    f1: FilterV,
    c0: Seq<i32>,
    c1: Seq<i32>,
    shift: nat,
    s0: i32,
    s1: i32,
) -> (FilterV, FilterV, int, int) {
    let f0p = filter_push_spec(f0, s1);
    let f1p = filter_push_spec(f1, s0);
    let e0 = convolution_spec(f0p, c0, shift);
    let e1 = convolution_spec(f1p, c1, shift);
    (f0p, f1p, clip_intp2_spec(e0 + e1, 23), clip_intp2_spec(e0 - e1, 23))
}

/// The four values produced by one polyphase synthesis application: the
/// two advanced delay lines and two reconstructed full-rate samples.
pub open spec fn synthesis_step_spec(
    f0: FilterV,
    f1: FilterV,
    c0: Seq<i32>,
    c1: Seq<i32>,
    shift: nat,
    low: i32,
    high: i32,
) -> (FilterV, FilterV, int, int) {
    let f0p = filter_push_spec(f0, (low - high) as i32);
    let f1p = filter_push_spec(f1, (low + high) as i32);
    (f0p, f1p, convolution_spec(f0p, c0, shift), convolution_spec(f1p, c1, shift))
}

/// A delay line holding only zeroes, cursor at the start.
pub open spec fn filter_default_spec() -> FilterV {
    FilterV { buffer: Seq::new(32, |i: int| 0i32), pos: 0 }
}

/// A filter tree of six zeroed delay lines.
pub open spec fn qmf_default_spec() -> QmfV {
    QmfV {
        outer: seq![filter_default_spec(), filter_default_spec()],
        inner: seq![
            seq![filter_default_spec(), filter_default_spec()],
            seq![filter_default_spec(), filter_default_spec()],
        ],
    }
}

impl Default for AptxFilterSignal {
    /// A zeroed delay line.
    fn default() -> (r: Self)
        ensures
            r@ == filter_default_spec(),
            r@.wf(),
    {
        let r = AptxFilterSignal { buffer: [0; 32], pos: 0 };
        proof {
            assert(r@ =~= filter_default_spec());
        }
        r
    }
}

impl Default for AptxQmfAnalysis {
    /// A zeroed filter tree.
    fn default() -> (r: Self)
        ensures
            r@ == qmf_default_spec(),
            r@.wf(),
    {
        let f = AptxFilterSignal::default();
        let r = AptxQmfAnalysis {
            outer_filter_signal: [f, f],
            inner_filter_signal: [[f, f], [f, f]],
        };
        proof {
            assert(r@ =~~= qmf_default_spec());
        }
        r
    }
}

impl AptxFilterSignal {
    pub const FILTER_TAPS: usize = 16;

    /// Writes `sample` at the cursor and its mirror, then advances the
    /// cursor modulo the tap count.
    pub fn qmf_filter_signal_push(&mut self, sample: i32)
        requires
            old(self)@.wf(),
            -0x100_0000 <= sample <= 0x100_0000,
        ensures
            final(self)@ == filter_push_spec(old(self)@, sample),
            final(self)@.wf(),
    {
        let p = self.pos;
        self.buffer.set(p as usize, sample);
        self.buffer.set(p as usize + 16, sample);
        self.pos = (p + 1) % 16;
        proof {
            assert(self@ =~= filter_push_spec(old(self)@, sample));
        }
    }

    /// Convolves the current window with the 16 coefficients in 64-bit
    /// precision, rounds right by `shift` and saturates to 24 bits.
    pub fn qmf_convolution(&self, coeffs: &[i32; 16], shift: u32) -> (r: i32)
        requires
            self@.wf(),
            1 <= shift <= 61,
        ensures
            r == convolution_spec(self@, coeffs@, shift as nat),
            -0x80_0000 <= r <= 0x7F_FFFF,
    {
        let mut e: i64 = 0;
        let mut i: usize = 0;
        let pos = self.pos as usize;
        while i < 16
            invariant
                0 <= i <= 16,
                self@.wf(),
                pos == self@.pos,
                e == conv_sum(self@, coeffs@, i as int),
                -(i as int) * 0x80_0000_0000_0000 <= e <= (i as int) * 0x80_0000_0000_0000,
            decreases 16 - i,
        {
            let term: i64 = mul_i32_bounded24(self.buffer[pos + i], coeffs[i]);
            e = e + term;
            i = i + 1;
        }
        rshift64_clip24(e, shift)
    }
}

/// The two-level filter tree of one channel: one outer filter pair and a
/// pair of inner filter pairs.
#[derive(Clone, Copy)]
pub struct AptxQmfAnalysis {
    pub outer_filter_signal: [AptxFilterSignal; 2],
    pub inner_filter_signal: [[AptxFilterSignal; 2]; 2],
}

/// Mathematical model of the filter tree.
#[verifier::ext_equal]
pub ghost struct QmfV {
    pub outer: Seq<FilterV>,
    pub inner: Seq<Seq<FilterV>>,
}

impl View for AptxQmfAnalysis {
    type V = QmfV;

    open spec fn view(&self) -> QmfV {
        QmfV {
            outer: seq![self.outer_filter_signal@[0]@, self.outer_filter_signal@[1]@],
            inner: seq![
                seq![self.inner_filter_signal@[0]@[0]@, self.inner_filter_signal@[0]@[1]@],
                seq![self.inner_filter_signal@[1]@[0]@, self.inner_filter_signal@[1]@[1]@],
            ],
        }
    }
}

impl QmfV {
    pub open spec fn wf(&self) -> bool {
        &&& self.outer.len() == 2
        &&& self.inner.len() == 2
        &&& self.inner[0].len() == 2
        &&& self.inner[1].len() == 2
        &&& self.outer[0].wf() && self.outer[1].wf()
        &&& self.inner[0][0].wf() && self.inner[0][1].wf()
        &&& self.inner[1][0].wf() && self.inner[1][1].wf()
    }
}

/// The filter tree and the four subband outputs after one analysis of four
/// full-rate samples: the outer stage splits the pairs, the inner stages
/// split again, ordering the subbands from low to high frequency.
#[verifier::opaque]
pub open spec fn tree_analysis_spec(q: QmfV, s: Seq<i32>) -> (QmfV, Seq<i32>) {
    let o1 = analysis_step_spec(q.outer[0], q.outer[1], outer_coeffs(0), outer_coeffs(1), 23,
        s[0], s[1]);
    let o2 = analysis_step_spec(o1.0, o1.1, outer_coeffs(0), outer_coeffs(1), 23, s[2], s[3]);
    let i1 = analysis_step_spec(q.inner[0][0], q.inner[0][1], inner_coeffs(0), inner_coeffs(1),
        23, o1.2 as i32, o2.2 as i32);
    let i2 = analysis_step_spec(q.inner[1][0], q.inner[1][1], inner_coeffs(0), inner_coeffs(1),
        23, o1.3 as i32, o2.3 as i32);
    (
        QmfV {
            outer: seq![o2.0, o2.1],
            inner: seq![seq![i1.0, i1.1], seq![i2.0, i2.1]],
        },
        seq![i1.2 as i32, i1.3 as i32, i2.2 as i32, i2.3 as i32],
    )
}

/// The filter tree and the four full-rate samples after one synthesis of
/// four subband samples; the exact algebraic inverse of the analysis
/// wiring.
#[verifier::opaque]
pub open spec fn tree_synthesis_spec(q: QmfV, sub: Seq<i32>) -> (QmfV, Seq<i32>) {
    let s1 = synthesis_step_spec(q.inner[0][0], q.inner[0][1], inner_coeffs(0), inner_coeffs(1),
        22, sub[0], sub[1]);
    let s2 = synthesis_step_spec(q.inner[1][0], q.inner[1][1], inner_coeffs(0), inner_coeffs(1),
        22, sub[2], sub[3]);
    let o1 = synthesis_step_spec(q.outer[0], q.outer[1], outer_coeffs(0), outer_coeffs(1), 21,
        s1.2 as i32, s2.2 as i32);
    let o2 = synthesis_step_spec(o1.0, o1.1, outer_coeffs(0), outer_coeffs(1), 21, s1.3 as i32,
        s2.3 as i32);
    (
        QmfV {
            outer: seq![o2.0, o2.1],
            inner: seq![seq![s1.0, s1.1], seq![s2.0, s2.1]],
        },
        seq![o1.2 as i32, o1.3 as i32, o2.2 as i32, o2.3 as i32],
    )
}

impl AptxQmfAnalysis {
    pub const NB_FILTERS: usize = 2;

    /// One polyphase analysis: pushes the two samples through the filter
    /// pair (newest first), convolves, and emits the clipped sum and
    /// difference as the low and high subband outputs.
    pub fn qmf_polyphase_analysis(
        signal: &mut [AptxFilterSignal; 2],
        coeffs: &[[i32; 16]; 2],
        shift: u32,
        samples: &[i32; 2],
        low_subband_output: &mut i32,
        high_subband_output: &mut i32,
    )
        requires
            old(signal)@[0]@.wf(),
            old(signal)@[1]@.wf(),
            1 <= shift <= 61,
            -0x100_0000 <= samples@[0] <= 0x100_0000,
            -0x100_0000 <= samples@[1] <= 0x100_0000,
        ensures
            ({
                let st = analysis_step_spec(old(signal)@[0]@, old(signal)@[1]@, coeffs@[0]@,
                    coeffs@[1]@, shift as nat, samples@[0], samples@[1]);
                &&& final(signal)@[0]@ == st.0
                &&& final(signal)@[1]@ == st.1
                &&& *final(low_subband_output) == st.2
                &&& *final(high_subband_output) == st.3
            }),
            final(signal)@[0]@.wf(),
            final(signal)@[1]@.wf(),
            -0x80_0000 <= *final(low_subband_output) <= 0x7F_FFFF,
            -0x80_0000 <= *final(high_subband_output) <= 0x7F_FFFF,
    {
        let mut f0 = signal[0];
        f0.qmf_filter_signal_push(samples[1]);
        let s0 = f0.qmf_convolution(&coeffs[0], shift);
        let mut f1 = signal[1];
        f1.qmf_filter_signal_push(samples[0]);
        let s1 = f1.qmf_convolution(&coeffs[1], shift);
        signal.set(0, f0);
        signal.set(1, f1);
        proof {
            vstd::arithmetic::power2::lemma2_to64();
        }
        *low_subband_output = clip_intp2(s0 + s1, 23);
        *high_subband_output = clip_intp2(s0 - s1, 23);
    }

    /// One polyphase synthesis: reconstructs the sum and difference
    /// signals from the low and high subband inputs, pushes them through
    /// the mirrored filter pair and convolves to yield two full-rate
    /// samples.
    pub fn qmf_polyphase_synthesis(
        signal: &mut [AptxFilterSignal; 2],
        coeffs: &[[i32; 16]; 2],
        shift: u32,
        low_subband_input: i32,
        high_subband_input: i32,
    ) -> (samples: (i32, i32))
        requires
            old(signal)@[0]@.wf(),
            old(signal)@[1]@.wf(),
            1 <= shift <= 61,
            -0x80_0000 <= low_subband_input <= 0x80_0000,
            -0x80_0000 <= high_subband_input <= 0x80_0000,
        ensures
            ({
                let st = synthesis_step_spec(old(signal)@[0]@, old(signal)@[1]@, coeffs@[0]@,
                    coeffs@[1]@, shift as nat, low_subband_input, high_subband_input);
                &&& final(signal)@[0]@ == st.0
                &&& final(signal)@[1]@ == st.1
                &&& samples.0 == st.2
                &&& samples.1 == st.3
            }),
            final(signal)@[0]@.wf(),
            final(signal)@[1]@.wf(),
            -0x80_0000 <= samples.0 <= 0x7F_FFFF,
            -0x80_0000 <= samples.1 <= 0x7F_FFFF,
    {
        let sub0: i32 = low_subband_input + high_subband_input;
        let sub1: i32 = low_subband_input - high_subband_input;
        let mut f0 = signal[0];
        f0.qmf_filter_signal_push(sub1);
        let s0 = f0.qmf_convolution(&coeffs[0], shift);
        let mut f1 = signal[1];
        f1.qmf_filter_signal_push(sub0);
        let s1 = f1.qmf_convolution(&coeffs[1], shift);
        signal.set(0, f0);
        signal.set(1, f1);
        (s0, s1)
    }

    /// Two-level analysis: four full-rate samples in, four subband samples
    /// out (low to high frequency), advancing all six delay lines.
    pub fn tree_analysis(&mut self, samples: &[i32; 4], subband_samples: &mut [i32; 4])
        requires
            old(self)@.wf(),
            forall|i: int| 0 <= i < 4 ==> -0x100_0000 <= #[trigger] samples@[i] <= 0x100_0000,
        ensures
            final(self)@ == tree_analysis_spec(old(self)@, samples@).0,
            final(subband_samples)@ == tree_analysis_spec(old(self)@, samples@).1,
            final(self)@.wf(),
            forall|i: int| 0 <= i < 4 ==> -0x80_0000 <= #[trigger] final(subband_samples)@[i]
                <= 0x7F_FFFF,
    {
        let mut low0: i32 = 0;
        let mut high0: i32 = 0;
        let mut low1: i32 = 0;
        let mut high1: i32 = 0;
        let in0: [i32; 2] = [samples[0], samples[1]];
        Self::qmf_polyphase_analysis(&mut self.outer_filter_signal, &APTX_QMF_OUTER_COEFFS, 23,
            &in0, &mut low0, &mut high0);
        let in1: [i32; 2] = [samples[2], samples[3]];
        Self::qmf_polyphase_analysis(&mut self.outer_filter_signal, &APTX_QMF_OUTER_COEFFS, 23,
            &in1, &mut low1, &mut high1);

        let mut sb0: i32 = 0;
        let mut sb1: i32 = 0;
        let mut sb2: i32 = 0;
        let mut sb3: i32 = 0;
        let mut inner0 = self.inner_filter_signal[0];
        let mid0: [i32; 2] = [low0, low1];
        Self::qmf_polyphase_analysis(&mut inner0, &APTX_QMF_INNER_COEFFS, 23, &mid0, &mut sb0,
            &mut sb1);
        self.inner_filter_signal.set(0, inner0);
        let mut inner1 = self.inner_filter_signal[1];
        let mid1: [i32; 2] = [high0, high1];
        Self::qmf_polyphase_analysis(&mut inner1, &APTX_QMF_INNER_COEFFS, 23, &mid1, &mut sb2,
            &mut sb3);
        self.inner_filter_signal.set(1, inner1);

        subband_samples.set(0, sb0);
        subband_samples.set(1, sb1);
        subband_samples.set(2, sb2);
        subband_samples.set(3, sb3);
        proof {
            reveal(tree_analysis_spec);
            let st = tree_analysis_spec(old(self)@, samples@);
            assert(self@ =~~= st.0);
            assert(subband_samples@ =~= st.1);
        }
    }

    /// Two-level synthesis: four subband samples in, four full-rate
    /// samples out, advancing all six delay lines; the inverse wiring of
    /// the analysis tree.
    pub fn tree_synthesis(&mut self, subband_samples: &[i32; 4], samples: &mut [i32; 4])
        requires
            old(self)@.wf(),
            forall|i: int| 0 <= i < 4 ==> -0x80_0000 <= #[trigger] subband_samples@[i]
                <= 0x80_0000,
        ensures
            final(self)@ == tree_synthesis_spec(old(self)@, subband_samples@).0,
            final(samples)@ == tree_synthesis_spec(old(self)@, subband_samples@).1,
            final(self)@.wf(),
            forall|i: int| 0 <= i < 4 ==> -0x80_0000 <= #[trigger] final(samples)@[i]
                <= 0x7F_FFFF,
    {
        let mut inner0 = self.inner_filter_signal[0];
        let mid0 = Self::qmf_polyphase_synthesis(&mut inner0, &APTX_QMF_INNER_COEFFS, 22,
            subband_samples[0], subband_samples[1]);
        self.inner_filter_signal.set(0, inner0);
        let mut inner1 = self.inner_filter_signal[1];
        let mid1 = Self::qmf_polyphase_synthesis(&mut inner1, &APTX_QMF_INNER_COEFFS, 22,
            subband_samples[2], subband_samples[3]);
        self.inner_filter_signal.set(1, inner1);

        let out0 = Self::qmf_polyphase_synthesis(&mut self.outer_filter_signal,
            &APTX_QMF_OUTER_COEFFS, 21, mid0.0, mid1.0);
        let out1 = Self::qmf_polyphase_synthesis(&mut self.outer_filter_signal,
            &APTX_QMF_OUTER_COEFFS, 21, mid0.1, mid1.1);

        samples.set(0, out0.0);
        samples.set(1, out0.1);
        samples.set(2, out1.0);
        samples.set(3, out1.1);
        proof {
            reveal(tree_synthesis_spec);
            let st = tree_synthesis_spec(old(self)@, subband_samples@);
            assert(self@ =~~= st.0);
            assert(samples@ =~= st.1);
        }
    }
}

} // verus!
