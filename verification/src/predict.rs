//! Inverse quantization with the adaptive step-size law, and the
//! backward-adaptive predictor: a two-tap short-term section with
//! sign-driven weight adaptation and a longer FIR over the rolling history
//! of reconstructed differences. Encoder and decoder run this identical
//! state machine so they stay in lockstep.

use crate::math::{
    clip_intp2, clip_intp2_i64, clip_intp2_spec, div_floor_i64, lemma_div_bounds, mul_i32,
    rem_floor_i64, rshift32, rshift128_clip24, rshift_round_spec, trunc_i32, trunc_i32_spec,
};
use crate::quantize::tdiv2_spec;
use crate::tables::{
    factor_max_spec, factor_select_offset_spec, interval_spec, invert_dither_factor_spec,
    prediction_order_spec, quantization_factor_at, quantization_factor_spec, tables_len_spec,
    AptxTables,
};
use vstd::arithmetic::power2::{lemma2_to64, pow2};
use vstd::array::ArrayAdditionalExecFns;
use vstd::prelude::*;

verus! {

/// Backward-adaptive inverse-quantizer state of one subband: the current
/// step size, its slow-moving selector and the last reconstructed
/// difference.
#[derive(Clone, Copy)]
pub struct AptxInvertQuantize {
    pub quantization_factor: i32,
    pub factor_select: i32,
    pub reconstructed_difference: i32,
}

impl AptxInvertQuantize {
    /// The selector stays clamped to the subband's table maximum, the
    /// step size within the table-driven range, and the reconstructed
    /// difference within 28 signed bits.
    pub open spec fn wf(&self, sb: int) -> bool {
        &&& 0 <= self.factor_select <= factor_max_spec(sb)
        &&& 0 <= self.quantization_factor <= 0x7D_4000
        &&& -0x800_0000 <= self.reconstructed_difference <= 0x800_0000
    }
}

/// Sign of `x - y` as `-1`, `0` or `1`.
pub open spec fn diffsign_spec(x: int, y: int) -> int {
    if x > y {
        1
    } else if x < y {
        -1
    } else {
        0
    }
}

/// Clamp of `v` to `[lo, hi]`.
pub open spec fn clamp_spec(v: int, lo: int, hi: int) -> int {
    if v < lo {
        lo
    } else if v > hi {
        hi
    } else {
        v
    }
}

/// The inverse-quantizer state after processing one quantized sample:
/// the reconstructed difference is the signed, dither-corrected interval
/// half-width scaled by the current factor, and the factor-select
/// accumulator decays by 32620/32768 plus the table offset for the level,
/// clamped to the subband maximum; the new quantization factor follows
/// the 32-entry curve shifted by the selector's distance from that
/// maximum.
#[verifier::opaque]
pub open spec fn invert_quantization_spec(
    st: AptxInvertQuantize,
    qs: int,
    dither: i32,
    hd: bool,
    sb: int,
) -> AptxInvertQuantize {
    let idx = if qs < 0 { -qs } else { qs + 1 };
    let qr0 = tdiv2_spec(interval_spec(hd, sb, idx) as int);
    let qr1 = if qs < 0 { -qr0 } else { qr0 };
    let qr = clip_intp2_spec(trunc_i32_spec(rshift_round_spec(
        qr1 * 0x1_0000_0000 + dither as int * invert_dither_factor_spec(hd, sb, idx) as int,
        32)), 23);
    let rd = (st.quantization_factor as int * qr) / 0x8_0000;
    let fs1 = rshift_round_spec(
        32620 * st.factor_select as int + factor_select_offset_spec(hd, sb, idx) as int * 0x8000,
        15);
    let fs = clamp_spec(fs1, 0, factor_max_spec(sb) as int);
    let idx2 = (fs % 256) / 8;
    let shift = (factor_max_spec(sb) as int - fs) / 256;
    let qf = (quantization_factor_spec(idx2) as int * 0x800) / (pow2(shift as nat) as int);
    AptxInvertQuantize {
        quantization_factor: qf as i32,
        factor_select: fs as i32,
        reconstructed_difference: rd as i32,
    }
}

impl AptxInvertQuantize {
    /// Reconstructs the difference encoded by `quantized_sample` and
    /// advances the adaptive step size.
    pub fn invert_quantization(&mut self, quantized_sample: i32, dither: i32, tables: &AptxTables)
        requires
            tables.wf(),
            old(self).wf(tables.subband as int),
            -tables.len_spec() + 1 <= quantized_sample <= tables.len_spec() - 2,
        ensures
            *final(self) == invert_quantization_spec(*old(self), quantized_sample as int, dither,
                tables.hd, tables.subband as int),
            final(self).wf(tables.subband as int),
    {
        proof {
            reveal(invert_quantization_spec);
        }
        let qs = quantized_sample;
        let idx: usize = if qs < 0 {
            (-qs) as usize
        } else {
            (qs + 1) as usize
        };
        let ivv: i32 = tables.interval(idx);
        let qr0: i32 = (if ivv >= 0 {
            (ivv as i64) / 2
        } else {
            -((-(ivv as i64)) / 2)
        }) as i32;
        let qr1: i32 = if qs < 0 {
            -qr0
        } else {
            qr0
        };
        let idf: i32 = tables.invert_dither_factor(idx);
        let wide: i128 = (qr1 as i128) * 0x1_0000_0000 + mul_i32(dither, idf) as i128;
        let qr: i32 = rshift128_clip24(wide, 32);
        let prod: i64 = mul_i32(self.quantization_factor, qr);
        proof {
            assert(-0x4000_0000_0000 <= self.quantization_factor as int * qr as int
                <= 0x4000_0000_0000) by (nonlinear_arith)
                requires
                    0 <= self.quantization_factor as int <= 0x7D_4000,
                    -0x80_0000 <= qr as int <= 0x80_0000,
            ;
            lemma_div_bounds(prod as int, 0x8_0000);
            vstd::arithmetic::div_mod::lemma_div_is_ordered(prod as int, 0x4000_0000_0000int,
                0x8_0000int);
            vstd::arithmetic::div_mod::lemma_div_is_ordered(-0x4000_0000_0000int, prod as int,
                0x8_0000int);
        }
        let rd: i64 = div_floor_i64(prod, 0x8_0000);
        self.reconstructed_difference = rd as i32;

        let off: i16 = tables.factor_select_offset(idx);
        let fs0: i32 = 32620 * self.factor_select + (off as i32) * 0x8000;
        let fmax: i32 = tables.factor_max();
        let fs1: i32 = rshift32(fs0, 15);
        let fs: i32 = if fs1 < 0 {
            0
        } else if fs1 > fmax {
            fmax
        } else {
            fs1
        };
        self.factor_select = fs;

        let idx2: usize = (((fs as u32) % 256) / 8) as usize;
        let shift: u32 = ((fmax - fs) / 256) as u32;
        let base: i64 = (quantization_factor_at(idx2) as i64) * 0x800;
        let d: i64 = crate::math::pow2_exec(shift);
        proof {
            lemma_div_bounds(base as int, d as int);
        }
        let qf: i64 = div_floor_i64(base, d);
        self.quantization_factor = qf as i32;
    }
}

/// The inverse-quantizer and predictor states after one subband step:
/// inverse quantization reconstructs the difference, the two short-term
/// weights adapt on sign agreement between consecutive differences with
/// explicit saturation, and the prediction filter absorbs the new
/// difference.
#[verifier::opaque]
pub open spec fn process_subband_spec(
    iq: AptxInvertQuantize,
    p: PredictionV,
    qs: int,
    dither: i32,
    hd: bool,
    sb: int,
) -> (AptxInvertQuantize, PredictionV) {
    let iq2 = invert_quantization_spec(iq, qs, dither, hd, sb);
    let sign = diffsign_spec(iq2.reconstructed_difference as int,
        -p.predicted_difference as int);
    let ss0 = sign * p.prev_sign[0] as int;
    let ss1 = sign * p.prev_sign[1] as int;
    let ps0 = p.prev_sign[1];
    let ps1: int = if sign == 0 { 1 } else { sign };
    let sw1a = rshift_round_spec(-ss1 * p.s_weight[1] as int, 1);
    let sw1b = clamp_spec(sw1a, -0x10_0000, 0x10_0000);
    let sw1c = (sw1b - sw1b % 16) * 16;
    let w0 = 254 * p.s_weight[0] as int + 0x80_0000 * ss0 + sw1c;
    let sw0n = clamp_spec(rshift_round_spec(w0, 8), -0x30_0000, 0x30_0000);
    let range = 0x3C_0000 - sw0n;
    let w1 = 255 * p.s_weight[1] as int + 0xC0_0000 * ss1;
    let sw1n = clamp_spec(rshift_round_spec(w1, 8), -range, range);
    let p2 = PredictionV {
        prev_sign: seq![ps0, ps1 as i32],
        s_weight: seq![sw0n as i32, sw1n as i32],
        ..p
    };
    (iq2, prediction_filtering_spec(p2, iq2.reconstructed_difference,
        prediction_order_spec(sb)))
}

impl AptxInvertQuantize {
    /// Runs inverse quantization for one subband and feeds the
    /// reconstructed difference through the sign-driven weight adaptation
    /// and the prediction filter.
    pub fn process_subband(
        &mut self,
        prediction: &mut AptxPrediction,
        quantized_sample: i32,
        dither: i32,
        tables: &AptxTables,
    )
        requires
            tables.wf(),
            old(self).wf(tables.subband as int),
            old(prediction)@.wf(prediction_order_spec(tables.subband as int)),
            -tables.len_spec() + 1 <= quantized_sample <= tables.len_spec() - 2,
        ensures
            *final(self) == process_subband_spec(*old(self), old(prediction)@,
                quantized_sample as int, dither, tables.hd, tables.subband as int).0,
            final(prediction)@ == process_subband_spec(*old(self), old(prediction)@,
                quantized_sample as int, dither, tables.hd, tables.subband as int).1,
            final(self).wf(tables.subband as int),
            final(prediction)@.wf(prediction_order_spec(tables.subband as int)),
    {
        proof {
            reveal(process_subband_spec);
        }
        self.invert_quantization(quantized_sample, dither, tables);
        let rd: i32 = self.reconstructed_difference;
        let npd: i32 = -prediction.predicted_difference;
        let sign: i32 = if rd > npd {
            1
        } else if rd < npd {
            -1
        } else {
            0
        };
        let ps0_old: i32 = prediction.prev_sign[0];
        let ps1_old: i32 = prediction.prev_sign[1];
        let ss0: i32 = if sign == 0 {
            0
        } else if sign > 0 {
            ps0_old
        } else {
            -ps0_old
        };
        let ss1: i32 = if sign == 0 {
            0
        } else if sign > 0 {
            ps1_old
        } else {
            -ps1_old
        };
        let sw0_old: i32 = prediction.s_weight[0];
        let sw1_old: i32 = prediction.s_weight[1];
        let t1: i32 = if ss1 == 0 {
            0
        } else if ss1 > 0 {
            -sw1_old
        } else {
            sw1_old
        };
        let sw1a: i32 = rshift32(t1, 1);
        let sw1b: i32 = if sw1a < -0x10_0000 {
            -0x10_0000
        } else if sw1a > 0x10_0000 {
            0x10_0000
        } else {
            sw1a
        };
        let m16: i64 = rem_floor_i64(sw1b as i64, 16);
        let sw1c: i32 = ((sw1b as i64 - m16) * 16) as i32;
        let w0: i32 = 254 * sw0_old
            + (if ss0 == 0 { 0 } else if ss0 > 0 { 0x80_0000 } else { -0x80_0000 })
            + sw1c;
        let sw0r: i32 = rshift32(w0, 8);
        let sw0n: i32 = if sw0r < -0x30_0000 {
            -0x30_0000
        } else if sw0r > 0x30_0000 {
            0x30_0000
        } else {
            sw0r
        };
        prediction.s_weight.set(0, sw0n);
        let range: i32 = 0x3C_0000 - sw0n;
        let w1: i32 = 255 * sw1_old
            + (if ss1 == 0 { 0 } else if ss1 > 0 { 0xC0_0000 } else { -0xC0_0000 });
        let sw1r: i32 = rshift32(w1, 8);
        let sw1n: i32 = if sw1r < -range {
            -range
        } else if sw1r > range {
            range
        } else {
            sw1r
        };
        prediction.s_weight.set(1, sw1n);
        prediction.prev_sign.set(0, ps1_old);
        prediction.prev_sign.set(1, if sign == 0 { 1 } else { sign });
        let ghost p2 = prediction@;
        proof {
            assert(ss0 as int == sign as int * ps0_old as int) by (nonlinear_arith)
                requires
                    sign == 0 ==> ss0 == 0,
                    sign == 1 ==> ss0 == ps0_old,
                    sign == -1 ==> ss0 == -ps0_old && ps0_old != -0x8000_0000,
                    sign == 0 || sign == 1 || sign == -1,
            ;
            assert(ss1 as int == sign as int * ps1_old as int) by (nonlinear_arith)
                requires
                    sign == 0 ==> ss1 == 0,
                    sign == 1 ==> ss1 == ps1_old,
                    sign == -1 ==> ss1 == -ps1_old && ps1_old != -0x8000_0000,
                    sign == 0 || sign == 1 || sign == -1,
            ;
            assert(t1 as int == -(ss1 as int) * sw1_old as int) by (nonlinear_arith)
                requires
                    ss1 == 0 ==> t1 == 0,
                    ss1 == 1 ==> t1 == -sw1_old && sw1_old != -0x8000_0000,
                    ss1 == -1 ==> t1 == sw1_old,
                    ss1 == 0 || ss1 == 1 || ss1 == -1,
            ;
            assert(p2 =~= PredictionV {
                prev_sign: seq![ps1_old, if sign == 0 { 1i32 } else { sign }],
                s_weight: seq![sw0n, sw1n],
                ..old(prediction)@
            });
        }
        let order: usize = tables.prediction_order();
        prediction.prediction_filtering(rd, order);
    }
}

/// Backward-adaptive predictor state of one subband.
#[derive(Clone, Copy)]
pub struct AptxPrediction {
    pub prev_sign: [i32; 2],
    pub s_weight: [i32; 2],
    pub d_weight: [i32; 24],
    pub pos: i32,
    pub reconstructed_differences: [i32; 48],
    pub previous_reconstructed_sample: i32,
    pub predicted_difference: i32,
    pub predicted_sample: i32,
}

/// Mathematical model of the predictor state.
#[verifier::ext_equal]
pub ghost struct PredictionV {
    pub prev_sign: Seq<i32>,
    pub s_weight: Seq<i32>,
    pub d_weight: Seq<i32>,
    pub pos: int,
    pub reconstructed_differences: Seq<i32>,
    pub previous_reconstructed_sample: i32,
    pub predicted_difference: i32,
    pub predicted_sample: i32,
}

impl View for AptxPrediction {
    type V = PredictionV;

    open spec fn view(&self) -> PredictionV {
        PredictionV {
            prev_sign: self.prev_sign@,
            s_weight: self.s_weight@,
            d_weight: self.d_weight@,
            pos: self.pos as int,
            reconstructed_differences: self.reconstructed_differences@,
            previous_reconstructed_sample: self.previous_reconstructed_sample,
            predicted_difference: self.predicted_difference,
            predicted_sample: self.predicted_sample,
        }
    }
}

impl PredictionV {
    /// Signs are units, the short-term weights sit inside their
    /// saturation ranges, the FIR weights inside their decay bound, the
    /// ring cursor inside the subband's order, and all samples inside
    /// their fixed-point ranges.
    pub open spec fn wf(&self, order: int) -> bool {
        &&& self.prev_sign.len() == 2
        &&& self.s_weight.len() == 2
        &&& self.d_weight.len() == 24
        &&& self.reconstructed_differences.len() == 48
        &&& (self.prev_sign[0] == 1 || self.prev_sign[0] == -1)
        &&& (self.prev_sign[1] == 1 || self.prev_sign[1] == -1)
        &&& -0x30_0000 <= self.s_weight[0] <= 0x30_0000
        &&& -0x6C_0000 <= self.s_weight[1] <= 0x6C_0000
        &&& (forall|j: int| 0 <= j < 24 ==> -0x90_0000 <= #[trigger] self.d_weight[j]
            <= 0x90_0000)
        &&& 0 <= self.pos < order
        &&& (forall|j: int| 0 <= j < 48 ==>
            -0x800_0000 <= #[trigger] self.reconstructed_differences[j] <= 0x800_0000)
        &&& -0x80_0000 <= self.previous_reconstructed_sample <= 0x80_0000
        &&& -0x80_0000 <= self.predicted_difference <= 0x80_0000
        &&& -0x80_0000 <= self.predicted_sample <= 0x80_0000
    }
}

impl Default for AptxInvertQuantize {
    /// Zeroed inverse-quantizer state.
    fn default() -> (r: Self)
        ensures
            r == (AptxInvertQuantize {
                quantization_factor: 0i32,
                factor_select: 0i32,
                reconstructed_difference: 0i32,
            }),
    {
        AptxInvertQuantize { quantization_factor: 0, factor_select: 0, reconstructed_difference: 0 }
    }
}

/// A zeroed predictor state (the unit signs of a fresh context are set by
/// the context constructor).
pub open spec fn prediction_default_spec() -> PredictionV {
    PredictionV {
        prev_sign: Seq::new(2, |i: int| 0i32),
        s_weight: Seq::new(2, |i: int| 0i32),
        d_weight: Seq::new(24, |i: int| 0i32),
        pos: 0,
        reconstructed_differences: Seq::new(48, |i: int| 0i32),
        previous_reconstructed_sample: 0,
        predicted_difference: 0,
        predicted_sample: 0,
    }
}

impl Default for AptxPrediction {
    /// Zeroed predictor state.
    fn default() -> (r: Self)
        ensures
            r@ == prediction_default_spec(),
    {
        let r = AptxPrediction {
            prev_sign: [0; 2],
            s_weight: [0; 2],
            d_weight: [0; 24],
            pos: 0,
            reconstructed_differences: [0; 48],
            previous_reconstructed_sample: 0,
            predicted_difference: 0,
            predicted_sample: 0,
        };
        proof {
            assert(r@ =~= prediction_default_spec());
        }
        r
    }
}

/// The FIR pass over the first `n` taps: each weight decays toward the
/// sign agreement of its history sample with the new difference, and the
/// pass accumulates the dot product of the history with the updated
/// weights.
pub open spec fn pred_loop_spec(dw: Seq<i32>, rda: Seq<i32>, base: int, srd0: int, n: int)
    -> (Seq<i32>, int)
    decreases n,
{
    if n <= 0 {
        (dw, 0)
    } else {
        let prev = pred_loop_spec(dw, rda, base, srd0, n - 1);
        let i = n - 1;
        let srd: int = if rda[base - 1 - i] < 0 { -1 } else { 1 };
        let dwn = rshift_round_spec(prev.0[i] - srd * srd0, 8);
        let upd = prev.0.update(i, (prev.0[i] - dwn) as i32);
        (upd, prev.1 + rda[base - i] * upd[i])
    }
}

/// Taps at or beyond `n` are untouched by the FIR pass.
pub proof fn lemma_pred_loop_frame(dw: Seq<i32>, rda: Seq<i32>, base: int, srd0: int, n: int)
    requires
        0 <= n <= dw.len(),
    ensures
        pred_loop_spec(dw, rda, base, srd0, n).0.len() == dw.len(),
        forall|j: int| n <= j < dw.len() ==>
            pred_loop_spec(dw, rda, base, srd0, n).0[j] == dw[j],
    decreases n,
{
    if n > 0 {
        lemma_pred_loop_frame(dw, rda, base, srd0, n - 1);
    }
}

/// The ring update of the difference history: the shadow copy keeps the
/// window readable without wraparound, then the cursor advances modulo
/// the order and the new difference lands at its mirrored slot.
pub open spec fn rd_update_spec(p: PredictionV, rd: i32, order: int) -> PredictionV {
    let a1 = p.reconstructed_differences.update(p.pos,
        p.reconstructed_differences[order + p.pos]);
    let pos2 = (p.pos + 1) % order;
    PredictionV {
        reconstructed_differences: a1.update(order + pos2, rd),
        pos: pos2,
        ..p
    }
}

/// The predictor state after one filtering step: the clipped
/// reconstruction updates the short-term section, the history ring takes
/// the new difference, every FIR weight decays by sign agreement, and the
/// new prediction is the clipped sum of both contributions.
#[verifier::opaque]
pub open spec fn prediction_filtering_spec(p: PredictionV, rd: i32, order: int) -> PredictionV {
    let rs = clip_intp2_spec(rd + p.predicted_sample, 23);
    let predictor = clip_intp2_spec(
        (p.s_weight[0] * p.previous_reconstructed_sample
            + p.s_weight[1] * rs) / 0x40_0000, 23);
    let p1 = rd_update_spec(p, rd, order);
    let srd0: int = if rd > 0 { 0x80_0000 } else if rd < 0 { -0x80_0000 } else { 0 };
    let lp = pred_loop_spec(p1.d_weight, p1.reconstructed_differences, order + p1.pos, srd0,
        order);
    let pd = clip_intp2_spec(trunc_i32_spec(lp.1 / 0x40_0000), 23);
    PredictionV {
        d_weight: lp.0,
        previous_reconstructed_sample: rs as i32,
        predicted_difference: pd as i32,
        predicted_sample: clip_intp2_spec(predictor + pd, 23) as i32,
        ..p1
    }
}

impl AptxPrediction {
    /// Shifts the new reconstructed difference into the history ring,
    /// keeping the shadow copy that makes the ring readable as one
    /// contiguous window.
    pub fn reconstructed_differences_update(&mut self, reconstructed_difference: i32,
        order: usize)
        requires
            1 <= order <= 24,
            0 <= old(self).pos < order,
        ensures
            final(self)@ == rd_update_spec(old(self)@, reconstructed_difference, order as int),
            final(self).pos == (old(self).pos + 1) % (order as int),
            0 <= final(self).pos < order,
    {
        let p0 = self.pos as usize;
        let shadow: i32 = self.reconstructed_differences[order + p0];
        self.reconstructed_differences.set(p0, shadow);
        let p1: usize = (p0 + 1) % order;
        self.pos = p1 as i32;
        self.reconstructed_differences.set(order + p1, reconstructed_difference);
        proof {
            assert(self@ =~= rd_update_spec(old(self)@, reconstructed_difference, order as int));
        }
    }

    /// One step of the backward-adaptive prediction filter.
    pub fn prediction_filtering(&mut self, reconstructed_difference: i32, order: usize)
        requires
            old(self)@.wf(order as int),
            1 <= order <= 24,
            -0x800_0000 <= reconstructed_difference <= 0x800_0000,
        ensures
            final(self)@ == prediction_filtering_spec(old(self)@, reconstructed_difference,
                order as int),
            final(self)@.wf(order as int),
    {
        let rd = reconstructed_difference;
        proof {
            reveal(prediction_filtering_spec);
            lemma2_to64();
        }
        let rs: i32 = clip_intp2_i64(rd as i64 + self.predicted_sample as i64, 23);
        let n0: i64 = mul_i32(self.s_weight[0], self.previous_reconstructed_sample);
        let n1: i64 = mul_i32(self.s_weight[1], rs);
        proof {
            assert(-0x1800_0000_0000 <= self.s_weight@[0] as int
                * self.previous_reconstructed_sample as int <= 0x1800_0000_0000)
                by (nonlinear_arith)
                requires
                    -0x30_0000 <= self.s_weight@[0] as int <= 0x30_0000,
                    -0x80_0000 <= self.previous_reconstructed_sample as int <= 0x80_0000,
            ;
            assert(-0x3600_0000_0000 <= self.s_weight@[1] as int * rs as int
                <= 0x3600_0000_0000) by (nonlinear_arith)
                requires
                    -0x6C_0000 <= self.s_weight@[1] as int <= 0x6C_0000,
                    -0x80_0000 <= rs as int <= 0x80_0000,
            ;
        }
        let num: i64 = n0 + n1;
        proof {
            lemma_div_bounds(num as int, 0x40_0000);
        }
        let predictor: i32 = clip_intp2_i64(div_floor_i64(num, 0x40_0000), 23);
        self.previous_reconstructed_sample = rs;

        self.reconstructed_differences_update(rd, order);
        let base: usize = order + self.pos as usize;
        let srd0: i32 = if rd > 0 {
            0x80_0000
        } else if rd < 0 {
            -0x80_0000
        } else {
            0
        };
        let ghost dw0 = self.d_weight@;
        let ghost rda = self.reconstructed_differences@;
        let ghost mid = self@;
        let mut pd: i64 = 0;
        let mut i: usize = 0;
        while i < order
            invariant
                0 <= i <= order,
                1 <= order <= 24,
                dw0.len() == 24,
                rda.len() == 48,
                base == order + self@.pos,
                0 <= self@.pos < order,
                self@.d_weight.len() == 24,
                self@.reconstructed_differences.len() == 48,
                rda == self@.reconstructed_differences,
                mid == (PredictionV { d_weight: dw0, ..self@ }),
                forall|j: int| 0 <= j < 48 ==> -0x800_0000 <= #[trigger] rda[j] <= 0x800_0000,
                forall|j: int| 0 <= j < 24 ==> -0x90_0000 <= #[trigger] dw0[j] <= 0x90_0000,
                forall|j: int| 0 <= j < 24 ==> -0x90_0000 <= #[trigger] self@.d_weight[j]
                    <= 0x90_0000,
                -0x80_0000 <= srd0 <= 0x80_0000,
                (srd0 == 0x80_0000 || srd0 == -0x80_0000 || srd0 == 0),
                self@.d_weight == pred_loop_spec(dw0, rda, base as int, srd0 as int, i as int).0,
                pd == pred_loop_spec(dw0, rda, base as int, srd0 as int, i as int).1,
                -(i as int) * 0x48_0000_0000_0000 <= pd <= (i as int) * 0x48_0000_0000_0000,
            decreases order - i,
        {
            let ghost i0 = i as int;
            proof {
                lemma_pred_loop_frame(dw0, rda, base as int, srd0 as int, i0);
            }
            let srd: i32 = if self.reconstructed_differences[base - 1 - i] < 0 {
                -1
            } else {
                1
            };
            let dwi: i32 = self.d_weight[i];
            let t: i32 = if srd < 0 {
                dwi + srd0
            } else {
                dwi - srd0
            };
            let upd: i32 = rshift32(t, 8);
            proof {
                lemma2_to64();
                vstd::arithmetic::div_mod::lemma_fundamental_div_mod(t as int + 128, 256);
                vstd::arithmetic::div_mod::lemma_mod_bound(t as int + 128, 256);
            }
            let dwn: i32 = dwi - upd;
            self.d_weight.set(i, dwn);
            let term: i64 = mul_i32(self.reconstructed_differences[base - i], dwn);
            proof {
                assert(-0x48_0000_0000_0000 <= rda[base - i0] as int * dwn as int
                    <= 0x48_0000_0000_0000) by (nonlinear_arith)
                    requires
                        -0x800_0000 <= rda[base - i0] as int <= 0x800_0000,
                        -0x90_0000 <= dwn as int <= 0x90_0000,
                ;
            }
            pd = pd + term;
            i = i + 1;
            proof {
                assert(self@.d_weight =~= pred_loop_spec(dw0, rda, base as int, srd0 as int,
                    i as int).0);
            }
        }
        proof {
            lemma_div_bounds(pd as int, 0x40_0000);
        }
        let pdq: i64 = div_floor_i64(pd, 0x40_0000);
        let pdt: i32 = trunc_i32(pdq);
        self.predicted_difference = clip_intp2(pdt, 23);
        self.predicted_sample = clip_intp2(predictor + self.predicted_difference, 23);
        proof {
            assert(self@ =~= prediction_filtering_spec(old(self)@, reconstructed_difference,
                order as int));
        }
    }
}

} // verus!
