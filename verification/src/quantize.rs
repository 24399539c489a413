//! Adaptive quantization of one subband residual: interval search against
//! the scaled threshold table, dithered reconstruction estimate, and the
//! choice between the two adjacent levels that also yields the
//! parity-toggled alternative used for sync-bit insertion.

use crate::math::{
    bin_search_spec, clip_intp2_i64, clip_intp2_spec, lemma_rshift_round_in_range, mul_i32,
    mul_i64_wide, rshift32_clip24, rshift64, rshift128_clip24, rshift_round_spec, trunc_i32,
    trunc_i32_spec,
};
use crate::math::aptx_bin_search;
use crate::tables::{dither_factor_spec, intervals_seq, tables_len_spec, AptxTables};
use vstd::arithmetic::power2::lemma2_to64;
use vstd::prelude::*;

verus! {

/// Quantization output of one subband: the chosen level, the adjacent
/// level of opposite parity kept for sync insertion, and the absolute
/// scalar error used to pick the cheapest parity flip.
#[derive(Clone, Copy)]
pub struct AptxQuantize {
    pub quantized_sample: i32,
    pub quantized_sample_parity_change: i32,
    pub error: i32,
}

impl Default for AptxQuantize {
    /// Zeroed quantizer output.
    fn default() -> (r: Self)
        ensures
            r == (AptxQuantize {
                quantized_sample: 0i32,
                quantized_sample_parity_change: 0i32,
                error: 0i32,
            }),
    {
        AptxQuantize { quantized_sample: 0, quantized_sample_parity_change: 0, error: 0 }
    }
}

/// Halving with the quotient rounded toward zero.
pub open spec fn tdiv2_spec(x: int) -> int {
    if x >= 0 {
        x / 2
    } else {
        -((-x) / 2)
    }
}

/// The quantized level, its parity-toggled alternative and the absolute
/// error for a residual `sd` under dither `dither` and the current
/// quantization factor `qf`, against the table set of `(hd, sb)`.
///
/// The absolute residual is capped to 23 bits and searched (scaled down by
/// 16) in the interval table; a dithered reconstruction estimate of the
/// found interval decides whether the level below fits better, and the
/// sign of the residual is folded back by two's-complement reflection.
#[verifier::opaque]
pub open spec fn quantize_difference_spec(sd: int, dither: i32, qf: int, hd: bool, sb: int)
    -> (int, int, int) {
    let iv = intervals_seq(hd, sb);
    let ivlen = tables_len_spec(hd, sb);
    let abs0 = if sd < 0 { -sd } else { sd };
    let diff_abs = if abs0 > 0x7F_FFFF { 0x7F_FFFF } else { abs0 };
    let qs0 = bin_search_spec(diff_abs / 16, qf, iv, 0, ivlen / 2);
    let sq = dither as int * dither as int;
    let d0 = clip_intp2_spec(rshift_round_spec(sq / 0x1_0000_0000, 7), 23) - 0x80_0000;
    let d1 = trunc_i32_spec(rshift_round_spec(d0 * dither_factor_spec(hd, sb, qs0) as int, 23));
    let mean = tdiv2_spec(iv[qs0 + 1] + iv[qs0]);
    let intv = if sd < 0 { -(iv[qs0 + 1] - iv[qs0]) } else { iv[qs0 + 1] - iv[qs0] };
    let a = dither as int * intv;
    let b = clip_intp2_spec(mean + d1, 23) * 0x1_0000_0000;
    let dithered = clip_intp2_spec(trunc_i32_spec(rshift_round_spec(a + b, 32)), 23);
    let err = diff_abs * 0x10_0000 - dithered * qf;
    let errq = rshift_round_spec(err, 23);
    let errabs = if errq < 0 { -errq } else { errq };
    let q1 = if err < 0 { qs0 - 1 } else { qs0 };
    let pc1 = if err < 0 { qs0 } else { qs0 - 1 };
    if sd < 0 {
        (-q1 - 1, -pc1 - 1, errabs)
    } else {
        (q1, pc1, errabs)
    }
}

impl AptxQuantize {
    /// Quantizes the residual `sample_difference` of one subband,
    /// recording the chosen level, the parity-toggled alternative (always
    /// of opposite parity) and the absolute error.
    pub fn quantize_difference(
        &mut self,
        sample_difference: i32,
        dither: i32,
        quantization_factor: i32,
        tables: &AptxTables,
    )
        requires
            tables.wf(),
            -0x80_0000 <= sample_difference <= 0x80_0000,
            0 <= quantization_factor <= 0x7D_4000,
        ensures
            ({
                let t = quantize_difference_spec(sample_difference as int, dither,
                    quantization_factor as int, tables.hd, tables.subband as int);
                &&& final(self).quantized_sample == t.0
                &&& final(self).quantized_sample_parity_change == t.1
                &&& final(self).error == t.2
            }),
            -tables.len_spec() + 1 <= final(self).quantized_sample <= tables.len_spec() - 2,
            -tables.len_spec() + 1 <= final(self).quantized_sample_parity_change
                <= tables.len_spec() - 2,
            final(self).quantized_sample - final(self).quantized_sample_parity_change == 1
                || final(self).quantized_sample_parity_change - final(self).quantized_sample
                == 1,
            final(self).error >= 0,
    {
        proof {
            reveal(quantize_difference_spec);
        }
        let iv = tables.intervals();
        let sd = sample_difference;
        let mut diff_abs: i32 = if sd < 0 { -sd } else { sd };
        if diff_abs > 0x7F_FFFF {
            diff_abs = 0x7F_FFFF;
        }
        let qs0: i32 = aptx_bin_search(diff_abs / 16, quantization_factor, iv);

        let sq: i64 = mul_i32(dither, dither);
        proof {
            assert(0 <= dither as int * dither as int <= 0x4000_0000_0000_0000)
                by (nonlinear_arith)
                requires
                    -0x8000_0000 <= dither as int <= 0x7FFF_FFFF,
            ;
            assert(sq as int / 0x1_0000_0000 <= 0x4000_0000_0000_0000int / 0x1_0000_0000) by {
                vstd::arithmetic::div_mod::lemma_div_is_ordered(sq as int,
                    0x4000_0000_0000_0000int, 0x1_0000_0000int);
            }
            crate::math::lemma_div_bounds(sq as int, 0x1_0000_0000);
        }
        let sq_hi: i32 = crate::math::div_floor_i64(sq, 0x1_0000_0000) as i32;
        let d0: i32 = rshift32_clip24(sq_hi, 7) - 0x80_0000;
        let qdf: i32 = tables.dither_factor(qs0 as usize);
        let d1: i32 = trunc_i32(rshift64(mul_i32(d0, qdf), 23));
        let ivq0: i32 = tables.interval(qs0 as usize);
        let ivq1: i32 = tables.interval(qs0 as usize + 1);
        let sum: i64 = ivq0 as i64 + ivq1 as i64;
        let mean: i64 = if sum >= 0 {
            sum / 2
        } else {
            -((-sum) / 2)
        };
        let intv: i64 = if sd < 0 {
            -(ivq1 as i64 - ivq0 as i64)
        } else {
            ivq1 as i64 - ivq0 as i64
        };
        let a: i128 = mul_i64_wide(dither as i64, intv);
        proof {
            assert(-0x2_0000_0000_0000_0000 <= dither as int * intv as int
                <= 0x2_0000_0000_0000_0000) by (nonlinear_arith)
                requires
                    -0x8000_0000 <= dither as int <= 0x7FFF_FFFF,
                    -0x4_0000_0000 <= intv as int <= 0x4_0000_0000,
            ;
        }
        let b: i64 = (clip_intp2_i64(mean + d1 as i64, 23) as i64) * 0x1_0000_0000;
        let dithered: i32 = rshift128_clip24(a + b as i128, 32);
        let scaled: i64 = mul_i32(dithered, quantization_factor);
        proof {
            assert(-0x4000_0000_0000 <= dithered as int * quantization_factor as int
                <= 0x4000_0000_0000) by (nonlinear_arith)
                requires
                    -0x80_0000 <= dithered as int <= 0x80_0000,
                    0 <= quantization_factor as int <= 0x7D_4000,
            ;
        }
        let err: i64 = diff_abs as i64 * 0x10_0000 - scaled;
        proof {
            lemma_rshift_round_in_range(err as int, 23, 0x8000_0000_0000);
            lemma2_to64();
        }
        let errq: i64 = rshift64(err, 23);
        let mut error: i32 = errq as i32;
        if error < 0 {
            error = -error;
        }
        self.error = error;
        let q1: i32 = if err < 0 { qs0 - 1 } else { qs0 };
        let pc1: i32 = if err < 0 { qs0 } else { qs0 - 1 };
        if sd < 0 {
            self.quantized_sample = -q1 - 1;
            self.quantized_sample_parity_change = -pc1 - 1;
        } else {
            self.quantized_sample = q1;
            self.quantized_sample_parity_change = pc1;
        }
    }
}

} // verus!
