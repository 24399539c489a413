//! One audio channel of the codec: the filter tree, the four subband
//! processors, the rolling codeword history that seeds the dither
//! generator, and the bit-exact packing and unpacking of 16-bit and
//! 24-bit codewords.

use crate::math::{
    clip_intp2, clip_intp2_spec, div_floor_i64, rem_floor_i64, sign_extend, sign_extend_spec,
    trunc_i32, trunc_i32_spec,
};
use crate::predict::{
    process_subband_spec, AptxInvertQuantize, AptxPrediction, PredictionV,
};
use crate::qmf::{tree_analysis_spec, tree_synthesis_spec, AptxQmfAnalysis, QmfV};
use crate::quantize::{quantize_difference_spec, AptxQuantize};
use crate::tables::{prediction_order_spec, tables_len_spec, AptxTables};
use vstd::array::ArrayAdditionalExecFns;
use vstd::prelude::*;

verus! {

/// One stereo half of the codec: filter tree, subband state and the
/// dither machinery seeded by the rolling codeword history.
#[derive(Clone, Copy)]
pub struct AptxChannel {
    pub codeword_history: i32,
    pub dither_parity: i32,
    pub qmf: AptxQmfAnalysis,
    pub dither: [i32; 4],
    pub quantize: [AptxQuantize; 4],
    pub invert_quantize: [AptxInvertQuantize; 4],
    pub prediction: [AptxPrediction; 4],
    pub samples: [i32; 4],
}

/// Mathematical model of one channel.
#[verifier::ext_equal]
pub ghost struct ChannelV {
    pub codeword_history: i32,
    pub dither_parity: i32,
    pub qmf: QmfV,
    pub dither: Seq<i32>,
    pub quantize: Seq<AptxQuantize>,
    pub invert_quantize: Seq<AptxInvertQuantize>,
    pub prediction: Seq<PredictionV>,
    pub samples: Seq<i32>,
}

impl View for AptxChannel {
    type V = ChannelV;

    open spec fn view(&self) -> ChannelV {
        ChannelV {
            codeword_history: self.codeword_history,
            dither_parity: self.dither_parity,
            qmf: self.qmf@,
            dither: self.dither@,
            quantize: self.quantize@,
            invert_quantize: self.invert_quantize@,
            prediction: seq![
                self.prediction@[0]@,
                self.prediction@[1]@,
                self.prediction@[2]@,
                self.prediction@[3]@,
            ],
            samples: self.samples@,
        }
    }
}

/// Both quantized levels of one subband stay inside the signed range its
/// codeword field can carry.
pub open spec fn quantize_in_range(q: AptxQuantize, hd: bool, sb: int) -> bool {
    &&& -tables_len_spec(hd, sb) + 1 <= q.quantized_sample <= tables_len_spec(hd, sb) - 2
    &&& -tables_len_spec(hd, sb) + 1 <= q.quantized_sample_parity_change
        <= tables_len_spec(hd, sb) - 2
}

impl ChannelV {
    /// Well-formedness of a whole channel for the codec variant `hd`.
    pub open spec fn wf(&self, hd: bool) -> bool {
        &&& self.dither.len() == 4
        &&& self.quantize.len() == 4
        &&& self.invert_quantize.len() == 4
        &&& self.prediction.len() == 4
        &&& self.samples.len() == 4
        &&& self.qmf.wf()
        &&& forall|sb: int| 0 <= sb < 4 ==> (#[trigger] self.invert_quantize[sb]).wf(sb)
        &&& forall|sb: int| 0 <= sb < 4 ==>
            (#[trigger] self.prediction[sb]).wf(prediction_order_spec(sb))
        &&& forall|sb: int| 0 <= sb < 4 ==> quantize_in_range(#[trigger] self.quantize[sb], hd, sb)
        &&& forall|sb: int| 0 <= sb < 4 ==> -0x100_0000 <= #[trigger] self.samples[sb]
            <= 0x100_0000
    }
}

/// The new codeword history: the two lowest bits of the low subband, one
/// bit each of the next two subbands, shifted in above the old history.
pub open spec fn update_codeword_history_spec(ch: ChannelV) -> i32 {
    let q0 = ch.quantize[0].quantized_sample as int;
    let q1 = ch.quantize[1].quantized_sample as int;
    let q2 = ch.quantize[2].quantized_sample as int;
    let cw = q0 % 4 + 2 * (q1 % 4 - q1 % 2) + 8 * (q2 % 2);
    trunc_i32_spec(cw * 256 + ch.codeword_history as int * 16) as i32
}

/// The channel after one dither generation: the history advances, the
/// multiplicative hash of its top bits yields one 32-bit dither word,
/// spread across the four subbands at decreasing amplitude, and its bit
/// 25 becomes the dither parity.
#[verifier::opaque]
pub open spec fn generate_dither_spec(ch: ChannelV) -> ChannelV {
    let h = update_codeword_history_spec(ch);
    let m = 5184443 * (h as int / 128);
    let d = trunc_i32_spec(4 * m + m / 0x40_0000);
    ChannelV {
        codeword_history: h,
        dither: seq![
            trunc_i32_spec(d * 0x80_0000) as i32,
            trunc_i32_spec(d * 0x4_0000) as i32,
            trunc_i32_spec(d * 0x2000) as i32,
            trunc_i32_spec(d * 0x100) as i32,
        ],
        dither_parity: ((d / 0x200_0000) % 2) as i32,
        ..ch
    }
}

/// Helper shaping one quantizer result triple into the stored state.
pub open spec fn mk_quantize(t: (int, int, int)) -> AptxQuantize {
    AptxQuantize {
        quantized_sample: t.0 as i32,
        quantized_sample_parity_change: t.1 as i32,
        error: t.2 as i32,
    }
}

/// The channel after encoding four samples: the filter tree splits them
/// into subbands, fresh dither is generated, and each subband residual
/// (against its predictor) is quantized with the current step size.
#[verifier::opaque]
pub open spec fn encode_channel_spec(ch: ChannelV, hd: bool) -> ChannelV {
    let ta = tree_analysis_spec(ch.qmf, ch.samples);
    let ch1 = generate_dither_spec(ChannelV { qmf: ta.0, ..ch });
    let sub = ta.1;
    ChannelV {
        quantize: seq![
            mk_quantize(quantize_difference_spec(
                clip_intp2_spec(sub[0] - ch.prediction[0].predicted_sample, 23),
                ch1.dither[0], ch.invert_quantize[0].quantization_factor as int, hd, 0)),
            mk_quantize(quantize_difference_spec(
                clip_intp2_spec(sub[1] - ch.prediction[1].predicted_sample, 23),
                ch1.dither[1], ch.invert_quantize[1].quantization_factor as int, hd, 1)),
            mk_quantize(quantize_difference_spec(
                clip_intp2_spec(sub[2] - ch.prediction[2].predicted_sample, 23),
                ch1.dither[2], ch.invert_quantize[2].quantization_factor as int, hd, 2)),
            mk_quantize(quantize_difference_spec(
                clip_intp2_spec(sub[3] - ch.prediction[3].predicted_sample, 23),
                ch1.dither[3], ch.invert_quantize[3].quantization_factor as int, hd, 3)),
        ],
        ..ch1
    }
}

/// The channel after one synthesis: the four previous reconstructed
/// samples run back through the inverse filter tree into four full-rate
/// samples.
#[verifier::opaque]
pub open spec fn decode_channel_spec(ch: ChannelV) -> ChannelV {
    let sub = seq![
        ch.prediction[0].previous_reconstructed_sample,
        ch.prediction[1].previous_reconstructed_sample,
        ch.prediction[2].previous_reconstructed_sample,
        ch.prediction[3].previous_reconstructed_sample,
    ];
    let ts = tree_synthesis_spec(ch.qmf, sub);
    ChannelV { qmf: ts.0, samples: ts.1, ..ch }
}

/// The channel after inverse quantization and prediction of all four
/// subbands.
#[verifier::opaque]
pub open spec fn invert_quantize_and_prediction_spec(ch: ChannelV, hd: bool) -> ChannelV {
    let s0 = process_subband_spec(ch.invert_quantize[0], ch.prediction[0],
        ch.quantize[0].quantized_sample as int, ch.dither[0], hd, 0);
    let s1 = process_subband_spec(ch.invert_quantize[1], ch.prediction[1],
        ch.quantize[1].quantized_sample as int, ch.dither[1], hd, 1);
    let s2 = process_subband_spec(ch.invert_quantize[2], ch.prediction[2],
        ch.quantize[2].quantized_sample as int, ch.dither[2], hd, 2);
    let s3 = process_subband_spec(ch.invert_quantize[3], ch.prediction[3],
        ch.quantize[3].quantized_sample as int, ch.dither[3], hd, 3);
    ChannelV {
        invert_quantize: seq![s0.0, s1.0, s2.0, s3.0],
        prediction: seq![s0.1, s1.1, s2.1, s3.1],
        ..ch
    }
}

/// The channel's synchronisation parity: the dither parity bit combined
/// with the low bit of every subband's quantized sample.
pub open spec fn quantized_parity_spec(ch: ChannelV) -> int {
    (ch.dither_parity as int % 2
        + ch.quantize[0].quantized_sample as int % 2
        + ch.quantize[1].quantized_sample as int % 2
        + ch.quantize[2].quantized_sample as int % 2
        + ch.quantize[3].quantized_sample as int % 2) % 2
}

/// The 16-bit codeword: 7/4/2/3 bits per subband from low to high, the
/// high subband's lowest carried bit replaced by the channel parity.
#[verifier::opaque]
pub open spec fn pack_codeword_spec(ch: ChannelV) -> int {
    let q0 = ch.quantize[0].quantized_sample as int;
    let q1 = ch.quantize[1].quantized_sample as int;
    let q2 = ch.quantize[2].quantized_sample as int;
    let q3 = ch.quantize[3].quantized_sample as int;
    (q3 % 8 - q3 % 2 + quantized_parity_spec(ch)) * 0x2000
        + (q2 % 4) * 0x800
        + (q1 % 16) * 0x80
        + q0 % 128
}

/// The 24-bit codeword of HD mode: 9/6/4/5 bits per subband.
#[verifier::opaque]
pub open spec fn pack_codewordhd_spec(ch: ChannelV) -> int {
    let q0 = ch.quantize[0].quantized_sample as int;
    let q1 = ch.quantize[1].quantized_sample as int;
    let q2 = ch.quantize[2].quantized_sample as int;
    let q3 = ch.quantize[3].quantized_sample as int;
    (q3 % 32 - q3 % 2 + quantized_parity_spec(ch)) * 0x8_0000
        + (q2 % 16) * 0x8000
        + (q1 % 64) * 0x200
        + q0 % 512
}

/// The quantized samples read back from a 16-bit codeword, with the high
/// subband's low bit rederived from the recomputed parity.
#[verifier::opaque]
pub open spec fn unpack_codeword_spec(ch: ChannelV, cw: int) -> ChannelV {
    let q0 = sign_extend_spec(cw, 7);
    let q1 = sign_extend_spec(cw / 0x80, 4);
    let q2 = sign_extend_spec(cw / 0x800, 2);
    let q3 = sign_extend_spec(cw / 0x2000, 3);
    let ch1 = ChannelV {
        quantize: seq![
            AptxQuantize { quantized_sample: q0 as i32, ..ch.quantize[0] },
            AptxQuantize { quantized_sample: q1 as i32, ..ch.quantize[1] },
            AptxQuantize { quantized_sample: q2 as i32, ..ch.quantize[2] },
            AptxQuantize { quantized_sample: q3 as i32, ..ch.quantize[3] },
        ],
        ..ch
    };
    let q3p = q3 - q3 % 2 + quantized_parity_spec(ch1);
    ChannelV {
        quantize: ch1.quantize.update(3,
            AptxQuantize { quantized_sample: q3p as i32, ..ch.quantize[3] }),
        ..ch1
    }
}

/// The quantized samples read back from a 24-bit HD codeword.
#[verifier::opaque]
pub open spec fn unpack_codewordhd_spec(ch: ChannelV, cw: int) -> ChannelV {
    let q0 = sign_extend_spec(cw, 9);
    let q1 = sign_extend_spec(cw / 0x200, 6);
    let q2 = sign_extend_spec(cw / 0x8000, 4);
    let q3 = sign_extend_spec(cw / 0x8_0000, 5);
    let ch1 = ChannelV {
        quantize: seq![
            AptxQuantize { quantized_sample: q0 as i32, ..ch.quantize[0] },
            AptxQuantize { quantized_sample: q1 as i32, ..ch.quantize[1] },
            AptxQuantize { quantized_sample: q2 as i32, ..ch.quantize[2] },
            AptxQuantize { quantized_sample: q3 as i32, ..ch.quantize[3] },
        ],
        ..ch
    };
    let q3p = q3 - q3 % 2 + quantized_parity_spec(ch1);
    ChannelV {
        quantize: ch1.quantize.update(3,
            AptxQuantize { quantized_sample: q3p as i32, ..ch.quantize[3] }),
        ..ch1
    }
}

/// A zeroed channel.
pub open spec fn channel_default_spec() -> ChannelV {
    ChannelV {
        codeword_history: 0,
        dither_parity: 0,
        qmf: crate::qmf::qmf_default_spec(),
        dither: Seq::new(4, |i: int| 0i32),
        quantize: Seq::new(4, |i: int| AptxQuantize {
            quantized_sample: 0i32,
            quantized_sample_parity_change: 0i32,
            error: 0i32,
        }),
        invert_quantize: Seq::new(4, |i: int| AptxInvertQuantize {
            quantization_factor: 0i32,
            factor_select: 0i32,
            reconstructed_difference: 0i32,
        }),
        prediction: Seq::new(4, |i: int| crate::predict::prediction_default_spec()),
        samples: Seq::new(4, |i: int| 0i32),
    }
}

impl Default for AptxChannel {
    /// A zeroed channel.
    fn default() -> (r: Self)
        ensures
            r@ == channel_default_spec(),
    {
        let q = AptxQuantize::default();
        let iq = AptxInvertQuantize::default();
        let p = AptxPrediction::default();
        let r = AptxChannel {
            codeword_history: 0,
            dither_parity: 0,
            qmf: AptxQmfAnalysis::default(),
            dither: [0; 4],
            quantize: [q, q, q, q],
            invert_quantize: [iq, iq, iq, iq],
            prediction: [p, p, p, p],
            samples: [0; 4],
        };
        proof {
            assert(r@ =~~= channel_default_spec());
        }
        r
    }
}

impl AptxChannel {
    pub const NB_SUBBANDS: usize = 4;

    /// Shifts the low bits of the three lowest subbands' quantized
    /// samples into the rolling codeword history.
    pub fn update_codeword_history(&mut self)
        ensures
            final(self)@ == (ChannelV {
                codeword_history: update_codeword_history_spec(old(self)@),
                ..old(self)@
            }),
    {
        let m0: i64 = rem_floor_i64(self.quantize[0].quantized_sample as i64, 4);
        let q1m4: i64 = rem_floor_i64(self.quantize[1].quantized_sample as i64, 4);
        let q1m2: i64 = rem_floor_i64(self.quantize[1].quantized_sample as i64, 2);
        let m2: i64 = rem_floor_i64(self.quantize[2].quantized_sample as i64, 2);
        let cw: i64 = m0 + 2 * (q1m4 - q1m2) + 8 * m2;
        let h: i32 = trunc_i32(cw * 256 + (self.codeword_history as i64) * 16);
        self.codeword_history = h;
        proof {
            assert(self@ =~= (ChannelV {
                codeword_history: update_codeword_history_spec(old(self)@),
                ..old(self)@
            }));
        }
    }

    /// Derives the four subband dither words and the dither parity from
    /// the advanced codeword history.
    pub fn generate_dither(&mut self)
        ensures
            final(self)@ == generate_dither_spec(old(self)@),
            final(self).dither_parity == 0 || final(self).dither_parity == 1,
            final(self)@.qmf == old(self)@.qmf,
            final(self)@.quantize == old(self)@.quantize,
            final(self)@.invert_quantize == old(self)@.invert_quantize,
            final(self)@.prediction == old(self)@.prediction,
            final(self)@.samples == old(self)@.samples,
    {
        proof {
            reveal(generate_dither_spec);
        }
        self.update_codeword_history();
        let h: i32 = self.codeword_history;
        let m: i64 = 5184443 * div_floor_i64(h as i64, 128);
        let d: i32 = trunc_i32(4 * m + div_floor_i64(m, 0x40_0000));
        self.dither.set(0, trunc_i32((d as i64) * 0x80_0000));
        self.dither.set(1, trunc_i32((d as i64) * 0x4_0000));
        self.dither.set(2, trunc_i32((d as i64) * 0x2000));
        self.dither.set(3, trunc_i32((d as i64) * 0x100));
        self.dither_parity = rem_floor_i64(div_floor_i64(d as i64, 0x200_0000), 2) as i32;
        proof {
            assert(self@ =~= generate_dither_spec(old(self)@));
        }
    }

    /// Encodes the four staged samples of this channel: filter-tree
    /// analysis, dither generation, then quantization of each subband
    /// residual.
    #[verifier::rlimit(100)]
    #[verifier::spinoff_prover]
    pub fn encode_channel(&mut self, hd: bool)
        requires
            old(self)@.qmf.wf(),
            forall|i: int| 0 <= i < 4 ==> -0x100_0000 <= #[trigger] old(self)@.samples[i]
                <= 0x100_0000,
            forall|sb: int| 0 <= sb < 4 ==>
                0 <= (#[trigger] old(self)@.invert_quantize[sb]).quantization_factor
                <= 0x7D_4000,
            forall|sb: int| 0 <= sb < 4 ==>
                -0x80_0000 <= (#[trigger] old(self)@.prediction[sb]).predicted_sample
                <= 0x80_0000,
        ensures
            final(self)@ == encode_channel_spec(old(self)@, hd),
            final(self)@.invert_quantize == old(self)@.invert_quantize,
            final(self)@.prediction == old(self)@.prediction,
            final(self)@.samples == old(self)@.samples,
            final(self)@.qmf.wf(),
            forall|sb: int| 0 <= sb < 4 ==>
                quantize_in_range(#[trigger] final(self)@.quantize[sb], hd, sb),
            forall|sb: int| 0 <= sb < 4 ==> (#[trigger] final(self)@.quantize[sb]).error >= 0,
            forall|sb: int| 0 <= sb < 4 ==>
                ((#[trigger] final(self)@.quantize[sb]).quantized_sample
                    - final(self)@.quantize[sb].quantized_sample_parity_change == 1
                || final(self)@.quantize[sb].quantized_sample_parity_change
                    - final(self)@.quantize[sb].quantized_sample == 1),
    {
        proof {
            reveal(encode_channel_spec);
            reveal(generate_dither_spec);
        }
        let samples_in: [i32; 4] = self.samples;
        proof {
            assert(samples_in@[0] == old(self)@.samples[0]);
            assert(samples_in@[1] == old(self)@.samples[1]);
            assert(samples_in@[2] == old(self)@.samples[2]);
            assert(samples_in@[3] == old(self)@.samples[3]);
        }
        let mut subband_samples: [i32; 4] = [0; 4];
        let ghost ta = tree_analysis_spec(old(self)@.qmf, old(self)@.samples);
        self.qmf.tree_analysis(&samples_in, &mut subband_samples);
        proof {
            assert(samples_in@ =~= old(self)@.samples);
            assert(subband_samples@ =~= ta.1);
            assert(self@ =~~= (ChannelV { qmf: ta.0, ..old(self)@ }));
        }
        self.generate_dither();
        proof {
            vstd::arithmetic::power2::lemma2_to64();
            assert(self@ =~~= generate_dither_spec(ChannelV { qmf: ta.0, ..old(self)@ }));
            assert(self@.prediction[0] == old(self)@.prediction[0]);
            assert(self@.prediction[1] == old(self)@.prediction[1]);
            assert(self@.prediction[2] == old(self)@.prediction[2]);
            assert(self@.prediction[3] == old(self)@.prediction[3]);
            assert(self@.invert_quantize[0] == old(self)@.invert_quantize[0]);
            assert(self@.invert_quantize[1] == old(self)@.invert_quantize[1]);
            assert(self@.invert_quantize[2] == old(self)@.invert_quantize[2]);
            assert(self@.invert_quantize[3] == old(self)@.invert_quantize[3]);
        }

        let t0 = AptxTables::new(hd, 0);
        let diff0: i32 = clip_intp2(subband_samples[0] - self.prediction[0].predicted_sample, 23);
        let mut q0 = self.quantize[0];
        q0.quantize_difference(diff0, self.dither[0], self.invert_quantize[0].quantization_factor,
            &t0);
        self.quantize.set(0, q0);

        let t1 = AptxTables::new(hd, 1);
        let diff1: i32 = clip_intp2(subband_samples[1] - self.prediction[1].predicted_sample, 23);
        let mut q1 = self.quantize[1];
        q1.quantize_difference(diff1, self.dither[1], self.invert_quantize[1].quantization_factor,
            &t1);
        self.quantize.set(1, q1);

        let t2 = AptxTables::new(hd, 2);
        let diff2: i32 = clip_intp2(subband_samples[2] - self.prediction[2].predicted_sample, 23);
        let mut q2 = self.quantize[2];
        q2.quantize_difference(diff2, self.dither[2], self.invert_quantize[2].quantization_factor,
            &t2);
        self.quantize.set(2, q2);

        let t3 = AptxTables::new(hd, 3);
        let diff3: i32 = clip_intp2(subband_samples[3] - self.prediction[3].predicted_sample, 23);
        let mut q3 = self.quantize[3];
        q3.quantize_difference(diff3, self.dither[3], self.invert_quantize[3].quantization_factor,
            &t3);
        self.quantize.set(3, q3);

        proof {
            vstd::arithmetic::power2::lemma2_to64();
            let sv = encode_channel_spec(old(self)@, hd);
            assert(self@.quantize[0] == sv.quantize[0]);
            assert(self@.quantize[1] == sv.quantize[1]);
            assert(self@.quantize[2] == sv.quantize[2]);
            assert(self@.quantize[3] == sv.quantize[3]);
            assert(self@.quantize =~= sv.quantize);
            assert(self@ =~~= sv);
        }
    }

    /// Reassembles four full-rate samples from the previous reconstructed
    /// subband samples.
    pub fn decode_channel(&mut self)
        requires
            old(self)@.qmf.wf(),
            forall|sb: int| 0 <= sb < 4 ==>
                -0x80_0000 <= (#[trigger] old(self)@.prediction[sb]).previous_reconstructed_sample
                <= 0x80_0000,
        ensures
            final(self)@ == decode_channel_spec(old(self)@),
            final(self)@.quantize == old(self)@.quantize,
            final(self)@.invert_quantize == old(self)@.invert_quantize,
            final(self)@.prediction == old(self)@.prediction,
            final(self)@.dither == old(self)@.dither,
            final(self)@.codeword_history == old(self)@.codeword_history,
            final(self)@.dither_parity == old(self)@.dither_parity,
            final(self)@.qmf.wf(),
            forall|i: int| 0 <= i < 4 ==> -0x100_0000 <= #[trigger] final(self)@.samples[i]
                <= 0x100_0000,
    {
        let subband_samples: [i32; 4] = [
            self.prediction[0].previous_reconstructed_sample,
            self.prediction[1].previous_reconstructed_sample,
            self.prediction[2].previous_reconstructed_sample,
            self.prediction[3].previous_reconstructed_sample,
        ];
        proof {
            reveal(decode_channel_spec);
            assert(subband_samples@[0]
                == old(self)@.prediction[0].previous_reconstructed_sample);
            assert(subband_samples@[1]
                == old(self)@.prediction[1].previous_reconstructed_sample);
            assert(subband_samples@[2]
                == old(self)@.prediction[2].previous_reconstructed_sample);
            assert(subband_samples@[3]
                == old(self)@.prediction[3].previous_reconstructed_sample);
        }
        let mut out: [i32; 4] = [0; 4];
        self.qmf.tree_synthesis(&subband_samples, &mut out);
        self.samples = out;
        proof {
            assert(self@ =~~= decode_channel_spec(old(self)@));
        }
    }

    /// Runs the shared inverse-quantizer and predictor state machine over
    /// all four subbands.
    #[verifier::rlimit(100)]
    pub fn invert_quantize_and_prediction(&mut self, hd: bool)
        requires
            forall|sb: int| 0 <= sb < 4 ==> (#[trigger] old(self)@.invert_quantize[sb]).wf(sb),
            forall|sb: int| 0 <= sb < 4 ==>
                (#[trigger] old(self)@.prediction[sb]).wf(prediction_order_spec(sb)),
            forall|sb: int| 0 <= sb < 4 ==>
                quantize_in_range(#[trigger] old(self)@.quantize[sb], hd, sb),
        ensures
            final(self)@ == invert_quantize_and_prediction_spec(old(self)@, hd),
            final(self)@.qmf == old(self)@.qmf,
            final(self)@.quantize == old(self)@.quantize,
            final(self)@.dither == old(self)@.dither,
            final(self)@.samples == old(self)@.samples,
            final(self)@.codeword_history == old(self)@.codeword_history,
            final(self)@.dither_parity == old(self)@.dither_parity,
            forall|sb: int| 0 <= sb < 4 ==> (#[trigger] final(self)@.invert_quantize[sb]).wf(sb),
            forall|sb: int| 0 <= sb < 4 ==>
                (#[trigger] final(self)@.prediction[sb]).wf(prediction_order_spec(sb)),
    {
        proof {
            reveal(invert_quantize_and_prediction_spec);
            assert(old(self)@.invert_quantize[0] == self.invert_quantize@[0]);
            assert(old(self)@.invert_quantize[1] == self.invert_quantize@[1]);
            assert(old(self)@.invert_quantize[2] == self.invert_quantize@[2]);
            assert(old(self)@.invert_quantize[3] == self.invert_quantize@[3]);
            assert(old(self)@.prediction[0] == self.prediction@[0]@);
            assert(old(self)@.prediction[1] == self.prediction@[1]@);
            assert(old(self)@.prediction[2] == self.prediction@[2]@);
            assert(old(self)@.prediction[3] == self.prediction@[3]@);
            assert(quantize_in_range(old(self)@.quantize[0], hd, 0));
            assert(quantize_in_range(old(self)@.quantize[1], hd, 1));
            assert(quantize_in_range(old(self)@.quantize[2], hd, 2));
            assert(quantize_in_range(old(self)@.quantize[3], hd, 3));
        }
        let t0 = AptxTables::new(hd, 0);
        let mut iq0 = self.invert_quantize[0];
        let mut p0 = self.prediction[0];
        iq0.process_subband(&mut p0, self.quantize[0].quantized_sample, self.dither[0], &t0);
        self.invert_quantize.set(0, iq0);
        self.prediction.set(0, p0);

        let t1 = AptxTables::new(hd, 1);
        let mut iq1 = self.invert_quantize[1];
        let mut p1 = self.prediction[1];
        iq1.process_subband(&mut p1, self.quantize[1].quantized_sample, self.dither[1], &t1);
        self.invert_quantize.set(1, iq1);
        self.prediction.set(1, p1);

        let t2 = AptxTables::new(hd, 2);
        let mut iq2 = self.invert_quantize[2];
        let mut p2 = self.prediction[2];
        iq2.process_subband(&mut p2, self.quantize[2].quantized_sample, self.dither[2], &t2);
        self.invert_quantize.set(2, iq2);
        self.prediction.set(2, p2);

        let t3 = AptxTables::new(hd, 3);
        let mut iq3 = self.invert_quantize[3];
        let mut p3 = self.prediction[3];
        iq3.process_subband(&mut p3, self.quantize[3].quantized_sample, self.dither[3], &t3);
        self.invert_quantize.set(3, iq3);
        self.prediction.set(3, p3);

        proof {
            let sv = invert_quantize_and_prediction_spec(old(self)@, hd);
            assert(self@.invert_quantize =~= sv.invert_quantize);
            assert(self@.prediction =~~= sv.prediction);
            assert(self@ =~~= sv);
        }
    }

    /// The channel's contribution to the cross-channel synchronisation
    /// parity.
    pub fn quantized_parity(&self) -> (r: i32)
        ensures
            r == quantized_parity_spec(self@),
            r == 0 || r == 1,
    {
        let p0: i64 = rem_floor_i64(self.dither_parity as i64, 2);
        let p1: i64 = rem_floor_i64(self.quantize[0].quantized_sample as i64, 2);
        let p2: i64 = rem_floor_i64(self.quantize[1].quantized_sample as i64, 2);
        let p3: i64 = rem_floor_i64(self.quantize[2].quantized_sample as i64, 2);
        let p4: i64 = rem_floor_i64(self.quantize[3].quantized_sample as i64, 2);
        rem_floor_i64(p0 + p1 + p2 + p3 + p4, 2) as i32
    }

    /// Packs the four quantized samples into a 16-bit codeword, forcing
    /// the parity bit into the high subband's lowest carried bit.
    pub fn pack_codeword(&self) -> (r: u16)
        ensures
            r == pack_codeword_spec(self@),
    {
        proof {
            reveal(pack_codeword_spec);
        }
        let parity: i64 = self.quantized_parity() as i64;
        let q0: i64 = rem_floor_i64(self.quantize[0].quantized_sample as i64, 128);
        let q1: i64 = rem_floor_i64(self.quantize[1].quantized_sample as i64, 16);
        let q2: i64 = rem_floor_i64(self.quantize[2].quantized_sample as i64, 4);
        let q3m8: i64 = rem_floor_i64(self.quantize[3].quantized_sample as i64, 8);
        let q3m2: i64 = rem_floor_i64(self.quantize[3].quantized_sample as i64, 2);
        proof {
            vstd::arithmetic::div_mod::lemma_mod_mod(
                self.quantize@[3].quantized_sample as int, 4, 2);
            vstd::arithmetic::div_mod::lemma_fundamental_div_mod(q3m8 as int, 2);
            vstd::arithmetic::div_mod::lemma_mod_bound(q3m8 as int, 2);
        }
        ((q3m8 - q3m2 + parity) * 0x2000 + q2 * 0x800 + q1 * 0x80 + q0) as u16
    }

    /// Packs the four quantized samples into a 24-bit HD codeword.
    pub fn pack_codewordhd(&self) -> (r: u32)
        ensures
            r == pack_codewordhd_spec(self@),
    {
        proof {
            reveal(pack_codewordhd_spec);
        }
        let parity: i64 = self.quantized_parity() as i64;
        let q0: i64 = rem_floor_i64(self.quantize[0].quantized_sample as i64, 512);
        let q1: i64 = rem_floor_i64(self.quantize[1].quantized_sample as i64, 64);
        let q2: i64 = rem_floor_i64(self.quantize[2].quantized_sample as i64, 16);
        let q3m32: i64 = rem_floor_i64(self.quantize[3].quantized_sample as i64, 32);
        let q3m2: i64 = rem_floor_i64(self.quantize[3].quantized_sample as i64, 2);
        proof {
            vstd::arithmetic::div_mod::lemma_mod_mod(
                self.quantize@[3].quantized_sample as int, 16, 2);
            vstd::arithmetic::div_mod::lemma_fundamental_div_mod(q3m32 as int, 2);
            vstd::arithmetic::div_mod::lemma_mod_bound(q3m32 as int, 2);
        }
        ((q3m32 - q3m2 + parity) * 0x8_0000 + q2 * 0x8000 + q1 * 0x200 + q0) as u32
    }

    /// Unpacks a 16-bit codeword into the four quantized samples,
    /// rederiving the high subband's low bit from the recomputed parity.
    pub fn unpack_codeword(&mut self, codeword: u16)
        ensures
            final(self)@ == unpack_codeword_spec(old(self)@, codeword as int),
            forall|sb: int| 0 <= sb < 4 ==>
                -tables_len_spec(false, sb) + 1
                <= (#[trigger] final(self)@.quantize[sb]).quantized_sample
                <= tables_len_spec(false, sb) - 2,
            forall|sb: int| 0 <= sb < 4 ==>
                (#[trigger] final(self)@.quantize[sb]).quantized_sample_parity_change
                == old(self)@.quantize[sb].quantized_sample_parity_change,
            final(self)@.qmf == old(self)@.qmf,
            final(self)@.invert_quantize == old(self)@.invert_quantize,
            final(self)@.prediction == old(self)@.prediction,
            final(self)@.dither == old(self)@.dither,
            final(self)@.samples == old(self)@.samples,
            final(self)@.codeword_history == old(self)@.codeword_history,
            final(self)@.dither_parity == old(self)@.dither_parity,
    {
        proof {
            reveal(unpack_codeword_spec);
            vstd::arithmetic::power2::lemma2_to64();
        }
        let mut q0 = self.quantize[0];
        q0.quantized_sample = sign_extend(codeword as i32, 7);
        self.quantize.set(0, q0);
        let mut q1 = self.quantize[1];
        q1.quantized_sample = sign_extend((codeword / 0x80) as i32, 4);
        self.quantize.set(1, q1);
        let mut q2 = self.quantize[2];
        q2.quantized_sample = sign_extend((codeword / 0x800) as i32, 2);
        self.quantize.set(2, q2);
        let mut q3 = self.quantize[3];
        q3.quantized_sample = sign_extend((codeword / 0x2000) as i32, 3);
        self.quantize.set(3, q3);
        let parity: i32 = self.quantized_parity();
        let q3m2: i64 = rem_floor_i64(q3.quantized_sample as i64, 2);
        let mut q3b = self.quantize[3];
        q3b.quantized_sample = (q3.quantized_sample as i64 - q3m2 + parity as i64) as i32;
        self.quantize.set(3, q3b);
        proof {
            vstd::arithmetic::power2::lemma2_to64();
            assert(self@ =~~= unpack_codeword_spec(old(self)@, codeword as int));
        }
    }

    /// Unpacks a 24-bit HD codeword into the four quantized samples.
    pub fn unpack_codewordhd(&mut self, codeword: u32)
        requires
            codeword < 0x100_0000,
        ensures
            final(self)@ == unpack_codewordhd_spec(old(self)@, codeword as int),
            forall|sb: int| 0 <= sb < 4 ==>
                -tables_len_spec(true, sb) + 1
                <= (#[trigger] final(self)@.quantize[sb]).quantized_sample
                <= tables_len_spec(true, sb) - 2,
            forall|sb: int| 0 <= sb < 4 ==>
                (#[trigger] final(self)@.quantize[sb]).quantized_sample_parity_change
                == old(self)@.quantize[sb].quantized_sample_parity_change,
            final(self)@.qmf == old(self)@.qmf,
            final(self)@.invert_quantize == old(self)@.invert_quantize,
            final(self)@.prediction == old(self)@.prediction,
            final(self)@.dither == old(self)@.dither,
            final(self)@.samples == old(self)@.samples,
            final(self)@.codeword_history == old(self)@.codeword_history,
            final(self)@.dither_parity == old(self)@.dither_parity,
    {
        proof {
            reveal(unpack_codewordhd_spec);
            vstd::arithmetic::power2::lemma2_to64();
        }
        let mut q0 = self.quantize[0];
        q0.quantized_sample = sign_extend(codeword as i32, 9);
        self.quantize.set(0, q0);
        let mut q1 = self.quantize[1];
        q1.quantized_sample = sign_extend((codeword / 0x200) as i32, 6);
        self.quantize.set(1, q1);
        let mut q2 = self.quantize[2];
        q2.quantized_sample = sign_extend((codeword / 0x8000) as i32, 4);
        self.quantize.set(2, q2);
        let mut q3 = self.quantize[3];
        q3.quantized_sample = sign_extend((codeword / 0x8_0000) as i32, 5);
        self.quantize.set(3, q3);
        proof {
            let ch1 = ChannelV {
                quantize: seq![
                    AptxQuantize {
                        quantized_sample: sign_extend_spec(codeword as int, 9) as i32,
                        ..old(self)@.quantize[0]
                    },
                    AptxQuantize {
                        quantized_sample: sign_extend_spec(codeword as int / 0x200, 6) as i32,
                        ..old(self)@.quantize[1]
                    },
                    AptxQuantize {
                        quantized_sample: sign_extend_spec(codeword as int / 0x8000, 4) as i32,
                        ..old(self)@.quantize[2]
                    },
                    AptxQuantize {
                        quantized_sample: sign_extend_spec(codeword as int / 0x8_0000, 5) as i32,
                        ..old(self)@.quantize[3]
                    },
                ],
                ..old(self)@
            };
            assert(self@ =~~= ch1);
        }
        let parity: i32 = self.quantized_parity();
        let q3m2: i64 = rem_floor_i64(q3.quantized_sample as i64, 2);
        let mut q3b = self.quantize[3];
        q3b.quantized_sample = (q3.quantized_sample as i64 - q3m2 + parity as i64) as i32;
        self.quantize.set(3, q3b);
        proof {
            vstd::arithmetic::power2::lemma2_to64();
            assert(self@ =~~= unpack_codewordhd_spec(old(self)@, codeword as int));
        }
    }
}

} // verus!
