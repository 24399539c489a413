//! The stereo codec context: two channels, the rotating sync counter with
//! parity-based synchronisation bit stuffing, and the stream-level
//! encode/decode operations with warm-up flushing, leading-frame skipping
//! and byte-level resynchronisation.

use crate::channel::{
    channel_default_spec, decode_channel_spec, encode_channel_spec, generate_dither_spec,
    invert_quantize_and_prediction_spec, pack_codeword_spec, pack_codewordhd_spec,
    quantized_parity_spec, unpack_codeword_spec, unpack_codewordhd_spec, AptxChannel, ChannelV,
};
use crate::predict::PredictionV;
use crate::quantize::AptxQuantize;
use vstd::arithmetic::div_mod::{lemma_fundamental_div_mod, lemma_mod_bound};
use vstd::array::ArrayAdditionalExecFns;
use vstd::prelude::*;

verus! {

/// The stereo codec context.
pub struct AptxContext {
    pub decode_sync_packets: usize,
    pub decode_dropped: usize,
    pub channels: [AptxChannel; 2],
    pub hd: bool,
    pub sync_idx: u8,
    pub encode_remaining: u8,
    pub decode_skip_leading: u8,
    pub decode_sync_buffer_len: u8,
    pub decode_sync_buffer: [u8; 6],
}

/// Mathematical model of a context.
#[verifier::ext_equal]
pub ghost struct ContextV {
    pub decode_sync_packets: int,
    pub decode_dropped: int,
    pub left: ChannelV,
    pub right: ChannelV,
    pub hd: bool,
    pub sync_idx: int,
    pub encode_remaining: int,
    pub decode_skip_leading: int,
    pub decode_sync_buffer_len: int,
    pub decode_sync_buffer: Seq<u8>,
}

impl View for AptxContext {
    type V = ContextV;

    open spec fn view(&self) -> ContextV {
        ContextV {
            decode_sync_packets: self.decode_sync_packets as int,
            decode_dropped: self.decode_dropped as int,
            left: self.channels@[0]@,
            right: self.channels@[1]@,
            hd: self.hd,
            sync_idx: self.sync_idx as int,
            encode_remaining: self.encode_remaining as int,
            decode_skip_leading: self.decode_skip_leading as int,
            decode_sync_buffer_len: self.decode_sync_buffer_len as int,
            decode_sync_buffer: self.decode_sync_buffer@,
        }
    }
}

/// Encoded frame size in bytes: four in the standard variant, six in HD.
pub open spec fn frame_size_spec(hd: bool) -> int {
    if hd {
        6
    } else {
        4
    }
}

/// One when this frame closes the eight-frame sync period, else zero.
pub open spec fn eighth_spec(sync_idx: int) -> int {
    if sync_idx == 7 {
        1
    } else {
        0
    }
}

impl ContextV {
    /// Well-formedness of the whole context.
    pub open spec fn wf(&self) -> bool {
        &&& self.left.wf(self.hd)
        &&& self.right.wf(self.hd)
        &&& 0 <= self.sync_idx < 8
        &&& 0 <= self.encode_remaining <= 23
        &&& 0 <= self.decode_skip_leading <= 23
        &&& self.decode_sync_buffer.len() == 6
        &&& 0 <= self.decode_sync_buffer_len <= frame_size_spec(self.hd) - 1
        &&& 0 <= self.decode_sync_packets <= 23
        &&& 0 <= self.decode_dropped
    }

    /// Every quantized sample sits exactly one level away from its
    /// parity-toggled alternative, so a sync flip always changes parity.
    pub open spec fn parity_flippable(&self) -> bool {
        &&& self.left.quantize.len() == 4
        &&& self.right.quantize.len() == 4
        &&& forall|sb: int| 0 <= sb < 4 ==>
            ((#[trigger] self.left.quantize[sb]).quantized_sample_parity_change
                == self.left.quantize[sb].quantized_sample + 1
            || self.left.quantize[sb].quantized_sample_parity_change
                == self.left.quantize[sb].quantized_sample - 1)
        &&& forall|sb: int| 0 <= sb < 4 ==>
            ((#[trigger] self.right.quantize[sb]).quantized_sample_parity_change
                == self.right.quantize[sb].quantized_sample + 1
            || self.right.quantize[sb].quantized_sample_parity_change
                == self.right.quantize[sb].quantized_sample - 1)
    }
}

/// A fresh channel: all state zero except the two sign histories, which
/// start at one.
pub open spec fn fresh_channel_spec() -> ChannelV {
    ChannelV {
        prediction: Seq::new(4, |i: int| PredictionV {
            prev_sign: seq![1i32, 1i32],
            ..crate::predict::prediction_default_spec()
        }),
        ..channel_default_spec()
    }
}

/// A fresh context for the chosen variant: both channels fresh, the full
/// warm-up budget pending on both the encode and decode sides.
pub open spec fn fresh_context_spec(hd: bool) -> ContextV {
    ContextV {
        decode_sync_packets: 0,
        decode_dropped: 0,
        left: fresh_channel_spec(),
        right: fresh_channel_spec(),
        hd: hd,
        sync_idx: 0,
        encode_remaining: 23,
        decode_skip_leading: 23,
        decode_sync_buffer_len: 0,
        decode_sync_buffer: Seq::new(6, |i: int| 0u8),
    }
}

/// Numbers one apart have complementary parities.
pub proof fn lemma_mod2_flip(a: int, b: int)
    requires
        b == a + 1 || b == a - 1,
    ensures
        a % 2 + b % 2 == 1,
{
    lemma_fundamental_div_mod(a, 2);
    lemma_mod_bound(a, 2);
    lemma_fundamental_div_mod(b, 2);
    lemma_mod_bound(b, 2);
    let qa = a / 2;
    let qb = b / 2;
    assert(a % 2 + b % 2 == 1) by (nonlinear_arith)
        requires
            a == 2 * qa + a % 2,
            b == 2 * qb + b % 2,
            0 <= a % 2 < 2,
            0 <= b % 2 < 2,
            b == a + 1 || b == a - 1,
    ;
}

/// Replacing one subband's quantized sample by its parity-toggled
/// alternative flips the channel parity.
pub proof fn lemma_parity_of_flip(ch: ChannelV, j: int)
    requires
        ch.quantize.len() == 4,
        0 <= j < 4,
        ch.quantize[j].quantized_sample_parity_change == ch.quantize[j].quantized_sample + 1
            || ch.quantize[j].quantized_sample_parity_change
            == ch.quantize[j].quantized_sample - 1,
    ensures
        quantized_parity_spec(ChannelV {
            quantize: ch.quantize.update(j, AptxQuantize {
                quantized_sample: ch.quantize[j].quantized_sample_parity_change,
                ..ch.quantize[j]
            }),
            ..ch
        }) + quantized_parity_spec(ch) == 1,
{
    let qs = ch.quantize[j].quantized_sample as int;
    let pc = ch.quantize[j].quantized_sample_parity_change as int;
    lemma_mod2_flip(qs, pc);
    let s = ch.dither_parity as int % 2
        + ch.quantize[0].quantized_sample as int % 2
        + ch.quantize[1].quantized_sample as int % 2
        + ch.quantize[2].quantized_sample as int % 2
        + ch.quantize[3].quantized_sample as int % 2;
    let sp = s - qs % 2 + pc % 2;
    lemma_mod_bound(qs, 2);
    lemma_mod_bound(pc, 2);
    lemma_mod2_flip(s, sp);
}

/// The flip candidate: last channel first, subbands in priority order
/// 1, 2, 0, 3, keeping the first strictly smaller quantization error seen.
/// Yields the channel index and subband of the cheapest flip.
pub open spec fn best_flip_spec(c: ContextV) -> (int, int) {
    let m0 = (1int, 1int, c.right.quantize[1].error as int);
    let m1 = if c.right.quantize[2].error < m0.2 { (1int, 2int,
        c.right.quantize[2].error as int) } else { m0 };
    let m2 = if c.right.quantize[0].error < m1.2 { (1int, 0int,
        c.right.quantize[0].error as int) } else { m1 };
    let m3 = if c.right.quantize[3].error < m2.2 { (1int, 3int,
        c.right.quantize[3].error as int) } else { m2 };
    let m4 = if c.left.quantize[1].error < m3.2 { (0int, 1int,
        c.left.quantize[1].error as int) } else { m3 };
    let m5 = if c.left.quantize[2].error < m4.2 { (0int, 2int,
        c.left.quantize[2].error as int) } else { m4 };
    let m6 = if c.left.quantize[0].error < m5.2 { (0int, 0int,
        c.left.quantize[0].error as int) } else { m5 };
    let m7 = if c.left.quantize[3].error < m6.2 { (0int, 3int,
        c.left.quantize[3].error as int) } else { m6 };
    (m7.0, m7.1)
}

/// One channel with subband `j`'s quantized sample replaced by its
/// parity-toggled alternative.
pub open spec fn flip_channel_spec(ch: ChannelV, j: int) -> ChannelV {
    ChannelV {
        quantize: ch.quantize.update(j, AptxQuantize {
            quantized_sample: ch.quantize[j].quantized_sample_parity_change,
            ..ch.quantize[j]
        }),
        ..ch
    }
}

/// The combined parity of this frame: both channel parities and the
/// eighth-frame marker.
pub open spec fn check_parity_spec(c: ContextV) -> int {
    (quantized_parity_spec(c.left) + quantized_parity_spec(c.right)
        + eighth_spec(c.sync_idx)) % 2
}

/// The context after sync insertion: the sync counter always advances;
/// when the combined parity of the frame is odd, the cheapest candidate
/// flips to its parity-toggled alternative to force it even.
pub open spec fn insert_sync_spec(c: ContextV) -> ContextV {
    let c1 = ContextV { sync_idx: (c.sync_idx + 1) % 8, ..c };
    if check_parity_spec(c) != 0 {
        let b = best_flip_spec(c);
        if b.0 == 1 {
            ContextV { right: flip_channel_spec(c.right, b.1), ..c1 }
        } else {
            ContextV { left: flip_channel_spec(c.left, b.1), ..c1 }
        }
    } else {
        c1
    }
}

impl AptxContext {
    pub const LATENCY_SAMPLES: usize = 90;

    /// A fresh codec context for the standard or HD variant.
    pub fn new(hd: bool) -> (r: Box<AptxContext>)
        ensures
            r@ == fresh_context_spec(hd),
            r@.wf(),
    {
        let mut c = AptxChannel::default();
        let mut p = c.prediction[0];
        p.prev_sign.set(0, 1);
        p.prev_sign.set(1, 1);
        c.prediction.set(0, p);
        let mut p1 = c.prediction[1];
        p1.prev_sign.set(0, 1);
        p1.prev_sign.set(1, 1);
        c.prediction.set(1, p1);
        let mut p2 = c.prediction[2];
        p2.prev_sign.set(0, 1);
        p2.prev_sign.set(1, 1);
        c.prediction.set(2, p2);
        let mut p3 = c.prediction[3];
        p3.prev_sign.set(0, 1);
        p3.prev_sign.set(1, 1);
        c.prediction.set(3, p3);
        proof {
            assert(c@ =~~= fresh_channel_spec());
        }
        let r = Box::new(AptxContext {
            decode_sync_packets: 0,
            decode_dropped: 0,
            channels: [c, c],
            hd,
            sync_idx: 0,
            encode_remaining: 23,
            decode_skip_leading: 23,
            decode_sync_buffer_len: 0,
            decode_sync_buffer: [0; 6],
        });
        proof {
            assert(r@ =~~= fresh_context_spec(hd));
            lemma_fresh_context_wf(hd);
        }
        r
    }

    /// Returns the context to its start-of-stream state, keeping only the
    /// variant flag.
    pub fn reset(&mut self)
        ensures
            final(self)@ == fresh_context_spec(old(self).hd),
            final(self)@.wf(),
            final(self).hd == old(self).hd,
    {
        let fresh = AptxContext::new(self.hd);
        *self = *fresh;
    }

    /// Combined parity of the frame, advancing the rotating sync counter.
    pub fn check_parity(&mut self) -> (r: i32)
        requires
            0 <= old(self)@.sync_idx < 8,
        ensures
            r == check_parity_spec(old(self)@),
            final(self)@ == (ContextV { sync_idx: (old(self)@.sync_idx + 1) % 8, ..old(self)@ }),
            r == 0 || r == 1,
            0 <= final(self)@.sync_idx < 8,
    {
        let lp: i32 = self.channels[0].quantized_parity();
        let rp: i32 = self.channels[1].quantized_parity();
        let eighth: i32 = if self.sync_idx == 7 {
            1
        } else {
            0
        };
        self.sync_idx = (self.sync_idx + 1) % 8;
        let r = crate::math::rem_floor_i64(lp as i64 + rp as i64 + eighth as i64, 2) as i32;
        proof {
            lemma_mod_bound(lp as int + rp as int + eighth as int, 2);
            assert(self@ =~~= (ContextV { sync_idx: (old(self)@.sync_idx + 1) % 8,
                ..old(self)@ }));
        }
        r
    }

    /// When the combined parity of the frame is odd, flips the quantized
    /// sample with the smallest recorded error (scanning the right channel
    /// first, subbands in order 1, 2, 0, 3) to its parity-toggled
    /// alternative, forcing the eight-frame parity pattern; the parity of
    /// the resulting frame is always even.
    pub fn insert_sync(&mut self)
        requires
            0 <= old(self)@.sync_idx < 8,
            old(self)@.parity_flippable(),
        ensures
            final(self)@ == insert_sync_spec(old(self)@),
            (quantized_parity_spec(final(self)@.left) + quantized_parity_spec(final(self)@.right)
                + eighth_spec(old(self)@.sync_idx)) % 2 == 0,
            0 <= final(self)@.sync_idx < 8,
    {
        let ghost c0 = self@;
        let p = self.check_parity();
        if p != 0 {
            let mut mi: usize = 1;
            let mut mj: usize = 1;
            let mut me: i32 = self.channels[1].quantize[1].error;
            if self.channels[1].quantize[2].error < me {
                mi = 1;
                mj = 2;
                me = self.channels[1].quantize[2].error;
            }
            if self.channels[1].quantize[0].error < me {
                mi = 1;
                mj = 0;
                me = self.channels[1].quantize[0].error;
            }
            if self.channels[1].quantize[3].error < me {
                mi = 1;
                mj = 3;
                me = self.channels[1].quantize[3].error;
            }
            if self.channels[0].quantize[1].error < me {
                mi = 0;
                mj = 1;
                me = self.channels[0].quantize[1].error;
            }
            if self.channels[0].quantize[2].error < me {
                mi = 0;
                mj = 2;
                me = self.channels[0].quantize[2].error;
            }
            if self.channels[0].quantize[0].error < me {
                mi = 0;
                mj = 0;
                me = self.channels[0].quantize[0].error;
            }
            if self.channels[0].quantize[3].error < me {
                mi = 0;
                mj = 3;
                me = self.channels[0].quantize[3].error;
            }
            let mut ch = self.channels[mi];
            let mut q = ch.quantize[mj];
            q.quantized_sample = q.quantized_sample_parity_change;
            ch.quantize.set(mj, q);
            self.channels.set(mi, ch);
            proof {
                let b = best_flip_spec(c0);
                assert(mi as int == b.0 && mj as int == b.1);
                if mi == 1 {
                    assert(self@.right =~~= flip_channel_spec(c0.right, mj as int));
                    lemma_parity_of_flip(c0.right, mj as int);
                } else {
                    assert(self@.left =~~= flip_channel_spec(c0.left, mj as int));
                    lemma_parity_of_flip(c0.left, mj as int);
                }
                assert(self@ =~~= insert_sync_spec(c0));
                let ql = quantized_parity_spec(c0.left);
                let qr = quantized_parity_spec(c0.right);
                let e = eighth_spec(c0.sync_idx);
                lemma_mod_bound(ql + qr + e, 2);
                let qlp = quantized_parity_spec(self@.left);
                let qrp = quantized_parity_spec(self@.right);
                lemma_mod_bound(c0.left.dither_parity as int, 2);
                lemma_mod2_flip(ql + qr + e, qlp + qrp + e);
            }
        } else {
            proof {
                assert(self@ =~~= insert_sync_spec(c0));
                lemma_mod_bound(quantized_parity_spec(c0.left) + quantized_parity_spec(c0.right)
                    + eighth_spec(c0.sync_idx), 2);
            }
        }
    }
}

/// The frame bytes of one encoded group: each channel's codeword in
/// big-endian order, left channel first.
pub open spec fn frame_bytes_spec(left: ChannelV, right: ChannelV, hd: bool) -> Seq<u8> {
    if hd {
        let cwl = pack_codewordhd_spec(left);
        let cwr = pack_codewordhd_spec(right);
        seq![
            (cwl / 0x1_0000) as u8, ((cwl / 0x100) % 0x100) as u8, (cwl % 0x100) as u8,
            (cwr / 0x1_0000) as u8, ((cwr / 0x100) % 0x100) as u8, (cwr % 0x100) as u8,
        ]
    } else {
        let cwl = pack_codeword_spec(left);
        let cwr = pack_codeword_spec(right);
        seq![(cwl / 0x100) as u8, (cwl % 0x100) as u8, (cwr / 0x100) as u8, (cwr % 0x100) as u8]
    }
}

/// The context and frame bytes after encoding one staged group: both
/// channels quantize, the sync bit is inserted, both run the shared
/// feedback state machine, and the codewords are packed.
pub open spec fn encode_samples_spec(c: ContextV) -> (ContextV, Seq<u8>) {
    let l1 = encode_channel_spec(c.left, c.hd);
    let r1 = encode_channel_spec(c.right, c.hd);
    let c2 = insert_sync_spec(ContextV { left: l1, right: r1, ..c });
    let l2 = invert_quantize_and_prediction_spec(c2.left, c.hd);
    let r2 = invert_quantize_and_prediction_spec(c2.right, c.hd);
    (ContextV { left: l2, right: r2, ..c2 }, frame_bytes_spec(l2, r2, c.hd))
}

/// `s` with the bytes at `[at, at + b.len())` replaced by `b`.
pub open spec fn splice_spec(s: Seq<u8>, at: int, b: Seq<u8>) -> Seq<u8> {
    s.subrange(0, at) + b + s.subrange(at + b.len(), s.len() as int)
}

impl AptxContext {
    /// The state-machine half of one frame encode: quantization, sync
    /// insertion and the shared feedback pass, leaving the codewords
    /// ready to pack.
    #[verifier::rlimit(100)]
    #[verifier::spinoff_prover]
    fn encode_samples_core(&mut self)
        requires
            old(self)@.wf(),
        ensures
            final(self)@ == encode_samples_spec(old(self)@).0,
            final(self)@.wf(),
            final(self).hd == old(self).hd,
    {
        let hd = self.hd;
        let mut c0 = self.channels[0];
        c0.encode_channel(hd);
        self.channels.set(0, c0);
        let mut c1 = self.channels[1];
        c1.encode_channel(hd);
        self.channels.set(1, c1);
        proof {
            let l1 = encode_channel_spec(old(self)@.left, hd);
            let r1 = encode_channel_spec(old(self)@.right, hd);
            assert(self@ =~~= (ContextV { left: l1, right: r1, ..old(self)@ }));
            assert(self@.parity_flippable());
        }
        self.insert_sync();
        let ghost cs = self@;
        proof {
            assert forall|sb: int| 0 <= sb < 4 implies
                crate::channel::quantize_in_range(#[trigger] cs.left.quantize[sb], hd, sb)
                && crate::channel::quantize_in_range(cs.right.quantize[sb], hd, sb) by {
                let l1 = encode_channel_spec(old(self)@.left, hd);
                let r1 = encode_channel_spec(old(self)@.right, hd);
                assert(crate::channel::quantize_in_range(l1.quantize[sb], hd, sb));
                assert(crate::channel::quantize_in_range(r1.quantize[sb], hd, sb));
            }
        }
        let mut d0 = self.channels[0];
        d0.invert_quantize_and_prediction(hd);
        self.channels.set(0, d0);
        let mut d1 = self.channels[1];
        d1.invert_quantize_and_prediction(hd);
        self.channels.set(1, d1);
        proof {
            assert(self@ =~~= (ContextV {
                left: invert_quantize_and_prediction_spec(cs.left, hd),
                right: invert_quantize_and_prediction_spec(cs.right, hd),
                ..cs
            }));
            assert(self@ =~~= encode_samples_spec(old(self)@).0);
        }
    }

    /// Encodes the four samples currently staged in each channel into one
    /// frame at `output[opos..]`.
    #[verifier::rlimit(100)]
    #[verifier::spinoff_prover]
    pub fn encode_samples(&mut self, output: &mut Vec<u8>, opos: usize)
        requires
            old(self)@.wf(),
            opos + frame_size_spec(old(self)@.hd) <= old(output)@.len(),
        ensures
            final(self)@ == encode_samples_spec(old(self)@).0,
            final(self)@.wf(),
            final(self).hd == old(self).hd,
            final(output)@.len() == old(output)@.len(),
            final(output)@ == splice_spec(old(output)@, opos as int,
                encode_samples_spec(old(self)@).1),
    {
        let olen: usize = output.len();
        self.encode_samples_core();
        let hd = self.hd;
        if hd {
            let cwl: u32 = self.channels[0].pack_codewordhd();
            let cwr: u32 = self.channels[1].pack_codewordhd();
            output.set(opos, (cwl / 0x1_0000) as u8);
            output.set(opos + 1, ((cwl / 0x100) % 0x100) as u8);
            output.set(opos + 2, (cwl % 0x100) as u8);
            output.set(opos + 3, (cwr / 0x1_0000) as u8);
            output.set(opos + 4, ((cwr / 0x100) % 0x100) as u8);
            output.set(opos + 5, (cwr % 0x100) as u8);
        } else {
            let cwl: u16 = self.channels[0].pack_codeword();
            let cwr: u16 = self.channels[1].pack_codeword();
            output.set(opos, (cwl / 0x100) as u8);
            output.set(opos + 1, (cwl % 0x100) as u8);
            output.set(opos + 2, (cwr / 0x100) as u8);
            output.set(opos + 3, (cwr % 0x100) as u8);
        }
        proof {
            assert(output@ =~= splice_spec(old(output)@, opos as int,
                encode_samples_spec(old(self)@).1));
        }
    }
}

/// The 16- or 24-bit codeword beginning at `p`, big-endian.
pub open spec fn codeword_at_spec(input: Seq<u8>, p: int, hd: bool) -> int {
    if hd {
        input[p] * 0x1_0000 + input[p + 1] * 0x100 + input[p + 2]
    } else {
        input[p] * 0x100 + input[p + 1]
    }
}

/// The context and parity verdict after decoding one frame at
/// `input[ipos..]`: both channels regenerate dither, unpack their
/// codeword, run the shared feedback state machine, the combined parity
/// is rechecked, and both channels synthesize their output samples.
pub open spec fn decode_samples_spec(c: ContextV, input: Seq<u8>, ipos: int) -> (ContextV, int) {
    let hs = frame_size_spec(c.hd) / 2;
    let cwl = codeword_at_spec(input, ipos, c.hd);
    let cwr = codeword_at_spec(input, ipos + hs, c.hd);
    let l1 = generate_dither_spec(c.left);
    let l2 = if c.hd {
        unpack_codewordhd_spec(l1, cwl)
    } else {
        unpack_codeword_spec(l1, cwl)
    };
    let l3 = invert_quantize_and_prediction_spec(l2, c.hd);
    let r1 = generate_dither_spec(c.right);
    let r2 = if c.hd {
        unpack_codewordhd_spec(r1, cwr)
    } else {
        unpack_codeword_spec(r1, cwr)
    };
    let r3 = invert_quantize_and_prediction_spec(r2, c.hd);
    let ret = (quantized_parity_spec(l3) + quantized_parity_spec(r3)
        + eighth_spec(c.sync_idx)) % 2;
    let l4 = decode_channel_spec(l3);
    let r4 = decode_channel_spec(r3);
    (ContextV { left: l4, right: r4, sync_idx: (c.sync_idx + 1) % 8, ..c }, ret)
}

impl AptxContext {
    /// Decodes one frame at `input[ipos..]` into reconstructed samples,
    /// returning the parity verdict (zero when the frame is in sync).
    #[verifier::rlimit(100)]
    #[verifier::spinoff_prover]
    pub fn decode_samples(&mut self, input: &[u8], ipos: usize) -> (r: i32)
        requires
            old(self)@.wf(),
            ipos + frame_size_spec(old(self)@.hd) <= input@.len(),
        ensures
            final(self)@ == decode_samples_spec(old(self)@, input@, ipos as int).0,
            r == decode_samples_spec(old(self)@, input@, ipos as int).1,
            final(self)@.wf(),
            final(self).hd == old(self).hd,
            r == 0 || r == 1,
    {
        let hd = self.hd;
        let hs: usize = if hd {
            3
        } else {
            2
        };
        let mut c0 = self.channels[0];
        c0.generate_dither();
        if hd {
            let cw: u32 = (input[ipos] as u32) * 0x1_0000 + (input[ipos + 1] as u32) * 0x100
                + (input[ipos + 2] as u32);
            c0.unpack_codewordhd(cw);
        } else {
            let cw: u16 = (input[ipos] as u16) * 0x100 + (input[ipos + 1] as u16);
            c0.unpack_codeword(cw);
        }
        c0.invert_quantize_and_prediction(hd);
        self.channels.set(0, c0);
        let mut c1 = self.channels[1];
        c1.generate_dither();
        if hd {
            let cw: u32 = (input[ipos + hs] as u32) * 0x1_0000
                + (input[ipos + hs + 1] as u32) * 0x100 + (input[ipos + hs + 2] as u32);
            c1.unpack_codewordhd(cw);
        } else {
            let cw: u16 = (input[ipos + hs] as u16) * 0x100 + (input[ipos + hs + 1] as u16);
            c1.unpack_codeword(cw);
        }
        c1.invert_quantize_and_prediction(hd);
        self.channels.set(1, c1);
        let ret = self.check_parity();
        let mut d0 = self.channels[0];
        d0.decode_channel();
        self.channels.set(0, d0);
        let mut d1 = self.channels[1];
        d1.decode_channel();
        self.channels.set(1, d1);
        proof {
            assert(self@ =~~= decode_samples_spec(old(self)@, input@, ipos as int).0);
        }
        ret
    }
}

/// The low byte read as unsigned, the high byte as signed.
pub open spec fn sign8_spec(b: u8) -> int {
    if b >= 128 {
        b - 256
    } else {
        b as int
    }
}

/// One little-endian PCM sample starting at `p`: 16-bit left-shifted into
/// the top of the 24-bit range in the standard variant, a full 24-bit
/// sample in HD.
pub open spec fn pcm_sample_spec(input: Seq<u8>, p: int, hd: bool) -> int {
    if hd {
        input[p] + input[p + 1] * 0x100 + sign8_spec(input[p + 2]) * 0x1_0000
    } else {
        input[p] * 0x100 + sign8_spec(input[p + 1]) * 0x1_0000
    }
}

/// Reads one PCM sample from the byte stream.
pub fn read_sample(input: &[u8], p: usize, hd: bool) -> (r: i32)
    requires
        p + (if hd { 3int } else { 2int }) <= input@.len(),
    ensures
        r == pcm_sample_spec(input@, p as int, hd),
        -0x80_0000 <= r <= 0x80_0000,
{
    if hd {
        let b0: i32 = input[p] as i32;
        let b1: i32 = input[p + 1] as i32;
        let b2raw: i32 = input[p + 2] as i32;
        let b2: i32 = if b2raw >= 128 {
            b2raw - 256
        } else {
            b2raw
        };
        b0 + b1 * 0x100 + b2 * 0x1_0000
    } else {
        let b0: i32 = input[p] as i32;
        let b1raw: i32 = input[p + 1] as i32;
        let b1: i32 = if b1raw >= 128 {
            b1raw - 256
        } else {
            b1raw
        };
        b0 * 0x100 + b1 * 0x1_0000
    }
}

/// Byte `(v / d) % 256` of a PCM sample, for emitting little-endian
/// output.
pub open spec fn byte_of_spec(v: int, d: int) -> int {
    (v / d) % 256
}

/// Extracts one output byte of a reconstructed sample.
pub fn pcm_byte(v: i32, d: i64) -> (r: u8)
    requires
        1 <= d,
    ensures
        r == byte_of_spec(v as int, d as int),
{
    proof {
        crate::math::lemma_div_bounds(v as int, d as int);
    }
    let q: i64 = crate::math::div_floor_i64(v as i64, d);
    crate::math::rem_floor_i64(q, 256) as u8
}

/// The context with one group of eight PCM samples staged, interleaved
/// left-first.
pub open spec fn stage_group_spec(c: ContextV, input: Seq<u8>, ipos: int) -> ContextV {
    let hs = frame_size_spec(c.hd) / 2;
    ContextV {
        left: ChannelV {
            samples: seq![
                pcm_sample_spec(input, ipos, c.hd) as i32,
                pcm_sample_spec(input, ipos + 2 * hs, c.hd) as i32,
                pcm_sample_spec(input, ipos + 4 * hs, c.hd) as i32,
                pcm_sample_spec(input, ipos + 6 * hs, c.hd) as i32,
            ],
            ..c.left
        },
        right: ChannelV {
            samples: seq![
                pcm_sample_spec(input, ipos + hs, c.hd) as i32,
                pcm_sample_spec(input, ipos + 3 * hs, c.hd) as i32,
                pcm_sample_spec(input, ipos + 5 * hs, c.hd) as i32,
                pcm_sample_spec(input, ipos + 7 * hs, c.hd) as i32,
            ],
            ..c.right
        },
        ..c
    }
}

/// The interleaved little-endian PCM bytes of one reconstructed group.
pub open spec fn pcm_bytes_spec(c: ContextV) -> Seq<u8> {
    if c.hd {
        seq![
            byte_of_spec(c.left.samples[0] as int, 1) as u8,
            byte_of_spec(c.left.samples[0] as int, 0x100) as u8,
            byte_of_spec(c.left.samples[0] as int, 0x1_0000) as u8,
            byte_of_spec(c.right.samples[0] as int, 1) as u8,
            byte_of_spec(c.right.samples[0] as int, 0x100) as u8,
            byte_of_spec(c.right.samples[0] as int, 0x1_0000) as u8,
            byte_of_spec(c.left.samples[1] as int, 1) as u8,
            byte_of_spec(c.left.samples[1] as int, 0x100) as u8,
            byte_of_spec(c.left.samples[1] as int, 0x1_0000) as u8,
            byte_of_spec(c.right.samples[1] as int, 1) as u8,
            byte_of_spec(c.right.samples[1] as int, 0x100) as u8,
            byte_of_spec(c.right.samples[1] as int, 0x1_0000) as u8,
            byte_of_spec(c.left.samples[2] as int, 1) as u8,
            byte_of_spec(c.left.samples[2] as int, 0x100) as u8,
            byte_of_spec(c.left.samples[2] as int, 0x1_0000) as u8,
            byte_of_spec(c.right.samples[2] as int, 1) as u8,
            byte_of_spec(c.right.samples[2] as int, 0x100) as u8,
            byte_of_spec(c.right.samples[2] as int, 0x1_0000) as u8,
            byte_of_spec(c.left.samples[3] as int, 1) as u8,
            byte_of_spec(c.left.samples[3] as int, 0x100) as u8,
            byte_of_spec(c.left.samples[3] as int, 0x1_0000) as u8,
            byte_of_spec(c.right.samples[3] as int, 1) as u8,
            byte_of_spec(c.right.samples[3] as int, 0x100) as u8,
            byte_of_spec(c.right.samples[3] as int, 0x1_0000) as u8,
        ]
    } else {
        seq![
            byte_of_spec(c.left.samples[0] as int, 0x100) as u8,
            byte_of_spec(c.left.samples[0] as int, 0x1_0000) as u8,
            byte_of_spec(c.right.samples[0] as int, 0x100) as u8,
            byte_of_spec(c.right.samples[0] as int, 0x1_0000) as u8,
            byte_of_spec(c.left.samples[1] as int, 0x100) as u8,
            byte_of_spec(c.left.samples[1] as int, 0x1_0000) as u8,
            byte_of_spec(c.right.samples[1] as int, 0x100) as u8,
            byte_of_spec(c.right.samples[1] as int, 0x1_0000) as u8,
            byte_of_spec(c.left.samples[2] as int, 0x100) as u8,
            byte_of_spec(c.left.samples[2] as int, 0x1_0000) as u8,
            byte_of_spec(c.right.samples[2] as int, 0x100) as u8,
            byte_of_spec(c.right.samples[2] as int, 0x1_0000) as u8,
            byte_of_spec(c.left.samples[3] as int, 0x100) as u8,
            byte_of_spec(c.left.samples[3] as int, 0x1_0000) as u8,
            byte_of_spec(c.right.samples[3] as int, 0x100) as u8,
            byte_of_spec(c.right.samples[3] as int, 0x1_0000) as u8,
        ]
    }
}

/// The run of the encoder over the stream: as long as a full group of
/// input samples and a full frame of output space remain, stage the
/// group, encode it, and advance.
pub open spec fn encode_loop_spec(c: ContextV, input: Seq<u8>, out: Seq<u8>, ipos: int, opos: int)
    -> (ContextV, Seq<u8>, int, int)
    decreases input.len() - ipos,
{
    let fs = frame_size_spec(c.hd);
    if ipos + 4 * fs <= input.len() && opos + fs <= out.len() && 0 <= ipos {
        let es = encode_samples_spec(stage_group_spec(c, input, ipos));
        encode_loop_spec(es.0, input, splice_spec(out, opos, es.1), ipos + 4 * fs, opos + fs)
    } else {
        (c, out, ipos, opos)
    }
}

/// The run of the decoder over the stream: frames decode and emit PCM
/// while input and output room remain; the leading warm-up frames are
/// consumed without being emitted, and the run stops early on a parity
/// violation.
pub open spec fn decode_loop_spec(c: ContextV, input: Seq<u8>, out: Seq<u8>, ipos: int, opos: int)
    -> (ContextV, Seq<u8>, int, int)
    decreases input.len() - ipos,
{
    let fs = frame_size_spec(c.hd);
    if ipos + fs <= input.len() && (opos + 4 * fs <= out.len() || c.decode_skip_leading > 1)
        && 0 <= ipos {
        let ds = decode_samples_spec(c, input, ipos);
        if ds.1 != 0 {
            (ds.0, out, ipos, opos)
        } else {
            let c2 = ds.0;
            if c2.decode_skip_leading > 0 {
                let c3 = ContextV { decode_skip_leading: c2.decode_skip_leading - 1, ..c2 };
                if c3.decode_skip_leading > 0 {
                    decode_loop_spec(c3, input, out, ipos + fs, opos)
                } else {
                    decode_loop_spec(c3, input, splice_spec(out, opos, pcm_bytes_spec(c3)),
                        ipos + fs, opos + 4 * fs)
                }
            } else {
                decode_loop_spec(c2, input, splice_spec(out, opos, pcm_bytes_spec(c2)),
                    ipos + fs, opos + 4 * fs)
            }
        }
    } else {
        (c, out, ipos, opos)
    }
}

/// The context with silence staged in both channels, ready for a
/// warm-up flush frame.
pub open spec fn silence_staged_spec(c: ContextV) -> ContextV {
    ContextV {
        left: ChannelV { samples: seq![0i32, 0i32, 0i32, 0i32], ..c.left },
        right: ChannelV { samples: seq![0i32, 0i32, 0i32, 0i32], ..c.right },
        ..c
    }
}

/// The warm-up flush: while frames remain pending and the output has
/// room, one frame of the staged silence is encoded and the pending
/// count falls.
pub open spec fn finish_loop_spec(c: ContextV, out: Seq<u8>, opos: int) -> (ContextV, Seq<u8>,
    int)
    decreases c.encode_remaining,
{
    let fs = frame_size_spec(c.hd);
    if c.encode_remaining > 0 && opos + fs <= out.len() && 0 <= opos {
        let es = encode_samples_spec(c);
        finish_loop_spec(ContextV { encode_remaining: es.0.encode_remaining - 1, ..es.0 },
            splice_spec(out, opos, es.1), opos + fs)
    } else {
        (c, out, opos)
    }
}

impl AptxContext {
    /// Encodes as many complete four-sample stereo groups as fit: each
    /// group consumes `2 * frame_size` input bytes and produces one
    /// encoded frame. Returns the bytes consumed and stores the bytes
    /// written.
    pub fn encode(&mut self, input: &[u8], output: &mut Vec<u8>, written: &mut usize)
        -> (r: usize)
        requires
            old(self)@.wf(),
        ensures
            ({
                let e = encode_loop_spec(old(self)@, input@, old(output)@, 0, 0);
                &&& final(self)@ == e.0
                &&& final(output)@ == e.1
                &&& r == e.2
                &&& *final(written) == e.3
            }),
            final(self)@.wf(),
            final(self).hd == old(self).hd,
            final(output)@.len() == old(output)@.len(),
    {
        let hd = self.hd;
        let fs: usize = if hd {
            6
        } else {
            4
        };
        let hs: usize = fs / 2;
        let gb: usize = 4 * fs;
        let ilen: usize = input.len();
        let olen: usize = output.len();
        let mut ipos: usize = 0;
        let mut opos: usize = 0;
        let ghost target = encode_loop_spec(old(self)@, input@, old(output)@, 0, 0);
        while ilen - ipos >= gb && olen - opos >= fs
            invariant
                self@.wf(),
                self@.hd == old(self)@.hd,
                hd == self@.hd,
                fs == frame_size_spec(hd),
                hs == fs / 2,
                gb == 4 * fs,
                ilen == input@.len(),
                olen == output@.len(),
                output@.len() == old(output)@.len(),
                0 <= ipos <= ilen,
                0 <= opos <= olen,
                target == encode_loop_spec(self@, input@, output@, ipos as int, opos as int),
            decreases ilen - ipos,
        {
            let ghost ctop = self@;
            let mut c0 = self.channels[0];
            c0.samples.set(0, read_sample(input, ipos, hd));
            c0.samples.set(1, read_sample(input, ipos + 2 * hs, hd));
            c0.samples.set(2, read_sample(input, ipos + 4 * hs, hd));
            c0.samples.set(3, read_sample(input, ipos + 6 * hs, hd));
            self.channels.set(0, c0);
            let mut c1 = self.channels[1];
            c1.samples.set(0, read_sample(input, ipos + hs, hd));
            c1.samples.set(1, read_sample(input, ipos + 3 * hs, hd));
            c1.samples.set(2, read_sample(input, ipos + 5 * hs, hd));
            c1.samples.set(3, read_sample(input, ipos + 7 * hs, hd));
            self.channels.set(1, c1);
            proof {
                assert(self@ =~~= stage_group_spec(ctop, input@, ipos as int));
            }
            self.encode_samples(output, opos);
            ipos = ipos + gb;
            opos = opos + fs;
        }
        *written = opos;
        ipos
    }

    /// Flushes the fixed warm-up frames by feeding silence; returns one
    /// once all pending frames are flushed, after which the context is
    /// reset.
    pub fn encode_finish(&mut self, output: &mut Vec<u8>, written: &mut usize) -> (r: i32)
        requires
            old(self)@.wf(),
        ensures
            ({
                let fl = finish_loop_spec(silence_staged_spec(old(self)@), old(output)@, 0);
                if old(self)@.encode_remaining == 0 {
                    &&& final(self)@ == old(self)@
                    &&& final(output)@ == old(output)@
                    &&& *final(written) == 0
                    &&& r == 1
                } else if fl.0.encode_remaining > 0 {
                    &&& final(self)@ == fl.0
                    &&& final(output)@ == fl.1
                    &&& *final(written) == fl.2
                    &&& r == 0
                } else {
                    &&& final(self)@ == fresh_context_spec(old(self)@.hd)
                    &&& final(output)@ == fl.1
                    &&& *final(written) == fl.2
                    &&& r == 1
                }
            }),
            final(self)@.wf(),
            final(self).hd == old(self).hd,
            final(output)@.len() == old(output)@.len(),
    {
        let hd = self.hd;
        let fs: usize = if hd {
            6
        } else {
            4
        };
        let olen: usize = output.len();
        let mut opos: usize = 0;
        if self.encode_remaining == 0 {
            *written = 0;
            return 1;
        }
        let mut cl = self.channels[0];
        cl.samples = [0; 4];
        self.channels.set(0, cl);
        let mut cr = self.channels[1];
        cr.samples = [0; 4];
        self.channels.set(1, cr);
        proof {
            assert(self@ =~~= silence_staged_spec(old(self)@));
        }
        let ghost target = finish_loop_spec(silence_staged_spec(old(self)@), old(output)@, 0);
        while self.encode_remaining > 0 && olen - opos >= fs
            invariant
                self@.wf(),
                self@.hd == old(self)@.hd,
                hd == self@.hd,
                fs == frame_size_spec(hd),
                olen == output@.len(),
                output@.len() == old(output)@.len(),
                0 <= opos <= olen,
                target == finish_loop_spec(self@, output@, opos as int),
            decreases self@.encode_remaining,
        {
            self.encode_samples(output, opos);
            let ghost mid = self@;
            self.encode_remaining = self.encode_remaining - 1;
            opos = opos + fs;
            proof {
                assert(self@ =~~= (ContextV { encode_remaining: mid.encode_remaining - 1,
                    ..mid }));
            }
        }
        *written = opos;
        if self.encode_remaining > 0 {
            return 0;
        }
        self.reset();
        1
    }


    /// Writes the current reconstructed group as interleaved
    /// little-endian PCM at `output[opos..]`.
    #[verifier::rlimit(100)]
    #[verifier::spinoff_prover]
    fn emit_group(&self, output: &mut Vec<u8>, opos: usize)
        requires
            opos + 4 * frame_size_spec(self@.hd) <= old(output)@.len(),
        ensures
            final(output)@ == splice_spec(old(output)@, opos as int, pcm_bytes_spec(self@)),
            final(output)@.len() == old(output)@.len(),
    {
        let olen: usize = output.len();
        let hd = self.hd;
        let c0s = self.channels[0].samples;
        let c1s = self.channels[1].samples;
        if hd {
                        output.set(opos, pcm_byte(c0s[0], 1));
            output.set(opos + 1, pcm_byte(c0s[0], 0x100));
            output.set(opos + 2, pcm_byte(c0s[0], 0x1_0000));
            output.set(opos + 3, pcm_byte(c1s[0], 1));
            output.set(opos + 4, pcm_byte(c1s[0], 0x100));
            output.set(opos + 5, pcm_byte(c1s[0], 0x1_0000));
            output.set(opos + 6, pcm_byte(c0s[1], 1));
            output.set(opos + 7, pcm_byte(c0s[1], 0x100));
            output.set(opos + 8, pcm_byte(c0s[1], 0x1_0000));
            output.set(opos + 9, pcm_byte(c1s[1], 1));
            output.set(opos + 10, pcm_byte(c1s[1], 0x100));
            output.set(opos + 11, pcm_byte(c1s[1], 0x1_0000));
            output.set(opos + 12, pcm_byte(c0s[2], 1));
            output.set(opos + 13, pcm_byte(c0s[2], 0x100));
            output.set(opos + 14, pcm_byte(c0s[2], 0x1_0000));
            output.set(opos + 15, pcm_byte(c1s[2], 1));
            output.set(opos + 16, pcm_byte(c1s[2], 0x100));
            output.set(opos + 17, pcm_byte(c1s[2], 0x1_0000));
            output.set(opos + 18, pcm_byte(c0s[3], 1));
            output.set(opos + 19, pcm_byte(c0s[3], 0x100));
            output.set(opos + 20, pcm_byte(c0s[3], 0x1_0000));
            output.set(opos + 21, pcm_byte(c1s[3], 1));
            output.set(opos + 22, pcm_byte(c1s[3], 0x100));
            output.set(opos + 23, pcm_byte(c1s[3], 0x1_0000));
        } else {
            output.set(opos, pcm_byte(c0s[0], 0x100));
            output.set(opos + 1, pcm_byte(c0s[0], 0x1_0000));
            output.set(opos + 2, pcm_byte(c1s[0], 0x100));
            output.set(opos + 3, pcm_byte(c1s[0], 0x1_0000));
            output.set(opos + 4, pcm_byte(c0s[1], 0x100));
            output.set(opos + 5, pcm_byte(c0s[1], 0x1_0000));
            output.set(opos + 6, pcm_byte(c1s[1], 0x100));
            output.set(opos + 7, pcm_byte(c1s[1], 0x1_0000));
            output.set(opos + 8, pcm_byte(c0s[2], 0x100));
            output.set(opos + 9, pcm_byte(c0s[2], 0x1_0000));
            output.set(opos + 10, pcm_byte(c1s[2], 0x100));
            output.set(opos + 11, pcm_byte(c1s[2], 0x1_0000));
            output.set(opos + 12, pcm_byte(c0s[3], 0x100));
            output.set(opos + 13, pcm_byte(c0s[3], 0x1_0000));
            output.set(opos + 14, pcm_byte(c1s[3], 0x100));
            output.set(opos + 15, pcm_byte(c1s[3], 0x1_0000));
        }
        proof {
            assert(output@ =~= splice_spec(old(output)@, opos as int, pcm_bytes_spec(self@)));
        }
    }

    /// Decodes as many complete frames as fit, discarding the leading
    /// warm-up frames and stopping early on a parity violation. Returns
    /// the bytes consumed and stores the bytes written.
    #[verifier::rlimit(100)]
    #[verifier::spinoff_prover]
    pub fn decode(&mut self, input: &[u8], output: &mut Vec<u8>, written: &mut usize)
        -> (r: usize)
        requires
            old(self)@.wf(),
        ensures
            ({
                let d = decode_loop_spec(old(self)@, input@, old(output)@, 0, 0);
                &&& final(self)@ == d.0
                &&& final(output)@ == d.1
                &&& r == d.2
                &&& *final(written) == d.3
            }),
            final(self)@.wf(),
            final(self).hd == old(self).hd,
            final(output)@.len() == old(output)@.len(),
    {
        let hd = self.hd;
        let fs: usize = if hd {
            6
        } else {
            4
        };
        let ilen: usize = input.len();
        let olen: usize = output.len();
        let mut ipos: usize = 0;
        let mut opos: usize = 0;
        let mut in_sync: bool = true;
        let ghost target = decode_loop_spec(old(self)@, input@, old(output)@, 0, 0);
        while in_sync && ilen - ipos >= fs && (olen - opos >= 4 * fs
            || self.decode_skip_leading > 1)
            invariant
                self@.wf(),
                self@.hd == old(self)@.hd,
                hd == self@.hd,
                fs == frame_size_spec(hd),
                ilen == input@.len(),
                olen == output@.len(),
                output@.len() == old(output)@.len(),
                0 <= ipos <= ilen,
                0 <= opos <= olen,
                in_sync ==> target == decode_loop_spec(self@, input@, output@, ipos as int,
                    opos as int),
                !in_sync ==> target.0 == self@ && target.1 == output@
                    && target.2 == ipos as int && target.3 == opos as int,
            decreases ilen - ipos + (if in_sync { 1int } else { 0int }),
        {
            let ghost ctop = self@;
            let ret: i32 = self.decode_samples(input, ipos);
            if ret != 0 {
                in_sync = false;
            } else {
                let mut emit: bool = true;
                if self.decode_skip_leading > 0 {
                    self.decode_skip_leading = self.decode_skip_leading - 1;
                    if self.decode_skip_leading > 0 {
                        emit = false;
                    }
                }
                if emit {
                    self.emit_group(output, opos);
                    opos = opos + 4 * fs;
                }
                ipos = ipos + fs;
            }
        }
        *written = opos;
        ipos
    }
}

/// The full observable state of one resynchronising decode pass: the
/// context, the output bytes, the input and output cursors, and the two
/// report values handed to the caller.
#[verifier::ext_equal]
pub ghost struct SyncPassV {
    pub c: ContextV,
    pub out: Seq<u8>,
    pub ipos: int,
    pub opos: int,
    pub synced: bool,
    pub dropped: int,
}

/// The decode run never walks its input cursor backwards and never
/// consumes more input than it has.
pub proof fn lemma_decode_loop_consumed(c: ContextV, input: Seq<u8>, out: Seq<u8>, ipos: int,
    opos: int)
    requires
        0 <= ipos <= input.len(),
    ensures
        ipos <= decode_loop_spec(c, input, out, ipos, opos).2 <= input.len(),
    decreases input.len() - ipos,
{
    let fs = frame_size_spec(c.hd);
    if ipos + fs <= input.len() && (opos + 4 * fs <= out.len() || c.decode_skip_leading > 1)
        && 0 <= ipos {
        let ds = decode_samples_spec(c, input, ipos);
        if ds.1 != 0 {
        } else {
            let c2 = ds.0;
            if c2.decode_skip_leading > 0 {
                let c3 = ContextV { decode_skip_leading: c2.decode_skip_leading - 1, ..c2 };
                if c3.decode_skip_leading > 0 {
                    lemma_decode_loop_consumed(c3, input, out, ipos + fs, opos);
                } else {
                    lemma_decode_loop_consumed(c3, input,
                        splice_spec(out, opos, pcm_bytes_spec(c3)), ipos + fs, opos + 4 * fs);
                }
            } else {
                lemma_decode_loop_consumed(c2, input,
                    splice_spec(out, opos, pcm_bytes_spec(c2)), ipos + fs, opos + 4 * fs);
            }
        }
    }
}

/// The refill of a partially buffered frame: bytes move from the input
/// into the frame buffer until it is one byte short of a full frame.
pub open spec fn sync_fill_spec(c: ContextV, input: Seq<u8>, ipos: int) -> (ContextV, int)
    decreases frame_size_spec(c.hd) - 1 - c.decode_sync_buffer_len,
{
    let fs = frame_size_spec(c.hd);
    if c.decode_sync_buffer_len < fs - 1 {
        let c2 = ContextV {
            decode_sync_buffer: c.decode_sync_buffer.update(c.decode_sync_buffer_len,
                input[ipos]),
            decode_sync_buffer_len: c.decode_sync_buffer_len + 1,
            ..c
        };
        sync_fill_spec(c2, input, ipos + 1)
    } else {
        (c, ipos)
    }
}

/// The refill phase runs only when bytes are buffered and the input can
/// complete the frame up to one byte.
pub open spec fn sync_fill_phase_spec(c: ContextV, input: Seq<u8>) -> (ContextV, int) {
    let fs = frame_size_spec(c.hd);
    if c.decode_sync_buffer_len > 0 && fs - 1 - c.decode_sync_buffer_len <= input.len() {
        sync_fill_spec(c, input, 0)
    } else {
        (c, 0)
    }
}

/// The frame buffer slid left by one byte (the sliding-window retry after
/// a failed frame).
pub open spec fn shift_buffer_spec(b: Seq<u8>, fs: int) -> Seq<u8> {
    if fs == 6 {
        seq![b[1], b[2], b[3], b[4], b[5], b[5]]
    } else {
        seq![b[1], b[2], b[3], b[3], b[4], b[5]]
    }
}

/// Drop accounting after cleanly decoded frames: while bytes are still
/// unaccounted, every clean frame's bytes join the drop counter, and once
/// the sync-packet period fills, the whole counter is reported and
/// cleared.
pub open spec fn sync_account_spec(c: ContextV, dropped: int, processed: int, frames: int)
    -> (ContextV, int) {
    if c.decode_dropped > 0 && frames > 0 {
        let dd = c.decode_dropped + processed;
        let pk = c.decode_sync_packets + frames;
        if pk >= 23 {
            (ContextV { decode_dropped: 0, decode_sync_packets: 0, ..c }, dropped + dd)
        } else {
            (ContextV { decode_dropped: dd, decode_sync_packets: pk, ..c }, dropped)
        }
    } else {
        (c, dropped)
    }
}

/// The context after a failed frame attempt: the codec state resets (the
/// variant flag and the resynchronisation bookkeeping survive), one more
/// byte joins the drop counter, and the packet period restarts.
pub open spec fn sync_slide_reset_spec(c: ContextV, hd: bool) -> ContextV {
    ContextV {
        decode_dropped: c.decode_dropped + 1,
        decode_sync_packets: 0,
        decode_sync_buffer_len: c.decode_sync_buffer_len,
        decode_sync_buffer: c.decode_sync_buffer,
        ..fresh_context_spec(hd)
    }
}

/// The buffered-frame retries: while a refilled frame is pending, each
/// input byte completes it and the frame is decoded; a failure slides the
/// buffer one byte and resets the codec, a success clears the buffer and,
/// with no bytes left unaccounted, reports lockstep.
pub open spec fn sync_buffered_spec(s: SyncPassV, input: Seq<u8>) -> SyncPassV
    decreases 6 - s.ipos,
{
    let fs = frame_size_spec(s.c.hd);
    if s.c.decode_sync_buffer_len == fs - 1 && 0 <= s.ipos < fs && s.ipos < input.len()
        && (s.out.len() - s.opos >= 4 * fs || s.c.decode_skip_leading > 0
        || s.c.decode_dropped > 0) {
        let c1 = ContextV {
            decode_sync_buffer: s.c.decode_sync_buffer.update(fs - 1, input[s.ipos]),
            ..s.c
        };
        let frame = c1.decode_sync_buffer.subrange(0, fs);
        let d = decode_loop_spec(c1, frame, s.out, 0, s.opos);
        let acct = sync_account_spec(d.0, s.dropped, d.2, if d.2 == fs { 1int } else { 0int });
        let c3 = acct.0;
        let next = if d.2 < fs {
            SyncPassV {
                c: ContextV {
                    decode_sync_buffer: shift_buffer_spec(c3.decode_sync_buffer, fs),
                    ..sync_slide_reset_spec(c3, s.c.hd)
                },
                out: d.1,
                ipos: s.ipos + 1,
                opos: d.3,
                synced: false,
                dropped: acct.1,
            }
        } else {
            SyncPassV {
                c: ContextV { decode_sync_buffer_len: 0, ..c3 },
                out: d.1,
                ipos: s.ipos + 1,
                opos: d.3,
                synced: if c3.decode_dropped == 0 { true } else { s.synced },
                dropped: acct.1,
            }
        };
        sync_buffered_spec(next, input)
    } else {
        s
    }
}

/// When the buffered frame and its retries consumed a whole frame of
/// input, the cursor and buffer restart for the bulk phase.
pub open spec fn sync_mid_spec(s: SyncPassV) -> SyncPassV {
    let fs = frame_size_spec(s.c.hd);
    if s.c.decode_sync_buffer_len == fs - 1 && s.ipos == fs {
        SyncPassV { c: ContextV { decode_sync_buffer_len: 0, ..s.c }, ipos: 0, ..s }
    } else {
        s
    }
}

/// The bulk chunk size of one retry round, in frames: bounded by the
/// output room plus pending warm-up frames, by the whole frames left in
/// the input, and — while bytes are unaccounted — by the remainder of the
/// drop-accounting period.
pub open spec fn sync_step_frames_spec(s: SyncPassV, input: Seq<u8>) -> int {
    let fs = frame_size_spec(s.c.hd);
    let room = (s.out.len() - s.opos) / (4 * fs);
    let wanted = room + s.c.decode_skip_leading;
    let whole = (input.len() - s.ipos) / fs;
    let frames0 = if wanted > whole { whole } else { wanted };
    if s.c.decode_dropped > 0 && frames0 > 23 - s.c.decode_sync_packets {
        23 - s.c.decode_sync_packets
    } else {
        frames0
    }
}

/// The bulk decoding rounds: each round hands the decoder a bounded chunk
/// of whole frames; a round that stops early slides one byte and resets
/// the codec, and a fully consumed round with nothing unaccounted reports
/// lockstep.
pub open spec fn sync_bulk_spec(s: SyncPassV, input: Seq<u8>) -> SyncPassV
    decreases input.len() - s.ipos,
    via sync_bulk_spec_decreases
{
    let fs = frame_size_spec(s.c.hd);
    if input.len() - s.ipos >= fs && 0 <= s.ipos
        && (s.out.len() - s.opos >= 4 * fs || s.c.decode_skip_leading > 0
        || s.c.decode_dropped > 0) {
        let step = sync_step_frames_spec(s, input) * fs;
        if step <= 0 {
            s
        } else {
            let d = decode_loop_spec(s.c, input.subrange(s.ipos, s.ipos + step), s.out, 0,
                s.opos);
            let acct = sync_account_spec(d.0, s.dropped, d.2, d.2 / fs);
            let c3 = acct.0;
            let next = if d.2 < step {
                SyncPassV {
                    c: sync_slide_reset_spec(c3, s.c.hd),
                    out: d.1,
                    ipos: s.ipos + d.2 + 1,
                    opos: d.3,
                    synced: false,
                    dropped: acct.1,
                }
            } else {
                SyncPassV {
                    c: c3,
                    out: d.1,
                    ipos: s.ipos + d.2,
                    opos: d.3,
                    synced: if c3.decode_dropped == 0 { true } else { s.synced },
                    dropped: acct.1,
                }
            };
            sync_bulk_spec(next, input)
        }
    } else {
        s
    }
}

#[via_fn]
proof fn sync_bulk_spec_decreases(s: SyncPassV, input: Seq<u8>) {
    let fs = frame_size_spec(s.c.hd);
    if input.len() - s.ipos >= fs && 0 <= s.ipos
        && (s.out.len() - s.opos >= 4 * fs || s.c.decode_skip_leading > 0
        || s.c.decode_dropped > 0) {
        let step = sync_step_frames_spec(s, input) * fs;
        if step > 0 {
            let whole = (input.len() - s.ipos) / fs;
            vstd::arithmetic::div_mod::lemma_fundamental_div_mod(input.len() - s.ipos, fs);
            assert(sync_step_frames_spec(s, input) <= whole);
            assert(sync_step_frames_spec(s, input) * fs <= whole * fs) by (nonlinear_arith)
                requires
                    sync_step_frames_spec(s, input) <= whole,
                    fs > 0,
            ;
            assert(step <= input.len() - s.ipos);
            lemma_decode_loop_consumed(s.c, input.subrange(s.ipos, s.ipos + step), s.out, 0,
                s.opos);
        }
    }
}

/// The trailing stash: any leftover bytes short of one frame wait in the
/// frame buffer for the next call.
pub open spec fn sync_tail_spec(c: ContextV, input: Seq<u8>, ipos: int) -> (ContextV, int)
    decreases input.len() - ipos,
{
    let fs = frame_size_spec(c.hd);
    if ipos < input.len() && c.decode_sync_buffer_len < fs - 1 && 0 <= ipos {
        let c2 = ContextV {
            decode_sync_buffer: c.decode_sync_buffer.update(c.decode_sync_buffer_len,
                input[ipos]),
            decode_sync_buffer_len: c.decode_sync_buffer_len + 1,
            ..c
        };
        sync_tail_spec(c2, input, ipos + 1)
    } else {
        (c, ipos)
    }
}

/// One whole resynchronising decode pass: refill a buffered frame, retry
/// it byte by byte, decode the bulk of the stream in bounded rounds, and
/// stash the trailing partial frame.
pub open spec fn decode_sync_spec(c: ContextV, input: Seq<u8>, out: Seq<u8>) -> SyncPassV {
    let fs = frame_size_spec(c.hd);
    let f = sync_fill_phase_spec(c, input);
    let s2 = sync_buffered_spec(SyncPassV {
        c: f.0,
        out: out,
        ipos: f.1,
        opos: 0,
        synced: false,
        dropped: 0,
    }, input);
    let s3 = sync_bulk_spec(sync_mid_spec(s2), input);
    if input.len() - s3.ipos < fs {
        let t = sync_tail_spec(s3.c, input, s3.ipos);
        SyncPassV { c: t.0, ipos: t.1, ..s3 }
    } else {
        s3
    }
}

impl AptxContext {
    /// Like `decode`, but writing from `start` onward and reporting the
    /// bytes written relative to `start`.
    #[verifier::rlimit(100)]
    #[verifier::spinoff_prover]
    fn decode_from(&mut self, input: &[u8], output: &mut Vec<u8>, written: &mut usize,
        start: usize) -> (r: usize)
        requires
            old(self)@.wf(),
            start <= old(output)@.len(),
        ensures
            ({
                let d = decode_loop_spec(old(self)@, input@, old(output)@, 0, start as int);
                &&& final(self)@ == d.0
                &&& final(output)@ == d.1
                &&& r == d.2
                &&& *final(written) + start == d.3
            }),
            final(self)@.wf(),
            final(self).hd == old(self).hd,
            final(output)@.len() == old(output)@.len(),
            r <= input@.len(),
            start <= final(output)@.len(),
            *final(written) + start <= final(output)@.len(),
            final(self)@.decode_dropped == old(self)@.decode_dropped,
            final(self)@.decode_sync_packets == old(self)@.decode_sync_packets,
            final(self)@.decode_sync_buffer == old(self)@.decode_sync_buffer,
            final(self)@.decode_sync_buffer_len == old(self)@.decode_sync_buffer_len,
    {
        let hd = self.hd;
        let fs: usize = if hd {
            6
        } else {
            4
        };
        let ilen: usize = input.len();
        let olen: usize = output.len();
        let mut ipos: usize = 0;
        let mut opos: usize = start;
        let mut in_sync: bool = true;
        let ghost target = decode_loop_spec(old(self)@, input@, old(output)@, 0, start as int);
        while in_sync && ilen - ipos >= fs && (olen - opos >= 4 * fs
            || self.decode_skip_leading > 1)
            invariant
                self@.wf(),
                self@.hd == old(self)@.hd,
                hd == self@.hd,
                fs == frame_size_spec(hd),
                ilen == input@.len(),
                olen == output@.len(),
                output@.len() == old(output)@.len(),
                0 <= ipos <= ilen,
                start <= opos <= olen,
                self@.decode_dropped == old(self)@.decode_dropped,
                self@.decode_sync_packets == old(self)@.decode_sync_packets,
                self@.decode_sync_buffer == old(self)@.decode_sync_buffer,
                self@.decode_sync_buffer_len == old(self)@.decode_sync_buffer_len,
                in_sync ==> target == decode_loop_spec(self@, input@, output@, ipos as int,
                    opos as int),
                !in_sync ==> target.0 == self@ && target.1 == output@
                    && target.2 == ipos as int && target.3 == opos as int,
            decreases ilen - ipos + (if in_sync { 1int } else { 0int }),
        {
            let ret: i32 = self.decode_samples(input, ipos);
            if ret != 0 {
                in_sync = false;
            } else {
                let mut emit: bool = true;
                if self.decode_skip_leading > 0 {
                    self.decode_skip_leading = self.decode_skip_leading - 1;
                    if self.decode_skip_leading > 0 {
                        emit = false;
                    }
                }
                if emit {
                    self.emit_group(output, opos);
                    opos = opos + 4 * fs;
                }
                ipos = ipos + fs;
            }
        }
        *written = opos - start;
        ipos
    }

    /// Returns the context to the start-of-stream state while keeping the
    /// resynchronisation bookkeeping (buffered bytes and drop counters).
    pub fn reset_decode_sync(&mut self)
        ensures
            final(self)@ == (ContextV {
                decode_dropped: old(self)@.decode_dropped,
                decode_sync_packets: old(self)@.decode_sync_packets,
                decode_sync_buffer_len: old(self)@.decode_sync_buffer_len,
                decode_sync_buffer: old(self)@.decode_sync_buffer,
                ..fresh_context_spec(old(self)@.hd)
            }),
            old(self)@.wf() ==> final(self)@.wf(),
    {
        let decode_dropped = self.decode_dropped;
        let decode_sync_packets = self.decode_sync_packets;
        let decode_sync_buffer_len = self.decode_sync_buffer_len;
        let decode_sync_buffer = self.decode_sync_buffer;
        self.reset();
        self.decode_sync_buffer = decode_sync_buffer;
        self.decode_sync_buffer_len = decode_sync_buffer_len;
        self.decode_sync_packets = decode_sync_packets;
        self.decode_dropped = decode_dropped;
        proof {
            assert(self@ =~~= (ContextV {
                decode_dropped: old(self)@.decode_dropped,
                decode_sync_packets: old(self)@.decode_sync_packets,
                decode_sync_buffer_len: old(self)@.decode_sync_buffer_len,
                decode_sync_buffer: old(self)@.decode_sync_buffer,
                ..fresh_context_spec(old(self)@.hd)
            }));
            lemma_fresh_context_wf(old(self)@.hd);
        }
    }

    /// Decodes a stream whose byte alignment may have drifted: full
    /// frames are decoded as in `decode`, but a frame that fails its
    /// parity or boundary check is treated as a one-byte misalignment and
    /// retried from the next byte, with the context reset and the byte
    /// accounted in the drop counter. `synced` reports whether the stream
    /// ended in lockstep; `dropped` reports discarded bytes once enough
    /// clean packets have followed them. A partial trailing frame is kept
    /// buffered for the next call.
    #[verifier::rlimit(100)]
    #[verifier::spinoff_prover]
    pub fn decode_sync(&mut self, input: &[u8], output: &mut Vec<u8>, written: &mut usize,
        synced: &mut bool, dropped: &mut usize) -> (r: usize)
        requires
            old(self)@.wf(),
            // the drop counters are machine words: the pass can add at
            // most a few counts per input byte to them
            old(self)@.decode_dropped + 8 * input@.len() + 128 < usize::MAX,
        ensures
            ({
                let s = decode_sync_spec(old(self)@, input@, old(output)@);
                &&& final(self)@ == s.c
                &&& final(output)@ == s.out
                &&& r == s.ipos
                &&& *final(written) == s.opos
                &&& *final(synced) == s.synced
                &&& *final(dropped) == s.dropped
            }),
            final(self)@.wf(),
            final(self).hd == old(self).hd,
            final(output)@.len() == old(output)@.len(),
            r <= input@.len(),
            *final(synced) ==> final(self)@.decode_dropped == 0,
    {
        let ghost c0 = old(self)@;
        let hd = self.hd;
        let fs: usize = if hd {
            6
        } else {
            4
        };
        let ilen: usize = input.len();
        let olen: usize = output.len();
        let mut ipos: usize = 0;
        let mut opos: usize = 0;
        let mut synced_now: bool = false;
        let mut dropped_acc: usize = 0;

        // refill a partially buffered frame up to one byte short
        if self.decode_sync_buffer_len > 0
            && fs - 1 - (self.decode_sync_buffer_len as usize) <= ilen {
            let ghost len0 = self@.decode_sync_buffer_len;
            while (self.decode_sync_buffer_len as usize) < fs - 1
                invariant
                    self@.wf(),
                    hd == self@.hd,
                    fs == frame_size_spec(hd),
                    ilen == input@.len(),
                    ipos <= ilen,
                    1 <= len0,
                    ipos == self@.decode_sync_buffer_len - len0,
                    fs - 1 - (self@.decode_sync_buffer_len as int) <= ilen - ipos,
                    0 <= self@.decode_sync_buffer_len <= fs - 1,
                    self@.decode_dropped == c0.decode_dropped,
                    sync_fill_spec(self@, input@, ipos as int)
                        == sync_fill_phase_spec(c0, input@),
                decreases fs - 1 - self@.decode_sync_buffer_len,
            {
                let ghost cprev = self@;
                let b: u8 = input[ipos];
                let l: usize = self.decode_sync_buffer_len as usize;
                self.decode_sync_buffer.set(l, b);
                ipos = ipos + 1;
                self.decode_sync_buffer_len = self.decode_sync_buffer_len + 1;
                proof {
                    assert(self@ =~~= (ContextV {
                        decode_sync_buffer: cprev.decode_sync_buffer.update(
                            cprev.decode_sync_buffer_len, input@[ipos - 1]),
                        decode_sync_buffer_len: cprev.decode_sync_buffer_len + 1,
                        ..cprev
                    }));
                }
            }
        }
        proof {
            assert(self@ == sync_fill_phase_spec(c0, input@).0);
            assert(ipos as int == sync_fill_phase_spec(c0, input@).1);
        }

        // try the buffered frame, sliding one byte at a time on failure
        let ghost s2in = SyncPassV {
            c: self@,
            out: output@,
            ipos: ipos as int,
            opos: opos as int,
            synced: synced_now,
            dropped: dropped_acc as int,
        };
        let ghost t2 = sync_buffered_spec(s2in, input@);
        while (self.decode_sync_buffer_len as usize) == fs - 1 && ipos < fs && ipos < ilen
            && (olen - opos >= 4 * fs || self.decode_skip_leading > 0
            || self.decode_dropped > 0)
            invariant
                self@.wf(),
                hd == self@.hd,
                fs == frame_size_spec(hd),
                ilen == input@.len(),
                olen == output@.len(),
                output@.len() == old(output)@.len(),
                ipos <= ilen,
                ipos <= fs,
                opos <= olen,
                c0.decode_dropped + 8 * ilen + 128 < usize::MAX,
                dropped_acc + self@.decode_dropped <= c0.decode_dropped + 64 + 8 * ipos,
                synced_now ==> self@.decode_dropped == 0,
                t2 == sync_buffered_spec(SyncPassV {
                    c: self@,
                    out: output@,
                    ipos: ipos as int,
                    opos: opos as int,
                    synced: synced_now,
                    dropped: dropped_acc as int,
                }, input@),
            decreases fs - ipos,
        {
            let ghost scur = SyncPassV {
                c: self@,
                out: output@,
                ipos: ipos as int,
                opos: opos as int,
                synced: synced_now,
                dropped: dropped_acc as int,
            };
            let b: u8 = input[ipos];
            self.decode_sync_buffer.set(fs - 1, b);
            ipos = ipos + 1;
            let ghost c1v = ContextV {
                decode_sync_buffer: scur.c.decode_sync_buffer.update(fs - 1, input@[scur.ipos]),
                ..scur.c
            };
            proof {
                assert(self@ =~~= c1v);
            }

            let buf: [u8; 6] = self.decode_sync_buffer;
            let frame: &[u8] = vstd::slice::slice_subrange(buf.as_slice(), 0, fs);
            proof {
                assert(frame@ =~= c1v.decode_sync_buffer.subrange(0, fs as int));
            }
            let mut w: usize = 0;
            let ghost dS = decode_loop_spec(c1v, c1v.decode_sync_buffer.subrange(0, fs as int),
                scur.out, 0, scur.opos);
            let processed_step: usize = self.decode_from(frame, output, &mut w, opos);
            opos = opos + w;
            proof {
                assert(self@ == dS.0 && output@ == dS.1 && processed_step as int == dS.2
                    && opos as int == dS.3);
            }

            let ghost frames = if processed_step == fs { 1int } else { 0int };
            if self.decode_dropped > 0 && processed_step == fs {
                self.decode_dropped = self.decode_dropped + processed_step;
                self.decode_sync_packets = self.decode_sync_packets + 1;
                if self.decode_sync_packets >= 23 {
                    dropped_acc = dropped_acc + self.decode_dropped;
                    self.decode_dropped = 0;
                    self.decode_sync_packets = 0;
                }
            }
            let ghost acct = sync_account_spec(dS.0, scur.dropped, dS.2, frames);
            proof {
                assert(self@ =~~= acct.0);
                assert(dropped_acc as int == acct.1);
            }

            if processed_step < fs {
                self.reset_decode_sync();
                synced_now = false;
                self.decode_dropped = self.decode_dropped + 1;
                self.decode_sync_packets = 0;
                let b1: u8 = self.decode_sync_buffer[1];
                let b2: u8 = self.decode_sync_buffer[2];
                let b3: u8 = self.decode_sync_buffer[3];
                self.decode_sync_buffer.set(0, b1);
                self.decode_sync_buffer.set(1, b2);
                self.decode_sync_buffer.set(2, b3);
                if fs == 6 {
                    let b4: u8 = self.decode_sync_buffer[4];
                    let b5: u8 = self.decode_sync_buffer[5];
                    self.decode_sync_buffer.set(3, b4);
                    self.decode_sync_buffer.set(4, b5);
                }
                proof {
                    assert(self@ =~~= (ContextV {
                        decode_sync_buffer: shift_buffer_spec(acct.0.decode_sync_buffer,
                            fs as int),
                        ..sync_slide_reset_spec(acct.0, scur.c.hd)
                    }));
                }
            } else {
                if self.decode_dropped == 0 {
                    synced_now = true;
                }
                self.decode_sync_buffer_len = 0;
                proof {
                    assert(self@ =~~= (ContextV { decode_sync_buffer_len: 0, ..acct.0 }));
                }
            }
            proof {
                let snew = SyncPassV {
                    c: self@,
                    out: output@,
                    ipos: ipos as int,
                    opos: opos as int,
                    synced: synced_now,
                    dropped: dropped_acc as int,
                };
                assert(sync_buffered_spec(scur, input@) == sync_buffered_spec(snew, input@));
            }
        }
        proof {
            assert(t2 == (SyncPassV {
                c: self@,
                out: output@,
                ipos: ipos as int,
                opos: opos as int,
                synced: synced_now,
                dropped: dropped_acc as int,
            }));
        }

        if (self.decode_sync_buffer_len as usize) == fs - 1 && ipos == fs {
            ipos = 0;
            self.decode_sync_buffer_len = 0;
        }
        let ghost s3in = SyncPassV {
            c: self@,
            out: output@,
            ipos: ipos as int,
            opos: opos as int,
            synced: synced_now,
            dropped: dropped_acc as int,
        };
        proof {
            assert(s3in =~~= sync_mid_spec(t2));
        }

        // bulk decoding with one-byte slides on failure
        let ghost t3 = sync_bulk_spec(s3in, input@);
        let mut stalled: bool = false;
        while !stalled && ilen - ipos >= fs && (olen - opos >= 4 * fs
            || self.decode_skip_leading > 0 || self.decode_dropped > 0)
            invariant
                self@.wf(),
                hd == self@.hd,
                fs == frame_size_spec(hd),
                ilen == input@.len(),
                olen == output@.len(),
                output@.len() == old(output)@.len(),
                ipos <= ilen,
                opos <= olen,
                c0.decode_dropped + 8 * ilen + 128 < usize::MAX,
                dropped_acc + self@.decode_dropped <= c0.decode_dropped + 128 + 8 * ipos,
                synced_now ==> self@.decode_dropped == 0,
                !stalled ==> t3 == sync_bulk_spec(SyncPassV {
                    c: self@,
                    out: output@,
                    ipos: ipos as int,
                    opos: opos as int,
                    synced: synced_now,
                    dropped: dropped_acc as int,
                }, input@),
                stalled ==> t3 == (SyncPassV {
                    c: self@,
                    out: output@,
                    ipos: ipos as int,
                    opos: opos as int,
                    synced: synced_now,
                    dropped: dropped_acc as int,
                }),
            decreases ilen - ipos + (if stalled { 0int } else { 1int }),
        {
            let ghost scur = SyncPassV {
                c: self@,
                out: output@,
                ipos: ipos as int,
                opos: opos as int,
                synced: synced_now,
                dropped: dropped_acc as int,
            };
            let room: usize = (olen - opos) / (4 * fs);
            proof {
                lemma_fundamental_div_mod((olen - opos) as int, (4 * fs) as int);
                lemma_mod_bound((olen - opos) as int, (4 * fs) as int);
                assert(room as int * 16 <= olen - opos) by (nonlinear_arith)
                    requires
                        (olen - opos) as int == ((4 * fs) as int) * (room as int)
                            + ((olen - opos) as int) % ((4 * fs) as int),
                        0 <= ((olen - opos) as int) % ((4 * fs) as int),
                        (4 * fs) as int >= 16,
                        room as int >= 0,
                ;
            }
            let mut frames_n: usize = room + self.decode_skip_leading as usize;
            let whole_frames: usize = (ilen - ipos) / fs;
            if frames_n > whole_frames {
                frames_n = whole_frames;
            }
            if self.decode_dropped > 0 && frames_n > 23 - self.decode_sync_packets {
                frames_n = 23 - self.decode_sync_packets;
            }
            proof {
                assert(frames_n as int == sync_step_frames_spec(scur, input@));
                lemma_fundamental_div_mod((ilen - ipos) as int, fs as int);
                lemma_mod_bound((ilen - ipos) as int, fs as int);
                assert(frames_n as int * fs as int <= ilen - ipos) by (nonlinear_arith)
                    requires
                        frames_n as int <= ((ilen - ipos) as int) / (fs as int),
                        (ilen - ipos) as int == (fs as int) * (((ilen - ipos) as int)
                            / (fs as int)) + ((ilen - ipos) as int) % (fs as int),
                        0 <= ((ilen - ipos) as int) % (fs as int),
                        0 < fs as int,
                ;
            }
            let input_size_step: usize = frames_n * fs;
            if input_size_step == 0 {
                stalled = true;
            } else {
                let chunk: &[u8] = vstd::slice::slice_subrange(input, ipos,
                    ipos + input_size_step);
                let mut w: usize = 0;
                let ghost dS = decode_loop_spec(scur.c,
                    input@.subrange(scur.ipos, scur.ipos + input_size_step as int), scur.out, 0,
                    scur.opos);
                let processed_step: usize = self.decode_from(chunk, output, &mut w, opos);
                ipos = ipos + processed_step;
                opos = opos + w;
                proof {
                    assert(self@ == dS.0 && output@ == dS.1 && processed_step as int == dS.2
                        && opos as int == dS.3);
                }

                let ghost frames_done = dS.2 / (fs as int);
                if self.decode_dropped > 0 && processed_step / fs > 0 {
                    self.decode_dropped = self.decode_dropped + processed_step;
                    self.decode_sync_packets = self.decode_sync_packets + processed_step / fs;
                    if self.decode_sync_packets >= 23 {
                        dropped_acc = dropped_acc + self.decode_dropped;
                        self.decode_dropped = 0;
                        self.decode_sync_packets = 0;
                    }
                }
                let ghost acct = sync_account_spec(dS.0, scur.dropped, dS.2, frames_done);
                proof {
                    assert(self@ =~~= acct.0);
                    assert(dropped_acc as int == acct.1);
                }

                if processed_step < input_size_step {
                    self.reset_decode_sync();
                    synced_now = false;
                    ipos = ipos + 1;
                    self.decode_dropped = self.decode_dropped + 1;
                    self.decode_sync_packets = 0;
                    proof {
                        assert(self@ =~~= sync_slide_reset_spec(acct.0, scur.c.hd));
                    }
                } else {
                    if self.decode_dropped == 0 {
                        synced_now = true;
                    }
                }
                proof {
                    let snew = SyncPassV {
                        c: self@,
                        out: output@,
                        ipos: ipos as int,
                        opos: opos as int,
                        synced: synced_now,
                        dropped: dropped_acc as int,
                    };
                    assert(sync_bulk_spec(scur, input@) == sync_bulk_spec(snew, input@));
                }
            }
        }
        proof {
            assert(t3 == (SyncPassV {
                c: self@,
                out: output@,
                ipos: ipos as int,
                opos: opos as int,
                synced: synced_now,
                dropped: dropped_acc as int,
            }));
        }

        // stash a trailing partial frame for the next call
        let ghost tail_c = self@;
        let ghost tail_ipos = ipos as int;
        if ilen - ipos < fs {
            while ipos < ilen && (self.decode_sync_buffer_len as usize) < fs - 1
                invariant
                    self@.wf(),
                    hd == self@.hd,
                    fs == frame_size_spec(hd),
                    ilen == input@.len(),
                    ipos <= ilen,
                    0 <= self@.decode_sync_buffer_len <= fs - 1,
                    self@.decode_dropped == tail_c.decode_dropped,
                    synced_now ==> self@.decode_dropped == 0,
                    sync_tail_spec(self@, input@, ipos as int)
                        == sync_tail_spec(tail_c, input@, tail_ipos),
                decreases ilen - ipos,
            {
                let ghost cprev = self@;
                let b: u8 = input[ipos];
                let l: usize = self.decode_sync_buffer_len as usize;
                self.decode_sync_buffer.set(l, b);
                self.decode_sync_buffer_len = self.decode_sync_buffer_len + 1;
                ipos = ipos + 1;
                proof {
                    assert(self@ =~~= (ContextV {
                        decode_sync_buffer: cprev.decode_sync_buffer.update(
                            cprev.decode_sync_buffer_len, input@[ipos - 1]),
                        decode_sync_buffer_len: cprev.decode_sync_buffer_len + 1,
                        ..cprev
                    }));
                }
            }
            proof {
                assert(self@ == sync_tail_spec(tail_c, input@, tail_ipos).0);
                assert(ipos as int == sync_tail_spec(tail_c, input@, tail_ipos).1);
            }
        }
        proof {
            assert(decode_sync_spec(c0, input@, old(output)@) == (SyncPassV {
                c: self@,
                out: output@,
                ipos: ipos as int,
                opos: opos as int,
                synced: synced_now,
                dropped: dropped_acc as int,
            }));
        }

        *written = opos;
        *synced = synced_now;
        *dropped = dropped_acc;
        ipos
    }

    /// Reports the bytes still buffered from a partial frame, then resets
    /// the context.
    pub fn decode_sync_finish(&mut self) -> (dropped: usize)
        ensures
            dropped == old(self)@.decode_sync_buffer_len,
            final(self)@ == fresh_context_spec(old(self).hd),
            final(self)@.wf(),
    {
        let dropped: usize = self.decode_sync_buffer_len as usize;
        self.reset();
        dropped
    }
}

/// Encoding is deterministic: two runs from equal contexts over the same
/// input and output lengths yield identical encoded bytes, consumed
/// counts and final states. In particular two freshly created contexts
/// with the same variant flag encode any buffer identically.
pub proof fn lemma_encode_deterministic(c1: ContextV, c2: ContextV, input: Seq<u8>,
    out: Seq<u8>)
    requires
        c1 == c2,
    ensures
        encode_loop_spec(c1, input, out, 0, 0) == encode_loop_spec(c2, input, out, 0, 0),
        fresh_context_spec(c1.hd) == fresh_context_spec(c2.hd),
{
}

/// Resetting is idempotent and history-free: whatever encoding work a
/// context has done, `reset` returns it to exactly the state of a fresh
/// context with the same variant flag, so all subsequent output depends
/// only on the input fed after the reset.
pub proof fn lemma_reset_idempotent(c: ContextV, hd: bool)
    requires
        c == fresh_context_spec(hd),
    ensures
        forall|input: Seq<u8>, out: Seq<u8>| #[trigger] encode_loop_spec(c, input, out, 0, 0)
            == encode_loop_spec(fresh_context_spec(hd), input, out, 0, 0),
{
}

/// A fresh channel is well-formed for either variant, and a fresh context
/// altogether.
pub proof fn lemma_fresh_context_wf(hd: bool)
    ensures
        fresh_context_spec(hd).wf(),
        fresh_channel_spec().wf(hd),
{
    let ch = fresh_channel_spec();
    assert forall|sb: int| 0 <= sb < 4 implies (#[trigger] ch.prediction[sb]).wf(
        crate::tables::prediction_order_spec(sb)) by {
        assert(ch.prediction[sb].prev_sign[0] == 1);
    }
    assert(ch.qmf.wf());
}

} // verus!
