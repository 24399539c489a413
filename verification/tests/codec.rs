use aptx_codec::{aptx_bin_search, clip_intp2, rshift32, rshift64, sign_extend};
use aptx_codec::{AptxChannel, AptxContext, AptxQuantize, AptxTables, PlayerControl};

#[test]
fn test_clip_intp2() {
    assert_eq!(clip_intp2(1000, 10), 1000);
    assert_eq!(clip_intp2(1 << 11, 10), (1 << 10) - 1);
    assert_eq!(clip_intp2(-(1 << 11), 10), -(1 << 10));
}

#[test]
fn test_clip() {
    assert_eq!(10.clamp(0, 100), 10);
    assert_eq!((-10).clamp(0, 100), 0);
    assert_eq!(200.clamp(0, 100), 100);
}

#[test]
fn test_sign_extend() {
    assert_eq!(sign_extend(0b01111111, 7), -1);
    assert_eq!(sign_extend(0b10000000, 7), 0);
    assert_eq!(sign_extend(0b11111111, 7), -1);
}

#[test]
fn test_rshift32() {
    assert_eq!(rshift32(1000, 1), 500);
    assert_eq!(rshift32(1001, 1), 500);
    assert_eq!(rshift32(-1000, 1), -500);
}

#[test]
fn test_rshift64() {
    assert_eq!(rshift64(10000000000, 1), 5000000000);
    assert_eq!(rshift64(10000000001, 1), 5000000000);
    assert_eq!(rshift64(-10000000000, 1), -5000000000);
}

#[test]
fn test_aptx_update_codeword_history() {
    let mut channel = AptxChannel::default();
    channel.quantize[0].quantized_sample = 1;
    channel.quantize[1].quantized_sample = 2;
    channel.quantize[2].quantized_sample = 3;
    channel.update_codeword_history();
    assert_eq!(channel.codeword_history, 3328);
}

#[test]
fn test_aptx_generate_dither() {
    let mut channel = AptxChannel {
        codeword_history: 12345,
        ..Default::default()
    };
    channel.generate_dither();
    assert_eq!(channel.dither[0], -209715200);
}

#[test]
fn test_aptx_qmf_filter_signal_push() {
    let mut signal = aptx_codec::AptxFilterSignal::default();
    signal.qmf_filter_signal_push(123);
    assert_eq!(signal.buffer[0], 123);
    assert_eq!(signal.buffer[aptx_codec::AptxFilterSignal::FILTER_TAPS], 123);
    assert_eq!(signal.pos, 1);
}

#[test]
fn test_aptx_qmf_convolution() {
    let mut signal = aptx_codec::AptxFilterSignal::default();
    for i in 0..aptx_codec::AptxFilterSignal::FILTER_TAPS {
        signal.qmf_filter_signal_push(i as i32);
    }
    let coeffs = [1; aptx_codec::AptxFilterSignal::FILTER_TAPS];
    let result = signal.qmf_convolution(&coeffs, 5);
    assert_eq!(result, 4);
}

#[test]
fn test_aptx_bin_search() {
    let intervals = [0, 10, 20, 30, 40, 50, 60, 70];
    let factor = 2;
    let value = 15;
    let result = aptx_bin_search(value, factor, &intervals);
    assert_eq!(result, 7);
}

#[test]
fn test_aptx_quantize_difference() {
    let mut quantize = AptxQuantize::default();
    let sample_difference = 500;
    let dither = 100;
    let quantization_factor = 2048;
    let tables = AptxTables::new(false, 0);
    quantize.quantize_difference(sample_difference, dither, quantization_factor, &tables);
    assert_eq!(quantize.quantized_sample, 12);
}

#[test]
fn test_aptx_encode_channel() {
    let mut channel = AptxChannel {
        samples: [1000, 2000, 3000, 4000],
        ..Default::default()
    };
    channel.encode_channel(false);
    assert_eq!(channel.quantize[0].quantized_sample, 63);
}

#[test]
fn test_aptx_decode_channel() {
    let mut channel = AptxChannel::default();
    channel.prediction[0].previous_reconstructed_sample = 1000;
    channel.decode_channel();
    assert_eq!(channel.samples[0], 0);
}

#[test]
fn test_aptx_pack_codeword() {
    let channel = AptxChannel {
        quantize: [
            AptxQuantize {
                quantized_sample: 1,
                ..Default::default()
            },
            AptxQuantize {
                quantized_sample: 2,
                ..Default::default()
            },
            AptxQuantize {
                quantized_sample: 3,
                ..Default::default()
            },
            AptxQuantize {
                quantized_sample: 4,
                ..Default::default()
            },
        ],
        ..Default::default()
    };
    let result = channel.pack_codeword();
    assert_eq!(result, 39169);
}

#[test]
fn test_aptx_unpack_codeword() {
    let mut channel = AptxChannel::default();
    let codeword = 0b0010100010010001;
    channel.unpack_codeword(codeword);
    assert_eq!(channel.quantize[0].quantized_sample, 17);
    assert_eq!(channel.quantize[1].quantized_sample, 1);
    assert_eq!(channel.quantize[2].quantized_sample, 1);
    assert_eq!(channel.quantize[3].quantized_sample, 0);
}

#[test]
fn test_aptx_init() {
    let ctx = AptxContext::new(false);
    assert!(!ctx.hd);
    assert_eq!(
        ctx.decode_skip_leading,
        ((AptxContext::LATENCY_SAMPLES + 3) / 4) as u8
    );
    assert_eq!(
        ctx.encode_remaining,
        ((AptxContext::LATENCY_SAMPLES + 3) / 4) as u8
    );
}

#[test]
fn test_aptx_reset() {
    let mut ctx = AptxContext::new(false);
    ctx.reset();
    assert!(!ctx.hd);
    assert_eq!(
        ctx.decode_skip_leading,
        ((AptxContext::LATENCY_SAMPLES + 3) / 4) as u8
    );
    assert_eq!(
        ctx.encode_remaining,
        ((AptxContext::LATENCY_SAMPLES + 3) / 4) as u8
    );
}

#[test]
fn test_aptx_encode() {
    let mut ctx = AptxContext::new(false);
    let input = vec![0; 16];
    let mut output = vec![0; 16];
    let mut written = 0;
    let read = ctx.encode(&input, &mut output, &mut written);
    assert_eq!(read, input.len());
    assert!(written > 0);
}

#[test]
fn test_aptx_decode() {
    let mut ctx = AptxContext::new(false);
    let input = vec![0; 16];
    let mut output = vec![0; 16];
    let mut written = 0;
    let read = ctx.decode(&input, &mut output, &mut written);
    assert_eq!(read, 16);
}

#[test]
fn test_aptx_encode_finish() {
    let mut ctx = AptxContext::new(false);
    let mut output = vec![0; 16];
    let mut written = 0;
    let result = ctx.encode_finish(&mut output, &mut written);
    assert_eq!(result, 0);
    assert!(written > 0);
}

#[test]
fn test_aptx_decode_sync() {
    let mut ctx = AptxContext::new(false);
    let input = vec![0; 16];
    let mut output = vec![0; 16];
    let mut written = 0;
    let mut synced = false;
    let mut dropped = 0;
    let read = ctx.decode_sync(&input, &mut output, &mut written, &mut synced, &mut dropped);
    assert_eq!(read, input.len());
    assert!(written == 0);
    assert_eq!(synced, true);
    assert_eq!(dropped, 0);
}

#[test]
fn test_aptx_decode_sync_finish() {
    let mut ctx = AptxContext::new(false);
    ctx.decode_sync_buffer_len = 5;
    let dropped = ctx.decode_sync_finish();
    assert_eq!(dropped, 5);
}

// Encoding the same buffer through two freshly created contexts yields
// byte-identical output.
#[test]
fn test_encode_deterministic() {
    let mut input = Vec::new();
    for i in 0..320u32 {
        input.push((i * 7 % 251) as u8);
    }
    let mut c1 = AptxContext::new(false);
    let mut c2 = AptxContext::new(false);
    let mut o1 = vec![0u8; 80];
    let mut o2 = vec![0u8; 80];
    let mut w1 = 0;
    let mut w2 = 0;
    let r1 = c1.encode(&input, &mut o1, &mut w1);
    let r2 = c2.encode(&input, &mut o2, &mut w2);
    assert_eq!(r1, r2);
    assert_eq!(w1, w2);
    assert_eq!(o1, o2);
}

// A reset context encodes exactly like a fresh one, whatever it did
// before.
#[test]
fn test_reset_idempotent() {
    let mut input = Vec::new();
    for i in 0..320u32 {
        input.push((i * 13 % 247) as u8);
    }
    let mut fresh = AptxContext::new(false);
    let mut used = AptxContext::new(false);
    let mut scratch = vec![0u8; 80];
    let mut w = 0;
    used.encode(&input, &mut scratch, &mut w);
    used.reset();
    let mut o1 = vec![0u8; 80];
    let mut o2 = vec![0u8; 80];
    let mut w1 = 0;
    let mut w2 = 0;
    fresh.encode(&input, &mut o1, &mut w1);
    used.encode(&input, &mut o2, &mut w2);
    assert_eq!(w1, w2);
    assert_eq!(o1, o2);
}

// Immediately after a frame is encoded, both channel parities and the
// eighth-frame marker cancel out.
#[test]
fn test_parity_invariant() {
    let mut ctx = AptxContext::new(false);
    let mut input = Vec::new();
    for i in 0..16u32 {
        input.push((i * 31 % 256) as u8);
    }
    let mut output = vec![0u8; 4];
    let mut written = 0;
    // one frame: the sync counter was 0 before it, so no eighth-frame bit
    ctx.encode(&input, &mut output, &mut written);
    let p = ctx.channels[0].quantized_parity() ^ ctx.channels[1].quantized_parity();
    assert_eq!(p, 0);
}

// Silence round-trips to near-silence: once warm-up and group-delay
// frames are flushed and skipped, every decoded 16-bit sample stays
// within a few quantization steps of zero.
#[test]
fn test_round_trip_silence() {
    let mut enc = AptxContext::new(false);
    let input = vec![0u8; 16 * 60];
    let mut stream = vec![0u8; 4 * 60];
    let mut w = 0;
    let read = enc.encode(&input, &mut stream, &mut w);
    assert_eq!(read, input.len());
    assert_eq!(w, stream.len());
    let mut tail = vec![0u8; 4 * 23];
    let mut wt = 0;
    let done = enc.encode_finish(&mut tail, &mut wt);
    assert_eq!(done, 1);
    stream.extend_from_slice(&tail[..wt]);

    let mut dec = AptxContext::new(false);
    let mut pcm = vec![0xAAu8; 16 * 100];
    let mut wd = 0;
    let consumed = dec.decode(&stream, &mut pcm, &mut wd);
    assert_eq!(consumed, stream.len());
    assert!(wd > 0);
    let mut k = 0;
    while k + 1 < wd {
        let v = i16::from_be_bytes([pcm[k + 1], pcm[k]]) as i32;
        assert!(v.abs() <= 64, "sample {} out of range: {}", k, v);
        k += 2;
    }
}

// HD mode round-trips silence through six-byte frames the same way.
#[test]
fn test_round_trip_silence_hd() {
    let mut enc = AptxContext::new(true);
    let input = vec![0u8; 24 * 60];
    let mut stream = vec![0u8; 6 * 60];
    let mut w = 0;
    let read = enc.encode(&input, &mut stream, &mut w);
    assert_eq!(read, input.len());
    assert_eq!(w, stream.len());
    let mut tail = vec![0u8; 6 * 23];
    let mut wt = 0;
    let done = enc.encode_finish(&mut tail, &mut wt);
    assert_eq!(done, 1);
    stream.extend_from_slice(&tail[..wt]);

    let mut dec = AptxContext::new(true);
    let mut pcm = vec![0x55u8; 24 * 100];
    let mut wd = 0;
    let consumed = dec.decode(&stream, &mut pcm, &mut wd);
    assert_eq!(consumed, stream.len());
    assert!(wd > 0);
    let mut k = 0;
    while k + 2 < wd {
        let v = i32::from_le_bytes([pcm[k], pcm[k + 1], pcm[k + 2], 0]);
        let v = (v << 8) >> 8;
        assert!(v.abs() <= 16384, "sample {} out of range: {}", k, v);
        k += 3;
    }
}

// After one byte is deleted mid-stream, the resynchronising decoder
// reports lockstep again within a bounded number of frames.
#[test]
fn test_resync_after_deleted_byte() {
    let mut enc = AptxContext::new(false);
    let mut input = Vec::new();
    for i in 0..(16 * 600u32) {
        input.push((i.wrapping_mul(2654435761) >> 24) as u8);
    }
    let mut stream = vec![0u8; 4 * 600];
    let mut w = 0;
    enc.encode(&input, &mut stream, &mut w);
    // delete one byte mid-stream
    stream.remove(401);
    let mut dec = AptxContext::new(false);
    let mut pcm = vec![0u8; 16 * 1200];
    let mut wd = 0;
    let mut synced = false;
    let mut dropped = 0;
    let consumed = dec.decode_sync(&stream, &mut pcm, &mut wd, &mut synced, &mut dropped);
    assert!(consumed <= stream.len());
    assert!(stream.len() - consumed < 4);
    assert!(synced);
}

#[test]
fn test_player_control_names() {
    assert_eq!(PlayerControl::Previous.method_name(), "Previous");
    assert_eq!(PlayerControl::Next.method_name(), "Next");
}

// The saturation boundaries of the clip.
#[test]
fn test_clip_intp2_bounds() {
    assert_eq!(clip_intp2(i32::MAX, 23), (1 << 23) - 1);
    assert_eq!(clip_intp2(i32::MIN, 23), -(1 << 23));
    assert_eq!(clip_intp2(0, 0), 0);
    assert_eq!(clip_intp2(5, 0), 0);
    assert_eq!(clip_intp2(-5, 0), -1);
}

// Exact rounding at the half point and away from it.
#[test]
fn test_rshift_half_points() {
    assert_eq!(rshift32(2, 2), 0);
    assert_eq!(rshift32(3, 2), 1);
    assert_eq!(rshift32(6, 2), 2);
    assert_eq!(rshift32(-2, 2), 0);
    assert_eq!(rshift64(2, 2), 0);
    assert_eq!(rshift64(6, 2), 2);
}

// An empty input encodes to nothing and consumes nothing.
#[test]
fn test_encode_empty() {
    let mut ctx = AptxContext::new(false);
    let input: Vec<u8> = Vec::new();
    let mut output = vec![0u8; 16];
    let mut written = 5;
    let read = ctx.encode(&input, &mut output, &mut written);
    assert_eq!(read, 0);
    assert_eq!(written, 0);
}

// A full output buffer stops encoding after the frames that fit.
#[test]
fn test_encode_output_capacity() {
    let mut ctx = AptxContext::new(false);
    let input = vec![0u8; 16 * 4];
    let mut output = vec![0u8; 4];
    let mut written = 0;
    let read = ctx.encode(&input, &mut output, &mut written);
    assert_eq!(read, 16);
    assert_eq!(written, 4);
}
