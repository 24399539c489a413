//! A stereo aptX-style audio codec: fixed 4:1 compression of interleaved
//! little-endian PCM (16-bit, or 24-bit in HD mode) built from a two-level
//! quadrature-mirror filter bank, backward-adaptive prediction and adaptive
//! quantization, with parity-based stream synchronisation and byte-level
//! resynchronisation for unreliable transports.

pub mod channel;
pub mod context;
pub mod math;
pub mod player;
pub mod predict;
pub mod qmf;
pub mod quantize;
pub mod tables;

pub use predict::{AptxInvertQuantize, AptxPrediction};
pub use qmf::{AptxFilterSignal, AptxQmfAnalysis};
pub use quantize::AptxQuantize;
pub use tables::AptxTables;
pub use channel::AptxChannel;
pub use context::AptxContext;
pub use player::PlayerControl;
pub use math::{
    aptx_bin_search, clip_intp2, rshift32, rshift32_clip24, rshift64, rshift64_clip24,
    sign_extend,
};
