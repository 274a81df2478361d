//! Resident Qwen3.5-0.8B Q4 support for the Hexagon backend.
//!
//! The selected checkpoint is the mixed-GGUF export
//! `unsloth/Qwen3.5-0.8B-GGUF/Qwen3.5-0.8B-Q4_0.gguf`. The HTP runtime does
//! not consume raw GGUF: an exporter turns it into a QWH9 base store with an
//! embedded QHM4 HMX sidecar. The base and the sidecar stay in rpcmem for the
//! lifetime of a session, while one shared runtime buffer holds activations,
//! KV cache and GatedDeltaNet state.

pub mod config;
pub mod export;
pub mod protocol;
pub mod runtime;
pub mod session;
pub mod step;

use vstd::prelude::*;

verus! {

/// Hugging Face source selected for this backend.
pub const HF_REPOSITORY: &'static str = "unsloth/Qwen3.5-0.8B-GGUF";

/// Hugging Face file selected for the Q4 HTP path.
pub const HF_FILENAME: &'static str = "Qwen3.5-0.8B-Q4_0.gguf";

/// Exported resident file consumed by the HTP runtime.
pub const EXPORTED_WEIGHT_FILENAME: &'static str = "qwen3_5_08B_Q4_0_weights.bin";

// Qwen3.5-0.8B text configuration. Vision and MTP components are deliberately
// outside this first device path.
pub const VOCAB_SIZE: usize = 248_320;

pub const HIDDEN_SIZE: usize = 1_024;

pub const NUM_LAYERS: usize = 24;

pub const INTERMEDIATE_SIZE: usize = 3_584;

pub const NUM_FULL_ATTENTION_LAYERS: usize = 6;

pub const NUM_LINEAR_ATTENTION_LAYERS: usize = 18;

pub const FULL_ATTENTION_LAYERS: [usize; 6] = [3, 7, 11, 15, 19, 23];

pub const FULL_ATTENTION_Q_HEADS: usize = 8;

pub const FULL_ATTENTION_KV_HEADS: usize = 2;

pub const FULL_ATTENTION_HEAD_DIM: usize = 256;

pub const GDN_HEADS: usize = 16;

pub const GDN_HEAD_DIM: usize = 128;

pub const GDN_CONV_KERNEL: usize = 4;

pub const ROPE_DIM: usize = 64;

pub const MAX_PREFILL_TOKENS: usize = 256;

pub const MAX_DECODE_CONTEXT: usize = 4_096;

// Sizes of the QWH9/QHM4 files that the selected exporter writes.
pub const QWH9_TENSOR_COUNT: u32 = 326;

pub const QWH9_BASE_BYTES: usize = 560_014_848;

pub const QWH9_DATA_START: usize = 13_440;

pub const QHM4_VERSION: u32 = 8;

pub const QHM4_TENSOR_COUNT: u32 = 150;

pub const QHM4_BYTES: usize = 994_050_176;

// Generated from qwen_runtime_layout.h. Keep this in sync with the DSP
// module's QWEN_RUNTIME_LAYOUT_VERSION and QWEN_RUNTIME_BYTES.
pub const QWEN_RUNTIME_LAYOUT_VERSION: u32 = 4;

pub const QWEN_RUNTIME_MAGIC: u32 = 0x5152_544d;

pub const QWEN_WORKSPACE_BYTES: usize = 40_412_800;

pub const QWEN_RUNTIME_BYTES: usize = 211_195_648;

/// The size of the request buffer. Prefill takes at most `32 + 256 * 4` bytes;
/// the rest leaves room for a later extension without another allocation.
pub const QWEN_REQUEST_BYTES: usize = 4_096;

/// The size of the response buffer: large enough for the packed stop
/// diagnostics of 144 bytes as well as for the results of the phases.
pub const QWEN_RESPONSE_BYTES: usize = 256;

// Methods of the resident module.
pub const OP_COMPUTE: u32 = 2;

pub const OP_STOP: u32 = 3;

pub const OP_MMAP: u32 = 5;

pub const OP_MUNMAP: u32 = 6;

pub const OP_MMAP_HMX: u32 = 7;

pub const OP_MUNMAP_HMX: u32 = 8;

pub const OP_MMAP_RUNTIME: u32 = 11;

pub const OP_MUNMAP_RUNTIME: u32 = 12;

// Operations of the compute method.
pub const OP_QWEN_DECODE_BIND: u32 = 284;

pub const OP_QWEN_FULL_DECODE_STEP: u32 = 285;

pub const OP_QWEN_FULL_PREFILL: u32 = 297;

// Fields of the control block at the start of the runtime buffer.
pub const CONTROL_MAGIC_OFFSET: usize = 0;

pub const CONTROL_LAYOUT_VERSION_OFFSET: usize = 4;

pub const CONTROL_FLAGS_OFFSET: usize = 8;

pub const CONTROL_POISONED_OFFSET: usize = 12;

pub const CONTROL_POSITION_OFFSET: usize = 16;

pub const CONTROL_CACHE_LEN_OFFSET: usize = 20;

pub const CONTROL_GENERATED_COUNT_OFFSET: usize = 24;

pub const CONTROL_GENERATED_CAPACITY_OFFSET: usize = 28;

} // verus!
