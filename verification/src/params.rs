//! Session-level parameters and their translation into the native
//! context-parameter block.
//!
//! `SessionParams` is the ergonomic record a caller builds (usually from
//! defaults) and mutates freely. `NativeContextParams` models, as plain
//! data, the exact block the native context-initialization call consumes:
//! every tunable field, the two callback pairs that this crate always leaves
//! absent, and the deprecated all-logits flag that it always leaves off.
//! 32-bit float fields are carried as their IEEE 754 binary32 bit patterns,
//! so the translation is pure data movement and is verified field by field.

use vstd::prelude::*;

use crate::host::physical_core_count;
use crate::pooling::PoolingType;
use crate::pooling::spec_to_native;

verus! {

/// Native default RNG seed (llama.cpp's `LLAMA_DEFAULT_SEED`); the
/// maximum value is the sentinel for "pick a random seed".
pub const NATIVE_DEFAULT_SEED: u32 = 0xFFFF_FFFF;

/// Native default text context size; 0 would mean "from model".
pub const NATIVE_DEFAULT_N_CTX: u32 = 512;

/// Native default maximum batch size for prompt processing.
pub const NATIVE_DEFAULT_N_BATCH: u32 = 2048;

/// Native default RoPE scaling selector
/// (llama.cpp's `LLAMA_ROPE_SCALING_TYPE_UNSPECIFIED`).
pub const NATIVE_DEFAULT_ROPE_SCALING: i32 = -1;

/// Native default YaRN original context size.
pub const NATIVE_DEFAULT_YARN_ORIG_CTX: u32 = 0;

/// Native default element type for the K and V caches
/// (llama.cpp's `GGML_TYPE_F16`).
pub const NATIVE_DEFAULT_CACHE_TYPE: u32 = 1;

/// IEEE 754 binary32 bit pattern of 0.0.
pub const F32_BITS_ZERO: u32 = 0x0000_0000;

/// IEEE 754 binary32 bit pattern of 1.0.
pub const F32_BITS_ONE: u32 = 0x3F80_0000;

/// IEEE 754 binary32 bit pattern of -1.0.
pub const F32_BITS_NEG_ONE: u32 = 0xBF80_0000;

/// IEEE 754 binary32 bit pattern of 32.0.
pub const F32_BITS_THIRTY_TWO: u32 = 0x4200_0000;

/// Session-specific parameters.
///
/// Fields documented as bit patterns hold the IEEE 754 binary32 encoding of
/// the corresponding native 32-bit float field.
#[derive(Clone, Copy, Debug, PartialEq, Eq, Structural)]
#[verifier::ext_equal]
pub struct SessionParams {
    /// RNG seed, `u32::MAX` for random (default)
    pub seed: u32,
    /// text context, 0 = from model
    pub n_ctx: u32,
    /// prompt processing maximum batch size
    pub n_batch: u32,
    /// number of threads to use for generation
    pub n_threads: u32,
    /// number of threads to use for batch processing
    pub n_threads_batch: u32,
    /// RoPE scaling selector, a native `llama_rope_scaling_type` code
    pub rope_scaling_type: i32,
    /// RoPE base frequency (bit pattern), 0 = from model
    pub rope_freq_base: u32,
    /// RoPE frequency scaling factor (bit pattern), 0 = from model
    pub rope_freq_scale: u32,
    /// YaRN extrapolation mix factor (bit pattern), negative = from model
    pub yarn_ext_factor: u32,
    /// YaRN magnitude scaling factor (bit pattern)
    pub yarn_attn_factor: u32,
    /// YaRN low correction dim (bit pattern)
    pub yarn_beta_fast: u32,
    /// YaRN high correction dim (bit pattern)
    pub yarn_beta_slow: u32,
    /// YaRN original context size
    pub yarn_orig_ctx: u32,
    /// element type for the K cache, a native `ggml_type` code
    pub type_k: u32,
    /// element type for the V cache, a native `ggml_type` code
    pub type_v: u32,
    /// embedding mode only
    pub embedding: bool,
    /// whether to offload the KQV ops (including the KV cache) to GPU
    pub offload_kqv: bool,
    /// whether to pool (sum) embedding results by sequence id
    /// (ignored if no pooling layer)
    pub pooling: PoolingType,
    /// defragment the KV cache if holes/size > this ratio (bit pattern),
    /// negative = disabled (default)
    pub defrag_threshold: u32,
}

/// The native context-parameter block, modelled as plain data.
///
/// The `*_present` fields stand for the native callback and user-data
/// pointers: `true` would mean a non-null pointer. This crate never
/// registers those callbacks, so conversion always writes them absent.
#[derive(Clone, Copy, Debug, PartialEq, Eq, Structural)]
#[verifier::ext_equal]
pub struct NativeContextParams {
    /// RNG seed
    pub seed: u32,
    /// text context
    pub n_ctx: u32,
    /// prompt processing maximum batch size
    pub n_batch: u32,
    /// number of threads to use for generation
    pub n_threads: u32,
    /// number of threads to use for batch processing
    pub n_threads_batch: u32,
    /// RoPE scaling selector, a native `llama_rope_scaling_type` code
    pub rope_scaling_type: i32,
    /// pooling strategy, a native `llama_pooling_type` code
    pub pooling_type: i32,
    /// RoPE base frequency (bit pattern)
    pub rope_freq_base: u32,
    /// RoPE frequency scaling factor (bit pattern)
    pub rope_freq_scale: u32,
    /// YaRN extrapolation mix factor (bit pattern)
    pub yarn_ext_factor: u32,
    /// YaRN magnitude scaling factor (bit pattern)
    pub yarn_attn_factor: u32,
    /// YaRN low correction dim (bit pattern)
    pub yarn_beta_fast: u32,
    /// YaRN high correction dim (bit pattern)
    pub yarn_beta_slow: u32,
    /// YaRN original context size
    pub yarn_orig_ctx: u32,
    /// KV-cache defragmentation trigger ratio (bit pattern)
    pub defrag_thold: u32,
    /// whether an evaluation callback pointer is set (never, here)
    pub cb_eval_present: bool,
    /// whether evaluation-callback user data is set (never, here)
    pub cb_eval_user_data_present: bool,
    /// element type for the K cache, a native `ggml_type` code
    pub type_k: u32,
    /// element type for the V cache, a native `ggml_type` code
    pub type_v: u32,
    /// deprecated all-logits flag, always written disabled
    pub logits_all: bool,
    /// embedding mode only
    pub embedding: bool,
    /// whether to offload the KQV ops to GPU
    pub offload_kqv: bool,
    /// whether an abort callback pointer is set (never, here)
    pub abort_callback_present: bool,
    /// whether abort-callback user data is set (never, here)
    pub abort_callback_data_present: bool,
}

/// The number of generation threads derived from the host's physical core
/// count: one core is left free, and the result is clamped to at least one
/// thread so that a single-core host still generates.
pub open spec fn spec_derived_thread_count(physical_cores: usize) -> u32 {
    if physical_cores <= 1 {
        1u32
    } else if physical_cores - 1 <= u32::MAX {
        (physical_cores - 1) as u32
    } else {
        u32::MAX
    }
}

/// The block a session-parameter record converts into: every tunable field
/// copied over (the pooling strategy through its native encoding), both
/// callback pairs absent, and the deprecated all-logits flag disabled.
pub open spec fn spec_to_native_params(p: SessionParams) -> NativeContextParams {
    NativeContextParams {
        seed: p.seed,
        n_ctx: p.n_ctx,
        n_batch: p.n_batch,
        n_threads: p.n_threads,
        n_threads_batch: p.n_threads_batch,
        rope_scaling_type: p.rope_scaling_type,
        pooling_type: spec_to_native(p.pooling),
        rope_freq_base: p.rope_freq_base,
        rope_freq_scale: p.rope_freq_scale,
        yarn_ext_factor: p.yarn_ext_factor,
        yarn_attn_factor: p.yarn_attn_factor,
        yarn_beta_fast: p.yarn_beta_fast,
        yarn_beta_slow: p.yarn_beta_slow,
        yarn_orig_ctx: p.yarn_orig_ctx,
        defrag_thold: p.defrag_threshold,
        cb_eval_present: false,
        cb_eval_user_data_present: false,
        type_k: p.type_k,
        type_v: p.type_v,
        logits_all: false,
        embedding: p.embedding,
        offload_kqv: p.offload_kqv,
        abort_callback_present: false,
        abort_callback_data_present: false,
    }
}

/// The record default construction yields on a host with the given physical
/// core count: the native library's compiled-in defaults for every field,
/// except the two thread counts, which are derived from the core count.
pub open spec fn spec_defaults_with_cores(physical_cores: usize) -> SessionParams {
    SessionParams {
        seed: NATIVE_DEFAULT_SEED,
        n_ctx: NATIVE_DEFAULT_N_CTX,
        n_batch: NATIVE_DEFAULT_N_BATCH,
        n_threads: spec_derived_thread_count(physical_cores),
        n_threads_batch: spec_derived_thread_count(physical_cores),
        rope_scaling_type: NATIVE_DEFAULT_ROPE_SCALING,
        rope_freq_base: F32_BITS_ZERO,
        rope_freq_scale: F32_BITS_ZERO,
        yarn_ext_factor: F32_BITS_NEG_ONE,
        yarn_attn_factor: F32_BITS_ONE,
        yarn_beta_fast: F32_BITS_THIRTY_TWO,
        yarn_beta_slow: F32_BITS_ONE,
        yarn_orig_ctx: NATIVE_DEFAULT_YARN_ORIG_CTX,
        type_k: NATIVE_DEFAULT_CACHE_TYPE,
        type_v: NATIVE_DEFAULT_CACHE_TYPE,
        embedding: false,
        offload_kqv: true,
        pooling: PoolingType::Unspecified,
        defrag_threshold: F32_BITS_NEG_ONE,
    }
}

/// The number of generation threads to use on a host with the given
/// physical core count: the core count less one, at least one.
pub fn derived_thread_count(physical_cores: usize) -> (t: u32)
    ensures
        t == spec_derived_thread_count(physical_cores),
        t >= 1,
        physical_cores >= 2 && physical_cores - 1 <= u32::MAX ==> t == physical_cores - 1,
        physical_cores <= 1 ==> t == 1,
{
    if physical_cores <= 1 {
        1
    } else {
        let free_one: usize = physical_cores - 1;
        if free_one <= u32::MAX as usize {
            free_one as u32
        } else {
            u32::MAX
        }
    }
}

impl SessionParams {
    /// Default construction for a host with the given physical core count:
    /// every field receives the native library's compiled-in default, except
    /// `n_threads` and `n_threads_batch`, which both receive the derived
    /// thread count, and `pooling`, which receives the decoded native
    /// default pooling code.
    pub fn defaults_with_cores(physical_cores: usize) -> (r: SessionParams)
        ensures
            r == spec_defaults_with_cores(physical_cores),
    {
        let threads: u32 = derived_thread_count(physical_cores);
        let pooling = PoolingType::from_native(crate::pooling::POOLING_CODE_UNSPECIFIED);
        SessionParams {
            seed: NATIVE_DEFAULT_SEED,
            n_ctx: NATIVE_DEFAULT_N_CTX,
            n_batch: NATIVE_DEFAULT_N_BATCH,
            n_threads: threads,
            n_threads_batch: threads,
            rope_scaling_type: NATIVE_DEFAULT_ROPE_SCALING,
            rope_freq_base: F32_BITS_ZERO,
            rope_freq_scale: F32_BITS_ZERO,
            yarn_ext_factor: F32_BITS_NEG_ONE,
            yarn_attn_factor: F32_BITS_ONE,
            yarn_beta_fast: F32_BITS_THIRTY_TWO,
            yarn_beta_slow: F32_BITS_ONE,
            yarn_orig_ctx: NATIVE_DEFAULT_YARN_ORIG_CTX,
            type_k: NATIVE_DEFAULT_CACHE_TYPE,
            type_v: NATIVE_DEFAULT_CACHE_TYPE,
            embedding: false,
            offload_kqv: true,
            pooling,
            defrag_threshold: F32_BITS_NEG_ONE,
        }
    }

    /// Convert into the native context-parameter block. Total and
    /// side-effect free: every field of `self` is copied to the
    /// identically-purposed native field, the pooling strategy through its
    /// native encoding; both callback pairs are always written absent and
    /// the deprecated all-logits flag always disabled, whatever `self`
    /// holds. No field value is validated here: the native library checks
    /// them, if at all, at context-creation time.
    pub fn to_native_params(self) -> (r: NativeContextParams)
        ensures
            r == spec_to_native_params(self),
            !r.cb_eval_present,
            !r.cb_eval_user_data_present,
            !r.abort_callback_present,
            !r.abort_callback_data_present,
            !r.logits_all,
    {
        NativeContextParams {
            seed: self.seed,
            n_ctx: self.n_ctx,
            n_batch: self.n_batch,
            n_threads: self.n_threads,
            n_threads_batch: self.n_threads_batch,
            rope_scaling_type: self.rope_scaling_type,
            pooling_type: self.pooling.to_native(),
            rope_freq_base: self.rope_freq_base,
            rope_freq_scale: self.rope_freq_scale,
            yarn_ext_factor: self.yarn_ext_factor,
            yarn_attn_factor: self.yarn_attn_factor,
            yarn_beta_fast: self.yarn_beta_fast,
            yarn_beta_slow: self.yarn_beta_slow,
            yarn_orig_ctx: self.yarn_orig_ctx,
            defrag_thold: self.defrag_threshold,
            cb_eval_present: false,
            cb_eval_user_data_present: false,
            type_k: self.type_k,
            type_v: self.type_v,
            logits_all: false,
            embedding: self.embedding,
            offload_kqv: self.offload_kqv,
            abort_callback_present: false,
            abort_callback_data_present: false,
        }
    }
}

/// A record with the KV-cache defragmentation threshold overwritten and
/// every other field kept: the value a caller reaches by mutating that one
/// field after construction.
pub open spec fn spec_with_defrag(p: SessionParams, bits: u32) -> SessionParams {
    SessionParams { defrag_threshold: bits, ..p }
}

/// Whether two records agree on every field other than the KV-cache
/// defragmentation threshold.
pub open spec fn agrees_except_defrag(a: SessionParams, b: SessionParams) -> bool {
    &&& a.seed == b.seed
    &&& a.n_ctx == b.n_ctx
    &&& a.n_batch == b.n_batch
    &&& a.n_threads == b.n_threads
    &&& a.n_threads_batch == b.n_threads_batch
    &&& a.rope_scaling_type == b.rope_scaling_type
    &&& a.rope_freq_base == b.rope_freq_base
    &&& a.rope_freq_scale == b.rope_freq_scale
    &&& a.yarn_ext_factor == b.yarn_ext_factor
    &&& a.yarn_attn_factor == b.yarn_attn_factor
    &&& a.yarn_beta_fast == b.yarn_beta_fast
    &&& a.yarn_beta_slow == b.yarn_beta_slow
    &&& a.yarn_orig_ctx == b.yarn_orig_ctx
    &&& a.type_k == b.type_k
    &&& a.type_v == b.type_v
    &&& a.embedding == b.embedding
    &&& a.offload_kqv == b.offload_kqv
    &&& a.pooling == b.pooling
}

/// Law: default construction is deterministic. Two records built by default
/// construction on the same host (the same physical core count) are
/// field-wise equal: no field is sourced from a non-deterministic input.
pub proof fn lemma_default_construction_deterministic(
    a: SessionParams,
    b: SessionParams,
    physical_cores: usize,
)
    requires
        a == spec_defaults_with_cores(physical_cores),
        b == spec_defaults_with_cores(physical_cores),
    ensures
        a == b,
{
}

/// Law: thread-count derivation. Default construction on a host with
/// `physical_cores >= 2` physical cores (the count less one fitting the
/// unsigned 32-bit field) sets both thread counts to `physical_cores - 1`;
/// on a single-core host it sets both to 1, not 0.
pub proof fn lemma_thread_count_derivation(physical_cores: usize)
    ensures
        physical_cores >= 2 && physical_cores - 1 <= u32::MAX ==> spec_defaults_with_cores(
            physical_cores,
        ).n_threads == physical_cores - 1,
        physical_cores >= 2 && physical_cores - 1 <= u32::MAX ==> spec_defaults_with_cores(
            physical_cores,
        ).n_threads_batch == physical_cores - 1,
        physical_cores <= 1 ==> spec_defaults_with_cores(physical_cores).n_threads == 1,
        physical_cores <= 1 ==> spec_defaults_with_cores(physical_cores).n_threads_batch == 1,
{
}

/// Law: mutation order does not matter. Constructing a record and then
/// overwriting its defragmentation threshold converts to the same native
/// block as constructing with that field pre-set, all other fields held
/// equal.
pub proof fn lemma_mutation_order_independent(base: SessionParams, preset: SessionParams, bits: u32)
    requires
        agrees_except_defrag(preset, base),
        preset.defrag_threshold == bits,
    ensures
        spec_to_native_params(preset) == spec_to_native_params(spec_with_defrag(base, bits)),
{
    assert(preset =~= spec_with_defrag(base, bits));
}

impl Default for SessionParams {
    /// Default construction: the native library's compiled-in defaults,
    /// with both thread counts derived from the host's physical core count.
    /// Construction cannot fail; the host query always answers with at
    /// least one core.
    fn default() -> (r: SessionParams)
        ensures
            exists|n: usize| n >= 1 && r == spec_defaults_with_cores(n),
            r.n_threads == r.n_threads_batch,
            r.n_threads >= 1,
    {
        let cores: usize = physical_core_count();
        let r = SessionParams::defaults_with_cores(cores);
        proof {
            assert(cores >= 1 && r == spec_defaults_with_cores(cores));
        }
        r
    }
}

} // verus!
