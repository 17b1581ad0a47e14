use llama_params::params::SessionParams;
use llama_params::params::derived_thread_count;
use llama_params::pooling::PoolingType;
use llama_params::pooling::POOLING_CODE_CLS;
use llama_params::pooling::POOLING_CODE_MEAN;
use llama_params::pooling::POOLING_CODE_NONE;
use llama_params::pooling::POOLING_CODE_UNSPECIFIED;

#[test]
fn pooling_codes_round_trip() {
    for code in [
        POOLING_CODE_UNSPECIFIED,
        POOLING_CODE_NONE,
        POOLING_CODE_MEAN,
        POOLING_CODE_CLS,
    ] {
        let strategy = PoolingType::from_native(code);
        assert_eq!(strategy.to_native(), code);
        assert_eq!(PoolingType::try_from_native(code), Some(strategy));
    }
}

#[test]
fn pooling_variants_round_trip() {
    for variant in [
        PoolingType::Unspecified,
        PoolingType::NoPooling,
        PoolingType::Mean,
        PoolingType::Cls,
    ] {
        assert_eq!(PoolingType::from_native(variant.to_native()), variant);
    }
}

#[test]
fn pooling_exact_codes() {
    assert_eq!(PoolingType::Unspecified.to_native(), -1);
    assert_eq!(PoolingType::NoPooling.to_native(), 0);
    assert_eq!(PoolingType::Mean.to_native(), 1);
    assert_eq!(PoolingType::Cls.to_native(), 2);
}

#[test]
fn pooling_unknown_code_is_fatal() {
    assert_eq!(PoolingType::try_from_native(99), None);
    assert_eq!(PoolingType::try_from_native(3), None);
    assert_eq!(PoolingType::try_from_native(-2), None);
    assert_eq!(PoolingType::try_from_native(i32::MIN), None);
    assert_eq!(PoolingType::try_from_native(i32::MAX), None);
}

#[test]
fn default_construction_deterministic() {
    let first = SessionParams::default();
    let second = SessionParams::default();
    assert_eq!(first, second);
}

#[test]
fn default_matches_native_defaults() {
    let d = SessionParams::default();
    assert_eq!(d.seed, u32::MAX);
    assert_eq!(d.n_ctx, 512);
    assert_eq!(d.n_batch, 2048);
    assert_eq!(d.rope_scaling_type, -1);
    assert_eq!(d.rope_freq_base, 0.0f32.to_bits());
    assert_eq!(d.rope_freq_scale, 0.0f32.to_bits());
    assert_eq!(d.yarn_ext_factor, (-1.0f32).to_bits());
    assert_eq!(d.yarn_attn_factor, 1.0f32.to_bits());
    assert_eq!(d.yarn_beta_fast, 32.0f32.to_bits());
    assert_eq!(d.yarn_beta_slow, 1.0f32.to_bits());
    assert_eq!(d.yarn_orig_ctx, 0);
    assert_eq!(d.type_k, 1);
    assert_eq!(d.type_v, 1);
    assert!(!d.embedding);
    assert!(d.offload_kqv);
    assert_eq!(d.pooling, PoolingType::Unspecified);
    assert_eq!(d.defrag_threshold, (-1.0f32).to_bits());
}

#[test]
fn thread_count_derivation() {
    assert_eq!(derived_thread_count(16), 15);
    assert_eq!(derived_thread_count(8), 7);
    assert_eq!(derived_thread_count(2), 1);
    assert_eq!(derived_thread_count(1), 1);
    let eight = SessionParams::defaults_with_cores(8);
    assert_eq!(eight.n_threads, 7);
    assert_eq!(eight.n_threads_batch, 7);
    let single = SessionParams::defaults_with_cores(1);
    assert_eq!(single.n_threads, 1);
    assert_eq!(single.n_threads_batch, 1);
}

#[test]
fn default_thread_count_from_host() {
    let d = SessionParams::default();
    let cores = num_cpus::get_physical();
    let expected = if cores <= 1 { 1 } else { (cores - 1) as u32 };
    assert_eq!(d.n_threads, expected);
    assert_eq!(d.n_threads_batch, expected);
}

#[test]
fn conversion_fixed_fields() {
    let default_block = SessionParams::default().to_native_params();
    let mut tuned = SessionParams::default();
    tuned.seed = 7;
    tuned.n_ctx = 1;
    tuned.embedding = true;
    tuned.offload_kqv = false;
    tuned.pooling = PoolingType::Cls;
    tuned.defrag_threshold = 0.25f32.to_bits();
    let tuned_block = tuned.to_native_params();
    for block in [default_block, tuned_block] {
        assert!(!block.cb_eval_present);
        assert!(!block.cb_eval_user_data_present);
        assert!(!block.abort_callback_present);
        assert!(!block.abort_callback_data_present);
        assert!(!block.logits_all);
    }
}

#[test]
fn conversion_fidelity() {
    let mut p = SessionParams::default();
    p.n_ctx = 4096;
    p.n_batch = 512;
    p.embedding = true;
    p.offload_kqv = true;
    p.pooling = PoolingType::Mean;
    let block = p.to_native_params();
    assert_eq!(block.n_ctx, 4096);
    assert_eq!(block.n_batch, 512);
    assert!(block.embedding);
    assert!(block.offload_kqv);
    assert_eq!(block.pooling_type, POOLING_CODE_MEAN);
}

#[test]
fn conversion_copies_every_field() {
    let p = SessionParams {
        seed: 42,
        n_ctx: 2048,
        n_batch: 64,
        n_threads: 5,
        n_threads_batch: 3,
        rope_scaling_type: 2,
        rope_freq_base: 10000.0f32.to_bits(),
        rope_freq_scale: 0.5f32.to_bits(),
        yarn_ext_factor: 0.75f32.to_bits(),
        yarn_attn_factor: 1.5f32.to_bits(),
        yarn_beta_fast: 24.0f32.to_bits(),
        yarn_beta_slow: 2.0f32.to_bits(),
        yarn_orig_ctx: 1024,
        type_k: 0,
        type_v: 1,
        embedding: true,
        offload_kqv: false,
        pooling: PoolingType::Cls,
        defrag_threshold: 0.1f32.to_bits(),
    };
    let block = p.to_native_params();
    assert_eq!(block.seed, 42);
    assert_eq!(block.n_ctx, 2048);
    assert_eq!(block.n_batch, 64);
    assert_eq!(block.n_threads, 5);
    assert_eq!(block.n_threads_batch, 3);
    assert_eq!(block.rope_scaling_type, 2);
    assert_eq!(block.pooling_type, POOLING_CODE_CLS);
    assert_eq!(block.rope_freq_base, 10000.0f32.to_bits());
    assert_eq!(block.rope_freq_scale, 0.5f32.to_bits());
    assert_eq!(block.yarn_ext_factor, 0.75f32.to_bits());
    assert_eq!(block.yarn_attn_factor, 1.5f32.to_bits());
    assert_eq!(block.yarn_beta_fast, 24.0f32.to_bits());
    assert_eq!(block.yarn_beta_slow, 2.0f32.to_bits());
    assert_eq!(block.yarn_orig_ctx, 1024);
    assert_eq!(block.defrag_thold, 0.1f32.to_bits());
    assert_eq!(block.type_k, 0);
    assert_eq!(block.type_v, 1);
    assert!(block.embedding);
    assert!(!block.offload_kqv);
}

#[test]
fn mutation_order_independent() {
    let bits = 0.5f32.to_bits();
    let mut overwritten = SessionParams::default();
    overwritten.defrag_threshold = bits;
    let preset = SessionParams {
        defrag_threshold: bits,
        ..SessionParams::default()
    };
    assert_eq!(overwritten.to_native_params(), preset.to_native_params());
}
