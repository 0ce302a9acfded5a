use std::cell::RefCell;

use ort_bridge::attrs::{
    check_read_len, constant_input_check, elem_size, expected_byte_len, fill_elems, finish_names,
    finish_string, OpAttrType,
};
use ort_bridge::cuda::{
    arena_extend_strategy_value, conv_algorithm_search_value, supported_platforms,
    ArenaExtendStrategy, CUDAAttentionBackend, CUDAExecutionProvider, CuDNNConvAlgorithmSearch,
    TargetArch, TargetOs,
};
use ort_bridge::encode::{bool_value, i32_to_dec, u32_to_dec, u64_to_dec, usize_to_dec};
use ort_bridge::error::{DecodeError, Error, RegisterError};
use ort_bridge::handle::{HandleMode, KernelAttributes, ScratchBuffer};
use ort_bridge::options::ExecutionProviderOptions;
use ort_bridge::parfor::{batch_plan, par_for, par_for_indices};
use ort_bridge::register::{RegisterAction, RegisterSequence};

#[test]
fn decimal_encodings() {
    assert_eq!(u64_to_dec(0).as_str(), "0");
    assert_eq!(u64_to_dec(7).as_str(), "7");
    assert_eq!(u64_to_dec(1048576).as_str(), "1048576");
    assert_eq!(u64_to_dec(u64::MAX).as_str(), "18446744073709551615");
    assert_eq!(usize_to_dec(42).as_str(), "42");
    assert_eq!(u32_to_dec(255).as_str(), "255");
    assert_eq!(i32_to_dec(0).as_str(), "0");
    assert_eq!(i32_to_dec(31).as_str(), "31");
    assert_eq!(i32_to_dec(-5).as_str(), "-5");
    assert_eq!(i32_to_dec(i32::MIN).as_str(), "-2147483648");
    assert_eq!(bool_value(true), "1");
    assert_eq!(bool_value(false), "0");
}

#[test]
fn options_set_and_overwrite() {
    let mut opts = ExecutionProviderOptions::new();
    assert_eq!(opts.len(), 0);
    opts.set("alpha", String::from("1"));
    opts.set("beta", String::from("2"));
    opts.set("alpha", String::from("3"));
    assert_eq!(opts.len(), 2);
    let ffi = opts.to_ffi();
    assert_eq!(ffi.len(), 2);
    assert_eq!(ffi.keys.len(), ffi.values.len());
    assert_eq!(ffi.keys[0].as_str(), "alpha");
    assert_eq!(ffi.values[0].as_str(), "3");
    assert_eq!(ffi.keys[1].as_str(), "beta");
    assert_eq!(ffi.values[1].as_str(), "2");
}

#[test]
fn options_keys_stay_unique() {
    let mut opts = ExecutionProviderOptions::new();
    for _ in 0..3 {
        opts.set("k", String::from("v"));
    }
    let ffi = opts.to_ffi();
    assert_eq!(ffi.len(), 1);
    assert_eq!(ffi.keys[0].as_str(), "k");
    assert_eq!(ffi.values[0].as_str(), "v");
}

#[test]
fn provider_scenario_three_settings() {
    let provider = CUDAExecutionProvider::default()
        .with_device_id(1)
        .with_memory_limit(1048576)
        .with_tf32(true);
    let ffi = provider.to_ffi();
    assert_eq!(ffi.len(), 3);
    assert_eq!(ffi.keys[0].as_str(), "device_id");
    assert_eq!(ffi.values[0].as_str(), "1");
    assert_eq!(ffi.keys[1].as_str(), "gpu_mem_limit");
    assert_eq!(ffi.values[1].as_str(), "1048576");
    assert_eq!(ffi.keys[2].as_str(), "use_tf32");
    assert_eq!(ffi.values[2].as_str(), "1");
}

#[test]
fn provider_all_settings_serialize() {
    let provider = CUDAExecutionProvider::default()
        .with_arena_extend_strategy(ArenaExtendStrategy::SameAsRequested)
        .with_conv_algorithm_search(CuDNNConvAlgorithmSearch::Heuristic)
        .with_copy_in_default_stream(true)
        .with_conv_max_workspace(false)
        .with_conv1d_pad_to_nc1d(true)
        .with_cuda_graph(false)
        .with_skip_layer_norm_strict_mode(false)
        .with_prefer_nhwc(true)
        .with_fuse_conv_bias(true)
        .with_compute_stream(0xdead)
        .with_attention_backend(CUDAAttentionBackend::all());
    let ffi = provider.to_ffi();
    assert_eq!(ffi.len(), 11);
    assert_eq!(ffi.keys[0].as_str(), "arena_extend_strategy");
    assert_eq!(ffi.values[0].as_str(), "kSameAsRequested");
    assert_eq!(ffi.keys[1].as_str(), "cudnn_conv_algo_search");
    assert_eq!(ffi.values[1].as_str(), "HEURISTIC");
    assert_eq!(ffi.values[2].as_str(), "1");
    assert_eq!(ffi.values[3].as_str(), "0");
    assert_eq!(ffi.keys[9].as_str(), "user_compute_stream");
    assert_eq!(ffi.values[9].as_str(), "57005");
    assert_eq!(ffi.keys[10].as_str(), "sdpa_kernel");
    assert_eq!(ffi.values[10].as_str(), "255");
}

#[test]
fn enum_encodings_are_stable() {
    assert_eq!(arena_extend_strategy_value(ArenaExtendStrategy::NextPowerOfTwo), "kNextPowerOfTwo");
    assert_eq!(arena_extend_strategy_value(ArenaExtendStrategy::SameAsRequested), "kSameAsRequested");
    assert_eq!(conv_algorithm_search_value(CuDNNConvAlgorithmSearch::Exhaustive), "EXHAUSTIVE");
    assert_eq!(conv_algorithm_search_value(CuDNNConvAlgorithmSearch::Heuristic), "HEURISTIC");
    assert_eq!(conv_algorithm_search_value(CuDNNConvAlgorithmSearch::Default), "DEFAULT");
    for variant in [
        ArenaExtendStrategy::NextPowerOfTwo,
        ArenaExtendStrategy::SameAsRequested,
    ] {
        let first = arena_extend_strategy_value(variant);
        let second = arena_extend_strategy_value(variant);
        assert!(!first.is_empty());
        assert_eq!(first, second);
    }
    for variant in [
        CuDNNConvAlgorithmSearch::Exhaustive,
        CuDNNConvAlgorithmSearch::Heuristic,
        CuDNNConvAlgorithmSearch::Default,
    ] {
        let first = conv_algorithm_search_value(variant);
        let second = conv_algorithm_search_value(variant);
        assert!(!first.is_empty());
        assert_eq!(first, second);
    }
    assert_eq!(CuDNNConvAlgorithmSearch::default(), CuDNNConvAlgorithmSearch::Exhaustive);
}

#[test]
fn bitset_combination() {
    let a = CUDAAttentionBackend::flash_attention();
    let b = CUDAAttentionBackend::trt_fused_attention();
    assert_eq!(a.bitor(b), b.bitor(a));
    assert_eq!(a.bitor(b).bitor(b), a.bitor(b));
    assert_eq!(CUDAAttentionBackend::none().bitor(a), a);
    assert_eq!(CUDAAttentionBackend::default(), CUDAAttentionBackend::none());
    let everything = CUDAAttentionBackend::flash_attention()
        .bitor(CUDAAttentionBackend::efficient_attention())
        .bitor(CUDAAttentionBackend::trt_fused_attention())
        .bitor(CUDAAttentionBackend::cudnn_flash_attention())
        .bitor(CUDAAttentionBackend::math())
        .bitor(CUDAAttentionBackend::trt_flash_attention())
        .bitor(CUDAAttentionBackend::trt_cross_attention())
        .bitor(CUDAAttentionBackend::trt_causal_attention());
    assert_eq!(everything, CUDAAttentionBackend::all());
    assert_ne!(CUDAAttentionBackend::all(), CUDAAttentionBackend::all().bitor(CUDAAttentionBackend::lean_attention()));
}

#[test]
fn bitset_serializes_as_decimal() {
    let provider = CUDAExecutionProvider::default()
        .with_attention_backend(CUDAAttentionBackend::flash_attention().bitor(CUDAAttentionBackend::math()));
    let ffi = provider.to_ffi();
    assert_eq!(ffi.keys[0].as_str(), "sdpa_kernel");
    assert_eq!(ffi.values[0].as_str(), "17");
}

#[test]
fn platform_table() {
    let provider = CUDAExecutionProvider::default();
    assert!(provider.supported_by_platform(TargetOs::Linux, TargetArch::X86_64));
    assert!(provider.supported_by_platform(TargetOs::Linux, TargetArch::Aarch64));
    assert!(provider.supported_by_platform(TargetOs::Windows, TargetArch::X86_64));
    assert!(!provider.supported_by_platform(TargetOs::Windows, TargetArch::Aarch64));
    assert!(!provider.supported_by_platform(TargetOs::MacOs, TargetArch::Aarch64));
    assert!(!provider.supported_by_platform(TargetOs::OtherOs, TargetArch::OtherArch));
    let table = supported_platforms();
    assert_eq!(table.len(), 3);
    assert!(!table.contains(&(TargetOs::MacOs, TargetArch::Aarch64)));
    assert_eq!(provider.as_str(), "CUDAExecutionProvider");
}

#[test]
fn par_for_zero_total_never_invokes_work() {
    let seen: RefCell<Vec<usize>> = RefCell::new(Vec::new());
    let work = |i: usize| seen.borrow_mut().push(i);
    let _ = par_for(0, 4, &work);
    assert!(seen.borrow().is_empty());
    assert!(batch_plan(0, 4).is_empty());
    assert!(par_for_indices(0, 0).is_empty());
}

#[test]
fn par_for_visits_every_index_once() {
    for (total, max_batches) in [(10usize, 3usize), (10, 0), (10, 1), (10, 10), (10, 64), (1, 5), (7, 7)] {
        let seen: RefCell<Vec<usize>> = RefCell::new(Vec::new());
        let work = |i: usize| seen.borrow_mut().push(i);
        let _ = par_for(total, max_batches, &work);
        let mut got = seen.into_inner();
        got.sort();
        let expected: Vec<usize> = (0..total).collect();
        assert_eq!(got, expected);
        assert_eq!(par_for_indices(total, max_batches), expected);
    }
}

#[test]
fn batch_plan_respects_bound() {
    let plan = batch_plan(10, 3);
    assert_eq!(plan.len(), 3);
    assert_eq!(plan[0], (0, 4));
    assert_eq!(plan[1], (4, 3));
    assert_eq!(plan[2], (7, 3));
    assert!(batch_plan(5, 64).len() <= 5);
    assert_eq!(batch_plan(5, 0).len(), 1);
    assert_eq!(batch_plan(5, 0)[0], (0, 5));
    for (total, max_batches) in [(10usize, 3usize), (17, 4), (9, 9), (100, 7)] {
        let plan = batch_plan(total, max_batches);
        let longest = plan.iter().map(|b| b.1).max().unwrap();
        let shortest = plan.iter().map(|b| b.1).min().unwrap();
        assert!(longest <= shortest + 1);
    }
}

#[test]
fn batch_plan_handles_huge_ranges() {
    let plan = batch_plan(usize::MAX, 2);
    assert_eq!(plan.len(), 2);
    let (s0, l0) = plan[0];
    let (s1, l1) = plan[1];
    assert_eq!(s0, 0);
    assert_eq!(s1, l0);
    assert_eq!(l0 + l1, usize::MAX);
}

#[test]
fn native_error_keeps_its_message() {
    let e = Error::new("bad status");
    assert_eq!(e.message(), "bad status");
    let wrapped = RegisterError::Native(e);
    match wrapped {
        RegisterError::Native(inner) => assert_eq!(inner.message(), "bad status"),
        RegisterError::MissingFeature => panic!("wrong variant"),
    }
}

#[test]
fn expected_lengths_per_type() {
    assert_eq!(expected_byte_len(OpAttrType::Str, 9), 9);
    assert_eq!(expected_byte_len(OpAttrType::Floats, 2), 8);
    assert_eq!(elem_size(OpAttrType::Str), 1);
    assert_eq!(elem_size(OpAttrType::Floats), 4);
    assert_eq!(elem_size(OpAttrType::Ints), 8);
}

#[test]
fn borrowed_handle_is_never_released() {
    let mut h = KernelAttributes::from_native(HandleMode::Borrowed);
    assert!(!h.should_release());
    assert!(!h.on_drop());
    assert!(!h.on_drop());
}

#[test]
fn owned_handle_is_released_exactly_once() {
    let mut h = KernelAttributes::from_native(HandleMode::Owned);
    assert!(h.should_release());
    assert!(h.on_drop());
    assert!(!h.on_drop());
}

#[test]
fn cloned_handle_is_owned() {
    let borrowed = KernelAttributes::from_native(HandleMode::Borrowed);
    let mut copy = borrowed.clone_handle();
    assert!(copy.should_release());
    assert!(copy.on_drop());
    assert!(!copy.on_drop());
}

#[test]
fn two_phase_zero_size_yields_empty_result() {
    let buf = fill_elems(0usize, 0i64);
    assert!(buf.is_empty());
    let text_buf = fill_elems(0usize, 0u8);
    assert!(text_buf.is_empty());
    assert_eq!(finish_string(text_buf).unwrap(), "");
}

#[test]
fn fill_buffer_matches_probed_size() {
    let buf = fill_elems(5usize, 0u8);
    assert_eq!(buf, vec![0u8; 5]);
    let wide = fill_elems(3usize, 0i64);
    assert_eq!(wide, vec![0i64; 3]);
}

#[test]
fn string_decode_roundtrip() {
    let buf = vec![b'h', b'i', 0u8];
    assert_eq!(finish_string(buf).unwrap(), "hi");
    let terminator_only = vec![0u8];
    assert_eq!(finish_string(terminator_only).unwrap(), "");
    assert_eq!(finish_string(Vec::new()).unwrap(), "");
}

#[test]
fn string_decode_rejects_missing_terminator() {
    assert_eq!(finish_string(vec![b'h', b'i']), Err(DecodeError::MissingTerminator));
    assert_eq!(finish_string(vec![b'h', 0u8, b'i', 0u8]), Err(DecodeError::MissingTerminator));
}

#[test]
fn name_lists_keep_slot_order() {
    let buffers = vec![
        vec![b'x', 0u8],
        vec![0u8],
        Vec::new(),
        vec![b'b', b'i', b'a', b's', 0u8],
    ];
    let names = finish_names(buffers).unwrap();
    assert_eq!(names, vec!["x".to_string(), String::new(), String::new(), "bias".to_string()]);
    assert_eq!(finish_names(Vec::new()).unwrap(), Vec::<String>::new());
}

#[test]
fn name_lists_report_first_bad_buffer() {
    let buffers = vec![vec![b'x', 0u8], vec![b'y'], vec![0xffu8, 0u8]];
    assert_eq!(finish_names(buffers), Err(DecodeError::MissingTerminator));
    let buffers = vec![vec![0xffu8, 0u8], vec![b'y']];
    assert_eq!(finish_names(buffers), Err(DecodeError::InvalidEncoding));
}

#[test]
fn scratch_buffer_host_view_gate() {
    let host = ScratchBuffer::from_allocation(true);
    assert!(host.host_view_allowed());
    let device = ScratchBuffer::from_allocation(false);
    assert!(!device.host_view_allowed());
}

#[test]
fn scratch_buffer_freed_exactly_once() {
    let mut buf = ScratchBuffer::from_allocation(false);
    assert!(buf.on_drop());
    assert!(!buf.on_drop());
    assert!(!buf.on_drop());
}

#[test]
fn string_decode_rejects_invalid_encoding() {
    assert_eq!(finish_string(vec![0xffu8, 0xfe, 0u8]), Err(DecodeError::InvalidEncoding));
    assert_eq!(finish_string(vec![0xc3u8, 0u8]), Err(DecodeError::InvalidEncoding));
    let accented = vec![0xc3u8, 0xa9, 0u8];
    assert_eq!(finish_string(accented).unwrap(), "\u{e9}");
}

#[test]
fn positional_length_must_match_exactly() {
    assert_eq!(elem_size(OpAttrType::Float), 4);
    assert_eq!(elem_size(OpAttrType::Int), 8);
    assert_eq!(expected_byte_len(OpAttrType::Float, 1), 4);
    assert_eq!(expected_byte_len(OpAttrType::Ints, 3), 24);
    assert_eq!(check_read_len(4, 4), Ok(()));
    assert_eq!(
        check_read_len(4, 8),
        Err(DecodeError::LengthMismatch { expected: 4, returned: 8 })
    );
}

#[test]
fn constant_input_gate() {
    assert_eq!(constant_input_check(true, true), Ok(()));
    assert_eq!(constant_input_check(false, true), Err(DecodeError::NotConstant));
    assert_eq!(constant_input_check(true, false), Err(DecodeError::NotConstant));
}

fn drive_registration(
    backend_available: bool,
    outcomes: &[Option<&str>],
) -> (Vec<&'static str>, Result<(), RegisterError>) {
    let mut machine = RegisterSequence::new(backend_available);
    let mut calls: Vec<&'static str> = Vec::new();
    let mut last: Option<Error> = None;
    let mut step_idx = 0usize;
    loop {
        let (next, action) = machine.step(last);
        machine = next;
        last = None;
        match action {
            RegisterAction::CallCreate => calls.push("create"),
            RegisterAction::CallUpdate => calls.push("update"),
            RegisterAction::CallAppend => calls.push("append"),
            RegisterAction::CallRelease => calls.push("release"),
            RegisterAction::Finish(result) => return (calls, result),
        }
        if step_idx < outcomes.len() {
            last = outcomes[step_idx].map(Error::new);
        }
        step_idx += 1;
    }
}

#[test]
fn register_happy_path_releases_once() {
    let (calls, result) = drive_registration(true, &[None, None, None, None]);
    assert_eq!(calls, vec!["create", "update", "append", "release"]);
    assert!(result.is_ok());
}

#[test]
fn register_without_backend_makes_no_native_call() {
    let (calls, result) = drive_registration(false, &[]);
    assert!(calls.is_empty());
    assert!(matches!(result, Err(RegisterError::MissingFeature)));
}

#[test]
fn register_create_failure_releases_nothing() {
    let (calls, result) = drive_registration(true, &[Some("create failed")]);
    assert_eq!(calls, vec!["create"]);
    match result {
        Err(RegisterError::Native(e)) => assert_eq!(e.message(), "create failed"),
        other => panic!("unexpected result: {other:?}"),
    }
}

#[test]
fn register_update_failure_still_releases() {
    let (calls, result) = drive_registration(true, &[None, Some("update failed")]);
    assert_eq!(calls, vec!["create", "update", "release"]);
    match result {
        Err(RegisterError::Native(e)) => assert_eq!(e.message(), "update failed"),
        other => panic!("unexpected result: {other:?}"),
    }
}

#[test]
fn register_append_failure_still_releases() {
    let (calls, result) = drive_registration(true, &[None, None, Some("append failed")]);
    assert_eq!(calls, vec!["create", "update", "append", "release"]);
    match result {
        Err(RegisterError::Native(e)) => assert_eq!(e.message(), "append failed"),
        other => panic!("unexpected result: {other:?}"),
    }
}

#[test]
fn register_release_failure_does_not_mask_error() {
    let (calls, result) = drive_registration(true, &[None, Some("update failed"), Some("release failed")]);
    assert_eq!(calls, vec!["create", "update", "release"]);
    match result {
        Err(RegisterError::Native(e)) => assert_eq!(e.message(), "update failed"),
        other => panic!("unexpected result: {other:?}"),
    }
}
