use onnx_session::accel::{
    decoder_must_use_cpu, is_xnnpack_active, npu_requested, requires_sequential_session,
    OrtAccelerator,
};
use onnx_session::ortcalls::OptimizationLevel;
use onnx_session::providers::{plan_execution_providers, EpFeatures, ProviderSpec};
use onnx_session::role::{infer_role, role_for_file_name, SessionRole};
use onnx_session::session::{npu_failure_message, plan_session, plugin_action, PluginAction, PluginOutcome};

fn all_features() -> EpFeatures {
    EpFeatures {
        cuda: true,
        tensorrt: true,
        directml: true,
        rocm: true,
        coreml: true,
        webgpu: true,
        xnnpack: true,
        openvino: true,
    }
}

fn no_features() -> EpFeatures {
    EpFeatures {
        cuda: false,
        tensorrt: false,
        directml: false,
        rocm: false,
        coreml: false,
        webgpu: false,
        xnnpack: false,
        openvino: false,
    }
}

fn kinds(plan: &[ProviderSpec]) -> Vec<String> {
    plan.iter()
        .map(|p| match p {
            ProviderSpec::Cpu => "cpu".to_string(),
            ProviderSpec::Cuda => "cuda".to_string(),
            ProviderSpec::TensorRt => "tensorrt".to_string(),
            ProviderSpec::DirectMl => "directml".to_string(),
            ProviderSpec::Rocm => "rocm".to_string(),
            ProviderSpec::CoreMl => "coreml".to_string(),
            ProviderSpec::WebGpu => "webgpu".to_string(),
            ProviderSpec::Xnnpack { intra_threads } => format!("xnnpack:{:?}", intra_threads),
            ProviderSpec::OpenVino { device_type } => format!("openvino:{:?}", device_type),
        })
        .collect()
}

#[test]
fn accelerator_predicates() {
    assert!(npu_requested(OrtAccelerator::Npu));
    assert!(!npu_requested(OrtAccelerator::OpenVino));
    assert!(requires_sequential_session(OrtAccelerator::DirectMl));
    assert!(requires_sequential_session(OrtAccelerator::WebGpu));
    assert!(!requires_sequential_session(OrtAccelerator::Cuda));
    assert!(is_xnnpack_active(OrtAccelerator::Xnnpack));
    assert!(!is_xnnpack_active(OrtAccelerator::Auto));
}

#[test]
fn decoder_on_npu_uses_cpu() {
    assert!(decoder_must_use_cpu(OrtAccelerator::Npu, SessionRole::Decoder));
    assert!(!decoder_must_use_cpu(OrtAccelerator::Npu, SessionRole::Encoder));
    assert!(!decoder_must_use_cpu(OrtAccelerator::OpenVino, SessionRole::Decoder));
}

#[test]
fn role_from_file_name() {
    assert_eq!(role_for_file_name(Some("Decoder_Model_Merged.onnx"), SessionRole::Default), SessionRole::Decoder);
    assert_eq!(role_for_file_name(Some("encoder_model.onnx"), SessionRole::Default), SessionRole::Encoder);
    assert_eq!(role_for_file_name(None, SessionRole::Default), SessionRole::Encoder);
    assert_eq!(role_for_file_name(Some("decoder.onnx"), SessionRole::Encoder), SessionRole::Encoder);
    assert_eq!(role_for_file_name(Some("model.onnx"), SessionRole::Decoder), SessionRole::Decoder);
}

#[test]
fn role_inferred_from_final_component_only() {
    assert_eq!(infer_role("/models/whisper/decoder_model_merged.onnx", SessionRole::Default), SessionRole::Decoder);
    assert_eq!(infer_role("/models/decoder/encoder_model.onnx", SessionRole::Default), SessionRole::Encoder);
    assert_eq!(infer_role("/models/..", SessionRole::Default), SessionRole::Encoder);
    assert_eq!(infer_role("anything", SessionRole::Decoder), SessionRole::Decoder);
    assert_eq!(infer_role("Whisper-DECODER.onnx", SessionRole::Default), SessionRole::Decoder);
    assert_eq!(infer_role("decoder/model.onnx", SessionRole::Default), SessionRole::Encoder);
    assert_eq!(infer_role("models/Decoder.onnx", SessionRole::Encoder), SessionRole::Encoder);
}

#[test]
fn role_inference_settles_on_second_pass() {
    let first = infer_role("/m/DECODER.onnx", SessionRole::Default);
    assert_eq!(infer_role("/m/DECODER.onnx", first), first);
    assert_ne!(first, SessionRole::Default);
}

#[test]
fn auto_plan_orders_providers() {
    let plan = plan_execution_providers(OrtAccelerator::Auto, &all_features(), true, 8, None);
    assert_eq!(
        kinds(&plan),
        vec![
            "tensorrt",
            "cuda",
            "rocm",
            "openvino:Some(\"NPU\")",
            "openvino:None",
            "coreml",
            "directml",
            "webgpu",
            "cpu"
        ]
    );
}

#[test]
fn auto_plan_without_features_is_cpu_only() {
    let plan = plan_execution_providers(OrtAccelerator::Auto, &no_features(), true, 8, None);
    assert_eq!(kinds(&plan), vec!["cpu"]);
    let plan = plan_execution_providers(OrtAccelerator::Auto, &no_features(), false, 8, None);
    assert!(plan.is_empty());
}

#[test]
fn cpu_fallback_comes_last() {
    for accel in [
        OrtAccelerator::Auto,
        OrtAccelerator::CpuOnly,
        OrtAccelerator::Cuda,
        OrtAccelerator::TensorRt,
        OrtAccelerator::Npu,
    ] {
        let plan = plan_execution_providers(accel, &all_features(), true, 2, None);
        let k = kinds(&plan);
        assert_eq!(k.last().unwrap(), "cpu");
        assert_eq!(k.iter().filter(|s| s.as_str() == "cpu").count(), 1);
        let plan = plan_execution_providers(accel, &all_features(), false, 2, None);
        assert!(kinds(&plan).iter().all(|s| s != "cpu"));
    }
}

#[test]
fn tensorrt_plan_adds_cuda() {
    let plan = plan_execution_providers(OrtAccelerator::TensorRt, &all_features(), false, 2, None);
    assert_eq!(kinds(&plan), vec!["tensorrt", "cuda"]);
    let plan = plan_execution_providers(OrtAccelerator::TensorRt, &no_features(), true, 2, None);
    assert_eq!(kinds(&plan), vec!["cpu"]);
}

#[test]
fn xnnpack_threads_follow_parallelism() {
    let plan = plan_execution_providers(OrtAccelerator::Xnnpack, &all_features(), false, 6, None);
    assert_eq!(kinds(&plan), vec!["xnnpack:Some(6)"]);
    let plan = plan_execution_providers(OrtAccelerator::Xnnpack, &all_features(), false, 0, None);
    assert_eq!(kinds(&plan), vec!["xnnpack:None"]);
}

#[test]
fn openvino_device_override_is_trimmed() {
    let plan = plan_execution_providers(OrtAccelerator::OpenVino, &all_features(), false, 2, Some("  GPU.0 \t"));
    assert_eq!(kinds(&plan), vec!["openvino:Some(\"GPU.0\")"]);
    let plan = plan_execution_providers(OrtAccelerator::OpenVino, &all_features(), false, 2, Some("   "));
    assert_eq!(kinds(&plan), vec!["openvino:None"]);
    let plan = plan_execution_providers(OrtAccelerator::Npu, &all_features(), false, 2, Some("GPU"));
    assert_eq!(kinds(&plan), vec!["openvino:Some(\"NPU\")"]);
}

#[test]
fn npu_decoder_plan_is_cpu_only() {
    let plan = plan_session(OrtAccelerator::Npu, true, SessionRole::Decoder, Some(4), true);
    assert!(plan.cpu_only);
    assert_eq!(plan.optimization, OptimizationLevel::Level3);
    assert_eq!(plan.intra_threads, Some(4));
    assert!(!plan.use_plugin);
}

#[test]
fn npu_encoder_plan_uses_plugin() {
    let plan = plan_session(OrtAccelerator::Npu, true, SessionRole::Encoder, None, true);
    assert!(!plan.cpu_only);
    assert!(plan.use_plugin);
    assert!(plan.prefer_npu);
    assert_eq!(plan.optimization, OptimizationLevel::Level1);
    let plan = plan_session(OrtAccelerator::Npu, false, SessionRole::Encoder, None, true);
    assert!(!plan.use_plugin);
}

#[test]
fn xnnpack_plan_single_thread() {
    let plan = plan_session(OrtAccelerator::Xnnpack, false, SessionRole::Encoder, Some(8), true);
    assert_eq!(plan.intra_threads, Some(1));
    assert_eq!(plan.intra_op_spinning, Some(false));
    assert!(plan.parallel_execution);
}

#[test]
fn sequential_plan_for_directml() {
    let plan = plan_session(OrtAccelerator::DirectMl, false, SessionRole::Encoder, Some(0), true);
    assert!(!plan.parallel_execution);
    assert_eq!(plan.memory_pattern, Some(false));
    assert_eq!(plan.intra_threads, None);
}

#[test]
fn plugin_actions() {
    assert_eq!(plugin_action(OrtAccelerator::Npu, PluginOutcome::Applied), PluginAction::Commit);
    assert_eq!(plugin_action(OrtAccelerator::Npu, PluginOutcome::NoDevice), PluginAction::NpuMissing);
    assert_eq!(plugin_action(OrtAccelerator::Npu, PluginOutcome::Failed), PluginAction::NpuSelectionFailed);
    assert_eq!(plugin_action(OrtAccelerator::OpenVino, PluginOutcome::NoDevice), PluginAction::ClassicProviders);
    assert_eq!(plugin_action(OrtAccelerator::OpenVino, PluginOutcome::Failed), PluginAction::RebuildClassic);
    assert_eq!(plugin_action(OrtAccelerator::OpenVino, PluginOutcome::Applied), PluginAction::Commit);
}

#[test]
fn npu_failure_messages() {
    assert_eq!(
        npu_failure_message(PluginAction::NpuMissing, ""),
        "NPU required but no OpenVINO NPU device was discovered after plugin registration"
    );
    assert_eq!(
        npu_failure_message(PluginAction::NpuSelectionFailed, "no environment"),
        "NPU required; OpenVINO plugin device selection failed: no environment"
    );
}
