use std::path::Path;

use onnx_session::error::TranscribeError;
use onnx_session::metadata::{float_parse_error, metadata_i32_value, metadata_list_fields, non_empty_value};
use onnx_session::ortcalls::HardwareKind;
use onnx_session::paths::{model_file_name, quantization_suffix, quantized_model_path, resolve_model_path, Quantization};
use onnx_session::plugin::{
    candidate_plugin_paths, openvino_device_options, plugin_library_env_keys, select_openvino_device,
    DeviceInfo, PluginRegistry,
};
use onnx_session::text::{split_trimmed, trim_str};

fn joined(dir: &str, file: &str) -> String {
    Path::new(dir).join(file).to_string_lossy().into_owned()
}

fn config_message(e: TranscribeError) -> String {
    match e {
        TranscribeError::Config(m) => m,
    }
}

#[test]
fn quantization_suffixes() {
    assert_eq!(quantization_suffix(&Quantization::FP32), None);
    assert_eq!(quantization_suffix(&Quantization::FP16), Some("fp16"));
    assert_eq!(quantization_suffix(&Quantization::Int8), Some("int8"));
    assert_eq!(quantization_suffix(&Quantization::Int4), Some("int4"));
}

#[test]
fn model_file_names() {
    assert_eq!(model_file_name("encoder", &Quantization::Int8, true), "encoder.int8.onnx");
    assert_eq!(model_file_name("encoder", &Quantization::Int8, false), "encoder.onnx");
    assert_eq!(model_file_name("encoder", &Quantization::FP32, true), "encoder.onnx");
}

#[test]
fn quantized_path_only_for_quantized_levels() {
    assert_eq!(quantized_model_path("models", "decoder", &Quantization::FP32), None);
    assert_eq!(
        quantized_model_path("models", "decoder", &Quantization::FP16),
        Some(joined("models", "decoder.fp16.onnx"))
    );
}

#[test]
fn resolve_prefers_present_quantized_file() {
    assert_eq!(
        resolve_model_path("/opt/models", "encoder", &Quantization::Int4, true),
        joined("/opt/models", "encoder.int4.onnx")
    );
    assert_eq!(
        resolve_model_path("/opt/models", "encoder", &Quantization::Int4, false),
        joined("/opt/models", "encoder.onnx")
    );
    assert_eq!(
        resolve_model_path("/opt/models", "encoder", &Quantization::FP32, true),
        joined("/opt/models", "encoder.onnx")
    );
}

#[test]
fn resolve_puts_one_separator_between() {
    assert_eq!(
        resolve_model_path("/models", "encoder", &Quantization::FP32, false),
        "/models/encoder.onnx"
    );
    assert_eq!(
        resolve_model_path("/models", "encoder", &Quantization::FP32, true),
        "/models/encoder.onnx"
    );
    assert_eq!(resolve_model_path("/m", "enc", &Quantization::FP16, true), "/m/enc.fp16.onnx");
    assert_eq!(resolve_model_path("/m", "enc", &Quantization::FP16, false), "/m/enc.onnx");
    assert_eq!(quantized_model_path("/m", "enc", &Quantization::Int8), Some("/m/enc.int8.onnx".to_string()));
    assert_eq!(resolve_model_path("/m", "sub/enc", &Quantization::Int4, true), "/m/sub/enc.int4.onnx");
    assert_eq!(resolve_model_path("m", "enc", &Quantization::FP16, false), "m/enc.onnx");
}

#[test]
fn plugin_candidates_beside_executable() {
    let paths = candidate_plugin_paths(&Vec::new(), Some("/app"));
    assert_eq!(paths.len(), 7);
    assert_eq!(paths[5], "/app/onnxruntime_providers_openvino.dll");
    assert_eq!(paths[6], "/app/plugins/onnxruntime_providers_openvino.dll");
}

#[test]
fn resolve_joins_directory() {
    let p = resolve_model_path("dir", "m", &Quantization::FP32, false);
    assert_ne!(p, "m.onnx");
    assert!(p.starts_with("dir"));
    assert!(p.ends_with("m.onnx"));
}

#[test]
fn trimming_unicode_whitespace() {
    assert_eq!(trim_str("  a b \t\n"), "a b");
    assert_eq!(trim_str("\u{3000}x\u{a0}"), "x");
    assert_eq!(trim_str("   "), "");
    assert_eq!(trim_str(""), "");
}

#[test]
fn splitting_lists() {
    assert_eq!(split_trimmed("1.0, 2.5 ,3", ','), vec!["1.0", "2.5", "3"]);
    assert_eq!(split_trimmed("", ','), vec![""]);
    assert_eq!(split_trimmed("a,,b,", ','), vec!["a", "", "b", ""]);
    assert_eq!(metadata_list_fields(" 0.5 ,-1"), vec!["0.5", "-1"]);
}

#[test]
fn empty_metadata_reads_as_absent() {
    assert_eq!(non_empty_value(Some(String::new())), None);
    assert_eq!(non_empty_value(Some("x".to_string())), Some("x".to_string()));
    assert_eq!(non_empty_value(None), None);
}

#[test]
fn integer_metadata_values() {
    assert_eq!(metadata_i32_value("k", None, Some(7)).unwrap(), Some(7));
    assert_eq!(metadata_i32_value("k", None, None).unwrap(), None);
    assert_eq!(metadata_i32_value("k", Some("42".to_string()), Some(7)).unwrap(), Some(42));
    assert_eq!(metadata_i32_value("k", Some("-2147483648".to_string()), None).unwrap(), Some(i32::MIN));
    assert_eq!(metadata_i32_value("k", Some("+5".to_string()), None).unwrap(), Some(5));
}

#[test]
fn integer_metadata_errors() {
    let e = metadata_i32_value("vocab_size", Some("12a".to_string()), None).unwrap_err();
    assert!(config_message(e).starts_with("failed to parse 'vocab_size': "));
    let e = metadata_i32_value("n", Some("2147483648".to_string()), None).unwrap_err();
    assert!(config_message(e).starts_with("failed to parse 'n': "));
    assert!(metadata_i32_value("n", Some(" 1".to_string()), None).is_err());
    assert!(metadata_i32_value("n", Some("-".to_string()), None).is_err());
}

#[test]
fn float_error_message() {
    let e = float_parse_error("mean", "invalid float literal");
    assert_eq!(config_message(e), "failed to parse floats in 'mean': invalid float literal");
}

#[test]
fn plugin_env_keys() {
    assert_eq!(plugin_library_env_keys(), vec!["HANDY_OPENVINO_EP_LIBRARY", "ORT_OPENVINO_EP_LIBRARY"]);
}

#[test]
fn plugin_candidates_in_order() {
    let env = vec!["  /opt/ov/plugin.dll \n".to_string(), "   ".to_string()];
    let paths = candidate_plugin_paths(&env, Some("/app/bin"));
    assert_eq!(paths.len(), 8);
    assert_eq!(paths[0], "/opt/ov/plugin.dll");
    assert_eq!(paths[1], "C:\\Program Files\\Intel\\OpenVINO\\onnxruntime_providers_openvino.dll");
    assert_eq!(paths[4], "onnxruntime_providers_openvino.dll");
    assert_eq!(paths[5], "plugins/onnxruntime_providers_openvino.dll");
    assert_eq!(paths[6], joined("/app/bin", "onnxruntime_providers_openvino.dll"));
    assert_eq!(
        paths[7],
        Path::new("/app/bin").join("plugins").join("onnxruntime_providers_openvino.dll").to_string_lossy()
    );
    let paths = candidate_plugin_paths(&Vec::new(), None);
    assert_eq!(paths.len(), 5);
}

fn device(ep: Option<&str>, kind: HardwareKind) -> DeviceInfo {
    DeviceInfo { ep: ep.map(|s| s.to_string()), kind }
}

#[test]
fn device_selection_prefers_non_auto() {
    let devices = vec![
        device(Some("CPUExecutionProvider"), HardwareKind::Cpu),
        device(Some("OpenVINOExecutionProvider.AUTO"), HardwareKind::Gpu),
        device(Some("OpenVINOExecutionProvider"), HardwareKind::Gpu),
        device(Some("OpenVINOExecutionProvider"), HardwareKind::Npu),
    ];
    assert_eq!(select_openvino_device(&devices, false), Some(2));
    let only_ov = vec![
        device(None, HardwareKind::Npu),
        device(Some("OpenVINOExecutionProvider.AUTO"), HardwareKind::Gpu),
        device(Some("openvino"), HardwareKind::Gpu),
    ];
    assert_eq!(select_openvino_device(&only_ov, false), Some(2));
    assert_eq!(select_openvino_device(&devices, true), Some(3));
}

#[test]
fn device_selection_skips_other_providers() {
    let devices = vec![
        device(Some("CPUExecutionProvider"), HardwareKind::Cpu),
        device(Some("OpenVINOExecutionProvider.AUTO"), HardwareKind::Gpu),
        device(Some("OpenVINOExecutionProvider"), HardwareKind::Gpu),
    ];
    assert_eq!(select_openvino_device(&devices, false), Some(2));
    let cpu_only = vec![device(Some("CPUExecutionProvider"), HardwareKind::Cpu)];
    assert_eq!(select_openvino_device(&cpu_only, false), None);
    let providers = vec![
        device(Some("DmlExecutionProvider"), HardwareKind::Gpu),
        device(Some("OpenVINOExecutionProvider"), HardwareKind::Gpu),
    ];
    assert_eq!(select_openvino_device(&providers, false), Some(1));
}

#[test]
fn device_selection_reads_ov_at_word_start() {
    let devices = vec![device(Some("OV"), HardwareKind::Gpu)];
    assert_eq!(select_openvino_device(&devices, false), Some(0));
    let devices = vec![
        device(Some("cover"), HardwareKind::Gpu),
        device(Some("DmlExecutionProvider"), HardwareKind::Gpu),
        device(Some("intel-ov.AUTO"), HardwareKind::Npu),
        device(Some("OVExecutionProvider"), HardwareKind::Gpu),
    ];
    assert_eq!(select_openvino_device(&devices, false), Some(3));
    assert_eq!(select_openvino_device(&devices, true), Some(2));
    let devices = vec![device(Some("Provider"), HardwareKind::Gpu), device(Some("x.ov2"), HardwareKind::Gpu)];
    assert_eq!(select_openvino_device(&devices, false), Some(1));
}

#[test]
fn device_selection_skips_overlong_provider_names() {
    let long = format!("OpenVINO{}", "x".repeat(120));
    assert_eq!(long.len(), 128);
    let devices = vec![device(Some(&long), HardwareKind::Gpu)];
    assert_eq!(select_openvino_device(&devices, false), None);
    let fits = format!("OpenVINO{}", "x".repeat(119));
    let devices = vec![device(Some(&long), HardwareKind::Gpu), device(Some(&fits), HardwareKind::Gpu)];
    assert_eq!(select_openvino_device(&devices, false), Some(1));
}

#[test]
fn device_selection_falls_back_to_auto() {
    let devices = vec![
        device(Some("dml"), HardwareKind::Gpu),
        device(Some("OpenVINO.auto"), HardwareKind::Npu),
        device(Some("OpenVINO.AUTO"), HardwareKind::Gpu),
    ];
    assert_eq!(select_openvino_device(&devices, false), Some(1));
    assert_eq!(select_openvino_device(&devices, true), Some(1));
    let none = vec![device(Some("dml"), HardwareKind::Npu), device(None, HardwareKind::Npu)];
    assert_eq!(select_openvino_device(&none, true), None);
    assert_eq!(select_openvino_device(&Vec::new(), false), None);
}

#[test]
fn openvino_options() {
    assert_eq!(
        openvino_device_options(true),
        vec![("OpenVINOExecutionProvider.device_type".to_string(), "NPU".to_string())]
    );
    assert_eq!(
        openvino_device_options(false),
        vec![("OpenVINOExecutionProvider.device_type".to_string(), "AUTO".to_string())]
    );
}

#[test]
fn fresh_registry_has_no_failure() {
    let registry = PluginRegistry::new();
    assert_eq!(registry.failure_message(), None);
    assert!(!registry.is_attempted());
}
