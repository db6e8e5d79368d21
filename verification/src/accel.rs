//! The accelerator preference and the session rules that follow from it.
use vstd::prelude::*;
use crate::role::SessionRole;

verus! {

/// Hardware acceleration choices for ONNX Runtime sessions.
#[derive(Clone, Copy, Debug, PartialEq, Eq, Structural)]
pub enum OrtAccelerator {
    Auto,
    CpuOnly,
    Cuda,
    TensorRt,
    DirectMl,
    Rocm,
    CoreMl,
    WebGpu,
    Xnnpack,
    OpenVino,
    Npu,
}

/// True when the NPU was asked for.
pub fn npu_requested(accel: OrtAccelerator) -> (r: bool)
    ensures
        r == (accel == OrtAccelerator::Npu),
{
    accel == OrtAccelerator::Npu
}

/// Decoder graphs use ONNX `If` and KV-cache outputs that the NPU path cannot
/// convert, so with the NPU selected a decoder runs on the CPU only.
pub fn decoder_must_use_cpu(accel: OrtAccelerator, role: SessionRole) -> (r: bool)
    ensures
        r == (accel == OrtAccelerator::Npu && role == SessionRole::Decoder),
{
    npu_requested(accel) && role == SessionRole::Decoder
}

/// DirectML and WebGPU need sequential execution without memory patterns.
pub fn requires_sequential_session(accel: OrtAccelerator) -> (r: bool)
    ensures
        r == (accel == OrtAccelerator::DirectMl || accel == OrtAccelerator::WebGpu),
{
    accel == OrtAccelerator::DirectMl || accel == OrtAccelerator::WebGpu
}

/// True when XNNPACK is the selected accelerator.
pub fn is_xnnpack_active(accel: OrtAccelerator) -> (r: bool)
    ensures
        r == (accel == OrtAccelerator::Xnnpack),
{
    accel == OrtAccelerator::Xnnpack
}

} // verus!
