//! The calls into ONNX Runtime (the `ort` crate) and the types they pass.
//! Each wrapper makes one call; what is stated of it is in its contract.
//!
//! The runtime library is loaded dynamically on the first call that needs it;
//! on a machine where it cannot be loaded such a call panics. That depends on
//! the machine, not on any argument, so no `requires` states it.
use vstd::prelude::*;
use std::num::NonZeroUsize;
use std::sync::Arc;
use ort::device::Device;
use ort::environment::Environment;
use ort::ep::{ExecutionProviderDispatch, ExecutionProviderLibrary};
use ort::session::builder::{GraphOptimizationLevel, SessionBuilder};
use ort::session::{ModelMetadata, Session};
use crate::plugin::{ep_name_fits, DeviceInfo};
use crate::providers::ProviderModel;

verus! {

#[verifier::external_type_specification]
#[verifier::external_body]
#[verifier::reject_recursive_types(R)]
pub struct ExOrtError<R>(ort::Error<R>);

#[verifier::external_type_specification]
#[verifier::external_body]
pub struct ExEnvironment(Environment);

#[verifier::external_type_specification]
#[verifier::external_body]
pub struct ExSessionBuilder(SessionBuilder);

#[verifier::external_type_specification]
#[verifier::external_body]
pub struct ExSession(Session);

#[verifier::external_type_specification]
#[verifier::external_body]
pub struct ExModelMetadata<'s>(ModelMetadata<'s>);

#[verifier::external_type_specification]
#[verifier::external_body]
pub struct ExDevice<'e>(Device<'e>);

#[verifier::external_type_specification]
#[verifier::external_body]
pub struct ExExecutionProviderDispatch(ExecutionProviderDispatch);

#[verifier::external_type_specification]
#[verifier::external_body]
pub struct ExExecutionProviderLibrary(ExecutionProviderLibrary);

/// The graph optimization levels sessions are built with.
#[derive(Clone, Copy, Debug, PartialEq, Eq, Structural)]
pub enum OptimizationLevel {
    Level1,
    Level3,
}

/// The kind of hardware a discovered device is.
#[derive(Clone, Copy, Debug, PartialEq, Eq, Structural)]
pub enum HardwareKind {
    Cpu,
    Gpu,
    Npu,
}

/// `ort::Error::new`: an error carrying `msg`. It panics on a message with an
/// interior NUL, which `requires` leaves out.
#[verifier::external_body]
pub(crate) fn new_error(msg: &str) -> ort::Error
    requires
        !msg@.contains('\0'),
{
    ort::Error::new(msg)
}

/// The `Display` text of an `ort::Error`, its message. Every constructor of the
/// error passes its message through a C string, so it holds no NUL.
#[verifier::external_body]
pub(crate) fn error_text(e: &ort::Error) -> (r: String)
    ensures
        !r@.contains('\0'),
{
    e.to_string()
}

/// `Environment::current`: the process's ONNX Runtime environment, created on
/// first use. Nothing is stated of the outcome.
#[verifier::external_body]
pub(crate) fn current_environment() -> Result<Arc<Environment>, ort::Error> {
    Environment::current()
}

/// `Environment::register_ep_library`: loads the provider library at `path`
/// under `name`. Whether it loads depends on the machine; nothing is stated.
#[verifier::external_body]
pub(crate) fn register_ep_library(env: &Arc<Environment>, name: &str, path: &str) -> Result<
    ExecutionProviderLibrary,
    ort::Error,
> {
    env.register_ep_library(name, path)
}

/// `Environment::devices`: the devices the environment discovered, collected.
/// What is discovered depends on the machine; nothing is stated.
#[verifier::external_body]
pub(crate) fn environment_devices<'e>(env: &'e Arc<Environment>) -> Vec<Device<'e>> {
    env.devices().collect()
}

/// `Device::ep`: the name of the provider a device belongs to, `None` where
/// the name is not UTF-8.
#[verifier::external_body]
pub(crate) fn device_ep(device: &Device<'_>) -> Option<String> {
    device.ep().ok().map(|s| s.to_string())
}

/// `Device::ty`: the kind of hardware a device is.
#[verifier::external_body]
pub(crate) fn device_kind(device: &Device<'_>) -> HardwareKind {
    match device.ty() {
        ort::memory::DeviceType::CPU => HardwareKind::Cpu,
        ort::memory::DeviceType::GPU => HardwareKind::Gpu,
        ort::memory::DeviceType::NPU => HardwareKind::Npu,
    }
}

/// A discovered device together with what was read of it when it was
/// described: its provider name and hardware kind. Only `describe_device`
/// makes one, so the description is always the device's own.
pub struct DeviceHandle<'e> {
    device: Device<'e>,
    info: DeviceInfo,
}

impl<'e> DeviceHandle<'e> {
    /// What was read of the device.
    pub closed spec fn info(&self) -> DeviceInfo {
        self.info
    }

    /// The device itself.
    pub closed spec fn device(&self) -> Device<'e> {
        self.device
    }

    /// What was read of the device.
    pub fn info_ref(&self) -> (r: &DeviceInfo)
        ensures
            *r == self.info(),
    {
        &self.info
    }
}

/// Reads a device's provider name and kind and keeps them with it.
pub fn describe_device<'e>(device: Device<'e>) -> (r: DeviceHandle<'e>)
    ensures
        r.device() == device,
{
    let ep = device_ep(&device);
    let kind = device_kind(&device);
    DeviceHandle { device, info: DeviceInfo { ep, kind } }
}

/// Describes each device, in order.
pub fn describe_devices<'e>(devices: Vec<Device<'e>>) -> (r: Vec<DeviceHandle<'e>>)
    ensures
        r@.len() == devices@.len(),
        forall|j: int| 0 <= j < r@.len() ==> (#[trigger] r@[j]).device() == devices@[j],
{
    let ghost all = devices@;
    let mut rest = devices;
    let mut handles: Vec<DeviceHandle<'e>> = Vec::new();
    while rest.len() > 0
        invariant
            handles@.len() + rest@.len() == all.len(),
            rest@ == all.skip(handles@.len() as int),
            forall|j: int| 0 <= j < handles@.len() ==> (#[trigger] handles@[j]).device() == all[j],
        decreases rest@.len(),
    {
        let ghost k = handles@.len() as int;
        let device = rest.remove(0);
        assert(device == all[k]);
        assert(rest@ =~= all.skip(k + 1));
        handles.push(describe_device(device));
    }
    handles
}

/// `SessionBuilder::with_devices`: gives the builder one device, with
/// provider options. The call reads the device's provider name again and
/// panics where it is not UTF-8 or is 128 bytes or longer; `requires` leaves
/// those out through the name read when the device was described. Nothing is
/// stated of the outcome.
#[verifier::external_body]
pub(crate) fn with_device(
    builder: SessionBuilder,
    device: DeviceHandle<'_>,
    options: &Vec<(String, String)>,
) -> Result<SessionBuilder, ort::Error>
    requires
        device.info().ep matches Some(e) && ep_name_fits(e@),
{
    Ok(builder.with_devices(std::iter::once(device.device), Some(options.as_slice()))?)
}

/// `Session::builder`: a fresh session builder.
#[verifier::external_body]
pub(crate) fn session_builder() -> Result<SessionBuilder, ort::Error> {
    Session::builder()
}

/// `SessionBuilder::with_optimization_level`.
#[verifier::external_body]
pub(crate) fn with_optimization_level(builder: SessionBuilder, level: OptimizationLevel) -> Result<
    SessionBuilder,
    ort::Error,
> {
    let level = match level {
        OptimizationLevel::Level1 => GraphOptimizationLevel::Level1,
        OptimizationLevel::Level3 => GraphOptimizationLevel::Level3,
    };
    Ok(builder.with_optimization_level(level)?)
}

/// `SessionBuilder::with_intra_op_spinning`.
#[verifier::external_body]
pub(crate) fn with_intra_op_spinning(builder: SessionBuilder, enable: bool) -> Result<
    SessionBuilder,
    ort::Error,
> {
    Ok(builder.with_intra_op_spinning(enable)?)
}

/// `SessionBuilder::with_intra_threads`.
#[verifier::external_body]
pub(crate) fn with_intra_threads(builder: SessionBuilder, threads: usize) -> Result<
    SessionBuilder,
    ort::Error,
> {
    Ok(builder.with_intra_threads(threads)?)
}

/// `SessionBuilder::with_parallel_execution`.
#[verifier::external_body]
pub(crate) fn with_parallel_execution(builder: SessionBuilder, enable: bool) -> Result<
    SessionBuilder,
    ort::Error,
> {
    Ok(builder.with_parallel_execution(enable)?)
}

/// `SessionBuilder::with_memory_pattern`.
#[verifier::external_body]
pub(crate) fn with_memory_pattern(builder: SessionBuilder, enable: bool) -> Result<
    SessionBuilder,
    ort::Error,
> {
    Ok(builder.with_memory_pattern(enable)?)
}

/// `SessionBuilder::with_execution_providers`, given the dispatches in order.
#[verifier::external_body]
pub(crate) fn with_execution_providers(
    builder: SessionBuilder,
    providers: Vec<ProviderDispatch>,
) -> Result<SessionBuilder, ort::Error> {
    let dispatches: Vec<ExecutionProviderDispatch> = providers.into_iter().map(|p| p.dispatch).collect();
    Ok(builder.with_execution_providers(dispatches)?)
}

/// `SessionBuilder::commit_from_file`: loads the model at `path`. A missing
/// file gives an error whose message holds the path, and making that error
/// panics on a NUL, so `requires` leaves paths with a NUL out. Whether the
/// model loads depends on the file system and the model; nothing is stated.
#[verifier::external_body]
pub(crate) fn commit_from_file(builder: SessionBuilder, path: &str) -> Result<Session, ort::Error>
    requires
        !path@.contains('\0'),
{
    let mut builder = builder;
    builder.commit_from_file(path)
}

/// `Session::metadata`.
#[verifier::external_body]
pub(crate) fn session_metadata<'s>(session: &'s Session) -> Result<ModelMetadata<'s>, ort::Error> {
    session.metadata()
}

/// `ModelMetadata::custom`: the value stored under `key`, if any.
#[verifier::external_body]
pub(crate) fn metadata_custom(metadata: &ModelMetadata<'_>, key: &str) -> Option<String> {
    metadata.custom(key)
}

/// `CPU::default().build()`.
#[verifier::external_body]
pub(crate) fn cpu_provider() -> ExecutionProviderDispatch {
    ort::ep::CPU::default().build()
}

/// `CUDA::default().build()`.
#[verifier::external_body]
pub(crate) fn cuda_provider() -> ExecutionProviderDispatch {
    ort::ep::CUDA::default().build()
}

/// `TensorRT::default().build()`.
#[verifier::external_body]
pub(crate) fn tensorrt_provider() -> ExecutionProviderDispatch {
    ort::ep::TensorRT::default().build()
}

/// `DirectML::default().build()`.
#[verifier::external_body]
pub(crate) fn directml_provider() -> ExecutionProviderDispatch {
    ort::ep::DirectML::default().build()
}

/// `ROCm::default().build()`.
#[verifier::external_body]
pub(crate) fn rocm_provider() -> ExecutionProviderDispatch {
    ort::ep::ROCm::default().build()
}

/// `CoreML::default().build()`.
#[verifier::external_body]
pub(crate) fn coreml_provider() -> ExecutionProviderDispatch {
    ort::ep::CoreML::default().build()
}

/// `WebGPU::default().build()`.
#[verifier::external_body]
pub(crate) fn webgpu_provider() -> ExecutionProviderDispatch {
    ort::ep::WebGPU::default().build()
}

/// `XNNPACK::default().build()`.
#[verifier::external_body]
pub(crate) fn xnnpack_provider() -> ExecutionProviderDispatch {
    ort::ep::XNNPACK::default().build()
}

/// `XNNPACK::with_intra_op_num_threads`, for a positive thread count.
#[verifier::external_body]
pub(crate) fn xnnpack_provider_with_threads(threads: usize) -> ExecutionProviderDispatch
    requires
        threads > 0,
{
    ort::ep::XNNPACK::default().with_intra_op_num_threads(NonZeroUsize::new(threads).unwrap()).build()
}

/// `OpenVINO::default().build()`.
#[verifier::external_body]
pub(crate) fn openvino_provider() -> ExecutionProviderDispatch {
    ort::ep::OpenVINO::default().build()
}

/// `OpenVINO::with_device_type`.
#[verifier::external_body]
pub(crate) fn openvino_provider_with_device(device_type: &str) -> ExecutionProviderDispatch {
    ort::ep::OpenVINO::default().with_device_type(device_type).build()
}

/// An ONNX Runtime provider dispatch together with the spec it was built
/// from. Only `provider_dispatch` makes one.
pub struct ProviderDispatch {
    dispatch: ExecutionProviderDispatch,
    model: Ghost<ProviderModel>,
}

impl ProviderDispatch {
    /// The provider spec this dispatch was built from.
    pub closed spec fn model(&self) -> ProviderModel {
        self.model@
    }
}

/// The specs the dispatches were built from, in order.
pub open spec fn dispatch_models(v: Seq<ProviderDispatch>) -> Seq<ProviderModel> {
    v.map_values(|d: ProviderDispatch| d.model())
}

/// The CPU provider, recorded as such.
pub fn cpu_dispatch() -> (r: ProviderDispatch)
    ensures
        r.model() == ProviderModel::Cpu,
{
    ProviderDispatch { dispatch: cpu_provider(), model: Ghost(ProviderModel::Cpu) }
}

/// The CUDA provider, recorded as such.
pub fn cuda_dispatch() -> (r: ProviderDispatch)
    ensures
        r.model() == ProviderModel::Cuda,
{
    ProviderDispatch { dispatch: cuda_provider(), model: Ghost(ProviderModel::Cuda) }
}

/// The TensorRT provider, recorded as such.
pub fn tensorrt_dispatch() -> (r: ProviderDispatch)
    ensures
        r.model() == ProviderModel::TensorRt,
{
    ProviderDispatch { dispatch: tensorrt_provider(), model: Ghost(ProviderModel::TensorRt) }
}

/// The DirectML provider, recorded as such.
pub fn directml_dispatch() -> (r: ProviderDispatch)
    ensures
        r.model() == ProviderModel::DirectMl,
{
    ProviderDispatch { dispatch: directml_provider(), model: Ghost(ProviderModel::DirectMl) }
}

/// The ROCm provider, recorded as such.
pub fn rocm_dispatch() -> (r: ProviderDispatch)
    ensures
        r.model() == ProviderModel::Rocm,
{
    ProviderDispatch { dispatch: rocm_provider(), model: Ghost(ProviderModel::Rocm) }
}

/// The CoreML provider, recorded as such.
pub fn coreml_dispatch() -> (r: ProviderDispatch)
    ensures
        r.model() == ProviderModel::CoreMl,
{
    ProviderDispatch { dispatch: coreml_provider(), model: Ghost(ProviderModel::CoreMl) }
}

/// The WebGPU provider, recorded as such.
pub fn webgpu_dispatch() -> (r: ProviderDispatch)
    ensures
        r.model() == ProviderModel::WebGpu,
{
    ProviderDispatch { dispatch: webgpu_provider(), model: Ghost(ProviderModel::WebGpu) }
}

/// The XNNPACK provider with its default threads, recorded as such.
pub fn xnnpack_dispatch() -> (r: ProviderDispatch)
    ensures
        r.model() == (ProviderModel::Xnnpack { intra_threads: None }),
{
    ProviderDispatch {
        dispatch: xnnpack_provider(),
        model: Ghost(ProviderModel::Xnnpack { intra_threads: None }),
    }
}

/// The XNNPACK provider with `threads` intra-op threads, recorded as such.
pub fn xnnpack_dispatch_with_threads(threads: usize) -> (r: ProviderDispatch)
    requires
        threads > 0,
    ensures
        r.model() == (ProviderModel::Xnnpack { intra_threads: Some(threads) }),
{
    ProviderDispatch {
        dispatch: xnnpack_provider_with_threads(threads),
        model: Ghost(ProviderModel::Xnnpack { intra_threads: Some(threads) }),
    }
}

/// The OpenVINO provider with its default device, recorded as such.
pub fn openvino_dispatch() -> (r: ProviderDispatch)
    ensures
        r.model() == (ProviderModel::OpenVino { device_type: None }),
{
    ProviderDispatch {
        dispatch: openvino_provider(),
        model: Ghost(ProviderModel::OpenVino { device_type: None }),
    }
}

/// The OpenVINO provider on device type `device_type`, recorded as such.
pub fn openvino_dispatch_with_device(device_type: &str) -> (r: ProviderDispatch)
    ensures
        r.model() == (ProviderModel::OpenVino { device_type: Some(device_type@) }),
{
    ProviderDispatch {
        dispatch: openvino_provider_with_device(device_type),
        model: Ghost(ProviderModel::OpenVino { device_type: Some(device_type@) }),
    }
}

} // verus!
