//! Building ONNX Runtime sessions: the configuration each accelerator and
//! model role calls for, and the order in which the OpenVINO plugin, the
//! classic provider list and the CPU-only path are tried.
use vstd::prelude::*;
use ort::session::builder::SessionBuilder;
use ort::session::Session;
use crate::paths::{after_last_slash, simple_final_component};
use crate::plugin::{
    apply_devices, ep_name_fits, openvino_candidate, openvino_options_view, option_views, DeviceInfo,
    PluginRegistry,
};
use crate::role::{decoder_marker, spec_role_for_name};
use crate::text::{ascii_lower, contains_seq};
use crate::accel::{
    decoder_must_use_cpu, is_xnnpack_active, npu_requested, requires_sequential_session,
    OrtAccelerator,
};
use crate::ortcalls::{self, dispatch_models, DeviceHandle, OptimizationLevel, ProviderDispatch};
use crate::providers::{execution_providers, provider_plan, OrtSettings, ProviderModel};
use crate::role::{infer_role, SessionRole};
use crate::text::lemma_concat_lacks;

verus! {

/// How a session is configured before its model is loaded.
#[derive(Clone, Copy, Debug, PartialEq, Eq, Structural)]
pub struct SessionPlan {
    /// The model's role, already inferred.
    pub role: SessionRole,
    /// Load on the CPU provider alone, with full optimization.
    pub cpu_only: bool,
    pub optimization: OptimizationLevel,
    /// Intra-op spinning to set, if any.
    pub intra_op_spinning: Option<bool>,
    /// Intra-op thread count to set, if any.
    pub intra_threads: Option<usize>,
    pub parallel_execution: bool,
    /// Memory pattern setting to apply, if any.
    pub memory_pattern: Option<bool>,
    /// Try the OpenVINO plugin's device selection first.
    pub use_plugin: bool,
    /// The NPU is required of the plugin.
    pub prefer_npu: bool,
}

/// A requested thread count counts only when positive.
pub open spec fn positive_threads(t: Option<usize>) -> Option<usize> {
    match t {
        Some(n) => if n > 0 {
            Some(n)
        } else {
            None
        },
        None => None,
    }
}

/// The configuration for a model of role `role` under accelerator `accel`:
/// a decoder with the NPU selected goes CPU-only with full optimization;
/// otherwise basic optimization, XNNPACK without spinning on one intra-op
/// thread, DirectML and WebGPU sequential without memory patterns, and the
/// plugin for OpenVINO and NPU when OpenVINO is built in.
pub open spec fn spec_session_plan(
    accel: OrtAccelerator,
    openvino_enabled: bool,
    role: SessionRole,
    intra_threads: Option<usize>,
    parallel_execution: bool,
) -> SessionPlan {
    let prefer_npu = accel == OrtAccelerator::Npu;
    if accel == OrtAccelerator::Npu && role == SessionRole::Decoder {
        SessionPlan {
            role,
            cpu_only: true,
            optimization: OptimizationLevel::Level3,
            intra_op_spinning: None,
            intra_threads: positive_threads(intra_threads),
            parallel_execution,
            memory_pattern: None,
            use_plugin: false,
            prefer_npu,
        }
    } else {
        let xnnpack = accel == OrtAccelerator::Xnnpack;
        let sequential = accel == OrtAccelerator::DirectMl || accel == OrtAccelerator::WebGpu;
        SessionPlan {
            role,
            cpu_only: false,
            optimization: OptimizationLevel::Level1,
            intra_op_spinning: if xnnpack {
                Some(false)
            } else {
                None
            },
            intra_threads: if xnnpack {
                Some(1)
            } else {
                positive_threads(intra_threads)
            },
            parallel_execution: !sequential && parallel_execution,
            memory_pattern: if sequential {
                Some(false)
            } else {
                None
            },
            use_plugin: openvino_enabled && (accel == OrtAccelerator::Npu || accel
                == OrtAccelerator::OpenVino),
            prefer_npu,
        }
    }
}

/// The configuration for a model of (inferred) role `role` under `accel`.
pub fn plan_session(
    accel: OrtAccelerator,
    openvino_enabled: bool,
    role: SessionRole,
    intra_threads: Option<usize>,
    parallel_execution: bool,
) -> (r: SessionPlan)
    ensures
        r == spec_session_plan(accel, openvino_enabled, role, intra_threads, parallel_execution),
        accel != OrtAccelerator::Xnnpack ==> r.intra_threads == match intra_threads {
            Some(n) => if n > 0 {
                Some(n)
            } else {
                None
            },
            None => None,
        },
{
    let threads = match intra_threads {
        Some(n) => if n > 0 {
            Some(n)
        } else {
            None
        },
        None => None,
    };
    let prefer_npu = npu_requested(accel);
    if decoder_must_use_cpu(accel, role) {
        return SessionPlan {
            role,
            cpu_only: true,
            optimization: OptimizationLevel::Level3,
            intra_op_spinning: None,
            intra_threads: threads,
            parallel_execution,
            memory_pattern: None,
            use_plugin: false,
            prefer_npu,
        };
    }
    let xnnpack = is_xnnpack_active(accel);
    let sequential = requires_sequential_session(accel);
    SessionPlan {
        role,
        cpu_only: false,
        optimization: OptimizationLevel::Level1,
        intra_op_spinning: if xnnpack {
            Some(false)
        } else {
            None
        },
        intra_threads: if xnnpack {
            Some(1)
        } else {
            threads
        },
        parallel_execution: if sequential {
            false
        } else {
            parallel_execution
        },
        memory_pattern: if sequential {
            Some(false)
        } else {
            None
        },
        use_plugin: openvino_enabled && (accel == OrtAccelerator::Npu || accel
            == OrtAccelerator::OpenVino),
        prefer_npu,
    }
}

/// What the OpenVINO plugin's device selection came to.
#[derive(Clone, Copy, Debug, PartialEq, Eq, Structural)]
pub enum PluginOutcome {
    /// A device was given to the builder.
    Applied,
    /// No suitable device was discovered.
    NoDevice,
    /// Device selection failed with an error.
    Failed,
}

/// What session creation does next after the plugin's device selection.
#[derive(Clone, Copy, Debug, PartialEq, Eq, Structural)]
pub enum PluginAction {
    /// Load the model with the selected device.
    Commit,
    /// Fail: the NPU is required and none was discovered.
    NpuMissing,
    /// Load with the classic provider list on the same builder.
    ClassicProviders,
    /// Fail: the NPU is required and selection failed.
    NpuSelectionFailed,
    /// Start a fresh builder and load with the classic provider list.
    RebuildClassic,
}

/// The step after device selection: a selected device is used; without one
/// or on failure, a required NPU makes it an error, and otherwise the classic
/// provider list is used (on a fresh builder after a failure).
pub open spec fn spec_plugin_action(accel: OrtAccelerator, outcome: PluginOutcome) -> PluginAction {
    match outcome {
        PluginOutcome::Applied => PluginAction::Commit,
        PluginOutcome::NoDevice => if accel == OrtAccelerator::Npu {
            PluginAction::NpuMissing
        } else {
            PluginAction::ClassicProviders
        },
        PluginOutcome::Failed => if accel == OrtAccelerator::Npu {
            PluginAction::NpuSelectionFailed
        } else {
            PluginAction::RebuildClassic
        },
    }
}

/// The step after the plugin's device selection came to `outcome`.
pub fn plugin_action(accel: OrtAccelerator, outcome: PluginOutcome) -> (r: PluginAction)
    ensures
        r == spec_plugin_action(accel, outcome),
{
    match outcome {
        PluginOutcome::Applied => PluginAction::Commit,
        PluginOutcome::NoDevice => if npu_requested(accel) {
            PluginAction::NpuMissing
        } else {
            PluginAction::ClassicProviders
        },
        PluginOutcome::Failed => if npu_requested(accel) {
            PluginAction::NpuSelectionFailed
        } else {
            PluginAction::RebuildClassic
        },
    }
}

/// The settings a session builder has been given, each `None` until set.
pub struct BuilderConfig {
    pub optimization: Option<OptimizationLevel>,
    pub intra_op_spinning: Option<bool>,
    pub intra_threads: Option<usize>,
    pub parallel_execution: Option<bool>,
    pub memory_pattern: Option<bool>,
    /// The execution providers given, in order.
    pub providers: Option<Seq<ProviderModel>>,
    /// The discovered device given, as it was read.
    pub device: Option<DeviceInfo>,
    /// The provider options given with the device.
    pub device_options: Option<Seq<(Seq<char>, Seq<char>)>>,
}

/// A builder with nothing set.
pub open spec fn fresh_config() -> BuilderConfig {
    BuilderConfig {
        optimization: None,
        intra_op_spinning: None,
        intra_threads: None,
        parallel_execution: None,
        memory_pattern: None,
        providers: None,
        device: None,
        device_options: None,
    }
}

/// An ONNX Runtime session builder with the settings it has been given.
/// Only the methods below make or change one, each recording its setting.
pub struct ModelBuilder {
    builder: SessionBuilder,
    config: Ghost<BuilderConfig>,
}

/// A loaded session with the settings it was built with and its model path.
pub struct ModelSession {
    session: Session,
    config: Ghost<BuilderConfig>,
    path: Ghost<Seq<char>>,
}

impl ModelSession {
    /// The settings the session was built with.
    pub closed spec fn config(&self) -> BuilderConfig {
        self.config@
    }

    /// The path of the model it loaded.
    pub closed spec fn path(&self) -> Seq<char> {
        self.path@
    }

    /// The ONNX Runtime session.
    pub fn session(&self) -> &Session {
        &self.session
    }

    /// The ONNX Runtime session, taken out.
    pub fn into_session(self) -> Session {
        self.session
    }
}

impl ModelBuilder {
    /// The settings given so far.
    pub closed spec fn config(&self) -> BuilderConfig {
        self.config@
    }

    /// A fresh builder, with nothing set.
    pub fn new() -> (r: Result<ModelBuilder, ort::Error>)
        ensures
            r matches Ok(b) ==> b.config() == fresh_config(),
    {
        let builder = ortcalls::session_builder()?;
        Ok(ModelBuilder { builder, config: Ghost(fresh_config()) })
    }

    /// Sets the graph optimization level.
    pub fn with_optimization_level(self, level: OptimizationLevel) -> (r: Result<ModelBuilder, ort::Error>)
        ensures
            r matches Ok(b) ==> b.config() == (BuilderConfig { optimization: Some(level), ..self.config() }),
    {
        let builder = ortcalls::with_optimization_level(self.builder, level)?;
        Ok(ModelBuilder {
            builder,
            config: Ghost(BuilderConfig { optimization: Some(level), ..self.config@ }),
        })
    }

    /// Sets intra-op spinning.
    pub fn with_intra_op_spinning(self, enable: bool) -> (r: Result<ModelBuilder, ort::Error>)
        ensures
            r matches Ok(b) ==> b.config() == (BuilderConfig { intra_op_spinning: Some(enable), ..self.config() }),
    {
        let builder = ortcalls::with_intra_op_spinning(self.builder, enable)?;
        Ok(ModelBuilder {
            builder,
            config: Ghost(BuilderConfig { intra_op_spinning: Some(enable), ..self.config@ }),
        })
    }

    /// Sets the intra-op thread count.
    pub fn with_intra_threads(self, threads: usize) -> (r: Result<ModelBuilder, ort::Error>)
        ensures
            r matches Ok(b) ==> b.config() == (BuilderConfig { intra_threads: Some(threads), ..self.config() }),
    {
        let builder = ortcalls::with_intra_threads(self.builder, threads)?;
        Ok(ModelBuilder {
            builder,
            config: Ghost(BuilderConfig { intra_threads: Some(threads), ..self.config@ }),
        })
    }

    /// Sets parallel execution.
    pub fn with_parallel_execution(self, enable: bool) -> (r: Result<ModelBuilder, ort::Error>)
        ensures
            r matches Ok(b) ==> b.config() == (BuilderConfig { parallel_execution: Some(enable), ..self.config() }),
    {
        let builder = ortcalls::with_parallel_execution(self.builder, enable)?;
        Ok(ModelBuilder {
            builder,
            config: Ghost(BuilderConfig { parallel_execution: Some(enable), ..self.config@ }),
        })
    }

    /// Sets the memory pattern optimization.
    pub fn with_memory_pattern(self, enable: bool) -> (r: Result<ModelBuilder, ort::Error>)
        ensures
            r matches Ok(b) ==> b.config() == (BuilderConfig { memory_pattern: Some(enable), ..self.config() }),
    {
        let builder = ortcalls::with_memory_pattern(self.builder, enable)?;
        Ok(ModelBuilder {
            builder,
            config: Ghost(BuilderConfig { memory_pattern: Some(enable), ..self.config@ }),
        })
    }

    /// Sets the execution providers, in order.
    pub fn with_execution_providers(self, providers: Vec<ProviderDispatch>) -> (r: Result<ModelBuilder, ort::Error>)
        ensures
            r matches Ok(b) ==> b.config() == (BuilderConfig {
                providers: Some(dispatch_models(providers@)),
                ..self.config()
            }),
    {
        let ghost models = dispatch_models(providers@);
        let builder = ortcalls::with_execution_providers(self.builder, providers)?;
        Ok(ModelBuilder { builder, config: Ghost(BuilderConfig { providers: Some(models), ..self.config@ }) })
    }

    /// Gives the builder one discovered device with provider options. The
    /// device's provider name, as read when it was described, must be
    /// readable and shorter than 128 bytes in UTF-8.
    pub fn with_device(self, device: DeviceHandle<'_>, options: &Vec<(String, String)>) -> (r: Result<
        ModelBuilder,
        ort::Error,
    >)
        requires
            device.info().ep matches Some(e) && ep_name_fits(e@),
        ensures
            r matches Ok(b) ==> b.config() == (BuilderConfig {
                device: Some(device.info()),
                device_options: Some(option_views(options@)),
                ..self.config()
            }),
    {
        let ghost info = device.info();
        let builder = ortcalls::with_device(self.builder, device, options)?;
        Ok(ModelBuilder {
            builder,
            config: Ghost(BuilderConfig {
                device: Some(info),
                device_options: Some(option_views(options@)),
                ..self.config@
            }),
        })
    }

    /// Loads the model at `path`; the session keeps the builder's settings.
    pub fn commit_from_file(self, path: &str) -> (r: Result<ModelSession, ort::Error>)
        requires
            !path@.contains('\0'),
        ensures
            r matches Ok(s) ==> s.config() == self.config() && s.path() == path@,
    {
        let session = ortcalls::commit_from_file(self.builder, path)?;
        Ok(ModelSession { session, config: self.config, path: Ghost(path@) })
    }
}

/// The settings a plan gives a builder before providers or a device.
pub open spec fn planned_config(plan: SessionPlan) -> BuilderConfig {
    BuilderConfig {
        optimization: Some(plan.optimization),
        intra_op_spinning: plan.intra_op_spinning,
        intra_threads: plan.intra_threads,
        parallel_execution: Some(plan.parallel_execution),
        memory_pattern: plan.memory_pattern,
        ..fresh_config()
    }
}

/// The settings of the CPU-only path: full optimization, the thread count
/// when positive, the parallel setting, and the CPU provider alone.
pub open spec fn cpu_only_config(intra_threads: Option<usize>, parallel_execution: bool) -> BuilderConfig {
    BuilderConfig {
        optimization: Some(OptimizationLevel::Level3),
        intra_threads: positive_threads(intra_threads),
        parallel_execution: Some(parallel_execution),
        providers: Some(seq![ProviderModel::Cpu]),
        ..fresh_config()
    }
}

/// The classic provider list under `settings`, CPU fallback included.
pub open spec fn classic_providers(settings: OrtSettings) -> Seq<ProviderModel> {
    provider_plan(
        settings.accelerator,
        settings.features,
        true,
        settings.available_threads,
        match settings.openvino_device_env {
            Some(v) => Some(v@),
            None => None,
        },
    )
}

/// A session built under `plan` carries: on the CPU-only path, the CPU-only
/// settings; after the plugin gave a device, the planned settings with that
/// OpenVINO device and its options; otherwise (never when the NPU is required
/// of the plugin) the planned settings with the classic provider list.
pub open spec fn built_as(config: BuilderConfig, plan: SessionPlan, settings: OrtSettings) -> bool {
    if plan.cpu_only {
        config == (BuilderConfig { providers: Some(seq![ProviderModel::Cpu]), ..planned_config(plan) })
    } else if plan.use_plugin && config.device is Some {
        &&& openvino_candidate(config.device->Some_0, plan.prefer_npu)
        &&& config == (BuilderConfig {
            device: config.device,
            device_options: Some(openvino_options_view(plan.prefer_npu)),
            ..planned_config(plan)
        })
    } else {
        &&& !(plan.use_plugin && plan.prefer_npu)
        &&& config == (BuilderConfig { providers: Some(classic_providers(settings)), ..planned_config(plan) })
    }
}

/// What `infer_role` states of the role for `path` when `explicit` was asked.
pub open spec fn inferred_role(path: Seq<char>, explicit: SessionRole, role: SessionRole) -> bool {
    &&& role != SessionRole::Default
    &&& explicit != SessionRole::Default ==> role == explicit
    &&& explicit == SessionRole::Default && !contains_seq(ascii_lower(path), decoder_marker())
        ==> role == SessionRole::Encoder
    &&& simple_final_component(path) ==> role == spec_role_for_name(Some(after_last_slash(path)), explicit)
}

/// A fresh builder configured as `plan` says, before providers are added.
fn configured_builder(plan: &SessionPlan) -> (r: Result<ModelBuilder, ort::Error>)
    ensures
        r matches Ok(b) ==> b.config() == planned_config(*plan),
{
    let mut builder = ModelBuilder::new()?;
    builder = builder.with_optimization_level(plan.optimization)?;
    if let Some(spin) = plan.intra_op_spinning {
        builder = builder.with_intra_op_spinning(spin)?;
    }
    if let Some(n) = plan.intra_threads {
        builder = builder.with_intra_threads(n)?;
    }
    builder = builder.with_parallel_execution(plan.parallel_execution)?;
    if let Some(pattern) = plan.memory_pattern {
        builder = builder.with_memory_pattern(pattern)?;
    }
    Ok(builder)
}

/// Loads the model at `path` with the classic provider list under `settings`,
/// CPU fallback included.
fn commit_with_providers(builder: ModelBuilder, path: &str, settings: &OrtSettings) -> (r: Result<
    ModelSession,
    ort::Error,
>)
    requires
        !path@.contains('\0'),
    ensures
        r matches Ok(s) ==> s.path() == path@ && s.config() == (BuilderConfig {
            providers: Some(classic_providers(*settings)),
            ..builder.config()
        }),
{
    let providers = execution_providers(settings, true);
    let builder = builder.with_execution_providers(providers)?;
    builder.commit_from_file(path)
}

/// Loads the model at `path` on the CPU provider alone, with full graph
/// optimization, the given intra-op thread count when positive, and the given
/// parallel-execution setting.
pub fn build_cpu_only_session(path: &str, intra_threads: Option<usize>, parallel_execution: bool) -> (r: Result<
    ModelSession,
    ort::Error,
>)
    requires
        !path@.contains('\0'),
    ensures
        r matches Ok(s) ==> s.path() == path@ && s.config() == cpu_only_config(
            intra_threads,
            parallel_execution,
        ),
{
    let mut builder = ModelBuilder::new()?;
    builder = builder.with_optimization_level(OptimizationLevel::Level3)?;
    if let Some(n) = intra_threads {
        if n > 0 {
            builder = builder.with_intra_threads(n)?;
        }
    }
    builder = builder.with_parallel_execution(parallel_execution)?;
    let cpu = ortcalls::cpu_dispatch();
    let providers = vec![cpu];
    assert(dispatch_models(providers@) =~= seq![ProviderModel::Cpu]);
    builder = builder.with_execution_providers(providers)?;
    builder.commit_from_file(path)
}

/// The message when the NPU is required and the plugin gave no device.
pub open spec fn npu_missing_message() -> Seq<char> {
    "NPU required but no OpenVINO NPU device was discovered after plugin registration"@
}

/// The start of the message when the NPU is required and the plugin's device
/// selection failed; the failure's own text follows.
pub open spec fn npu_selection_failed_prefix() -> Seq<char> {
    "NPU required; OpenVINO plugin device selection failed: "@
}

/// The error message of a step that fails because the NPU is required:
/// `npu_missing_message` for `NpuMissing`, and `npu_selection_failed_prefix`
/// followed by `detail` for `NpuSelectionFailed`. Neither holds a NUL.
pub fn npu_failure_message(action: PluginAction, detail: &str) -> (r: String)
    requires
        action == PluginAction::NpuMissing || action == PluginAction::NpuSelectionFailed,
    ensures
        action == PluginAction::NpuMissing ==> r@ == npu_missing_message(),
        action == PluginAction::NpuSelectionFailed ==> r@ == npu_selection_failed_prefix() + detail@,
        action == PluginAction::NpuMissing || !detail@.contains('\0') ==> !r@.contains('\0'),
{
    proof {
        reveal_strlit("NPU required but no OpenVINO NPU device was discovered after plugin registration");
        reveal_strlit("NPU required; OpenVINO plugin device selection failed: ");
        assert(!npu_missing_message().contains('\0'));
        assert(!npu_selection_failed_prefix().contains('\0'));
        if !detail@.contains('\0') {
            lemma_concat_lacks(npu_selection_failed_prefix(), detail@, '\0');
        }
    }
    match action {
        PluginAction::NpuMissing => {
            "NPU required but no OpenVINO NPU device was discovered after plugin registration".to_owned()
        },
        _ => "NPU required; OpenVINO plugin device selection failed: ".to_owned().concat(detail),
    }
}

/// Builds the session for the model at `path`, configured by `plan_session`
/// for the role `infer_role` gives and the accelerator in `settings`. When the
/// plan uses the OpenVINO plugin, `registry` registers it first (once, from
/// `candidates` and their presence), its device selection comes next and
/// `plugin_action` decides the rest. A session it returns carries the
/// settings `built_as` gives for the plan of some role `infer_role` allows;
/// whether the runtime loads the model is up to it.
pub fn build_session(
    path: &str,
    intra_threads: Option<usize>,
    parallel_execution: bool,
    role: SessionRole,
    settings: &OrtSettings,
    registry: &mut PluginRegistry,
    candidates: &Vec<String>,
    present: &Vec<bool>,
) -> (r: Result<ModelSession, ort::Error>)
    requires
        !path@.contains('\0'),
        !old(registry).attempted() ==> candidates@.len() == present@.len(),
    ensures
        old(registry).attempted() ==> *final(registry) == *old(registry),
        *final(registry) != *old(registry) ==> exists|inferred: SessionRole|
            inferred_role(path@, role, inferred) && spec_session_plan(
                settings.accelerator,
                settings.features.openvino,
                inferred,
                intra_threads,
                parallel_execution,
            ).use_plugin,
        r matches Ok(s) ==> s.path() == path@ && exists|inferred: SessionRole|
            inferred_role(path@, role, inferred) && built_as(
                s.config(),
                spec_session_plan(
                    settings.accelerator,
                    settings.features.openvino,
                    inferred,
                    intra_threads,
                    parallel_execution,
                ),
                *settings,
            ),
        session_with_registry(
            r,
            path@,
            role,
            intra_threads,
            parallel_execution,
            *settings,
            *old(registry),
            *final(registry),
        ),
{
    let accel = settings.accelerator;
    let inferred = infer_role(path, role);
    let plan = plan_session(accel, settings.features.openvino, inferred, intra_threads, parallel_execution);
    assert(inferred_role(path@, role, inferred));
    if plan.cpu_only {
        return build_cpu_only_session(path, intra_threads, parallel_execution);
    }
    let builder = configured_builder(&plan)?;
    if !plan.use_plugin {
        return commit_with_providers(builder, path, settings);
    }
    registry.ensure_registered(candidates, present);
    match apply_devices(builder, plan.prefer_npu, registry, candidates, present) {
        Ok((builder, applied)) => {
            let outcome = if applied {
                PluginOutcome::Applied
            } else {
                PluginOutcome::NoDevice
            };
            match plugin_action(accel, outcome) {
                PluginAction::Commit => builder.commit_from_file(path),
                PluginAction::NpuMissing => {
                    let msg = npu_failure_message(PluginAction::NpuMissing, "");
                    Err(ortcalls::new_error(msg.as_str()))
                },
                _ => commit_with_providers(builder, path, settings),
            }
        },
        Err(e) => match plugin_action(accel, PluginOutcome::Failed) {
            PluginAction::NpuSelectionFailed => {
                let text = ortcalls::error_text(&e);
                let msg = npu_failure_message(PluginAction::NpuSelectionFailed, text.as_str());
                Err(ortcalls::new_error(msg.as_str()))
            },
            _ => {
                let builder = configured_builder(&plan)?;
                commit_with_providers(builder, path, settings)
            },
        },
    }
}

/// What becomes of the plugin registry under `plan` when building gave
/// `built`: a plan that uses the plugin has its registration attempted (by
/// then or before), unless building failed before the plugin was reached, in
/// which case the registry is as it was; any other plan leaves the registry as
/// it was.
pub open spec fn registry_after(
    plan: SessionPlan,
    built: bool,
    before: PluginRegistry,
    after: PluginRegistry,
) -> bool {
    &&& plan.use_plugin ==> after.attempted() || (!built && after == before)
    &&& plan.use_plugin && built ==> after.attempted()
    &&& !plan.use_plugin ==> after == before
}

/// The outcome of building the session for `path`, together with the
/// registry before and after: for one role `infer_role` allows, the registry
/// went as `registry_after` says for that role's plan, and a session carries
/// the settings `built_as` gives for it.
pub open spec fn session_with_registry(
    r: Result<ModelSession, ort::Error>,
    path: Seq<char>,
    role: SessionRole,
    intra_threads: Option<usize>,
    parallel_execution: bool,
    settings: OrtSettings,
    before: PluginRegistry,
    after: PluginRegistry,
) -> bool {
    exists|inferred: SessionRole|
        #[trigger] inferred_role(path, role, inferred) && ({
            let plan = spec_session_plan(
                settings.accelerator,
                settings.features.openvino,
                inferred,
                intra_threads,
                parallel_execution,
            );
            &&& registry_after(plan, r is Ok, before, after)
            &&& r matches Ok(s) ==> s.path() == path && built_as(s.config(), plan, settings)
        })
}

/// The outcome `build_session` states, for the constructors below.
pub open spec fn session_built(
    r: Result<ModelSession, ort::Error>,
    path: Seq<char>,
    intra_threads: Option<usize>,
    role: SessionRole,
    settings: OrtSettings,
) -> bool {
    r matches Ok(s) ==> s.path() == path && exists|inferred: SessionRole|
        inferred_role(path, role, inferred) && built_as(
            s.config(),
            spec_session_plan(
                settings.accelerator,
                settings.features.openvino,
                inferred,
                intra_threads,
                true,
            ),
            settings,
        )
}

/// A session for the model at `path`, its role inferred from the file name.
pub fn create_session(
    path: &str,
    settings: &OrtSettings,
    registry: &mut PluginRegistry,
    candidates: &Vec<String>,
    present: &Vec<bool>,
) -> (r: Result<ModelSession, ort::Error>)
    requires
        !path@.contains('\0'),
        !old(registry).attempted() ==> candidates@.len() == present@.len(),
    ensures
        old(registry).attempted() ==> *final(registry) == *old(registry),
        session_built(r, path@, None, SessionRole::Default, *settings),
        session_with_registry(r, path@, SessionRole::Default, None, true, *settings, *old(registry), *final(registry)),
{
    build_session(path, None, true, SessionRole::Default, settings, registry, candidates, present)
}

/// A session for an encoder model.
pub fn create_session_encoder(
    path: &str,
    settings: &OrtSettings,
    registry: &mut PluginRegistry,
    candidates: &Vec<String>,
    present: &Vec<bool>,
) -> (r: Result<ModelSession, ort::Error>)
    requires
        !path@.contains('\0'),
        !old(registry).attempted() ==> candidates@.len() == present@.len(),
    ensures
        old(registry).attempted() ==> *final(registry) == *old(registry),
        session_built(r, path@, None, SessionRole::Encoder, *settings),
        session_with_registry(r, path@, SessionRole::Encoder, None, true, *settings, *old(registry), *final(registry)),
{
    build_session(path, None, true, SessionRole::Encoder, settings, registry, candidates, present)
}

/// A session for a decoder model.
pub fn create_session_decoder(
    path: &str,
    settings: &OrtSettings,
    registry: &mut PluginRegistry,
    candidates: &Vec<String>,
    present: &Vec<bool>,
) -> (r: Result<ModelSession, ort::Error>)
    requires
        !path@.contains('\0'),
        !old(registry).attempted() ==> candidates@.len() == present@.len(),
    ensures
        old(registry).attempted() ==> *final(registry) == *old(registry),
        session_built(r, path@, None, SessionRole::Decoder, *settings),
        session_with_registry(r, path@, SessionRole::Decoder, None, true, *settings, *old(registry), *final(registry)),
{
    build_session(path, None, true, SessionRole::Decoder, settings, registry, candidates, present)
}

/// A session for the model at `path` with `num_threads` intra-op threads
/// (none set when zero), its role inferred from the file name.
pub fn create_session_with_threads(
    path: &str,
    num_threads: usize,
    settings: &OrtSettings,
    registry: &mut PluginRegistry,
    candidates: &Vec<String>,
    present: &Vec<bool>,
) -> (r: Result<ModelSession, ort::Error>)
    requires
        !path@.contains('\0'),
        !old(registry).attempted() ==> candidates@.len() == present@.len(),
    ensures
        old(registry).attempted() ==> *final(registry) == *old(registry),
        session_built(r, path@, Some(num_threads), SessionRole::Default, *settings),
        session_with_registry(r, path@, SessionRole::Default, Some(num_threads), true, *settings, *old(registry), *final(registry)),
{
    build_session(path, Some(num_threads), true, SessionRole::Default, settings, registry, candidates, present)
}

/// A session goes CPU-only exactly when the NPU is selected and the model
/// is a decoder.
pub proof fn law_cpu_only_exactly_for_npu_decoder(
    accel: OrtAccelerator,
    openvino_enabled: bool,
    role: SessionRole,
    intra_threads: Option<usize>,
    parallel_execution: bool,
)
    ensures
        spec_session_plan(accel, openvino_enabled, role, intra_threads, parallel_execution).cpu_only
            <==> (accel == OrtAccelerator::Npu && role == SessionRole::Decoder),
{
}

/// DirectML and WebGPU sessions run sequentially with memory patterns off.
pub proof fn law_sequential_accelerators(
    accel: OrtAccelerator,
    openvino_enabled: bool,
    role: SessionRole,
    intra_threads: Option<usize>,
    parallel_execution: bool,
)
    requires
        accel == OrtAccelerator::DirectMl || accel == OrtAccelerator::WebGpu,
    ensures
        ({
            let plan = spec_session_plan(accel, openvino_enabled, role, intra_threads, parallel_execution);
            !plan.parallel_execution && plan.memory_pattern == Some(false)
        }),
{
}

/// The other settings of a plan: the CPU-only path uses full optimization and
/// the requested parallel setting, every other path basic optimization; the
/// requested parallel setting holds except for DirectML and WebGPU; memory
/// patterns are touched only for those two and spinning only for XNNPACK;
/// the plugin is used exactly for OpenVINO or the NPU with OpenVINO built in,
/// off the CPU-only path; the NPU is preferred exactly when it is selected.
pub proof fn law_session_plan_settings(
    accel: OrtAccelerator,
    openvino_enabled: bool,
    role: SessionRole,
    intra_threads: Option<usize>,
    parallel_execution: bool,
)
    ensures
        ({
            let plan = spec_session_plan(accel, openvino_enabled, role, intra_threads, parallel_execution);
            let sequential = accel == OrtAccelerator::DirectMl || accel == OrtAccelerator::WebGpu;
            &&& plan.role == role
            &&& plan.prefer_npu == (accel == OrtAccelerator::Npu)
            &&& plan.cpu_only ==> plan.optimization == OptimizationLevel::Level3
            &&& !plan.cpu_only ==> plan.optimization == OptimizationLevel::Level1
            &&& plan.parallel_execution == (parallel_execution && !sequential)
            &&& !sequential ==> plan.memory_pattern is None
            &&& accel != OrtAccelerator::Xnnpack ==> plan.intra_op_spinning is None
            &&& plan.use_plugin == (openvino_enabled && !plan.cpu_only && (accel == OrtAccelerator::Npu
                || accel == OrtAccelerator::OpenVino))
        }),
{
}

/// Outside XNNPACK, a session asks for exactly the requested intra-op thread
/// count when it is positive, on the CPU-only path too, and leaves the
/// runtime's default when none or zero is asked for.
pub proof fn law_requested_threads_kept(
    accel: OrtAccelerator,
    openvino_enabled: bool,
    role: SessionRole,
    intra_threads: Option<usize>,
    parallel_execution: bool,
)
    requires
        accel != OrtAccelerator::Xnnpack,
    ensures
        ({
            let plan = spec_session_plan(accel, openvino_enabled, role, intra_threads, parallel_execution);
            &&& forall|n: usize| intra_threads == Some(n) && n > 0 ==> plan.intra_threads == Some(n)
            &&& intra_threads is None || intra_threads == Some(0usize) ==> plan.intra_threads is None
        }),
{
}

/// XNNPACK sessions use one intra-op thread without spinning, whatever thread
/// count was asked for.
pub proof fn law_xnnpack_single_thread(
    openvino_enabled: bool,
    role: SessionRole,
    intra_threads: Option<usize>,
    parallel_execution: bool,
)
    ensures
        ({
            let plan = spec_session_plan(
                OrtAccelerator::Xnnpack,
                openvino_enabled,
                role,
                intra_threads,
                parallel_execution,
            );
            plan.intra_threads == Some(1usize) && plan.intra_op_spinning == Some(false)
        }),
{
}

/// The plugin is tried only with OpenVINO built in, for the OpenVINO or NPU
/// preference, and never on the CPU-only path.
pub proof fn law_plugin_only_for_openvino(
    accel: OrtAccelerator,
    openvino_enabled: bool,
    role: SessionRole,
    intra_threads: Option<usize>,
    parallel_execution: bool,
)
    ensures
        ({
            let plan = spec_session_plan(accel, openvino_enabled, role, intra_threads, parallel_execution);
            plan.use_plugin ==> openvino_enabled && !plan.cpu_only && (accel == OrtAccelerator::Npu
                || accel == OrtAccelerator::OpenVino)
        }),
{
}

/// With the NPU required, session creation never falls back to the classic
/// providers: it uses the selected device or fails.
pub proof fn law_required_npu_never_falls_back(outcome: PluginOutcome)
    ensures
        spec_plugin_action(OrtAccelerator::Npu, outcome) != PluginAction::ClassicProviders,
        spec_plugin_action(OrtAccelerator::Npu, outcome) != PluginAction::RebuildClassic,
{
}

/// Without the NPU required, session creation never fails because of the
/// plugin: it uses the selected device or the classic providers.
pub proof fn law_optional_plugin_never_fails(accel: OrtAccelerator, outcome: PluginOutcome)
    requires
        accel != OrtAccelerator::Npu,
    ensures
        spec_plugin_action(accel, outcome) != PluginAction::NpuMissing,
        spec_plugin_action(accel, outcome) != PluginAction::NpuSelectionFailed,
{
}

} // verus!
