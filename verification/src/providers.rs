//! Which execution providers a session is given, in which order, for each
//! accelerator preference.
use vstd::prelude::*;
use crate::accel::OrtAccelerator;
use crate::ortcalls::{self, dispatch_models, ProviderDispatch};
use crate::text::{trim, trim_str};

verus! {

/// The execution-provider integrations this build offers.
#[derive(Clone, Copy, Debug, PartialEq, Eq, Structural)]
pub struct EpFeatures {
    pub cuda: bool,
    pub tensorrt: bool,
    pub directml: bool,
    pub rocm: bool,
    pub coreml: bool,
    pub webgpu: bool,
    pub xnnpack: bool,
    pub openvino: bool,
}

/// The process-wide inputs to session creation: the accelerator preference,
/// the integrations built in, the machine's available parallelism and the
/// OpenVINO device override from the environment, if one was set.
pub struct OrtSettings {
    pub accelerator: OrtAccelerator,
    pub features: EpFeatures,
    pub available_threads: usize,
    pub openvino_device_env: Option<String>,
}

/// One execution provider to register, with its options.
pub enum ProviderSpec {
    Cpu,
    Cuda,
    TensorRt,
    DirectMl,
    Rocm,
    CoreMl,
    WebGpu,
    Xnnpack { intra_threads: Option<usize> },
    OpenVino { device_type: Option<String> },
}

/// The mathematical form of a `ProviderSpec`.
pub enum ProviderModel {
    Cpu,
    Cuda,
    TensorRt,
    DirectMl,
    Rocm,
    CoreMl,
    WebGpu,
    Xnnpack { intra_threads: Option<usize> },
    OpenVino { device_type: Option<Seq<char>> },
}

impl View for ProviderSpec {
    type V = ProviderModel;

    open spec fn view(&self) -> ProviderModel {
        match self {
            ProviderSpec::Cpu => ProviderModel::Cpu,
            ProviderSpec::Cuda => ProviderModel::Cuda,
            ProviderSpec::TensorRt => ProviderModel::TensorRt,
            ProviderSpec::DirectMl => ProviderModel::DirectMl,
            ProviderSpec::Rocm => ProviderModel::Rocm,
            ProviderSpec::CoreMl => ProviderModel::CoreMl,
            ProviderSpec::WebGpu => ProviderModel::WebGpu,
            ProviderSpec::Xnnpack { intra_threads } => ProviderModel::Xnnpack {
                intra_threads: *intra_threads,
            },
            ProviderSpec::OpenVino { device_type } => ProviderModel::OpenVino {
                device_type: match device_type {
                    Some(d) => Some(d@),
                    None => None,
                },
            },
        }
    }
}

/// The views of a list of provider specs.
pub open spec fn provider_views(v: Seq<ProviderSpec>) -> Seq<ProviderModel> {
    v.map_values(|p: ProviderSpec| p@)
}

/// The OpenVINO device type that selects the NPU: `NPU`.
pub open spec fn npu_device_type() -> Seq<char> {
    seq!['N', 'P', 'U']
}

/// The OpenVINO device override: the environment value trimmed, when that is
/// not empty.
pub open spec fn openvino_override(env: Option<Seq<char>>) -> Option<Seq<char>> {
    match env {
        Some(v) => if trim(v).len() > 0 {
            Some(trim(v))
        } else {
            None
        },
        None => None,
    }
}

/// XNNPACK gets the available parallelism as its thread count when that is
/// known to be positive.
pub open spec fn xnnpack_threads(available_threads: usize) -> Option<usize> {
    if available_threads > 0 {
        Some(available_threads)
    } else {
        None
    }
}

/// `item` when `on`, else nothing.
pub open spec fn when(on: bool, item: ProviderModel) -> Seq<ProviderModel> {
    if on {
        seq![item]
    } else {
        Seq::empty()
    }
}

/// The providers an accelerator preference asks for, among those built in;
/// `CpuOnly` asks for none, and a preference whose integration is missing
/// falls back to none.
pub open spec fn accelerator_providers(
    accel: OrtAccelerator,
    f: EpFeatures,
    available_threads: usize,
    openvino_env: Option<Seq<char>>,
) -> Seq<ProviderModel> {
    match accel {
        OrtAccelerator::CpuOnly => Seq::empty(),
        OrtAccelerator::Cuda => when(f.cuda, ProviderModel::Cuda),
        OrtAccelerator::TensorRt => if f.tensorrt {
            seq![ProviderModel::TensorRt, ProviderModel::Cuda]
        } else {
            Seq::empty()
        },
        OrtAccelerator::DirectMl => when(f.directml, ProviderModel::DirectMl),
        OrtAccelerator::Rocm => when(f.rocm, ProviderModel::Rocm),
        OrtAccelerator::CoreMl => when(f.coreml, ProviderModel::CoreMl),
        OrtAccelerator::WebGpu => when(f.webgpu, ProviderModel::WebGpu),
        OrtAccelerator::Xnnpack => when(
            f.xnnpack,
            ProviderModel::Xnnpack { intra_threads: xnnpack_threads(available_threads) },
        ),
        OrtAccelerator::OpenVino => when(
            f.openvino,
            ProviderModel::OpenVino { device_type: openvino_override(openvino_env) },
        ),
        OrtAccelerator::Npu => when(
            f.openvino,
            ProviderModel::OpenVino { device_type: Some(npu_device_type()) },
        ),
        OrtAccelerator::Auto => when(f.tensorrt, ProviderModel::TensorRt) + when(
            f.cuda,
            ProviderModel::Cuda,
        ) + when(f.rocm, ProviderModel::Rocm) + (if f.openvino {
            seq![
                ProviderModel::OpenVino { device_type: Some(npu_device_type()) },
                ProviderModel::OpenVino { device_type: None },
            ]
        } else {
            Seq::empty()
        }) + when(f.coreml, ProviderModel::CoreMl) + when(f.directml, ProviderModel::DirectMl)
            + when(f.webgpu, ProviderModel::WebGpu),
    }
}

/// The full provider list: the accelerator's providers, then the CPU provider
/// when CPU fallback is allowed.
pub open spec fn provider_plan(
    accel: OrtAccelerator,
    f: EpFeatures,
    allow_cpu_fallback: bool,
    available_threads: usize,
    openvino_env: Option<Seq<char>>,
) -> Seq<ProviderModel> {
    accelerator_providers(accel, f, available_threads, openvino_env) + when(
        allow_cpu_fallback,
        ProviderModel::Cpu,
    )
}

/// The view of an optional string.
pub open spec fn opt_view(o: Option<&str>) -> Option<Seq<char>> {
    match o {
        Some(s) => Some(s@),
        None => None,
    }
}

fn push_when(plan: &mut Vec<ProviderSpec>, on: bool, item: ProviderSpec)
    ensures
        provider_views(final(plan)@) == provider_views(old(plan)@) + when(on, item@),
{
    let ghost before = provider_views(plan@);
    if on {
        let ghost v = item@;
        plan.push(item);
        assert(provider_views(plan@) =~= before + seq![v]);
    } else {
        assert(provider_views(plan@) =~= before + Seq::<ProviderModel>::empty());
    }
}

/// The providers to register, in order, for the accelerator `accel` with the
/// integrations `features`; `available_threads` is the machine's parallelism
/// and `openvino_device_env` the OpenVINO device override from the environment.
pub fn plan_execution_providers(
    accel: OrtAccelerator,
    features: &EpFeatures,
    allow_cpu_fallback: bool,
    available_threads: usize,
    openvino_device_env: Option<&str>,
) -> (r: Vec<ProviderSpec>)
    ensures
        provider_views(r@) == provider_plan(
            accel,
            *features,
            allow_cpu_fallback,
            available_threads,
            opt_view(openvino_device_env),
        ),
{
    let mut plan: Vec<ProviderSpec> = Vec::new();
    assert(provider_views(plan@) =~= Seq::<ProviderModel>::empty());
    let ghost target = accelerator_providers(
        accel,
        *features,
        available_threads,
        opt_view(openvino_device_env),
    );
    match accel {
        OrtAccelerator::CpuOnly => {},
        OrtAccelerator::Cuda => push_when(&mut plan, features.cuda, ProviderSpec::Cuda),
        OrtAccelerator::TensorRt => {
            push_when(&mut plan, features.tensorrt, ProviderSpec::TensorRt);
            push_when(&mut plan, features.tensorrt, ProviderSpec::Cuda);
            assert(provider_views(plan@) =~= target);
        },
        OrtAccelerator::DirectMl => push_when(&mut plan, features.directml, ProviderSpec::DirectMl),
        OrtAccelerator::Rocm => push_when(&mut plan, features.rocm, ProviderSpec::Rocm),
        OrtAccelerator::CoreMl => push_when(&mut plan, features.coreml, ProviderSpec::CoreMl),
        OrtAccelerator::WebGpu => push_when(&mut plan, features.webgpu, ProviderSpec::WebGpu),
        OrtAccelerator::Xnnpack => {
            let threads = if available_threads > 0 {
                Some(available_threads)
            } else {
                None
            };
            push_when(&mut plan, features.xnnpack, ProviderSpec::Xnnpack { intra_threads: threads });
        },
        OrtAccelerator::OpenVino => {
            let device_type = match openvino_device_env {
                Some(v) => {
                    let t = trim_str(v);
                    if t.as_str().is_empty() {
                        None
                    } else {
                        Some(t)
                    }
                },
                None => None,
            };
            push_when(&mut plan, features.openvino, ProviderSpec::OpenVino { device_type });
            assert(provider_views(plan@) =~= target);
        },
        OrtAccelerator::Npu => {
            proof {
                reveal_strlit("NPU");
                assert("NPU"@ =~= npu_device_type());
            }
            let npu = "NPU".to_owned();
            assert(npu@ == npu_device_type());
            push_when(&mut plan, features.openvino, ProviderSpec::OpenVino { device_type: Some(npu) });
            assert(provider_views(plan@) =~= target);
        },
        OrtAccelerator::Auto => {
            push_when(&mut plan, features.tensorrt, ProviderSpec::TensorRt);
            push_when(&mut plan, features.cuda, ProviderSpec::Cuda);
            push_when(&mut plan, features.rocm, ProviderSpec::Rocm);
            proof {
                reveal_strlit("NPU");
                assert("NPU"@ =~= npu_device_type());
            }
            let npu = "NPU".to_owned();
            assert(npu@ == npu_device_type());
            push_when(&mut plan, features.openvino, ProviderSpec::OpenVino { device_type: Some(npu) });
            push_when(&mut plan, features.openvino, ProviderSpec::OpenVino { device_type: None });
            push_when(&mut plan, features.coreml, ProviderSpec::CoreMl);
            push_when(&mut plan, features.directml, ProviderSpec::DirectMl);
            push_when(&mut plan, features.webgpu, ProviderSpec::WebGpu);
            assert(provider_views(plan@) =~= target);
        },
    }
    assert(provider_views(plan@) =~= accelerator_providers(
        accel,
        *features,
        available_threads,
        opt_view(openvino_device_env),
    ));
    push_when(&mut plan, allow_cpu_fallback, ProviderSpec::Cpu);
    plan
}

/// No CPU provider in `s`.
pub open spec fn no_cpu(s: Seq<ProviderModel>) -> bool {
    forall|i: int| 0 <= i < s.len() ==> !(#[trigger] s[i] is Cpu)
}

proof fn lemma_no_cpu_concat(a: Seq<ProviderModel>, b: Seq<ProviderModel>)
    requires
        no_cpu(a),
        no_cpu(b),
    ensures
        no_cpu(a + b),
{
    assert forall|i: int| 0 <= i < (a + b).len() implies !((a + b)[i] is Cpu) by {
        if i < a.len() {
            assert((a + b)[i] == a[i]);
        } else {
            assert((a + b)[i] == b[i - a.len()]);
        }
    }
}

proof fn lemma_when_no_cpu(on: bool, item: ProviderModel)
    requires
        !(item is Cpu),
    ensures
        no_cpu(when(on, item)),
{
}

/// No accelerator preference asks for the CPU provider itself.
pub proof fn lemma_accelerator_providers_no_cpu(
    accel: OrtAccelerator,
    f: EpFeatures,
    available_threads: usize,
    openvino_env: Option<Seq<char>>,
)
    ensures
        no_cpu(accelerator_providers(accel, f, available_threads, openvino_env)),
{
    let s = accelerator_providers(accel, f, available_threads, openvino_env);
    if accel == OrtAccelerator::Auto {
        let a = when(f.tensorrt, ProviderModel::TensorRt);
        let b = when(f.cuda, ProviderModel::Cuda);
        let c = when(f.rocm, ProviderModel::Rocm);
        let d: Seq<ProviderModel> = if f.openvino {
            seq![
                ProviderModel::OpenVino { device_type: Some(npu_device_type()) },
                ProviderModel::OpenVino { device_type: None },
            ]
        } else {
            Seq::empty()
        };
        let e = when(f.coreml, ProviderModel::CoreMl);
        let g = when(f.directml, ProviderModel::DirectMl);
        let h = when(f.webgpu, ProviderModel::WebGpu);
        lemma_when_no_cpu(f.tensorrt, ProviderModel::TensorRt);
        lemma_when_no_cpu(f.cuda, ProviderModel::Cuda);
        lemma_when_no_cpu(f.rocm, ProviderModel::Rocm);
        lemma_when_no_cpu(f.coreml, ProviderModel::CoreMl);
        lemma_when_no_cpu(f.directml, ProviderModel::DirectMl);
        lemma_when_no_cpu(f.webgpu, ProviderModel::WebGpu);
        assert(no_cpu(d));
        lemma_no_cpu_concat(a, b);
        lemma_no_cpu_concat(a + b, c);
        lemma_no_cpu_concat(a + b + c, d);
        lemma_no_cpu_concat(a + b + c + d, e);
        lemma_no_cpu_concat(a + b + c + d + e, g);
        lemma_no_cpu_concat(a + b + c + d + e + g, h);
    }
}

/// The CPU provider comes last, and only then, when CPU fallback is allowed;
/// without fallback the plan holds no CPU provider at all.
pub proof fn lemma_cpu_fallback_last(
    accel: OrtAccelerator,
    f: EpFeatures,
    allow_cpu_fallback: bool,
    available_threads: usize,
    openvino_env: Option<Seq<char>>,
)
    ensures
        ({
            let plan = provider_plan(accel, f, allow_cpu_fallback, available_threads, openvino_env);
            &&& allow_cpu_fallback ==> plan.len() > 0 && plan.last() is Cpu
            &&& allow_cpu_fallback ==> forall|i: int| 0 <= i < plan.len() - 1 ==> !(plan[i] is Cpu)
            &&& !allow_cpu_fallback ==> forall|i: int| 0 <= i < plan.len() ==> !(plan[i] is Cpu)
        }),
{
    lemma_accelerator_providers_no_cpu(accel, f, available_threads, openvino_env);
    let a = accelerator_providers(accel, f, available_threads, openvino_env);
    let plan = provider_plan(accel, f, allow_cpu_fallback, available_threads, openvino_env);
    assert forall|i: int| 0 <= i < a.len() implies plan[i] == a[i] by {}
    if !allow_cpu_fallback {
        assert(plan =~= a);
    }
}

/// Each preference for a single accelerator asks for that accelerator's
/// provider when its integration is built in, and for nothing when it is
/// not: TensorRT comes with CUDA behind it, XNNPACK with the machine's thread
/// count when it is known, OpenVINO with the trimmed device override when one
/// is set, and the NPU as OpenVINO's `NPU` device. `CpuOnly` asks for none.
/// The CPU provider follows when fallback is allowed.
pub proof fn law_single_accelerator_plans(
    f: EpFeatures,
    allow_cpu_fallback: bool,
    available_threads: usize,
    openvino_env: Option<Seq<char>>,
)
    ensures
        ({
            let cpu = if allow_cpu_fallback {
                seq![ProviderModel::Cpu]
            } else {
                Seq::<ProviderModel>::empty()
            };
            let threads = if available_threads > 0 {
                Some(available_threads)
            } else {
                None
            };
            let device = match openvino_env {
                Some(v) => if trim(v).len() > 0 {
                    Some(trim(v))
                } else {
                    None
                },
                None => None,
            };
            &&& provider_plan(OrtAccelerator::CpuOnly, f, allow_cpu_fallback, available_threads, openvino_env)
                == cpu
            &&& provider_plan(OrtAccelerator::Cuda, f, allow_cpu_fallback, available_threads, openvino_env)
                == if f.cuda {
                seq![ProviderModel::Cuda] + cpu
            } else {
                cpu
            }
            &&& provider_plan(OrtAccelerator::TensorRt, f, allow_cpu_fallback, available_threads, openvino_env)
                == if f.tensorrt {
                seq![ProviderModel::TensorRt, ProviderModel::Cuda] + cpu
            } else {
                cpu
            }
            &&& provider_plan(OrtAccelerator::DirectMl, f, allow_cpu_fallback, available_threads, openvino_env)
                == if f.directml {
                seq![ProviderModel::DirectMl] + cpu
            } else {
                cpu
            }
            &&& provider_plan(OrtAccelerator::Rocm, f, allow_cpu_fallback, available_threads, openvino_env)
                == if f.rocm {
                seq![ProviderModel::Rocm] + cpu
            } else {
                cpu
            }
            &&& provider_plan(OrtAccelerator::CoreMl, f, allow_cpu_fallback, available_threads, openvino_env)
                == if f.coreml {
                seq![ProviderModel::CoreMl] + cpu
            } else {
                cpu
            }
            &&& provider_plan(OrtAccelerator::WebGpu, f, allow_cpu_fallback, available_threads, openvino_env)
                == if f.webgpu {
                seq![ProviderModel::WebGpu] + cpu
            } else {
                cpu
            }
            &&& provider_plan(OrtAccelerator::Xnnpack, f, allow_cpu_fallback, available_threads, openvino_env)
                == if f.xnnpack {
                seq![ProviderModel::Xnnpack { intra_threads: threads }] + cpu
            } else {
                cpu
            }
            &&& provider_plan(OrtAccelerator::OpenVino, f, allow_cpu_fallback, available_threads, openvino_env)
                == if f.openvino {
                seq![ProviderModel::OpenVino { device_type: device }] + cpu
            } else {
                cpu
            }
            &&& provider_plan(OrtAccelerator::Npu, f, allow_cpu_fallback, available_threads, openvino_env)
                == if f.openvino {
                seq![ProviderModel::OpenVino { device_type: Some(seq!['N', 'P', 'U']) }] + cpu
            } else {
                cpu
            }
        }),
{
    let cpu = if allow_cpu_fallback {
        seq![ProviderModel::Cpu]
    } else {
        Seq::<ProviderModel>::empty()
    };
    let threads = if available_threads > 0 {
        Some(available_threads)
    } else {
        None
    };
    let device = match openvino_env {
        Some(v) => if trim(v).len() > 0 {
            Some(trim(v))
        } else {
            None
        },
        None => None,
    };
    assert(provider_plan(OrtAccelerator::CpuOnly, f, allow_cpu_fallback, available_threads, openvino_env) =~= cpu);
    assert(provider_plan(OrtAccelerator::Cuda, f, allow_cpu_fallback, available_threads, openvino_env) =~= if f.cuda {
        seq![ProviderModel::Cuda] + cpu
    } else {
        cpu
    });
    assert(provider_plan(OrtAccelerator::TensorRt, f, allow_cpu_fallback, available_threads, openvino_env) =~= if f.tensorrt {
        seq![ProviderModel::TensorRt, ProviderModel::Cuda] + cpu
    } else {
        cpu
    });
    assert(provider_plan(OrtAccelerator::DirectMl, f, allow_cpu_fallback, available_threads, openvino_env) =~= if f.directml {
        seq![ProviderModel::DirectMl] + cpu
    } else {
        cpu
    });
    assert(provider_plan(OrtAccelerator::Rocm, f, allow_cpu_fallback, available_threads, openvino_env) =~= if f.rocm {
        seq![ProviderModel::Rocm] + cpu
    } else {
        cpu
    });
    assert(provider_plan(OrtAccelerator::CoreMl, f, allow_cpu_fallback, available_threads, openvino_env) =~= if f.coreml {
        seq![ProviderModel::CoreMl] + cpu
    } else {
        cpu
    });
    assert(provider_plan(OrtAccelerator::WebGpu, f, allow_cpu_fallback, available_threads, openvino_env) =~= if f.webgpu {
        seq![ProviderModel::WebGpu] + cpu
    } else {
        cpu
    });
    assert(provider_plan(OrtAccelerator::Xnnpack, f, allow_cpu_fallback, available_threads, openvino_env) =~= if f.xnnpack {
        seq![ProviderModel::Xnnpack { intra_threads: threads }] + cpu
    } else {
        cpu
    });
    assert(provider_plan(OrtAccelerator::OpenVino, f, allow_cpu_fallback, available_threads, openvino_env) =~= if f.openvino {
        seq![ProviderModel::OpenVino { device_type: device }] + cpu
    } else {
        cpu
    });
    assert(provider_plan(OrtAccelerator::Npu, f, allow_cpu_fallback, available_threads, openvino_env) =~= if f.openvino {
        seq![ProviderModel::OpenVino { device_type: Some(seq!['N', 'P', 'U']) }] + cpu
    } else {
        cpu
    });
}

/// `CpuOnly` gives the CPU provider alone, or nothing without fallback.
pub proof fn lemma_cpu_only_plan(
    f: EpFeatures,
    allow_cpu_fallback: bool,
    available_threads: usize,
    openvino_env: Option<Seq<char>>,
)
    ensures
        provider_plan(OrtAccelerator::CpuOnly, f, allow_cpu_fallback, available_threads, openvino_env)
            == if allow_cpu_fallback {
            seq![ProviderModel::Cpu]
        } else {
            Seq::<ProviderModel>::empty()
        },
{
    assert(provider_plan(
        OrtAccelerator::CpuOnly,
        f,
        allow_cpu_fallback,
        available_threads,
        openvino_env,
    ) =~= when(allow_cpu_fallback, ProviderModel::Cpu));
}

/// A provider spec as it is built: an XNNPACK thread count of zero means the
/// default threads.
pub open spec fn as_built(m: ProviderModel) -> ProviderModel {
    match m {
        ProviderModel::Xnnpack { intra_threads: Some(n) } => if n > 0 {
            m
        } else {
            ProviderModel::Xnnpack { intra_threads: None }
        },
        _ => m,
    }
}

/// Every spec in `s` is built as it stands.
pub open spec fn built_as_planned(s: Seq<ProviderModel>) -> bool {
    forall|i: int| 0 <= i < s.len() ==> as_built(#[trigger] s[i]) == s[i]
}

proof fn lemma_built_as_planned_concat(a: Seq<ProviderModel>, b: Seq<ProviderModel>)
    requires
        built_as_planned(a),
        built_as_planned(b),
    ensures
        built_as_planned(a + b),
{
    assert forall|i: int| 0 <= i < (a + b).len() implies as_built((a + b)[i]) == (a + b)[i] by {
        if i < a.len() {
            assert((a + b)[i] == a[i]);
        } else {
            assert((a + b)[i] == b[i - a.len()]);
        }
    }
}

/// Every planned provider is built as planned.
pub proof fn lemma_plan_built_as_planned(
    accel: OrtAccelerator,
    f: EpFeatures,
    allow_cpu_fallback: bool,
    available_threads: usize,
    openvino_env: Option<Seq<char>>,
)
    ensures
        built_as_planned(provider_plan(accel, f, allow_cpu_fallback, available_threads, openvino_env)),
{
    let a = accelerator_providers(accel, f, available_threads, openvino_env);
    if accel == OrtAccelerator::Auto {
        let p1 = when(f.tensorrt, ProviderModel::TensorRt);
        let p2 = when(f.cuda, ProviderModel::Cuda);
        let p3 = when(f.rocm, ProviderModel::Rocm);
        let p4: Seq<ProviderModel> = if f.openvino {
            seq![
                ProviderModel::OpenVino { device_type: Some(npu_device_type()) },
                ProviderModel::OpenVino { device_type: None },
            ]
        } else {
            Seq::empty()
        };
        let p5 = when(f.coreml, ProviderModel::CoreMl);
        let p6 = when(f.directml, ProviderModel::DirectMl);
        let p7 = when(f.webgpu, ProviderModel::WebGpu);
        lemma_built_as_planned_concat(p1, p2);
        lemma_built_as_planned_concat(p1 + p2, p3);
        lemma_built_as_planned_concat(p1 + p2 + p3, p4);
        lemma_built_as_planned_concat(p1 + p2 + p3 + p4, p5);
        lemma_built_as_planned_concat(p1 + p2 + p3 + p4 + p5, p6);
        lemma_built_as_planned_concat(p1 + p2 + p3 + p4 + p5 + p6, p7);
    }
    assert(built_as_planned(a));
    lemma_built_as_planned_concat(a, when(allow_cpu_fallback, ProviderModel::Cpu));
}

/// The ONNX Runtime dispatch for one provider spec, built by that provider's
/// constructor with the spec's options.
fn provider_dispatch(spec: &ProviderSpec) -> (r: ProviderDispatch)
    ensures
        r.model() == as_built(spec@),
{
    match spec {
        ProviderSpec::Cpu => ortcalls::cpu_dispatch(),
        ProviderSpec::Cuda => ortcalls::cuda_dispatch(),
        ProviderSpec::TensorRt => ortcalls::tensorrt_dispatch(),
        ProviderSpec::DirectMl => ortcalls::directml_dispatch(),
        ProviderSpec::Rocm => ortcalls::rocm_dispatch(),
        ProviderSpec::CoreMl => ortcalls::coreml_dispatch(),
        ProviderSpec::WebGpu => ortcalls::webgpu_dispatch(),
        ProviderSpec::Xnnpack { intra_threads } => match intra_threads {
            Some(n) => if *n > 0 {
                ortcalls::xnnpack_dispatch_with_threads(*n)
            } else {
                ortcalls::xnnpack_dispatch()
            },
            None => ortcalls::xnnpack_dispatch(),
        },
        ProviderSpec::OpenVino { device_type } => match device_type {
            Some(d) => ortcalls::openvino_dispatch_with_device(d.as_str()),
            None => ortcalls::openvino_dispatch(),
        },
    }
}

/// The ONNX Runtime dispatches for a provider plan, one per spec, in order.
pub fn dispatches_for(plan: &Vec<ProviderSpec>) -> (r: Vec<ProviderDispatch>)
    ensures
        dispatch_models(r@) == provider_views(plan@).map_values(|m: ProviderModel| as_built(m)),
{
    let mut out: Vec<ProviderDispatch> = Vec::new();
    let mut i: usize = 0;
    while i < plan.len()
        invariant
            i <= plan@.len(),
            dispatch_models(out@) == provider_views(plan@.take(i as int)).map_values(
                |m: ProviderModel| as_built(m),
            ),
        decreases plan@.len() - i,
    {
        let d = provider_dispatch(&plan[i]);
        let ghost before = dispatch_models(out@);
        out.push(d);
        assert(dispatch_models(out@) =~= before.push(d.model()));
        assert(provider_views(plan@.take(i + 1)).map_values(|m: ProviderModel| as_built(m))
            =~= provider_views(plan@.take(i as int)).map_values(|m: ProviderModel| as_built(m)).push(
            as_built(plan@[i as int]@),
        ));
        i = i + 1;
    }
    assert(plan@.take(plan@.len() as int) =~= plan@);
    out
}

/// The execution providers for a session under `settings`: the planned
/// providers, each built as an ONNX Runtime dispatch, in plan order.
pub fn execution_providers(settings: &OrtSettings, allow_cpu_fallback: bool) -> (r: Vec<
    ProviderDispatch,
>)
    ensures
        dispatch_models(r@) == provider_plan(
            settings.accelerator,
            settings.features,
            allow_cpu_fallback,
            settings.available_threads,
            match settings.openvino_device_env {
                Some(v) => Some(v@),
                None => None,
            },
        ),
{
    let env = match &settings.openvino_device_env {
        Some(v) => Some(v.as_str()),
        None => None,
    };
    let plan = plan_execution_providers(
        settings.accelerator,
        &settings.features,
        allow_cpu_fallback,
        settings.available_threads,
        env,
    );
    proof {
        lemma_plan_built_as_planned(
            settings.accelerator,
            settings.features,
            allow_cpu_fallback,
            settings.available_threads,
            opt_view(env),
        );
        let pv = provider_views(plan@);
        assert(pv.map_values(|m: ProviderModel| as_built(m)) =~= pv);
    }
    dispatches_for(&plan)
}

} // verus!
