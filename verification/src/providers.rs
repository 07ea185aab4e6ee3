use vstd::prelude::*;

verus! {

/// The acceleration configuration a build of the surrounding system runs
/// with. Exactly one configuration is active at a time; the choice is made
/// once (from build metadata or configuration) and passed explicitly into
/// session construction, never re-negotiated per call.
#[derive(Clone, Copy, PartialEq, Eq, Structural, Debug)]
pub enum Backend {
    /// GPU acceleration alone.
    Gpu,
    /// A neural accelerator preferred, with the general-purpose CPU as the
    /// fallback inside the same request.
    AcceleratorThenCpu,
    /// The general-purpose CPU alone.
    CpuOnly,
}

/// One acceleration-backend descriptor that the inference runtime can be
/// asked to execute a model graph with.
#[derive(Clone, Copy, PartialEq, Eq, Structural, Debug)]
pub enum Provider {
    /// The GPU execution provider.
    Gpu,
    /// The neural-accelerator execution provider.
    NeuralAccelerator,
    /// The general-purpose CPU execution provider.
    Cpu,
}

/// The ordered provider set that a backend configuration resolves to.
/// Order matters: the runtime prefers earlier entries.
pub open spec fn spec_provider_set(backend: Backend) -> Seq<Provider> {
    match backend {
        Backend::Gpu => seq![Provider::Gpu],
        Backend::AcceleratorThenCpu => seq![Provider::NeuralAccelerator, Provider::Cpu],
        Backend::CpuOnly => seq![Provider::Cpu],
    }
}

/// Resolve the ordered provider set for a backend configuration. Pure: the
/// result depends on the configuration alone.
pub fn resolve_providers(backend: Backend) -> (providers: Vec<Provider>)
    ensures
        providers@ == spec_provider_set(backend),
{
    let mut providers: Vec<Provider> = Vec::new();
    match backend {
        Backend::Gpu => {
            providers.push(Provider::Gpu);
        }
        Backend::AcceleratorThenCpu => {
            providers.push(Provider::NeuralAccelerator);
            providers.push(Provider::Cpu);
        }
        Backend::CpuOnly => {
            providers.push(Provider::Cpu);
        }
    }
    proof {
        assert(providers@ =~= spec_provider_set(backend));
    }
    providers
}

/// The diagnostic label that names the active configuration.
pub open spec fn spec_backend_label(backend: Backend) -> Seq<char> {
    match backend {
        Backend::Gpu => "Configured with: CUDA execution provider"@,
        Backend::AcceleratorThenCpu => "Configured with: CoreML execution provider"@,
        Backend::CpuOnly => "Configured with: CPU execution provider"@,
    }
}

/// Produce the diagnostic label for a backend configuration.
pub fn backend_label(backend: Backend) -> (label: String)
    ensures
        label@ == spec_backend_label(backend),
{
    match backend {
        Backend::Gpu => String::from_str("Configured with: CUDA execution provider"),
        Backend::AcceleratorThenCpu => String::from_str("Configured with: CoreML execution provider"),
        Backend::CpuOnly => String::from_str("Configured with: CPU execution provider"),
    }
}

/// Law: every backend configuration resolves to a provider set that is
/// non-empty and consists exactly of that configuration's own providers —
/// the GPU alone for the GPU build, the neural accelerator followed by the
/// CPU fallback for the accelerator build, the CPU alone for the CPU-only
/// build — and no two distinct configurations resolve to the same set.
pub proof fn lemma_provider_set_consistent(backend: Backend)
    ensures
        spec_provider_set(backend).len() > 0,
        backend is Gpu ==> spec_provider_set(backend) == seq![Provider::Gpu],
        backend is AcceleratorThenCpu ==> spec_provider_set(backend) == seq![
            Provider::NeuralAccelerator,
            Provider::Cpu,
        ],
        backend is CpuOnly ==> spec_provider_set(backend) == seq![Provider::Cpu],
        forall|other: Backend|
            spec_provider_set(backend) == spec_provider_set(other) ==> backend == other,
{
    assert forall|other: Backend|
        spec_provider_set(backend) == spec_provider_set(other) implies backend == other by {
        if backend != other {
            let sb = spec_provider_set(backend);
            let so = spec_provider_set(other);
            if sb.len() == so.len() && sb.len() == 1 {
                assert(sb[0] != so[0]);
            }
        }
    }
}

} // verus!
