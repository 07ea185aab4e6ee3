//! The boundary to the inference runtime. Everything here is trusted: each
//! wrapper makes exactly one runtime call and converts its arguments and
//! result; the runtime itself (file parsing, graph construction, provider
//! registration) is an external collaborator and is not verified.

use vstd::prelude::*;

verus! {

/// ort's session builder, declared so verified code can carry one through.
#[verifier::external_type_specification]
#[verifier::external_body]
pub struct ExSessionBuilder(ort::session::builder::SessionBuilder);

/// ort's loaded session, declared so verified code can own and store one.
#[verifier::external_type_specification]
#[verifier::external_body]
pub struct ExSession(ort::session::Session);

/// ort's dynamic execution-provider descriptor, declared so verified code
/// can collect an ordered list of them.
#[verifier::external_type_specification]
#[verifier::external_body]
pub struct ExExecutionProviderDispatch(ort::execution_providers::ExecutionProviderDispatch);

/// Relies on ort's `init_from`: loads the runtime's dynamic library from
/// the given path and checks that it exports the runtime API at a
/// compatible version, reporting every failure — unloadable library,
/// missing entry point, incompatible version — as an error rather than
/// aborting. Idempotent: once a library is loaded, later calls reuse it.
/// After an `Ok`, the runtime API is initialized, so the builder and commit
/// calls below return their failures as errors instead of aborting inside
/// the runtime loader.
#[verifier::external_body]
pub(crate) fn load_runtime_library(library_path: &str) -> Result<(), String> {
    match ort::init_from(library_path) {
        Ok(environment) => {
            environment.commit();
            Ok(())
        },
        Err(e) => Err(format!("{}", e)),
    }
}

/// Relies on ort's `SessionBuilder::new`: a fresh session builder from the
/// runtime, or the runtime's error rendered as text. Must run after
/// `load_runtime_library` has succeeded (the runtime loader aborts on a
/// library it cannot load); `run_load` establishes that order. Whether it
/// succeeds depends on the runtime's environment, so nothing more is
/// promised.
#[verifier::external_body]
pub(crate) fn new_session_builder() -> Result<ort::session::builder::SessionBuilder, String> {
    ort::session::builder::SessionBuilder::new().map_err(|e| format!("{}", e))
}

/// Relies on ort's `SessionBuilder::with_execution_providers`: registers the
/// ordered provider list on the builder. With descriptors built with their
/// defaults, as this library builds them, a provider the platform cannot
/// supply is logged and skipped and the call succeeds; the error return is
/// reserved for descriptors configured to fail on registration errors.
#[verifier::external_body]
pub(crate) fn attach_execution_providers(
    builder: ort::session::builder::SessionBuilder,
    providers: Vec<ort::execution_providers::ExecutionProviderDispatch>,
) -> Result<ort::session::builder::SessionBuilder, String> {
    builder.with_execution_providers(providers).map_err(|e| format!("{}", e))
}

/// Relies on ort's `SessionBuilder::commit_from_file`: parses the file at
/// the given path and builds a session, or fails with the runtime's error
/// (missing file, corrupt format, incompatible graph). The result depends on
/// what is on disk, so nothing is promised of which case occurs.
#[verifier::external_body]
pub(crate) fn commit_session_from_file(
    builder: ort::session::builder::SessionBuilder,
    model_path: &str,
) -> Result<ort::session::Session, String> {
    let mut builder = builder;
    builder.commit_from_file(model_path).map_err(|e| format!("{}", e))
}

/// Relies on ort's `ep::CUDA`: the GPU execution-provider descriptor with
/// its default options.
#[verifier::external_body]
pub(crate) fn gpu_dispatch() -> ort::execution_providers::ExecutionProviderDispatch {
    ort::ep::CUDA::default().build()
}

/// Relies on ort's `ep::CoreML`: the neural-accelerator execution-provider
/// descriptor with its default options.
#[verifier::external_body]
pub(crate) fn neural_accelerator_dispatch() -> ort::execution_providers::ExecutionProviderDispatch {
    ort::ep::CoreML::default().build()
}

/// Relies on ort's `ep::CPU`: the general-purpose CPU execution-provider
/// descriptor with its default options.
#[verifier::external_body]
pub(crate) fn cpu_dispatch() -> ort::execution_providers::ExecutionProviderDispatch {
    ort::ep::CPU::default().build()
}

/// Relies on ort's `Session::inputs` and `Outlet::name`: the loaded model's
/// declared input tensor names, in the runtime's reported order. The session
/// is opaque here, so the names are not pinned further.
#[verifier::external_body]
pub(crate) fn session_input_names(session: &ort::session::Session) -> Vec<String> {
    session.inputs().iter().map(|outlet| outlet.name().to_string()).collect()
}

/// Relies on ort's `Session::outputs` and `Outlet::name`: the loaded model's
/// declared output tensor names, in the runtime's reported order.
#[verifier::external_body]
pub(crate) fn session_output_names(session: &ort::session::Session) -> Vec<String> {
    session.outputs().iter().map(|outlet| outlet.name().to_string()).collect()
}

} // verus!
