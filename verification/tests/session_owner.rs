use ort_base::errors::LoadError;
use ort_base::owner::{LoadOutcome, OrtBase, SessionHost};
use ort_base::providers::{backend_label, resolve_providers, Backend, Provider};
use ort_base::session::SessionHandle;

fn names(items: &[&str]) -> Vec<String> {
    items.iter().map(|s| s.to_string()).collect()
}

#[test]
fn gpu_configuration_resolves_to_gpu_alone() {
    let set = resolve_providers(Backend::Gpu);
    assert!(!set.is_empty());
    assert_eq!(set, vec![Provider::Gpu]);
}

#[test]
fn accelerator_configuration_resolves_to_accelerator_then_cpu() {
    let set = resolve_providers(Backend::AcceleratorThenCpu);
    assert!(!set.is_empty());
    assert_eq!(set, vec![Provider::NeuralAccelerator, Provider::Cpu]);
}

#[test]
fn cpu_configuration_resolves_to_cpu_alone() {
    let set = resolve_providers(Backend::CpuOnly);
    assert!(!set.is_empty());
    assert_eq!(set, vec![Provider::Cpu]);
}

#[test]
fn backend_labels_name_the_compiled_configuration() {
    assert_eq!(
        backend_label(Backend::Gpu),
        "Configured with: CUDA execution provider"
    );
    assert_eq!(
        backend_label(Backend::AcceleratorThenCpu),
        "Configured with: CoreML execution provider"
    );
    assert_eq!(
        backend_label(Backend::CpuOnly),
        "Configured with: CPU execution provider"
    );
}

#[test]
fn builder_error_message_wraps_runtime_text() {
    let err = LoadError::BuilderCreation("no environment".to_string());
    assert_eq!(
        err.message(),
        "Failed to create session builder: no environment"
    );
}

#[test]
fn attach_error_message_wraps_runtime_text() {
    let err = LoadError::ProviderAttach("unsupported provider".to_string());
    assert_eq!(err.message(), "Failed to build session: unsupported provider");
}

#[test]
fn commit_error_message_wraps_runtime_text() {
    let err = LoadError::Commit("file does not exist".to_string());
    assert_eq!(
        err.message(),
        "Failed to commit from file: file does not exist"
    );
}

#[test]
fn committed_outcome_transitions_owner_to_loaded() {
    let mut host = SessionHost::new();
    assert!(host.sess().is_none());
    let handle = SessionHandle::from_names(names(&["waveform"]), names(&["audio"]));
    let result = host.load_from_outcome(LoadOutcome::Committed(handle));
    assert!(result.is_ok());
    let stored = host.sess().expect("owner should be loaded");
    assert!(!stored.input_names.is_empty());
    assert!(!stored.output_names.is_empty());
    assert_eq!(stored.input_names, names(&["waveform"]));
    assert_eq!(stored.output_names, names(&["audio"]));
}

#[test]
fn builder_failure_returns_builder_error_and_leaves_unloaded() {
    let mut host = SessionHost::new();
    let result = host.load_from_outcome(LoadOutcome::BuilderFailed("no environment".to_string()));
    let err = result.unwrap_err();
    assert!(matches!(err, LoadError::BuilderCreation(_)));
    assert_eq!(
        err.message(),
        "Failed to create session builder: no environment"
    );
    assert!(host.sess().is_none());
}

#[test]
fn attach_failure_returns_provider_error_and_leaves_unloaded() {
    let mut host = SessionHost::new();
    let result = host.load_from_outcome(LoadOutcome::AttachFailed("rejected".to_string()));
    let err = result.unwrap_err();
    assert!(matches!(err, LoadError::ProviderAttach(_)));
    assert_eq!(err.message(), "Failed to build session: rejected");
    assert!(host.sess().is_none());
}

#[test]
fn commit_failure_returns_commit_error_and_leaves_unloaded() {
    let mut host = SessionHost::new();
    let result =
        host.load_from_outcome(LoadOutcome::CommitFailed("file does not exist".to_string()));
    let err = result.unwrap_err();
    assert!(matches!(err, LoadError::Commit(_)));
    assert_eq!(
        err.message(),
        "Failed to commit from file: file does not exist"
    );
    assert!(host.sess().is_none());
}

#[test]
fn malformed_model_text_still_maps_to_commit_error() {
    let mut host = SessionHost::new();
    let result =
        host.load_from_outcome(LoadOutcome::CommitFailed("invalid protobuf".to_string()));
    let err = result.unwrap_err();
    assert!(matches!(err, LoadError::Commit(_)));
    assert!(host.sess().is_none());
}

#[test]
fn load_model_with_unloadable_runtime_returns_builder_error() {
    let mut host = SessionHost::new();
    let result = host.load_model(
        Backend::CpuOnly,
        "model.onnx".to_string(),
        "/nonexistent/libonnxruntime.so".to_string(),
    );
    let err = result.unwrap_err();
    assert!(matches!(err, LoadError::BuilderCreation(_)));
    assert!(err
        .message()
        .starts_with("Failed to create session builder: "));
    assert!(host.sess().is_none());
}

#[test]
fn print_info_on_unloaded_owner_reports_not_initialized() {
    let host = SessionHost::new();
    let lines = host.print_info(Backend::CpuOnly);
    assert_eq!(lines, vec!["Session is not initialized.".to_string()]);
    assert!(host.sess().is_none());
}

#[test]
fn print_info_on_loaded_owner_lists_names_in_reported_order() {
    let mut host = SessionHost::new();
    let handle = SessionHandle::from_names(names(&["tokens", "style"]), names(&["audio"]));
    host.load_from_outcome(LoadOutcome::Committed(handle))
        .expect("load should succeed");
    let lines = host.print_info(Backend::CpuOnly);
    assert_eq!(
        lines,
        vec![
            "Input names:".to_string(),
            "  - tokens".to_string(),
            "  - style".to_string(),
            "Output names:".to_string(),
            "  - audio".to_string(),
            "Configured with: CPU execution provider".to_string(),
        ]
    );
}

#[test]
fn print_info_with_no_declared_tensors_lists_only_headers() {
    let mut host = SessionHost::new();
    let handle = SessionHandle::from_names(Vec::new(), Vec::new());
    host.load_from_outcome(LoadOutcome::Committed(handle))
        .expect("load should succeed");
    let lines = host.print_info(Backend::Gpu);
    assert_eq!(
        lines,
        vec![
            "Input names:".to_string(),
            "Output names:".to_string(),
            "Configured with: CUDA execution provider".to_string(),
        ]
    );
}

#[test]
fn second_load_fully_replaces_first_handle() {
    let mut host = SessionHost::new();
    let first = SessionHandle::from_names(names(&["first_in"]), names(&["first_out"]));
    host.load_from_outcome(LoadOutcome::Committed(first))
        .expect("first load should succeed");
    let second = SessionHandle::from_names(names(&["second_in"]), names(&["second_out"]));
    host.load_from_outcome(LoadOutcome::Committed(second))
        .expect("second load should succeed");
    let stored = host.sess().expect("owner should be loaded");
    assert_eq!(stored.input_names, names(&["second_in"]));
    assert_eq!(stored.output_names, names(&["second_out"]));
}

#[test]
fn failed_load_after_success_keeps_the_stored_handle() {
    let mut host = SessionHost::new();
    let handle = SessionHandle::from_names(names(&["tokens"]), names(&["audio"]));
    host.load_from_outcome(LoadOutcome::Committed(handle))
        .expect("load should succeed");
    let result = host.load_from_outcome(LoadOutcome::CommitFailed("gone".to_string()));
    assert!(result.is_err());
    let stored = host.sess().expect("owner should still be loaded");
    assert_eq!(stored.input_names, names(&["tokens"]));
}
