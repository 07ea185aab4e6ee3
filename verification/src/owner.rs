use vstd::prelude::*;
use crate::errors::LoadError;
use crate::providers::{
    Backend,
    backend_label,
    resolve_providers,
    spec_backend_label,
};
use crate::session::SessionHandle;

verus! {

/// The runtime's verdict on one load attempt. Exactly one stage can fail,
/// and a failure at any stage carries the runtime's own error text.
pub enum LoadOutcome {
    /// The runtime could not allocate a session builder.
    BuilderFailed(String),
    /// The runtime rejected the resolved provider set.
    AttachFailed(String),
    /// The runtime could not parse or load the file as a valid model.
    CommitFailed(String),
    /// The runtime committed a session.
    Committed(SessionHandle),
}

/// The character-sequence views of a sequence of strings.
pub open spec fn views_of(lines: Seq<String>) -> Seq<Seq<char>> {
    lines.map_values(|line: String| line@)
}

/// Each name prefixed by the diagnostic indent.
pub open spec fn indented(names: Seq<Seq<char>>) -> Seq<Seq<char>> {
    names.map_values(|name: Seq<char>| "  - "@ + name)
}

/// The diagnostic lines owed for a given slot and backend configuration: a
/// "not initialized" notice for an empty slot; otherwise the loaded model's
/// input names, then its output names, each exactly as the runtime reported
/// them and in its order, then the active configuration's label.
pub open spec fn spec_info_lines(slot: Option<SessionHandle>, backend: Backend) -> Seq<
    Seq<char>,
> {
    match slot {
        Option::None => seq!["Session is not initialized."@],
        Option::Some(handle) => seq!["Input names:"@] + indented(views_of(handle.input_names@))
            + seq!["Output names:"@] + indented(views_of(handle.output_names@)) + seq![
            spec_backend_label(backend),
        ],
    }
}

/// Mapping a sequence of strings to their views commutes with appending one
/// string.
proof fn lemma_views_push(lines: Seq<String>, line: String)
    ensures
        views_of(lines.push(line)) =~= views_of(lines).push(line@),
{
    assert forall|j: int| 0 <= j < lines.len() + 1 implies views_of(lines.push(line))[j]
        == views_of(lines).push(line@)[j] by {
        assert(views_of(lines.push(line))[j] == lines.push(line)[j]@);
    }
}

/// Append one indented line per name, in order.
fn push_indented_names(lines: &mut Vec<String>, names: &Vec<String>)
    ensures
        views_of(final(lines)@) == views_of(old(lines)@) + indented(views_of(names@)),
{
    let mut i: usize = 0;
    while i < names.len()
        invariant
            i <= names@.len(),
            views_of(lines@) =~= views_of(old(lines)@) + indented(views_of(names@)).take(
                i as int,
            ),
        decreases names@.len() - i,
    {
        let line = String::from_str("  - ").concat(names[i].as_str());
        let ghost before: Seq<String> = lines@;
        lines.push(line);
        proof {
            let mapped = indented(views_of(names@));
            lemma_views_push(before, line);
            assert(views_of(names@)[i as int] == names@[i as int]@);
            assert(mapped[i as int] == "  - "@ + names@[i as int]@);
            assert(mapped.take(i as int + 1) =~= mapped.take(i as int).push(mapped[i as int]));
            assert(views_of(lines@) =~= views_of(old(lines)@) + mapped.take(i as int + 1));
        }
        i += 1;
    }
    proof {
        let mapped = indented(views_of(names@));
        assert(mapped.take(names@.len() as int) =~= mapped);
        assert(views_of(final(lines)@) =~= views_of(old(lines)@) + mapped);
    }
}

/// Run one load attempt against the runtime: load the runtime's dynamic
/// library from `runtime_lib_path`, resolve the provider set for the
/// backend, ask the runtime for a builder, attach the providers, and
/// commit against the file at `model_path`. Every stage's result rests
/// with the runtime and its environment, so the outcome is reported as
/// data and judged by `OrtBase::load_from_outcome`, which is verified for
/// every possible outcome; what holds of every outcome is that a committed
/// handle really carries a runtime session.
pub fn run_load(backend: Backend, model_path: &str, runtime_lib_path: &str) -> (outcome:
    LoadOutcome)
    ensures
        outcome matches LoadOutcome::Committed(handle) ==> handle.engine is Some,
{
    match crate::runtime::load_runtime_library(runtime_lib_path) {
        Result::Err(text) => {
            return LoadOutcome::BuilderFailed(text);
        },
        Result::Ok(()) => {},
    }
    let provider_set = resolve_providers(backend);
    let mut dispatches: Vec<ort::execution_providers::ExecutionProviderDispatch> = Vec::new();
    let mut i: usize = 0;
    while i < provider_set.len()
        decreases provider_set@.len() - i,
    {
        let dispatch = match provider_set[i] {
            crate::providers::Provider::Gpu => crate::runtime::gpu_dispatch(),
            crate::providers::Provider::NeuralAccelerator => crate::runtime::neural_accelerator_dispatch(),
            crate::providers::Provider::Cpu => crate::runtime::cpu_dispatch(),
        };
        dispatches.push(dispatch);
        i += 1;
    }
    match crate::runtime::new_session_builder() {
        Result::Err(text) => LoadOutcome::BuilderFailed(text),
        Result::Ok(builder) => match crate::runtime::attach_execution_providers(
            builder,
            dispatches,
        ) {
            Result::Err(text) => LoadOutcome::AttachFailed(text),
            Result::Ok(configured) => match crate::runtime::commit_session_from_file(
                configured,
                model_path,
            ) {
                Result::Err(text) => LoadOutcome::CommitFailed(text),
                Result::Ok(engine) => LoadOutcome::Committed(SessionHandle::from_engine(engine)),
            },
        },
    }
}

/// The shared session-owner capability. A concrete owner supplies one
/// optional slot for a session handle — a way to fill it and a way to read
/// it — and receives the whole load procedure and the diagnostic report in
/// return. Per owner the slot moves from Unloaded (absent, the initial
/// state) to Loaded (present) on a successful load only; no unload
/// transition is defined here.
pub trait OrtBase: Sized {
    /// The owner's current slot, as contracts see it.
    spec fn spec_sess(&self) -> Option<SessionHandle>;

    /// Store a handle, initializing or replacing the slot (owner
    /// obligation). The new handle fully determines the slot afterwards.
    fn set_sess(&mut self, sess: SessionHandle)
        ensures
            final(self).spec_sess() == Some(sess),
    ;

    /// Read-only access to the slot (owner obligation).
    fn sess(&self) -> (slot: Option<&SessionHandle>)
        ensures
            match slot {
                Option::Some(handle) => self.spec_sess() == Some(*handle),
                Option::None => self.spec_sess() is None,
            },
    ;

    /// Judge the runtime's verdict on one load attempt: a committed session
    /// is stored and the call succeeds; a failure at any stage is wrapped in
    /// the error for that stage and the slot is left exactly as it was.
    fn load_from_outcome(&mut self, outcome: LoadOutcome) -> (result: Result<(), LoadError>)
        ensures
            match outcome {
                LoadOutcome::BuilderFailed(text) => result == Result::<(), LoadError>::Err(
                    LoadError::BuilderCreation(text),
                ) && final(self).spec_sess() == old(self).spec_sess(),
                LoadOutcome::AttachFailed(text) => result == Result::<(), LoadError>::Err(
                    LoadError::ProviderAttach(text),
                ) && final(self).spec_sess() == old(self).spec_sess(),
                LoadOutcome::CommitFailed(text) => result == Result::<(), LoadError>::Err(
                    LoadError::Commit(text),
                ) && final(self).spec_sess() == old(self).spec_sess(),
                LoadOutcome::Committed(handle) => result == Result::<(), LoadError>::Ok(())
                    && final(self).spec_sess() == Some(handle),
            },
    {
        match outcome {
            LoadOutcome::BuilderFailed(text) => Result::Err(LoadError::BuilderCreation(text)),
            LoadOutcome::AttachFailed(text) => Result::Err(LoadError::ProviderAttach(text)),
            LoadOutcome::CommitFailed(text) => Result::Err(LoadError::Commit(text)),
            LoadOutcome::Committed(handle) => {
                self.set_sess(handle);
                Result::Ok(())
            },
        }
    }

    /// Turn a file path into a stored session handle: resolve the provider
    /// set for the backend, delegate construction to the runtime (whose
    /// dynamic library lives at `runtime_lib_path`), and store the
    /// committed handle. On success the slot holds a handle with a real
    /// runtime session behind it; on any failure the error names the
    /// failed stage and the slot is left exactly as it was — a failed call
    /// never moves an owner out of Unloaded.
    fn load_model(&mut self, backend: Backend, model_path: String, runtime_lib_path: String) -> (
        result: Result<(), LoadError>)
        ensures
            result is Ok ==> final(self).spec_sess() is Some
                && final(self).spec_sess()->0.engine is Some,
            result is Err ==> final(self).spec_sess() == old(self).spec_sess(),
    {
        let outcome = run_load(backend, model_path.as_str(), runtime_lib_path.as_str());
        self.load_from_outcome(outcome)
    }

    /// Produce the diagnostic report, purely observationally: the exact
    /// lines of `spec_info_lines` for the owner's current slot and the
    /// given backend configuration. Advisory only — never an input to
    /// control flow.
    fn print_info(&self, backend: Backend) -> (lines: Vec<String>)
        ensures
            views_of(lines@) == spec_info_lines(self.spec_sess(), backend),
    {
        let mut lines: Vec<String> = Vec::new();
        match self.sess() {
            Option::Some(handle) => {
                let header_in = String::from_str("Input names:");
                let ghost s0: Seq<String> = lines@;
                lines.push(header_in);
                let ghost s1: Seq<String> = lines@;
                push_indented_names(&mut lines, &handle.input_names);
                let ghost s2: Seq<String> = lines@;
                let header_out = String::from_str("Output names:");
                lines.push(header_out);
                let ghost s3: Seq<String> = lines@;
                push_indented_names(&mut lines, &handle.output_names);
                let ghost s4: Seq<String> = lines@;
                let label = backend_label(backend);
                lines.push(label);
                proof {
                    lemma_views_push(s0, header_in);
                    lemma_views_push(s2, header_out);
                    lemma_views_push(s4, label);
                    assert(views_of(s1) =~= seq!["Input names:"@]);
                    assert(views_of(s3) =~= views_of(s2).push("Output names:"@));
                    assert(views_of(lines@) =~= views_of(s4).push(spec_backend_label(backend)));
                    assert(views_of(lines@) =~= spec_info_lines(self.spec_sess(), backend));
                }
            },
            Option::None => {
                lines.push(String::from_str("Session is not initialized."));
                proof {
                    assert(views_of(lines@) =~= spec_info_lines(self.spec_sess(), backend));
                }
            },
        }
        lines
    }
}

/// A minimal concrete owner: one optional slot and nothing else.
pub struct SessionHost {
    /// The slot: absent until a load succeeds.
    pub session: Option<SessionHandle>,
}

impl SessionHost {
    /// A fresh owner in the Unloaded state.
    pub fn new() -> (host: SessionHost)
        ensures
            host.session is None,
    {
        SessionHost { session: None }
    }
}

impl OrtBase for SessionHost {
    open spec fn spec_sess(&self) -> Option<SessionHandle> {
        self.session
    }

    fn set_sess(&mut self, sess: SessionHandle) {
        self.session = Some(sess);
    }

    fn sess(&self) -> (slot: Option<&SessionHandle>) {
        self.session.as_ref()
    }
}

} // verus!
