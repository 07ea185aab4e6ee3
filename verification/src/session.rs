use vstd::prelude::*;

verus! {

/// A loaded, ready-to-run model session as this layer sees it: the
/// runtime's own session object together with the input and output tensor
/// names the runtime reported for it. The handle is exclusively owned by
/// whichever component requested it and is freed when that component is
/// destroyed; this layer neither clones nor shares it.
pub struct SessionHandle {
    /// The model's declared input tensor names, in the runtime's reported
    /// order.
    pub input_names: Vec<String>,
    /// The model's declared output tensor names, in the runtime's reported
    /// order.
    pub output_names: Vec<String>,
    /// The runtime's session object, present when the handle came out of a
    /// real commit.
    pub engine: Option<ort::session::Session>,
}

impl SessionHandle {
    /// A handle with the given tensor names and no runtime session behind
    /// it, for owners and diagnostics exercised away from the runtime.
    pub fn from_names(input_names: Vec<String>, output_names: Vec<String>) -> (handle:
        SessionHandle)
        ensures
            handle.input_names == input_names,
            handle.output_names == output_names,
            handle.engine is None,
    {
        SessionHandle { input_names, output_names, engine: None }
    }

    /// Wrap a session the runtime committed, recording the tensor names it
    /// reports. The names come from the runtime and are opaque to contracts
    /// here; everything downstream is verified for whatever they are.
    pub fn from_engine(engine: ort::session::Session) -> (handle: SessionHandle)
        ensures
            handle.engine == Some(engine),
    {
        let input_names = crate::runtime::session_input_names(&engine);
        let output_names = crate::runtime::session_output_names(&engine);
        SessionHandle { input_names, output_names, engine: Some(engine) }
    }
}

} // verus!
