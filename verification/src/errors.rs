use vstd::prelude::*;

verus! {

/// Why one load attempt failed. Every variant is terminal to the call and
/// carries the runtime's own error text; nothing is retried and nothing is
/// swallowed at this layer.
#[derive(Debug)]
pub enum LoadError {
    /// The runtime could not allocate a session builder.
    BuilderCreation(String),
    /// The runtime rejected the resolved provider set (for example, a
    /// provider that this platform cannot supply).
    ProviderAttach(String),
    /// The runtime could not parse or load the file as a valid model
    /// (missing file, corrupt format, incompatible graph).
    Commit(String),
}

impl LoadError {
    /// The full diagnostic message: a short prefix naming the failed stage,
    /// wrapped around the runtime's own text.
    pub open spec fn spec_message(&self) -> Seq<char> {
        match self {
            LoadError::BuilderCreation(text) => "Failed to create session builder: "@ + text@,
            LoadError::ProviderAttach(text) => "Failed to build session: "@ + text@,
            LoadError::Commit(text) => "Failed to commit from file: "@ + text@,
        }
    }

    /// Render the error as its full diagnostic message.
    pub fn message(&self) -> (rendered: String)
        ensures
            rendered@ == self.spec_message(),
    {
        match self {
            LoadError::BuilderCreation(text) => String::from_str(
                "Failed to create session builder: ",
            ).concat(text.as_str()),
            LoadError::ProviderAttach(text) => String::from_str(
                "Failed to build session: ",
            ).concat(text.as_str()),
            LoadError::Commit(text) => String::from_str(
                "Failed to commit from file: ",
            ).concat(text.as_str()),
        }
    }
}

} // verus!
