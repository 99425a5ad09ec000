use vstd::prelude::*;

verus! {

/// What can go wrong while turning artifacts into a verifier module.
#[derive(Debug, Clone, Copy, PartialEq, Eq, Structural)]
pub enum ConvertError {
    /// A required setting (an input or output path) is missing.
    ConfigurationError,
    /// A file could not be read or written, or the output could not be staged.
    IOError,
    /// A field element is empty or holds a character that is not a decimal digit.
    MalformedNumber,
    /// An artifact does not have the expected shape (missing key, wrong arity).
    MalformedArtifact,
    /// The template is unreadable or lacks a placeholder.
    TemplateError,
}

impl ConvertError {
    /// A short name of the failure, for messages.
    pub fn name(&self) -> (r: &'static str) {
        match self {
            ConvertError::ConfigurationError => "ConfigurationError",
            ConvertError::IOError => "IOError",
            ConvertError::MalformedNumber => "MalformedNumber",
            ConvertError::MalformedArtifact => "MalformedArtifact",
            ConvertError::TemplateError => "TemplateError",
        }
    }
}

} // verus!
