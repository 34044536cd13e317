//! The errors of report processing.
use vstd::prelude::*;

verus! {

/// An error of report processing.
#[derive(Debug)]
pub enum ReportError {
    /// The input is not JSON, or not a SARIF log of the expected shape.
    JsonError(serde_json::Error),
    /// The Markdown generator failed.
    GeneratorError(GeneratorError),
}

/// An error of a Markdown generator.
#[derive(Debug)]
pub enum GeneratorError {
    /// A template could not be rendered; the text says why.
    TemplateError(String),
}

/// An error of builder configuration.
#[derive(Debug, PartialEq, Eq, Structural)]
pub enum BuilderError {
    /// The builder was given no content.
    MissingContent,
}

impl BuilderError {
    /// The error's message.
    pub fn message(&self) -> (r: String)
        ensures
            r@ == "Content was not provided"@,
    {
        match self {
            BuilderError::MissingContent => String::from_str("Content was not provided"),
        }
    }
}

} // verus!
