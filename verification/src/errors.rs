//! The pipeline's error taxonomy.
//!
//! Every failure a component can report is one of these variants; each carries
//! the context (a URL, a path, or an asset prefix) that a caller needs to form
//! a readable message.  No error is swallowed or retried inside the library.

use vstd::prelude::*;

verus! {

/// An error of the artifact build pipeline.
#[derive(Debug)]
pub enum PipelineError {
    /// The request could not be sent, or the server answered with a
    /// non-success status.  Carries the URL.
    Network(String),
    /// The server did not advertise a content length.  Carries the URL.
    MissingLength(String),
    /// The body stream yielded a read error mid-transfer.  Carries the URL.
    Transfer(String),
    /// A filesystem create/open/permission operation failed.  Carries the path.
    Io(String),
    /// A JSON document could not be parsed.  Carries the URL it came from.
    Parse(String),
    /// No release asset name starts with the requested prefix.  Carries the
    /// prefix.
    AssetNotFound(String),
    /// The output path is already occupied; the pipeline never overwrites.
    /// Carries the path.
    AlreadyExists(String),
    /// A referenced input path does not exist.  Carries the path.
    NotFound(String),
    /// A subprocess failed, or an archive could not be constructed.  Carries
    /// a description.
    Build(String),
}

impl PipelineError {
    /// The context string the error was raised with.
    pub fn context(&self) -> (r: &String)
        ensures
            r@ == self.context_spec(),
    {
        match self {
            PipelineError::Network(s) => s,
            PipelineError::MissingLength(s) => s,
            PipelineError::Transfer(s) => s,
            PipelineError::Io(s) => s,
            PipelineError::Parse(s) => s,
            PipelineError::AssetNotFound(s) => s,
            PipelineError::AlreadyExists(s) => s,
            PipelineError::NotFound(s) => s,
            PipelineError::Build(s) => s,
        }
    }

    /// What `context` returns, variant by variant.
    pub open spec fn context_spec(&self) -> Seq<char> {
        match self {
            PipelineError::Network(s) => s@,
            PipelineError::MissingLength(s) => s@,
            PipelineError::Transfer(s) => s@,
            PipelineError::Io(s) => s@,
            PipelineError::Parse(s) => s@,
            PipelineError::AssetNotFound(s) => s@,
            PipelineError::AlreadyExists(s) => s@,
            PipelineError::NotFound(s) => s@,
            PipelineError::Build(s) => s@,
        }
    }
}

} // verus!
