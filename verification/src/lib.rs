//! Verified core of a model-artifact build pipeline.
//!
//! The library turns a reference to a model weights file (a local path, a
//! remote URL, or a repository/file pair on a model host) into the plans and
//! payloads needed to produce a runnable artifact: either a standalone
//! executable bundling a serving binary with the model, or a container-image
//! build context.  Everything that only moves bytes over the network or the
//! filesystem is left to the (unverified) caller; this crate holds the
//! decisions and the data they rest on, each with a proved contract.

pub mod archive;
pub mod cache;
pub mod download;
pub mod errors;
pub mod image;
pub mod llamafile;
pub mod paths;
pub mod release;
