//! A small versioned manifest for a tracked GitHub repository: the version
//! model, the manifest record, the remote location, and the decisions of the
//! controller that bumps the version or reconciles it with the remote.

pub mod decimal;
pub mod error;
pub mod manifest;
pub mod operation;
pub mod remote;
pub mod run;
pub mod segment;
pub mod sync;
pub mod text;
pub mod version;
