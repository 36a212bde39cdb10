//! Verified core of the architecture-modelling backend.
//!
//! - [`projects`], [`diagrams`]: the entity stores, with their model in
//!   [`project_model`] and what holds of every state in [`project_laws`].
//! - [`names`], [`filename`], [`text`]: the rules for names and file names.
//! - [`error`]: the error taxonomy and its messages.
//! - [`staging`]: the protocol by which files are staged on disk.
//! - [`jobs`], [`transcription`]: the transcription gateway.
//! - [`export`], [`challenges`], [`folder`], [`samples`], [`version`]: the
//!   remaining commands.
//! - [`model`], [`time`], [`ident`]: the entities, instants and identifiers
//!   that the above share.
//!
//! The library touches neither the disk nor the network. Where an operation
//! needs either, the library decides what is to be done and what a failure
//! is reported as, and the caller does it.

pub mod challenges;
pub mod diagrams;
pub mod error;
pub mod export;
pub mod filename;
pub mod folder;
pub mod ident;
pub mod jobs;
pub mod model;
pub mod names;
pub mod project_laws;
pub mod project_model;
pub mod projects;
pub mod samples;
pub mod staging;
pub mod text;
pub mod time;
pub mod transcription;
pub mod version;
