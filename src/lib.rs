//! Decisions of a build-event stream handler: the event model, the walk from
//! a source path up to its project root, and what to do with each event.
pub mod event;
pub mod path;
pub mod router;
pub mod stream;

pub use event::{
    default_edition, Artifact, ArtifactProfile, BuildScript, Decoded, FromCompiler, Message, Payload,
    Target, TargetKind,
};
