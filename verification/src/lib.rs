//! A two-panel project / to-do manager: per-item time tracking, selection
//! bookkeeping over the two coupled lists, and the keyboard state machine
//! that drives every mutation of the data model.
//!
//! The interactive core lives here, fully verified, together with the
//! canonical text of the persisted JSON document. Terminal rendering and
//! file I/O are collaborators that consume and produce the plain values
//! defined in this crate.

pub mod duration;
pub mod json;
pub mod machine;
pub mod model;
pub mod selection;
pub mod text;
