//! Verified core of a media-player widget library: a playback data model,
//! a state reconciler that turns UI state changes into pipeline commands
//! without seek feedback loops, a single-slot frame handoff buffer, and
//! letterbox geometry for rendering video inside a container rectangle.
//!
//! The surrounding GUI toolkit and the media engine are external
//! collaborators: the unverified shell constructs widgets and a pipeline,
//! executes the commands this library decides on, and feeds engine
//! observations (positions, durations, decoded frames) back in as plain
//! values.

use vstd::prelude::*;

pub mod controller;
pub mod pipeline_data;
pub mod video;

pub use controller::Controller;
pub use pipeline_data::{PipelineData, PipelineState, Timeline};
pub use video::{Frame, FrameSlot, VideoRect};

verus! {

/// Failure while constructing a media pipeline, reported by the engine
/// shell when it cannot build or prepare the underlying element graph.
#[derive(Copy, Clone, Eq, PartialEq, Structural, Debug)]
pub enum PipelineCreationError {
    /// The engine could not create or configure an element.
    Glib,
    /// The engine refused the initial state change.
    StateChange,
}

} // verus!
