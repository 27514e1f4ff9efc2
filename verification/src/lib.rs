//! Source lifecycle and resilience orchestrator for a grid video wall.
//!
//! The library computes the grid layout for a fixed-resolution display,
//! turns each configured source into a typed description of its media
//! subgraph, classifies the asynchronous events that the media runtime
//! reports, and drives the race-free restart protocol that replaces a
//! failed source's subgraph without disturbing its siblings.  The media
//! runtime itself (decoding, compositing, the display write path) is an
//! external collaborator: the surrounding program performs those calls
//! and feeds their outcomes back into the state machine defined here.

pub mod bytes;
pub mod dispatch;
pub mod ids;
pub mod layout;
pub mod orchestrator;
pub mod pixel;
pub mod plan;
pub mod snapshot;
pub mod source;
