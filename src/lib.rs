//! Timeline extraction, entity classification and render-loop control for a
//! replay viewer.

pub mod colors;
pub mod timeline;
pub mod map;
pub mod render;
pub mod tracker_events;
