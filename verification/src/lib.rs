//! Rendering and layout core of a terminal system-metrics dashboard.
//!
//! Given an immutable metrics snapshot and a viewport rectangle, the library
//! partitions the viewport into nested panel regions, classifies percentages
//! into severity tiers, formats metric values, and composes a deterministic
//! sequence of styled text runs. Terminal and OS interaction live outside the
//! library; it consumes and produces plain values only.

pub mod compose;
pub mod format;
pub mod geometry;
pub mod graphs;
pub mod laws;
pub mod processes;
pub mod scheduler;
pub mod runs;
pub mod severity;
pub mod snapshot;
pub mod stats;
