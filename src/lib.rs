//! Timing-correlation engine for opposed movement inputs.
//!
//! Level-sampled input is turned into press/release edges, the gaps and
//! overlaps between the two movement channels are measured and classified,
//! and a classification is correlated with a later trigger press inside a
//! bounded validity window.
pub mod classify;
pub mod edge;
pub mod correlator;
pub mod layout;
pub mod timer;
pub mod engine;
