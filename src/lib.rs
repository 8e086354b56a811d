//! Verified core of a small generative-animation sandbox: the layout and
//! colouring of a dense grid of primitives, their per-tick displacement,
//! a left-scrolling curve that grows by one segment per tick, and the
//! validated configuration of the noise fields that drive them.
//!
//! Lengths are integers in a unit that the host chooses (a pixel, or a
//! fraction of one); times are integers in a unit that the host chooses.
//! Sampling the noise fields and evaluating the wave are floating-point work
//! that the host does around this library.

pub mod geometry;
pub mod bands;
pub mod config;
pub mod curve;
pub mod grid;
pub mod sequence;
pub mod tiles;
