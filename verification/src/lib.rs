//! Sidereal chart computation: calibrated longitude normalization, zodiac
//! signs, Placidus house assignment, derived points (Part of Fortune, Vertex)
//! and pairwise aspect detection with orb rules.
//!
//! Every angle is an ecliptic longitude in micro-degrees (1 degree =
//! 1_000_000), wrapped into `[0, 360_000_000)`. The ephemeris engine itself is
//! an external oracle: callers sample it and hand its raw readouts to the
//! chart builder as plain integers.

pub mod angle;
pub mod aspects;
pub mod builder;
pub mod formatter;
pub mod chart;
pub mod text;
