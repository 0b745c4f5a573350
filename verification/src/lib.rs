//! Decision core of a Monte-Carlo ray tracer.
//!
//! The renderer's floating-point arithmetic runs outside this crate; what
//! is verified here is every decision the tracer takes on those numbers:
//! which quadratic root counts as a hit, how a surface normal is oriented,
//! which of a scene's intersections is nearest, when a fuzzy reflection is
//! absorbed, when refraction falls back to reflection, how the recursive
//! trace terminates, and how the frame buffer is partitioned by row.
//! Scalars are carried as order keys (see `scalar`), so each decision is an
//! exact statement about 64-bit integers.

pub mod geometry;
pub mod linalg;
pub mod materials;
pub mod render;
pub mod scalar;
pub mod tracer;
