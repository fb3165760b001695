//! Escape-time fractal engine: the escape bookkeeping of the Mandelbrot and
//! Burning Ship recurrences, the tiled render driver that shares one reference
//! orbit per tile, and the mapping of iteration results to RGBA bytes.
//!
//! The arbitrary-precision values themselves are carried through as opaque
//! type parameters: the caller computes them and hands back each outcome.

pub mod color;
pub mod explorer;
pub mod fractal;
