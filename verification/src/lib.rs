//! Piecewise parametric 2D curves: linear and cubic polynomial segments,
//! continuity-aware construction, arc length by fixed-order quadrature, and
//! inversion of arc length by Newton-Raphson.
//!
//! All coordinates and curve parameters are fixed-point numbers: an `i64`
//! holding `SCALE` raw units per 1.0. Arithmetic saturates at the `i64`
//! bounds, so every operation is a total function of its inputs.

use vstd::prelude::*;

pub mod cubic_segment;
pub mod factories;
pub mod fixed;
pub mod linear_segment;
pub mod spline;
pub mod spline_error;
pub mod spline_segment;
pub mod vector2;

verus! {

} // verus!
