//! Layout and lookup logic of a 2D plotting geometry kernel: the span and
//! sample layout of Catmull-Rom tessellation, glyph anchor lookup, and the
//! decade that a collapsed log-scale range widens to. The arithmetic on
//! coordinates is left to the caller, through the evaluator a tessellation is
//! given.

pub mod anchor;
pub mod scale;
pub mod spline;
