//! Planning core of a dense matrix-multiply engine.
//!
//! The engine computes `D <- alpha * D + beta * op_l(L) * op_r(R)` for the
//! real element types f32 and f64 and the complex types c32 and c64. The
//! numeric work itself is done by straight-line SIMD microkernels that an
//! offline generator emits; this crate holds everything around them that can
//! be stated and proved exactly:
//!
//! * [`plan`]: the immutable `Plan` descriptor — ISA tier, register-tile
//!   shape, microkernel table indices, mask indices, millikernel strategy and
//!   stride witnesses — together with its per-type constructors.
//! * [`masks`]: the per-lane enable masks used by masked stores on the
//!   trailing M-edge, and the proof that the enabled lanes are exactly the
//!   rows that lie inside the matrix.
//! * [`walk`]: the tile walks of the two blocked millikernels, as explicit
//!   block descriptors with proofs that they cover the problem exactly once.

pub mod masks;
pub mod plan;
pub mod walk;

pub use plan::MicroKernelData;
pub use plan::Plan;
