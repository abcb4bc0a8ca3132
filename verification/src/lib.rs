//! The decisions of a minimal offline ray tracer.
//!
//! A ray tracer computes with single-precision numbers: dot products,
//! square roots, matrix products. Between the computations it decides:
//! which of two hits is nearer, whether a vector is long enough to have a
//! direction, which row a matrix inversion pivots on, whether a light is
//! hidden, whether a path goes on. The computations are the caller's; the
//! decisions are this library, and each is proved to be what its contract
//! says.
//!
//! Numbers reach the library as the 32 bits of their IEEE 754 binary32
//! encoding, in a [`scalar::Scalar`]. [`scalar`] orders and classifies
//! them, and proves that its order is the order of the numbers encoded.
//! The other modules hold the decisions of one part of the tracer each:
//!
//! - [`vector`]: when a vector can be normalized, and when it is a unit
//!   vector;
//! - [`matrix`]: the pivot of Gauss-Jordan elimination, the singular
//!   matrix, and the parameters of a perspective matrix;
//! - [`sphere`], [`plane`], [`aabb`]: what a ray meets of a solid;
//! - [`light`]: the clamping of irradiance, and occlusion;
//! - [`camera`]: the film's shape and the projection's parameters;
//! - [`scene`]: the nearest hit, and the budget of bounces;
//! - [`axis`], [`dimensions`]: names for axes, and rectangles.
pub mod aabb;
pub mod axis;
pub mod camera;
pub mod dimensions;
pub mod light;
pub mod matrix;
pub mod plane;
pub mod scalar;
pub mod scene;
pub mod sphere;
pub mod vector;
