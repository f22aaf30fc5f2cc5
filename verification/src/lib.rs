//! A CPU-side progressive path tracer core: ray/scene intersection over
//! spheres and planes, a stylized material model, weighted reservoir
//! sampling for direct light selection, and frame-to-frame progressive
//! accumulation, all computed in 16.16 fixed-point arithmetic so that every
//! numeric step has an exact, machine-checked meaning (no NaN or infinity
//! can arise; degenerate denominators are guarded and saturate instead).
//!
//! The main proved statements, beyond each function's exact contract: the
//! scene aggregate returns the global-minimum-t hit, and a returned
//! record's parameter always lies in the queried half-open interval
//! (`scene`); an exact root of the sphere quadratic places the hit point
//! exactly on the sphere, and the computed fixed-point root nearly zeroes
//! that quadratic, with an explicit residual bound (`shape`); a ray aimed
//! away from a sphere, or parallel to a plane, never hits (`shape`); the
//! reservoir's counters and replacement rule follow the streaming
//! definition exactly (`reservoir`); and the accumulation merge is a
//! running mean that is stable on a constant image and restarts exactly on
//! invalidation (`render`).

pub mod camera;
pub mod fx;
pub mod hittable;
pub mod light;
pub mod material;
pub mod render;
pub mod reservoir;
mod rng;
pub mod scene;
pub mod shading;
pub mod shape;
pub mod trig;
pub mod vec;
