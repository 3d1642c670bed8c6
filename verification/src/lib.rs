//! Camera-rig and input-to-orientation pipeline for a first/third-person
//! 3D scene, modelled over fixed-point integers.
//!
//! Angles are kept in millidegrees, positions and lengths in thousandths of a
//! world unit, so every rule of the controller (pitch clamping, yaw
//! accumulation and re-homing, movement-intent resolution, cursor capture, and
//! third-person camera reprojection) is exact integer arithmetic with a
//! proved contract. The engine services around the controller (windowing,
//! rendering, raw input events, trigonometry for quaternion construction)
//! live outside this crate and exchange plain values with it.
//!
//! The per-tick pipeline runs in a fixed order: the capture machine
//! (`capture`) decides whether the controllers are live; the input sampler
//! (`look`, `input`) drains the tick's mouse motion and resolves held keys;
//! the look controller (`look`) accumulates wrapped yaw and clamped pitch on
//! the head; the move controller (`movement`) re-homes the body yaw exactly
//! once, then integrates the rescaled movement direction. Outside the tick
//! loop, `camera` switches the active camera and reprojects the third-person
//! offset when its distance is edited, and `hierarchy` with `rig` holds the
//! transform tree the poses live in. `fixed` and `vec3` carry the shared
//! fixed-point arithmetic.

pub mod camera;
pub mod capture;
pub mod fixed;
pub mod hierarchy;
pub mod input;
pub mod look;
pub mod movement;
pub mod rig;
pub mod vec3;
