//! Exponentially smoothed transformations.
//!
//! A [`TransformComponent`] holds a current value that eases towards a target
//! value: of the distance between the two, the fraction `retention` is left
//! after one second, `retention * retention` after two, and so on. Several
//! components can be chained with [`TransformComponent::begin`] and
//! `and_then`; finishing the chain with [`Scaffold::drive`] drives each
//! component once and multiplies the matrices that the components project to,
//! the first one attached being applied first.
//!
//! ```ignore
//! use buttery::{Scaffold, TransformComponent, Translate};
//! use glam::{Mat4, Vec3};
//!
//! let mut zoom: TransformComponent<Translate<f32, f32>> = TransformComponent::new_zoom(3.0);
//! let mut position: TransformComponent<Translate<Vec3, f32>> =
//!     TransformComponent::new_translate(Vec3::new(1.0, 3.0, 5.0));
//!
//! // Between frames, move the targets.
//! zoom.target = 4.0;
//! position.target += Vec3::X;
//!
//! // Each frame, with the seconds since the last one:
//! let transform = zoom
//!     .begin(|zoom| Mat4::from_scale(Vec3::ONE * zoom))
//!     .and_then(&mut position, |by| Mat4::from_translation(by))
//!     .drive(0.016, &f32::powf);
//! ```
//!
//! The library is generic in the numbers that it measures time in, the
//! scalars. It needs to count to one, to subtract and, for the preset
//! constructors, to divide. Raising a retention to the power of the elapsed
//! time is left to the caller, who hands in the power function of the scalar
//! type.
//!
//! The contracts describe the arithmetic through the models that `vstd` gives
//! to the operators of `core::ops` (`add_spec`, `sub_spec` and the like). They
//! speak of types whose operators obey those models, as the integers do.

pub mod chain;
pub mod component;
pub mod matrix;
pub mod smoothing;

pub use chain::{Composition, First, Scaffold};
pub use component::TransformComponent;
pub use smoothing::{Smoothed, Translate};
