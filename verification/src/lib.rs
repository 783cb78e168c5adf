//! Fixed-step Runge-Kutta integration of particle systems, generic over the
//! scalar type that carries the arithmetic.
//!
//! A [`ParticleState`] holds the positions and velocities of `N` particles. A
//! [`ParticleSystem`] is a force law: it maps a state to its time-derivative.
//! [`ParticleSystem::rk4_integrate`] advances a state by a span of time in
//! sub-steps of a fixed size.
//!
//! Two force laws come with the library: [`SimpleCircleSystem`], which turns
//! every position about the origin, and [`SolidGravitySystem`], in which the
//! particles attract one another.
//!
//! Nothing here names a concrete number type: the arithmetic is that of a
//! type parameter, a [`Scalar`]. Every function is proved to run to its end
//! on operands that the scalar's operators accept, and the shape of what it
//! returns is stated for every scalar. The values that it returns are stated
//! exactly for scalars whose operators are functions of their operands.

pub mod circle;
pub mod function;
pub mod gravity;
pub mod scalar;
pub mod state;
pub mod system;
pub mod vec3;

pub use circle::SimpleCircleSystem;
pub use gravity::SolidGravitySystem;
pub use scalar::Scalar;
pub use state::{ParticleState, ShapeMismatch, StateModel};
pub use system::ParticleSystem;
pub use vec3::Vec3;
