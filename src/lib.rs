//! Two-dimensional kinematics of rigid bodies and point masses, over
//! dimensioned whole-unit quantities: planar and `N`-dimensional vector
//! algebra, frozen and mobile motion stepped by explicit Euler integration,
//! and particles attached rigidly to rotating bodies.

pub mod quantity;
pub mod vector2d;
pub mod linear_algebra;
pub mod motion;
pub mod polar;
pub mod object;
pub mod particle;
pub mod attachment;
