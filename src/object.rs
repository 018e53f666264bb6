use vstd::prelude::*;

use crate::motion::{RotationalMotion, TranslationalMotion};
use crate::quantity::{Angle, Length, Mass};
use crate::vector2d::Vector2D;

verus! {

/// A rigid body: translational and rotational motion, and a mass; a body
/// without a mass is an immovable reference body.
#[derive(Clone, Copy, Debug, PartialEq, Eq, Structural)]
pub struct Object {
    pub object_number: usize,
    pub mass: Option<Mass>,
    pub translational_motion: TranslationalMotion,
    pub rotational_motion: RotationalMotion,
}

impl Object {
    pub fn new(
        object_number: usize,
        mass: Option<Mass>,
        translational_motion: TranslationalMotion,
        rotational_motion: RotationalMotion,
    ) -> (r: Self)
        ensures
            r.object_number == object_number,
            r.mass == mass,
            r.translational_motion == translational_motion,
            r.rotational_motion == rotational_motion,
    {
        Self { object_number, mass, translational_motion, rotational_motion }
    }

    /// The body's current pose: its position and its angle, whether its
    /// motions are frozen or mobile.
    pub fn position_info(&self) -> (r: (Vector2D<Length>, Angle))
        ensures
            r.0 == self.translational_motion.payload().position,
            r.1 == self.rotational_motion.payload().angular_position,
    {
        (self.translational_motion.position(), self.rotational_motion.angle())
    }
}

} // verus!
