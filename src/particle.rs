use vstd::prelude::*;

use crate::motion::TranslationalMotion;
use crate::quantity::{Length, Mass, Time};
use crate::vector2d::Vector2D;

verus! {

/// A point mass: translational motion and a mass, without an orientation of
/// its own.
#[derive(Clone, Copy, Debug, PartialEq, Eq, Structural)]
pub struct Particle {
    pub particle_number: usize,
    pub mass: Mass,
    pub translational_motion: TranslationalMotion,
}

impl Particle {
    /// A particle; its position is the one that `translational_motion` holds,
    /// and `_position` is not read.
    pub fn new(
        particle_number: usize,
        _position: Vector2D<Length>,
        mass: Mass,
        translational_motion: TranslationalMotion,
    ) -> (r: Particle)
        ensures
            r.particle_number == particle_number,
            r.mass == mass,
            r.translational_motion == translational_motion,
    {
        Particle { particle_number, mass, translational_motion }
    }

    pub fn freeze(&mut self)
        ensures
            *final(self) == (Particle {
                translational_motion: old(self).translational_motion.spec_freeze(),
                ..*old(self)
            }),
    {
        self.translational_motion.freeze();
    }

    pub fn unfreeze(&mut self)
        ensures
            *final(self) == (Particle {
                translational_motion: old(self).translational_motion.spec_unfreeze(),
                ..*old(self)
            }),
    {
        self.translational_motion.unfreeze();
    }

    pub fn is_frozen(&self) -> (r: bool)
        ensures
            r == (self.translational_motion is Frozen),
    {
        self.translational_motion.is_frozen()
    }

    pub fn toggle_freeze(&mut self)
        ensures
            final(self).particle_number == old(self).particle_number,
            final(self).mass == old(self).mass,
            old(self).translational_motion is Frozen ==> final(self).translational_motion
                == old(self).translational_motion.spec_unfreeze(),
            old(self).translational_motion is Mobile ==> final(self).translational_motion
                == old(self).translational_motion.spec_freeze(),
    {
        if self.is_frozen() {
            self.unfreeze();
        } else {
            self.freeze();
        }
    }

    /// Advances the particle's motion by one Euler step of `delta_time` if it
    /// is mobile; a frozen particle stays as it is.
    pub fn take_step(&mut self, delta_time: Time)
        requires
            old(self).translational_motion.can_advance(delta_time),
        ensures
            final(self).particle_number == old(self).particle_number,
            final(self).mass == old(self).mass,
            old(self).translational_motion is Frozen ==> *final(self) == *old(self),
            old(self).translational_motion is Mobile ==> final(self).translational_motion is Mobile
                && old(self).translational_motion.payload().is_step(
                final(self).translational_motion.payload(),
                delta_time,
            ),
    {
        self.translational_motion.advance(delta_time);
    }

    /// The particle's current position, whether it is frozen or mobile.
    pub fn position(&self) -> (r: Vector2D<Length>)
        ensures
            r == self.translational_motion.payload().position,
    {
        self.translational_motion.position()
    }
}

} // verus!
