use vstd::prelude::*;

use crate::quantity::{
    Acceleration, Angle, AngularAcceleration, AngularVelocity, Length, Time, Velocity,
    add_quantities, in_range, mul_quantities,
};
use crate::vector2d::{Vector2D, fits, planar_add, planar_scale};

verus! {

/// Position, velocity and acceleration of a point in the plane.
#[derive(Clone, Copy, Debug, PartialEq, Eq, Structural)]
pub struct MobileTranslationalMotion {
    pub position: Vector2D<Length>,
    pub velocity: Vector2D<Velocity>,
    pub acceleration: Vector2D<Acceleration>,
}

/// Translational motion that is either held fixed or integrated over time;
/// both states carry the same kinematic record.
#[derive(Clone, Copy, Debug, PartialEq, Eq, Structural)]
pub enum TranslationalMotion {
    Frozen(MobileTranslationalMotion),
    Mobile(MobileTranslationalMotion),
}

/// Angle, angular velocity and angular acceleration of a rotating body.
#[derive(Clone, Copy, Debug, PartialEq, Eq, Structural)]
pub struct MobileRotationalMotion {
    pub angular_position: Angle,
    pub angular_velocity: AngularVelocity,
    pub angular_acceleration: AngularAcceleration,
}

/// Rotational motion that is either held fixed or integrated over time.
#[derive(Clone, Copy, Debug, PartialEq, Eq, Structural)]
pub enum RotationalMotion {
    Frozen(MobileRotationalMotion),
    Mobile(MobileRotationalMotion),
}

impl MobileTranslationalMotion {
    /// Whether an Euler step of `dt` keeps every count in range.
    pub open spec fn can_step(self, dt: Time) -> bool {
        &&& fits(planar_scale(self.velocity@, dt.0 as int))
        &&& fits(planar_add(self.position@, planar_scale(self.velocity@, dt.0 as int)))
        &&& fits(planar_scale(self.acceleration@, dt.0 as int))
        &&& fits(planar_add(self.velocity@, planar_scale(self.acceleration@, dt.0 as int)))
    }

    /// Whether `next` is `self` after one explicit Euler step of `dt`: the
    /// position moves by the old velocity times `dt`, the velocity by the
    /// acceleration times `dt`, and the acceleration stays.
    pub open spec fn is_step(self, next: Self, dt: Time) -> bool {
        &&& next.position@ == planar_add(self.position@, planar_scale(self.velocity@, dt.0 as int))
        &&& next.velocity@ == planar_add(
            self.velocity@,
            planar_scale(self.acceleration@, dt.0 as int),
        )
        &&& next.acceleration == self.acceleration
    }

    /// One explicit Euler step of `dt`.
    pub fn step(&mut self, dt: Time)
        requires
            old(self).can_step(dt),
        ensures
            old(self).is_step(*final(self), dt),
    {
        self.position = self.position.add(self.velocity.mul(dt));
        self.velocity = self.velocity.add(self.acceleration.mul(dt));
    }
}

impl MobileRotationalMotion {
    /// Whether an Euler step of `dt` keeps every count in range.
    pub open spec fn can_step(self, dt: Time) -> bool {
        &&& in_range(self.angular_velocity.0 * dt.0)
        &&& in_range(self.angular_position.0 + self.angular_velocity.0 * dt.0)
        &&& in_range(self.angular_acceleration.0 * dt.0)
        &&& in_range(self.angular_velocity.0 + self.angular_acceleration.0 * dt.0)
    }

    /// Whether `next` is `self` after one explicit Euler step of `dt`.
    pub open spec fn is_step(self, next: Self, dt: Time) -> bool {
        &&& next.angular_position.0 == self.angular_position.0 + self.angular_velocity.0 * dt.0
        &&& next.angular_velocity.0 == self.angular_velocity.0 + self.angular_acceleration.0 * dt.0
        &&& next.angular_acceleration == self.angular_acceleration
    }

    /// One explicit Euler step of `dt`.
    pub fn step(&mut self, dt: Time)
        requires
            old(self).can_step(dt),
        ensures
            old(self).is_step(*final(self), dt),
    {
        self.angular_position = add_quantities(
            self.angular_position,
            mul_quantities(self.angular_velocity, dt),
        );
        self.angular_velocity = add_quantities(
            self.angular_velocity,
            mul_quantities(self.angular_acceleration, dt),
        );
    }
}

impl TranslationalMotion {
    /// The kinematic record, whichever the state.
    pub open spec fn payload(self) -> MobileTranslationalMotion {
        match self {
            TranslationalMotion::Frozen(m) => m,
            TranslationalMotion::Mobile(m) => m,
        }
    }

    pub open spec fn spec_freeze(self) -> Self {
        TranslationalMotion::Frozen(self.payload())
    }

    pub open spec fn spec_unfreeze(self) -> Self {
        TranslationalMotion::Mobile(self.payload())
    }

    /// Whether `advance` by `dt` keeps every count in range; a frozen motion
    /// never moves.
    pub open spec fn can_advance(self, dt: Time) -> bool {
        self is Mobile ==> self.payload().can_step(dt)
    }

    pub fn freeze(&mut self)
        ensures
            *final(self) == old(self).spec_freeze(),
    {
        if let TranslationalMotion::Mobile(m) = *self {
            *self = TranslationalMotion::Frozen(m);
        }
    }

    pub fn unfreeze(&mut self)
        ensures
            *final(self) == old(self).spec_unfreeze(),
    {
        if let TranslationalMotion::Frozen(m) = *self {
            *self = TranslationalMotion::Mobile(m);
        }
    }

    pub fn is_frozen(&self) -> (r: bool)
        ensures
            r == (*self is Frozen),
    {
        match self {
            TranslationalMotion::Frozen(_) => true,
            TranslationalMotion::Mobile(_) => false,
        }
    }

    pub fn toggle_freeze(&mut self)
        ensures
            (*old(self)) is Frozen ==> *final(self) == old(self).spec_unfreeze(),
            (*old(self)) is Mobile ==> *final(self) == old(self).spec_freeze(),
    {
        if self.is_frozen() {
            self.unfreeze();
        } else {
            self.freeze();
        }
    }

    /// Advances a mobile motion by one Euler step of `dt`; a frozen one is
    /// left as it is.
    pub fn advance(&mut self, dt: Time)
        requires
            old(self).can_advance(dt),
        ensures
            (*old(self)) is Frozen ==> *final(self) == *old(self),
            (*old(self)) is Mobile ==> (*final(self)) is Mobile && old(self).payload().is_step(
                final(self).payload(),
                dt,
            ),
    {
        if let TranslationalMotion::Mobile(m) = self {
            m.step(dt);
        }
    }

    /// The current position, whichever the state.
    pub fn position(&self) -> (r: Vector2D<Length>)
        ensures
            r == self.payload().position,
    {
        match self {
            TranslationalMotion::Frozen(m) => m.position,
            TranslationalMotion::Mobile(m) => m.position,
        }
    }
}

impl RotationalMotion {
    /// The kinematic record, whichever the state.
    pub open spec fn payload(self) -> MobileRotationalMotion {
        match self {
            RotationalMotion::Frozen(m) => m,
            RotationalMotion::Mobile(m) => m,
        }
    }

    pub open spec fn spec_freeze(self) -> Self {
        RotationalMotion::Frozen(self.payload())
    }

    pub open spec fn spec_unfreeze(self) -> Self {
        RotationalMotion::Mobile(self.payload())
    }

    /// Whether `advance` by `dt` keeps every count in range.
    pub open spec fn can_advance(self, dt: Time) -> bool {
        self is Mobile ==> self.payload().can_step(dt)
    }

    pub fn freeze(&mut self)
        ensures
            *final(self) == old(self).spec_freeze(),
    {
        if let RotationalMotion::Mobile(m) = *self {
            *self = RotationalMotion::Frozen(m);
        }
    }

    pub fn unfreeze(&mut self)
        ensures
            *final(self) == old(self).spec_unfreeze(),
    {
        if let RotationalMotion::Frozen(m) = *self {
            *self = RotationalMotion::Mobile(m);
        }
    }

    pub fn is_frozen(&self) -> (r: bool)
        ensures
            r == (*self is Frozen),
    {
        match self {
            RotationalMotion::Frozen(_) => true,
            RotationalMotion::Mobile(_) => false,
        }
    }

    pub fn toggle_freeze(&mut self)
        ensures
            (*old(self)) is Frozen ==> *final(self) == old(self).spec_unfreeze(),
            (*old(self)) is Mobile ==> *final(self) == old(self).spec_freeze(),
    {
        if self.is_frozen() {
            self.unfreeze();
        } else {
            self.freeze();
        }
    }

    /// Advances a mobile motion by one Euler step of `dt`; a frozen one is
    /// left as it is.
    pub fn advance(&mut self, dt: Time)
        requires
            old(self).can_advance(dt),
        ensures
            (*old(self)) is Frozen ==> *final(self) == *old(self),
            (*old(self)) is Mobile ==> (*final(self)) is Mobile && old(self).payload().is_step(
                final(self).payload(),
                dt,
            ),
    {
        if let RotationalMotion::Mobile(m) = self {
            m.step(dt);
        }
    }

    /// The current angle, whichever the state.
    pub fn angle(&self) -> (r: Angle)
        ensures
            r == self.payload().angular_position,
    {
        match self {
            RotationalMotion::Frozen(m) => m.angular_position,
            RotationalMotion::Mobile(m) => m.angular_position,
        }
    }
}

/// Freezing and unfreezing keep the kinematic record: unfreezing a frozen
/// motion and freezing it again gives it back, and so does freezing a mobile
/// motion and unfreezing it again.
pub proof fn lemma_translational_freeze_round_trip(m: TranslationalMotion)
    ensures
        m is Frozen ==> m.spec_unfreeze().spec_freeze() == m,
        m is Mobile ==> m.spec_freeze().spec_unfreeze() == m,
{
}

/// Freezing and unfreezing keep the rotational record: each undoes the other.
pub proof fn lemma_rotational_freeze_round_trip(m: RotationalMotion)
    ensures
        m is Frozen ==> m.spec_unfreeze().spec_freeze() == m,
        m is Mobile ==> m.spec_freeze().spec_unfreeze() == m,
{
}

} // verus!
