use std::rc::Rc;

use vstd::prelude::*;

use crate::object::Object;
use crate::particle::Particle;
use crate::polar::{AngularPosition, Direction, polar_to_planar};
use crate::quantity::{Angle, Length, add_quantities, in_range};
use crate::vector2d::{Vector2D, planar_add, planar_sub};

verus! {

/// A particle held rigidly to a body at a polar offset from the body's centre
/// of mass, measured in the body's own frame.
///
/// The attachment owns neither end; its point in space is derived from the
/// body's pose whenever it is asked for, never stored.
pub struct ObjectAttachment {
    pub particle: Rc<Particle>,
    pub object: Rc<Object>,
    pub attachment_point_relative_to_object_center_of_mass: AngularPosition,
}

/// The angle of an offset of angle `offset` on a body turned by `rotation`.
pub open spec fn effective_angle(offset: int, rotation: int) -> int {
    offset + rotation
}

/// The point in space at `radius` in `direction` from a body at `position`.
pub open spec fn attachment_point(
    position: (int, int),
    radius: int,
    direction: Direction,
) -> (int, int) {
    planar_add(position, polar_to_planar(radius, direction))
}

impl ObjectAttachment {
    pub fn new(
        particle: Rc<Particle>,
        object: Rc<Object>,
        attachment_point_relative_to_object_center_of_mass: AngularPosition,
    ) -> (r: ObjectAttachment)
        ensures
            r.particle == particle,
            r.object == object,
            r.attachment_point_relative_to_object_center_of_mass
                == attachment_point_relative_to_object_center_of_mass,
    {
        ObjectAttachment { particle, object, attachment_point_relative_to_object_center_of_mass }
    }

    pub open spec fn offset(&self) -> AngularPosition {
        self.attachment_point_relative_to_object_center_of_mass
    }

    /// The body's current rotation.
    pub open spec fn rotation(&self) -> Angle {
        self.object.rotational_motion.payload().angular_position
    }

    /// The body's current position.
    pub open spec fn body_position(&self) -> Vector2D<Length> {
        self.object.translational_motion.payload().position
    }

    /// Whether the point can be computed with every count in range.
    pub open spec fn can_locate(&self) -> bool {
        let p = self.body_position()@;
        let r = self.offset().radius.0 as int;
        &&& r >= 0
        &&& in_range(effective_angle(self.offset().angle.0 as int, self.rotation().0 as int))
        &&& in_range(p.0 - r) && in_range(p.0 + r)
        &&& in_range(p.1 - r) && in_range(p.1 + r)
    }

    /// The offset in the space frame: the stored angle turned by the body's
    /// current rotation, at the same radius.
    pub fn actual_offset(&self) -> (r: AngularPosition)
        requires
            in_range(effective_angle(self.offset().angle.0 as int, self.rotation().0 as int)),
        ensures
            r.angle.0 == effective_angle(self.offset().angle.0 as int, self.rotation().0 as int),
            r.radius == self.offset().radius,
    {
        let (_, rotation) = self.object.position_info();
        let offset = self.attachment_point_relative_to_object_center_of_mass;
        AngularPosition::new(add_quantities(offset.angle, rotation), offset.radius)
    }

    /// The attachment point in space, from the body's live pose: the offset
    /// is turned by the body's rotation, made Cartesian, and added to the
    /// body's position. `direction_of` gives the sine and cosine of an angle.
    pub fn get_actual_attachment_point_position<F: Fn(Angle) -> Direction>(
        &self,
        direction_of: F,
    ) -> (r: Vector2D<Length>)
        requires
            self.can_locate(),
            forall|a: Angle| direction_of.requires((a,)),
            forall|a: Angle, d: Direction| direction_of.ensures((a,), d) ==> d.wf(),
        ensures
            exists|d: Direction|
                {
                    &&& direction_of.ensures(
                        (Angle(
                            effective_angle(
                                self.offset().angle.0 as int,
                                self.rotation().0 as int,
                            ) as i64,
                        ),),
                        d,
                    )
                    &&& r@ == attachment_point(
                        self.body_position()@,
                        self.offset().radius.0 as int,
                        d,
                    )
                },
    {
        let (object_position, _) = self.object.position_info();
        let relative_to_space = self.actual_offset();
        let direction = direction_of(relative_to_space.angle);
        let offset = relative_to_space.get_position(direction);
        let r = object_position.add(offset);
        assert(relative_to_space.angle == Angle(
            effective_angle(self.offset().angle.0 as int, self.rotation().0 as int) as i64,
        ));
        assert(r@ == attachment_point(
            self.body_position()@,
            self.offset().radius.0 as int,
            direction,
        ));
        r
    }
}

/// Moving the body without turning it moves the attachment point by the same
/// amount: for two attachments with one offset on bodies with one rotation,
/// the angle handed to the trigonometry is the same, and the points, for that
/// angle's direction, lie as far apart as the bodies.
pub proof fn lemma_attachment_follows_translation(
    a: ObjectAttachment,
    b: ObjectAttachment,
    direction: Direction,
)
    requires
        a.offset() == b.offset(),
        a.rotation() == b.rotation(),
    ensures
        effective_angle(b.offset().angle.0 as int, b.rotation().0 as int) == effective_angle(
            a.offset().angle.0 as int,
            a.rotation().0 as int,
        ),
        attachment_point(b.body_position()@, b.offset().radius.0 as int, direction) == planar_add(
            attachment_point(a.body_position()@, a.offset().radius.0 as int, direction),
            planar_sub(b.body_position()@, a.body_position()@),
        ),
{
}

/// Turning the body turns the offset with it: for two attachments with one
/// offset on bodies at one position, the angle handed to the trigonometry
/// differs by exactly the difference of the bodies' rotations, at the same
/// radius from the same centre.
pub proof fn lemma_attachment_follows_rotation(a: ObjectAttachment, b: ObjectAttachment)
    requires
        a.offset() == b.offset(),
        a.body_position() == b.body_position(),
    ensures
        effective_angle(b.offset().angle.0 as int, b.rotation().0 as int) == effective_angle(
            a.offset().angle.0 as int,
            a.rotation().0 as int,
        ) + (b.rotation().0 - a.rotation().0),
        forall|d: Direction|
            attachment_point(b.body_position()@, b.offset().radius.0 as int, d) == attachment_point(
                a.body_position()@,
                a.offset().radius.0 as int,
                d,
            ),
{
}

} // verus!
