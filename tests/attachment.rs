use std::rc::Rc;

use rigid_kinematics::attachment::ObjectAttachment;
use rigid_kinematics::motion::{
    MobileRotationalMotion, MobileTranslationalMotion, RotationalMotion, TranslationalMotion,
};
use rigid_kinematics::object::Object;
use rigid_kinematics::particle::Particle;
use rigid_kinematics::polar::{AngularPosition, Direction, RATIO_ONE};
use rigid_kinematics::quantity::{
    Acceleration, Angle, AngularAcceleration, AngularVelocity, Length, Mass, Velocity,
};
use rigid_kinematics::vector2d::Vector2D;

// Angles in microradians.
const QUARTER_TURN: i64 = 1_570_796;

fn direction_of(angle: Angle) -> Direction {
    let radians = angle.0 as f64 / 1e6;
    Direction {
        sine: (radians.sin() * RATIO_ONE as f64).round() as i64,
        cosine: (radians.cos() * RATIO_ONE as f64).round() as i64,
    }
}

fn body_at(x: i64, y: i64, rotation: i64) -> Object {
    Object::new(
        1,
        Some(Mass(10)),
        TranslationalMotion::Mobile(MobileTranslationalMotion {
            position: Vector2D::new(Length(x), Length(y)),
            velocity: Vector2D::new(Velocity(0), Velocity(0)),
            acceleration: Vector2D::new(Acceleration(0), Acceleration(0)),
        }),
        RotationalMotion::Frozen(MobileRotationalMotion {
            angular_position: Angle(rotation),
            angular_velocity: AngularVelocity(0),
            angular_acceleration: AngularAcceleration(0),
        }),
    )
}

fn attach(body: Object, angle: i64, radius: i64) -> ObjectAttachment {
    let particle = Particle::new(
        2,
        Vector2D::new(Length(0), Length(0)),
        Mass(1),
        body.translational_motion,
    );
    ObjectAttachment::new(
        Rc::new(particle),
        Rc::new(body),
        AngularPosition::new(Angle(angle), Length(radius)),
    )
}

#[test]
fn body_at_origin_rotated_a_quarter_turn() {
    let a = attach(body_at(0, 0, 0), 0, 5);
    assert_eq!(
        a.get_actual_attachment_point_position(direction_of),
        Vector2D::new(Length(0), Length(5))
    );
    let b = attach(body_at(0, 0, QUARTER_TURN), 0, 5);
    assert_eq!(
        b.get_actual_attachment_point_position(direction_of),
        Vector2D::new(Length(5), Length(0))
    );
}

#[test]
fn body_at_ten_ten_with_radius_two() {
    let a = attach(body_at(10, 10, 0), 0, 2);
    assert_eq!(
        a.get_actual_attachment_point_position(direction_of),
        Vector2D::new(Length(10), Length(12))
    );
    let b = attach(body_at(10, 10, QUARTER_TURN), 0, 2);
    assert_eq!(
        b.get_actual_attachment_point_position(direction_of),
        Vector2D::new(Length(12), Length(10))
    );
}

#[test]
fn translation_moves_the_point_by_the_same_amount() {
    let offset_angle = 400_000;
    let a = attach(body_at(0, 0, 250_000), offset_angle, 1_000);
    let b = attach(body_at(-37, 81, 250_000), offset_angle, 1_000);
    let pa = a.get_actual_attachment_point_position(direction_of);
    let pb = b.get_actual_attachment_point_position(direction_of);
    assert_eq!(pb, pa.add(Vector2D::new(Length(-37), Length(81))));
}

#[test]
fn offset_turns_with_the_body() {
    let a = attach(body_at(3, 4, 250_000), 400_000, 9);
    let offset = a.actual_offset();
    assert_eq!(offset.angle, Angle(650_000));
    assert_eq!(offset.radius, Length(9));
}

#[test]
fn point_follows_the_live_body() {
    let body = Rc::new(body_at(10, 10, 0));
    let particle = Rc::new(Particle::new(
        2,
        Vector2D::new(Length(0), Length(0)),
        Mass(1),
        body.translational_motion,
    ));
    let first = ObjectAttachment::new(
        particle.clone(),
        body.clone(),
        AngularPosition::new(Angle(0), Length(2)),
    );
    let second = ObjectAttachment::new(
        particle,
        body,
        AngularPosition::new(Angle(QUARTER_TURN), Length(2)),
    );
    assert_eq!(
        first.get_actual_attachment_point_position(direction_of),
        Vector2D::new(Length(10), Length(12))
    );
    assert_eq!(
        second.get_actual_attachment_point_position(direction_of),
        Vector2D::new(Length(12), Length(10))
    );
}
