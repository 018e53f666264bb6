use rigid_kinematics::polar::{AngularPosition, Direction, RATIO_ONE};
use rigid_kinematics::quantity::{Area, Length, Time, Velocity};
use rigid_kinematics::vector2d::{Vector2D, Vector2DOperations};

// Lengths in micrometres and times in milliseconds.
#[test]
fn vector2d_test_arithmetic() {
    let five_meters = Length(5_000_000);
    let two_inches = Length(50_800);
    let four_seconds = Time(4_000);
    let eight = 8i64;

    let v1 = Vector2D::new(five_meters, two_inches);
    let v2 = Vector2D::new(
        Length(five_meters.0 * 2),
        Length(two_inches.0 * 5),
    );

    let v3 = v1.clone().add(v2.clone());
    assert_eq!(v3, Vector2D::new(Length(15_000_000), Length(304_800)));

    let v4 = v1.clone().div(four_seconds.clone());
    assert_eq!(v4, Vector2D::new(Velocity(1_250), Velocity(12)));

    let v5 = v1.clone().mul(eight);
    assert_eq!(v5, Vector2D::new(Length(40_000_000), Length(406_400)));

    let mut v6 = v4.clone();
    let v7 = v6.clone().mul(eight);
    assert_eq!(v7, Vector2D::new(Velocity(10_000), Velocity(96)));

    v6.add_assign(v7);
    assert_eq!(v6, Vector2D::new(Velocity(11_250), Velocity(108)));

    let y = *v6.index(1);
    v6.index_mut(0, y);
    assert_eq!(v6, Vector2D::new(Velocity(108), Velocity(108)));

    let dot_res = v1.clone().dot(v2.clone());
    let hadamard_res = v1.clone().hadamard(v2.clone());
    let cross_res = v1.clone().cross(v2.clone());

    assert_eq!(dot_res, Area(50_000_000_000_000 + 12_903_200_000));
    assert_eq!(
        hadamard_res,
        Vector2D::new(Area(50_000_000_000_000), Area(12_903_200_000))
    );
    assert_eq!(cross_res, Area(1_270_000_000_000 - 508_000_000_000));
}

#[test]
fn sub_and_neg() {
    let a = Vector2D::new(Length(3), Length(-4));
    let b = Vector2D::new(Length(10), Length(2));
    assert_eq!(a.sub(b), Vector2D::new(Length(-7), Length(-6)));
    assert_eq!(a.neg(), Vector2D::new(Length(-3), Length(4)));
    let mut c = a;
    c.sub_assign(b);
    assert_eq!(c, Vector2D::new(Length(-7), Length(-6)));
}

#[test]
fn division_rounds_toward_zero() {
    let a = Vector2D::new(Length(-7), Length(7));
    assert_eq!(a.div(2i64), Vector2D::new(Length(-3), Length(3)));
    let mut b = a;
    b.div_assign(-2i64);
    assert_eq!(b, Vector2D::new(Length(3), Length(-3)));
}

#[test]
fn remainder_takes_sign_of_dividend() {
    let a = Vector2D::new(Length(-7), Length(7));
    assert_eq!(a.rem(Length(3)), Vector2D::new(Length(-1), Length(1)));
    let mut b = a;
    b.rem_assign(Vector2D::new(Length(4), Length(-5)));
    assert_eq!(b, Vector2D::new(Length(-3), Length(2)));
}

#[test]
fn scale_in_place() {
    let mut a = Vector2D::new(Length(2), Length(-3));
    a.mul_assign(5i64);
    assert_eq!(a, Vector2D::new(Length(10), Length(-15)));
}

#[test]
fn velocity_times_time_is_length() {
    let v = Vector2D::new(Velocity(3), Velocity(-2));
    assert_eq!(v.mul(Time(4)), Vector2D::new(Length(12), Length(-8)));
}

#[test]
fn indexing_reads_x_then_y() {
    let a = Vector2D::new(Length(1), Length(2));
    assert_eq!(*a.index(0), Length(1));
    assert_eq!(*a.index(1), Length(2));
    let mut b = a;
    b.index_mut(1, Length(9));
    assert_eq!(b, Vector2D::new(Length(1), Length(9)));
}

#[test]
fn dot_commutes() {
    let a = Vector2D::new(Length(3), Length(-4));
    let b = Vector2D::new(Length(7), Length(5));
    assert_eq!(a.dot(b), b.dot(a));
    assert_eq!(a.dot(b), Area(1));
}

#[test]
fn cross_with_itself_is_zero() {
    let a = Vector2D::new(Length(3), Length(-4));
    assert_eq!(a.cross(a), Area(0));
    let b = Vector2D::new(Length(1), Length(0));
    let c = Vector2D::new(Length(0), Length(1));
    assert_eq!(b.cross(c), Area(1));
    assert_eq!(c.cross(b), Area(-1));
}

#[test]
fn hadamard_commutes_and_distributes() {
    let a = Vector2D::new(Length(3), Length(-4));
    let b = Vector2D::new(Length(7), Length(5));
    let c = Vector2D::new(Length(-2), Length(11));
    assert_eq!(a.hadamard(b), b.hadamard(a));
    assert_eq!(a.hadamard(b.add(c)), a.hadamard(b).add(a.hadamard(c)));
    assert_eq!(a.hadamard(b), Vector2D::new(Area(21), Area(-20)));
}

#[test]
fn radius_is_rounded_down_square_root() {
    let p = Vector2D::new(Length(3), Length(-4)).angular_position(rigid_kinematics::quantity::Angle(7));
    assert_eq!(p.radius, Length(5));
    assert_eq!(p.angle.0, 7);
    let q = Vector2D::new(Length(1), Length(1)).angular_position(rigid_kinematics::quantity::Angle(0));
    assert_eq!(q.radius, Length(1));
    let z = Vector2D::new(Length(0), Length(0)).angular_position(rigid_kinematics::quantity::Angle(0));
    assert_eq!(z.radius, Length(0));
    let big = Vector2D::new(Length(3_000_000_000), Length(4_000_000_000))
        .angular_position(rigid_kinematics::quantity::Angle(0));
    assert_eq!(big.radius, Length(5_000_000_000));
}

fn direction_of(angle_in_microradians: i64) -> Direction {
    let radians = angle_in_microradians as f64 / 1e6;
    Direction {
        sine: (radians.sin() * RATIO_ONE as f64).round() as i64,
        cosine: (radians.cos() * RATIO_ONE as f64).round() as i64,
    }
}

fn polar_angle(x: i64, y: i64) -> i64 {
    ((y as f64).atan2(x as f64) * 1e6).round() as i64
}

#[test]
fn polar_round_trip_on_the_diagonal() {
    // Angles in microradians, as atan2(y, x) gives them.
    for (x, y) in [(3_000i64, 3_000i64), (-5_000, -5_000), (0, 0), (123_456, 123_456)] {
        let v = Vector2D::new(Length(x), Length(y));
        let p = v.angular_position(rigid_kinematics::quantity::Angle(polar_angle(x, y)));
        let back = p.get_position(direction_of(p.angle.0));
        assert!((back.x.0 - x).abs() <= 2, "{:?}", (x, y, back));
        assert!((back.y.0 - y).abs() <= 2, "{:?}", (x, y, back));
    }
}

#[test]
fn polar_round_trip_swaps_axes_off_the_diagonal() {
    let v = Vector2D::new(Length(3_000), Length(4_000));
    let p = v.angular_position(rigid_kinematics::quantity::Angle(polar_angle(3_000, 4_000)));
    assert_eq!(p.radius, Length(5_000));
    let back = p.get_position(direction_of(p.angle.0));
    assert!((back.x.0 - 4_000).abs() <= 2, "{:?}", back);
    assert!((back.y.0 - 3_000).abs() <= 2, "{:?}", back);
}

#[test]
fn polar_angle_zero_points_along_y() {
    let p = AngularPosition::new(rigid_kinematics::quantity::Angle(0), Length(5));
    assert_eq!(p.get_position(direction_of(0)), Vector2D::new(Length(0), Length(5)));
    let q = AngularPosition::new(rigid_kinematics::quantity::Angle(1_570_796), Length(5));
    assert_eq!(q.get_position(direction_of(1_570_796)), Vector2D::new(Length(5), Length(0)));
    let half = Direction { sine: RATIO_ONE / 2, cosine: -RATIO_ONE / 2 };
    assert_eq!(
        AngularPosition::new(rigid_kinematics::quantity::Angle(0), Length(7)).get_position(half),
        Vector2D::new(Length(3), Length(-3))
    );
}
