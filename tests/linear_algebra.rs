use rigid_kinematics::linear_algebra::{DotProduct, MatrixNMD, VectorND};
use rigid_kinematics::quantity::{Absement, Area, Length, Time};

// Lengths in micrometres and times in milliseconds.
#[test]
fn uom_linear_algebra_test_arithmetic() {
    let five_meters = Length(5_000_000);
    let two_inches = Length(50_800);
    let four_seconds = Time(4_000);
    let eight = 8i64;

    let v1 = VectorND::new([five_meters, two_inches, Length(five_meters.0 * eight)]);
    let v2 = VectorND::new([
        Length(two_inches.0 * 100),
        two_inches,
        Length(two_inches.0 * eight),
    ]);

    let res = v1.sub(v2).mul(four_seconds).div(10i64);
    assert_eq!(
        res,
        VectorND::new([Absement(-32_000_000), Absement(0), Absement(15_837_440_000)])
    );
}

#[test]
fn vector_add_sub_neg() {
    let a = VectorND::new([Length(1), Length(-2), Length(3)]);
    let b = VectorND::new([Length(10), Length(20), Length(30)]);
    assert_eq!(a.add(b), VectorND::new([Length(11), Length(18), Length(33)]));
    assert_eq!(a.sub(b), VectorND::new([Length(-9), Length(-22), Length(-27)]));
    assert_eq!(a.neg(), VectorND::new([Length(-1), Length(2), Length(-3)]));
    let mut c = a;
    c.add_assign(b);
    c.sub_assign(a);
    assert_eq!(c, b);
}

#[test]
fn vector_scale_divide_rem() {
    let a = VectorND::new([Length(7), Length(-7), Length(0), Length(12)]);
    assert_eq!(a.mul(3i64), VectorND::new([Length(21), Length(-21), Length(0), Length(36)]));
    assert_eq!(a.div(2i64), VectorND::new([Length(3), Length(-3), Length(0), Length(6)]));
    assert_eq!(a.rem(Length(5)), VectorND::new([Length(2), Length(-2), Length(0), Length(2)]));
    let mut b = a;
    b.mul_assign(2i64);
    b.div_assign(4i64);
    assert_eq!(b, VectorND::new([Length(3), Length(-3), Length(0), Length(6)]));
    b.rem_assign(Length(4));
    assert_eq!(b, VectorND::new([Length(3), Length(-3), Length(0), Length(2)]));
}

#[test]
fn vector_index_and_default() {
    let mut a: VectorND<Length, 3> = VectorND::default();
    assert_eq!(a, VectorND::new([Length(0), Length(0), Length(0)]));
    a.index_mut(2, Length(5));
    assert_eq!(*a.index(2), Length(5));
    assert_eq!(*a.index(0), Length(0));
}

#[test]
fn vector_dot_product() {
    let a = VectorND::new([Length(1), Length(2), Length(3)]);
    let b = VectorND::new([Length(4), Length(-5), Length(6)]);
    assert_eq!(a.dot(b), Area(12));
    assert_eq!(b.dot(a), Area(12));
    let empty: VectorND<Length, 0> = VectorND::new([]);
    assert_eq!(empty.dot(VectorND::<Length, 0>::new([])), Area(0));
}

#[test]
fn matrix_entrywise_operations() {
    let a = MatrixNMD::new([[Length(1), Length(2)], [Length(-3), Length(4)], [Length(5), Length(6)]]);
    let b = MatrixNMD::new([[Length(10), Length(20)], [Length(30), Length(-40)], [Length(2), Length(3)]]);
    assert_eq!(
        a.add(b),
        MatrixNMD::new([[Length(11), Length(22)], [Length(27), Length(-36)], [Length(7), Length(9)]])
    );
    assert_eq!(
        a.neg(),
        MatrixNMD::new([[Length(-1), Length(-2)], [Length(3), Length(-4)], [Length(-5), Length(-6)]])
    );
    assert_eq!(
        a.mul(b),
        MatrixNMD::new([[Area(10), Area(40)], [Area(-90), Area(-160)], [Area(10), Area(18)]])
    );
    assert_eq!(
        b.div(MatrixNMD::new([[3i64, -3], [7, 9], [1, 2]])),
        MatrixNMD::new([[Length(3), Length(-6)], [Length(4), Length(-4)], [Length(2), Length(1)]])
    );
    assert_eq!(
        b.rem(a),
        MatrixNMD::new([[Length(0), Length(0)], [Length(0), Length(0)], [Length(2), Length(3)]])
    );
    assert_eq!(a.get(1, 0), Length(-3));
}

#[test]
fn matrix_in_place_operations() {
    let mut a = MatrixNMD::new([[Length(1), Length(2)], [Length(3), Length(4)]]);
    a.add_assign(MatrixNMD::new([[Length(1), Length(1)], [Length(1), Length(1)]]));
    assert_eq!(a, MatrixNMD::new([[Length(2), Length(3)], [Length(4), Length(5)]]));
    a.mul_assign(MatrixNMD::new([[3i64, 3], [3, 3]]));
    assert_eq!(a, MatrixNMD::new([[Length(6), Length(9)], [Length(12), Length(15)]]));
    a.div_assign(MatrixNMD::new([[4i64, 4], [4, 4]]));
    assert_eq!(a, MatrixNMD::new([[Length(1), Length(2)], [Length(3), Length(3)]]));
    a.rem_assign(MatrixNMD::new([[Length(2), Length(2)], [Length(2), Length(2)]]));
    assert_eq!(a, MatrixNMD::new([[Length(1), Length(0)], [Length(1), Length(1)]]));
}
