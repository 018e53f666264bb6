use vstd::prelude::*;

verus! {

/// Whether an integer fits in the `i64` that stores a quantity's count.
pub open spec fn in_range(v: int) -> bool {
    i64::MIN <= v <= i64::MAX
}

pub open spec fn magnitude(a: int) -> int {
    if a >= 0 {
        a
    } else {
        -a
    }
}

/// Integer division rounded toward zero, as machine division does it.
pub open spec fn trunc_div(a: int, b: int) -> int {
    let q = magnitude(a) / magnitude(b);
    if (a >= 0) == (b > 0) {
        q
    } else {
        -q
    }
}

/// The remainder left by `trunc_div`: it takes the sign of the dividend.
pub open spec fn trunc_rem(a: int, b: int) -> int {
    let r = magnitude(a) % magnitude(b);
    if a >= 0 {
        r
    } else {
        -r
    }
}

/// A scalar physical quantity: a whole number of its dimension's unit.
///
/// Each dimension is a type of its own, so that quantities of different
/// dimensions cannot be mixed; the units of the dimensions are coherent
/// (a velocity unit is one length unit per tick), so that a product or a
/// quotient of counts is the count of the resulting dimension.
pub trait Quantity: Sized + Copy {
    /// The number of units this quantity holds.
    spec fn spec_count(self) -> int;

    fn count(self) -> (r: i64)
        ensures
            r as int == self.spec_count(),
    ;

    fn from_count(c: i64) -> (r: Self)
        ensures
            r.spec_count() == c as int,
    ;
}

/// The dimension of the product of a `Self` and an `Rhs`.
pub trait QuantityMul<Rhs: Quantity>: Quantity {
    type Output: Quantity;
}

/// The dimension of the quotient of a `Self` by an `Rhs`.
pub trait QuantityDiv<Rhs: Quantity>: Quantity {
    type Output: Quantity;
}

/// A plain number is the dimensionless quantity.
impl Quantity for i64 {
    open spec fn spec_count(self) -> int {
        self as int
    }

    fn count(self) -> (r: i64) {
        self
    }

    fn from_count(c: i64) -> (r: Self) {
        c
    }
}

impl QuantityMul<i64> for i64 {
    type Output = i64;
}

impl QuantityDiv<i64> for i64 {
    type Output = i64;
}

/// A length, in whole length units.
#[derive(Clone, Copy, Debug, PartialEq, Eq, Structural)]
pub struct Length(pub i64);

impl Quantity for Length {
    open spec fn spec_count(self) -> int {
        self.0 as int
    }

    fn count(self) -> (r: i64) {
        self.0
    }

    fn from_count(c: i64) -> (r: Self) {
        Length(c)
    }
}

impl QuantityMul<i64> for Length {
    type Output = Length;
}

impl QuantityDiv<i64> for Length {
    type Output = Length;
}

/// An area, in square length units.
#[derive(Clone, Copy, Debug, PartialEq, Eq, Structural)]
pub struct Area(pub i64);

impl Quantity for Area {
    open spec fn spec_count(self) -> int {
        self.0 as int
    }

    fn count(self) -> (r: i64) {
        self.0
    }

    fn from_count(c: i64) -> (r: Self) {
        Area(c)
    }
}

impl QuantityMul<i64> for Area {
    type Output = Area;
}

impl QuantityDiv<i64> for Area {
    type Output = Area;
}

/// An absement (a length held over a time), in length units times ticks.
#[derive(Clone, Copy, Debug, PartialEq, Eq, Structural)]
pub struct Absement(pub i64);

impl Quantity for Absement {
    open spec fn spec_count(self) -> int {
        self.0 as int
    }

    fn count(self) -> (r: i64) {
        self.0
    }

    fn from_count(c: i64) -> (r: Self) {
        Absement(c)
    }
}

impl QuantityMul<i64> for Absement {
    type Output = Absement;
}

impl QuantityDiv<i64> for Absement {
    type Output = Absement;
}

/// A span of time, in whole ticks.
#[derive(Clone, Copy, Debug, PartialEq, Eq, Structural)]
pub struct Time(pub i64);

impl Quantity for Time {
    open spec fn spec_count(self) -> int {
        self.0 as int
    }

    fn count(self) -> (r: i64) {
        self.0
    }

    fn from_count(c: i64) -> (r: Self) {
        Time(c)
    }
}

impl QuantityMul<i64> for Time {
    type Output = Time;
}

impl QuantityDiv<i64> for Time {
    type Output = Time;
}

/// A mass, in whole mass units.
#[derive(Clone, Copy, Debug, PartialEq, Eq, Structural)]
pub struct Mass(pub i64);

impl Quantity for Mass {
    open spec fn spec_count(self) -> int {
        self.0 as int
    }

    fn count(self) -> (r: i64) {
        self.0
    }

    fn from_count(c: i64) -> (r: Self) {
        Mass(c)
    }
}

impl QuantityMul<i64> for Mass {
    type Output = Mass;
}

impl QuantityDiv<i64> for Mass {
    type Output = Mass;
}

/// A velocity component, in length units per tick.
#[derive(Clone, Copy, Debug, PartialEq, Eq, Structural)]
pub struct Velocity(pub i64);

impl Quantity for Velocity {
    open spec fn spec_count(self) -> int {
        self.0 as int
    }

    fn count(self) -> (r: i64) {
        self.0
    }

    fn from_count(c: i64) -> (r: Self) {
        Velocity(c)
    }
}

impl QuantityMul<i64> for Velocity {
    type Output = Velocity;
}

impl QuantityDiv<i64> for Velocity {
    type Output = Velocity;
}

/// An acceleration component, in length units per tick per tick.
#[derive(Clone, Copy, Debug, PartialEq, Eq, Structural)]
pub struct Acceleration(pub i64);

impl Quantity for Acceleration {
    open spec fn spec_count(self) -> int {
        self.0 as int
    }

    fn count(self) -> (r: i64) {
        self.0
    }

    fn from_count(c: i64) -> (r: Self) {
        Acceleration(c)
    }
}

impl QuantityMul<i64> for Acceleration {
    type Output = Acceleration;
}

impl QuantityDiv<i64> for Acceleration {
    type Output = Acceleration;
}

/// An angle, in whole angle units.
#[derive(Clone, Copy, Debug, PartialEq, Eq, Structural)]
pub struct Angle(pub i64);

impl Quantity for Angle {
    open spec fn spec_count(self) -> int {
        self.0 as int
    }

    fn count(self) -> (r: i64) {
        self.0
    }

    fn from_count(c: i64) -> (r: Self) {
        Angle(c)
    }
}

impl QuantityMul<i64> for Angle {
    type Output = Angle;
}

impl QuantityDiv<i64> for Angle {
    type Output = Angle;
}

/// An angular velocity, in angle units per tick.
#[derive(Clone, Copy, Debug, PartialEq, Eq, Structural)]
pub struct AngularVelocity(pub i64);

impl Quantity for AngularVelocity {
    open spec fn spec_count(self) -> int {
        self.0 as int
    }

    fn count(self) -> (r: i64) {
        self.0
    }

    fn from_count(c: i64) -> (r: Self) {
        AngularVelocity(c)
    }
}

impl QuantityMul<i64> for AngularVelocity {
    type Output = AngularVelocity;
}

impl QuantityDiv<i64> for AngularVelocity {
    type Output = AngularVelocity;
}

/// An angular acceleration, in angle units per tick per tick.
#[derive(Clone, Copy, Debug, PartialEq, Eq, Structural)]
pub struct AngularAcceleration(pub i64);

impl Quantity for AngularAcceleration {
    open spec fn spec_count(self) -> int {
        self.0 as int
    }

    fn count(self) -> (r: i64) {
        self.0
    }

    fn from_count(c: i64) -> (r: Self) {
        AngularAcceleration(c)
    }
}

impl QuantityMul<i64> for AngularAcceleration {
    type Output = AngularAcceleration;
}

impl QuantityDiv<i64> for AngularAcceleration {
    type Output = AngularAcceleration;
}
impl QuantityMul<Time> for Velocity {
    type Output = Length;
}
impl QuantityMul<Time> for Acceleration {
    type Output = Velocity;
}
impl QuantityMul<Time> for AngularVelocity {
    type Output = Angle;
}
impl QuantityMul<Time> for AngularAcceleration {
    type Output = AngularVelocity;
}
impl QuantityMul<Length> for Length {
    type Output = Area;
}

impl QuantityMul<Time> for Length {
    type Output = Absement;
}
impl QuantityDiv<Time> for Length {
    type Output = Velocity;
}
impl QuantityDiv<Time> for Velocity {
    type Output = Acceleration;
}
impl QuantityDiv<Time> for Angle {
    type Output = AngularVelocity;
}
impl QuantityDiv<Time> for AngularVelocity {
    type Output = AngularAcceleration;
}
impl QuantityDiv<Length> for Area {
    type Output = Length;
}
/// The sum of two quantities of one dimension.
pub fn add_quantities<T: Quantity>(a: T, b: T) -> (r: T)
    requires
        in_range(a.spec_count() + b.spec_count()),
    ensures
        r.spec_count() == a.spec_count() + b.spec_count(),
{
    T::from_count(a.count() + b.count())
}

/// The difference of two quantities of one dimension.
pub fn sub_quantities<T: Quantity>(a: T, b: T) -> (r: T)
    requires
        in_range(a.spec_count() - b.spec_count()),
    ensures
        r.spec_count() == a.spec_count() - b.spec_count(),
{
    T::from_count(a.count() - b.count())
}

/// The opposite of a quantity.
pub fn neg_quantity<T: Quantity>(a: T) -> (r: T)
    requires
        in_range(-a.spec_count()),
    ensures
        r.spec_count() == -a.spec_count(),
{
    T::from_count(-a.count())
}

/// The product of two quantities, in the dimension that their product has.
pub fn mul_quantities<A: QuantityMul<B>, B: Quantity>(a: A, b: B) -> (r: A::Output)
    requires
        in_range(a.spec_count() * b.spec_count()),
    ensures
        r.spec_count() == a.spec_count() * b.spec_count(),
{
    let p = wide_product(a.count(), b.count());
    A::Output::from_count(p as i64)
}

/// The exact product of two counts, which always fits in an `i128`.
pub(crate) fn wide_product(a: i64, b: i64) -> (r: i128)
    ensures
        r as int == a as int * b as int,
{
    proof {
        let ai = a as int;
        let bi = b as int;
        assert(-0x8000_0000_0000_0000 <= ai <= 0x8000_0000_0000_0000);
        assert(-0x8000_0000_0000_0000 <= bi <= 0x8000_0000_0000_0000);
        assert(-0x4000_0000_0000_0000_0000_0000_0000_0000 <= ai * bi
            <= 0x4000_0000_0000_0000_0000_0000_0000_0000) by (nonlinear_arith)
            requires
                -0x8000_0000_0000_0000 <= ai <= 0x8000_0000_0000_0000,
                -0x8000_0000_0000_0000 <= bi <= 0x8000_0000_0000_0000,
        ;
    }
    (a as i128) * (b as i128)
}

/// Machine division of two wide counts, rounded toward zero.
pub(crate) fn div_wide(a: i128, b: i128) -> (r: i128)
    requires
        b != 0,
        a > i128::MIN,
        b > i128::MIN,
    ensures
        r as int == trunc_div(a as int, b as int),
        magnitude(r as int) <= magnitude(a as int),
{
    let ua: u128 = if a >= 0 {
        a as u128
    } else {
        (-a) as u128
    };
    let ub: u128 = if b >= 0 {
        b as u128
    } else {
        (-b) as u128
    };
    let q: u128 = ua / ub;
    if (a >= 0) == (b > 0) {
        q as i128
    } else {
        -(q as i128)
    }
}

/// Remainder of the machine division of two counts; it takes the dividend's sign.
fn rem_counts(a: i64, b: i64) -> (r: i64)
    requires
        b != 0,
    ensures
        r as int == trunc_rem(a as int, b as int),
{
    let ua: u128 = if a >= 0 {
        a as u128
    } else {
        (-(a as i128)) as u128
    };
    let ub: u128 = if b >= 0 {
        b as u128
    } else {
        (-(b as i128)) as u128
    };
    let m: u128 = ua % ub;
    if a >= 0 {
        m as i64
    } else {
        -(m as i128) as i64
    }
}

/// The quotient of two quantities, rounded toward zero, in the dimension that
/// their quotient has.
pub fn div_quantities<A: QuantityDiv<B>, B: Quantity>(a: A, b: B) -> (r: A::Output)
    requires
        b.spec_count() != 0,
        in_range(trunc_div(a.spec_count(), b.spec_count())),
    ensures
        r.spec_count() == trunc_div(a.spec_count(), b.spec_count()),
{
    let q = div_wide(a.count() as i128, b.count() as i128);
    A::Output::from_count(q as i64)
}

/// The remainder of the division of a quantity by another of its dimension.
pub fn rem_quantities<T: Quantity>(a: T, b: T) -> (r: T)
    requires
        b.spec_count() != 0,
    ensures
        r.spec_count() == trunc_rem(a.spec_count(), b.spec_count()),
{
    T::from_count(rem_counts(a.count(), b.count()))
}

} // verus!
