use std::ops::{Add, Mul, Neg, Sub};
use vstd::prelude::*;
use vstd::std_specs::ops::{AddSpec, MulSpec, NegSpec, SubSpec};

verus! {

/// A point or direction in 3D space: three scalars of one type.
#[derive(Debug, PartialEq, Clone, Copy)]
pub struct Vec3<T> {
    pub x: T,
    pub y: T,
    pub z: T,
}

impl<T> Vec3<T> {
    /// The vector with the given components.
    pub fn new(x: T, y: T, z: T) -> (r: Self)
        ensures
            r == (Vec3 { x, y, z }),
    {
        Vec3 { x, y, z }
    }
}

impl<T: Copy> Vec3<T> {
    /// Builds a vector from a sequence of exactly three scalars, in order.
    pub fn from_slice(s: &[T]) -> (r: Self)
        requires
            s@.len() == 3,
        ensures
            r == (Vec3 { x: s@[0], y: s@[1], z: s@[2] }),
    {
        Vec3 { x: s[0], y: s[1], z: s[2] }
    }
}

impl<T: Copy + Add<Output = T>> vstd::std_specs::ops::AddSpecImpl for Vec3<T> {
    open spec fn obeys_add_spec() -> bool {
        T::obeys_add_spec()
    }

    open spec fn add_req(self, o: Self) -> bool {
        &&& self.x.add_req(o.x)
        &&& self.y.add_req(o.y)
        &&& self.z.add_req(o.z)
    }

    open spec fn add_spec(self, o: Self) -> Self {
        Vec3 { x: self.x.add_spec(o.x), y: self.y.add_spec(o.y), z: self.z.add_spec(o.z) }
    }
}

impl<T: Copy + Add<Output = T>> Add for Vec3<T> {
    type Output = Vec3<T>;

    /// The component-wise sum.
    fn add(self, o: Self) -> (r: Self) {
        Vec3 { x: self.x.add(o.x), y: self.y.add(o.y), z: self.z.add(o.z) }
    }
}

impl<T: Copy + Sub<Output = T>> vstd::std_specs::ops::SubSpecImpl for Vec3<T> {
    open spec fn obeys_sub_spec() -> bool {
        T::obeys_sub_spec()
    }

    open spec fn sub_req(self, o: Self) -> bool {
        &&& self.x.sub_req(o.x)
        &&& self.y.sub_req(o.y)
        &&& self.z.sub_req(o.z)
    }

    open spec fn sub_spec(self, o: Self) -> Self {
        Vec3 { x: self.x.sub_spec(o.x), y: self.y.sub_spec(o.y), z: self.z.sub_spec(o.z) }
    }
}

impl<T: Copy + Sub<Output = T>> Sub for Vec3<T> {
    type Output = Vec3<T>;

    /// The component-wise difference.
    fn sub(self, o: Self) -> (r: Self) {
        Vec3 { x: self.x.sub(o.x), y: self.y.sub(o.y), z: self.z.sub(o.z) }
    }
}

impl<T: Copy + Neg<Output = T>> vstd::std_specs::ops::NegSpecImpl for Vec3<T> {
    open spec fn obeys_neg_spec() -> bool {
        T::obeys_neg_spec()
    }

    open spec fn neg_req(self) -> bool {
        &&& self.x.neg_req()
        &&& self.y.neg_req()
        &&& self.z.neg_req()
    }

    open spec fn neg_spec(self) -> Self {
        Vec3 { x: self.x.neg_spec(), y: self.y.neg_spec(), z: self.z.neg_spec() }
    }
}

impl<T: Copy + Neg<Output = T>> Neg for Vec3<T> {
    type Output = Vec3<T>;

    /// The component-wise negation.
    fn neg(self) -> (r: Self) {
        Vec3 { x: self.x.neg(), y: self.y.neg(), z: self.z.neg() }
    }
}

impl<T: Copy + Mul<Output = T>> vstd::std_specs::ops::MulSpecImpl<T> for Vec3<T> {
    open spec fn obeys_mul_spec() -> bool {
        T::obeys_mul_spec()
    }

    open spec fn mul_req(self, s: T) -> bool {
        &&& self.x.mul_req(s)
        &&& self.y.mul_req(s)
        &&& self.z.mul_req(s)
    }

    open spec fn mul_spec(self, s: T) -> Self {
        Vec3 { x: self.x.mul_spec(s), y: self.y.mul_spec(s), z: self.z.mul_spec(s) }
    }
}

impl<T: Copy + Mul<Output = T>> Mul<T> for Vec3<T> {
    type Output = Vec3<T>;

    /// Each component multiplied by the scalar `s`.
    fn mul(self, s: T) -> (r: Self) {
        Vec3 { x: self.x.mul(s), y: self.y.mul(s), z: self.z.mul(s) }
    }
}

/// Any two scalars of `T` may be added (true of floating point, which never traps).
pub open spec fn add_total<T: Add<Output = T>>() -> bool {
    forall|u: T, v: T| #[trigger] u.add_req(v)
}

/// Any two scalars of `T` may be subtracted.
pub open spec fn sub_total<T: Sub<Output = T>>() -> bool {
    forall|u: T, v: T| #[trigger] u.sub_req(v)
}

/// Any two scalars of `T` may be multiplied.
pub open spec fn mul_total<T: Mul<Output = T>>() -> bool {
    forall|u: T, v: T| #[trigger] u.mul_req(v)
}

impl<T: Copy + Add<Output = T> + Mul<Output = T>> Vec3<T> {
    /// `x * o.x + y * o.y + z * o.z`, summed from the left.
    pub open spec fn dot_spec(self, o: Self) -> T {
        self.x.mul_spec(o.x).add_spec(self.y.mul_spec(o.y)).add_spec(self.z.mul_spec(o.z))
    }

    /// The dot product can be computed: either the scalar arithmetic is exact
    /// and each step of `dot_spec` is within its domain, or no step can fail.
    pub open spec fn dot_req(self, o: Self) -> bool {
        ||| {
            &&& T::obeys_add_spec()
            &&& T::obeys_mul_spec()
            &&& self.x.mul_req(o.x)
            &&& self.y.mul_req(o.y)
            &&& self.z.mul_req(o.z)
            &&& self.x.mul_spec(o.x).add_req(self.y.mul_spec(o.y))
            &&& self.x.mul_spec(o.x).add_spec(self.y.mul_spec(o.y)).add_req(
                self.z.mul_spec(o.z),
            )
        }
        ||| add_total::<T>() && mul_total::<T>()
    }

    /// The dot product of `self` and `o`.
    pub fn dot(&self, o: &Self) -> (r: T)
        requires
            self.dot_req(*o),
        ensures
            T::obeys_add_spec() && T::obeys_mul_spec() ==> r == self.dot_spec(*o),
    {
        let px = self.x.mul(o.x);
        let py = self.y.mul(o.y);
        let pz = self.z.mul(o.z);
        px.add(py).add(pz)
    }
}

impl<T: Copy + Sub<Output = T> + Mul<Output = T>> Vec3<T> {
    /// The right-handed cross product.
    pub open spec fn cross_spec(self, o: Self) -> Self {
        Vec3 {
            x: self.y.mul_spec(o.z).sub_spec(self.z.mul_spec(o.y)),
            y: self.z.mul_spec(o.x).sub_spec(self.x.mul_spec(o.z)),
            z: self.x.mul_spec(o.y).sub_spec(self.y.mul_spec(o.x)),
        }
    }

    /// The cross product can be computed: either the scalar arithmetic is
    /// exact and each step of `cross_spec` is within its domain, or no step
    /// can fail.
    pub open spec fn cross_req(self, o: Self) -> bool {
        ||| {
            &&& T::obeys_sub_spec()
            &&& T::obeys_mul_spec()
            &&& self.y.mul_req(o.z)
            &&& self.z.mul_req(o.y)
            &&& self.z.mul_req(o.x)
            &&& self.x.mul_req(o.z)
            &&& self.x.mul_req(o.y)
            &&& self.y.mul_req(o.x)
            &&& self.y.mul_spec(o.z).sub_req(self.z.mul_spec(o.y))
            &&& self.z.mul_spec(o.x).sub_req(self.x.mul_spec(o.z))
            &&& self.x.mul_spec(o.y).sub_req(self.y.mul_spec(o.x))
        }
        ||| sub_total::<T>() && mul_total::<T>()
    }

    /// The right-handed cross product of `self` and `o`.
    pub fn cross(&self, o: &Self) -> (r: Self)
        requires
            self.cross_req(*o),
        ensures
            T::obeys_sub_spec() && T::obeys_mul_spec() ==> r == self.cross_spec(*o),
    {
        let x = self.y.mul(o.z).sub(self.z.mul(o.y));
        let y = self.z.mul(o.x).sub(self.x.mul(o.z));
        let z = self.x.mul(o.y).sub(self.y.mul(o.x));
        Vec3 { x, y, z }
    }
}

impl<T: Copy + Add<Output = T> + Sub<Output = T> + Mul<Output = T>> Vec3<T> {
    /// `self - (normal * d + normal * d)` with `d = dot(self, normal)`: the
    /// mirror image of `self` about the plane with unit normal `normal`.
    /// Doubling by a sum is exact wherever doubling by a product is, so this
    /// is `self - normal * d * 2`.
    pub open spec fn reflect_spec(self, normal: Self) -> Self {
        let s = normal.mul_spec(self.dot_spec(normal));
        self.sub_spec(s.add_spec(s))
    }

    /// The reflection can be computed: either the scalar arithmetic is exact
    /// and each step of `reflect_spec` is within its domain, or no step can
    /// fail.
    pub open spec fn reflect_req(self, normal: Self) -> bool {
        ||| {
            let s = normal.mul_spec(self.dot_spec(normal));
            &&& T::obeys_add_spec()
            &&& T::obeys_sub_spec()
            &&& T::obeys_mul_spec()
            &&& self.dot_req(normal)
            &&& normal.mul_req(self.dot_spec(normal))
            &&& s.add_req(s)
            &&& self.sub_req(s.add_spec(s))
        }
        ||| add_total::<T>() && sub_total::<T>() && mul_total::<T>()
    }

    /// Reflects `self` about a surface with normal `normal`. The normal is
    /// used as given: only a unit normal gives a mirror image.
    pub fn reflect(self, normal: &Self) -> (r: Self)
        requires
            self.reflect_req(*normal),
        ensures
            T::obeys_add_spec() && T::obeys_sub_spec() && T::obeys_mul_spec() ==> r
                == self.reflect_spec(*normal),
    {
        let d = self.dot(normal);
        let s = *normal * d;
        self - (s + s)
    }
}

} // verus!
