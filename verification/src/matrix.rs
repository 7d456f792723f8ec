//! Two-by-two matrices over any element type that has the operators a
//! method needs.
use core::ops::{Add, Div, Mul, Neg, Sub};
use vstd::prelude::*;
use vstd::std_specs::convert::FromSpec;
use vstd::std_specs::ops::{AddSpec, DivSpec, MulSpec, NegSpec, SubSpec};

verus! {

/// A 2x2 matrix, row by row:
///
/// ```text
/// self.0 self.1
/// self.2 self.3
/// ```
#[derive(Clone, Eq, Hash, Debug, PartialEq, Default)]
pub struct Matrix2x2<T>(pub T, pub T, pub T, pub T);

/// Whether `T` can compute `a·x + b·y`.
pub open spec fn dot2_req<T: Copy + Mul<Output = T> + Add<Output = T>>(
    a: T,
    x: T,
    b: T,
    y: T,
) -> bool {
    &&& a.mul_req(x)
    &&& b.mul_req(y)
    &&& a.mul_spec(x).add_req(b.mul_spec(y))
}

/// `a·x + b·y`.
pub open spec fn dot2_spec<T: Copy + Mul<Output = T> + Add<Output = T>>(
    a: T,
    x: T,
    b: T,
    y: T,
) -> T {
    a.mul_spec(x).add_spec(b.mul_spec(y))
}

impl<'a, T> vstd::std_specs::ops::MulSpecImpl<&'a Matrix2x2<T>> for &'a Matrix2x2<T> where
    T: Mul<T, Output = T> + Add<T, Output = T> + Copy,
 {
    open spec fn obeys_mul_spec() -> bool {
        T::obeys_mul_spec() && T::obeys_add_spec()
    }

    /// The element operations obey their specifications, and `T` can
    /// compute each of the four entries.
    open spec fn mul_req(self, rhs: &'a Matrix2x2<T>) -> bool {
        &&& T::obeys_mul_spec()
        &&& T::obeys_add_spec()
        &&& dot2_req(self.0, rhs.0, self.1, rhs.2)
        &&& dot2_req(self.0, rhs.1, self.1, rhs.3)
        &&& dot2_req(self.2, rhs.0, self.3, rhs.2)
        &&& dot2_req(self.2, rhs.1, self.3, rhs.3)
    }

    /// The matrix product: entry `(i, j)` is row `i` of `self` times column
    /// `j` of `rhs`.
    open spec fn mul_spec(self, rhs: &'a Matrix2x2<T>) -> Matrix2x2<T> {
        Matrix2x2(
            dot2_spec(self.0, rhs.0, self.1, rhs.2),
            dot2_spec(self.0, rhs.1, self.1, rhs.3),
            dot2_spec(self.2, rhs.0, self.3, rhs.2),
            dot2_spec(self.2, rhs.1, self.3, rhs.3),
        )
    }
}

impl<'a, T> Mul<&'a Matrix2x2<T>> for &'a Matrix2x2<T> where
    T: Mul<T, Output = T> + Add<T, Output = T> + Copy,
 {
    type Output = Matrix2x2<T>;

    fn mul(self, rhs: Self) -> (r: Matrix2x2<T>) {
        let a = self.0;
        let b = self.1;
        let c = self.2;
        let d = self.3;
        let w = rhs.0;
        let x = rhs.1;
        let y = rhs.2;
        let z = rhs.3;
        Matrix2x2(a * w + b * y, a * x + b * z, c * w + d * y, c * x + d * z)
    }
}

impl<T> Matrix2x2<T> {
    /// Runs `f` on every element of `self`, row by row.
    ///
    /// `f` has to accept the four elements and nothing else. Each element
    /// afterwards is what one call of `f` on a reference to the element
    /// before may leave behind.
    pub fn map_inline<F>(&mut self, f: F) where F: Fn(&mut T)
        requires
            forall|x: &mut T|
                (*x == old(self).0 || *x == old(self).1 || *x == old(self).2 || *x == old(self).3)
                    ==> call_requires(f, (x,)),
        ensures
            exists|x: &mut T|
                *x == old(self).0 && *final(x) == final(self).0 && #[trigger] call_ensures(
                    f,
                    (x,),
                    (),
                ),
            exists|x: &mut T|
                *x == old(self).1 && *final(x) == final(self).1 && #[trigger] call_ensures(
                    f,
                    (x,),
                    (),
                ),
            exists|x: &mut T|
                *x == old(self).2 && *final(x) == final(self).2 && #[trigger] call_ensures(
                    f,
                    (x,),
                    (),
                ),
            exists|x: &mut T|
                *x == old(self).3 && *final(x) == final(self).3 && #[trigger] call_ensures(
                    f,
                    (x,),
                    (),
                ),
    {
        f(&mut self.0);
        f(&mut self.1);
        f(&mut self.2);
        f(&mut self.3);
    }

    /// The matrix of the results of `f` on every element of `self`.
    pub fn map<F>(&self, f: F) -> (r: Self) where F: Fn(T) -> T, T: Copy
        requires
            call_requires(f, (self.0,)),
            call_requires(f, (self.1,)),
            call_requires(f, (self.2,)),
            call_requires(f, (self.3,)),
        ensures
            call_ensures(f, (self.0,), r.0),
            call_ensures(f, (self.1,), r.1),
            call_ensures(f, (self.2,), r.2),
            call_ensures(f, (self.3,), r.3),
    {
        Matrix2x2(f(self.0), f(self.1), f(self.2), f(self.3))
    }

    /// The matrix mirrored at its diagonal.
    pub open spec fn transpose_spec(self) -> Self {
        Matrix2x2(self.0, self.2, self.1, self.3)
    }

    /// The transpose: the two elements off the diagonal change places.
    pub fn transpose(&self) -> (r: Self) where T: Copy
        ensures
            r == self.transpose_spec(),
    {
        Matrix2x2(self.0, self.2, self.1, self.3)
    }

    /// Whether `T` can compute `a·d - b·c`.
    pub open spec fn det_req(self) -> bool where T: Mul<T, Output = T> + Sub<T, Output = T> + Copy {
        &&& self.0.mul_req(self.3)
        &&& self.1.mul_req(self.2)
        &&& self.0.mul_spec(self.3).sub_req(self.1.mul_spec(self.2))
    }

    /// `a·d - b·c`.
    pub open spec fn det_spec(self) -> T where T: Mul<T, Output = T> + Sub<T, Output = T> + Copy {
        self.0.mul_spec(self.3).sub_spec(self.1.mul_spec(self.2))
    }

    /// The determinant.
    pub fn det(&self) -> (r: T) where T: Mul<T, Output = T> + Sub<T, Output = T> + Copy
        requires
            T::obeys_mul_spec(),
            T::obeys_sub_spec(),
            self.det_req(),
        ensures
            r == self.det_spec(),
    {
        let a = self.0;
        let b = self.1;
        let c = self.2;
        let d = self.3;
        a * d - b * c
    }

    /// Whether `T` can compute the determinant, negate the two elements off
    /// the diagonal and divide each element of the adjugate by the
    /// determinant. In an integer type this leaves out the singular
    /// matrices.
    pub open spec fn inv_req(self) -> bool where
        T: Div<T, Output = T> + Neg<Output = T> + Copy + Sub<T, Output = T> + Mul<T, Output = T>,
     {
        let det = self.det_spec();
        &&& self.det_req()
        &&& self.1.neg_req()
        &&& self.2.neg_req()
        &&& self.3.div_req(det)
        &&& self.1.neg_spec().div_req(det)
        &&& self.2.neg_spec().div_req(det)
        &&& self.0.div_req(det)
    }

    /// The adjugate with every element divided by the determinant.
    pub open spec fn inv_spec(self) -> Self where
        T: Div<T, Output = T> + Neg<Output = T> + Copy + Sub<T, Output = T> + Mul<T, Output = T>,
     {
        let det = self.det_spec();
        Matrix2x2(
            self.3.div_spec(det),
            self.1.neg_spec().div_spec(det),
            self.2.neg_spec().div_spec(det),
            self.0.div_spec(det),
        )
    }

    /// The inverse of the matrix.
    ///
    /// The element type decides what a division by a zero determinant
    /// gives; where it cannot divide by zero, the singular matrices are
    /// excluded.
    pub fn inv(&self) -> (r: Self) where
        T: Div<T, Output = T> + Neg<Output = T> + Copy + Sub<T, Output = T> + Mul<T, Output = T>,

        requires
            T::obeys_mul_spec(),
            T::obeys_sub_spec(),
            T::obeys_neg_spec(),
            T::obeys_div_spec(),
            self.inv_req(),
        ensures
            r == self.inv_spec(),
    {
        let det = self.det();
        let a = self.0;
        let b = self.1;
        let c = self.2;
        let d = self.3;
        Matrix2x2(d / det, b.neg() / det, c.neg() / det, a / det)
    }

    /// The matrix with ones on the diagonal and zeros off it.
    pub open spec fn identity_spec() -> Self where T: From<i8> {
        Matrix2x2(T::from_spec(1i8), T::from_spec(0i8), T::from_spec(0i8), T::from_spec(1i8))
    }

    /// The 2x2 identity matrix.
    pub fn identity() -> (r: Self) where T: From<i8>
        ensures
            <T as FromSpec<i8>>::obeys_from_spec() ==> r == Self::identity_spec(),
    {
        Matrix2x2(T::from(1i8), T::from(0i8), T::from(0i8), T::from(1i8))
    }
}

} // verus!
