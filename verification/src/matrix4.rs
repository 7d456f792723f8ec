//! Four-by-four matrices and vectors of four, the linear algebra of two
//! qubits.
use core::ops::{Add, Mul};
use vstd::prelude::*;
use vstd::std_specs::ops::{AddSpec, MulSpec};

verus! {

/// A 4x4 matrix, as its four rows.
#[derive(Clone, Copy, Debug, PartialEq)]
pub struct Matrix4x4<T>(pub [[T; 4]; 4]);

impl<T> View for Matrix4x4<T> {
    type V = Seq<Seq<T>>;

    /// The four rows, each a sequence of four elements.
    open spec fn view(&self) -> Seq<Seq<T>> {
        Seq::new(4, |i: int| self.0[i]@)
    }
}

/// Whether `T` can compute the product of the two vectors of four.
pub open spec fn dot4_req<T: Copy + Mul<Output = T> + Add<Output = T>>(
    a: Seq<T>,
    b: Seq<T>,
) -> bool {
    let p0 = a[0].mul_spec(b[0]);
    let p1 = a[1].mul_spec(b[1]);
    let p2 = a[2].mul_spec(b[2]);
    let p3 = a[3].mul_spec(b[3]);
    &&& a[0].mul_req(b[0])
    &&& a[1].mul_req(b[1])
    &&& a[2].mul_req(b[2])
    &&& a[3].mul_req(b[3])
    &&& p0.add_req(p1)
    &&& p0.add_spec(p1).add_req(p2)
    &&& p0.add_spec(p1).add_spec(p2).add_req(p3)
}

/// `a0·b0 + a1·b1 + a2·b2 + a3·b3`, summed from the left.
pub open spec fn dot4_spec<T: Copy + Mul<Output = T> + Add<Output = T>>(
    a: Seq<T>,
    b: Seq<T>,
) -> T {
    a[0].mul_spec(b[0]).add_spec(a[1].mul_spec(b[1])).add_spec(a[2].mul_spec(b[2])).add_spec(
        a[3].mul_spec(b[3]),
    )
}

/// The product of two vectors of four.
pub fn dot4<T: Copy + Mul<Output = T> + Add<Output = T>>(a: &[T; 4], b: &[T; 4]) -> (r: T)
    requires
        T::obeys_mul_spec(),
        T::obeys_add_spec(),
        dot4_req(a@, b@),
    ensures
        r == dot4_spec(a@, b@),
{
    a[0] * b[0] + a[1] * b[1] + a[2] * b[2] + a[3] * b[3]
}

/// Whether `m` has four rows of four elements.
pub open spec fn is_4x4<T>(m: Seq<Seq<T>>) -> bool {
    m.len() == 4 && forall|i: int| 0 <= i < 4 ==> (#[trigger] m[i]).len() == 4
}

/// Column `j` of `m`, from top to bottom.
pub open spec fn col<T>(m: Seq<Seq<T>>, j: int) -> Seq<T> {
    seq![m[0][j], m[1][j], m[2][j], m[3][j]]
}

/// `m` mirrored at its diagonal: row `i` is column `i` of `m`.
pub open spec fn transpose_spec<T>(m: Seq<Seq<T>>) -> Seq<Seq<T>> {
    Seq::new(4, |i: int| col(m, i))
}

/// Whether the element operations obey their specifications and `T` can
/// compute the product of every row of `m` with `v`.
pub open spec fn mul_vec_req<T: Copy + Mul<Output = T> + Add<Output = T>>(
    m: Seq<Seq<T>>,
    v: Seq<T>,
) -> bool {
    &&& T::obeys_mul_spec()
    &&& T::obeys_add_spec()
    &&& forall|i: int| 0 <= i < 4 ==> dot4_req(#[trigger] m[i], v)
}

/// `m` times the column vector `v`: element `i` is row `i` times `v`.
pub open spec fn mul_vec_spec<T: Copy + Mul<Output = T> + Add<Output = T>>(
    m: Seq<Seq<T>>,
    v: Seq<T>,
) -> Seq<T> {
    Seq::new(4, |i: int| dot4_spec(m[i], v))
}

/// Whether the element operations obey their specifications and `T` can
/// compute the product of every row of `a` with every column of `b`.
pub open spec fn product_req<T: Copy + Mul<Output = T> + Add<Output = T>>(
    a: Seq<Seq<T>>,
    b: Seq<Seq<T>>,
) -> bool {
    &&& T::obeys_mul_spec()
    &&& T::obeys_add_spec()
    &&& forall|i: int, j: int|
        0 <= i < 4 && 0 <= j < 4 ==> dot4_req(#[trigger] a[i], #[trigger] col(b, j))
}

/// The matrix product: entry `(i, j)` is row `i` of `a` times column `j`
/// of `b`.
pub open spec fn product_spec<T: Copy + Mul<Output = T> + Add<Output = T>>(
    a: Seq<Seq<T>>,
    b: Seq<Seq<T>>,
) -> Seq<Seq<T>> {
    Seq::new(4, |i: int| Seq::new(4, |j: int| dot4_spec(a[i], col(b, j))))
}

impl<T: Copy> Matrix4x4<T> {
    /// The matrix with the given rows.
    pub fn new(rows: [[T; 4]; 4]) -> (r: Self)
        ensures
            r.0 == rows,
    {
        Matrix4x4(rows)
    }

    /// The view of every matrix has four rows of four elements.
    pub proof fn lemma_is_4x4(self)
        ensures
            is_4x4(self@),
    {
    }

    /// The element in row `i` and column `j`.
    pub fn get(&self, i: usize, j: usize) -> (r: T)
        requires
            i < 4,
            j < 4,
        ensures
            r == self@[i as int][j as int],
    {
        self.0[i][j]
    }

    /// Column `j` as a vector.
    pub fn column(&self, j: usize) -> (r: [T; 4])
        requires
            j < 4,
        ensures
            r@ == col(self@, j as int),
    {
        let r = [self.0[0][j], self.0[1][j], self.0[2][j], self.0[3][j]];
        assert(r@ =~= col(self@, j as int));
        r
    }

    /// The matrix mirrored at its diagonal.
    pub fn transpose(&self) -> (r: Self)
        ensures
            r@ == transpose_spec(self@),
    {
        let r = Matrix4x4([self.column(0), self.column(1), self.column(2), self.column(3)]);
        assert(r@ =~= transpose_spec(self@));
        r
    }

    /// The results of `f` on the four elements of `row`.
    fn map_row<U, F: Fn(T) -> U>(row: &[T; 4], f: &F) -> (r: [U; 4])
        requires
            forall|k: int| 0 <= k < 4 ==> call_requires(*f, (#[trigger] row@[k],)),
        ensures
            forall|k: int| 0 <= k < 4 ==> call_ensures(*f, (row@[k],), #[trigger] r@[k]),
    {
        [f(row[0]), f(row[1]), f(row[2]), f(row[3])]
    }

    /// The matrix of the results of `f` on every element of `self`.
    pub fn map<U: Copy, F: Fn(T) -> U>(&self, f: F) -> (r: Matrix4x4<U>)
        requires
            forall|i: int, j: int|
                0 <= i < 4 && 0 <= j < 4 ==> call_requires(f, (#[trigger] self@[i][j],)),
        ensures
            forall|i: int, j: int|
                0 <= i < 4 && 0 <= j < 4 ==> call_ensures(
                    f,
                    (self@[i][j],),
                    #[trigger] r@[i][j],
                ),
    {
        proof {
            assert forall|i: int, k: int| 0 <= i < 4 && 0 <= k < 4 implies call_requires(
                f,
                (#[trigger] self.0[i]@[k],),
            ) by {
                assert(self.0[i]@[k] == self@[i][k]);
            }
        }
        Matrix4x4(
            [
                Self::map_row(&self.0[0], &f),
                Self::map_row(&self.0[1], &f),
                Self::map_row(&self.0[2], &f),
                Self::map_row(&self.0[3], &f),
            ],
        )
    }
}

impl<T: Copy + Mul<Output = T> + Add<Output = T>> Matrix4x4<T> {
    /// The matrix times the column vector `v`.
    pub fn mul_vec(&self, v: &[T; 4]) -> (r: [T; 4])
        requires
            mul_vec_req(self@, v@),
        ensures
            r@ == mul_vec_spec(self@, v@),
    {
        assert(dot4_req(self@[0], v@));
        assert(dot4_req(self@[1], v@));
        assert(dot4_req(self@[2], v@));
        assert(dot4_req(self@[3], v@));
        let r = [dot4(&self.0[0], v), dot4(&self.0[1], v), dot4(&self.0[2], v), dot4(&self.0[3], v)];
        assert(r@ =~= mul_vec_spec(self@, v@));
        r
    }

    /// Row `i` of the matrix product.
    fn product_row(&self, rhs: &Self, i: usize) -> (r: [T; 4])
        requires
            i < 4,
            product_req(self@, rhs@),
        ensures
            r@ == product_spec(self@, rhs@)[i as int],
    {
        let c0 = rhs.column(0);
        let c1 = rhs.column(1);
        let c2 = rhs.column(2);
        let c3 = rhs.column(3);
        assert(dot4_req(self@[i as int], col(rhs@, 0)));
        assert(dot4_req(self@[i as int], col(rhs@, 1)));
        assert(dot4_req(self@[i as int], col(rhs@, 2)));
        assert(dot4_req(self@[i as int], col(rhs@, 3)));
        let r = [
            dot4(&self.0[i], &c0),
            dot4(&self.0[i], &c1),
            dot4(&self.0[i], &c2),
            dot4(&self.0[i], &c3),
        ];
        assert(r@ =~= product_spec(self@, rhs@)[i as int]);
        r
    }

    /// The matrix product `self · rhs`.
    pub fn product(&self, rhs: &Self) -> (r: Self)
        requires
            product_req(self@, rhs@),
        ensures
            r@ == product_spec(self@, rhs@),
    {
        let r = Matrix4x4(
            [
                self.product_row(rhs, 0),
                self.product_row(rhs, 1),
                self.product_row(rhs, 2),
                self.product_row(rhs, 3),
            ],
        );
        assert(r@ =~= product_spec(self@, rhs@));
        r
    }
}

} // verus!
