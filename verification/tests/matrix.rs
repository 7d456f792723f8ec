use toy_quant::matrix::Matrix2x2;
use toy_quant::matrix4::Matrix4x4;

#[test]
fn product_of_two_matrices() {
    let a = Matrix2x2(1, 2, 3, 4);
    let b = Matrix2x2(5, 6, 7, 8);
    assert_eq!(&a * &b, Matrix2x2(19, 22, 43, 50));
    assert_eq!(&b * &a, Matrix2x2(23, 34, 31, 46));
}

#[test]
fn determinant_transpose_inverse() {
    let m = Matrix2x2(4.0f32, 7.0, 2.0, 6.0);
    assert_eq!(m.det(), 10.0);
    assert_eq!(m.transpose(), Matrix2x2(4.0, 2.0, 7.0, 6.0));
    assert_eq!(m.inv(), Matrix2x2(0.6, -0.7, -0.2, 0.4));
    assert_eq!(Matrix2x2(3, 1, 5, 2).inv(), Matrix2x2(2, -1, -5, 3));
    assert_eq!(Matrix2x2(1, 2, 3, 4).det(), -2);
}

#[test]
fn inverse_of_a_singular_float_matrix_is_not_finite() {
    let m = Matrix2x2(1.0f32, 2.0, 2.0, 4.0);
    assert_eq!(m.det(), 0.0);
    let inv = m.inv();
    assert!(!inv.0.is_finite());
}

#[test]
fn identity_and_maps() {
    assert_eq!(Matrix2x2::<i32>::identity(), Matrix2x2(1, 0, 0, 1));
    assert_eq!(Matrix2x2::<f32>::identity(), Matrix2x2(1.0, 0.0, 0.0, 1.0));
    let m = Matrix2x2(1, 2, 3, 4);
    assert_eq!(m.map(|x| x * 10), Matrix2x2(10, 20, 30, 40));
    let mut n = Matrix2x2(1, 2, 3, 4);
    n.map_inline(|x| *x += 1);
    assert_eq!(n, Matrix2x2(2, 3, 4, 5));
    assert_eq!(&m * &Matrix2x2::identity(), m);
}

#[test]
fn map_inline_calls_the_closure_on_each_element_in_order() {
    let mut m = Matrix2x2(1, 2, 3, 4);
    m.map_inline(|x: &mut i32| *x *= 10);
    assert_eq!(m, Matrix2x2(10, 20, 30, 40));
    let seen = std::cell::RefCell::new(Vec::new());
    let mut n = Matrix2x2(5, 6, 7, 8);
    n.map_inline(|x: &mut i32| {
        seen.borrow_mut().push(*x);
        *x = -*x;
    });
    assert_eq!(*seen.borrow(), vec![5, 6, 7, 8]);
    assert_eq!(n, Matrix2x2(-5, -6, -7, -8));
}

#[test]
fn four_by_four() {
    let m = Matrix4x4::new([[1, 2, 3, 4], [5, 6, 7, 8], [9, 10, 11, 12], [13, 14, 15, 16]]);
    assert_eq!(m.get(1, 2), 7);
    assert_eq!(m.column(1), [2, 6, 10, 14]);
    assert_eq!(
        m.transpose(),
        Matrix4x4::new([[1, 5, 9, 13], [2, 6, 10, 14], [3, 7, 11, 15], [4, 8, 12, 16]])
    );
    assert_eq!(m.mul_vec(&[1, 0, 2, 0]), [7, 19, 31, 43]);
    let p = Matrix4x4::new([[0, 1, 0, 0], [1, 0, 0, 0], [0, 0, 1, 0], [0, 0, 0, 1]]);
    assert_eq!(
        m.product(&p),
        Matrix4x4::new([[2, 1, 3, 4], [6, 5, 7, 8], [10, 9, 11, 12], [14, 13, 15, 16]])
    );
    assert_eq!(
        p.product(&m),
        Matrix4x4::new([[5, 6, 7, 8], [1, 2, 3, 4], [9, 10, 11, 12], [13, 14, 15, 16]])
    );
    assert_eq!(m.map(|x| x as u8 * 2).get(3, 3), 32u8);
}
