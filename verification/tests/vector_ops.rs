use array_vector_space::vector_space::{ArrayVectorSpace, ArrayVectorSpaceMut, VectorScalar};

#[test]
fn leaf_ops_are_scalar_arithmetic() {
    assert_eq!(3i64.dot(4), 12);
    assert_eq!(3i64.add(4), 7);
    assert_eq!(3i64.sub(4), -1);
    assert_eq!(3i64.mul(4), 12);
    assert_eq!(9i64.div(4), 2);
    assert_eq!((-9i64).div(4), -2);
    assert_eq!(3i64.scal_mul(5), 15);
    assert_eq!(ArrayVectorSpace::clamp(7i64, 0, 5), 5);
}

#[test]
fn leaf_saturation_and_zero_divisor() {
    assert_eq!(i64::MAX.add(1), i64::MAX);
    assert_eq!(i64::MIN.sub(1), i64::MIN);
    assert_eq!(i64::MAX.mul(2), i64::MAX);
    assert_eq!(i64::MIN.mul(-1), i64::MAX);
    assert_eq!(5i64.div(0), 0);
    assert_eq!(i64::MIN.div(-1), i64::MAX);
}

#[test]
fn leaf_normalized_is_always_one() {
    assert_eq!(5i64.normalized(), 1);
    assert_eq!(0i64.normalized(), 1);
    assert_eq!((-17i64).normalized(), 1);
}

#[test]
fn leaf_sqrt_and_recip() {
    assert_eq!(VectorScalar::sqrt(25i64), 5);
    assert_eq!(VectorScalar::sqrt(24i64), 4);
    assert_eq!(VectorScalar::sqrt(-4i64), 0);
    assert_eq!(VectorScalar::recip(1i64), 1);
    assert_eq!(VectorScalar::recip(-1i64), -1);
    assert_eq!(VectorScalar::recip(5i64), 0);
    assert_eq!(VectorScalar::recip(0i64), 0);
}

#[test]
fn dot_and_norm2_agree_with_self_dot() {
    let a: [i64; 2] = [3, 4];
    let b: [i64; 2] = [1, 2];
    assert_eq!(a.dot(b), 11);
    assert_eq!(a.norm2(), 25);
    assert_eq!(a.norm2(), a.dot(a));
    let nested: [[i64; 2]; 2] = [[1, 2], [3, 4]];
    assert_eq!(nested.norm2(), nested.dot(nested));
    assert_eq!(nested.norm2(), 30);
}

#[test]
fn elementwise_ops() {
    let a: [i64; 3] = [6, -4, 9];
    let b: [i64; 3] = [3, 2, -3];
    assert_eq!(a.add(b), [9, -2, 6]);
    assert_eq!(a.sub(b), [3, -6, 12]);
    assert_eq!(a.mul(b), [18, -8, -27]);
    assert_eq!(a.div(b), [2, -2, -3]);
    assert_eq!(a.scal_mul(2), [12, -8, 18]);
}

#[test]
fn nested_add_applies_at_depth_two() {
    let x: [[i64; 2]; 2] = [[1, 2], [3, 4]];
    let y: [[i64; 2]; 2] = [[1, 1], [1, 1]];
    assert_eq!(x.add(y), [[2, 3], [4, 5]]);
}

#[test]
fn clamp_applies_to_every_leaf() {
    let x: [i64; 3] = [-1, 0, 2];
    assert_eq!(ArrayVectorSpace::clamp(x, 0, 1), [0, 0, 1]);
    let nested: [[i64; 2]; 2] = [[-5, 1], [2, 7]];
    assert_eq!(ArrayVectorSpace::clamp(nested, 0, 3), [[0, 1], [2, 3]]);
}

#[test]
fn scal_mul_distributes_to_every_leaf() {
    let x: [[i64; 2]; 2] = [[1, 2], [3, 4]];
    let scaled = x.scal_mul(3);
    for i in 0..2 {
        for j in 0..2 {
            assert_eq!(scaled[i][j], x[i][j].scal_mul(3));
        }
    }
}

#[test]
fn mutating_variants_agree_with_owning() {
    let x: [[i64; 2]; 2] = [[7, -2], [0, 5]];
    let y: [[i64; 2]; 2] = [[1, 2], [3, 4]];

    let mut m = x;
    m.mut_add(&y);
    assert_eq!(m, x.add(y));

    let mut m = x;
    m.mut_sub(&y);
    assert_eq!(m, x.sub(y));

    let mut m = x;
    m.mut_mul(&y);
    assert_eq!(m, x.mul(y));

    let mut m = x;
    m.mut_div(&y);
    assert_eq!(m, x.div(y));

    let mut m = x;
    m.mut_scal_mul(3);
    assert_eq!(m, x.scal_mul(3));

    let mut m = x;
    m.mut_clamp(-1, 4);
    assert_eq!(m, ArrayVectorSpace::clamp(x, -1, 4));

    let mut m = x;
    m.mut_normalized();
    assert_eq!(m, x.normalized());
}

#[test]
fn recursion_reaches_depth_three() {
    let x: [[[i64; 2]; 2]; 2] = [[[1, 2], [3, 4]], [[5, 6], [7, 8]]];
    let y: [[[i64; 2]; 2]; 2] = [[[1, 1], [1, 1]], [[1, 1], [1, 1]]];
    assert_eq!(x.add(y), [[[2, 3], [4, 5]], [[6, 7], [8, 9]]]);
    // 1 + 4 + 9 + ... + 64
    assert_eq!(x.norm2(), 204);
    assert_eq!(x.scal_mul(2), [[[2, 4], [6, 8]], [[10, 12], [14, 16]]]);
}

#[test]
fn dot_saturates_in_the_fold() {
    let a: [i64; 2] = [i64::MAX, i64::MAX];
    let b: [i64; 2] = [2, 2];
    assert_eq!(a.dot(b), i64::MAX);
}

#[test]
fn normalized_integer_composites() {
    // norm2 = 25, integer sqrt = 5, integer recip(5) = 0
    let a: [i64; 2] = [3, 4];
    assert_eq!(a.normalized(), [0, 0]);
    // norm2 = 1, sqrt = 1, recip = 1: already a unit vector, kept as is
    let e: [i64; 2] = [1, 0];
    assert_eq!(e.normalized(), [1, 0]);
    assert_eq!(e.normalized().norm2(), 1);
}
