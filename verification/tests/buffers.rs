//! Buffers and backward rules: element arithmetic, shapes, the
//! rectifier's boundary, and the matrix product.

use minigrad::activation::relu;
use minigrad::backward::{MatMulBackward, ReluBackward};
use minigrad::buffer::{Buffer, Shape};
use minigrad::graph::Graph;
use minigrad::tensor::Tensor;

fn bits(x: f64) -> u64 {
    x.to_bits()
}

fn from_f64(v: &[f64]) -> Vec<u64> {
    v.iter().map(|x| x.to_bits()).collect()
}

#[test]
fn elementwise_arithmetic_matches_ieee() {
    let a = Buffer::vector(from_f64(&[1.5, -2.0, 0.1]));
    let b = Buffer::vector(from_f64(&[0.25, 4.0, 0.2]));
    assert_eq!(
        a.ew_add(&b).data(),
        &from_f64(&[1.5 + 0.25, -2.0 + 4.0, 0.1 + 0.2])
    );
    assert_eq!(
        a.ew_sub(&b).data(),
        &from_f64(&[1.5 - 0.25, -2.0 - 4.0, 0.1 - 0.2])
    );
    assert_eq!(
        a.ew_mul(&b).data(),
        &from_f64(&[1.5 * 0.25, -2.0 * 4.0, 0.1 * 0.2])
    );
    assert_eq!(
        a.ew_div(&b).data(),
        &from_f64(&[1.5 / 0.25, -2.0 / 4.0, 0.1 / 0.2])
    );
    assert_eq!(a.ew_neg().data(), &from_f64(&[-1.5, 2.0, -0.1]));
    assert_eq!(a.ew_scale(bits(2.0)).data(), &from_f64(&[3.0, -4.0, 0.2]));
}

#[test]
fn mean_is_the_sum_over_the_count() {
    let a = Buffer::vector(from_f64(&[0.1, 0.2, 0.4]));
    let expected = ((0.1f64 + 0.2) + 0.4) / 3.0;
    assert_eq!(a.mean_fwd().data(), &vec![bits(expected)]);
    assert_eq!(a.mean_fwd().shape().dims().len(), 0);
}

#[test]
fn relu_boundary() {
    let mut g = Graph::new();
    let x = g.insert(Tensor::from_slice(from_f64(&[-1.0, 0.0, 2.0])).with_grad());
    let y = relu(&mut g, x);
    assert_eq!(g.data(y).data(), &from_f64(&[0.0, 0.0, 2.0]));

    let xb = Buffer::vector(from_f64(&[-1.0, 0.0, 2.0]));
    let upstream = Buffer::vector(from_f64(&[1.0, 1.0, 1.0]));
    let rule = ReluBackward;
    let grad = rule.backward(&xb, &upstream);
    assert_eq!(grad.data(), &from_f64(&[0.0, 0.0, 1.0]));
}

#[test]
fn matmul_and_transpose() {
    let a = Buffer::new(
        Shape::new(vec![2, 2]),
        from_f64(&[1.0, 2.0, 3.0, 4.0]),
    )
    .unwrap();
    let b = Buffer::new(
        Shape::new(vec![2, 2]),
        from_f64(&[5.0, 6.0, 7.0, 8.0]),
    )
    .unwrap();
    let c = a.matmul(&b);
    assert_eq!(c.shape().dims(), &vec![2usize, 2usize]);
    assert_eq!(c.data(), &from_f64(&[19.0, 22.0, 43.0, 50.0]));
    let t = a.transpose();
    assert_eq!(t.data(), &from_f64(&[1.0, 3.0, 2.0, 4.0]));
}

#[test]
fn matmul_rule_routes_transposed_products() {
    let a = Buffer::new(Shape::new(vec![2, 2]), from_f64(&[1.0, 2.0, 3.0, 4.0])).unwrap();
    let b = Buffer::new(Shape::new(vec![2, 2]), from_f64(&[5.0, 6.0, 7.0, 8.0])).unwrap();
    let upstream = Buffer::new(Shape::new(vec![2, 2]), from_f64(&[1.0, 1.0, 1.0, 1.0])).unwrap();
    let rule = MatMulBackward;
    let (da, db) = rule.backward(&a, &b, &upstream);
    assert_eq!(da.data(), &from_f64(&[11.0, 15.0, 11.0, 15.0]));
    assert_eq!(db.data(), &from_f64(&[4.0, 4.0, 6.0, 6.0]));
}

#[test]
fn dot_builds_the_product_tensor() {
    let mut g = Graph::new();
    let a = g.insert(
        Tensor::from_nested(vec![from_f64(&[1.0, 2.0]), from_f64(&[3.0, 4.0])])
            .unwrap()
            .with_grad(),
    );
    let b = g.insert(
        Tensor::from_nested(vec![from_f64(&[5.0, 6.0]), from_f64(&[7.0, 8.0])]).unwrap(),
    );
    let c = a.dot(&mut g, b).unwrap();
    assert_eq!(g.data(c).data(), &from_f64(&[19.0, 22.0, 43.0, 50.0]));
    assert!(!g.is_leaf(c));
}

#[test]
fn shape_counts_elements() {
    assert_eq!(Shape::new(vec![2, 3]).elem_count(), Some(6));
    assert_eq!(Shape::new(Vec::new()).elem_count(), Some(1));
    assert_eq!(Shape::new(vec![usize::MAX, 2]).elem_count(), None);
    assert_eq!(Shape::new(vec![usize::MAX, 2, 0]).elem_count(), Some(0));
}

#[test]
fn buffer_rejects_a_count_mismatch() {
    assert!(Buffer::new(Shape::new(vec![2, 2]), from_f64(&[1.0, 2.0])).is_none());
    assert!(Buffer::new(Shape::new(vec![3]), from_f64(&[1.0, 2.0])).is_none());
    assert!(Buffer::new(Shape::new(vec![2, 1]), from_f64(&[1.0, 2.0])).is_some());
}

#[test]
fn scalar_constants_carry_their_bit_patterns() {
    assert_eq!(minigrad::scalar::ONE_BITS, 1.0f64.to_bits());
    assert_eq!(minigrad::scalar::ZERO_BITS, 0.0f64.to_bits());
    let b = Buffer::scalar(bits(9.5));
    assert_eq!(b.ones_like().data(), &vec![1.0f64.to_bits()]);
}
