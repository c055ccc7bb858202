//! Graph construction: flags, provenance, and operator errors.

use minigrad::error::TensorError;
use minigrad::graph::Graph;
use minigrad::tensor::Tensor;

fn bits(x: f64) -> u64 {
    x.to_bits()
}

#[test]
fn leaf_tensors_have_no_provenance() {
    let mut g = Graph::new();
    let a = g.insert(Tensor::from_scalar(bits(1.5)));
    assert!(g.is_leaf(a));
    assert!(g.prov(a).is_none());
    assert!(!g.requires_grad(a));
    assert!(g.grad(a).is_none());
}

#[test]
fn operator_on_grad_requiring_operand_yields_non_leaf() {
    let mut g = Graph::new();
    let a = g.insert(Tensor::from_scalar(bits(1.0)).with_grad());
    let b = g.insert(Tensor::from_scalar(bits(2.0)));
    let c = a.add(&mut g, b).unwrap();
    assert!(!g.is_leaf(c));
    assert!(g.prov(c).is_some());
    assert!(g.requires_grad(c));
}

#[test]
fn operator_on_plain_operands_yields_leaf() {
    let mut g = Graph::new();
    let a = g.insert(Tensor::from_scalar(bits(1.0)));
    let b = g.insert(Tensor::from_scalar(bits(2.0)));
    let c = a.mul(&mut g, b).unwrap();
    assert!(g.is_leaf(c));
    assert!(g.prov(c).is_none());
    assert!(!g.requires_grad(c));
}

#[test]
fn grad_requirement_is_the_disjunction_of_the_operands() {
    let mut g = Graph::new();
    let plain = g.insert(Tensor::from_scalar(bits(1.0)));
    let tracked_one = g.insert(Tensor::from_scalar(bits(2.0)).with_grad());
    let both_plain = plain.add(&mut g, plain).unwrap();
    let left_tracked = tracked_one.add(&mut g, plain).unwrap();
    let right_tracked = plain.add(&mut g, tracked_one).unwrap();
    let both_tracked = tracked_one.add(&mut g, tracked_one).unwrap();
    assert!(!g.requires_grad(both_plain));
    assert!(g.requires_grad(left_tracked));
    assert!(g.requires_grad(right_tracked));
    assert!(g.requires_grad(both_tracked));
}

#[test]
fn elementwise_shape_mismatch_is_reported() {
    let mut g = Graph::new();
    let a = g.insert(Tensor::from_slice(vec![bits(1.0), bits(2.0)]));
    let b = g.insert(Tensor::from_slice(vec![bits(1.0), bits(2.0), bits(3.0)]));
    let before = g.len();
    assert_eq!(a.add(&mut g, b).unwrap_err(), TensorError::Shape);
    assert_eq!(a.sub(&mut g, b).unwrap_err(), TensorError::Shape);
    assert_eq!(a.mul(&mut g, b).unwrap_err(), TensorError::Shape);
    assert_eq!(a.div(&mut g, b).unwrap_err(), TensorError::Shape);
    assert_eq!(g.len(), before);
}

#[test]
fn dot_rejects_mismatched_inner_dimensions() {
    let mut g = Graph::new();
    let a = g.insert(Tensor::from_nested(vec![vec![bits(1.0), bits(2.0)]]).unwrap());
    let b = g.insert(Tensor::from_nested(vec![vec![bits(1.0), bits(2.0)]]).unwrap());
    assert_eq!(a.dot(&mut g, b).unwrap_err(), TensorError::Shape);
    let one_dim = g.insert(Tensor::from_slice(vec![bits(1.0)]));
    assert_eq!(one_dim.dot(&mut g, one_dim).unwrap_err(), TensorError::Shape);
}

#[test]
fn mean_of_empty_tensor_is_absent() {
    let mut g = Graph::new();
    let empty = g.insert(Tensor::from_slice(Vec::new()));
    assert!(empty.mean(&mut g).is_none());
}

#[test]
fn from_nested_rejects_ragged_rows() {
    let ragged = Tensor::from_nested(vec![vec![bits(1.0), bits(2.0)], vec![bits(3.0)]]);
    assert_eq!(ragged.unwrap_err(), TensorError::Shape);
    let err = TensorError::Shape;
    assert_eq!(err.message(), "operand shapes do not fit the operator");
}

#[test]
fn from_nested_builds_row_major_data() {
    let t = Tensor::from_nested(vec![
        vec![bits(1.0), bits(2.0)],
        vec![bits(3.0), bits(4.0)],
    ])
    .unwrap();
    assert_eq!(t.data().shape().dims(), &vec![2usize, 2usize]);
    assert_eq!(
        t.data().data(),
        &vec![bits(1.0), bits(2.0), bits(3.0), bits(4.0)]
    );
}
