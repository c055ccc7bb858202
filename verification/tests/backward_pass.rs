//! The backward pass: gradient values, routing, accumulation, and the
//! scalar-output restriction.

use minigrad::error::TensorError;
use minigrad::graph::Graph;
use minigrad::tensor::Tensor;

fn bits(x: f64) -> u64 {
    x.to_bits()
}

fn scalar_grad(g: &Graph, t: minigrad::tensor::TensorRef) -> f64 {
    f64::from_bits(g.grad(t).expect("gradient should be populated").data()[0])
}

#[test]
fn additive_identity_grad() {
    let mut g = Graph::new();
    let a = g.insert(Tensor::from_scalar(bits(5.0)).with_grad());
    let b = g.insert(Tensor::from_scalar(bits(7.0)).with_grad());
    let c = a.add(&mut g, b).unwrap();
    c.backward(&mut g).unwrap();
    assert_eq!(scalar_grad(&g, a), 1.0);
    assert_eq!(scalar_grad(&g, b), 1.0);
}

#[test]
fn multiplicative_grad() {
    let mut g = Graph::new();
    let a = g.insert(Tensor::from_scalar(bits(2.0)).with_grad());
    let b = g.insert(Tensor::from_scalar(bits(3.0)).with_grad());
    let c = a.mul(&mut g, b).unwrap();
    c.backward(&mut g).unwrap();
    assert_eq!(scalar_grad(&g, a), 3.0);
    assert_eq!(scalar_grad(&g, b), 2.0);
}

#[test]
fn subtraction_negates_the_right_grad() {
    let mut g = Graph::new();
    let a = g.insert(Tensor::from_scalar(bits(5.0)).with_grad());
    let b = g.insert(Tensor::from_scalar(bits(7.0)).with_grad());
    let c = a.sub(&mut g, b).unwrap();
    c.backward(&mut g).unwrap();
    assert_eq!(scalar_grad(&g, a), 1.0);
    assert_eq!(scalar_grad(&g, b), -1.0);
}

#[test]
fn quotient_rule_grads() {
    let mut g = Graph::new();
    let a = g.insert(Tensor::from_scalar(bits(1.0)).with_grad());
    let b = g.insert(Tensor::from_scalar(bits(2.0)).with_grad());
    let c = a.div(&mut g, b).unwrap();
    c.backward(&mut g).unwrap();
    assert_eq!(scalar_grad(&g, a), 0.5);
    assert_eq!(scalar_grad(&g, b), -0.25);
}

#[test]
fn power_rule() {
    let mut g = Graph::new();
    let x = g.insert(Tensor::from_scalar(bits(2.0)).with_grad());
    let y = x.pow(&mut g, 3);
    assert_eq!(f64::from_bits(g.data(y).data()[0]), 8.0);
    y.backward(&mut g).unwrap();
    assert_eq!(scalar_grad(&g, x), 12.0);
}

#[test]
fn mean_distributes_grad_over_the_elements() {
    let mut g = Graph::new();
    let x = g.insert(
        Tensor::from_slice(vec![bits(1.0), bits(2.0), bits(3.0), bits(4.0)]).with_grad(),
    );
    let m = x.mean(&mut g).unwrap();
    assert_eq!(f64::from_bits(g.data(m).data()[0]), 2.5);
    m.backward(&mut g).unwrap();
    let grad = g.grad(x).unwrap();
    assert_eq!(grad.data(), &vec![bits(0.25); 4]);
}

#[test]
fn reused_operand_accumulates_both_contributions() {
    let mut g = Graph::new();
    let a = g.insert(Tensor::from_scalar(bits(2.0)).with_grad());
    let c = a.add(&mut g, a).unwrap();
    c.backward(&mut g).unwrap();
    assert_eq!(scalar_grad(&g, a), 2.0);
}

#[test]
fn deeper_chain_multiplies_local_grads() {
    let mut g = Graph::new();
    let a = g.insert(Tensor::from_scalar(bits(2.0)).with_grad());
    let b = g.insert(Tensor::from_scalar(bits(3.0)).with_grad());
    let p = a.mul(&mut g, b).unwrap();
    let c = g.insert(Tensor::from_scalar(bits(4.0)));
    let out = p.mul(&mut g, c).unwrap();
    out.backward(&mut g).unwrap();
    assert_eq!(scalar_grad(&g, a), 12.0);
    assert_eq!(scalar_grad(&g, b), 8.0);
}

#[test]
fn non_grad_tensors_never_populate_grad() {
    let mut g = Graph::new();
    let a = g.insert(Tensor::from_scalar(bits(2.0)));
    let b = g.insert(Tensor::from_scalar(bits(3.0)).with_grad());
    let c = a.mul(&mut g, b).unwrap();
    c.backward(&mut g).unwrap();
    assert!(g.grad(a).is_none());
    assert_eq!(scalar_grad(&g, b), 2.0);
}

#[test]
fn backward_on_non_scalar_fails_and_mutates_nothing() {
    let mut g = Graph::new();
    let x = g.insert(Tensor::from_slice(vec![bits(1.0), bits(2.0)]).with_grad());
    let y = g.insert(Tensor::from_slice(vec![bits(3.0), bits(4.0)]).with_grad());
    let c = x.add(&mut g, y).unwrap();
    let before = g.len();
    assert_eq!(c.backward(&mut g).unwrap_err(), TensorError::Shape);
    assert_eq!(g.len(), before);
    assert!(g.grad(x).is_none());
    assert!(g.grad(y).is_none());
}

#[test]
fn zero_grad_clears_a_populated_gradient() {
    let mut g = Graph::new();
    let a = g.insert(Tensor::from_scalar(bits(2.0)).with_grad());
    let b = g.insert(Tensor::from_scalar(bits(3.0)).with_grad());
    let c = a.mul(&mut g, b).unwrap();
    c.backward(&mut g).unwrap();
    assert!(g.grad(a).is_some());
    g.zero_grad(a);
    assert!(g.grad(a).is_none());
    assert!(g.grad(b).is_some());
}

#[test]
fn a_second_backward_accumulates_into_stored_grads() {
    let mut g = Graph::new();
    let a = g.insert(Tensor::from_scalar(bits(5.0)).with_grad());
    let b = g.insert(Tensor::from_scalar(bits(7.0)).with_grad());
    let c = a.add(&mut g, b).unwrap();
    c.backward(&mut g).unwrap();
    c.backward(&mut g).unwrap();
    assert_eq!(scalar_grad(&g, a), 2.0);
    assert_eq!(scalar_grad(&g, b), 2.0);
}

#[test]
fn zero_exponent_gives_ones_forward_and_zero_grad() {
    let mut g = Graph::new();
    let x = g.insert(Tensor::from_scalar(bits(5.0)).with_grad());
    let y = x.pow(&mut g, 0);
    assert_eq!(f64::from_bits(g.data(y).data()[0]), 1.0);
    y.backward(&mut g).unwrap();
    assert_eq!(scalar_grad(&g, x), 0.0);
}
