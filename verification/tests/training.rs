//! The loss and the optimizer working together on a graph.

use minigrad::graph::Graph;
use minigrad::nn::mse_loss;
use minigrad::optim::SGD;
use minigrad::tensor::Tensor;

fn bits(x: f64) -> u64 {
    x.to_bits()
}

fn from_f64(v: &[f64]) -> Vec<u64> {
    v.iter().map(|x| x.to_bits()).collect()
}

#[test]
fn mse_loss_value_and_grads() {
    let mut g = Graph::new();
    let output = g.insert(Tensor::from_slice(from_f64(&[2.0, 4.0])).with_grad());
    let target = g.insert(Tensor::from_slice(from_f64(&[1.0, 2.0])));
    let loss = mse_loss(&mut g, output, target).unwrap();
    assert_eq!(f64::from_bits(g.data(loss).data()[0]), 2.5);
    loss.backward(&mut g).unwrap();
    // d/d(output) of mean((output - target)^2) is 2 * (output - target) / n.
    assert_eq!(g.grad(output).unwrap().data(), &from_f64(&[1.0, 2.0]));
    assert!(g.grad(target).is_none());
}

#[test]
fn mse_loss_rejects_mismatched_or_empty_operands() {
    let mut g = Graph::new();
    let a = g.insert(Tensor::from_slice(from_f64(&[1.0])));
    let b = g.insert(Tensor::from_slice(from_f64(&[1.0, 2.0])));
    let before = g.len();
    assert!(mse_loss(&mut g, a, b).is_err());
    let empty = g.insert(Tensor::from_slice(Vec::new()));
    assert!(mse_loss(&mut g, empty, empty).is_err());
    assert_eq!(g.len(), before + 1);
}

#[test]
fn sgd_step_rewrites_data_by_the_scaled_gradient() {
    let mut g = Graph::new();
    let w = g.insert(Tensor::from_scalar(bits(2.0)).with_grad());
    let x = g.insert(Tensor::from_scalar(bits(3.0)));
    let out = w.mul(&mut g, x).unwrap();
    out.backward(&mut g).unwrap();
    assert_eq!(f64::from_bits(g.grad(w).unwrap().data()[0]), 3.0);

    let mut opt = SGD::new(vec![w], bits(0.1));
    opt.step(&mut g);
    let expected = 2.0f64 - 3.0f64 * 0.1f64;
    assert_eq!(f64::from_bits(g.data(w).data()[0]), expected);

    opt.zero_grad(&mut g);
    assert!(g.grad(w).is_none());
}

#[test]
fn sgd_step_skips_parameters_without_gradient() {
    let mut g = Graph::new();
    let w = g.insert(Tensor::from_scalar(bits(2.0)).with_grad());
    let mut opt = SGD::new(vec![w], bits(0.5));
    opt.step(&mut g);
    assert_eq!(f64::from_bits(g.data(w).data()[0]), 2.0);
}

#[test]
fn a_descent_step_reduces_the_loss() {
    let mut g = Graph::new();
    let w = g.insert(Tensor::from_slice(from_f64(&[0.0, 0.0])).with_grad());
    let target = g.insert(Tensor::from_slice(from_f64(&[1.0, -1.0])));
    let loss = mse_loss(&mut g, w, target).unwrap();
    let before = f64::from_bits(g.data(loss).data()[0]);
    loss.backward(&mut g).unwrap();
    let mut opt = SGD::new(vec![w], bits(0.25));
    opt.step(&mut g);
    opt.zero_grad(&mut g);
    let loss2 = mse_loss(&mut g, w, target).unwrap();
    let after = f64::from_bits(g.data(loss2).data()[0]);
    assert!(after < before);
}
