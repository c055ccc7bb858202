//! Parameter optimization: stochastic gradient descent.
//!
//! The optimizer holds handles to the parameter tensors of a graph.  A
//! step reads each parameter's gradient, rewrites its data by the scaled
//! gradient, and leaves parameters without a gradient untouched; clearing
//! the gradients afterwards is a separate call, as consumers expect.

use vstd::prelude::*;

use crate::buffer::{scale_buf, sub_bufs};
use crate::graph::{ok_ref, with_data_of, with_grad_of, Graph};
use crate::tensor::{tensor_wf, TensorModel, TensorRef};

verus! {

/// One descent update: the parameter's data minus its gradient scaled by
/// the learning rate; a parameter without a gradient is left as it is.
pub open spec fn sgd_step_one(s: Seq<TensorModel>, p: TensorRef, lr: u64) -> Seq<TensorModel> {
    if 0 <= p.id() < s.len() {
        match s[p.id()].grad {
            None => s,
            Some(gr) => s.update(
                p.id(),
                with_data_of(s[p.id()], sub_bufs(s[p.id()].data, scale_buf(gr, lr))),
            ),
        }
    } else {
        s
    }
}

/// The descent update applied to each parameter in order.
pub open spec fn sgd_step_model(s: Seq<TensorModel>, ps: Seq<TensorRef>, lr: u64) -> Seq<
    TensorModel,
>
    decreases ps.len(),
{
    if ps.len() == 0 {
        s
    } else {
        sgd_step_one(sgd_step_model(s, ps.drop_last(), lr), ps.last(), lr)
    }
}

/// One gradient clearing: the parameter's gradient made absent.
pub open spec fn sgd_zero_one(s: Seq<TensorModel>, p: TensorRef) -> Seq<TensorModel> {
    if 0 <= p.id() < s.len() {
        s.update(p.id(), with_grad_of(s[p.id()], None))
    } else {
        s
    }
}

/// The gradient clearing applied to each parameter in order.
pub open spec fn sgd_zero_model(s: Seq<TensorModel>, ps: Seq<TensorRef>) -> Seq<TensorModel>
    decreases ps.len(),
{
    if ps.len() == 0 {
        s
    } else {
        sgd_zero_one(sgd_zero_model(s, ps.drop_last()), ps.last())
    }
}

/// Stochastic gradient descent over a list of parameter handles, with
/// the learning rate carried as an IEEE-754 binary64 bit pattern.
pub struct SGD {
    pub params: Vec<TensorRef>,
    pub learning_rate: u64,
}

impl SGD {
    /// An optimizer over the given parameters with the given learning
    /// rate.
    pub fn new(params: Vec<TensorRef>, learning_rate: u64) -> (s: SGD)
        ensures
            s.params@ == params@,
            s.learning_rate == learning_rate,
    {
        SGD { params, learning_rate }
    }

    /// Applies one descent update to every parameter, in order: each
    /// parameter with a populated gradient has its data rewritten to
    /// `data - learning_rate * grad`, and each without one is left
    /// untouched.
    pub fn step(&mut self, g: &mut Graph)
        requires
            old(g).wf(),
            forall|j: int|
                0 <= j < old(self).params@.len() ==> ok_ref(old(g)@, #[trigger] old(
                    self,
                ).params@[j]),
        ensures
            final(g)@ =~= sgd_step_model(old(g)@, old(self).params@, old(self).learning_rate),
            final(g).wf(),
            *final(self) == *old(self),
    {
        let ghost s0 = old(g)@;
        let ghost ps = self.params@;
        let n = self.params.len();
        let mut k: usize = 0;
        while k < n
            invariant
                0 <= k <= n,
                n == ps.len(),
                self.params@ == ps,
                self.learning_rate == old(self).learning_rate,
                *self == *old(self),
                forall|j: int| 0 <= j < ps.len() ==> ok_ref(s0, #[trigger] ps[j]),
                g@ =~= sgd_step_model(s0, ps.take(k as int), old(self).learning_rate),
                g.wf(),
                g@.len() == s0.len(),
            decreases n - k,
        {
            let p = self.params[k];
            proof {
                lemma_sgd_step_len(s0, ps.take(k as int), old(self).learning_rate);
                assert(ps.take(k + 1).drop_last() =~= ps.take(k as int));
                assert(ps.take(k + 1).last() == ps[k as int]);
                assert(tensor_wf(g@[p.id()]));
            }
            let upd = {
                match g.grad(p) {
                    Some(gr) => {
                        let scaled = gr.ew_scale(self.learning_rate);
                        Some(g.data(p).ew_sub(&scaled))
                    },
                    None => None,
                }
            };
            match upd {
                Some(nd) => {
                    g.set_data(p, nd);
                },
                None => {},
            }
            proof {
                assert(g@ =~= sgd_step_model(s0, ps.take(k + 1), old(self).learning_rate));
            }
            k = k + 1;
        }
        proof {
            assert(ps.take(n as int) =~= ps);
        }
    }

    /// Clears every parameter's gradient, in order.
    pub fn zero_grad(&mut self, g: &mut Graph)
        requires
            old(g).wf(),
            forall|j: int|
                0 <= j < old(self).params@.len() ==> ok_ref(old(g)@, #[trigger] old(
                    self,
                ).params@[j]),
        ensures
            final(g)@ =~= sgd_zero_model(old(g)@, old(self).params@),
            final(g).wf(),
            *final(self) == *old(self),
    {
        let ghost s0 = old(g)@;
        let ghost ps = self.params@;
        let n = self.params.len();
        let mut k: usize = 0;
        while k < n
            invariant
                0 <= k <= n,
                n == ps.len(),
                self.params@ == ps,
                *self == *old(self),
                forall|j: int| 0 <= j < ps.len() ==> ok_ref(s0, #[trigger] ps[j]),
                g@ =~= sgd_zero_model(s0, ps.take(k as int)),
                g.wf(),
                g@.len() == s0.len(),
            decreases n - k,
        {
            let p = self.params[k];
            proof {
                lemma_sgd_zero_len(s0, ps.take(k as int));
                assert(ps.take(k + 1).drop_last() =~= ps.take(k as int));
                assert(ps.take(k + 1).last() == ps[k as int]);
            }
            g.zero_grad(p);
            proof {
                assert(g@ =~= sgd_zero_model(s0, ps.take(k + 1)));
            }
            k = k + 1;
        }
        proof {
            assert(ps.take(n as int) =~= ps);
        }
    }
}

/// A descent step never changes how many tensors the graph holds.
proof fn lemma_sgd_step_len(s: Seq<TensorModel>, ps: Seq<TensorRef>, lr: u64)
    ensures
        sgd_step_model(s, ps, lr).len() == s.len(),
    decreases ps.len(),
{
    if ps.len() > 0 {
        lemma_sgd_step_len(s, ps.drop_last(), lr);
    }
}

/// Clearing gradients never changes how many tensors the graph holds.
proof fn lemma_sgd_zero_len(s: Seq<TensorModel>, ps: Seq<TensorRef>)
    ensures
        sgd_zero_model(s, ps).len() == s.len(),
    decreases ps.len(),
{
    if ps.len() > 0 {
        lemma_sgd_zero_len(s, ps.drop_last());
    }
}

} // verus!
