//! Dense numeric buffers: the N-dimensional arrays that tensors own.
//!
//! A buffer is a row-major vector of IEEE-754 binary64 bit patterns
//! together with its dimensions.  All element arithmetic goes through the
//! named scalar operations of [`crate::scalar`], so every buffer operation
//! has an exact element-by-element contract.

use vstd::prelude::*;

use crate::scalar::{
    add_bits, apf_add, apf_div, apf_le, apf_lt, apf_mul, apf_nat, apf_neg, apf_sub, div_bits,
    le_bits, lt_bits, mul_bits, nat_bits, neg_bits, pow_bits, sub_bits, sum_bits, ONE_BITS,
    ZERO_BITS,
};

verus! {

/// The dimensions of a buffer, outermost first.  A buffer with no
/// dimensions is a scalar and holds exactly one element.
#[derive(Clone, Debug)]
pub struct Shape(Vec<usize>);

/// The number of elements a list of dimensions describes: the product of
/// the dimensions, and one for the empty list.
pub open spec fn count(dims: Seq<usize>) -> nat
    decreases dims.len(),
{
    if dims.len() == 0 {
        1
    } else {
        count(dims.drop_last()) * (dims.last() as nat)
    }
}

/// A dimension of zero makes the whole element count zero.
proof fn lemma_count_zero_dim(dims: Seq<usize>, i: int)
    requires
        0 <= i < dims.len(),
        dims[i] == 0,
    ensures
        count(dims) == 0,
    decreases dims.len(),
{
    if i == dims.len() - 1 {
        assert(dims.last() == 0);
        assert(count(dims) == count(dims.drop_last()) * 0);
    } else {
        assert(dims.drop_last()[i] == dims[i]);
        lemma_count_zero_dim(dims.drop_last(), i);
        assert(count(dims) == 0 * (dims.last() as nat));
    }
}

/// With only nonzero dimensions after the prefix, the count of a prefix is
/// at most the count of the whole list.
proof fn lemma_count_prefix_le(dims: Seq<usize>, k: int)
    requires
        0 <= k <= dims.len(),
        forall|j: int| k <= j < dims.len() ==> dims[j] >= 1,
    ensures
        count(dims.take(k)) <= count(dims),
    decreases dims.len() - k,
{
    if k == dims.len() {
        assert(dims.take(k) =~= dims);
    } else {
        lemma_count_prefix_le(dims, k + 1);
        assert(dims.take(k + 1).drop_last() =~= dims.take(k));
        assert(dims.take(k + 1).last() == dims[k]);
        assert(count(dims.take(k)) * 1 <= count(dims.take(k)) * dims[k]) by (nonlinear_arith)
            requires
                dims[k] >= 1,
        ;
    }
}

impl View for Shape {
    type V = Seq<usize>;

    closed spec fn view(&self) -> Seq<usize> {
        self.0@
    }
}

impl Shape {
    /// Wraps a list of dimensions.
    pub fn new(dims: Vec<usize>) -> (s: Shape)
        ensures
            s@ == dims@,
    {
        Shape(dims)
    }

    /// The dimensions, outermost first.
    pub fn dims(&self) -> (r: &Vec<usize>)
        ensures
            r@ == self@,
    {
        &self.0
    }

    /// How many dimensions the shape has.
    pub fn ndim(&self) -> (r: usize)
        ensures
            r == self@.len(),
    {
        self.0.len()
    }

    /// Whether two shapes have the same dimensions.
    pub fn matches(&self, other: &Shape) -> (r: bool)
        ensures
            r ==> self@ == other@,
            !r ==> self@ != other@,
    {
        let n = self.0.len();
        if n != other.0.len() {
            return false;
        }
        let mut i: usize = 0;
        while i < n
            invariant
                0 <= i <= n,
                n == self@.len(),
                n == other@.len(),
                forall|j: int| 0 <= j < i ==> self@[j] == other@[j],
            decreases n - i,
        {
            if self.0[i] != other.0[i] {
                return false;
            }
            i = i + 1;
        }
        proof {
            assert(self@ =~= other@);
        }
        true
    }

    /// The number of elements a buffer of this shape holds, or `None` when
    /// that number does not fit in a `usize`.
    pub fn elem_count(&self) -> (r: Option<usize>)
        ensures
            match r {
                Some(n) => n == count(self@),
                None => count(self@) > usize::MAX,
            },
    {
        let ghost dims = self@;
        let n = self.0.len();
        let mut i: usize = 0;
        while i < n
            invariant
                0 <= i <= n,
                n == dims.len(),
                self@ == dims,
                forall|j: int| 0 <= j < i ==> dims[j] >= 1,
            decreases n - i,
        {
            if self.0[i] == 0 {
                proof {
                    lemma_count_zero_dim(dims, i as int);
                }
                return Some(0);
            }
            i = i + 1;
        }
        let mut acc: usize = 1;
        let mut k: usize = 0;
        while k < n
            invariant
                0 <= k <= n,
                n == dims.len(),
                self@ == dims,
                acc == count(dims.take(k as int)),
                forall|j: int| 0 <= j < n ==> dims[j] >= 1,
            decreases n - k,
        {
            let d = self.0[k];
            proof {
                assert(dims.take(k + 1).drop_last() =~= dims.take(k as int));
                assert(dims.take(k + 1).last() == dims[k as int]);
            }
            match acc.checked_mul(d) {
                Some(next) => {
                    acc = next;
                }
                None => {
                    proof {
                        lemma_count_prefix_le(dims, k + 1);
                    }
                    return None;
                }
            }
            k = k + 1;
        }
        proof {
            assert(dims.take(n as int) =~= dims);
        }
        Some(acc)
    }
}

/// The mathematical value of a buffer: its dimensions and its flat
/// row-major list of element bit patterns.
#[verifier::ext_equal]
pub ghost struct BufModel {
    pub shape: Seq<usize>,
    pub data: Seq<u64>,
}

/// A buffer is well formed when it holds exactly as many elements as its
/// dimensions describe.
pub open spec fn buf_wf(b: BufModel) -> bool {
    b.data.len() == count(b.shape)
}

/// A dense N-dimensional array of IEEE-754 binary64 bit patterns.
#[derive(Clone, Debug)]
pub struct Buffer {
    shape: Shape,
    data: Vec<u64>,
}

impl View for Buffer {
    type V = BufModel;

    closed spec fn view(&self) -> BufModel {
        BufModel { shape: self.shape@, data: self.data@ }
    }
}

impl Buffer {
    /// Whether the buffer holds exactly as many elements as its shape describes.
    pub open spec fn wf(&self) -> bool {
        buf_wf(self@)
    }

    /// Builds a buffer from dimensions and elements; fails exactly when the
    /// number of elements does not match the dimensions.
    pub fn new(shape: Shape, data: Vec<u64>) -> (r: Option<Buffer>)
        ensures
            match r {
                Some(b) => b@.shape == shape@ && b@.data == data@ && b.wf(),
                None => data@.len() != count(shape@),
            },
    {
        let len = data.len();
        match shape.elem_count() {
            Some(n) => {
                if n == len {
                    Some(Buffer { shape, data })
                } else {
                    None
                }
            }
            None => None,
        }
    }

    /// A zero-dimensional buffer holding the one given element.
    pub fn scalar(x: u64) -> (r: Buffer)
        ensures
            r@.shape == Seq::<usize>::empty(),
            r@.data == seq![x],
            r.wf(),
    {
        let b = Buffer { shape: Shape(Vec::new()), data: vec![x] };
        proof {
            assert(b@.shape =~= Seq::<usize>::empty());
            assert(b@.data =~= seq![x]);
        }
        b
    }

    /// A one-dimensional buffer holding the given elements.
    pub fn vector(data: Vec<u64>) -> (r: Buffer)
        ensures
            r@.shape =~= seq![data@.len() as usize],
            r@.data == data@,
            r.wf(),
    {
        let n = data.len();
        let mut dims: Vec<usize> = Vec::new();
        dims.push(n);
        let r = Buffer { shape: Shape(dims), data };
        proof {
            assert(r@.shape =~= seq![n]);
            assert(seq![n].drop_last() =~= Seq::<usize>::empty());
            assert(count(Seq::<usize>::empty()) == 1);
            assert(count(seq![n]) == 1 * (n as nat));
        }
        r
    }

    /// The dimensions of the buffer.
    pub fn shape(&self) -> (r: &Shape)
        ensures
            r@ == self@.shape,
    {
        &self.shape
    }

    /// The elements of the buffer, row major.
    pub fn data(&self) -> (r: &Vec<u64>)
        ensures
            r@ == self@.data,
    {
        &self.data
    }

    /// How many dimensions the buffer has.
    pub fn ndim(&self) -> (r: usize)
        ensures
            r == self@.shape.len(),
    {
        self.shape.ndim()
    }

    /// How many elements the buffer holds.
    pub fn len(&self) -> (r: usize)
        ensures
            r == self@.data.len(),
    {
        self.data.len()
    }

    /// A fresh buffer with the same dimensions and elements.
    pub fn duplicate(&self) -> (r: Buffer)
        ensures
            r@ == self@,
    {
        let n = self.data.len();
        let mut data: Vec<u64> = Vec::new();
        let mut k: usize = 0;
        while k < n
            invariant
                0 <= k <= n,
                n == self@.data.len(),
                data@ =~= self@.data.take(k as int),
            decreases n - k,
        {
            data.push(self.data[k]);
            k = k + 1;
        }
        let r = Buffer { shape: Shape(copy_dims(&self.shape.0)), data };
        proof {
            assert(self@.data.take(n as int) =~= self@.data);
            assert(r@ =~= self@);
        }
        r
    }
}

/// A fresh vector with the same dimensions.
fn copy_dims(v: &Vec<usize>) -> (r: Vec<usize>)
    ensures
        r@ == v@,
{
    let n = v.len();
    let mut r: Vec<usize> = Vec::new();
    let mut k: usize = 0;
    while k < n
        invariant
            0 <= k <= n,
            n == v@.len(),
            r@ =~= v@.take(k as int),
        decreases n - k,
    {
        r.push(v[k]);
        k = k + 1;
    }
    proof {
        assert(v@.take(n as int) =~= v@);
    }
    r
}

/// Element-by-element application of a named scalar operation to two
/// buffers of equal shape.
pub ghost enum EwOp {
    Add,
    Sub,
    Mul,
    Div,
}

/// The named scalar operation an elementwise operator applies.
pub open spec fn ew_bits(op: EwOp, x: u64, y: u64) -> u64 {
    match op {
        EwOp::Add => add_bits(x, y),
        EwOp::Sub => sub_bits(x, y),
        EwOp::Mul => mul_bits(x, y),
        EwOp::Div => div_bits(x, y),
    }
}

/// The value of an elementwise operator: the left shape, and the named
/// scalar operation applied at each position.
pub open spec fn ew_bufs(op: EwOp, a: BufModel, b: BufModel) -> BufModel {
    BufModel {
        shape: a.shape,
        data: Seq::new(a.data.len(), |i: int| ew_bits(op, a.data[i], b.data[i])),
    }
}

/// The elementwise IEEE-754 sum of two buffers of equal shape.
pub open spec fn add_bufs(a: BufModel, b: BufModel) -> BufModel {
    ew_bufs(EwOp::Add, a, b)
}

/// The elementwise IEEE-754 difference of two buffers of equal shape.
pub open spec fn sub_bufs(a: BufModel, b: BufModel) -> BufModel {
    ew_bufs(EwOp::Sub, a, b)
}

/// The elementwise IEEE-754 product of two buffers of equal shape.
pub open spec fn mul_bufs(a: BufModel, b: BufModel) -> BufModel {
    ew_bufs(EwOp::Mul, a, b)
}

/// The elementwise IEEE-754 quotient of two buffers of equal shape.
pub open spec fn div_bufs(a: BufModel, b: BufModel) -> BufModel {
    ew_bufs(EwOp::Div, a, b)
}

/// The elementwise IEEE-754 negation of a buffer.
pub open spec fn neg_buf(a: BufModel) -> BufModel {
    BufModel { shape: a.shape, data: Seq::new(a.data.len(), |i: int| neg_bits(a.data[i])) }
}

/// Every element of `a` multiplied by the one scalar `k`.
pub open spec fn scale_buf(a: BufModel, k: u64) -> BufModel {
    BufModel { shape: a.shape, data: Seq::new(a.data.len(), |i: int| mul_bits(a.data[i], k)) }
}

/// A buffer of the given shape with every element one.
pub open spec fn ones_of(shape: Seq<usize>) -> BufModel {
    BufModel { shape: shape, data: Seq::new(count(shape), |i: int| ONE_BITS) }
}

/// The rectifier applied to each element: zero for elements strictly below
/// zero, the element itself otherwise.
pub open spec fn relu_fwd_buf(a: BufModel) -> BufModel {
    BufModel {
        shape: a.shape,
        data: Seq::new(
            a.data.len(),
            |i: int| if lt_bits(a.data[i], ZERO_BITS) { ZERO_BITS } else { a.data[i] },
        ),
    }
}

/// The rectifier's gradient: the upstream gradient where the input was
/// strictly above zero, and zero at or below it.
pub open spec fn relu_grad_buf(x: BufModel, g: BufModel) -> BufModel {
    BufModel {
        shape: x.shape,
        data: Seq::new(
            x.data.len(),
            |i: int|
                mul_bits(
                    g.data[i],
                    if le_bits(x.data[i], ZERO_BITS) { ZERO_BITS } else { ONE_BITS },
                ),
        ),
    }
}

/// Each element raised to the natural power `e`.
pub open spec fn pow_fwd_buf(a: BufModel, e: u32) -> BufModel {
    BufModel { shape: a.shape, data: Seq::new(a.data.len(), |i: int| pow_bits(a.data[i], e as nat)) }
}

/// The exponent an element's power-rule gradient raises it to: one less
/// than the operator's exponent, and zero for a constant.
pub open spec fn pred_exp(e: u32) -> nat {
    if e == 0 {
        0
    } else {
        (e - 1) as nat
    }
}

/// The power rule's gradient: the upstream gradient times `e` times the
/// input raised to `e - 1`, at each position.
pub open spec fn pow_grad_buf(x: BufModel, g: BufModel, e: u32) -> BufModel {
    BufModel {
        shape: x.shape,
        data: Seq::new(
            x.data.len(),
            |i: int|
                mul_bits(
                    g.data[i],
                    mul_bits(nat_bits(e as usize), pow_bits(x.data[i], pred_exp(e))),
                ),
        ),
    }
}

/// The scalar mean of a nonempty buffer: the left-to-right IEEE-754 sum of
/// its elements divided by their number.
pub open spec fn mean_buf(a: BufModel) -> BufModel {
    BufModel {
        shape: Seq::<usize>::empty(),
        data: seq![div_bits(sum_bits(a.data), nat_bits(a.data.len() as usize))],
    }
}

/// The mean's gradient: the one upstream element divided by the element
/// count, broadcast to the operand's shape.
pub open spec fn mean_grad_buf(x: BufModel, g: BufModel) -> BufModel {
    BufModel {
        shape: x.shape,
        data: Seq::new(
            x.data.len(),
            |i: int| div_bits(g.data[0], nat_bits(x.data.len() as usize)),
        ),
    }
}

impl Buffer {
    /// Applies one of the four elementwise operators to two buffers of
    /// equal shape.
    fn ew(&self, op: Ghost<EwOp>, other: &Buffer, which: u8) -> (r: Buffer)
        requires
            self.wf(),
            other.wf(),
            self@.shape == other@.shape,
            which == match op@ {
                EwOp::Add => 0u8,
                EwOp::Sub => 1u8,
                EwOp::Mul => 2u8,
                EwOp::Div => 3u8,
            },
        ensures
            r@ == ew_bufs(op@, self@, other@),
            r.wf(),
    {
        let n = self.data.len();
        let mut data: Vec<u64> = Vec::new();
        let mut k: usize = 0;
        while k < n
            invariant
                0 <= k <= n,
                n == self@.data.len(),
                n == other@.data.len(),
                self.wf(),
                which == match op@ {
                    EwOp::Add => 0u8,
                    EwOp::Sub => 1u8,
                    EwOp::Mul => 2u8,
                    EwOp::Div => 3u8,
                },
                data@ =~= ew_bufs(op@, self@, other@).data.take(k as int),
            decreases n - k,
        {
            let x = self.data[k];
            let y = other.data[k];
            let v = if which == 0 {
                apf_add(x, y)
            } else if which == 1 {
                apf_sub(x, y)
            } else if which == 2 {
                apf_mul(x, y)
            } else {
                apf_div(x, y)
            };
            data.push(v);
            k = k + 1;
        }
        let r = Buffer { shape: Shape(copy_dims(&self.shape.0)), data };
        proof {
            assert(r@ =~= ew_bufs(op@, self@, other@));
        }
        r
    }

    /// The elementwise IEEE-754 sum of two buffers of equal shape.
    pub fn ew_add(&self, other: &Buffer) -> (r: Buffer)
        requires
            self.wf(),
            other.wf(),
            self@.shape == other@.shape,
        ensures
            r@ == add_bufs(self@, other@),
            r.wf(),
    {
        self.ew(Ghost(EwOp::Add), other, 0)
    }

    /// The elementwise IEEE-754 difference of two buffers of equal shape.
    pub fn ew_sub(&self, other: &Buffer) -> (r: Buffer)
        requires
            self.wf(),
            other.wf(),
            self@.shape == other@.shape,
        ensures
            r@ == sub_bufs(self@, other@),
            r.wf(),
    {
        self.ew(Ghost(EwOp::Sub), other, 1)
    }

    /// The elementwise IEEE-754 product of two buffers of equal shape.
    pub fn ew_mul(&self, other: &Buffer) -> (r: Buffer)
        requires
            self.wf(),
            other.wf(),
            self@.shape == other@.shape,
        ensures
            r@ == mul_bufs(self@, other@),
            r.wf(),
    {
        self.ew(Ghost(EwOp::Mul), other, 2)
    }

    /// The elementwise IEEE-754 quotient of two buffers of equal shape.
    pub fn ew_div(&self, other: &Buffer) -> (r: Buffer)
        requires
            self.wf(),
            other.wf(),
            self@.shape == other@.shape,
        ensures
            r@ == div_bufs(self@, other@),
            r.wf(),
    {
        self.ew(Ghost(EwOp::Div), other, 3)
    }

    /// The elementwise IEEE-754 negation of the buffer.
    pub fn ew_neg(&self) -> (r: Buffer)
        requires
            self.wf(),
        ensures
            r@ == neg_buf(self@),
            r.wf(),
    {
        let n = self.data.len();
        let mut data: Vec<u64> = Vec::new();
        let mut k: usize = 0;
        while k < n
            invariant
                0 <= k <= n,
                n == self@.data.len(),
                data@ =~= neg_buf(self@).data.take(k as int),
            decreases n - k,
        {
            data.push(apf_neg(self.data[k]));
            k = k + 1;
        }
        let r = Buffer { shape: Shape(copy_dims(&self.shape.0)), data };
        proof {
            assert(r@ =~= neg_buf(self@));
        }
        r
    }

    /// Every element multiplied by the one scalar `k`.
    pub fn ew_scale(&self, k: u64) -> (r: Buffer)
        requires
            self.wf(),
        ensures
            r@ == scale_buf(self@, k),
            r.wf(),
    {
        let n = self.data.len();
        let mut data: Vec<u64> = Vec::new();
        let mut i: usize = 0;
        while i < n
            invariant
                0 <= i <= n,
                n == self@.data.len(),
                data@ =~= scale_buf(self@, k).data.take(i as int),
            decreases n - i,
        {
            data.push(apf_mul(self.data[i], k));
            i = i + 1;
        }
        let r = Buffer { shape: Shape(copy_dims(&self.shape.0)), data };
        proof {
            assert(r@ =~= scale_buf(self@, k));
        }
        r
    }

    /// A buffer of the same shape with every element one.
    pub fn ones_like(&self) -> (r: Buffer)
        requires
            self.wf(),
        ensures
            r@ == ones_of(self@.shape),
            r.wf(),
    {
        let n = self.data.len();
        let mut data: Vec<u64> = Vec::new();
        let mut k: usize = 0;
        while k < n
            invariant
                0 <= k <= n,
                n == self@.data.len(),
                n == count(self@.shape),
                data@ =~= ones_of(self@.shape).data.take(k as int),
            decreases n - k,
        {
            data.push(ONE_BITS);
            k = k + 1;
        }
        let r = Buffer { shape: Shape(copy_dims(&self.shape.0)), data };
        proof {
            assert(r@ =~= ones_of(self@.shape));
        }
        r
    }

    /// The rectifier applied to each element.
    pub fn relu_fwd(&self) -> (r: Buffer)
        requires
            self.wf(),
        ensures
            r@ == relu_fwd_buf(self@),
            r.wf(),
    {
        let n = self.data.len();
        let mut data: Vec<u64> = Vec::new();
        let mut k: usize = 0;
        while k < n
            invariant
                0 <= k <= n,
                n == self@.data.len(),
                data@ =~= relu_fwd_buf(self@).data.take(k as int),
            decreases n - k,
        {
            let x = self.data[k];
            let v = if apf_lt(x, ZERO_BITS) {
                ZERO_BITS
            } else {
                x
            };
            data.push(v);
            k = k + 1;
        }
        let r = Buffer { shape: Shape(copy_dims(&self.shape.0)), data };
        proof {
            assert(r@ =~= relu_fwd_buf(self@));
        }
        r
    }

    /// The rectifier's gradient, given this buffer as the operator's input
    /// and `g` as the upstream gradient of the same shape.
    pub fn relu_grad(&self, g: &Buffer) -> (r: Buffer)
        requires
            self.wf(),
            g.wf(),
            self@.shape == g@.shape,
        ensures
            r@ == relu_grad_buf(self@, g@),
            r.wf(),
    {
        let n = self.data.len();
        let mut data: Vec<u64> = Vec::new();
        let mut k: usize = 0;
        while k < n
            invariant
                0 <= k <= n,
                n == self@.data.len(),
                n == g@.data.len(),
                data@ =~= relu_grad_buf(self@, g@).data.take(k as int),
            decreases n - k,
        {
            let mask = if apf_le(self.data[k], ZERO_BITS) {
                ZERO_BITS
            } else {
                ONE_BITS
            };
            data.push(apf_mul(g.data[k], mask));
            k = k + 1;
        }
        let r = Buffer { shape: Shape(copy_dims(&self.shape.0)), data };
        proof {
            assert(r@ =~= relu_grad_buf(self@, g@));
        }
        r
    }

    /// Each element raised to the natural power `e`.
    pub fn pow_fwd(&self, e: u32) -> (r: Buffer)
        requires
            self.wf(),
        ensures
            r@ == pow_fwd_buf(self@, e),
            r.wf(),
    {
        let n = self.data.len();
        let mut data: Vec<u64> = Vec::new();
        let mut k: usize = 0;
        while k < n
            invariant
                0 <= k <= n,
                n == self@.data.len(),
                data@ =~= pow_fwd_buf(self@, e).data.take(k as int),
            decreases n - k,
        {
            data.push(pow_elem(self.data[k], e));
            k = k + 1;
        }
        let r = Buffer { shape: Shape(copy_dims(&self.shape.0)), data };
        proof {
            assert(r@ =~= pow_fwd_buf(self@, e));
        }
        r
    }

    /// The power rule's gradient, given this buffer as the operator's input
    /// and `g` as the upstream gradient of the same shape.
    pub fn pow_grad(&self, g: &Buffer, e: u32) -> (r: Buffer)
        requires
            self.wf(),
            g.wf(),
            self@.shape == g@.shape,
        ensures
            r@ == pow_grad_buf(self@, g@, e),
            r.wf(),
    {
        let factor = apf_nat(e as usize);
        let pe: u32 = if e == 0 {
            0
        } else {
            e - 1
        };
        let n = self.data.len();
        let mut data: Vec<u64> = Vec::new();
        let mut k: usize = 0;
        while k < n
            invariant
                0 <= k <= n,
                n == self@.data.len(),
                n == g@.data.len(),
                factor == nat_bits(e as usize),
                pe as nat == pred_exp(e),
                data@ =~= pow_grad_buf(self@, g@, e).data.take(k as int),
            decreases n - k,
        {
            let p = pow_elem(self.data[k], pe);
            data.push(apf_mul(g.data[k], apf_mul(factor, p)));
            k = k + 1;
        }
        let r = Buffer { shape: Shape(copy_dims(&self.shape.0)), data };
        proof {
            assert(r@ =~= pow_grad_buf(self@, g@, e));
        }
        r
    }

    /// The scalar mean of a nonempty buffer.
    pub fn mean_fwd(&self) -> (r: Buffer)
        requires
            self.wf(),
            self@.data.len() > 0,
        ensures
            r@ == mean_buf(self@),
            r.wf(),
    {
        let n = self.data.len();
        let mut acc: u64 = ZERO_BITS;
        let mut k: usize = 0;
        while k < n
            invariant
                0 <= k <= n,
                n == self@.data.len(),
                acc == sum_bits(self@.data.take(k as int)),
            decreases n - k,
        {
            proof {
                assert(self@.data.take(k + 1).drop_last() =~= self@.data.take(k as int));
                assert(self@.data.take(k + 1).last() == self@.data[k as int]);
            }
            acc = apf_add(acc, self.data[k]);
            k = k + 1;
        }
        proof {
            assert(self@.data.take(n as int) =~= self@.data);
        }
        let v = apf_div(acc, apf_nat(n));
        let r = Buffer::scalar(v);
        proof {
            assert(r@ =~= mean_buf(self@));
        }
        r
    }

    /// The mean's gradient, given this buffer as the operator's input and
    /// the scalar `g` as the upstream gradient.
    pub fn mean_grad(&self, g: &Buffer) -> (r: Buffer)
        requires
            self.wf(),
            g.wf(),
            g@.data.len() == 1,
        ensures
            r@ == mean_grad_buf(self@, g@),
            r.wf(),
    {
        let n = self.data.len();
        let v = apf_div(g.data[0], apf_nat(n));
        let mut data: Vec<u64> = Vec::new();
        let mut k: usize = 0;
        while k < n
            invariant
                0 <= k <= n,
                n == self@.data.len(),
                v == div_bits(g@.data[0], nat_bits(n)),
                data@ =~= mean_grad_buf(self@, g@).data.take(k as int),
            decreases n - k,
        {
            data.push(v);
            k = k + 1;
        }
        let r = Buffer { shape: Shape(copy_dims(&self.shape.0)), data };
        proof {
            assert(r@ =~= mean_grad_buf(self@, g@));
        }
        r
    }
}

/// The element count of a two-dimensional shape is the product of its two
/// dimensions.
pub proof fn lemma_count_pair(x: usize, y: usize)
    ensures
        count(seq![x, y]) == x * y,
{
    let s = seq![x, y];
    assert(s.drop_last() =~= seq![x]);
    assert(seq![x].drop_last() =~= Seq::<usize>::empty());
    assert(count(Seq::<usize>::empty()) == 1);
    assert(count(seq![x]) == 1 * (x as nat));
    assert(count(s) == count(seq![x]) * (y as nat));
}

/// The IEEE-754 left fold, from positive zero, of the first `t` products
/// of row `i` of an `m` by `k` buffer against column `j` of a `k` by `n`
/// buffer, both row major.
pub open spec fn mm_acc(a: Seq<u64>, b: Seq<u64>, k: int, n: int, i: int, j: int, t: nat) -> u64
    decreases t,
{
    if t == 0 {
        ZERO_BITS
    } else {
        add_bits(
            mm_acc(a, b, k, n, i, j, (t - 1) as nat),
            mul_bits(a[i * k + (t - 1)], b[(t - 1) * n + j]),
        )
    }
}

/// The matrix product of an `m` by `k` buffer and a `k` by `n` buffer:
/// each element is the inner product of a row of the left operand with a
/// column of the right one.
pub open spec fn matmul_bufs(a: BufModel, b: BufModel) -> BufModel {
    let m = a.shape[0] as int;
    let k = a.shape[1] as int;
    let n = b.shape[1] as int;
    BufModel {
        shape: seq![a.shape[0], b.shape[1]],
        data: Seq::new((m * n) as nat, |idx: int| mm_acc(a.data, b.data, k, n, idx / n, idx % n, k as nat)),
    }
}

/// The transpose of an `m` by `n` buffer: element `(i, j)` of the result
/// is element `(j, i)` of the operand.
pub open spec fn transpose_bufs(a: BufModel) -> BufModel {
    let m = a.shape[0] as int;
    let n = a.shape[1] as int;
    BufModel {
        shape: seq![a.shape[1], a.shape[0]],
        data: Seq::new((n * m) as nat, |idx: int| a.data[(idx % m) * n + idx / m]),
    }
}

impl Buffer {
    /// The matrix product of two two-dimensional buffers whose inner
    /// dimensions match.
    pub fn matmul(&self, other: &Buffer) -> (r: Buffer)
        requires
            self.wf(),
            other.wf(),
            self@.shape.len() == 2,
            other@.shape.len() == 2,
            self@.shape[1] == other@.shape[0],
        ensures
            r@ == matmul_bufs(self@, other@),
            r@.shape == seq![self@.shape[0], other@.shape[1]],
            r.wf(),
    {
        let m = self.shape.0[0];
        let kk = self.shape.0[1];
        let n = other.shape.0[1];
        proof {
            assert(self@.shape =~= seq![self@.shape[0], self@.shape[1]]);
            assert(other@.shape =~= seq![other@.shape[0], other@.shape[1]]);
            lemma_count_pair(m, kk);
            lemma_count_pair(kk, n);
        }
        let ghost model = matmul_bufs(self@, other@);
        let mlen = self.data.len();
        let olen = other.data.len();
        assert(m * kk <= usize::MAX && kk * n <= usize::MAX);
        let mut data: Vec<u64> = Vec::new();
        let mut i: usize = 0;
        while i < m
            invariant
                0 <= i <= m,
                self.wf(),
                other.wf(),
                self@.shape =~= seq![m, kk],
                other@.shape =~= seq![kk, n],
                self@.data.len() == m * kk,
                other@.data.len() == kk * n,
                m * kk <= usize::MAX,
                kk * n <= usize::MAX,
                model == matmul_bufs(self@, other@),
                data@ =~= model.data.take((i * n) as int),
            decreases m - i,
        {
            let mut j: usize = 0;
            while j < n
                invariant
                    0 <= i < m,
                    0 <= j <= n,
                    self.wf(),
                    other.wf(),
                    self@.shape =~= seq![m, kk],
                    other@.shape =~= seq![kk, n],
                    self@.data.len() == m * kk,
                    other@.data.len() == kk * n,
                    m * kk <= usize::MAX,
                    kk * n <= usize::MAX,
                    model == matmul_bufs(self@, other@),
                    data@ =~= model.data.take((i * n + j) as int),
                decreases n - j,
            {
                let mut acc: u64 = ZERO_BITS;
                let mut t: usize = 0;
                while t < kk
                    invariant
                        0 <= i < m,
                        0 <= j < n,
                        0 <= t <= kk,
                        self.wf(),
                        other.wf(),
                        self@.shape =~= seq![m, kk],
                        other@.shape =~= seq![kk, n],
                        self@.data.len() == m * kk,
                        other@.data.len() == kk * n,
                        m * kk <= usize::MAX,
                        kk * n <= usize::MAX,
                        acc == mm_acc(self@.data, other@.data, kk as int, n as int, i as int, j as int, t as nat),
                    decreases kk - t,
                {
                    proof {
                        assert(i * kk + t < m * kk) by (nonlinear_arith)
                            requires
                                0 <= i < m,
                                0 <= t < kk,
                        ;
                        assert(t * n + j < kk * n) by (nonlinear_arith)
                            requires
                                0 <= t < kk,
                                0 <= j < n,
                        ;
                    }
                    let x = self.data[i * kk + t];
                    let y = other.data[t * n + j];
                    acc = apf_add(acc, apf_mul(x, y));
                    t = t + 1;
                }
                proof {
                    assert(i * n + j < m * n) by (nonlinear_arith)
                        requires
                            0 <= i < m,
                            0 <= j < n,
                    ;
                    vstd::arithmetic::div_mod::lemma_fundamental_div_mod_converse(
                        i * n + j,
                        n as int,
                        i as int,
                        j as int,
                    );
                    assert(model.data[(i * n + j) as int] == acc);
                }
                data.push(acc);
                proof {
                    assert(data@ =~= model.data.take((i * n + j + 1) as int));
                }
                j = j + 1;
            }
            i = i + 1;
            proof {
                assert(i * n == (i - 1) * n + n) by (nonlinear_arith);
            }
        }
        proof {
            assert(model.data.take((m * n) as int) =~= model.data);
        }
        let mut dims: Vec<usize> = Vec::new();
        dims.push(m);
        dims.push(n);
        let r = Buffer { shape: Shape(dims), data };
        proof {
            lemma_count_pair(m, n);
            assert(r@ =~= model);
        }
        r
    }

    /// The transpose of a two-dimensional buffer.
    pub fn transpose(&self) -> (r: Buffer)
        requires
            self.wf(),
            self@.shape.len() == 2,
        ensures
            r@ == transpose_bufs(self@),
            r.wf(),
    {
        let m = self.shape.0[0];
        let n = self.shape.0[1];
        proof {
            assert(self@.shape =~= seq![m, n]);
            lemma_count_pair(m, n);
        }
        let ghost model = transpose_bufs(self@);
        let mlen = self.data.len();
        assert(m * n <= usize::MAX);
        let mut data: Vec<u64> = Vec::new();
        let mut i: usize = 0;
        while i < n
            invariant
                0 <= i <= n,
                self.wf(),
                self@.shape =~= seq![m, n],
                self@.data.len() == m * n,
                m * n <= usize::MAX,
                model == transpose_bufs(self@),
                data@ =~= model.data.take((i * m) as int),
            decreases n - i,
        {
            let mut j: usize = 0;
            while j < m
                invariant
                    0 <= i < n,
                    0 <= j <= m,
                    self.wf(),
                    self@.shape =~= seq![m, n],
                    self@.data.len() == m * n,
                    m * n <= usize::MAX,
                    model == transpose_bufs(self@),
                    data@ =~= model.data.take((i * m + j) as int),
                decreases m - j,
            {
                proof {
                    assert(j * n + i < m * n) by (nonlinear_arith)
                        requires
                            0 <= j < m,
                            0 <= i < n,
                    ;
                    assert(i * m + j < n * m) by (nonlinear_arith)
                        requires
                            0 <= i < n,
                            0 <= j < m,
                    ;
                    vstd::arithmetic::div_mod::lemma_fundamental_div_mod_converse(
                        i * m + j,
                        m as int,
                        i as int,
                        j as int,
                    );
                    assert(model.data[(i * m + j) as int] == self@.data[(j * n + i) as int]);
                }
                data.push(self.data[j * n + i]);
                proof {
                    assert(data@ =~= model.data.take((i * m + j + 1) as int));
                }
                j = j + 1;
            }
            i = i + 1;
            proof {
                assert(i * m == (i - 1) * m + m) by (nonlinear_arith);
            }
        }
        proof {
            assert(model.data.take((n * m) as int) =~= model.data);
        }
        let mut dims: Vec<usize> = Vec::new();
        dims.push(n);
        dims.push(m);
        let r = Buffer { shape: Shape(dims), data };
        proof {
            lemma_count_pair(n, m);
            assert(r@ =~= model);
        }
        r
    }
}

/// One element raised to a natural power by repeated IEEE-754
/// multiplication, the accumulator starting at one.
fn pow_elem(x: u64, e: u32) -> (r: u64)
    ensures
        r == pow_bits(x, e as nat),
{
    let mut acc: u64 = ONE_BITS;
    let mut k: u32 = 0;
    while k < e
        invariant
            0 <= k <= e,
            acc == pow_bits(x, k as nat),
        decreases e - k,
    {
        acc = apf_mul(x, acc);
        k = k + 1;
    }
    acc
}

} // verus!
