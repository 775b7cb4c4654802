//! A fixed-length numeric vector and the dot product that the workers
//! compute: the scalar sum of element-wise products of two equal-length
//! vectors, accumulated in encounter order.

use vstd::prelude::*;

use crate::matrix::MatrixError;

verus! {

/// An ordered, fixed-length sequence of elements with no identity beyond
/// its contents.
pub struct Vector {
    pub data: Vec<i64>,
}

impl View for Vector {
    type V = Seq<i64>;

    open spec fn view(&self) -> Seq<i64> {
        self.data@
    }
}

impl Vector {
    /// Builds a vector that owns the given elements.
    pub fn new(data: Vec<i64>) -> (r: Self)
        ensures
            r@ == data@,
    {
        Self { data }
    }

    /// Number of elements.
    pub fn len(&self) -> (r: usize)
        ensures
            r == self@.len(),
    {
        self.data.len()
    }
}

/// The mathematical dot product of the first `min(u.len(), v.len())`
/// elements, summed left to right.
pub open spec fn dot(u: Seq<i64>, v: Seq<i64>) -> int
    decreases u.len(),
{
    if u.len() == 0 || v.len() == 0 {
        0
    } else {
        dot(u.drop_last(), v.drop_last()) + u.last() * v.last()
    }
}

/// Plain left-to-right accumulation stays within `i64`: every element-wise
/// product and every partial sum fits the machine type.
pub open spec fn dot_in_range(u: Seq<i64>, v: Seq<i64>) -> bool {
    &&& forall|k: int|
        0 <= k < u.len() && k < v.len() ==> i64::MIN <= #[trigger] (u[k] * v[k]) <= i64::MAX
    &&& forall|k: int|
        0 <= k <= u.len() && k <= v.len() ==> i64::MIN <= #[trigger] dot(
            u.take(k),
            v.take(k),
        ) <= i64::MAX
}

/// Extending both prefixes by one element adds that element-wise product.
pub proof fn lemma_dot_take_step(u: Seq<i64>, v: Seq<i64>, k: int)
    requires
        0 <= k < u.len(),
        k < v.len(),
    ensures
        dot(u.take(k + 1), v.take(k + 1)) == dot(u.take(k), v.take(k)) + u[k] * v[k],
{
    assert(u.take(k + 1).drop_last() =~= u.take(k));
    assert(v.take(k + 1).drop_last() =~= v.take(k));
}

/// The dot product of two equal-length vectors; fails exactly when the
/// lengths differ, and never touches either vector in that case.
pub fn dot_product(u: &Vector, v: &Vector) -> (r: Result<i64, MatrixError>)
    requires
        u@.len() == v@.len() ==> dot_in_range(u@, v@),
    ensures
        match r {
            Ok(s) => u@.len() == v@.len() && s == dot(u@, v@),
            Err(e) => u@.len() != v@.len() && e == MatrixError::DimensionMismatch,
        },
{
    let n = u.data.len();
    if n != v.data.len() {
        return Err(MatrixError::DimensionMismatch);
    }
    let mut acc: i64 = 0;
    let mut k: usize = 0;
    assert(u@.take(0) =~= Seq::<i64>::empty());
    while k < n
        invariant
            n == u@.len() == v@.len(),
            0 <= k <= n,
            dot_in_range(u@, v@),
            acc == dot(u@.take(k as int), v@.take(k as int)),
        decreases n - k,
    {
        proof {
            lemma_dot_take_step(u@, v@, k as int);
        }
        acc = acc + u.data[k] * v.data[k];
        k = k + 1;
    }
    assert(u@.take(n as int) =~= u@);
    assert(v@.take(n as int) =~= v@);
    Ok(acc)
}

/// Decides at run time whether plain accumulation of the dot product stays
/// within `i64`, by replaying it in a wider type: true exactly when every
/// element-wise product and every partial sum is in range.
pub fn check_dot_in_range(u: &Vector, v: &Vector) -> (r: bool)
    requires
        u@.len() == v@.len(),
    ensures
        r == dot_in_range(u@, v@),
{
    let n = u.data.len();
    let mut acc: i64 = 0;
    let mut k: usize = 0;
    assert(u@.take(0) =~= Seq::<i64>::empty());
    while k < n
        invariant
            n == u@.len() == v@.len(),
            k <= n,
            acc == dot(u@.take(k as int), v@.take(k as int)),
            forall|t: int| 0 <= t < k ==> i64::MIN <= #[trigger] (u@[t] * v@[t]) <= i64::MAX,
            forall|t: int|
                0 <= t <= k ==> i64::MIN <= #[trigger] dot(u@.take(t), v@.take(t)) <= i64::MAX,
        decreases n - k,
    {
        proof {
            let x = u@[k as int] as int;
            let y = v@[k as int] as int;
            assert(i128::MIN <= x * y <= i128::MAX) by (nonlinear_arith)
                requires
                    i64::MIN <= x <= i64::MAX,
                    i64::MIN <= y <= i64::MAX,
            ;
        }
        let p: i128 = (u.data[k] as i128) * (v.data[k] as i128);
        if p < i64::MIN as i128 || p > i64::MAX as i128 {
            return false;
        }
        proof {
            lemma_dot_take_step(u@, v@, k as int);
        }
        let s: i128 = (acc as i128) + p;
        if s < i64::MIN as i128 || s > i64::MAX as i128 {
            return false;
        }
        acc = s as i64;
        k = k + 1;
    }
    assert(u@.take(n as int) =~= u@);
    assert(v@.take(n as int) =~= v@);
    true
}

} // verus!
