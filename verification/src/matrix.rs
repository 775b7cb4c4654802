//! Row-major dense matrices: construction, row views, strided column
//! copies, text rendering, and the function-form multiply with its full
//! functional contract.

use vstd::arithmetic::mul::{lemma_mul_inequality, lemma_mul_is_distributive_add_other_way};
use vstd::prelude::*;

use crate::dispatch::{MsgInput, compute_task};
use crate::vector::{Vector, check_dot_in_range, dot, dot_in_range};

verus! {

/// The ways a multiply call can fail.
#[derive(Clone, Copy, PartialEq, Eq, Structural, Debug)]
pub enum MatrixError {
    /// Shapes are incompatible: `a.col != b.row`, or two vectors of unequal
    /// length were handed to the dot product.
    DimensionMismatch,
    /// A reply channel closed without delivering a task's result.
    ChannelRecvFailure,
}

/// A dense matrix: one contiguous row-major buffer plus its dimensions.
#[derive(Debug)]
pub struct Matrix {
    pub data: Vec<i64>,
    pub row: usize,
    pub col: usize,
}

impl Matrix {
    /// The buffer holds exactly one element per cell.
    pub open spec fn wf(&self) -> bool {
        self.data@.len() == self.row * self.col
    }

    /// The element at row `i`, column `j`.
    pub open spec fn entry(&self, i: int, j: int) -> i64 {
        self.data@[i * self.col + j]
    }

    /// Row `i` as a sequence.
    pub open spec fn row_seq(&self, i: int) -> Seq<i64> {
        Seq::new(self.col as nat, |k: int| self.entry(i, k))
    }

    /// Column `j` as a sequence (stride `col` through the buffer).
    pub open spec fn col_seq(&self, j: int) -> Seq<i64> {
        Seq::new(self.row as nat, |k: int| self.entry(k, j))
    }

    /// Builds a matrix from a flat row-major buffer; the caller guarantees
    /// that the buffer length matches the dimensions.
    pub fn new(data: Vec<i64>, row: usize, col: usize) -> (r: Self)
        requires
            data@.len() == row * col,
        ensures
            r.data@ == data@,
            r.row == row,
            r.col == col,
            r.wf(),
    {
        Self { data, row, col }
    }

    /// Row `i`, copied out of the contiguous buffer.
    pub fn row_vector(&self, i: usize) -> (r: Vector)
        requires
            self.wf(),
            i < self.row,
        ensures
            r@ == self.row_seq(i as int),
    {
        let len = self.data.len();
        let mut data: Vec<i64> = Vec::new();
        let mut k: usize = 0;
        while k < self.col
            invariant
                self.wf(),
                i < self.row,
                len == self.data@.len(),
                k <= self.col,
                data@.len() == k,
                forall|t: int| 0 <= t < k ==> data@[t] == self.entry(i as int, t),
            decreases self.col - k,
        {
            proof {
                lemma_mul_inequality(i as int + 1, self.row as int, self.col as int);
                lemma_mul_is_distributive_add_other_way(self.col as int, i as int, 1);
            }
            let e = self.data[i * self.col + k];
            data.push(e);
            k = k + 1;
        }
        let r = Vector::new(data);
        assert(r@ =~= self.row_seq(i as int));
        r
    }

    /// Column `j`, materialized by copying every `col`-th element of the
    /// buffer starting at offset `j`.
    pub fn column_vector(&self, j: usize) -> (r: Vector)
        requires
            self.wf(),
            j < self.col,
        ensures
            r@ == self.col_seq(j as int),
    {
        let len = self.data.len();
        let mut data: Vec<i64> = Vec::new();
        let mut k: usize = 0;
        while k < self.row
            invariant
                self.wf(),
                j < self.col,
                len == self.data@.len(),
                k <= self.row,
                data@.len() == k,
                forall|t: int| 0 <= t < k ==> data@[t] == self.entry(t, j as int),
            decreases self.row - k,
        {
            proof {
                lemma_mul_inequality(k as int + 1, self.row as int, self.col as int);
                lemma_mul_is_distributive_add_other_way(self.col as int, k as int, 1);
            }
            let e = self.data[k * self.col + j];
            data.push(e);
            k = k + 1;
        }
        let r = Vector::new(data);
        assert(r@ =~= self.col_seq(j as int));
        r
    }
}

impl PartialEq for Matrix {
    /// Structural equality: same dimensions and the same elements in
    /// order.
    fn eq(&self, other: &Self) -> (r: bool) {
        if self.row != other.row || self.col != other.col {
            return false;
        }
        let n = self.data.len();
        if n != other.data.len() {
            return false;
        }
        let mut k: usize = 0;
        while k < n
            invariant
                n == self.data@.len() == other.data@.len(),
                k <= n,
                forall|t: int| 0 <= t < k ==> self.data@[t] == other.data@[t],
            decreases n - k,
        {
            if self.data[k] != other.data[k] {
                return false;
            }
            k = k + 1;
        }
        assert(self.data@ =~= other.data@);
        true
    }
}

impl vstd::std_specs::cmp::PartialEqSpecImpl for Matrix {
    open spec fn obeys_eq_spec() -> bool {
        true
    }

    open spec fn eq_spec(&self, other: &Self) -> bool {
        self.row == other.row && self.col == other.col && self.data@ == other.data@
    }
}

/// Every output cell's dot product stays within `i64` under plain
/// accumulation.
pub open spec fn mul_in_range(a: &Matrix, b: &Matrix) -> bool {
    forall|i: int, j: int|
        0 <= i < a.row && 0 <= j < b.col ==> #[trigger] dot_in_range(a.row_seq(i), b.col_seq(j))
}

/// The mathematical value of output cell `(i, j)`: the dot product of row
/// `i` of `a` and column `j` of `b`.
pub open spec fn product_entry(a: &Matrix, b: &Matrix, i: int, j: int) -> int {
    dot(a.row_seq(i), b.col_seq(j))
}

/// `c` is the matrix product of `a` and `b`: the shape is
/// `a.row × b.col` and every cell holds its row-by-column dot product.
pub open spec fn is_product(a: &Matrix, b: &Matrix, c: &Matrix) -> bool {
    &&& c.wf()
    &&& c.row == a.row
    &&& c.col == b.col
    &&& forall|i: int, j: int|
        0 <= i < a.row && 0 <= j < b.col ==> c.entry(i, j) == #[trigger] product_entry(a, b, i, j)
}

/// Decides at run time whether every output cell's dot product stays
/// within `i64`, so a caller can establish `multiply`'s arithmetic
/// precondition before any work is dispatched.
pub fn check_mul_in_range(a: &Matrix, b: &Matrix) -> (r: bool)
    requires
        a.wf(),
        b.wf(),
        a.col == b.row,
    ensures
        r == mul_in_range(a, b),
{
    let mut i: usize = 0;
    while i < a.row
        invariant
            a.wf(),
            b.wf(),
            a.col == b.row,
            i <= a.row,
            forall|i2: int, j2: int|
                0 <= i2 < i && 0 <= j2 < b.col ==> #[trigger] dot_in_range(
                    a.row_seq(i2),
                    b.col_seq(j2),
                ),
        decreases a.row - i,
    {
        let mut j: usize = 0;
        while j < b.col
            invariant
                a.wf(),
                b.wf(),
                a.col == b.row,
                i < a.row,
                j <= b.col,
                forall|i2: int, j2: int|
                    0 <= i2 < i && 0 <= j2 < b.col ==> #[trigger] dot_in_range(
                        a.row_seq(i2),
                        b.col_seq(j2),
                    ),
                forall|j2: int|
                    0 <= j2 < j ==> #[trigger] dot_in_range(a.row_seq(i as int), b.col_seq(j2)),
            decreases b.col - j,
        {
            let row = a.row_vector(i);
            let col = b.column_vector(j);
            if !check_dot_in_range(&row, &col) {
                return false;
            }
            j = j + 1;
        }
        i = i + 1;
    }
    true
}

/// Function-form matrix multiplication. Fails with `DimensionMismatch`
/// exactly when the inner dimensions disagree; otherwise returns the full
/// product. Each cell is computed as one task, exactly as a pool worker
/// computes it.
pub fn multiply(a: &Matrix, b: &Matrix) -> (r: Result<Matrix, MatrixError>)
    requires
        a.wf(),
        b.wf(),
        a.row * b.col <= usize::MAX,
        a.col == b.row ==> mul_in_range(a, b),
    ensures
        match r {
            Ok(c) => a.col == b.row && is_product(a, b, &c),
            Err(e) => a.col != b.row && e == MatrixError::DimensionMismatch,
        },
{
    if a.col != b.row {
        return Err(MatrixError::DimensionMismatch);
    }
    let mut data: Vec<i64> = Vec::new();
    let mut i: usize = 0;
    while i < a.row
        invariant
            a.wf(),
            b.wf(),
            a.col == b.row,
            a.row * b.col <= usize::MAX,
            mul_in_range(a, b),
            i <= a.row,
            data@.len() == i * b.col,
            forall|i2: int, j2: int|
                0 <= i2 < i && 0 <= j2 < b.col ==> data@[i2 * b.col + j2] == #[trigger] product_entry(
                    a,
                    b,
                    i2,
                    j2,
                ),
        decreases a.row - i,
    {
        let mut j: usize = 0;
        proof {
            lemma_mul_inequality(i as int + 1, a.row as int, b.col as int);
            lemma_mul_is_distributive_add_other_way(b.col as int, i as int, 1);
        }
        while j < b.col
            invariant
                a.wf(),
                b.wf(),
                a.col == b.row,
                a.row * b.col <= usize::MAX,
                mul_in_range(a, b),
                i < a.row,
                j <= b.col,
                (i + 1) * b.col <= a.row * b.col,
                (i + 1) * b.col == i * b.col + b.col,
                data@.len() == i * b.col + j,
                forall|i2: int, j2: int|
                    0 <= i2 < i && 0 <= j2 < b.col ==> data@[i2 * b.col + j2]
                        == #[trigger] product_entry(a, b, i2, j2),
                forall|j2: int|
                    0 <= j2 < j ==> data@[i * b.col + j2] == #[trigger] product_entry(
                        a,
                        b,
                        i as int,
                        j2,
                    ),
            decreases b.col - j,
        {
            let row = a.row_vector(i);
            let col = b.column_vector(j);
            let idx = i * b.col + j;
            let input = MsgInput::new(idx, row, col);
            // Unreachable: the row and the column both have length
            // `a.col`, so the task cannot fail.
            let out = match compute_task(&input) {
                Ok(out) => out,
                Err(_) => {
                    return Err(MatrixError::DimensionMismatch);
                },
            };
            data.push(out.value);
            j = j + 1;
            proof {
                assert forall|i2: int, j2: int| 0 <= i2 < i && 0 <= j2 < b.col implies data@[i2
                    * b.col + j2] == #[trigger] product_entry(a, b, i2, j2) by {
                    lemma_mul_inequality(i2 + 1, i as int, b.col as int);
                    lemma_mul_is_distributive_add_other_way(b.col as int, i2, 1);
                }
            }
        }
        i = i + 1;
        proof {
            assert forall|i2: int, j2: int| 0 <= i2 < i && 0 <= j2 < b.col implies data@[i2 * b.col
                + j2] == #[trigger] product_entry(a, b, i2, j2) by {
                lemma_mul_inequality(i2 + 1, i as int, b.col as int);
                lemma_mul_is_distributive_add_other_way(b.col as int, i2, 1);
            }
        }
    }
    let c = Matrix { data, row: a.row, col: b.col };
    proof {
        assert forall|i2: int, j2: int| 0 <= i2 < a.row && 0 <= j2 < b.col implies c.entry(i2, j2)
            == #[trigger] product_entry(a, b, i2, j2) by {
            lemma_mul_inequality(i2 + 1, a.row as int, b.col as int);
            lemma_mul_is_distributive_add_other_way(b.col as int, i2, 1);
        }
    }
    Ok(c)
}

/// The product of two matrices is unique: any two results that satisfy
/// `is_product` for the same operands agree in shape and in every element.
/// Repeated multiplications of identical inputs therefore return identical
/// matrices, however the work is scheduled.
pub proof fn lemma_multiply_deterministic(a: &Matrix, b: &Matrix, c1: &Matrix, c2: &Matrix)
    requires
        is_product(a, b, c1),
        is_product(a, b, c2),
    ensures
        c1.row == c2.row,
        c1.col == c2.col,
        c1.data@ == c2.data@,
{
    assert forall|k: int| 0 <= k < c1.data@.len() implies c1.data@[k] == c2.data@[k] by {
        let i = k / (c1.col as int);
        let j = k % (c1.col as int);
        if c1.col > 0 {
            vstd::arithmetic::div_mod::lemma_fundamental_div_mod(k, c1.col as int);
            vstd::arithmetic::div_mod::lemma_mod_bound(k, c1.col as int);
            assert(0 <= j < c1.col);
            assert(k == i * c1.col + j) by {
                vstd::arithmetic::mul::lemma_mul_is_commutative(c1.col as int, i);
            }
            assert(0 <= i < c1.row) by {
                if i < 0 {
                    lemma_mul_inequality(i + 1, 0, c1.col as int);
                }
                if i >= c1.row {
                    lemma_mul_inequality(c1.row as int, i, c1.col as int);
                }
            }
            assert(c1.entry(i, j) == product_entry(a, b, i, j));
            assert(c2.entry(i, j) == product_entry(a, b, i, j));
        } else {
            // With no columns the buffer is empty and no index exists.
            vstd::arithmetic::mul::lemma_mul_by_zero_is_zero(c1.row as int);
        }
    }
    assert(c1.data@ =~= c2.data@);
}

} // verus!
