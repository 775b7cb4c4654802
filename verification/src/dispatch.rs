//! Task partitioning and the per-task computation of the concurrent
//! engine: one task per output cell, assigned to a fixed pool of workers
//! round-robin, each answered through a single-use reply channel.

use vstd::arithmetic::mul::{lemma_mul_inequality, lemma_mul_is_distributive_add_other_way};
use vstd::prelude::*;

use crate::matrix::{Matrix, MatrixError};
use crate::vector::{Vector, dot, dot_in_range, dot_product};

verus! {

/// Number of workers a pool holds unless the caller picks another count.
pub const NUM_THREADS: usize = 4;

/// One dot-product task: the destination index in the output buffer, the
/// row of the left operand and the materialized column of the right one.
pub struct MsgInput {
    pub idx: usize,
    pub row: Vector,
    pub col: Vector,
}

impl MsgInput {
    /// Bundles a destination index with the two vectors whose dot product
    /// belongs there.
    pub fn new(idx: usize, row: Vector, col: Vector) -> (r: Self)
        ensures
            r.idx == idx,
            r.row@ == row@,
            r.col@ == col@,
    {
        Self { idx, row, col }
    }
}

/// One computed result: the destination index and the scalar to store
/// there.
pub struct MsgOutput {
    pub idx: usize,
    pub value: i64,
}

/// The round-robin rule: task `idx` goes to worker `idx % workers`.
pub fn assign_worker(idx: usize, workers: usize) -> (r: usize)
    requires
        workers > 0,
    ensures
        r == idx % workers,
        r < workers,
{
    idx % workers
}

/// What one worker does with one task: the dot product of the task's row
/// and column, addressed to the task's destination index.
pub fn compute_task(input: &MsgInput) -> (r: Result<MsgOutput, MatrixError>)
    requires
        input.row@.len() == input.col@.len() ==> dot_in_range(input.row@, input.col@),
    ensures
        match r {
            Ok(out) => {
                &&& input.row@.len() == input.col@.len()
                &&& out.idx == input.idx
                &&& out.value == dot(input.row@, input.col@)
            },
            Err(e) => {
                &&& input.row@.len() != input.col@.len()
                &&& e == MatrixError::DimensionMismatch
            },
        },
{
    match dot_product(&input.row, &input.col) {
        Ok(value) => Ok(MsgOutput { idx: input.idx, value }),
        Err(e) => Err(e),
    }
}

/// One message to a worker: a task together with the sending endpoint of
/// the task's single-use reply channel.
pub struct Msg {
    input: MsgInput,
    sender: oneshot::Sender<MsgOutput>,
}

impl Msg {
    /// The task this message carries.
    pub closed spec fn task(&self) -> MsgInput {
        self.input
    }

    /// Binds a task to the sending endpoint of its reply channel.
    pub fn new(input: MsgInput, sender: oneshot::Sender<MsgOutput>) -> (r: Self)
        ensures
            r.task() == input,
    {
        Self { input, sender }
    }
}

/// Builds the task for output cell `(i, j)`: destination index
/// `i * b.col + j`, row `i` of `a`, the materialized column `j` of `b`,
/// and a fresh reply channel whose sending endpoint travels with the task.
pub fn make_task(a: &Matrix, b: &Matrix, i: usize, j: usize) -> (r: (
    Msg,
    oneshot::Receiver<MsgOutput>,
))
    requires
        a.wf(),
        b.wf(),
        i < a.row,
        j < b.col,
        a.row * b.col <= usize::MAX,
    ensures
        r.0.task().idx == i * b.col + j,
        r.0.task().idx < a.row * b.col,
        r.0.task().row@ == a.row_seq(i as int),
        r.0.task().col@ == b.col_seq(j as int),
{
    proof {
        lemma_mul_inequality(i as int + 1, a.row as int, b.col as int);
        lemma_mul_is_distributive_add_other_way(b.col as int, i as int, 1);
    }
    let row = a.row_vector(i);
    let col = b.column_vector(j);
    let input = MsgInput::new(i * b.col + j, row, col);
    let (tx, rx) = oneshot::channel();
    (Msg::new(input, tx), rx)
}

/// Distinct output cells get distinct destination indices: over the
/// row-major grid, `i * col + j` partitions the index space, so each
/// destination index belongs to exactly one task.
pub proof fn lemma_destination_indices_partition(col: int, i1: int, j1: int, i2: int, j2: int)
    requires
        0 <= i1,
        0 <= i2,
        0 <= j1 < col,
        0 <= j2 < col,
        i1 != i2 || j1 != j2,
    ensures
        i1 * col + j1 != i2 * col + j2,
{
    if i1 < i2 {
        lemma_mul_inequality(i1 + 1, i2, col);
        lemma_mul_is_distributive_add_other_way(col, i1, 1);
    }
    if i2 < i1 {
        lemma_mul_inequality(i2 + 1, i1, col);
        lemma_mul_is_distributive_add_other_way(col, i2, 1);
    }
}

/// What one worker does with one message: compute the task and answer
/// through the task's reply channel. A send failure means the collector
/// is gone; the result has nowhere to go, so it is discarded. On the
/// defensive dimension failure the reply channel is dropped unanswered,
/// so the collector sees that channel close without a value.
pub fn worker_step(msg: Msg) -> (r: Result<(), MatrixError>)
    requires
        msg.task().row@.len() == msg.task().col@.len() ==> dot_in_range(
            msg.task().row@,
            msg.task().col@,
        ),
    ensures
        match r {
            Ok(_) => msg.task().row@.len() == msg.task().col@.len(),
            Err(e) => {
                &&& msg.task().row@.len() != msg.task().col@.len()
                &&& e == MatrixError::DimensionMismatch
            },
        },
{
    let Msg { input, sender } = msg;
    match compute_task(&input) {
        Ok(out) => {
            let _ = sender.send(out);
            Ok(())
        },
        Err(e) => Err(e),
    }
}

/// The dispatch loop: builds one task per output cell in row-major order,
/// hands each to its round-robin worker queue, and retains the reply
/// receivers in dispatch order. A queue whose worker is gone swallows its
/// task — the matching reply channel then fails collection; the failure
/// is not propagated here.
pub fn dispatch_tasks(a: &Matrix, b: &Matrix, senders: &Vec<std::sync::mpsc::Sender<Msg>>) -> (r:
    Vec<oneshot::Receiver<MsgOutput>>)
    requires
        a.wf(),
        b.wf(),
        a.col == b.row,
        a.row * b.col <= usize::MAX,
        senders@.len() > 0,
    ensures
        r@.len() == a.row * b.col,
{
    let mut receivers: Vec<oneshot::Receiver<MsgOutput>> = Vec::new();
    let mut i: usize = 0;
    while i < a.row
        invariant
            a.wf(),
            b.wf(),
            a.col == b.row,
            a.row * b.col <= usize::MAX,
            senders@.len() > 0,
            i <= a.row,
            receivers@.len() == i * b.col,
        decreases a.row - i,
    {
        let mut j: usize = 0;
        proof {
            lemma_mul_inequality(i as int + 1, a.row as int, b.col as int);
            lemma_mul_is_distributive_add_other_way(b.col as int, i as int, 1);
        }
        while j < b.col
            invariant
                a.wf(),
                b.wf(),
                a.col == b.row,
                a.row * b.col <= usize::MAX,
                senders@.len() > 0,
                i < a.row,
                j <= b.col,
                (i + 1) * b.col <= a.row * b.col,
                (i + 1) * b.col == i * b.col + b.col,
                receivers@.len() == i * b.col + j,
            decreases b.col - j,
        {
            let (msg, rx) = make_task(a, b, i, j);
            let idx = i * b.col + j;
            let _ = senders[assign_worker(idx, senders.len())].send(msg);
            receivers.push(rx);
            j = j + 1;
        }
        i = i + 1;
    }
    receivers
}

/// The one write a delivered result causes: the scalar goes to the
/// result's destination cell and nowhere else, and a result addressed
/// outside the buffer changes nothing and is reported.
pub fn place_result(data: &mut Vec<i64>, out: &MsgOutput) -> (ok: bool)
    ensures
        ok <==> out.idx < old(data)@.len(),
        ok ==> final(data)@ == old(data)@.update(out.idx as int, out.value),
        !ok ==> final(data)@ == old(data)@,
{
    if out.idx < data.len() {
        data[out.idx] = out.value;
        true
    } else {
        false
    }
}

/// Waits on the reply receivers in dispatch order and writes each
/// delivered scalar into its destination cell of a zero-filled
/// `row * col` buffer, through `place_result`. Fails, with
/// `ChannelRecvFailure` and only then, when a reply channel closes
/// without a value or a delivered result is addressed outside the buffer
/// — so a closed reply channel fails the whole collection, and no
/// partially populated buffer is returned. With no receivers it succeeds
/// with the zero-filled buffer.
pub fn collect_results(receivers: Vec<oneshot::Receiver<MsgOutput>>, row: usize, col: usize) -> (r:
    Result<Vec<i64>, MatrixError>)
    requires
        row * col <= usize::MAX,
    ensures
        match r {
            Ok(d) => {
                &&& d@.len() == row * col
                &&& receivers@.len() == 0 ==> d@ == Seq::new((row * col) as nat, |k: int| 0i64)
            },
            Err(e) => {
                &&& e == MatrixError::ChannelRecvFailure
                &&& receivers@.len() > 0
            },
        },
{
    let ghost n_rx = receivers@.len();
    let n = row * col;
    let mut data: Vec<i64> = Vec::new();
    while data.len() < n
        invariant
            data@.len() <= n,
            forall|k: int| 0 <= k < data@.len() ==> data@[k] == 0i64,
        decreases n - data@.len(),
    {
        data.push(0i64);
    }
    assert(data@ =~= Seq::new(n as nat, |k: int| 0i64));
    let mut rxs = receivers;
    while rxs.len() > 0
        invariant
            data@.len() == n,
            n_rx == receivers@.len(),
            rxs@.len() <= n_rx,
            n_rx == 0 ==> data@ == Seq::new(n as nat, |k: int| 0i64),
        decreases rxs@.len(),
    {
        let rx = rxs.remove(0);
        match rx.recv() {
            Ok(out) => {
                if !place_result(&mut data, &out) {
                    return Err(MatrixError::ChannelRecvFailure);
                }
            },
            Err(_) => {
                return Err(MatrixError::ChannelRecvFailure);
            },
        }
    }
    Ok(data)
}

} // verus!
