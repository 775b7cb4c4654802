use matmul::dispatch::{
    NUM_THREADS, assign_worker, collect_results, dispatch_tasks, make_task, place_result,
    worker_step,
};
use matmul::matrix::check_mul_in_range;
use matmul::vector::check_dot_in_range;
use matmul::{Matrix, MatrixError, Msg, MsgInput, MsgOutput, Vector, dot_product, multiply};

#[test]
fn test_matrix_multiply() {
    let a = Matrix::new(vec![1, 2, 3, 4, 5, 6], 2, 3);
    let b = Matrix::new(vec![7, 8, 9, 10, 11, 12], 3, 2);
    let c = multiply(&a, &b).unwrap();
    assert_eq!(c, Matrix::new(vec![58, 64, 139, 154], 2, 2));
}

#[test]
fn test_matrix_display() {
    let a = Matrix::new(vec![1, 2, 3, 4, 5, 6], 2, 3);
    let b = Matrix::new(vec![7, 8, 9, 10, 11, 12], 3, 2);
    let c = multiply(&a, &b).unwrap();
    assert_eq!(c.data, vec![58, 64, 139, 154]);
    assert_eq!(c.render(), "{58 64, 139 154}");
}

#[test]
fn test_a_can_not_multiply_b() {
    let a = Matrix::new(vec![1, 2, 3, 4, 5, 6], 2, 3);
    let b = Matrix::new(vec![1, 2, 3, 4], 2, 2);
    let c = multiply(&a, &b);
    assert!(c.is_err());
}

#[test]
fn mismatched_dimensions_report_the_error_variant() {
    let a = Matrix::new(vec![1, 2, 3, 4, 5, 6], 2, 3);
    let b = Matrix::new(vec![1, 2, 3, 4], 2, 2);
    match multiply(&a, &b) {
        Err(MatrixError::DimensionMismatch) => {}
        other => panic!("expected a dimension mismatch, got {:?}", other),
    }
}

#[test]
fn repeated_multiplication_is_deterministic() {
    let a = Matrix::new(vec![3, -1, 4, 1, -5, 9], 3, 2);
    let b = Matrix::new(vec![2, 6, -5, 3], 2, 2);
    let first = multiply(&a, &b).unwrap();
    for _ in 0..8 {
        let again = multiply(&a, &b).unwrap();
        assert_eq!(again, first);
    }
}

#[test]
fn column_extraction_materializes_the_strided_copy() {
    let b = Matrix::new(vec![7, 8, 9, 10, 11, 12], 3, 2);
    let col = b.column_vector(1);
    assert_eq!(col.data, vec![8, 10, 12]);
    let row = b.row_vector(2);
    assert_eq!(row.data, vec![11, 12]);
}

#[test]
fn dot_product_matches_hand_computation() {
    let u = Vector::new(vec![1, 2, 3]);
    let v = Vector::new(vec![4, 5, 6]);
    assert_eq!(dot_product(&u, &v), Ok(32));
}

#[test]
fn dot_product_rejects_unequal_lengths() {
    let u = Vector::new(vec![1, 2, 3]);
    let v = Vector::new(vec![4, 5]);
    assert_eq!(dot_product(&u, &v), Err(MatrixError::DimensionMismatch));
}

#[test]
fn round_robin_assignment_cycles_over_the_pool() {
    assert_eq!(NUM_THREADS, 4);
    assert_eq!(assign_worker(0, NUM_THREADS), 0);
    assert_eq!(assign_worker(3, NUM_THREADS), 3);
    assert_eq!(assign_worker(4, NUM_THREADS), 0);
    assert_eq!(assign_worker(7, NUM_THREADS), 3);
    assert_eq!(assign_worker(98, NUM_THREADS), 2);
}

#[test]
fn pipeline_with_fewer_tasks_than_workers() {
    let a = Matrix::new(vec![5], 1, 1);
    let b = Matrix::new(vec![7], 1, 1);
    let (msg, rx) = make_task(&a, &b, 0, 0);
    assert_eq!(assign_worker(0, NUM_THREADS), 0);
    worker_step(msg).unwrap();
    let data = collect_results(vec![rx], 1, 1).unwrap();
    assert_eq!(data, vec![35]);
}

#[test]
fn pipeline_with_more_tasks_than_workers() {
    let identity = Matrix::new(vec![1, 0, 0, 0, 1, 0, 0, 0, 1], 3, 3);
    let m = Matrix::new(vec![2, -3, 5, 7, 11, -13, 17, 19, 23], 3, 3);
    let mut receivers = Vec::new();
    for i in 0..3 {
        for j in 0..3 {
            let (msg, rx) = make_task(&identity, &m, i, j);
            let idx = i * 3 + j;
            assert_eq!(assign_worker(idx, NUM_THREADS), idx % NUM_THREADS);
            worker_step(msg).unwrap();
            receivers.push(rx);
        }
    }
    let data = collect_results(receivers, 3, 3).unwrap();
    assert_eq!(data, m.data);
}

#[test]
fn dispatch_fills_the_worker_queues_round_robin() {
    let identity = Matrix::new(vec![1, 0, 0, 0, 1, 0, 0, 0, 1], 3, 3);
    let m = Matrix::new(vec![4, 8, 15, 16, 23, 42, -1, 0, 7], 3, 3);
    let mut senders = Vec::new();
    let mut queues = Vec::new();
    for _ in 0..NUM_THREADS {
        let (tx, rx) = std::sync::mpsc::channel();
        senders.push(tx);
        queues.push(rx);
    }
    let receivers = dispatch_tasks(&identity, &m, &senders);
    assert_eq!(receivers.len(), 9);
    drop(senders);
    // Nine tasks round-robin over four queues: the first queue holds one
    // more task than the rest. Play each worker in turn.
    let mut queue_lengths = Vec::new();
    for rx in &queues {
        let mut handled: usize = 0;
        while let Ok(msg) = rx.try_recv() {
            worker_step(msg).unwrap();
            handled += 1;
        }
        queue_lengths.push(handled);
    }
    assert_eq!(queue_lengths, vec![3, 2, 2, 2]);
    let data = collect_results(receivers, 3, 3).unwrap();
    assert_eq!(data, m.data);
}

#[test]
fn worker_replies_through_the_task_reply_channel() {
    let (tx, rx) = oneshot::channel();
    let input = MsgInput::new(6, Vector::new(vec![2, 3]), Vector::new(vec![10, 1]));
    let msg = Msg::new(input, tx);
    worker_step(msg).unwrap();
    let out = rx.recv().unwrap();
    assert_eq!(out.idx, 6);
    assert_eq!(out.value, 23);
}

#[test]
fn worker_drops_the_reply_channel_on_a_dimension_failure() {
    let (tx, rx) = oneshot::channel();
    let input = MsgInput::new(0, Vector::new(vec![1, 2]), Vector::new(vec![3]));
    let msg = Msg::new(input, tx);
    assert_eq!(worker_step(msg), Err(MatrixError::DimensionMismatch));
    assert!(rx.recv().is_err());
}

#[test]
fn dropped_reply_channel_fails_the_whole_collection() {
    let a = Matrix::new(vec![1], 1, 1);
    let b = Matrix::new(vec![2], 1, 1);
    let (msg, rx) = make_task(&a, &b, 0, 0);
    drop(msg);
    let r = collect_results(vec![rx], 1, 1);
    assert_eq!(r, Err(MatrixError::ChannelRecvFailure));
}

#[test]
fn collection_with_no_receivers_yields_the_zero_buffer() {
    let r = collect_results(Vec::new(), 2, 2);
    assert_eq!(r, Ok(vec![0, 0, 0, 0]));
}

#[test]
fn placing_a_result_writes_exactly_its_destination_cell() {
    let mut data = vec![0, 0, 0];
    assert!(place_result(&mut data, &MsgOutput { idx: 1, value: 9 }));
    assert_eq!(data, vec![0, 9, 0]);
    assert!(!place_result(&mut data, &MsgOutput { idx: 3, value: 5 }));
    assert_eq!(data, vec![0, 9, 0]);
}

#[test]
fn range_check_accepts_ordinary_products() {
    let a = Matrix::new(vec![1, 2, 3, 4, 5, 6], 2, 3);
    let b = Matrix::new(vec![7, 8, 9, 10, 11, 12], 3, 2);
    assert!(check_mul_in_range(&a, &b));
    let u = Vector::new(vec![i64::MAX]);
    let v = Vector::new(vec![1]);
    assert!(check_dot_in_range(&u, &v));
}

#[test]
fn range_check_rejects_an_overflowing_product() {
    let a = Matrix::new(vec![i64::MAX], 1, 1);
    let b = Matrix::new(vec![2], 1, 1);
    assert!(!check_mul_in_range(&a, &b));
}

#[test]
fn range_check_rejects_an_overflowing_partial_sum() {
    let u = Vector::new(vec![i64::MAX, i64::MAX]);
    let v = Vector::new(vec![1, 1]);
    assert!(!check_dot_in_range(&u, &v));
}

#[test]
fn rendering_edge_cases() {
    assert_eq!(Matrix::new(vec![0], 1, 1).render(), "{0}");
    assert_eq!(Matrix::new(vec![-5, 60], 1, 2).render(), "{-5 60}");
    assert_eq!(Matrix::new(vec![-5, 60], 2, 1).render(), "{-5, 60}");
    assert_eq!(Matrix::new(vec![], 0, 0).render(), "{}");
    assert_eq!(
        Matrix::new(vec![i64::MIN, i64::MAX], 1, 2).render(),
        "{-9223372036854775808 9223372036854775807}"
    );
}

#[test]
fn multiply_of_one_by_one_matrices() {
    let a = Matrix::new(vec![-4], 1, 1);
    let b = Matrix::new(vec![9], 1, 1);
    let c = multiply(&a, &b).unwrap();
    assert_eq!(c, Matrix::new(vec![-36], 1, 1));
    assert_eq!(c.row, 1);
    assert_eq!(c.col, 1);
}
