//! Concurrent dense matrix multiplication over row-major `i64` matrices.
//!
//! The library verifies the full computation: shape validation, row and
//! column extraction, dot products, task partitioning, round-robin worker
//! assignment and result assembly. Thread spawning itself lives outside the
//! library; the per-task reply channel comes from the `oneshot` crate and is
//! used through trusted declarations.

pub mod dispatch;
pub mod matrix;
pub mod queue;
pub mod render;
pub mod reply;
pub mod vector;

pub use dispatch::{Msg, MsgInput, MsgOutput};
pub use matrix::{Matrix, MatrixError, multiply};
pub use vector::{Vector, dot_product};
