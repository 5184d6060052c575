//! A tight iteration engine over a single densely packed data column.
//!
//! A [`tight::Tight1`] cursor walks every row of a `[current, end)` index
//! range exactly once, from the front, from the back, or from both ends
//! interleaved. It can be split at an arbitrary index into two independent
//! cursors whose ranges partition the original range, and it can be turned
//! into chunked views that hand out fixed-size groups of rows.

pub mod chunk;
pub mod storage;
pub mod tight;
