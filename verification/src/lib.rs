//! A sliding window over a stream: the most recent `size` values, kept in a
//! buffer that is larger than the window and compacted when it runs full.

pub mod error;
pub mod model;
pub mod length;
pub mod storage;
pub mod storage_array;
pub mod storage_gen_arr;
pub mod storage_vec;
pub mod sliding_window;
pub mod array_backed;
pub mod vector_backed;
pub mod compact;
pub mod lemmas;
mod sealed;
