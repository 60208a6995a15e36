pub mod common;
pub mod linux_def;
pub mod metric;
pub mod uring;
