pub mod signal_handle;
pub mod vm;
