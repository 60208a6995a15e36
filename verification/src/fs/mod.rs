pub mod attr;
pub mod file;
pub mod flags;
pub mod fsutil;
pub mod lock;
pub mod host;
pub mod file_order;
