pub mod fasync;
pub mod waiter;
pub mod pipe;
