pub mod task_exit;
pub mod task_stop;
pub mod task_syscall;
pub mod thread;
pub mod thread_group;
pub mod task_signals;
pub mod task_interrupt;
