//! Execution core of a KVM-based guest-kernel sandbox: the guest file handle
//! and its operations, the signal delivery state machine, the host-FD
//! readiness notifier and the pure parts of the host supervisor.
//!
//! Every function carries its contract; shared state that the running kernel
//! keeps behind locks is passed here as an explicit `&mut` value.

#![allow(non_snake_case)]
#![allow(non_upper_case_globals)]
#![allow(non_camel_case_types)]
#![allow(dead_code)]
#![allow(unused_imports)]
#![allow(unused_variables)]
#![allow(unused_parens)]

pub mod SignalDef;
pub mod fs;
pub mod guestfdnotifier;
pub mod kernel;
pub mod loader;
pub mod memmgr;
pub mod qlib;
pub mod runtime;
pub mod stack;
pub mod task;
pub mod threadmgr;
pub mod uring_async;
pub mod util;
