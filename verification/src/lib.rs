//! The kernel side definitions of a container runtime's guest kernel: heap set
//! up, allocation routing, hypercalls, host calls and task switching.
//!
//! Every function here decides what is to be done from plain values and says so
//! exactly in its contract. The surrounding application performs it.

#![allow(non_snake_case)]

pub mod allocator;
pub mod cpu;
pub mod effect;
pub mod error;
pub mod hostcall;
pub mod hypercall;
pub mod memory;
pub mod paging;
pub mod qcall;
pub mod sched;
pub mod service;
pub mod tsot;
pub mod uring;
pub mod user_access;
