//! The frontend side of a vhost-user virtio-fs device.
//!
//! The crate holds what the device decides: which features it offers to the daemon, what it makes
//! of the daemon's answers, which `mmap` calls a request on the DAX window turns into, what the
//! guest reads from the configuration space, and in which order the device is set up, activated,
//! paused and resumed. Sockets, threads and `mmap` itself are left to the caller, who is told
//! what to do next and reports how it went.
pub mod activation;
pub mod config;
pub mod creation;
pub mod device;
pub mod error;
pub mod features;
pub mod laws;
pub mod lifecycle;
pub mod outside_types;
pub mod protocol_flags;
pub mod region;
pub mod setup;
pub mod shmem;
pub mod sys_consts;
pub mod window;
