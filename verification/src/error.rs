//! Errors of the device.
use vstd::prelude::*;

verus! {

/// Why a virtio-fs device could not be created or activated. `E` is what the parts that the device
/// shares with others report.
#[derive(Debug)]
pub enum FsError<E> {
    /// DAX was asked for, but the daemon did not acknowledge the `SHMEM` protocol feature.
    DaxNotSupported,
    /// The daemon wants this many shared memory regions; virtio-fs has exactly one.
    FsUnexpectedShmemRegions(u32),
    /// More queues were asked for than the daemon supports.
    BadQueueNum,
    /// The daemon did not tell the layout of its shared memory.
    VhostUserGetShmemConfig(vhost::Error),
    /// The daemon did not tell how many queues it supports.
    VhostUserGetQueueMaxNum(vhost::Error),
    /// The server for the daemon's own requests could not be created.
    FrontendReqHandlerCreation(vhost::vhost_user::Error),
    /// Connecting to the daemon, negotiating features with it or restoring its state failed.
    VhostUserBackend(E),
}

/// Why a virtio-fs device could not be activated. `E` is what the parts that the device shares
/// with others report.
#[derive(Debug)]
pub enum ActivateError<E> {
    /// The server for the daemon's requests could not be set up.
    VhostUserFsSetup(FsError<E>),
    /// Activating the queues, activating the daemon or starting the device's thread failed.
    Common(E),
}

/// Errors of the generic device interface.
#[derive(Debug, Clone, Copy, PartialEq, Eq, Structural)]
pub enum DeviceError {
    /// The device has no shared memory window to replace.
    SetShmRegionsNotSupported,
}

} // verus!
