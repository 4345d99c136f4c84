//! The feature and request flags of the vhost-user protocol, as the `vhost` crate gives them.
use vstd::prelude::*;

verus! {

/// Multiple queues.
pub open spec fn spec_mq() -> u64 {
    0x0000_0001
}

/// Logging of dirtied pages through a shared file.
pub open spec fn spec_log_shmfd() -> u64 {
    0x0000_0002
}

/// Replies to requests that ask for one.
pub open spec fn spec_reply_ack() -> u64 {
    0x0000_0008
}

/// Requests of the daemon over a channel of its own.
pub open spec fn spec_backend_req() -> u64 {
    0x0000_0020
}

/// File descriptors attached to the daemon's requests.
pub open spec fn spec_backend_send_fd() -> u64 {
    0x0000_0400
}

/// Tracking of requests in flight through a shared file.
pub open spec fn spec_inflight_shmfd() -> u64 {
    0x0000_1000
}

/// Memory regions added and removed one by one.
pub open spec fn spec_configure_mem_slots() -> u64 {
    0x0000_8000
}

/// Transfer of the daemon's internal state.
pub open spec fn spec_device_state() -> u64 {
    0x0008_0000
}

/// Files mapped by the daemon into a shared memory window.
pub open spec fn spec_shmem() -> u64 {
    0x0040_0000
}

/// The virtio feature bit that says that there are protocol features to negotiate.
pub open spec fn spec_protocol_features() -> u64 {
    0x4000_0000
}

/// The flag of a mapping request that asks for write access.
pub open spec fn spec_writable() -> u64 {
    0x1
}

/// `VhostUserProtocolFeatures::MQ.bits()`, 0x1.
#[verifier::external_body]
pub(crate) fn mq() -> (bits: u64)
    ensures
        bits == spec_mq(),
{
    vhost::vhost_user::VhostUserProtocolFeatures::MQ.bits()
}

/// `VhostUserProtocolFeatures::LOG_SHMFD.bits()`, 0x2.
#[verifier::external_body]
pub(crate) fn log_shmfd() -> (bits: u64)
    ensures
        bits == spec_log_shmfd(),
{
    vhost::vhost_user::VhostUserProtocolFeatures::LOG_SHMFD.bits()
}

/// `VhostUserProtocolFeatures::REPLY_ACK.bits()`, 0x8.
#[verifier::external_body]
pub(crate) fn reply_ack() -> (bits: u64)
    ensures
        bits == spec_reply_ack(),
{
    vhost::vhost_user::VhostUserProtocolFeatures::REPLY_ACK.bits()
}

/// `VhostUserProtocolFeatures::BACKEND_REQ.bits()`, 0x20.
#[verifier::external_body]
pub(crate) fn backend_req() -> (bits: u64)
    ensures
        bits == spec_backend_req(),
{
    vhost::vhost_user::VhostUserProtocolFeatures::BACKEND_REQ.bits()
}

/// `VhostUserProtocolFeatures::BACKEND_SEND_FD.bits()`, 0x400.
#[verifier::external_body]
pub(crate) fn backend_send_fd() -> (bits: u64)
    ensures
        bits == spec_backend_send_fd(),
{
    vhost::vhost_user::VhostUserProtocolFeatures::BACKEND_SEND_FD.bits()
}

/// `VhostUserProtocolFeatures::INFLIGHT_SHMFD.bits()`, 0x1000.
#[verifier::external_body]
pub(crate) fn inflight_shmfd() -> (bits: u64)
    ensures
        bits == spec_inflight_shmfd(),
{
    vhost::vhost_user::VhostUserProtocolFeatures::INFLIGHT_SHMFD.bits()
}

/// `VhostUserProtocolFeatures::CONFIGURE_MEM_SLOTS.bits()`, 0x8000.
#[verifier::external_body]
pub(crate) fn configure_mem_slots() -> (bits: u64)
    ensures
        bits == spec_configure_mem_slots(),
{
    vhost::vhost_user::VhostUserProtocolFeatures::CONFIGURE_MEM_SLOTS.bits()
}

/// `VhostUserProtocolFeatures::DEVICE_STATE.bits()`, 0x8_0000.
#[verifier::external_body]
pub(crate) fn device_state() -> (bits: u64)
    ensures
        bits == spec_device_state(),
{
    vhost::vhost_user::VhostUserProtocolFeatures::DEVICE_STATE.bits()
}

/// `VhostUserProtocolFeatures::SHMEM.bits()`, 0x40_0000.
#[verifier::external_body]
pub(crate) fn shmem() -> (bits: u64)
    ensures
        bits == spec_shmem(),
{
    vhost::vhost_user::VhostUserProtocolFeatures::SHMEM.bits()
}

/// `VhostUserVirtioFeatures::PROTOCOL_FEATURES.bits()`, 0x4000_0000.
#[verifier::external_body]
pub(crate) fn protocol_features() -> (bits: u64)
    ensures
        bits == spec_protocol_features(),
{
    vhost::vhost_user::VhostUserVirtioFeatures::PROTOCOL_FEATURES.bits()
}

/// `VhostUserMMapFlags::WRITABLE.bits()`, 0x1.
#[verifier::external_body]
pub(crate) fn writable() -> (bits: u64)
    ensures
        bits == spec_writable(),
{
    vhost::vhost_user::message::VhostUserMMapFlags::WRITABLE.bits()
}

/// `VhostUserMMapFlags::from_bits_truncate`: drops every bit but the one flag that is defined.
#[verifier::external_body]
pub(crate) fn mmap_flags_from_bits_truncate(bits: u64) -> (known: u64)
    ensures
        known == bits & spec_writable(),
{
    vhost::vhost_user::message::VhostUserMMapFlags::from_bits_truncate(bits).bits()
}

} // verus!
