//! Feature bits: what the device offers to the daemon and to the guest, and what the guest takes.
use crate::protocol_flags;
use vstd::prelude::*;

verus! {

/// The virtio feature bit for access through an IOMMU of the platform.
pub const VIRTIO_F_ACCESS_PLATFORM: u32 = 33;

/// The virtio features that the device knows: indirect descriptors (bit 28), event indices (29),
/// protocol features of vhost-user (30), virtio 1 (32), in-order use of buffers (35), memory
/// ordering of the platform (36) and data in notifications (38).
pub const DEFAULT_VIRTIO_FEATURES: u64 = 0x59_7000_0000;

/// All bits of `flags` are set in `bits`.
pub open spec fn has_all(bits: u64, flags: u64) -> bool {
    bits & flags == flags
}

/// Some bit of `flags` is set in `bits`.
pub open spec fn has_any(bits: u64, flags: u64) -> bool {
    bits & flags != 0
}

/// The protocol features that every device asks for.
pub open spec fn common_protocol_features() -> u64 {
    protocol_flags::spec_mq() | protocol_flags::spec_configure_mem_slots()
        | protocol_flags::spec_reply_ack() | protocol_flags::spec_inflight_shmfd()
        | protocol_flags::spec_log_shmfd() | protocol_flags::spec_device_state()
}

/// The protocol features without which the daemon cannot map files into the DAX window.
pub open spec fn dax_protocol_features() -> u64 {
    protocol_flags::spec_backend_req() | protocol_flags::spec_backend_send_fd()
        | protocol_flags::spec_shmem()
}

/// The protocol features that a device asks for, with or without DAX.
pub open spec fn spec_avail_protocol_features(dax_enabled: bool) -> u64 {
    if dax_enabled {
        common_protocol_features() | dax_protocol_features()
    } else {
        common_protocol_features()
    }
}

/// The protocol features to offer to the daemon.
pub fn avail_protocol_features(dax_enabled: bool) -> (bits: u64)
    ensures
        bits == spec_avail_protocol_features(dax_enabled),
{
    let common: u64 = protocol_flags::mq() | protocol_flags::configure_mem_slots()
        | protocol_flags::reply_ack() | protocol_flags::inflight_shmfd()
        | protocol_flags::log_shmfd() | protocol_flags::device_state();
    if dax_enabled {
        common | (protocol_flags::backend_req() | protocol_flags::backend_send_fd()
            | protocol_flags::shmem())
    } else {
        common
    }
}

/// What the device offers to the guest when it knows the features `avail`.
pub open spec fn offered_features(avail: u64, access_platform: bool) -> u64 {
    if access_platform {
        avail | 0x2_0000_0000
    } else {
        avail
    }
}

/// The acknowledged features once the guest acknowledges `value`: bits that the device does not
/// know are not counted.
pub open spec fn acked_after(acked: u64, avail: u64, value: u64) -> u64 {
    acked | (value & avail)
}

/// The offer always holds the common features, and each of the three that DAX needs exactly if
/// DAX is wanted.
pub proof fn law_dax_features_only_for_dax(dax_enabled: bool)
    ensures
        has_all(spec_avail_protocol_features(dax_enabled), common_protocol_features()),
        has_all(spec_avail_protocol_features(dax_enabled), protocol_flags::spec_backend_req())
            <==> dax_enabled,
        has_all(spec_avail_protocol_features(dax_enabled), protocol_flags::spec_backend_send_fd())
            <==> dax_enabled,
        has_all(spec_avail_protocol_features(dax_enabled), protocol_flags::spec_shmem())
            <==> dax_enabled,
{
    let common: u64 = common_protocol_features();
    let dax: u64 = dax_protocol_features();
    assert(common_protocol_features() == 0x8_900b) by (bit_vector);
    assert(dax_protocol_features() == 0x40_0420) by (bit_vector);
    assert(common & common == common && (common | dax) & common == common && common & 0x20 == 0
        && common & 0x400 == 0 && common & 0x40_0000 == 0 && (common | dax) & 0x20 == 0x20 && (
    common | dax) & 0x400 == 0x400 && (common | dax) & 0x40_0000 == 0x40_0000) by (bit_vector)
        requires
            common == 0x8_900b,
            dax == 0x40_0420,
    ;
}

/// The guest is offered platform access exactly if the device has it (or knows the bit anyway),
/// and of every other feature exactly what the device knows.
pub proof fn law_offer_adds_platform_access_only(avail: u64, access_platform: bool, bit: u64)
    requires
        bit < 64,
    ensures
        bit == VIRTIO_F_ACCESS_PLATFORM ==> (has_any(
            offered_features(avail, access_platform),
            1u64 << bit,
        ) <==> access_platform || has_any(avail, 1u64 << bit)),
        bit != VIRTIO_F_ACCESS_PLATFORM ==> (has_any(
            offered_features(avail, access_platform),
            1u64 << bit,
        ) <==> has_any(avail, 1u64 << bit)),
{
    assert(bit == 33 ==> ((avail | 0x2_0000_0000) & (1u64 << bit)) != 0) by (bit_vector);
    assert(bit < 64 && bit != 33 ==> ((avail | 0x2_0000_0000) & (1u64 << bit)) == avail & (1u64
        << bit)) by (bit_vector);
}

/// Acknowledging features never takes one back, never adds one that the device does not know,
/// and adds every known one that the guest names.
pub proof fn law_ack_adds_known_features_only(acked: u64, avail: u64, value: u64, bit: u64)
    requires
        bit < 64,
    ensures
        has_any(acked_after(acked, avail, value), 1u64 << bit) <==> has_any(acked, 1u64 << bit)
            || (has_any(value, 1u64 << bit) && has_any(avail, 1u64 << bit)),
        has_all(avail, acked) ==> has_all(avail, acked_after(acked, avail, value)),
{
    assert(bit < 64 ==> (((acked | (value & avail)) & (1u64 << bit)) != 0 <==> (acked & (1u64
        << bit)) != 0 || ((value & (1u64 << bit)) != 0 && (avail & (1u64 << bit)) != 0)))
        by (bit_vector);
    assert(avail & acked == acked ==> avail & (acked | (value & avail)) == acked | (value & avail))
        by (bit_vector);
}

/// Acknowledging in several steps is acknowledging at once; repeating a step changes nothing.
pub proof fn law_acks_accumulate(acked: u64, avail: u64, first: u64, second: u64)
    ensures
        acked_after(acked_after(acked, avail, first), avail, second) == acked_after(
            acked,
            avail,
            first | second,
        ),
        acked_after(acked_after(acked, avail, first), avail, first) == acked_after(
            acked,
            avail,
            first,
        ),
{
    assert((acked | (first & avail)) | (second & avail) == acked | ((first | second) & avail))
        by (bit_vector);
    assert((acked | (first & avail)) | (first & avail) == acked | (first & avail)) by (bit_vector);
}

/// A protocol features bit that the daemon acknowledged, and that a new device therefore counts
/// as acknowledged, stays acknowledged whatever the guest acknowledges.
pub proof fn law_protocol_features_are_not_lost(negotiated: u64, value: u64)
    requires
        has_all(negotiated, protocol_flags::spec_protocol_features()),
    ensures
        has_all(
            acked_after(
                negotiated & protocol_flags::spec_protocol_features(),
                negotiated,
                value,
            ),
            protocol_flags::spec_protocol_features(),
        ),
{
    assert(negotiated & 0x4000_0000 == 0x4000_0000 ==> ((negotiated & 0x4000_0000) | (value
        & negotiated)) & 0x4000_0000 == 0x4000_0000) by (bit_vector);
}

} // verus!
