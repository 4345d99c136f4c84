//! Feature bits: what is offered to the daemon and to the guest, and what the guest can take.
use crate::device::Fs;
use vstd::prelude::*;

verus! {

/// The protocol features that are offered to the daemon, bit by bit: multiple queues (0), dirty
/// logging (1), replies (3), requests in flight (12), memory slots (15) and the device state (19)
/// always; the daemon's own requests (5), their file descriptors (10) and shared memory (22)
/// exactly with DAX; nothing else.
pub proof fn law_protocol_offer_bit_by_bit(dax_enabled: bool, offer: u64, bit: u64)
    requires
        bit < 64,
        call_ensures(crate::features::avail_protocol_features, (dax_enabled,), offer),
    ensures
        offer & (1u64 << bit) != 0 <==> {
            ||| bit == 0
            ||| bit == 1
            ||| bit == 3
            ||| bit == 12
            ||| bit == 15
            ||| bit == 19
            ||| dax_enabled && (bit == 5 || bit == 10 || bit == 22)
        },
{
    let common: u64 = crate::features::common_protocol_features();
    let dax: u64 = crate::features::dax_protocol_features();
    assert(crate::features::common_protocol_features() == 0x8_900b) by (bit_vector);
    assert(crate::features::dax_protocol_features() == 0x40_0420) by (bit_vector);
    assert(common & (1u64 << bit) != 0 <==> bit == 0 || bit == 1 || bit == 3 || bit == 12 || bit
        == 15 || bit == 19) by (bit_vector)
        requires
            bit < 64,
            common == 0x8_900b,
    ;
    assert((common | dax) & (1u64 << bit) != 0 <==> bit == 0 || bit == 1 || bit == 3 || bit == 12
        || bit == 15 || bit == 19 || bit == 5 || bit == 10 || bit == 22) by (bit_vector)
        requires
            bit < 64,
            common == 0x8_900b,
            dax == 0x40_0420,
    ;
}

/// The virtio features that the device knows, bit by bit.
pub proof fn law_known_virtio_features(bit: u64)
    requires
        bit < 64,
    ensures
        crate::features::DEFAULT_VIRTIO_FEATURES & (1u64 << bit) != 0 <==> {
            ||| bit == 28
            ||| bit == 29
            ||| bit == 30
            ||| bit == 32
            ||| bit == 35
            ||| bit == 36
            ||| bit == 38
        },
{
    assert(0x59_7000_0000u64 & (1u64 << bit) != 0 <==> bit == 28 || bit == 29 || bit == 30 || bit
        == 32 || bit == 35 || bit == 36 || bit == 38) by (bit_vector)
        requires
            bit < 64,
    ;
}

/// The guest is offered bit 33 if the device has platform access, and beyond that exactly the
/// features that the device knows.
pub proof fn law_guest_offer_bit_by_bit<M>(fs: Fs<M>, offer: u64, bit: u64)
    requires
        bit < 64,
        call_ensures(Fs::<M>::features, (&fs,), offer),
    ensures
        offer & (1u64 << bit) != 0 <==> {
            ||| fs.vu_common.virtio_common.avail_features & (1u64 << bit) != 0
            ||| fs.access_platform_enabled && bit == 33
        },
{
    let avail: u64 = fs.vu_common.virtio_common.avail_features;
    assert((avail | 0x2_0000_0000) & (1u64 << bit) != 0 <==> avail & (1u64 << bit) != 0 || bit
        == 33) by (bit_vector)
        requires
            bit < 64,
    ;
}

/// After the guest acknowledged `value`, a feature counts as acknowledged exactly if it did before
/// or if the guest named it and the device knows it. Nothing else about the device changes.
pub proof fn law_acknowledged_features_bit_by_bit<M>(fs: &mut Fs<M>, value: u64, bit: u64)
    requires
        bit < 64,
        call_ensures(Fs::<M>::ack_features, (fs, value), ()),
    ensures
        ({
            let before = old(fs).vu_common.virtio_common;
            let after = final(fs).vu_common.virtio_common;
            &&& after.acked_features & (1u64 << bit) != 0 <==> {
                ||| before.acked_features & (1u64 << bit) != 0
                ||| value & (1u64 << bit) != 0 && before.avail_features & (1u64 << bit) != 0
            }
            &&& after.device_type == before.device_type
            &&& after.avail_features == before.avail_features
            &&& after.queue_sizes == before.queue_sizes
            &&& after.min_queues == before.min_queues
            &&& after.paused == before.paused
        }),
        final(fs).vu_common.acked_protocol_features == old(fs).vu_common.acked_protocol_features,
        final(fs).vu_common.socket_path == old(fs).vu_common.socket_path,
        final(fs).vu_common.vu_num_queues == old(fs).vu_common.vu_num_queues,
        final(fs).vu_common.vring_bases == old(fs).vu_common.vring_bases,
        final(fs).vu_common.epoll_thread == old(fs).vu_common.epoll_thread,
        final(fs).id == old(fs).id,
        final(fs).config == old(fs).config,
        final(fs).cache == old(fs).cache,
        final(fs).seccomp_action == old(fs).seccomp_action,
        final(fs).guest_memory == old(fs).guest_memory,
        final(fs).exit_evt == old(fs).exit_evt,
        final(fs).access_platform_enabled == old(fs).access_platform_enabled,
{
    let acked: u64 = fs.vu_common.virtio_common.acked_features;
    let avail: u64 = fs.vu_common.virtio_common.avail_features;
    assert((acked | (value & avail)) & (1u64 << bit) != 0 <==> acked & (1u64 << bit) != 0 || (value
        & (1u64 << bit) != 0 && avail & (1u64 << bit) != 0)) by (bit_vector)
        requires
            bit < 64,
    ;
}

} // verus!
