//! The configuration space, byte by byte.
use crate::config::VirtioFsConfig;
use vstd::prelude::*;

verus! {

/// The number that four bytes stand for in the byte order of the machine.
pub open spec fn number_of(bytes: Seq<u8>) -> int {
    match vstd::endian::endianness() {
        vstd::endian::Endian::Little => bytes[0] + 0x100 * bytes[1] + 0x1_0000 * bytes[2]
            + 0x100_0000 * bytes[3],
        vstd::endian::Endian::Big => bytes[3] + 0x100 * bytes[2] + 0x1_0000 * bytes[1] + 0x100_0000
            * bytes[0],
    }
}

pub(crate) proof fn lemma_machine_bytes(value: u32)
    ensures
        crate::config::machine_bytes(value).len() == 4,
        number_of(crate::config::machine_bytes(value)) == value,
{
    let low: u32 = value % 0x100;
    let second: u32 = value / 0x100 % 0x100;
    let third: u32 = value / 0x1_0000 % 0x100;
    let high: u32 = value / 0x100_0000;
    assert(low < 0x100 && second < 0x100 && third < 0x100 && high < 0x100 && low + 0x100 * second
        + 0x1_0000 * third + 0x100_0000 * high == value) by (bit_vector)
        requires
            low == value % 0x100,
            second == value / 0x100 % 0x100,
            third == value / 0x1_0000 % 0x100,
            high == value / 0x100_0000,
    ;
}

/// A configuration starts out empty.
pub proof fn law_default_config_is_empty(config: VirtioFsConfig)
    requires
        call_ensures(<VirtioFsConfig as Default>::default, (), config),
    ensures
        config.num_request_queues == 0,
        forall|i: int| 0 <= i < 36 ==> config.tag@[i] == 0,
{
}

/// The configuration of a file system holds the bytes of its tag one after the other, as far as 36
/// bytes go, then zero bytes, and the number of request queues as far as 32 bits go.
pub proof fn law_config_holds_tag_and_queues(tag: &str, req_num_queues: usize, config: VirtioFsConfig)
    requires
        call_ensures(VirtioFsConfig::for_tag, (tag, req_num_queues), config),
    ensures
        ({
            let text = vstd::utf8::encode_utf8(tag@);
            forall|i: int|
                0 <= i < 36 ==> #[trigger] config.tag@[i] == if i < text.len() {
                    text[i]
                } else {
                    0
                }
        }),
        config.num_request_queues as int == req_num_queues as int % 0x1_0000_0000,
{
    let queues: u64 = req_num_queues as u64;
    assert(queues as u32 == queues % 0x1_0000_0000) by (bit_vector);
}

/// The configuration space has 40 bytes: those of the tag, then those of the number of request
/// queues in the byte order of the machine.
pub proof fn law_space_is_tag_then_queues(config: VirtioFsConfig, space: Vec<u8>)
    requires
        call_ensures(VirtioFsConfig::as_slice, (&config,), space),
    ensures
        space@.len() == 40,
        forall|i: int| 0 <= i < 36 ==> #[trigger] space@[i] == config.tag@[i],
        number_of(space@.subrange(36, 40)) == config.num_request_queues,
{
    lemma_machine_bytes(config.num_request_queues);
    assert(space@.subrange(36, 40) =~= crate::config::machine_bytes(config.num_request_queues));
}

/// A read within the space fills the whole buffer with the bytes from the offset on; a read that
/// goes past the end leaves the buffer as it was.
pub proof fn law_read_fills_the_buffer_or_leaves_it(space: &[u8], offset: u64, data: &mut [u8])
    requires
        call_ensures(crate::config::read_config_from_slice, (space, offset, data), ()),
    ensures
        final(data)@.len() == old(data)@.len(),
        offset + old(data)@.len() <= space@.len() ==> forall|i: int|
            0 <= i < old(data)@.len() ==> #[trigger] final(data)@[i] == space@[offset + i],
        offset + old(data)@.len() > space@.len() ==> final(data)@ == old(data)@,
{
}

} // verus!
