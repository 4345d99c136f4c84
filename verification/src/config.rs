//! The configuration space of the device: the file system's tag and the number of request queues.
use vstd::prelude::*;

verus! {

/// The length of the tag field.
pub const VIRTIO_FS_TAG_LEN: usize = 36;

/// The device's configuration space.
#[derive(Debug, Clone, Copy)]
pub struct VirtioFsConfig {
    pub tag: [u8; VIRTIO_FS_TAG_LEN],
    pub num_request_queues: u32,
}

impl Default for VirtioFsConfig {
    /// No tag and no request queues.
    fn default() -> (config: Self)
        ensures
            config.tag@ == Seq::new(VIRTIO_FS_TAG_LEN as nat, |i: int| 0u8),
            config.num_request_queues == 0,
    {
        let config = VirtioFsConfig { tag: [0u8; 36], num_request_queues: 0 };
        assert(config.tag@ =~= Seq::new(VIRTIO_FS_TAG_LEN as nat, |i: int| 0u8));
        config
    }
}

/// A tag in its field: cut off at the field's length, or filled up with zero bytes.
pub open spec fn tag_field(tag: Seq<u8>) -> Seq<u8> {
    Seq::new(
        VIRTIO_FS_TAG_LEN as nat,
        |i: int|
            if i < tag.len() {
                tag[i]
            } else {
                0u8
            },
    )
}

/// The tag that a field holds: its bytes up to the first zero byte.
pub open spec fn tag_in_field(field: Seq<u8>) -> Seq<u8>
    decreases field.len(),
{
    if field.len() == 0 || field[0] == 0 {
        Seq::empty()
    } else {
        seq![field[0]] + tag_in_field(field.drop_first())
    }
}

/// The bytes of a `u32`, the least significant first.
pub open spec fn little_endian(value: u32) -> Seq<u8> {
    seq![
        (value % 0x100) as u8,
        (value / 0x100 % 0x100) as u8,
        (value / 0x1_0000 % 0x100) as u8,
        (value / 0x100_0000) as u8,
    ]
}

/// The bytes of a `u32` as they lie in the memory of the machine that runs the device.
pub open spec fn machine_bytes(value: u32) -> Seq<u8> {
    match vstd::endian::endianness() {
        vstd::endian::Endian::Little => little_endian(value),
        vstd::endian::Endian::Big => little_endian(value).reverse(),
    }
}

/// `ByteValued::as_slice` of the `vm-memory` crate on a `u32`: the four bytes of the value as they
/// lie in memory, in the byte order of the machine.
#[verifier::external_body]
fn u32_as_slice(value: u32) -> (bytes: Vec<u8>)
    ensures
        bytes@ == machine_bytes(value),
{
    vm_memory::ByteValued::as_slice(&value).to_vec()
}

/// The configuration space as the guest sees it: the tag, then the number of request queues in
/// the byte order of the machine.
pub open spec fn config_image(config: VirtioFsConfig) -> Seq<u8> {
    config.tag@ + machine_bytes(config.num_request_queues)
}

/// What a read of `len` bytes at `offset` leaves in a buffer that held `before`: the bytes of
/// the configuration space, or `before` if the read goes past the end.
pub open spec fn read_result(image: Seq<u8>, offset: int, before: Seq<u8>) -> Seq<u8> {
    if offset + before.len() <= image.len() {
        image.subrange(offset, offset + before.len())
    } else {
        before
    }
}

impl VirtioFsConfig {
    /// The configuration of a file system named `tag` with `req_num_queues` request queues.
    pub fn for_tag(tag: &str, req_num_queues: usize) -> (config: VirtioFsConfig)
        ensures
            config.tag@ == tag_field(vstd::utf8::encode_utf8(tag@)),
            config.num_request_queues == req_num_queues as u32,
    {
        let mut config = VirtioFsConfig::default();
        let bytes: &[u8] = tag.as_bytes();
        let len: usize = if bytes.len() < config.tag.len() {
            bytes.len()
        } else {
            config.tag.len()
        };
        let mut i: usize = 0;
        while i < len
            invariant
                i <= len,
                len <= VIRTIO_FS_TAG_LEN,
                len <= bytes@.len(),
                config.tag@.len() == VIRTIO_FS_TAG_LEN,
                config.num_request_queues == 0,
                forall|j: int| 0 <= j < i ==> config.tag@[j] == bytes@[j],
                forall|j: int| i <= j < VIRTIO_FS_TAG_LEN ==> config.tag@[j] == 0,
            decreases len - i,
        {
            config.tag[i] = bytes[i];
            i += 1;
        }
        assert(config.tag@ =~= tag_field(vstd::utf8::encode_utf8(tag@)));
        config.num_request_queues = #[verifier::truncate]
        (req_num_queues as u32);
        config
    }

    /// The configuration space as bytes.
    pub fn as_slice(&self) -> (bytes: Vec<u8>)
        ensures
            bytes@ == config_image(*self),
    {
        let mut bytes: Vec<u8> = Vec::new();
        let mut i: usize = 0;
        while i < VIRTIO_FS_TAG_LEN
            invariant
                i <= VIRTIO_FS_TAG_LEN,
                bytes@ == self.tag@.take(i as int),
            decreases VIRTIO_FS_TAG_LEN - i,
        {
            bytes.push(self.tag[i]);
            i += 1;
            assert(bytes@ =~= self.tag@.take(i as int));
        }
        let mut queues: Vec<u8> = u32_as_slice(self.num_request_queues);
        bytes.append(&mut queues);
        assert(self.tag@.take(VIRTIO_FS_TAG_LEN as int) =~= self.tag@);
        bytes
    }
}

/// Copies the bytes at `offset` of a configuration space to `data`. A read that goes past the
/// end leaves `data` as it is.
pub fn read_config_from_slice(config: &[u8], offset: u64, data: &mut [u8])
    ensures
        final(data)@ == read_result(config@, offset as int, old(data)@),
{
    let config_len: usize = config.len();
    let data_len: usize = data.len();
    if data_len > config_len || offset > (config_len - data_len) as u64 {
        return;
    }
    let start: usize = offset as usize;
    let mut i: usize = 0;
    while i < data_len
        invariant
            i <= data_len,
            data@.len() == data_len,
            start + data_len <= config_len,
            config_len == config@.len(),
            forall|j: int| 0 <= j < i ==> data@[j] == config@[start + j],
        decreases data_len - i,
    {
        data[i] = config[start + i];
        i += 1;
    }
    assert(data@ =~= config@.subrange(start as int, start + data_len));
}

proof fn lemma_tag_in_field(tag: Seq<u8>, zeros: nat)
    requires
        forall|i: int| 0 <= i < tag.len() ==> tag[i] != 0,
    ensures
        tag_in_field(tag + Seq::new(zeros, |i: int| 0u8)) == tag,
    decreases tag.len(),
{
    let padding = Seq::new(zeros, |i: int| 0u8);
    let field = tag + padding;
    if tag.len() > 0 {
        lemma_tag_in_field(tag.drop_first(), zeros);
        assert(field.drop_first() =~= tag.drop_first() + padding);
        assert(tag =~= seq![tag[0]] + tag.drop_first());
    }
}

/// The guest finds in the tag field the tag that the device was given, cut off after the length
/// of the field. (A tag that holds a zero byte ends there for the guest.)
pub proof fn law_tag_survives(tag: Seq<u8>)
    requires
        forall|i: int| 0 <= i < tag.len() ==> tag[i] != 0,
    ensures
        tag.len() <= VIRTIO_FS_TAG_LEN ==> tag_in_field(tag_field(tag)) == tag,
        tag.len() > VIRTIO_FS_TAG_LEN ==> tag_in_field(tag_field(tag)) == tag.take(
            VIRTIO_FS_TAG_LEN as int,
        ),
{
    let kept = if tag.len() <= VIRTIO_FS_TAG_LEN {
        tag
    } else {
        tag.take(VIRTIO_FS_TAG_LEN as int)
    };
    let zeros = (VIRTIO_FS_TAG_LEN - kept.len()) as nat;
    lemma_tag_in_field(kept, zeros);
    assert(tag_field(tag) =~= kept + Seq::new(zeros, |i: int| 0u8));
}

/// The configuration space is 40 bytes long and starts with the tag field, which the
/// number of request queues follows.
pub proof fn law_image_layout(config: VirtioFsConfig)
    ensures
        config_image(config).len() == 40,
        config_image(config).take(VIRTIO_FS_TAG_LEN as int) == config.tag@,
        config_image(config).skip(VIRTIO_FS_TAG_LEN as int) == machine_bytes(
            config.num_request_queues,
        ),
{
    assert(config_image(config).take(VIRTIO_FS_TAG_LEN as int) =~= config.tag@);
    assert(config_image(config).skip(VIRTIO_FS_TAG_LEN as int) =~= machine_bytes(
        config.num_request_queues,
    ));
}

/// Reading the configuration space piece by piece gives what reading it at once gives.
pub proof fn law_reads_compose(image: Seq<u8>, offset: int, first: Seq<u8>, second: Seq<u8>)
    requires
        0 <= offset,
        offset + first.len() + second.len() <= image.len(),
    ensures
        read_result(image, offset, first) + read_result(image, offset + first.len(), second)
            == read_result(image, offset, first + second),
{
    assert(read_result(image, offset, first) + read_result(image, offset + first.len(), second)
        =~= read_result(image, offset, first + second));
}

} // verus!
