use vhost_user_fs::config::{read_config_from_slice, VirtioFsConfig, VIRTIO_FS_TAG_LEN};

#[test]
fn default_is_all_zero() {
    let config = VirtioFsConfig::default();
    assert_eq!(config.tag, [0u8; VIRTIO_FS_TAG_LEN]);
    assert_eq!(config.num_request_queues, 0);
}

#[test]
fn short_tag_is_padded() {
    let config = VirtioFsConfig::for_tag("myfs", 3);
    assert_eq!(&config.tag[..5], b"myfs\0");
    assert!(config.tag[4..].iter().all(|b| *b == 0));
    assert_eq!(config.num_request_queues, 3);
}

#[test]
fn empty_tag() {
    let config = VirtioFsConfig::for_tag("", 1);
    assert_eq!(config.tag, [0u8; 36]);
}

#[test]
fn tag_of_full_length() {
    let tag = "abcdefghijklmnopqrstuvwxyz0123456789";
    assert_eq!(tag.len(), VIRTIO_FS_TAG_LEN);
    assert_eq!(&VirtioFsConfig::for_tag(tag, 1).tag[..], tag.as_bytes());
}

#[test]
fn long_tag_is_cut_off() {
    let tag = "abcdefghijklmnopqrstuvwxyz0123456789-and-more";
    assert_eq!(
        &VirtioFsConfig::for_tag(tag, 1).tag[..],
        &tag.as_bytes()[..36]
    );
}

#[test]
fn long_tag_is_cut_off_between_bytes() {
    let tag = "é".repeat(20);
    let config = VirtioFsConfig::for_tag(&tag, 1);
    assert_eq!(&config.tag[..], &tag.as_bytes()[..36]);
    let odd = format!("x{}", tag);
    let config = VirtioFsConfig::for_tag(&odd, 1);
    assert_eq!(config.tag[35], 0xc3);
}

#[test]
fn number_of_queues_is_truncated() {
    if usize::BITS == 64 {
        let n = (u32::MAX as usize).wrapping_add(6);
        assert_eq!(VirtioFsConfig::for_tag("t", n).num_request_queues, 5);
    }
}

#[test]
fn image_is_tag_and_queues() {
    let config = VirtioFsConfig::for_tag("myfs", 0x0102_0304);
    let image = config.as_slice();
    assert_eq!(image.len(), 40);
    assert_eq!(&image[..36], &config.tag[..]);
    assert_eq!(&image[36..], &0x0102_0304u32.to_ne_bytes()[..]);
}

#[test]
fn read_inside() {
    let config = [1u8, 2, 3, 4, 5];
    let mut data = [9u8; 3];
    read_config_from_slice(&config, 1, &mut data);
    assert_eq!(data, [2, 3, 4]);
    let mut all = [9u8; 5];
    read_config_from_slice(&config, 0, &mut all);
    assert_eq!(all, config);
}

#[test]
fn read_past_the_end_changes_nothing() {
    let config = [1u8, 2, 3, 4, 5];
    let mut data = [9u8; 3];
    read_config_from_slice(&config, 3, &mut data);
    assert_eq!(data, [9; 3]);
    read_config_from_slice(&config, u64::MAX, &mut data);
    assert_eq!(data, [9; 3]);
    let mut long = [9u8; 6];
    read_config_from_slice(&config, 0, &mut long);
    assert_eq!(long, [9; 6]);
}

#[test]
fn reads_compose() {
    let image = VirtioFsConfig::for_tag("compose", 2).as_slice();
    let mut first = [0u8; 7];
    let mut second = [0u8; 5];
    let mut both = [0u8; 12];
    read_config_from_slice(&image, 3, &mut first);
    read_config_from_slice(&image, 10, &mut second);
    read_config_from_slice(&image, 3, &mut both);
    assert_eq!([&first[..], &second[..]].concat(), both.to_vec());
    assert_eq!(&both[..4], b"pose");
}
