use fuse_wire::attr::STAT_SIZE;
use fuse_wire::host::HostLayout;
use fuse_wire::protocol::{ENOENT, ENOSYS, MS_NODEV, MS_NOSUID, S_IFDIR};

fn wire() -> HostLayout {
    HostLayout {
        little_endian: true,
        stat_size: 144,
        no_entry: 2,
        not_supported: 38,
        directory_bits: 0o040000,
        no_suid: 2,
        no_dev: 4,
    }
}

#[test]
fn host_tells_its_own_numbers() {
    let host = HostLayout::of_host();
    assert_eq!(host.little_endian, 1u32.to_ne_bytes()[0] == 1);
    assert_eq!(host.little_endian, 0x0102_0304u32.to_ne_bytes() == [4, 3, 2, 1]);
    assert_eq!(host.stat_size, std::mem::size_of::<libc::stat>());
    assert_eq!(host.no_entry, libc::ENOENT);
    assert_eq!(host.not_supported, libc::ENOSYS);
    assert_eq!(host.directory_bits, libc::S_IFDIR as u32);
    assert_eq!(host.no_suid, libc::MS_NOSUID as u64);
    assert_eq!(host.no_dev, libc::MS_NODEV as u64);
}

#[test]
fn wire_layout_is_supported() {
    assert!(wire().is_supported());
    assert_eq!(
        wire(),
        HostLayout {
            little_endian: true,
            stat_size: STAT_SIZE,
            no_entry: ENOENT,
            not_supported: ENOSYS,
            directory_bits: S_IFDIR,
            no_suid: MS_NOSUID,
            no_dev: MS_NODEV,
        }
    );
}

#[test]
fn any_other_number_is_not_supported() {
    assert!(!HostLayout { little_endian: false, ..wire() }.is_supported());
    assert!(!HostLayout { stat_size: 128, ..wire() }.is_supported());
    assert!(!HostLayout { no_entry: 44, ..wire() }.is_supported());
    assert!(!HostLayout { not_supported: 89, ..wire() }.is_supported());
    assert!(!HostLayout { directory_bits: 0o100000, ..wire() }.is_supported());
    assert!(!HostLayout { no_suid: 1, ..wire() }.is_supported());
    assert!(!HostLayout { no_dev: 2, ..wire() }.is_supported());
}

#[test]
fn this_host_is_supported_where_its_numbers_are_the_wire_numbers() {
    let host = HostLayout::of_host();
    assert_eq!(host.is_supported(), host == wire());
}
