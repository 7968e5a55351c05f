use inscribe::device::{is_system_device, is_valid_device_path, parent_block_device, root_device};
use inscribe::inventory::{listed_device, DeviceRecord};

const MOUNTS: &[u8] = b"proc /proc proc rw 0 0\n/dev/sda2 / ext4 rw,relatime 0 0\n/dev/sda1 /boot/efi vfat rw 0 0\n";

#[test]
fn parents_of_partitions() {
    assert_eq!(parent_block_device(b"/dev/sda1"), b"/dev/sda".to_vec());
    assert_eq!(parent_block_device(b"/dev/sdb12"), b"/dev/sdb".to_vec());
    assert_eq!(parent_block_device(b"/dev/sdc"), b"/dev/sdc".to_vec());
    assert_eq!(parent_block_device(b"/dev/nvme0n1p2"), b"/dev/nvme0n1".to_vec());
    assert_eq!(parent_block_device(b"/dev/nvme0n1"), b"/dev/nvme0n1".to_vec());
    assert_eq!(parent_block_device(b"/dev/nvme0n1p"), b"/dev/nvme0n1p".to_vec());
    assert_eq!(parent_block_device(b"/dev/mmcblk0p1"), b"/dev/mmcblk0p1".to_vec());
    assert_eq!(parent_block_device(b"/dev/loop3"), b"/dev/loop3".to_vec());
}

#[test]
fn recognised_device_paths() {
    assert!(is_valid_device_path(b"/dev/sdb"));
    assert!(is_valid_device_path(b"/dev/nvme1n1"));
    assert!(!is_valid_device_path(b"/dev/mmcblk0"));
    assert!(!is_valid_device_path(b"/tmp/disk.img"));
    assert!(!is_valid_device_path(b"/dev/s"));
}

#[test]
fn root_device_from_mount_table() {
    assert_eq!(root_device(MOUNTS), Some(b"/dev/sda2".to_vec()));
    assert_eq!(root_device(b"tmpfs /tmp tmpfs rw 0 0\n"), None);
    assert_eq!(root_device(b""), None);
    assert_eq!(root_device("/dev/sdc3\u{a0}/ ext4 rw 0 0\n".as_bytes()), Some(b"/dev/sdc3".to_vec()));
}

#[test]
fn system_disk_example() {
    assert!(is_system_device(MOUNTS, b"/dev/sda1"));
    assert!(is_system_device(MOUNTS, b"/dev/sda"));
    assert!(!is_system_device(MOUNTS, b"/dev/sdb1"));
    let nvme_root = b"/dev/nvme0n1p3 / btrfs rw 0 0\n";
    assert!(is_system_device(nvme_root, b"/dev/nvme0n1"));
    assert!(!is_system_device(nvme_root, b"/dev/nvme1n1"));
    assert!(!is_system_device(b"", b"/dev/sda"));
}

#[test]
fn system_check_is_repeatable() {
    for path in [&b"/dev/sda1"[..], b"/dev/sdb", b"/dev/nvme0n1p1"] {
        assert_eq!(is_system_device(MOUNTS, path), is_system_device(MOUNTS, path));
    }
}

fn record(name: &str, rm: Option<u64>, tran: Option<&str>) -> DeviceRecord {
    DeviceRecord {
        name: Some(name.to_string()),
        size: Some("8004304896".to_string()),
        rm,
        tran: tran.map(|t| t.to_string()),
        model: Some("Flash Disk".to_string()),
        vendor: None,
        serial: Some("123".to_string()),
    }
}

#[test]
fn inventory_offers_removable_and_usb() {
    let d = listed_device(&record("sdb", Some(1), None)).unwrap();
    assert_eq!(d.path, "/dev/sdb");
    assert_eq!(d.name, "sdb");
    assert_eq!(d.size, "8004304896");
    assert!(d.removable);
    let u = listed_device(&record("sdc", Some(0), Some("USB"))).unwrap();
    assert_eq!(u.path, "/dev/sdc");
    assert!(!u.removable);
    assert_eq!(u.transport.as_deref(), Some("USB"));
    assert!(listed_device(&record("nvme0n1", Some(0), Some("nvme"))).is_none());
    assert!(listed_device(&record("sda", None, None)).is_none());
}
