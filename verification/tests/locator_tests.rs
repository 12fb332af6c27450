use plode_web_agent::locator::{
    find_linux_device_path, find_linux_mount_point, find_macos_mount_point, find_mount_point,
    find_windows_mount_point, get_linux_mount_points, lookup_mount, BlockLink, DeviceSnapshot,
    SysUsbEntry,
};

const PROFILER_OUTPUT: &str = "USB:\n\n    USB 3.1 Bus:\n\n      TinyUSB Flash Storage:\n\n        Product ID: 0x8055\n        Vendor ID: 0xb1b0 (Unknown)\n        Version: 1.00\n        Mount Point: /Volumes/DEV\n\n      Apple Keyboard:\n\n        Product ID: 0x0221\n        Vendor ID: 0x05ac (Apple Inc.)\n";

#[test]
fn profiler_record_with_matching_vendor_yields_its_mount_point() {
    let r = find_macos_mount_point("0xb1b0", PROFILER_OUTPUT);
    assert_eq!(r.as_deref(), Some("/Volumes/DEV"));
}

#[test]
fn profiler_vendor_match_ignores_case() {
    let r = find_macos_mount_point("0xB1B0", PROFILER_OUTPUT);
    assert_eq!(r.as_deref(), Some("/Volumes/DEV"));
}

#[test]
fn profiler_without_matching_vendor_yields_nothing() {
    assert!(find_macos_mount_point("0xdead", PROFILER_OUTPUT).is_none());
}

#[test]
fn profiler_blank_line_resets_the_record() {
    // The vendor line and the mount-point line belong to different records,
    // so they never combine.
    let out = "Vendor ID: 0xb1b0\nProduct ID: 0x8055\n\nMount Point: /Volumes/DEV\n";
    assert!(find_macos_mount_point("0xb1b0", out).is_none());
}

#[test]
fn profiler_scan_short_circuits_on_the_first_match() {
    let out = "Vendor ID: 0xb1b0\nProduct ID: 0x8055\nMount Point: /Volumes/ONE\n\nVendor ID: 0xb1b0\nProduct ID: 0x8055\nMount Point: /Volumes/TWO\n";
    assert_eq!(
        find_macos_mount_point("0xb1b0", out).as_deref(),
        Some("/Volumes/ONE")
    );
}

#[test]
fn empty_enumeration_output_means_not_found() {
    assert!(find_macos_mount_point("0xb1b0", "").is_none());
}

#[test]
fn resolution_is_idempotent_on_an_unchanged_snapshot() {
    let snap = DeviceSnapshot::MacOs { usb_output: PROFILER_OUTPUT.to_string() };
    let first = find_mount_point("0xb1b0", &snap);
    let second = find_mount_point("0xb1b0", &snap);
    assert_eq!(first, second);
    assert_eq!(first.as_deref(), Some("/Volumes/DEV"));
}

#[test]
fn drive_query_output_is_trimmed() {
    assert_eq!(find_windows_mount_point("  E:/  \r\n").as_deref(), Some("E:/"));
}

#[test]
fn empty_drive_query_output_means_not_found() {
    assert!(find_windows_mount_point("   \n").is_none());
    assert!(find_windows_mount_point("").is_none());
}

#[test]
fn mount_table_keeps_disk_devices_only() {
    let text = "proc /proc proc rw 0 0\n/dev/sda1 /mnt vfat rw 0 0\n/dev/nvme0n1p2 / ext4 rw 0 0\ntmpfs /tmp tmpfs rw 0 0\n";
    let pairs = get_linux_mount_points(text);
    assert_eq!(
        pairs,
        vec![
            ("sda1".to_string(), "/mnt".to_string()),
            ("nvme0n1p2".to_string(), "/".to_string()),
        ]
    );
}

#[test]
fn mount_lookup_takes_the_latest_entry() {
    let pairs = vec![
        ("sda".to_string(), "/old".to_string()),
        ("sda".to_string(), "/new".to_string()),
    ];
    assert_eq!(lookup_mount(&pairs, "sda").as_deref(), Some("/new"));
    assert!(lookup_mount(&pairs, "sdb").is_none());
}

#[test]
fn device_path_correlates_identifiers_to_a_block_device() {
    let entries = vec![
        SysUsbEntry {
            name: "1-3".to_string(),
            vendor_id: "05ac\n".to_string(),
            product_id: "0221\n".to_string(),
        },
        SysUsbEntry {
            name: "1-4".to_string(),
            vendor_id: "b1b0\n".to_string(),
            product_id: "8055\n".to_string(),
        },
    ];
    let blocks = vec![
        BlockLink {
            name: "sda".to_string(),
            target: "../devices/pci0000:00/usb1/1-4/1-4:1.0/host0/target0".to_string(),
        },
        BlockLink { name: "nvme0n1".to_string(), target: "../devices/pci0000:00/nvme".to_string() },
    ];
    assert_eq!(
        find_linux_device_path("b1b0", "8055", &entries, &blocks).as_deref(),
        Some("sda")
    );
    assert!(find_linux_device_path("ffff", "8055", &entries, &blocks).is_none());
}

#[test]
fn linux_resolution_end_to_end() {
    let lsusb = "Bus 001 Device 002: ID b1b0:8055 TinyUSB Flash Storage\nBus 001 Device 003: ID 05ac:0221 Apple Keyboard\n";
    let entries = vec![SysUsbEntry {
        name: "1-4".to_string(),
        vendor_id: "b1b0\n".to_string(),
        product_id: "8055\n".to_string(),
    }];
    let blocks = vec![BlockLink {
        name: "sda".to_string(),
        target: "../devices/pci0000:00/usb1/1-4/1-4:1.0".to_string(),
    }];
    let mounts = "/dev/sda /media/usb vfat rw 0 0\n";
    let r = find_linux_mount_point("0xb1b0", lsusb, &entries, &blocks, mounts);
    assert_eq!(r.as_deref(), Some("/media/usb"));

    let snap = DeviceSnapshot::Linux {
        lsusb_output: lsusb.to_string(),
        sys_entries: entries,
        block_links: blocks,
        mounts_text: mounts.to_string(),
    };
    assert_eq!(find_mount_point("0xb1b0", &snap).as_deref(), Some("/media/usb"));
}

#[test]
fn linux_unmounted_device_means_not_found() {
    let lsusb = "Bus 001 Device 002: ID b1b0:8055 TinyUSB Flash Storage\n";
    let entries = vec![SysUsbEntry {
        name: "1-4".to_string(),
        vendor_id: "b1b0\n".to_string(),
        product_id: "8055\n".to_string(),
    }];
    let blocks: Vec<BlockLink> = Vec::new();
    let mounts = "/dev/sda /media/usb vfat rw 0 0\n";
    assert!(find_linux_mount_point("0xb1b0", lsusb, &entries, &blocks, mounts).is_none());
}
