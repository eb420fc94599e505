use rasp_manager::disks::{get_disk_info, get_disks_info, is_device_backed, FsStats, Mount};
use rasp_manager::sysinfo::disk_usage;
use rasp_manager::units::Megabytes;

fn megabytes_as_float(m: Megabytes) -> f64 {
    m.whole as f64 + m.bytes as f64 / 1048576.0
}

fn mount(spec: &str, file: &str, stats: Result<FsStats, i32>) -> Mount {
    Mount { spec: spec.to_string(), file: file.to_string(), stats }
}

#[test]
fn device_prefix_is_recognised() {
    assert!(is_device_backed("/dev/sda1"));
    assert!(is_device_backed("/dev"));
    assert!(is_device_backed("/device"));
    assert!(!is_device_backed("tmpfs"));
    assert!(!is_device_backed("/de"));
    assert!(!is_device_backed(""));
    assert!(!is_device_backed(" /dev/sda1"));
    assert!(!is_device_backed("/Dev/sda1"));
}

#[test]
fn sizes_are_block_size_times_blocks() {
    let stats = FsStats { block_size: 4096, blocks: 256000, blocks_available: 128000 };
    let disk = get_disk_info("/", Ok(stats)).unwrap();
    assert_eq!(disk.mount, "/");
    assert_eq!(disk.total, 1_048_576_000);
    assert_eq!(disk.available, 524_288_000);
}

#[test]
fn failed_query_keeps_the_error_number() {
    let err = get_disk_info("/mnt/gone", Err(2)).unwrap_err();
    assert_eq!(err.0, 2);
    assert_eq!(err.message(), "Failed to get information!");
}

#[test]
fn well_formed_statistics() {
    assert!(FsStats { block_size: 4096, blocks: 10, blocks_available: 5 }.is_wf());
    assert!(FsStats { block_size: 0, blocks: u64::MAX, blocks_available: u64::MAX }.is_wf());
    assert!(!FsStats { block_size: 4096, blocks: u64::MAX, blocks_available: 5 }.is_wf());
    assert!(!FsStats { block_size: 2, blocks: 5, blocks_available: u64::MAX }.is_wf());
}

#[test]
fn only_device_mounts_are_listed() {
    let sda = FsStats { block_size: 4096, blocks: 256000, blocks_available: 128000 };
    let tmp = FsStats { block_size: 4096, blocks: 1000, blocks_available: 1000 };
    let table = vec![mount("/dev/sda1", "/", Ok(sda)), mount("tmpfs", "/tmp", Ok(tmp))];
    let disks = get_disks_info(Some(table));
    assert_eq!(disks.len(), 1);
    assert_eq!(disks[0].mount, "/");
    assert_eq!(disks[0].total, 1_048_576_000);
    assert_eq!(disks[0].available, 524_288_000);

    let usage = disk_usage(disks);
    assert_eq!(usage.len(), 1);
    assert_eq!(usage[0].mount, "/");
    assert_eq!(usage[0].total, Megabytes { whole: 1000, bytes: 0 });
    assert_eq!(usage[0].available, Megabytes { whole: 500, bytes: 0 });
    assert!((megabytes_as_float(usage[0].total) - 1000.0).abs() < 1e-9);
    assert!((megabytes_as_float(usage[0].available) - 500.0).abs() < 1e-9);
}

#[test]
fn failed_statistics_are_skipped() {
    let a = FsStats { block_size: 512, blocks: 8, blocks_available: 2 };
    let b = FsStats { block_size: 1024, blocks: 3, blocks_available: 1 };
    let table = vec![
        mount("/dev/sda1", "/", Ok(a)),
        mount("/dev/sdb1", "/data", Err(13)),
        mount("proc", "/proc", Err(1)),
        mount("/dev/sdc1", "/backup", Ok(b)),
    ];
    let disks = get_disks_info(Some(table));
    assert_eq!(disks.len(), 2);
    assert_eq!(disks[0].mount, "/");
    assert_eq!(disks[0].total, 4096);
    assert_eq!(disks[0].available, 1024);
    assert_eq!(disks[1].mount, "/backup");
    assert_eq!(disks[1].total, 3072);
    assert_eq!(disks[1].available, 1024);
}

#[test]
fn unreadable_table_gives_no_disks() {
    assert!(get_disks_info(None).is_empty());
    assert!(get_disks_info(Some(Vec::new())).is_empty());
}

#[test]
fn bytes_to_megabytes_is_exact() {
    assert_eq!(Megabytes::from_bytes(0), Megabytes { whole: 0, bytes: 0 });
    assert_eq!(Megabytes::from_bytes(1_048_576), Megabytes { whole: 1, bytes: 0 });
    assert_eq!(Megabytes::from_bytes(1_048_575), Megabytes { whole: 0, bytes: 1_048_575 });
    assert_eq!(Megabytes::from_bytes(1_572_864), Megabytes { whole: 1, bytes: 524_288 });
    assert_eq!(
        Megabytes::from_bytes(u64::MAX),
        Megabytes { whole: 17_592_186_044_415, bytes: 1_048_575 }
    );
    assert!((megabytes_as_float(Megabytes::from_bytes(1_572_864)) - 1.5).abs() < 1e-12);
}

#[test]
fn kilobytes_to_megabytes_is_exact() {
    assert_eq!(Megabytes::from_kilobytes(1024), Megabytes { whole: 1, bytes: 0 });
    assert_eq!(Megabytes::from_kilobytes(1536), Megabytes { whole: 1, bytes: 524_288 });
    assert_eq!(Megabytes::from_kilobytes(1), Megabytes { whole: 0, bytes: 1024 });
    assert_eq!(
        Megabytes::from_kilobytes(u64::MAX),
        Megabytes { whole: 18_014_398_509_481_983, bytes: 1_047_552 }
    );
}

#[test]
fn megabytes_back_to_bytes() {
    for bytes in [0u64, 1, 1_048_575, 1_048_576, 123_456_789_012, u64::MAX] {
        assert_eq!(Megabytes::from_bytes(bytes).to_bytes(), Some(bytes));
    }
    assert_eq!(Megabytes::from_kilobytes(3).to_bytes(), Some(3072));
    assert_eq!(Megabytes::from_kilobytes(u64::MAX).to_bytes(), None);
    assert_eq!(Megabytes::zero().to_bytes(), Some(0));
}
