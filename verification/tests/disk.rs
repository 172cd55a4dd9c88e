use hddwarn::disk::{bytes_to_gib, get_disk_info, DiskInfo, VolumeSample, BYTES_PER_GIB, LOW_SPACE_LIMIT_GIB};

fn sample(mount_point: &str, available_bytes: u64) -> VolumeSample {
    VolumeSample { mount_point: mount_point.to_string(), available_bytes }
}

#[test]
fn gibibyte_is_two_to_the_thirty() {
    assert_eq!(BYTES_PER_GIB, 1_073_741_824);
    assert_eq!(BYTES_PER_GIB, 1u64 << 30);
    assert_eq!(LOW_SPACE_LIMIT_GIB, 10);
}

#[test]
fn conversion_truncates() {
    assert_eq!(bytes_to_gib(10_737_418_240), 10);
    assert_eq!(bytes_to_gib(10_737_418_241), 10);
    assert_eq!(bytes_to_gib(11_000_000_000), 10);
}

#[test]
fn conversion_at_the_edges() {
    assert_eq!(bytes_to_gib(0), 0);
    assert_eq!(bytes_to_gib(1_073_741_823), 0);
    assert_eq!(bytes_to_gib(1_073_741_824), 1);
    assert_eq!(bytes_to_gib(10_737_418_239), 9);
    assert_eq!(bytes_to_gib(11_811_160_063), 10);
    assert_eq!(bytes_to_gib(11_811_160_064), 11);
    assert_eq!(bytes_to_gib(u64::MAX), 17_179_869_183);
}

#[test]
fn conversion_is_floor_division() {
    for bytes in [0u64, 1, 999, 1 << 30, (1 << 30) + 1, 5 << 30, (5 << 30) - 1, u64::MAX / 3] {
        let gib = bytes_to_gib(bytes);
        assert!(gib * BYTES_PER_GIB <= bytes);
        assert!((gib as u128 + 1) * BYTES_PER_GIB as u128 > bytes as u128);
    }
}

#[test]
fn ten_gibibytes_exactly_is_low() {
    let disk = DiskInfo::from_sample(&sample("/", 10_737_418_240));
    assert_eq!(disk.free_space, 10);
    assert!(disk.is_low());
    let disk = DiskInfo::from_sample(&sample("/", 11_811_160_064));
    assert_eq!(disk.free_space, 11);
    assert!(!disk.is_low());
}

#[test]
fn no_volumes_give_no_readings() {
    assert!(get_disk_info(&[]).is_empty());
}

#[test]
fn readings_keep_the_host_order_and_labels() {
    let volumes = vec![
        sample("/", 5 * BYTES_PER_GIB + 17),
        sample("/home", 400 * BYTES_PER_GIB),
        sample("C:\\", BYTES_PER_GIB - 1),
    ];
    let disks = get_disk_info(&volumes);
    assert_eq!(
        disks,
        vec![
            DiskInfo { name: "/".to_string(), free_space: 5 },
            DiskInfo { name: "/home".to_string(), free_space: 400 },
            DiskInfo { name: "C:\\".to_string(), free_space: 0 },
        ]
    );
}

#[test]
fn same_mount_point_twice_gives_two_readings() {
    let volumes = vec![sample("/", 2 << 30), sample("/", 3 << 30)];
    let disks = get_disk_info(&volumes);
    assert_eq!(disks.len(), 2);
    assert_eq!(disks[0].free_space, 2);
    assert_eq!(disks[1].free_space, 3);
}
