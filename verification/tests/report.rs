use hddwarn::disk::DiskInfo;
use hddwarn::report::format_mail_content;

fn disk(name: &str, free_space: u64) -> DiskInfo {
    DiskInfo { name: name.to_string(), free_space }
}

#[test]
fn empty_report_is_header_only() {
    assert_eq!(format_mail_content("HOST1", &[]), "Servername: HOST1\n");
}

#[test]
fn header_names_the_host() {
    let report = format_mail_content("db-server-7", &[disk("/", 100)]);
    assert!(report.starts_with("Servername: db-server-7\n"));
}

#[test]
fn low_volume_is_flagged() {
    let report = format_mail_content("HOST1", &[disk("C:\\", 5)]);
    assert_eq!(
        report,
        "Servername: HOST1\nDISK C:\\ has 5 GB left free space. WARNING!\n"
    );
}

#[test]
fn roomy_volume_is_not_flagged() {
    let report = format_mail_content("HOST1", &[disk("/data", 250)]);
    assert_eq!(report, "Servername: HOST1\nDISK /data has 250 GB left free space.\n");
    assert!(!report.contains("WARNING!"));
}

#[test]
fn limit_is_inclusive() {
    let at = format_mail_content("h", &[disk("/", 10)]);
    let above = format_mail_content("h", &[disk("/", 11)]);
    assert_eq!(at, "Servername: h\nDISK / has 10 GB left free space. WARNING!\n");
    assert_eq!(above, "Servername: h\nDISK / has 11 GB left free space.\n");
}

#[test]
fn zero_free_space_is_flagged() {
    let report = format_mail_content("h", &[disk("/boot", 0)]);
    assert_eq!(report, "Servername: h\nDISK /boot has 0 GB left free space. WARNING!\n");
}

#[test]
fn every_free_space_up_to_twenty_is_flagged_as_it_should() {
    for free in 0u64..=20 {
        let report = format_mail_content("h", &[disk("/", free)]);
        let line = report.lines().nth(1).unwrap();
        assert_eq!(line.ends_with(" WARNING!"), free <= 10, "free space {}", free);
        assert_eq!(line.contains("WARNING!"), free <= 10, "free space {}", free);
    }
}

#[test]
fn lines_follow_input_order() {
    let disks = vec![disk("/", 3), disk("/home", 40), disk("/var", 10), disk("/tmp", 11)];
    let report = format_mail_content("HOST1", &disks);
    assert_eq!(
        report,
        "Servername: HOST1\n\
         DISK / has 3 GB left free space. WARNING!\n\
         DISK /home has 40 GB left free space.\n\
         DISK /var has 10 GB left free space. WARNING!\n\
         DISK /tmp has 11 GB left free space.\n"
    );
    let lines: Vec<&str> = report.lines().collect();
    assert_eq!(lines.len(), 5);
    for (i, d) in disks.iter().enumerate() {
        assert_eq!(lines[i + 1].contains("WARNING!"), d.free_space <= 10);
    }
}

#[test]
fn same_inputs_give_same_report() {
    let disks = vec![disk("/", 3), disk("/home", 40)];
    let first = format_mail_content("HOST1", &disks);
    let second = format_mail_content("HOST1", &disks);
    assert_eq!(first, second);
    let copy = vec![disk("/", 3), disk("/home", 40)];
    assert_eq!(format_mail_content(&"HOST1".to_string(), &copy), first);
}

#[test]
fn largest_free_space_is_written_in_full() {
    let report = format_mail_content("h", &[disk("/", u64::MAX)]);
    assert_eq!(report, "Servername: h\nDISK / has 18446744073709551615 GB left free space.\n");
}

#[test]
fn label_that_holds_the_marker_is_kept_as_it_is() {
    let report = format_mail_content("h", &[disk("WARNING!", 50)]);
    assert_eq!(report, "Servername: h\nDISK WARNING! has 50 GB left free space.\n");
    assert!(!report.lines().nth(1).unwrap().ends_with(" WARNING!"));
}

#[test]
fn text_beyond_ascii_passes_through() {
    let report = format_mail_content("hôte", &[disk("/mnt/données", 7)]);
    assert_eq!(report, "Servername: hôte\nDISK /mnt/données has 7 GB left free space. WARNING!\n");
}

#[test]
fn empty_host_and_label_are_accepted() {
    assert_eq!(
        format_mail_content("", &[disk("", 12)]),
        "Servername: \nDISK  has 12 GB left free space.\n"
    );
}
