use vivado_mac::log::{humantime, log_line, setup_log_path};

#[test]
fn humantime_formats_hours_minutes_seconds() {
    assert_eq!(humantime(0), "00:00:00");
    assert_eq!(humantime(3661), "01:01:01");
    assert_eq!(humantime(86399), "23:59:59");
    assert_eq!(humantime(86400), "00:00:00");
    assert_eq!(humantime(1725029869), "14:57:49");
}

#[test]
fn humantime_repeats_daily() {
    for secs in [0u64, 59, 3600, 45296, 1725029869] {
        assert_eq!(humantime(secs), humantime(secs + 86400));
    }
}

#[test]
fn humantime_of_largest_instant() {
    let t = humantime(u64::MAX);
    assert_eq!(t.len(), 8);
    assert_eq!(t, "07:00:15");
}

#[test]
fn log_line_brackets_the_time() {
    assert_eq!(log_line("12:34:56", "scripts extracted"), "[12:34:56] scripts extracted\n");
    assert_eq!(log_line("00:00:00", ""), "[00:00:00] \n");
}

#[test]
fn setup_log_lies_in_the_data_dir() {
    assert_eq!(
        setup_log_path(b"/Users/a/.local/share/vivado-mac"),
        b"/Users/a/.local/share/vivado-mac/setup.log".to_vec()
    );
    assert_eq!(setup_log_path(b"/data/"), b"/data/setup.log".to_vec());
    assert!(setup_log_path(b"/x/y").starts_with(b"/x/y"));
    assert_eq!(setup_log_path(b"/\xfe"), b"/\xfe/setup.log".to_vec());
}
