use sysnotify::battery::{
    format_seconds, get_formatted_time_to, parse_battery_value, parse_status, BatteryStatus,
};

#[test]
fn status_names() {
    assert_eq!(parse_status("Charging\n"), BatteryStatus::Charging);
    assert_eq!(parse_status("Discharging"), BatteryStatus::Discharging);
    assert_eq!(parse_status(" Full "), BatteryStatus::Full);
    assert_eq!(parse_status("Not charging\n"), BatteryStatus::NotCharging);
    assert_eq!(parse_status("charging"), BatteryStatus::Unknown);
    assert_eq!(parse_status(""), BatteryStatus::Unknown);
}

#[test]
fn readings() {
    assert_eq!(parse_battery_value("48530000\n"), Some(48530000));
    assert_eq!(parse_battery_value("  0 "), Some(0));
    assert_eq!(parse_battery_value("abc"), None);
    assert_eq!(parse_battery_value(""), None);
    assert_eq!(parse_battery_value("-1"), None);
}

#[test]
fn readings_ignore_padding() {
    for s in ["12", "x", "  +3  "] {
        let padded = format!(" \n{}\t", s);
        assert_eq!(parse_battery_value(&padded), parse_battery_value(s));
        assert_eq!(parse_status(&padded), parse_status(s));
    }
}

#[test]
fn clock_format() {
    assert_eq!(format_seconds(0), "00:00:00");
    assert_eq!(format_seconds(59), "00:00:59");
    assert_eq!(format_seconds(3661), "01:01:01");
    assert_eq!(format_seconds(36000 + 600 + 10), "10:10:10");
    assert_eq!(format_seconds(100 * 3600), "100:00:00");
}

#[test]
fn clock_parts_recompose() {
    for t in [0u64, 1, 59, 60, 3599, 3600, 86399, 123456] {
        let s = format_seconds(t);
        let parts: Vec<u64> = s.split(':').map(|p| p.parse().unwrap()).collect();
        assert_eq!(parts[0] * 3600 + parts[1] * 60 + parts[2], t);
        assert!(parts[1] < 60 && parts[2] < 60);
    }
}

#[test]
fn messages() {
    assert_eq!(
        get_formatted_time_to(BatteryStatus::Charging, Some(5400)),
        "Time to full: 01:30:00"
    );
    assert_eq!(
        get_formatted_time_to(BatteryStatus::Charging, None),
        "Unable to calculate time to full"
    );
    assert_eq!(
        get_formatted_time_to(BatteryStatus::Discharging, Some(61)),
        "Time to empty: 00:01:01"
    );
    assert_eq!(
        get_formatted_time_to(BatteryStatus::Discharging, None),
        "Unable to calculate time to empty"
    );
    assert_eq!(get_formatted_time_to(BatteryStatus::Full, Some(3)), "Battery is fully charged.");
    assert_eq!(get_formatted_time_to(BatteryStatus::NotCharging, None), "Battery is not charging.");
    assert_eq!(
        get_formatted_time_to(BatteryStatus::Unknown, None),
        "Battery status is unknown or not supported."
    );
}
