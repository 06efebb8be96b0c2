use plural_userproxies::config::AccentColor;
use plural_userproxies::titles::{accent_name, decimal, list_title, middle_title, two_digits, update_title, uptime_title};

#[test]
fn decimal_writes_numbers() {
    assert_eq!(decimal(0), "0");
    assert_eq!(decimal(7), "7");
    assert_eq!(decimal(10), "10");
    assert_eq!(decimal(6000), "6000");
    assert_eq!(decimal(u64::MAX), u64::MAX.to_string());
}

#[test]
fn two_digits_pads_single_digits() {
    assert_eq!(two_digits(0), "00");
    assert_eq!(two_digits(9), "09");
    assert_eq!(two_digits(10), "10");
    assert_eq!(two_digits(123), "123");
}

#[test]
fn uptime_title_formats_clock() {
    assert_eq!(uptime_title(0), " 00:00:00 ");
    assert_eq!(uptime_title(3661), " 01:01:01 ");
    assert_eq!(uptime_title(86399), " 23:59:59 ");
    assert_eq!(uptime_title(360000), " 100:00:00 ");
    for secs in [5u64, 59, 60, 3599, 3600, 7322, 1_000_000] {
        assert_eq!(
            uptime_title(secs),
            format!(" {:02}:{:02}:{:02} ", secs / 3600, (secs % 3600) / 60, secs % 60)
        );
    }
}

#[test]
fn list_title_counts() {
    assert_eq!(list_title(3, 3, true), " /plu/ral Userproxies (3) ");
    assert_eq!(list_title(1, 12, false), " /plu/ral Userproxies (1/12) ");
    assert_eq!(list_title(0, 0, false), " /plu/ral Userproxies (0/0) ");
}

#[test]
fn update_title_names_version() {
    assert_eq!(update_title(&Some("1.2.0".to_string())), " Update Available: 1.2.0 ");
    assert_eq!(update_title(&None), "");
}

#[test]
fn accent_names_read_as_written() {
    assert_eq!(accent_name(AccentColor::Magenta), "Magenta");
    assert_eq!(accent_name(AccentColor::LightCyan), "LightCyan");
    assert_eq!(accent_name(AccentColor::Rgb(1, 20, 255)), "Rgb(1, 20, 255)");
    assert_eq!(accent_name(AccentColor::Indexed(5)), "Indexed(5)");
}

#[test]
fn middle_title_by_state() {
    assert_eq!(middle_title(true, true, AccentColor::Blue), " Accent Color Set: Blue ");
    assert_eq!(middle_title(false, true, AccentColor::Blue), " Update in Progress ");
    assert_eq!(middle_title(false, false, AccentColor::Blue), "");
}
