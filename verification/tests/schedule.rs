use oray_tools::schedule::{
    clock_text, cloud_to_local_mask, cloud_to_local_time, date_delta, local_to_cloud_repeat,
    local_to_cloud_time, mask_days, to_signed,
};

#[test]
fn time_local_to_cloud() {
    let tz = 480;
    // 16:00 local = 08:00 UTC
    assert_eq!(local_to_cloud_time(960, tz), 480);
    // 02:00 local = 18:00 UTC on the previous day
    assert_eq!(local_to_cloud_time(120, tz), 1080);
    // 08:00 local = 00:00 UTC
    assert_eq!(local_to_cloud_time(480, tz), 0);
    // 18:00 local = 10:00 UTC
    assert_eq!(local_to_cloud_time(1080, tz), 600);
    // west of UTC: 02:00 local (UTC-5) = 07:00 UTC same day
    assert_eq!(local_to_cloud_time(120, -300), 420);
}

#[test]
fn time_cloud_to_local() {
    let tz = 480;
    assert_eq!(cloud_to_local_time(480, tz), 960);
    assert_eq!(cloud_to_local_time(1080, tz), 120);
    assert_eq!(cloud_to_local_time(0, tz), 480);
}

#[test]
fn repeat_vectors_matching_app() {
    let tz = 480;
    // 02:00 local Mon-Fri -> UTC 18:00 Sun-Thu
    assert_eq!(local_to_cloud_repeat(31, 120, tz), 31);
    // 16:00 local Sun-Thu (79) -> UTC 08:00 Sun-Thu
    assert_eq!(local_to_cloud_repeat(79, 960, tz), 31);
    // 08:00 local Mon-Fri -> UTC 00:00 Mon-Fri (62)
    assert_eq!(local_to_cloud_repeat(31, 480, tz), 62);
    // 18:00 local Mon-Fri -> UTC 10:00 Mon-Fri (62)
    assert_eq!(local_to_cloud_repeat(31, 1080, tz), 62);
    // west of UTC (UTC-5): local 23:00 fires 04:00 UTC next day -> shift +1
    // local Mon-Fri (31) at 23:00 -> UTC Tue-Sat (bits 2..6 = 124)
    assert_eq!(local_to_cloud_repeat(31, 23 * 60, -300), 124);
}

#[test]
fn repeat_roundtrip() {
    let roundtrip = |mask: u8, local_min: u64, tz: i64| {
        let cloud = local_to_cloud_repeat(mask, local_min, tz);
        let cloud_min = local_to_cloud_time(local_min, tz);
        let local_back = cloud_to_local_time(cloud_min, tz);
        assert_eq!(cloud_to_local_mask(cloud, local_back, tz), mask);
    };
    roundtrip(79, 960, 480);
    roundtrip(31, 120, 480);
    roundtrip(31, 480, 480);
    roundtrip(31, 1380, -300);
    roundtrip(21, 120, -300);
}

#[test]
fn every_mask_survives_the_way_to_the_plug() {
    for mask in 0u8..=255 {
        for (local, tz) in [(0u64, 480i64), (1439, -720), (700, 0), (30, 1439), (1400, -1439)] {
            let cloud = local_to_cloud_repeat(mask, local, tz);
            assert!(cloud < 128);
            assert_eq!(cloud_to_local_mask(cloud, local, tz), mask & 0x7f);
        }
    }
}

#[test]
fn mask_days_labels() {
    assert_eq!(mask_days(0), "只一次");
    assert_eq!(mask_days(31), "周一周二周三周四周五");
    assert_eq!(mask_days(79), "周一周二周三周四周日");
}

#[test]
fn a_bit_beyond_the_week_is_no_day() {
    assert_eq!(mask_days(128), "只一次");
    assert_eq!(mask_days(0xa0), "周六");
}

#[test]
fn the_calendar_shift_follows_the_utc_date() {
    assert_eq!(date_delta(120, 480), -1);
    assert_eq!(date_delta(480, 480), 0);
    assert_eq!(date_delta(1439, 0), 0);
    assert_eq!(date_delta(1380, -300), 1);
}

#[test]
fn large_numbers_are_read_as_signed() {
    assert_eq!(to_signed(5), 5);
    assert_eq!(to_signed(u64::MAX), -1);
    assert_eq!(to_signed(1 << 63), i64::MIN);
    assert_eq!(local_to_cloud_time(u64::MAX, 0), 1439);
}

#[test]
fn clock_times_have_two_digits() {
    assert_eq!(clock_text(0), "00:00");
    assert_eq!(clock_text(485), "08:05");
    assert_eq!(clock_text(1439), "23:59");
    assert_eq!(clock_text(6000), "100:00");
}
