use grid_animation::frame_data::{
    update_last_frame, FrameData, FrameDataRaw, MAX_SLEEP_US, SCALE_MAX, SCALE_MIN, TARGET_MSPS,
    TARGET_USPS,
};

#[test]
fn target_durations() {
    assert_eq!(TARGET_MSPS, 16);
    assert_eq!(TARGET_USPS, 16666);
}

#[test]
fn raw_counters_start_at_frame_zero() {
    let raw = FrameDataRaw::init();
    assert_eq!(raw.frame_number, 0);
    assert_eq!(raw.last_frame_time_us, 0);
    assert_eq!(raw.scale, 1000);
}

#[test]
fn update_last_frame_counts_and_scales() {
    let mut raw = FrameDataRaw::init();
    update_last_frame(&mut raw, 25_000);
    assert_eq!(raw.frame_number, 1);
    assert_eq!(raw.last_frame_time_us, 25_000);
    assert_eq!(raw.scale, 1500);
    update_last_frame(&mut raw, 33_334);
    assert_eq!(raw.frame_number, 2);
    assert_eq!(raw.scale, 2000);
}

#[test]
fn fast_frame_scale_is_clamped_to_one() {
    let mut raw = FrameDataRaw::init();
    update_last_frame(&mut raw, 0);
    assert_eq!(raw.scale, SCALE_MIN);
    update_last_frame(&mut raw, 8_000);
    assert_eq!(raw.scale, 1000);
}

#[test]
fn ten_second_stall_scale_is_clamped_to_hundred() {
    let mut raw = FrameDataRaw::init();
    update_last_frame(&mut raw, 10_000_000);
    assert_eq!(raw.scale, SCALE_MAX);
    assert_eq!(raw.scale, 100_000);
    update_last_frame(&mut raw, u128::MAX);
    assert_eq!(raw.scale, 100_000);
}

#[test]
fn scale_just_below_and_at_the_cap() {
    let mut raw = FrameDataRaw::init();
    update_last_frame(&mut raw, 1_666_650);
    assert_eq!(raw.scale, 99_999);
    update_last_frame(&mut raw, 1_666_667);
    assert_eq!(raw.scale, 100_000);
}

#[test]
fn init_records_one_frame() {
    let fd = FrameData::init();
    assert_eq!(fd.frame_number(), 1);
    let s = fd.get_scale();
    assert!((1000..=100_000).contains(&s));
}

#[test]
fn update_counts_frames_and_keeps_scale_in_bounds() {
    let mut fd = FrameData::init();
    for n in 2..6u128 {
        fd.update();
        assert_eq!(fd.frame_number(), n);
        assert!((1000..=100_000).contains(&fd.get_scale()));
    }
}

#[test]
fn sleep_is_what_is_left_of_the_target_frame() {
    let fd = FrameData::init();
    let sleep = fd.target_tsleep_us();
    assert!(sleep <= MAX_SLEEP_US as u128);
    assert_eq!(sleep, (TARGET_USPS as u128).saturating_sub(fd.last_frame_time_us()));
}

#[test]
fn scale_multiplies_by_the_time_scale() {
    let fd = FrameData::init();
    let s = fd.get_scale() as i64;
    assert_eq!(fd.scale(2000), 2000 * s / 1000);
    assert_eq!(fd.scale(-1999), (-1999 * s).div_euclid(1000));
    assert_eq!(fd.scale(0), 0);
}
