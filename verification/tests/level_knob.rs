use matter_rgb_lamp::level_knob::{level_from_average, LevelKnob, LevelMessage, MAX_LEVEL, MIN_LEVEL};
use matter_rgb_lamp::options::OptionsBitmap;

fn move_to(level: u8) -> LevelMessage {
    LevelMessage::MoveToLevel {
        with_on_off: true,
        level,
        transition_time: Some(0),
        options_mask: OptionsBitmap::empty(),
        options_override: OptionsBitmap::empty(),
    }
}

#[test]
fn mapping_endpoints() {
    assert_eq!(level_from_average(0), 1);
    assert_eq!(level_from_average(2300), 1);
    assert_eq!(level_from_average(2301), 1);
    assert_eq!(level_from_average(3190), 127);
    assert_eq!(level_from_average(4081), 254);
    assert_eq!(level_from_average(65535), 254);
    assert_eq!((MIN_LEVEL, MAX_LEVEL), (1, 254));
}

#[test]
fn knob_turned_up_with_light_on() {
    let mut k = LevelKnob::new();
    let expected = [
        (816, Some(1)),
        (1469, None),
        (1991, None),
        (2409, Some(16)),
        (2743, Some(63)),
        (3010, Some(101)),
        (3224, Some(132)),
    ];
    for (ema, level) in expected {
        let msg = k.on_sample(4081, true);
        assert_eq!(k.ema_value(), ema);
        assert_eq!(msg, level.map(move_to));
    }
    assert_eq!(k.last_level(), 132);
}

#[test]
fn small_step_while_off_is_not_announced() {
    let mut k = LevelKnob::new();
    assert_eq!(k.on_sample(4095, false), None);
    assert_eq!(k.ema_value(), 819);
    assert_eq!(k.last_level(), 0);
}

#[test]
fn steady_reading_stays() {
    let mut k = LevelKnob::new();
    for _ in 0..200 {
        k.on_sample(3190, true);
    }
    let ema = k.ema_value();
    k.on_sample(3190, true);
    assert!(ema <= 3190);
    assert_eq!(k.on_sample(3190, true), None);
}

#[test]
fn mapping_is_monotone_and_in_range() {
    let mut prev = level_from_average(0);
    for ema in 0..=u16::MAX as u32 {
        let l = level_from_average(ema);
        assert!(l >= prev);
        assert!((1..=254).contains(&l));
        prev = l;
    }
}

#[test]
fn average_stays_between_average_and_reading() {
    let mut k = LevelKnob::new();
    k.on_sample(3000, true);
    let before = k.ema_value();
    k.on_sample(100, true);
    let after = k.ema_value();
    assert!(100 <= after && after <= before);
}

#[test]
fn failed_read_changes_nothing() {
    let mut k = LevelKnob::new();
    assert_eq!(k.on_reading(Some(4081), true), Some(move_to(1)));
    assert_eq!(k.on_reading(None, true), None);
    assert_eq!(k.ema_value(), 816);
    assert_eq!(k.last_level(), 1);
    assert_eq!(k.on_reading(Some(4081), true), None);
    assert_eq!(k.ema_value(), 1469);
}
