use matter_rgb_lamp::color_control::{
    ColorControlHandler, COLOR_MODE_XY, ENHANCED_COLOR_MODE, NUMBER_OF_PRIMARIES,
    XY_ATTRIBUTES_SUPPORTED,
};
use matter_rgb_lamp::color_hooks::ColorControlHooks;
use matter_rgb_lamp::dataver::Dataver;
use matter_rgb_lamp::error::ErrorCode;
use matter_rgb_lamp::led::Led;

fn handler(version: u32) -> ColorControlHandler<Led> {
    ColorControlHandler::new(Dataver::new(version), Led::new())
}

#[test]
fn fixed_attributes() {
    let h = handler(7);
    assert_eq!(h.color_mode(), Ok(1));
    assert_eq!(COLOR_MODE_XY, 1);
    assert_eq!(h.enhanced_color_mode(), Ok(ENHANCED_COLOR_MODE));
    assert_eq!(h.color_capabilities(), Ok(0x08));
    assert_eq!(XY_ATTRIBUTES_SUPPORTED, 0x08);
    assert_eq!(h.number_of_primaries(), Ok(Some(0)));
    assert_eq!(NUMBER_OF_PRIMARIES, 0);
    assert_eq!(h.options(), Ok(0));
    assert_eq!(h.dataver(), 7);
}

#[test]
fn current_xy_reads_the_lamp() {
    let h = handler(0);
    assert_eq!(h.current_x(), Ok(20493));
    assert_eq!(h.current_y(), Ok(21561));
}

#[test]
fn set_options_reads_back_and_bumps_version_once() {
    let mut h = handler(10);
    assert!(h.set_options(1));
    assert_eq!(h.options(), Ok(1));
    assert_eq!(h.dataver(), 11);
    assert!(!h.set_options(1));
    assert_eq!(h.dataver(), 11);
    assert!(h.set_options(0xff));
    assert_eq!(h.options(), Ok(0xff));
    assert_eq!(h.dataver(), 12);
}

#[test]
fn dataver_wraps() {
    let mut h = handler(u32::MAX);
    h.dataver_changed();
    assert_eq!(h.dataver(), 0);
}

#[test]
fn execute_if_off_follows_mask() {
    let mut h = handler(0);
    assert!(!h.execute_if_off(0, 0));
    assert!(!h.execute_if_off(0, 1));
    assert!(h.execute_if_off(1, 1));
    assert!(!h.execute_if_off(1, 0));
    assert!(h.execute_if_off(3, 0xff));
    h.set_options(1);
    assert!(h.execute_if_off(0, 0));
    assert!(!h.execute_if_off(1, 0));
    assert!(h.execute_if_off(0xfe, 0));
}

#[test]
fn move_to_color_on_lamp_that_is_on_is_taken() {
    let mut h = handler(5);
    h.hooks_mut().set_on_off(true);
    assert_eq!(h.handle_move_to_color(100, 200, 0, 0), Ok(true));
    assert_eq!(h.current_x(), Ok(100));
    assert_eq!(h.current_y(), Ok(200));
    assert_eq!(h.dataver(), 6);
}

#[test]
fn move_to_color_on_lamp_that_is_off() {
    let mut h = handler(5);
    assert_eq!(h.handle_move_to_color(100, 200, 0, 0), Ok(false));
    assert_eq!(h.hooks().color(), (20493, 21561));
    assert_eq!(h.dataver(), 5);
    assert_eq!(h.handle_move_to_color(100, 200, 1, 1), Ok(true));
    assert_eq!(h.hooks().color(), (100, 200));
    assert_eq!(h.dataver(), 6);
    h.set_options(1);
    assert_eq!(h.handle_move_to_color(1, 2, 1, 0), Ok(false));
    assert_eq!(h.handle_move_to_color(1, 2, 0, 0), Ok(true));
    assert_eq!(h.hooks().color(), (1, 2));
}

#[test]
fn unsupported_commands_are_refused() {
    let h = handler(0);
    let refused = [
        h.handle_move_to_hue(),
        h.handle_move_hue(),
        h.handle_step_hue(),
        h.handle_move_to_saturation(),
        h.handle_move_saturation(),
        h.handle_step_saturation(),
        h.handle_move_to_hue_and_saturation(),
        h.handle_enhanced_move_to_hue(),
        h.handle_enhanced_move_hue(),
        h.handle_enhanced_step_hue(),
        h.handle_enhanced_move_to_hue_and_saturation(),
        h.handle_color_loop_set(),
    ];
    for r in refused {
        assert_eq!(r, Err(ErrorCode::InvalidCommand));
    }
    let accepted = [
        h.handle_move_color(),
        h.handle_step_color(),
        h.handle_move_to_color_temperature(),
        h.handle_stop_move_step(),
        h.handle_move_color_temperature(),
        h.handle_step_color_temperature(),
    ];
    for r in accepted {
        assert_eq!(r, Ok(()));
    }
    assert_eq!(h.dataver(), 0);
}
