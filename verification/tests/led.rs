use matter_rgb_lamp::color_hooks::ColorControlHooks;
use matter_rgb_lamp::led::{ButtonPhase, Led, LedState, OnOffMessage, StartUpOnOff};

#[test]
fn new_lamp_is_off_white_and_pending() {
    let mut led = Led::new();
    let s = LedState { on: false, level: 100, x: 20493, y: 21561 };
    assert_eq!(led.state(), s);
    assert!(!led.on_off());
    assert_eq!(led.current_level(), Some(100));
    assert_eq!(led.start_up_on_off(), Some(StartUpOnOff::Off));
    assert_eq!(led.start_up_current_level(), Ok(Some(100)));
    assert_eq!(led.take_pending(), Some(s));
    assert_eq!(led.take_pending(), None);
}

#[test]
fn only_changes_are_handed_on() {
    let mut led = Led::new();
    led.take_pending();
    led.set_on_off(false);
    assert_eq!(led.take_pending(), None);
    led.set_on_off(true);
    assert!(led.on_off());
    assert_eq!(led.take_pending().map(|s| s.on), Some(true));
    led.set_on_off(true);
    assert_eq!(led.take_pending(), None);
}

#[test]
fn newer_state_replaces_older() {
    let mut led = Led::new();
    led.set_on_off(true);
    assert_eq!(led.set_device_level(77), Ok(Some(77)));
    let s = led.take_pending().unwrap();
    assert!(s.on);
    assert_eq!(s.level, 77);
}

#[test]
fn levels_read_back() {
    let mut led = Led::new();
    led.set_current_level(Some(9));
    assert_eq!(led.current_level(), Some(9));
    led.set_current_level(None);
    assert_eq!(led.current_level(), Some(0));
    assert_eq!(led.set_start_up_current_level(None), Ok(()));
    assert_eq!(led.start_up_current_level(), Ok(None));
    assert_eq!(led.set_start_up_on_off(Some(StartUpOnOff::Toggle)), Ok(()));
    assert_eq!(led.start_up_on_off(), Some(StartUpOnOff::Toggle));
}

#[test]
fn color_taken_when_on_declined_when_off() {
    let mut led = Led::new();
    assert_eq!(led.set_color(1, 2, false), Ok(false));
    assert_eq!(led.color(), (20493, 21561));
    assert_eq!(led.set_color(1, 2, true), Ok(true));
    assert_eq!(led.color(), (1, 2));
    assert!(!led.on_off());
    led.set_on_off(true);
    assert_eq!(led.set_color(3, 4, false), Ok(true));
    assert_eq!(led.color(), (3, 4));
    assert!(led.on_off());
    assert_eq!(led.current_level(), Some(100));
}

#[test]
fn button_short_press_toggles_long_press_resets() {
    let mut led = Led::new();
    assert_eq!(led.button_released(0), Some(OnOffMessage::On));
    led.set_on_off(true);
    assert_eq!(led.button_released(9), Some(OnOffMessage::Off));
    assert!(!led.take_factory_reset());
    assert_eq!(led.button_released(10), None);
    assert!(led.on_off());
    assert!(led.take_factory_reset());
    assert!(!led.take_factory_reset());
}

#[test]
fn debounced_button_press_and_release() {
    let mut led = Led::new();
    assert_eq!(led.button_checked(ButtonPhase::WaitingPress, false, 100), (ButtonPhase::WaitingPress, None));
    let held = ButtonPhase::Held { since_ms: 1_000 };
    assert_eq!(led.button_checked(ButtonPhase::WaitingPress, true, 1_000), (held, None));
    assert_eq!(led.button_checked(held, true, 2_000), (held, None));
    assert_eq!(led.button_checked(held, false, 1_500), (ButtonPhase::WaitingPress, Some(OnOffMessage::On)));
    assert!(!led.take_factory_reset());
    assert_eq!(led.button_checked(held, false, 11_000), (ButtonPhase::WaitingPress, None));
    assert!(led.take_factory_reset());
    assert_eq!(led.button_checked(held, false, 10_999), (ButtonPhase::WaitingPress, Some(OnOffMessage::On)));
}
