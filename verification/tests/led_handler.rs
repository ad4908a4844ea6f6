use matter_rgb_lamp::error::ErrorCode;
use matter_rgb_lamp::frame::Rgb;
use matter_rgb_lamp::led::{OnOffMessage, StartUpOnOff};
use matter_rgb_lamp::led_handler::{ControlMessage, LedHandler};

#[test]
fn new_handler_attributes() {
    let h = LedHandler::new();
    assert!(h.on_off());
    assert_eq!(h.start_up_on_off(), None);
    assert_eq!(h.current_level(), Some(42));
    assert_eq!(h.start_up_current_level(), Ok(None));
}

#[test]
fn handler_commands() {
    let mut h = LedHandler::new();
    assert_eq!(h.set_on_off(false), ControlMessage::SetOn(false));
    assert!(!h.on_off());
    assert_eq!(h.device_level_command(9), ControlMessage::SetBrightness(9));
    assert_eq!(h.set_device_level(9, true), Ok(Some(9)));
    assert_eq!(h.set_device_level(9, false), Err(()));
    assert_eq!(
        h.colour_command(Rgb { r: 1, g: 2, b: 3 }),
        ControlMessage::SetColour { r: 1, g: 2, b: 3 }
    );
    assert_eq!(h.set_color(true), Ok(()));
    assert_eq!(h.set_color(false), Err(ErrorCode::Busy));
}

#[test]
fn handler_attributes_read_back() {
    let mut h = LedHandler::new();
    h.set_current_level(None);
    assert_eq!(h.current_level(), None);
    assert_eq!(h.set_start_up_current_level(Some(3)), Ok(()));
    assert_eq!(h.start_up_current_level(), Ok(Some(3)));
    assert_eq!(h.set_start_up_on_off(Some(StartUpOnOff::On)), Ok(()));
    assert_eq!(h.start_up_on_off(), Some(StartUpOnOff::On));
}

#[test]
fn handler_button_edges() {
    let mut h = LedHandler::new();
    assert_eq!(h.button_edge(true), Some(OnOffMessage::Off));
    assert_eq!(h.button_edge(false), None);
    h.set_on_off(false);
    assert_eq!(h.button_edge(true), Some(OnOffMessage::On));
}
