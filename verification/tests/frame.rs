use matter_rgb_lamp::frame::{led_frame, Rgb};
use matter_rgb_lamp::led::LedState;

fn state(on: bool, level: u8) -> LedState {
    LedState { on, level, x: 0, y: 0 }
}

#[test]
fn full_level_is_gamma_of_swapped_pixel() {
    let f = led_frame(state(true, 255), Rgb { r: 128, g: 64, b: 200 });
    assert_eq!(f, vec![Rgb { r: 5, g: 37, b: 129 }]);
}

#[test]
fn half_level_dims() {
    let f = led_frame(state(true, 127), Rgb { r: 255, g: 100, b: 10 });
    assert_eq!(f, vec![Rgb { r: 9, g: 127, b: 0 }]);
}

#[test]
fn off_light_is_black() {
    let f = led_frame(state(false, 254), Rgb { r: 255, g: 255, b: 255 });
    assert_eq!(f, vec![Rgb { r: 0, g: 0, b: 0 }]);
}

#[test]
fn dimming_never_brightens() {
    for level in [0u8, 1, 63, 127, 200, 254] {
        let f = led_frame(state(true, level), Rgb { r: 255, g: 255, b: 255 });
        assert!(f[0].r <= 255 && f[0].g <= 255 && f[0].b <= 255);
        assert_eq!(f[0].r, ((255u16 * (level as u16 + 1)) / 256) as u8);
    }
    let f = led_frame(state(true, 255), Rgb { r: 255, g: 255, b: 255 });
    assert_eq!(f, vec![Rgb { r: 255, g: 255, b: 255 }]);
}
