use vstd::prelude::*;
use crate::led::LedState;

verus! {

/// One pixel of the LED strip, eight bits per channel.
#[derive(Clone, Copy, Debug, PartialEq, Eq, Structural)]
pub struct Rgb {
    pub r: u8,
    pub g: u8,
    pub b: u8,
}

/// The gamma-corrected value of one channel, as `smart_leds::gamma` maps it
/// (a fixed table of 256 entries).
pub uninterp spec fn gamma_channel(c: u8) -> u8;

/// A pixel with each channel gamma-corrected.
pub open spec fn gamma_pixel(p: Rgb) -> Rgb {
    Rgb { r: gamma_channel(p.r), g: gamma_channel(p.g), b: gamma_channel(p.b) }
}

/// One channel dimmed to `level`: scaled by `(level + 1) / 256`, rounded down.
pub open spec fn dim_channel(c: u8, level: u8) -> u8 {
    (c * (level + 1) / 256) as u8
}

/// A pixel with each channel dimmed to `level`.
pub open spec fn dim_pixel(p: Rgb, level: u8) -> Rgb {
    Rgb { r: dim_channel(p.r, level), g: dim_channel(p.g, level), b: dim_channel(p.b, level) }
}

/// The pixel as the board's LED takes it: its red and green are wired the
/// other way round.
pub open spec fn wired_pixel(color: Rgb) -> Rgb {
    Rgb { r: color.g, g: color.r, b: color.b }
}

/// The level the LED is driven at: its level when on, 0 when off.
pub open spec fn drive_level(state: LedState) -> u8 {
    if state.on {
        state.level
    } else {
        0
    }
}

/// The frame written to the LED for `state` when its chromaticity converts
/// to `color`: the wired pixel, gamma-corrected, then dimmed.
pub open spec fn frame_spec(state: LedState, color: Rgb) -> Seq<Rgb> {
    seq![dim_pixel(gamma_pixel(wired_pixel(color)), drive_level(state))]
}

/// Gamma-corrects each pixel with `smart_leds::gamma`, which maps each
/// channel through its fixed table; the pixels keep their order.
#[verifier::external_body]
fn gamma_pixels(pixels: Vec<Rgb>) -> (out: Vec<Rgb>)
    ensures
        out@.len() == pixels@.len(),
        forall|i: int|
            0 <= i < pixels@.len() ==> #[trigger] out@[i] == (Rgb {
                r: gamma_channel(pixels@[i].r),
                g: gamma_channel(pixels@[i].g),
                b: gamma_channel(pixels@[i].b),
            }),
{
    smart_leds::gamma(pixels.into_iter().map(|p| smart_leds::RGB8 { r: p.r, g: p.g, b: p.b }))
        .map(|c| Rgb { r: c.r, g: c.g, b: c.b })
        .collect()
}

/// Dims each pixel with `smart_leds::brightness`, which scales each channel
/// `c` to `c * (level + 1) / 256` in 16-bit arithmetic; the pixels keep
/// their order.
#[verifier::external_body]
fn dim_pixels(pixels: Vec<Rgb>, level: u8) -> (out: Vec<Rgb>)
    ensures
        out@.len() == pixels@.len(),
        forall|i: int| 0 <= i < pixels@.len() ==> #[trigger] out@[i] == dim_pixel(pixels@[i], level),
{
    smart_leds::brightness(
        pixels.into_iter().map(|p| smart_leds::RGB8 { r: p.r, g: p.g, b: p.b }),
        level,
    ).map(|c| Rgb { r: c.r, g: c.g, b: c.b }).collect()
}

/// The frame written to the LED for `state`, given the color that its
/// chromaticity converts to: red and green swapped for the board's wiring,
/// gamma-corrected, then dimmed to the level, or to 0 when the light is off.
pub fn led_frame(state: LedState, color: Rgb) -> (frame: Vec<Rgb>)
    ensures
        frame@ == frame_spec(state, color),
{
    let wired = Rgb { r: color.g, g: color.r, b: color.b };
    let level: u8 = if state.on { state.level } else { 0 };
    let mut pixels: Vec<Rgb> = Vec::new();
    pixels.push(wired);
    let corrected = gamma_pixels(pixels);
    let dimmed = dim_pixels(corrected, level);
    assert(dimmed@ =~= frame_spec(state, color));
    dimmed
}

/// Dimming never makes a channel brighter.
pub proof fn dimming_never_brightens(c: u8, level: u8)
    ensures
        dim_channel(c, level) <= c,
{
    assert(c * (level + 1) <= c * 256) by (nonlinear_arith)
        requires
            level <= 255,
    ;
    assert(c * (level + 1) / 256 <= c);
}

/// At the highest level a channel is kept as it is.
pub proof fn full_level_keeps_channel(c: u8)
    ensures
        dim_channel(c, 255) == c,
{
}

/// While the light is off, the LED is dark whatever its color.
pub proof fn off_light_is_dark(state: LedState, color: Rgb)
    requires
        !state.on,
    ensures
        frame_spec(state, color).len() == 1,
        frame_spec(state, color)[0] == (Rgb { r: 0, g: 0, b: 0 }),
{
}

/// Dimming scales a channel by `(level + 1) / 256`, rounded down.
pub proof fn dimming_scales_channel(c: u8, level: u8)
    ensures
        dim_channel(c, level) * 256 <= c * (level + 1) < dim_channel(c, level) * 256 + 256,
{
    assert(c * (level + 1) <= 255 * 256) by (nonlinear_arith)
        requires
            c <= 255,
            level <= 255,
    ;
    assert(c * (level + 1) >= 0) by (nonlinear_arith);
}

/// The LED's red shows the color's green and its green the color's red
/// (the board's wiring), its blue the color's blue; and a lit lamp is dimmed
/// to its own level.
pub proof fn frame_follows_wiring_and_level(state: LedState, c1: Rgb, c2: Rgb)
    ensures
        c1.g == c2.g ==> frame_spec(state, c1)[0].r == frame_spec(state, c2)[0].r,
        c1.r == c2.r ==> frame_spec(state, c1)[0].g == frame_spec(state, c2)[0].g,
        c1.b == c2.b ==> frame_spec(state, c1)[0].b == frame_spec(state, c2)[0].b,
        state.on ==> frame_spec(state, c1)[0].r == dim_channel(gamma_channel(c1.g), state.level),
        state.on ==> frame_spec(state, c1)[0].g == dim_channel(gamma_channel(c1.r), state.level),
        state.on ==> frame_spec(state, c1)[0].b == dim_channel(gamma_channel(c1.b), state.level),
{
}

} // verus!
