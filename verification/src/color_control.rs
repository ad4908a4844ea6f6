use vstd::prelude::*;
use crate::color_hooks::ColorControlHooks;
use crate::dataver::{next_version, Dataver};
use crate::error::ErrorCode;
use crate::led::{led_from_view_has_view, Led};
use crate::options::{has_execute_if_off, OptionsBitmap};

verus! {

/// The color mode the light reports: `CurrentXAndCurrentY`.
pub const COLOR_MODE_XY: u8 = 1;
/// The enhanced color mode the light reports.
pub const ENHANCED_COLOR_MODE: u8 = 1;
/// The color capabilities the light reports: only `XY`.
pub const XY_ATTRIBUTES_SUPPORTED: u16 = 0x08;
/// The number of color primaries the light reports.
pub const NUMBER_OF_PRIMARIES: u8 = 0;

/// Whether a command runs while the light is off: when the command's mask
/// selects the `ExecuteIfOff` flag, the command's override decides;
/// otherwise the cluster's own `Options` attribute decides.
pub open spec fn execute_if_off_spec(options: u8, mask: u8, options_override: u8) -> bool {
    if has_execute_if_off(mask) {
        has_execute_if_off(options_override)
    } else {
        has_execute_if_off(options)
    }
}

/// The color control cluster as the specification sees it: its data
/// version, its `Options` attribute and the device behind it.
pub struct HandlerView<T> {
    pub version: u32,
    pub options: u8,
    pub hooks: T,
}

impl<T: ColorControlHooks> HandlerView<T> {
    /// Writing the `Options` attribute: a new value is stored and moves the
    /// data version on; writing the current value changes nothing.
    pub open spec fn set_options(self, value: u8) -> HandlerView<T> {
        if self.options == value {
            self
        } else {
            HandlerView { version: next_version(self.version), options: value, hooks: self.hooks }
        }
    }

    /// A `MoveToColor` command: the device is asked for the color, and the
    /// data version moves on exactly when the device took it.
    pub open spec fn move_to_color(
        self,
        x: u16,
        y: u16,
        options_mask: u8,
        options_override: u8,
    ) -> (HandlerView<T>, Result<bool, ErrorCode>) {
        let eio = execute_if_off_spec(self.options, options_mask, options_override);
        let answer = self.hooks.set_color_result(x, y, eio);
        let hooks = self.hooks.after_set_color(x, y, eio);
        match answer {
            Ok(true) => (
                HandlerView { version: next_version(self.version), options: self.options, hooks },
                Ok(true),
            ),
            Ok(false) => (HandlerView { version: self.version, options: self.options, hooks }, Ok(false)),
            Err(e) => (HandlerView { version: self.version, options: self.options, hooks }, Err(e)),
        }
    }
}

/// The color control cluster of the light, in XY mode, over a device `T`.
pub struct ColorControlHandler<T: ColorControlHooks> {
    dataver: Dataver,
    hooks: T,
    options: OptionsBitmap,
}

impl<T: ColorControlHooks> View for ColorControlHandler<T> {
    type V = HandlerView<T>;

    closed spec fn view(&self) -> HandlerView<T> {
        HandlerView { version: self.dataver@, options: self.options@, hooks: self.hooks }
    }
}

impl<T: ColorControlHooks> ColorControlHandler<T> {
    /// A handler with data version `dataver`, over `hooks`, with no option set.
    pub fn new(dataver: Dataver, hooks: T) -> (h: ColorControlHandler<T>)
        ensures
            h@ == (HandlerView { version: dataver@, options: 0u8, hooks }),
    {
        ColorControlHandler { dataver, hooks, options: OptionsBitmap::empty() }
    }

    /// The device behind the cluster.
    pub fn hooks(&self) -> (h: &T)
        ensures
            *h == self@.hooks,
    {
        &self.hooks
    }

    /// The device behind the cluster, to act on it directly.
    pub fn hooks_mut(&mut self) -> (h: &mut T)
        ensures
            *h == old(self)@.hooks,
            final(self)@ == (HandlerView { version: old(self)@.version, options: old(self)@.options, hooks: *final(h) }),
    {
        &mut self.hooks
    }

    /// Whether a command with this mask and override runs while the light
    /// is off.
    pub fn execute_if_off(&self, options_mask: u8, options_override: u8) -> (r: bool)
        ensures
            r == execute_if_off_spec(self@.options, options_mask, options_override),
    {
        let flag = OptionsBitmap::execute_if_off();
        let mask = OptionsBitmap::from_bits_truncate(options_mask);
        if mask.contains(flag) {
            OptionsBitmap::from_bits_truncate(options_override).contains(flag)
        } else {
            self.options.contains(flag)
        }
    }

    /// The data version of the cluster.
    pub fn dataver(&self) -> (v: u32)
        ensures
            v == self@.version,
    {
        self.dataver.get()
    }

    /// Records a change of the cluster's attributes.
    pub fn dataver_changed(&mut self)
        ensures
            final(self)@ == (HandlerView {
                version: next_version(old(self)@.version),
                ..old(self)@
            }),
    {
        self.dataver.changed();
    }

    /// The `CurrentX` attribute.
    pub fn current_x(&self) -> (r: Result<u16, ErrorCode>)
        ensures
            r == Ok::<u16, ErrorCode>(self@.hooks.current_xy().0),
    {
        Ok(self.hooks.color().0)
    }

    /// The `CurrentY` attribute.
    pub fn current_y(&self) -> (r: Result<u16, ErrorCode>)
        ensures
            r == Ok::<u16, ErrorCode>(self@.hooks.current_xy().1),
    {
        Ok(self.hooks.color().1)
    }

    /// The `ColorMode` attribute: always `CurrentXAndCurrentY`.
    pub fn color_mode(&self) -> (r: Result<u8, ErrorCode>)
        ensures
            r == Ok::<u8, ErrorCode>(COLOR_MODE_XY),
    {
        Ok(COLOR_MODE_XY)
    }

    /// The `Options` attribute.
    pub fn options(&self) -> (r: Result<u8, ErrorCode>)
        ensures
            r == Ok::<u8, ErrorCode>(self@.options),
    {
        Ok(self.options.bits())
    }

    /// The `NumberOfPrimaries` attribute: 0.
    pub fn number_of_primaries(&self) -> (r: Result<Option<u8>, ErrorCode>)
        ensures
            r == Ok::<Option<u8>, ErrorCode>(Some(NUMBER_OF_PRIMARIES)),
    {
        Ok(Some(NUMBER_OF_PRIMARIES))
    }

    /// The `EnhancedColorMode` attribute.
    pub fn enhanced_color_mode(&self) -> (r: Result<u8, ErrorCode>)
        ensures
            r == Ok::<u8, ErrorCode>(ENHANCED_COLOR_MODE),
    {
        Ok(ENHANCED_COLOR_MODE)
    }

    /// The `ColorCapabilities` attribute: XY only.
    pub fn color_capabilities(&self) -> (r: Result<u16, ErrorCode>)
        ensures
            r == Ok::<u16, ErrorCode>(XY_ATTRIBUTES_SUPPORTED),
    {
        Ok(XY_ATTRIBUTES_SUPPORTED)
    }

    /// Writes the `Options` attribute. Answers whether the value changed,
    /// in which case the data version moved on and subscribers are to be
    /// told.
    pub fn set_options(&mut self, value: u8) -> (changed: bool)
        ensures
            changed == (old(self)@.options != value),
            final(self)@ == old(self)@.set_options(value),
    {
        let new_options = OptionsBitmap::from_bits_truncate(value);
        if self.options.bits() != new_options.bits() {
            self.options = new_options;
            self.dataver_changed();
            true
        } else {
            false
        }
    }

    /// The `MoveToColor` command: asks the device for color `(x, y)`, to be
    /// shown even while off when the mask and override, or else the
    /// `Options` attribute, say so. Answers `Ok(true)` when the device took
    /// the color (the data version moved on and subscribers are to be
    /// told), `Ok(false)` when it declined, and the device's error when it
    /// failed.
    pub fn handle_move_to_color(
        &mut self,
        color_x: u16,
        color_y: u16,
        options_mask: u8,
        options_override: u8,
    ) -> (r: Result<bool, ErrorCode>)
        ensures
            (final(self)@, r) == old(self)@.move_to_color(color_x, color_y, options_mask, options_override),
    {
        let execute_if_off = self.execute_if_off(options_mask, options_override);
        let answer = self.hooks.set_color(color_x, color_y, execute_if_off);
        match answer {
            Ok(changed) => {
                if changed {
                    self.dataver_changed();
                }
                Ok(changed)
            },
            Err(e) => Err(e),
        }
    }

    /// The `MoveToHue` command: not supported in XY mode, refused.
    pub fn handle_move_to_hue(&self) -> (r: Result<(), ErrorCode>)
        ensures
            r == Err::<(), ErrorCode>(ErrorCode::InvalidCommand),
    {
        Err(ErrorCode::InvalidCommand)
    }

    /// The `MoveHue` command: not supported in XY mode, refused.
    pub fn handle_move_hue(&self) -> (r: Result<(), ErrorCode>)
        ensures
            r == Err::<(), ErrorCode>(ErrorCode::InvalidCommand),
    {
        Err(ErrorCode::InvalidCommand)
    }

    /// The `StepHue` command: not supported in XY mode, refused.
    pub fn handle_step_hue(&self) -> (r: Result<(), ErrorCode>)
        ensures
            r == Err::<(), ErrorCode>(ErrorCode::InvalidCommand),
    {
        Err(ErrorCode::InvalidCommand)
    }

    /// The `MoveToSaturation` command: not supported in XY mode, refused.
    pub fn handle_move_to_saturation(&self) -> (r: Result<(), ErrorCode>)
        ensures
            r == Err::<(), ErrorCode>(ErrorCode::InvalidCommand),
    {
        Err(ErrorCode::InvalidCommand)
    }

    /// The `MoveSaturation` command: not supported in XY mode, refused.
    pub fn handle_move_saturation(&self) -> (r: Result<(), ErrorCode>)
        ensures
            r == Err::<(), ErrorCode>(ErrorCode::InvalidCommand),
    {
        Err(ErrorCode::InvalidCommand)
    }

    /// The `StepSaturation` command: not supported in XY mode, refused.
    pub fn handle_step_saturation(&self) -> (r: Result<(), ErrorCode>)
        ensures
            r == Err::<(), ErrorCode>(ErrorCode::InvalidCommand),
    {
        Err(ErrorCode::InvalidCommand)
    }

    /// The `MoveToHueAndSaturation` command: not supported in XY mode, refused.
    pub fn handle_move_to_hue_and_saturation(&self) -> (r: Result<(), ErrorCode>)
        ensures
            r == Err::<(), ErrorCode>(ErrorCode::InvalidCommand),
    {
        Err(ErrorCode::InvalidCommand)
    }

    /// The `EnhancedMoveToHue` command: not supported in XY mode, refused.
    pub fn handle_enhanced_move_to_hue(&self) -> (r: Result<(), ErrorCode>)
        ensures
            r == Err::<(), ErrorCode>(ErrorCode::InvalidCommand),
    {
        Err(ErrorCode::InvalidCommand)
    }

    /// The `EnhancedMoveHue` command: not supported in XY mode, refused.
    pub fn handle_enhanced_move_hue(&self) -> (r: Result<(), ErrorCode>)
        ensures
            r == Err::<(), ErrorCode>(ErrorCode::InvalidCommand),
    {
        Err(ErrorCode::InvalidCommand)
    }

    /// The `EnhancedStepHue` command: not supported in XY mode, refused.
    pub fn handle_enhanced_step_hue(&self) -> (r: Result<(), ErrorCode>)
        ensures
            r == Err::<(), ErrorCode>(ErrorCode::InvalidCommand),
    {
        Err(ErrorCode::InvalidCommand)
    }

    /// The `EnhancedMoveToHueAndSaturation` command: not supported in XY mode, refused.
    pub fn handle_enhanced_move_to_hue_and_saturation(&self) -> (r: Result<(), ErrorCode>)
        ensures
            r == Err::<(), ErrorCode>(ErrorCode::InvalidCommand),
    {
        Err(ErrorCode::InvalidCommand)
    }

    /// The `ColorLoopSet` command: not supported in XY mode, refused.
    pub fn handle_color_loop_set(&self) -> (r: Result<(), ErrorCode>)
        ensures
            r == Err::<(), ErrorCode>(ErrorCode::InvalidCommand),
    {
        Err(ErrorCode::InvalidCommand)
    }

    /// The `MoveColor` command: accepted, and nothing is done.
    pub fn handle_move_color(&self) -> (r: Result<(), ErrorCode>)
        ensures
            r == Ok::<(), ErrorCode>(()),
    {
        Ok(())
    }

    /// The `StepColor` command: accepted, and nothing is done.
    pub fn handle_step_color(&self) -> (r: Result<(), ErrorCode>)
        ensures
            r == Ok::<(), ErrorCode>(()),
    {
        Ok(())
    }

    /// The `MoveToColorTemperature` command: accepted, and nothing is done.
    pub fn handle_move_to_color_temperature(&self) -> (r: Result<(), ErrorCode>)
        ensures
            r == Ok::<(), ErrorCode>(()),
    {
        Ok(())
    }

    /// The `StopMoveStep` command: accepted, and nothing is done.
    pub fn handle_stop_move_step(&self) -> (r: Result<(), ErrorCode>)
        ensures
            r == Ok::<(), ErrorCode>(()),
    {
        Ok(())
    }

    /// The `MoveColorTemperature` command: accepted, and nothing is done.
    pub fn handle_move_color_temperature(&self) -> (r: Result<(), ErrorCode>)
        ensures
            r == Ok::<(), ErrorCode>(()),
    {
        Ok(())
    }

    /// The `StepColorTemperature` command: accepted, and nothing is done.
    pub fn handle_step_color_temperature(&self) -> (r: Result<(), ErrorCode>)
        ensures
            r == Ok::<(), ErrorCode>(()),
    {
        Ok(())
    }
}

/// The `Options` attribute reads back what was written, writing it twice is
/// the same as once, and the data version moves on exactly when the value
/// changed.
pub proof fn options_write_read_back<T: ColorControlHooks>(m: HandlerView<T>, value: u8)
    ensures
        m.set_options(value).options == value,
        m.set_options(value).set_options(value) == m.set_options(value),
        m.set_options(value).version == (if m.options == value {
            m.version
        } else {
            next_version(m.version)
        }),
        m.set_options(value).hooks == m.hooks,
{
}

/// A command's mask selects whether its override or the `Options` attribute
/// decides if it runs while the light is off.
pub proof fn execute_if_off_rule(options: u8, mask: u8, options_override: u8)
    ensures
        mask & 1 == 1 ==> execute_if_off_spec(options, mask, options_override) == (options_override & 1 == 1),
        mask & 1 != 1 ==> execute_if_off_spec(options, mask, options_override) == (options & 1 == 1),
{
}

/// A `MoveToColor` command never writes the `Options` attribute, and it
/// moves the data version on exactly when the device took the color.
pub proof fn move_to_color_reports_change<T: ColorControlHooks>(
    m: HandlerView<T>,
    x: u16,
    y: u16,
    options_mask: u8,
    options_override: u8,
)
    ensures
        m.move_to_color(x, y, options_mask, options_override).0.options == m.options,
        m.move_to_color(x, y, options_mask, options_override).0.version == (if m.move_to_color(
            x,
            y,
            options_mask,
            options_override,
        ).1 == Ok::<bool, ErrorCode>(true) {
            next_version(m.version)
        } else {
            m.version
        }),
{
}

/// On the lamp, a `MoveToColor` command that runs (the lamp is on, or the
/// command must run while off) is taken: `CurrentX` and `CurrentY` then read
/// the requested color and the data version moves on. Otherwise the command
/// is declined and nothing changes.
pub proof fn lamp_move_to_color(
    m: HandlerView<Led>,
    x: u16,
    y: u16,
    options_mask: u8,
    options_override: u8,
)
    ensures
        ({
            let runs = m.hooks@.state.on || execute_if_off_spec(m.options, options_mask, options_override);
            let (after, answer) = m.move_to_color(x, y, options_mask, options_override);
            &&& runs ==> {
                &&& answer == Ok::<bool, ErrorCode>(true)
                &&& after.hooks.current_xy() == (x, y)
                &&& after.version == next_version(m.version)
            }
            &&& !runs ==> {
                &&& answer == Ok::<bool, ErrorCode>(false)
                &&& after == m
            }
        }),
{
    let eio = execute_if_off_spec(m.options, options_mask, options_override);
    led_from_view_has_view(m.hooks@.set_color(x, y, eio).0, m.hooks);
}

} // verus!
