use vstd::prelude::*;
use crate::error::ErrorCode;
use crate::frame::Rgb;
use crate::led::{toggle_message, OnOffMessage, StartUpOnOff};

verus! {

/// A command for the task that drives the LED.
#[derive(Clone, Copy, Debug, PartialEq, Eq, Structural)]
pub enum ControlMessage {
    SetOn(bool),
    SetBrightness(u8),
    SetColour { r: u8, g: u8, b: u8 },
}

/// The attributes of a light whose LED is driven by a separate task, as the
/// specification sees them.
pub struct LedHandlerView {
    pub on_off: bool,
    pub start_up_on_off: Option<StartUpOnOff>,
    pub current_level: Option<u8>,
    pub start_up_current_level: Option<u8>,
}

/// A light whose LED is driven by a separate task, to which it sends
/// commands; it keeps the on/off and level attributes itself.
pub struct LedHandler {
    on_off: bool,
    start_up_on_off: Option<StartUpOnOff>,
    current_level: Option<u8>,
    start_up_current_level: Option<u8>,
}

impl View for LedHandler {
    type V = LedHandlerView;

    closed spec fn view(&self) -> LedHandlerView {
        LedHandlerView {
            on_off: self.on_off,
            start_up_on_off: self.start_up_on_off,
            current_level: self.current_level,
            start_up_current_level: self.start_up_current_level,
        }
    }
}

impl LedHandler {
    /// A new light: on, at level 42, with no start-up attributes.
    pub fn new() -> (h: LedHandler)
        ensures
            h@ == (LedHandlerView {
                on_off: true,
                start_up_on_off: None,
                current_level: Some(42u8),
                start_up_current_level: None,
            }),
    {
        LedHandler {
            on_off: true,
            start_up_on_off: None,
            current_level: Some(42),
            start_up_current_level: None,
        }
    }

    /// Whether the light is on.
    pub fn on_off(&self) -> (on: bool)
        ensures
            on == self@.on_off,
    {
        self.on_off
    }

    /// Switches the light on or off; answers the command for the LED task,
    /// whose delivery does not change the attribute.
    pub fn set_on_off(&mut self, on: bool) -> (cmd: ControlMessage)
        ensures
            cmd == ControlMessage::SetOn(on),
            final(self)@ == (LedHandlerView { on_off: on, ..old(self)@ }),
    {
        self.on_off = on;
        ControlMessage::SetOn(on)
    }

    /// What the light does when it powers up.
    pub fn start_up_on_off(&self) -> (v: Option<StartUpOnOff>)
        ensures
            v == self@.start_up_on_off,
    {
        self.start_up_on_off
    }

    /// Sets what the light does when it powers up; this always succeeds.
    pub fn set_start_up_on_off(&mut self, value: Option<StartUpOnOff>) -> (r: Result<(), ErrorCode>)
        ensures
            r == Ok::<(), ErrorCode>(()),
            final(self)@ == (LedHandlerView { start_up_on_off: value, ..old(self)@ }),
    {
        self.start_up_on_off = value;
        Ok(())
    }

    /// The command that sets the LED to `level`.
    pub fn device_level_command(&self, level: u8) -> (cmd: ControlMessage)
        ensures
            cmd == ControlMessage::SetBrightness(level),
    {
        ControlMessage::SetBrightness(level)
    }

    /// The answer to a request for level `level`, once its command was
    /// offered to the LED task: the level when the task took it, an error
    /// when its queue was full.
    pub fn set_device_level(&self, level: u8, delivered: bool) -> (r: Result<Option<u8>, ()>)
        ensures
            r == (if delivered {
                Ok::<Option<u8>, ()>(Some(level))
            } else {
                Err::<Option<u8>, ()>(())
            }),
    {
        if delivered {
            Ok(Some(level))
        } else {
            Err(())
        }
    }

    /// The level attribute.
    pub fn current_level(&self) -> (l: Option<u8>)
        ensures
            l == self@.current_level,
    {
        self.current_level
    }

    /// Sets the level attribute.
    pub fn set_current_level(&mut self, level: Option<u8>)
        ensures
            final(self)@ == (LedHandlerView { current_level: level, ..old(self)@ }),
    {
        self.current_level = level;
    }

    /// The level the light starts at when it powers up.
    pub fn start_up_current_level(&self) -> (r: Result<Option<u8>, ErrorCode>)
        ensures
            r == Ok::<Option<u8>, ErrorCode>(self@.start_up_current_level),
    {
        Ok(self.start_up_current_level)
    }

    /// Sets the level the light starts at when it powers up; this always
    /// succeeds.
    pub fn set_start_up_current_level(&mut self, value: Option<u8>) -> (r: Result<(), ErrorCode>)
        ensures
            r == Ok::<(), ErrorCode>(()),
            final(self)@ == (LedHandlerView { start_up_current_level: value, ..old(self)@ }),
    {
        self.start_up_current_level = value;
        Ok(())
    }

    /// The command that shows `color` on the LED.
    pub fn colour_command(&self, color: Rgb) -> (cmd: ControlMessage)
        ensures
            cmd == (ControlMessage::SetColour { r: color.r, g: color.g, b: color.b }),
    {
        ControlMessage::SetColour { r: color.r, g: color.g, b: color.b }
    }

    /// The answer to a color request, once its command was offered to the
    /// LED task: success when the task took it, `Busy` when its queue was
    /// full.
    pub fn set_color(&self, delivered: bool) -> (r: Result<(), ErrorCode>)
        ensures
            r == (if delivered {
                Ok::<(), ErrorCode>(())
            } else {
                Err::<(), ErrorCode>(ErrorCode::Busy)
            }),
    {
        if delivered {
            Ok(())
        } else {
            Err(ErrorCode::Busy)
        }
    }

    /// An edge of the button: when it goes low the message that toggles the
    /// light is sent; when it goes high nothing is.
    pub fn button_edge(&self, is_low: bool) -> (msg: Option<OnOffMessage>)
        ensures
            msg == (if is_low {
                Some(toggle_message(self@.on_off))
            } else {
                None::<OnOffMessage>
            }),
    {
        if is_low {
            if self.on_off {
                Some(OnOffMessage::Off)
            } else {
                Some(OnOffMessage::On)
            }
        } else {
            None
        }
    }
}

} // verus!
