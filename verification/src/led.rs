use vstd::prelude::*;
use crate::color_hooks::ColorControlHooks;
use crate::error::ErrorCode;

verus! {

/// What the LED shows: on or off, its level, and its chromaticity `(x, y)`
/// in the CIE 1931 space, each coordinate scaled by 65536.
#[derive(Clone, Copy, Debug, PartialEq, Eq, Structural)]
pub struct LedState {
    pub on: bool,
    pub level: u8,
    pub x: u16,
    pub y: u16,
}

/// The state of a new lamp: off, at level 100, white (the D65 white point,
/// x 0.3127 and y 0.3290).
pub open spec fn initial_led_state() -> LedState {
    LedState { on: false, level: 100, x: 20493, y: 21561 }
}

/// What the light does when it powers up.
#[derive(Clone, Copy, Debug, PartialEq, Eq, Structural)]
pub enum StartUpOnOff {
    Off,
    On,
    Toggle,
}

/// The on/off request that a press of the button sends to the cluster.
#[derive(Clone, Copy, Debug, PartialEq, Eq, Structural)]
pub enum OnOffMessage {
    On,
    Off,
}

/// A press of the button held at least this many seconds asks for a factory
/// reset.
pub const FACTORY_RESET_HOLD_SECS: u64 = 10;

/// Milliseconds the button is left to settle before its level is read.
pub const DEBOUNCE_MS: u64 = 50;

/// Where the debounced button stands: waiting for a press (the pin to go
/// low), or held since `since_ms` and waiting for the release (the pin to go
/// high).
#[derive(Clone, Copy, Debug, PartialEq, Eq, Structural)]
pub enum ButtonPhase {
    WaitingPress,
    Held { since_ms: u64 },
}

/// Whole seconds between two instants given in milliseconds (0 when the
/// second is not later).
pub open spec fn held_secs(since_ms: u64, now_ms: u64) -> u64 {
    if now_ms > since_ms {
        ((now_ms - since_ms) / 1000) as u64
    } else {
        0
    }
}

/// The message that a short press sends: it switches the light to the other
/// state.
pub open spec fn toggle_message(on: bool) -> OnOffMessage {
    if on {
        OnOffMessage::Off
    } else {
        OnOffMessage::On
    }
}

/// The lamp as the specification sees it. `pending` is the state handed to
/// the LED task and not taken yet (a newer state replaces an older one);
/// `factory_reset` is a factory reset asked for and not taken yet.
pub struct LedView {
    pub state: LedState,
    pub pending: Option<LedState>,
    pub start_up_on_off: Option<StartUpOnOff>,
    pub start_up_current_level: Option<u8>,
    pub factory_reset: bool,
}

impl LedView {
    /// A new lamp: its first state is handed to the LED task at once.
    pub open spec fn initial() -> LedView {
        LedView {
            state: initial_led_state(),
            pending: Some(initial_led_state()),
            start_up_on_off: Some(StartUpOnOff::Off),
            start_up_current_level: Some(100),
            factory_reset: false,
        }
    }

    /// Moves the lamp to state `s`; only a state that differs from the
    /// current one is handed to the LED task.
    pub open spec fn apply(self, s: LedState) -> LedView {
        if self.state == s {
            self
        } else {
            LedView { state: s, pending: Some(s), ..self }
        }
    }

    /// Switches the lamp on or off.
    pub open spec fn set_on_off(self, on: bool) -> LedView {
        self.apply(LedState { on, ..self.state })
    }

    /// Sets the level of the lamp.
    pub open spec fn set_level(self, level: u8) -> LedView {
        self.apply(LedState { level, ..self.state })
    }

    /// A level that is not known is taken as 0.
    pub open spec fn set_current_level(self, level: Option<u8>) -> LedView {
        self.set_level(
            match level {
                Some(l) => l,
                None => 0u8,
            },
        )
    }

    /// A color request is taken when the lamp is on, or when it must be
    /// carried out even while off; a lamp that is off declines it otherwise.
    pub open spec fn set_color(self, x: u16, y: u16, execute_if_off: bool) -> (LedView, Result<bool, ErrorCode>) {
        if self.state.on || execute_if_off {
            (self.apply(LedState { x, y, ..self.state }), Ok(true))
        } else {
            (self, Ok(false))
        }
    }

    /// The release of the button after `held_secs` seconds: a long press
    /// asks for a factory reset, a short one sends the toggle message.
    pub open spec fn button_released(self, held_secs: u64) -> (LedView, Option<OnOffMessage>) {
        if held_secs >= FACTORY_RESET_HOLD_SECS {
            (LedView { factory_reset: true, ..self }, None)
        } else {
            (self, Some(toggle_message(self.state.on)))
        }
    }

    /// One debounced check of the button: the pin was seen to change, and
    /// `DEBOUNCE_MS` later it reads `pin_low` at time `now_ms`. A press
    /// counts only if the pin is still low; the release counts only if the
    /// pin is still high, and then acts on how long the button was held.
    /// Otherwise the check was a bounce and nothing changes.
    pub open spec fn button_checked(
        self,
        phase: ButtonPhase,
        pin_low: bool,
        now_ms: u64,
    ) -> (LedView, ButtonPhase, Option<OnOffMessage>) {
        match phase {
            ButtonPhase::WaitingPress => if pin_low {
                (self, ButtonPhase::Held { since_ms: now_ms }, None)
            } else {
                (self, ButtonPhase::WaitingPress, None)
            },
            ButtonPhase::Held { since_ms } => if pin_low {
                (self, ButtonPhase::Held { since_ms }, None)
            } else {
                let (v, msg) = self.button_released(held_secs(since_ms, now_ms));
                (v, ButtonPhase::WaitingPress, msg)
            },
        }
    }
}

/// The state of the lamp: what the LED shows, the state handed to the LED
/// task, the start-up attributes, and a factory reset asked for by the button.
pub struct Led {
    state: LedState,
    pending: Option<LedState>,
    start_up_on_off: Option<StartUpOnOff>,
    start_up_current_level: Option<u8>,
    factory_reset: bool,
}

impl View for Led {
    type V = LedView;

    closed spec fn view(&self) -> LedView {
        LedView {
            state: self.state,
            pending: self.pending,
            start_up_on_off: self.start_up_on_off,
            start_up_current_level: self.start_up_current_level,
            factory_reset: self.factory_reset,
        }
    }
}

impl Led {
    /// The lamp whose view is `v`.
    pub closed spec fn from_view(v: LedView) -> Led {
        Led {
            state: v.state,
            pending: v.pending,
            start_up_on_off: v.start_up_on_off,
            start_up_current_level: v.start_up_current_level,
            factory_reset: v.factory_reset,
        }
    }

    /// A new lamp: off, level 100, white, starting up off at level 100; its
    /// state is handed to the LED task at once.
    pub fn new() -> (led: Led)
        ensures
            led@ == LedView::initial(),
    {
        let state = LedState { on: false, level: 100, x: 20493, y: 21561 };
        Led {
            state,
            pending: Some(state),
            start_up_on_off: Some(StartUpOnOff::Off),
            start_up_current_level: Some(100),
            factory_reset: false,
        }
    }

    fn set_state(&mut self, state: LedState)
        ensures
            final(self)@ == old(self)@.apply(state),
    {
        if self.state != state {
            self.state = state;
            self.pending = Some(state);
        }
    }

    /// What the LED shows.
    pub fn state(&self) -> (s: LedState)
        ensures
            s == self@.state,
    {
        self.state
    }

    /// Takes the state handed to the LED task, if one waits.
    pub fn take_pending(&mut self) -> (s: Option<LedState>)
        ensures
            s == old(self)@.pending,
            final(self)@ == (LedView { pending: None, ..old(self)@ }),
    {
        let s = self.pending;
        self.pending = None;
        s
    }

    /// Whether the light is on.
    pub fn on_off(&self) -> (on: bool)
        ensures
            on == self@.state.on,
    {
        self.state.on
    }

    /// Switches the light on or off.
    pub fn set_on_off(&mut self, on: bool)
        ensures
            final(self)@ == old(self)@.set_on_off(on),
    {
        let state = LedState { on, ..self.state };
        self.set_state(state);
    }

    /// What the light does when it powers up (`None`: the last state).
    pub fn start_up_on_off(&self) -> (v: Option<StartUpOnOff>)
        ensures
            v == self@.start_up_on_off,
    {
        self.start_up_on_off
    }

    /// Sets what the light does when it powers up; this always succeeds.
    pub fn set_start_up_on_off(&mut self, value: Option<StartUpOnOff>) -> (r: Result<(), ErrorCode>)
        ensures
            r == Ok::<(), ErrorCode>(()),
            final(self)@ == (LedView { start_up_on_off: value, ..old(self)@ }),
    {
        self.start_up_on_off = value;
        Ok(())
    }

    /// Sets the level of the LED, and answers the level it was set to.
    pub fn set_device_level(&mut self, level: u8) -> (r: Result<Option<u8>, ()>)
        ensures
            r == Ok::<Option<u8>, ()>(Some(level)),
            final(self)@ == old(self)@.set_level(level),
    {
        let state = LedState { level, ..self.state };
        self.set_state(state);
        Ok(Some(level))
    }

    /// The level of the LED.
    pub fn current_level(&self) -> (l: Option<u8>)
        ensures
            l == Some(self@.state.level),
    {
        Some(self.state.level)
    }

    /// Sets the level of the LED; an unknown level is taken as 0.
    pub fn set_current_level(&mut self, level: Option<u8>)
        ensures
            final(self)@ == old(self)@.set_current_level(level),
    {
        let l: u8 = match level {
            Some(l) => l,
            None => 0,
        };
        let state = LedState { level: l, ..self.state };
        self.set_state(state);
    }

    /// The level the light starts at when it powers up.
    pub fn start_up_current_level(&self) -> (r: Result<Option<u8>, ErrorCode>)
        ensures
            r == Ok::<Option<u8>, ErrorCode>(self@.start_up_current_level),
    {
        Ok(self.start_up_current_level)
    }

    /// Sets the level the light starts at when it powers up; this always
    /// succeeds.
    pub fn set_start_up_current_level(&mut self, value: Option<u8>) -> (r: Result<(), ErrorCode>)
        ensures
            r == Ok::<(), ErrorCode>(()),
            final(self)@ == (LedView { start_up_current_level: value, ..old(self)@ }),
    {
        self.start_up_current_level = value;
        Ok(())
    }

    /// The button was released after being held `held_secs` seconds: a hold
    /// of ten seconds or more asks for a factory reset and sends nothing;
    /// a shorter one sends the message that toggles the light.
    pub fn button_released(&mut self, held_secs: u64) -> (msg: Option<OnOffMessage>)
        ensures
            (final(self)@, msg) == old(self)@.button_released(held_secs),
    {
        if held_secs >= FACTORY_RESET_HOLD_SECS {
            self.factory_reset = true;
            None
        } else if self.state.on {
            Some(OnOffMessage::Off)
        } else {
            Some(OnOffMessage::On)
        }
    }

    /// One debounced check of the button (see `LedView::button_checked`):
    /// answers the next phase, and the message to send, if any.
    pub fn button_checked(&mut self, phase: ButtonPhase, pin_low: bool, now_ms: u64) -> (r: (
        ButtonPhase,
        Option<OnOffMessage>,
    ))
        ensures
            (final(self)@, r.0, r.1) == old(self)@.button_checked(phase, pin_low, now_ms),
    {
        match phase {
            ButtonPhase::WaitingPress => {
                if pin_low {
                    (ButtonPhase::Held { since_ms: now_ms }, None)
                } else {
                    (ButtonPhase::WaitingPress, None)
                }
            },
            ButtonPhase::Held { since_ms } => {
                if pin_low {
                    (ButtonPhase::Held { since_ms }, None)
                } else {
                    let held: u64 = if now_ms > since_ms {
                        (now_ms - since_ms) / 1000
                    } else {
                        0
                    };
                    let msg = self.button_released(held);
                    (ButtonPhase::WaitingPress, msg)
                }
            },
        }
    }

    /// Takes the factory reset asked for by the button, if any.
    pub fn take_factory_reset(&mut self) -> (asked: bool)
        ensures
            asked == old(self)@.factory_reset,
            final(self)@ == (LedView { factory_reset: false, ..old(self)@ }),
    {
        let asked = self.factory_reset;
        self.factory_reset = false;
        asked
    }
}

impl ColorControlHooks for Led {
    open spec fn current_xy(&self) -> (u16, u16) {
        (self@.state.x, self@.state.y)
    }

    open spec fn set_color_result(&self, x: u16, y: u16, execute_if_off: bool) -> Result<bool, ErrorCode> {
        self@.set_color(x, y, execute_if_off).1
    }

    open spec fn after_set_color(&self, x: u16, y: u16, execute_if_off: bool) -> Led {
        Led::from_view(self@.set_color(x, y, execute_if_off).0)
    }

    fn color(&self) -> (xy: (u16, u16)) {
        (self.state.x, self.state.y)
    }

    fn set_color(&mut self, x: u16, y: u16, execute_if_off: bool) -> (r: Result<bool, ErrorCode>) {
        if self.state.on || execute_if_off {
            let state = LedState { x, y, ..self.state };
            self.set_state(state);
            Ok(true)
        } else {
            Ok(false)
        }
    }
}

/// A lamp and its view determine each other.
pub proof fn led_from_view_has_view(v: LedView, led: Led)
    ensures
        Led::from_view(v)@ == v,
        Led::from_view(led@) == led,
{
}

/// Moving the lamp to a state shows that state, and either hands it to the
/// LED task or, when it was already shown, changes nothing at all; moving
/// to the same state twice is the same as once.
pub proof fn apply_shows_state(v: LedView, s: LedState)
    ensures
        v.apply(s).state == s,
        v.apply(s).pending == Some(s) || v.apply(s) == v,
        v.state == s ==> v.apply(s) == v,
        v.apply(s).apply(s) == v.apply(s),
        v.apply(s).start_up_on_off == v.start_up_on_off,
        v.apply(s).start_up_current_level == v.start_up_current_level,
        v.apply(s).factory_reset == v.factory_reset,
{
}

/// What is written is read back: on/off, the level (an unknown level reads
/// as 0), and nothing else of the state moves.
pub proof fn attributes_read_back(v: LedView, on: bool, level: u8)
    ensures
        v.set_on_off(on).state == (LedState { on, ..v.state }),
        v.set_level(level).state == (LedState { level, ..v.state }),
        v.set_current_level(Some(level)).state == (LedState { level, ..v.state }),
        v.set_current_level(None).state == (LedState { level: 0, ..v.state }),
{
}

/// A color request that is taken shows the new chromaticity and keeps on/off
/// and level; one that is declined changes nothing.
pub proof fn color_request_outcome(v: LedView, x: u16, y: u16, execute_if_off: bool)
    ensures
        (v.state.on || execute_if_off) ==> {
            &&& v.set_color(x, y, execute_if_off).1 == Ok::<bool, ErrorCode>(true)
            &&& v.set_color(x, y, execute_if_off).0.state == (LedState { x, y, ..v.state })
        },
        (!v.state.on && !execute_if_off) ==> v.set_color(x, y, execute_if_off) == (v, Ok::<bool, ErrorCode>(false)),
{
}

/// A short press sends the message that, once carried out, switches the
/// light to the other state; a long press asks for a factory reset and
/// leaves the light as it is.
pub proof fn button_press_outcome(v: LedView, held_secs: u64)
    ensures
        held_secs < FACTORY_RESET_HOLD_SECS ==> {
            &&& v.button_released(held_secs).1 == Some(toggle_message(v.state.on))
            &&& v.set_on_off(toggle_message(v.state.on) == OnOffMessage::On).state.on == !v.state.on
        },
        held_secs >= FACTORY_RESET_HOLD_SECS ==> {
            &&& v.button_released(held_secs).1.is_none()
            &&& v.button_released(held_secs).0.factory_reset
            &&& v.button_released(held_secs).0.state == v.state
        },
{
}

/// A press that bounces back before it settles is ignored; a press held
/// through the check and then released is acted on as a release after the
/// whole seconds it was held; while held, further checks change nothing.
pub proof fn debounced_button(v: LedView, pin_low: bool, since_ms: u64, now_ms: u64)
    ensures
        v.button_checked(ButtonPhase::WaitingPress, false, now_ms) == (v, ButtonPhase::WaitingPress, None::<OnOffMessage>),
        v.button_checked(ButtonPhase::WaitingPress, true, now_ms) == (v, ButtonPhase::Held { since_ms: now_ms }, None::<OnOffMessage>),
        v.button_checked(ButtonPhase::Held { since_ms }, true, now_ms) == (v, ButtonPhase::Held { since_ms }, None::<OnOffMessage>),
        ({
            let (after, phase, msg) = v.button_checked(ButtonPhase::Held { since_ms }, false, now_ms);
            &&& phase == ButtonPhase::WaitingPress
            &&& (after, msg) == v.button_released(held_secs(since_ms, now_ms))
        }),
{
}

/// Whether going from `before` to `after` keeps the LED task informed and
/// touches nothing but what the LED shows: a changed state is handed to the
/// task, an unchanged one changes nothing at all, and the start-up
/// attributes and the factory-reset request stay.
pub open spec fn informs_led_task(before: LedView, after: LedView) -> bool {
    &&& after.state != before.state ==> after.pending == Some(after.state)
    &&& after.state == before.state ==> after == before
    &&& after.start_up_on_off == before.start_up_on_off
    &&& after.start_up_current_level == before.start_up_current_level
    &&& after.factory_reset == before.factory_reset
}

/// Every operation that changes what the LED shows, switching on or off,
/// setting a level, or taking a color, hands the new state to the LED task,
/// whichever way the value changes; in particular a taken color that
/// differs from the shown one is handed on with on/off and level kept.
pub proof fn changes_reach_led_task(
    v: LedView,
    on: bool,
    level: u8,
    current: Option<u8>,
    x: u16,
    y: u16,
    execute_if_off: bool,
)
    ensures
        informs_led_task(v, v.set_on_off(on)),
        informs_led_task(v, v.set_level(level)),
        informs_led_task(v, v.set_current_level(current)),
        informs_led_task(v, v.set_color(x, y, execute_if_off).0),
        v.state.on != on ==> v.set_on_off(on).pending == Some(LedState { on, ..v.state }),
        v.state.level != level ==> v.set_level(level).pending == Some(LedState { level, ..v.state }),
        ((v.state.on || execute_if_off) && (x != v.state.x || y != v.state.y)) ==> v.set_color(
            x,
            y,
            execute_if_off,
        ).0.pending == Some(LedState { x, y, ..v.state }),
{
}

/// The hold time counts whole seconds: `held_secs` is the number of full
/// thousands of milliseconds between the press and the release, 0 when the
/// release is not later.
pub proof fn held_secs_counts_whole_seconds(since_ms: u64, now_ms: u64)
    ensures
        now_ms > since_ms ==> held_secs(since_ms, now_ms) * 1000 <= now_ms - since_ms
            < held_secs(since_ms, now_ms) * 1000 + 1000,
        now_ms <= since_ms ==> held_secs(since_ms, now_ms) == 0,
{
}

} // verus!
