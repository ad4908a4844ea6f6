use vstd::prelude::*;
use crate::options::OptionsBitmap;

verus! {

/// The lowest level the light accepts.
pub const MIN_LEVEL: u8 = 1;
/// The highest level the light accepts.
pub const MAX_LEVEL: u8 = 254;
/// The fastest rate of level change the light supports.
pub const FASTEST_RATE: u8 = 50;

/// The lowest reading of the variable resistor, found by measuring it.
pub const KNOB_LOW: u32 = 2300;
/// The highest reading of the variable resistor, found by measuring it.
pub const KNOB_HIGH: u32 = 4081;
/// A level step smaller than this does not switch on a light that is off.
pub const SMALL_STEP: u32 = 5;
/// Milliseconds between two readings of the knob.
pub const SAMPLE_PERIOD_MS: u64 = 50;

/// One step of the exponential moving average: the new sample weighs two
/// tenths, the previous average eight tenths, rounded down.
pub open spec fn ema_step(ema: int, sample: int) -> int {
    (2 * sample + 8 * ema) / 10
}

/// The level that an averaged reading maps to: the reading above the low end,
/// scaled linearly onto the level range and kept within it.
pub open spec fn level_for(ema: int) -> int {
    let above: int = if ema > KNOB_LOW { ema - KNOB_LOW } else { 0 };
    let scaled: int = above * (MAX_LEVEL - MIN_LEVEL) / (KNOB_HIGH - KNOB_LOW) + MIN_LEVEL;
    let floored: int = if scaled < MIN_LEVEL { MIN_LEVEL as int } else { scaled };
    if floored > MAX_LEVEL { MAX_LEVEL as int } else { floored }
}

/// Whether moving from level `last` to `level` is announced: the level must
/// differ, and a small step is announced only while the light is on.
pub open spec fn announces(last: int, level: int, light_on: bool) -> bool {
    &&& level != last
    &&& (light_on || level - last >= SMALL_STEP || last - level >= SMALL_STEP)
}

/// The message the knob sends: move to `level`, switching the light on,
/// at once, with no option overrides.
#[derive(Clone, Copy, Debug, PartialEq, Eq, Structural)]
pub enum LevelMessage {
    MoveToLevel {
        with_on_off: bool,
        level: u8,
        transition_time: Option<u16>,
        options_mask: OptionsBitmap,
        options_override: OptionsBitmap,
    },
}

/// The message that announces `level`.
pub open spec fn move_to_level_message(level: u8) -> LevelMessage {
    LevelMessage::MoveToLevel {
        with_on_off: true,
        level,
        transition_time: Some(0u16),
        options_mask: OptionsBitmap::empty_spec(),
        options_override: OptionsBitmap::empty_spec(),
    }
}

/// The level knob: a variable resistor read by an ADC, smoothed by a moving
/// average and mapped onto the level range. `ema` is the moving average and
/// `last_level` the level last announced (0 before the first announcement).
pub struct LevelKnob {
    ema: u32,
    last_level: u32,
}

impl LevelKnob {
    #[verifier::type_invariant]
    spec fn bounded(self) -> bool {
        &&& self.ema <= u16::MAX
        &&& self.last_level <= MAX_LEVEL
    }

    /// The moving average of the readings.
    pub closed spec fn average(self) -> u32 {
        self.ema
    }

    /// The level last announced, 0 before any.
    pub closed spec fn announced(self) -> u32 {
        self.last_level
    }

    /// A knob that has read nothing yet.
    pub fn new() -> (k: LevelKnob)
        ensures
            k.average() == 0,
            k.announced() == 0,
    {
        LevelKnob { ema: 0, last_level: 0 }
    }

    /// The moving average of the readings.
    pub fn ema_value(&self) -> (v: u32)
        ensures
            v == self.average(),
            v <= u16::MAX,
    {
        proof {
            use_type_invariant(self);
        }
        self.ema
    }

    /// The level last announced, 0 before any.
    pub fn last_level(&self) -> (v: u32)
        ensures
            v == self.announced(),
            v <= MAX_LEVEL,
    {
        proof {
            use_type_invariant(self);
        }
        self.last_level
    }

    /// Feeds one ADC reading to the knob. The average moves one step toward
    /// the reading; the level it maps to is announced when it differs from
    /// the last announced one, unless the light is off and the step is small,
    /// in which case nothing is sent and the last level stays.
    pub fn on_sample(&mut self, sample: u16, light_on: bool) -> (msg: Option<LevelMessage>)
        ensures
            final(self).average() == ema_step(old(self).average() as int, sample as int),
            ({
                let level = level_for(final(self).average() as int);
                if announces(old(self).announced() as int, level, light_on) {
                    &&& final(self).announced() == level
                    &&& msg == Some(move_to_level_message(level as u8))
                } else {
                    &&& final(self).announced() == old(self).announced()
                    &&& msg.is_none()
                }
            }),
    {
        proof {
            use_type_invariant(&*self);
        }
        let ema: u32 = (2 * (sample as u32) + 8 * self.ema) / 10;
        let level: u32 = level_from_average(ema);
        let last: u32 = self.last_level;
        if level != last {
            let diff: u32 = if level > last { level - last } else { last - level };
            if diff < SMALL_STEP && !light_on {
                self.ema = ema;
                return None;
            }
            self.ema = ema;
            self.last_level = level;
            let msg = LevelMessage::MoveToLevel {
                with_on_off: true,
                level: level as u8,
                transition_time: Some(0u16),
                options_mask: OptionsBitmap::empty(),
                options_override: OptionsBitmap::empty(),
            };
            Some(msg)
        } else {
            self.ema = ema;
            None
        }
    }
    /// Feeds the outcome of one ADC read to the knob: a failed read (`None`)
    /// changes nothing and sends nothing; a reading is fed as by `on_sample`.
    pub fn on_reading(&mut self, reading: Option<u16>, light_on: bool) -> (msg: Option<LevelMessage>)
        ensures
            reading.is_none() ==> {
                &&& final(self).average() == old(self).average()
                &&& final(self).announced() == old(self).announced()
                &&& msg.is_none()
            },
            reading.is_some() ==> {
                let level = level_for(ema_step(old(self).average() as int, reading.unwrap() as int));
                &&& final(self).average() == ema_step(old(self).average() as int, reading.unwrap() as int)
                &&& if announces(old(self).announced() as int, level, light_on) {
                    &&& final(self).announced() == level
                    &&& msg == Some(move_to_level_message(level as u8))
                } else {
                    &&& final(self).announced() == old(self).announced()
                    &&& msg.is_none()
                }
            },
    {
        match reading {
            Some(sample) => self.on_sample(sample, light_on),
            None => None,
        }
    }
}

/// Maps an averaged reading onto the level range.
pub fn level_from_average(ema: u32) -> (level: u32)
    requires
        ema <= u16::MAX,
    ensures
        level == level_for(ema as int),
        MIN_LEVEL <= level <= MAX_LEVEL,
{
    let above: u32 = ema.saturating_sub(KNOB_LOW);
    assert(above * 253 <= 65535 * 253) by (nonlinear_arith)
        requires
            above <= 65535,
    ;
    let scaled: u32 = above * ((MAX_LEVEL as u32) - (MIN_LEVEL as u32)) / (KNOB_HIGH - KNOB_LOW)
        + (MIN_LEVEL as u32);
    let floored: u32 = if scaled < MIN_LEVEL as u32 { MIN_LEVEL as u32 } else { scaled };
    if floored > MAX_LEVEL as u32 { MAX_LEVEL as u32 } else { floored }
}

/// Every averaged reading maps to a level within `MIN_LEVEL..=MAX_LEVEL`.
pub proof fn level_always_in_range(ema: int)
    ensures
        MIN_LEVEL <= level_for(ema) <= MAX_LEVEL,
{
}

/// Turning the knob up never lowers the level: the mapping is monotone.
pub proof fn level_is_monotone(e1: int, e2: int)
    requires
        e1 <= e2,
    ensures
        level_for(e1) <= level_for(e2),
{
    let a1: int = if e1 > KNOB_LOW { e1 - KNOB_LOW } else { 0 };
    let a2: int = if e2 > KNOB_LOW { e2 - KNOB_LOW } else { 0 };
    assert(a1 <= a2);
    assert(a1 * 253 <= a2 * 253) by (nonlinear_arith)
        requires
            a1 <= a2,
    ;
    vstd::arithmetic::div_mod::lemma_div_is_ordered(a1 * 253, a2 * 253, 1781);
}

/// The knob's travel spans the whole level range: at or below the low end
/// of the resistor the level is `MIN_LEVEL`, at or above the high end it is
/// `MAX_LEVEL`.
pub proof fn knob_travel_spans_levels(ema: int)
    ensures
        ema <= KNOB_LOW ==> level_for(ema) == MIN_LEVEL,
        ema >= KNOB_HIGH ==> level_for(ema) == MAX_LEVEL,
{
    if ema >= KNOB_HIGH {
        let a: int = ema - KNOB_LOW;
        assert(a * 253 >= 1781 * 253) by (nonlinear_arith)
            requires
                a >= 1781,
        ;
        vstd::arithmetic::div_mod::lemma_div_is_ordered(1781int * 253, a * 253, 1781);
    }
}

/// A new average lies between the previous average and the new reading,
/// so it never leaves the range of the readings.
pub proof fn average_between(ema: int, sample: int)
    requires
        0 <= ema,
        0 <= sample,
    ensures
        ema <= sample ==> ema <= ema_step(ema, sample) <= sample,
        sample <= ema ==> sample <= ema_step(ema, sample) <= ema,
{
}

/// A reading held steady at the average leaves the average where it is.
pub proof fn steady_reading_is_fixed(sample: int)
    requires
        0 <= sample,
    ensures
        ema_step(sample, sample) == sample,
{
}

/// While the light is on, every change of level is announced; while it is
/// off, a step smaller than `SMALL_STEP` never is.
pub proof fn announcement_rule(last: int, level: int, light_on: bool)
    ensures
        announces(last, level, true) == (level != last),
        level == last ==> !announces(last, level, light_on),
        (level - last >= 5 || last - level >= 5) ==> announces(last, level, light_on),
        (level - last < SMALL_STEP && last - level < SMALL_STEP) ==> !announces(last, level, false),
{
}

/// Each reading moves the average by the same rule whichever side of the
/// average it falls on: ten times the new average is the weighted sum
/// `2 * sample + 8 * average`, rounded down to a multiple of ten; so the
/// average closes a fifth of the gap to the reading, up or down.
pub proof fn average_weighs_a_fifth(ema: int, sample: int)
    requires
        0 <= ema,
        0 <= sample,
    ensures
        10 * ema_step(ema, sample) <= 2 * sample + 8 * ema < 10 * ema_step(ema, sample) + 10,
        sample <= ema ==> (ema - sample) / 5 <= ema - ema_step(ema, sample) <= (ema - sample) / 5 + 1,
        ema <= sample ==> (sample - ema) / 5 <= ema_step(ema, sample) - ema <= (sample - ema) / 5 + 1,
{
}

/// Between the two ends of the resistor the level is the linear map of the
/// reading, rounded down: `level - 1` is the whole number of steps of
/// `(KNOB_HIGH - KNOB_LOW) / (MAX_LEVEL - MIN_LEVEL)` readings above the low end.
pub proof fn level_is_linear_between_ends(ema: int)
    requires
        KNOB_LOW <= ema <= KNOB_HIGH,
    ensures
        (level_for(ema) - 1) * 1781 <= (ema - 2300) * 253 < level_for(ema) * 1781,
{
    let a: int = ema - 2300;
    let q: int = a * 253 / 1781;
    assert(q * 1781 <= a * 253 < q * 1781 + 1781 && q <= 253) by (nonlinear_arith)
        requires
            q == a * 253 / 1781,
            0 <= a <= 1781,
    ;
}

} // verus!
