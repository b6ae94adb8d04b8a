//! What the LED ring shows.

use vstd::prelude::*;

verus! {

/// How many LEDs the ring has.
pub const NUM_LEDS: usize = 16;

/// A color of eight bits per channel.
#[derive(Debug, Clone, Copy, PartialEq, Eq, Structural)]
pub struct RGB8 {
    pub r: u8,
    pub g: u8,
    pub b: u8,
}

/// Work in progress, and errors.
#[verifier::allow_in_spec]
pub fn color_red() -> (color: RGB8)
    returns
        (RGB8 { r: 200, g: 0, b: 0 }),
{
    RGB8 { r: 200, g: 0, b: 0 }
}

/// Work done.
#[verifier::allow_in_spec]
pub fn color_green() -> (color: RGB8)
    returns
        (RGB8 { r: 0, g: 180, b: 0 }),
{
    RGB8 { r: 0, g: 180, b: 0 }
}

/// Waiting for an answer.
#[verifier::allow_in_spec]
pub fn color_yellow() -> (color: RGB8)
    returns
        (RGB8 { r: 200, g: 160, b: 0 }),
{
    RGB8 { r: 200, g: 160, b: 0 }
}

/// An answer was taken.
#[verifier::allow_in_spec]
pub fn color_blue() -> (color: RGB8)
    returns
        (RGB8 { r: 0, g: 0, b: 200 }),
{
    RGB8 { r: 0, g: 0, b: 200 }
}

/// Nothing going on.
#[verifier::allow_in_spec]
pub fn color_white_dim() -> (color: RGB8)
    returns
        (RGB8 { r: 30, g: 30, b: 30 }),
{
    RGB8 { r: 30, g: 30, b: 30 }
}

/// Dark.
#[verifier::allow_in_spec]
pub fn color_off() -> (color: RGB8)
    returns
        (RGB8 { r: 0, g: 0, b: 0 }),
{
    RGB8 { r: 0, g: 0, b: 0 }
}

/// LED display mode -- drives the render loop.
#[derive(Debug, Clone, Copy, PartialEq, Eq, Structural)]
pub enum LedMode {
    /// Constant color on all LEDs.
    Solid(RGB8),
    /// Brightness oscillates (sine wave) around a base color.
    Pulse(RGB8),
    /// Alternates between color and off at the given period (ms).
    Blink(RGB8, u32),
    /// Brief flash (duration in ms), which gives way to another mode.
    Flash(RGB8, u32),
}

impl LedMode {
    /// A blinking mode has a period to blink with.
    pub open spec fn wf(self) -> bool {
        self matches LedMode::Blink(_, period_ms) ==> period_ms > 0
    }

    /// The color of the ring `elapsed_ms` after the start, where `pulsed` is the
    /// color that a pulsing mode has at that moment.
    pub open spec fn color_at(self, elapsed_ms: u64, pulsed: RGB8) -> RGB8 {
        match self {
            LedMode::Solid(color) => color,
            LedMode::Pulse(_) => pulsed,
            LedMode::Blink(color, period_ms) => if blink_lit(period_ms, elapsed_ms as nat) {
                color
            } else {
                color_off()
            },
            LedMode::Flash(color, _) => color,
        }
    }
}

/// A blinking ring is lit in the first half of each period.
pub open spec fn blink_lit(period_ms: u32, elapsed_ms: nat) -> bool {
    elapsed_ms % (period_ms as nat) < period_ms as nat / 2
}

/// The colors of the ring according to the mode and the elapsed time. `pulsed`
/// is the base color of a pulsing mode, scaled to its brightness of the moment.
pub fn render_leds(mode: &LedMode, elapsed_ms: u64, pulsed: RGB8) -> (pixels: [RGB8; NUM_LEDS])
    requires
        mode.wf(),
    ensures
        pixels@ == Seq::new(NUM_LEDS as nat, |i: int| mode.color_at(elapsed_ms, pulsed)),
{
    let color: RGB8 = match *mode {
        LedMode::Solid(color) => color,
        LedMode::Pulse(_) => pulsed,
        LedMode::Blink(color, period_ms) => {
            let in_period: u32 = (elapsed_ms % period_ms as u64) as u32;
            if in_period < period_ms / 2 {
                color
            } else {
                color_off()
            }
        },
        LedMode::Flash(color, _) => color,
    };
    [color; NUM_LEDS]
}

/// Blinking repeats itself after each period.
pub proof fn law_blink_repeats(period_ms: u32, elapsed_ms: nat)
    requires
        period_ms > 0,
    ensures
        blink_lit(period_ms, elapsed_ms + period_ms as nat) == blink_lit(period_ms, elapsed_ms),
{
    vstd::arithmetic::div_mod::lemma_mod_add_multiples_vanish(
        elapsed_ms as int,
        period_ms as int,
    );
}

/// A blinking ring of even period is off exactly half a period after it was
/// lit, and the other way round.
pub proof fn law_blink_alternates(period_ms: u32, elapsed_ms: nat)
    requires
        period_ms > 0,
        period_ms % 2 == 0,
    ensures
        blink_lit(period_ms, elapsed_ms + period_ms as nat / 2) == !blink_lit(
            period_ms,
            elapsed_ms,
        ),
{
    let p = period_ms as int;
    let r = elapsed_ms as int % p;
    let q = elapsed_ms as int / p;
    vstd::arithmetic::div_mod::lemma_fundamental_div_mod(elapsed_ms as int, p);
    if r < p / 2 {
        assert(elapsed_ms + p / 2 == p * q + (r + p / 2));
        vstd::arithmetic::div_mod::lemma_mod_multiples_vanish(q, r + p / 2, p);
        vstd::arithmetic::div_mod::lemma_small_mod((r + p / 2) as nat, p as nat);
    } else {
        assert(elapsed_ms + p / 2 == p * (q + 1) + (r - p / 2)) by (nonlinear_arith)
            requires
                elapsed_ms == p * q + r,
                p / 2 + p / 2 == p,
        ;
        vstd::arithmetic::div_mod::lemma_mod_multiples_vanish(q + 1, r - p / 2, p);
        vstd::arithmetic::div_mod::lemma_small_mod((r - p / 2) as nat, p as nat);
    }
}

/// A solid or flashing ring has its color at every moment, a pulsing one the color
/// handed in for the moment, and a blinking one its color in the first half of each
/// period, counted from the start, and none in the second.
pub proof fn law_ring_shows_its_color(color: RGB8, ms: u32, elapsed_ms: u64, pulsed: RGB8)
    ensures
        LedMode::Solid(color).color_at(elapsed_ms, pulsed) == color,
        LedMode::Pulse(color).color_at(elapsed_ms, pulsed) == pulsed,
        LedMode::Flash(color, ms).color_at(elapsed_ms, pulsed) == color,
        ms > 0 && elapsed_ms % (ms as u64) < ms / 2 ==> LedMode::Blink(color, ms).color_at(
            elapsed_ms,
            pulsed,
        ) == color,
        ms > 0 && elapsed_ms % (ms as u64) >= ms / 2 ==> LedMode::Blink(color, ms).color_at(
            elapsed_ms,
            pulsed,
        ) == (RGB8 { r: 0, g: 0, b: 0 }),
{
}

} // verus!
