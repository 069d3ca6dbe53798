//! The user light: the patterns it shows while the badge works.

use vstd::prelude::*;

verus! {

/// The brightest level of the light.
pub const TOP: u16 = 25_000;

/// Milliseconds the light stays on, and off, in one flash.
pub const BLINK_MILLIS: u64 = 100;

/// How many levels one fade walks through.
pub const FADE_STEPS: u16 = 100;

/// Milliseconds on each level of a fade.
pub const FADE_MILLIS: u64 = 10;

/// One step of a pattern.
#[derive(Clone, Copy, PartialEq, Eq, Structural, Debug)]
pub enum LedStep {
    /// Set the brightness, from 0 (off) to `TOP`.
    Level(u16),
    /// Keep the brightness for this many milliseconds.
    WaitMillis(u64),
}

/// `times` flashes: on, a pause, off; with a pause between two flashes, and
/// none after the last.
pub open spec fn blink_steps(times: nat) -> Seq<LedStep>
    decreases times,
{
    if times == 0 {
        Seq::empty()
    } else if times == 1 {
        seq![LedStep::Level(TOP), LedStep::WaitMillis(BLINK_MILLIS), LedStep::Level(0)]
    } else {
        blink_steps((times - 1) as nat) + seq![
            LedStep::WaitMillis(BLINK_MILLIS),
            LedStep::Level(TOP),
            LedStep::WaitMillis(BLINK_MILLIS),
            LedStep::Level(0),
        ]
    }
}

/// The steps that flash the light `n_times`.
pub fn blink(n_times: usize) -> (steps: Vec<LedStep>)
    ensures
        steps@ == blink_steps(n_times as nat),
{
    let mut steps: Vec<LedStep> = Vec::new();
    let mut i: usize = 0;
    while i < n_times
        invariant
            i <= n_times,
            steps@ == blink_steps(i as nat),
        decreases n_times - i,
    {
        if i > 0 {
            steps.push(LedStep::WaitMillis(BLINK_MILLIS));
        }
        steps.push(LedStep::Level(TOP));
        steps.push(LedStep::WaitMillis(BLINK_MILLIS));
        steps.push(LedStep::Level(0));
        i = i + 1;
        assert(steps@ =~= blink_steps(i as nat));
    }
    steps
}

/// The level of step `k` of a breath, for the steps that set one: up from off
/// in `FADE_STEPS` equal steps, down again the same way, and off at the end.
pub open spec fn breathe_level(k: int) -> int {
    let stride = TOP / FADE_STEPS;
    if k < 2 * FADE_STEPS {
        (k / 2) * stride
    } else if k < 4 * FADE_STEPS {
        (FADE_STEPS - 1 - (k - 2 * FADE_STEPS) / 2) * stride
    } else {
        0
    }
}

/// One breath: a fade in and a fade out, each level kept for `FADE_MILLIS`,
/// and the light switched off at the end.
pub open spec fn breathe_steps() -> Seq<LedStep> {
    Seq::new(
        (4 * FADE_STEPS + 1) as nat,
        |k: int|
            if k % 2 == 0 {
                LedStep::Level(breathe_level(k) as u16)
            } else {
                LedStep::WaitMillis(FADE_MILLIS)
            },
    )
}

/// The steps of one breath of the light.
pub fn breathe() -> (steps: Vec<LedStep>)
    ensures
        steps@ == breathe_steps(),
{
    let stride: u16 = TOP / FADE_STEPS;
    let mut steps: Vec<LedStep> = Vec::new();
    let mut i: u16 = 0;
    while i < FADE_STEPS
        invariant
            i <= FADE_STEPS,
            stride == 250,
            steps@ == breathe_steps().take(2 * i),
        decreases FADE_STEPS - i,
    {
        steps.push(LedStep::Level(i * stride));
        steps.push(LedStep::WaitMillis(FADE_MILLIS));
        i = i + 1;
        assert(steps@ =~= breathe_steps().take(2 * i));
    }
    let mut j: u16 = FADE_STEPS;
    while j > 0
        invariant
            j <= FADE_STEPS,
            stride == 250,
            steps@ == breathe_steps().take(2 * FADE_STEPS + 2 * (FADE_STEPS - j)),
        decreases j,
    {
        j = j - 1;
        steps.push(LedStep::Level(j * stride));
        steps.push(LedStep::WaitMillis(FADE_MILLIS));
        assert(steps@ =~= breathe_steps().take(2 * FADE_STEPS + 2 * (FADE_STEPS - j)));
    }
    steps.push(LedStep::Level(0));
    assert(steps@ =~= breathe_steps());
    steps
}

} // verus!
