//! The button event dispatcher: from raw edges to presses, and from presses to
//! what they ask for.

use vstd::prelude::*;
use crate::image::{next, rotated, ImageIndex};
use crate::state::{Button, Screen};

verus! {

/// Where the listener of one button stands.
#[derive(Clone, Copy, PartialEq, Eq, Structural, Debug)]
pub enum ButtonPhase {
    /// Armed: waiting for the rising edge.
    Released,
    /// The line rose; waiting for it to settle.
    Settling,
    /// Waiting for the falling edge before arming again.
    Held,
}

/// What the listener waits for next.
#[derive(Clone, Copy, PartialEq, Eq, Structural, Debug)]
pub enum ButtonWait {
    /// Until the line is high.
    ForHigh,
    /// For this many milliseconds.
    ForMillis(u64),
    /// Until the line is low.
    ForLow,
}

/// The listener of one button.
#[derive(Clone, Copy, PartialEq, Eq, Structural, Debug)]
pub struct Listener {
    pub button: Button,
    pub debounce_millis: u64,
    pub phase: ButtonPhase,
}

/// What a phase waits for.
pub open spec fn wait_of(phase: ButtonPhase, debounce_millis: u64) -> ButtonWait {
    match phase {
        ButtonPhase::Released => ButtonWait::ForHigh,
        ButtonPhase::Settling => ButtonWait::ForMillis(debounce_millis),
        ButtonPhase::Held => ButtonWait::ForLow,
    }
}

/// The phase after the current wait is over.
pub open spec fn phase_after_wait(phase: ButtonPhase) -> ButtonPhase {
    match phase {
        ButtonPhase::Released => ButtonPhase::Settling,
        ButtonPhase::Settling => ButtonPhase::Held,
        ButtonPhase::Held => ButtonPhase::Released,
    }
}

/// Whether the end of a wait is a press: the settle time is over and the line
/// is still high.
pub open spec fn is_press(phase: ButtonPhase, is_high: bool) -> bool {
    phase == ButtonPhase::Settling && is_high
}

impl Listener {
    /// An armed listener for `button`.
    pub fn new(button: Button, debounce_millis: u64) -> (listener: Listener)
        ensures
            listener == (Listener { button, debounce_millis, phase: ButtonPhase::Released }),
    {
        Listener { button, debounce_millis, phase: ButtonPhase::Released }
    }

    /// What to wait for now.
    pub fn wait(&self) -> (wait: ButtonWait)
        ensures
            wait == wait_of(self.phase, self.debounce_millis),
    {
        match self.phase {
            ButtonPhase::Released => ButtonWait::ForHigh,
            ButtonPhase::Settling => ButtonWait::ForMillis(self.debounce_millis),
            ButtonPhase::Held => ButtonWait::ForLow,
        }
    }

    /// The wait is over and the line is at the given level. Returns the button
    /// when this is a press.
    pub fn resume(&mut self, is_high: bool) -> (pressed: Option<Button>)
        ensures
            final(self).button == old(self).button,
            final(self).debounce_millis == old(self).debounce_millis,
            final(self).phase == phase_after_wait(old(self).phase),
            pressed == (if is_press(old(self).phase, is_high) {
                Some(old(self).button)
            } else {
                None
            }),
    {
        match self.phase {
            ButtonPhase::Released => {
                self.phase = ButtonPhase::Settling;
                None
            },
            ButtonPhase::Settling => {
                self.phase = ButtonPhase::Held;
                if is_high {
                    Some(self.button)
                } else {
                    None
                }
            },
            ButtonPhase::Held => {
                self.phase = ButtonPhase::Released;
                None
            },
        }
    }
}

/// The phase after a run of waits, each ended at the given level.
pub open spec fn phase_after_levels(phase: ButtonPhase, levels: Seq<bool>) -> ButtonPhase
    decreases levels.len(),
{
    if levels.len() == 0 {
        phase
    } else {
        phase_after_wait(phase_after_levels(phase, levels.drop_last()))
    }
}

/// How many presses a run of waits reports.
pub open spec fn presses_in(phase: ButtonPhase, levels: Seq<bool>) -> nat
    decreases levels.len(),
{
    if levels.len() == 0 {
        0
    } else {
        presses_in(phase, levels.drop_last()) + (if is_press(
            phase_after_levels(phase, levels.drop_last()),
            levels.last(),
        ) {
            1nat
        } else {
            0nat
        })
    }
}

/// One press of the finger is one press event at most: a press is reported
/// only after the rising edge, the settle time and a line that is still high,
/// and the listener reports nothing more until the line has fallen and risen
/// again. Over `3 * rounds` waits from the armed state that is at most
/// `rounds` presses, and the listener is armed again.
pub proof fn lemma_one_press_per_round(levels: Seq<bool>, rounds: nat)
    requires
        levels.len() == 3 * rounds,
    ensures
        phase_after_levels(ButtonPhase::Released, levels) == ButtonPhase::Released,
        presses_in(ButtonPhase::Released, levels) <= rounds,
    decreases rounds,
{
    if rounds > 0 {
        let two = levels.drop_last();
        let one = two.drop_last();
        let zero = one.drop_last();
        lemma_one_press_per_round(zero, (rounds - 1) as nat);
        assert(phase_after_levels(ButtonPhase::Released, one) == ButtonPhase::Settling);
        assert(phase_after_levels(ButtonPhase::Released, two) == ButtonPhase::Held);
        assert(presses_in(ButtonPhase::Released, one) == presses_in(ButtonPhase::Released, zero));
        assert(presses_in(ButtonPhase::Released, two) <= presses_in(ButtonPhase::Released, one)
            + 1);
        assert(presses_in(ButtonPhase::Released, levels) == presses_in(
            ButtonPhase::Released,
            two,
        ));
    }
}

/// What a press asks the rest of the firmware to do.
#[derive(Clone, Copy, PartialEq, Eq, Structural, Debug)]
pub enum PressAction {
    /// Start a sync with the network.
    TriggerSync,
    /// Flash the user light this many times.
    Blink(usize),
    /// Post a redraw request.
    Post(Screen),
}

/// What each button asks for: A a sync; B a flash and a full redraw; C a
/// flash, the next image and a redraw of the image; Up and Down nothing.
pub open spec fn press_actions(button: Button) -> Seq<PressAction> {
    match button {
        Button::A => seq![PressAction::TriggerSync],
        Button::B => seq![PressAction::Blink(1), PressAction::Post(Screen::Full)],
        Button::C => seq![PressAction::Blink(1), PressAction::Post(Screen::Image)],
        Button::Up => Seq::empty(),
        Button::Down => Seq::empty(),
    }
}

/// Answers one press: moves the image selection where the button says so, and
/// returns what else is to be done, in order.
pub fn handle_press(button: Button, index: &mut ImageIndex) -> (actions: Vec<PressAction>)
    requires
        old(index).wf(),
    ensures
        final(index).wf(),
        final(index).count == old(index).count,
        final(index).current == (if button == Button::C {
            rotated(old(index).current as int, old(index).count as int, 1)
        } else {
            old(index).current as int
        }),
        actions@ == press_actions(button),
{
    let mut actions: Vec<PressAction> = Vec::new();
    match button {
        Button::A => {
            actions.push(PressAction::TriggerSync);
        },
        Button::B => {
            actions.push(PressAction::Blink(1));
            actions.push(PressAction::Post(Screen::Full));
        },
        Button::C => {
            actions.push(PressAction::Blink(1));
            next(index);
            actions.push(PressAction::Post(Screen::Image));
        },
        Button::Down => {},
        Button::Up => {},
    }
    assert(actions@ =~= press_actions(button));
    actions
}

} // verus!
