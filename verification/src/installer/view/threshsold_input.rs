//! A control that raises or lowers the number of keys that must sign.

use crate::text::{fraction, fraction_text};
use vstd::prelude::*;

verus! {

/// What the user can do to the control.
#[derive(Debug, Clone, Copy, PartialEq, Eq, Structural)]
pub enum Event {
    IncrementPressed,
    DecrementPressed,
}

/// The threshold an event asks for, if it asks for one: one more while the
/// threshold is below the number of keys, one less while it is above one.
pub open spec fn requested(value: usize, max: usize, event: Event) -> Option<usize> {
    match event {
        Event::IncrementPressed => if value < max {
            Some((value + 1) as usize)
        } else {
            None
        },
        Event::DecrementPressed => if value > 1 {
            Some((value - 1) as usize)
        } else {
            None
        },
    }
}

/// A threshold the control asks for lies one step from the present one, and
/// within 1 and the number of keys whenever the present one does.
pub proof fn requested_stays_in_range(value: usize, max: usize, event: Event)
    ensures
        requested(value, max, event) matches Some(next) ==> {
            &&& next == value + 1 || next == value - 1
            &&& 1 <= next
            &&& value <= max ==> next <= max
        },
{
}

/// Raising a threshold of at least one and then lowering it, or lowering a
/// threshold and then raising it while it is below the number of keys, asks
/// for the threshold one started from.
pub proof fn requested_steps_cancel(value: usize, max: usize)
    ensures
        value >= 1 ==> (requested(value, max, Event::IncrementPressed) matches Some(up)
            ==> requested(up, max, Event::DecrementPressed) == Some(value)),
        requested(value, max, Event::DecrementPressed) matches Some(down) ==> (down < max
            ==> requested(down, max, Event::IncrementPressed) == Some(value)),
{
}

/// What the control shows.
#[derive(Debug, PartialEq, Eq)]
pub struct ThresholdView {
    /// What the upper arrow raises.
    pub increment: Event,
    /// The threshold and the number of keys, as in `2/3`.
    pub label: String,
    /// What the lower arrow raises.
    pub decrement: Event,
}

/// The control: a threshold, the number of keys it is a threshold of, and what
/// to make of a newly requested threshold.
pub struct ThresholdInput<F> {
    value: usize,
    max: usize,
    on_change: F,
}

/// A control for the threshold `value` among `max` keys.
pub fn threshsold_input<Message, F: Fn(usize) -> Message + 'static>(
    value: usize,
    max: usize,
    on_change: F,
) -> (input: ThresholdInput<F>)
    ensures
        input.value() == value,
        input.max() == max,
        input.on_change() == on_change,
{
    ThresholdInput::new(value, max, on_change)
}

impl<F> ThresholdInput<F> {
    /// The present threshold.
    pub closed spec fn value(&self) -> usize {
        self.value
    }

    /// The number of keys.
    pub closed spec fn max(&self) -> usize {
        self.max
    }

    /// What turns a requested threshold into a message.
    pub closed spec fn on_change(&self) -> F {
        self.on_change
    }

    /// A control for the threshold `value` among `max` keys.
    pub fn new<Message>(value: usize, max: usize, on_change: F) -> (input: Self) where
        F: Fn(usize) -> Message + 'static,

        ensures
            input.value() == value,
            input.max() == max,
            input.on_change() == on_change,
    {
        ThresholdInput { value, max, on_change }
    }

    /// Answers an event: where the event asks for a threshold, the message
    /// that `on_change` makes of it, else nothing. The control itself stays as
    /// it is.
    pub fn update<Message>(&mut self, _state: &mut (), event: Event) -> (message: Option<
        Message,
    >) where F: Fn(usize) -> Message
        requires
            requested(old(self).value(), old(self).max(), event) matches Some(next)
                ==> call_requires(old(self).on_change(), (next,)),
        ensures
            *final(self) == *old(self),
            match requested(old(self).value(), old(self).max(), event) {
                Some(next) => message matches Some(m) && call_ensures(
                    old(self).on_change(),
                    (next,),
                    m,
                ),
                None => message is None,
            },
    {
        match event {
            Event::IncrementPressed => {
                if self.value < self.max {
                    Some((self.on_change)(self.value.saturating_add(1)))
                } else {
                    None
                }
            },
            Event::DecrementPressed => {
                if self.value > 1 {
                    Some((self.on_change)(self.value.saturating_sub(1)))
                } else {
                    None
                }
            },
        }
    }

    /// What the control shows: the two arrows and, between them, the threshold
    /// over the number of keys.
    pub fn view(&self, _state: &()) -> (shown: ThresholdView)
        ensures
            shown.increment == Event::IncrementPressed,
            shown.label@ == fraction(self.value() as nat, self.max() as nat),
            shown.decrement == Event::DecrementPressed,
    {
        ThresholdView {
            increment: Event::IncrementPressed,
            label: fraction_text(self.value, self.max),
            decrement: Event::DecrementPressed,
        }
    }
}

} // verus!
