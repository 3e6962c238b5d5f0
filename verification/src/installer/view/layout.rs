//! The frame that every step of the installer is shown in.

use crate::installer::message::Message;
use crate::text::{fraction, fraction_text};
use vstd::prelude::*;

verus! {

/// A step's content inside its frame: above the content, a control to go back
/// and the place of the step among all steps.
#[derive(Debug, PartialEq, Eq)]
pub struct Layout<C> {
    /// What the control to go back sends.
    pub previous: Message,
    /// The step's number and the number of steps, as in `2/6`.
    pub progress: String,
    /// The step itself.
    pub content: C,
}

impl<C> Layout<C> {
    /// Whether this is the frame of the step at `progress.0` of `progress.1`.
    pub open spec fn frames(&self, progress: (usize, usize)) -> bool {
        &&& self.previous == Message::Previous
        &&& self.progress@ == fraction(progress.0 as nat, progress.1 as nat)
    }
}

/// Puts a step's content into its frame.
pub fn layout<C>(progress: (usize, usize), content: C) -> (framed: Layout<C>)
    ensures
        framed.frames(progress),
        framed.content == content,
{
    Layout {
        previous: Message::Previous,
        progress: fraction_text(progress.0, progress.1),
        content,
    }
}

} // verus!
