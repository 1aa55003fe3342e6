//! What the sequencer asks its driver to do, what the driver reports back,
//! and the effect of one action on the lines, the log and the clock.

use crate::lamp::{Lamp, Outputs};
use vstd::prelude::*;
use vstd::string::StringExecFns;

verus! {

/// One thing for the driver to do before it asks for the next.
#[derive(Debug, PartialEq, Eq)]
pub enum Action {
    /// Write `on` to the output line of `lamp`.
    SetOutput { lamp: Lamp, on: bool },
    /// Hand `line` to the log sink.
    Emit { line: String },
    /// Block for `ms` milliseconds.
    Delay { ms: u32 },
    /// An output line could not be written: stop for good.
    Abort,
}

/// What the driver reports of the action it was last given.
#[derive(Clone, Copy, Debug, PartialEq, Eq, Structural)]
pub enum Outcome {
    /// The action was carried out.
    Done,
    /// The platform signalled a fault.
    Fault,
}

/// An [`Action`] as a mathematical value.
pub enum ActionView {
    SetOutput { lamp: Lamp, on: bool },
    Emit { line: Seq<char> },
    Delay { ms: u32 },
    Abort,
}

impl View for Action {
    type V = ActionView;

    open spec fn view(&self) -> ActionView {
        match self {
            Action::SetOutput { lamp, on } => ActionView::SetOutput { lamp: *lamp, on: *on },
            Action::Emit { line } => ActionView::Emit { line: line@ },
            Action::Delay { ms } => ActionView::Delay { ms: *ms },
            Action::Abort => ActionView::Abort,
        }
    }
}

impl Clone for Action {
    fn clone(&self) -> (copy: Action)
        ensures
            copy@ == self@,
    {
        match self {
            Action::SetOutput { lamp, on } => Action::SetOutput { lamp: *lamp, on: *on },
            Action::Emit { line } => Action::Emit { line: line.clone() },
            Action::Delay { ms } => Action::Delay { ms: *ms },
            Action::Abort => Action::Abort,
        }
    }
}

impl ActionView {
    /// The levels of the lines once this action was carried out on lines
    /// that stood at `out`. Only a write changes a line.
    pub open spec fn apply_to(self, out: Outputs) -> Outputs {
        match self {
            ActionView::SetOutput { lamp, on } => out.with_level(lamp, on),
            _ => out,
        }
    }

    /// The time this action blocks for, in milliseconds.
    pub open spec fn blocks_ms(self) -> nat {
        match self {
            ActionView::Delay { ms } => ms as nat,
            _ => 0,
        }
    }

    /// The lines this action hands to the log sink: one or none.
    pub open spec fn logs(self) -> Seq<Seq<char>> {
        match self {
            ActionView::Emit { line } => seq![line],
            _ => Seq::empty(),
        }
    }
}

/// The log line for a colour: the text `Color: ` and the colour's name.
pub open spec fn spec_color_line(color: Seq<char>) -> Seq<char> {
    "Color: "@ + color
}

/// Builds the log line that announces `color`.
pub fn color_line(color: &str) -> (line: String)
    ensures
        line@ == spec_color_line(color@),
{
    String::from_str("Color: ").concat(color)
}

impl Outputs {
    /// Records the effect of `action` on the lines.
    pub fn apply(&mut self, action: &Action)
        ensures
            *final(self) == action@.apply_to(*old(self)),
    {
        match action {
            Action::SetOutput { lamp, on } => {
                self.set(*lamp, *on);
            },
            _ => {},
        }
    }
}

} // verus!
