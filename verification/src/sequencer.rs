//! The sequencer: which action comes next, given how the last one went.
//!
//! The sequencer performs nothing itself. A driver owns the three output
//! lines, the log sink and the delay; it carries out the action in flight,
//! reports the outcome to [`Sequencer::step`] and is given the next action.

use crate::action::{color_line, spec_color_line, Action, ActionView, Outcome};
use crate::phase::Phase;
use vstd::prelude::*;

verus! {

/// The actions of one phase, in order: light the lamp of the phase, switch
/// off what the phase clears, announce the colour, hold.
///
/// The lamp of the phase is lit before any other is switched off, so the
/// change of phase never passes through a moment with every lamp dark.
pub open spec fn program(phase: Phase) -> Seq<ActionView> {
    seq![ActionView::SetOutput { lamp: phase.spec_lamp(), on: true }] + Seq::new(
        phase.spec_clears().len(),
        |i: int| ActionView::SetOutput { lamp: phase.spec_clears()[i], on: false },
    ) + seq![
        ActionView::Emit { line: spec_color_line(phase.spec_label()) },
        ActionView::Delay { ms: phase.spec_duration_ms() },
    ]
}

/// State of a sequencer as a mathematical value.
pub struct SequencerView {
    /// The current phase.
    pub phase: Phase,
    /// Position in the program of the current phase of the action in flight.
    pub pos: nat,
    /// Whether a fault has stopped the sequencer.
    pub halted: bool,
}

impl SequencerView {
    /// The position lies inside the program of the phase.
    pub open spec fn wf(self) -> bool {
        self.pos < program(self.phase).len()
    }

    /// The state at power-on: the first action of the red phase in flight.
    pub open spec fn start() -> SequencerView {
        SequencerView { phase: Phase::Red, pos: 0, halted: false }
    }

    /// The action that the driver has been given and not yet reported on.
    pub open spec fn in_flight(self) -> ActionView {
        if self.halted {
            ActionView::Abort
        } else {
            program(self.phase)[self.pos as int]
        }
    }

    /// The state once the action in flight was carried out: the next action
    /// of the phase, or the first action of the next phase.
    pub open spec fn advance(self) -> SequencerView {
        if self.halted {
            self
        } else if self.pos + 1 < program(self.phase).len() {
            SequencerView { pos: self.pos + 1, ..self }
        } else {
            SequencerView { phase: self.phase.spec_next(), pos: 0, ..self }
        }
    }

    /// The state after the driver reported `outcome`. A fault is fatal: it
    /// halts the sequencer, and nothing brings it back.
    pub open spec fn react(self, outcome: Outcome) -> SequencerView {
        match outcome {
            Outcome::Done => self.advance(),
            Outcome::Fault => SequencerView { halted: true, ..self },
        }
    }
}

/// Every program holds one lighting write, one or two clearing writes, the
/// announcement and the dwell, in that order.
pub proof fn lemma_program_shape(phase: Phase)
    ensures
        program(phase).len() == phase.spec_clears().len() + 3,
        4 <= program(phase).len() <= 5,
        program(phase)[0] == (ActionView::SetOutput { lamp: phase.spec_lamp(), on: true }),
        forall|i: int|
            1 <= i <= phase.spec_clears().len() ==> #[trigger] program(phase)[i] == (
            ActionView::SetOutput { lamp: phase.spec_clears()[i - 1], on: false }),
        program(phase)[program(phase).len() - 2] == (ActionView::Emit {
            line: spec_color_line(phase.spec_label()),
        }),
        program(phase)[program(phase).len() - 1] == (ActionView::Delay {
            ms: phase.spec_duration_ms(),
        }),
{
}

/// A fault is final: it halts the sequencer whatever was in flight, and a
/// halted sequencer stays halted and asks for nothing but `Abort`, whatever
/// it is told.
pub proof fn law_fault_is_final(state: SequencerView, outcome: Outcome)
    ensures
        state.react(Outcome::Fault).halted,
        state.react(Outcome::Fault).in_flight() == ActionView::Abort,
        state.halted ==> state.react(outcome).halted,
        state.halted ==> state.react(outcome).in_flight() == ActionView::Abort,
        !state.halted && state.wf() ==> !(state.in_flight() is Abort),
        !state.halted && state.wf() ==> state.react(Outcome::Done).wf() && !state.react(
            Outcome::Done,
        ).halted,
{
    lemma_program_shape(state.phase);
    lemma_program_shape(state.phase.spec_next());
    if !state.halted && state.wf() {
        let i = state.pos as int;
        if 1 <= i <= state.phase.spec_clears().len() {
            assert(program(state.phase)[i] is SetOutput);
        }
    }
}

/// The sequencer: the current phase and how far its program has run.
#[derive(Clone, Copy, Debug, PartialEq, Eq)]
pub struct Sequencer {
    phase: Phase,
    pos: usize,
    halted: bool,
}

impl View for Sequencer {
    type V = SequencerView;

    closed spec fn view(&self) -> SequencerView {
        SequencerView { phase: self.phase, pos: self.pos as nat, halted: self.halted }
    }
}

/// The number of actions in the program of `phase`.
fn program_len(phase: Phase) -> (len: usize)
    ensures
        len == program(phase).len(),
{
    proof {
        lemma_program_shape(phase);
    }
    phase.clear_count() + 3
}

/// The action at position `pos` of the program of `phase`.
fn action_at(phase: Phase, pos: usize) -> (action: Action)
    requires
        pos < program(phase).len(),
    ensures
        action@ == program(phase)[pos as int],
{
    proof {
        lemma_program_shape(phase);
    }
    let clears: usize = phase.clear_count();
    if pos == 0 {
        Action::SetOutput { lamp: phase.lamp(), on: true }
    } else if let Some(lamp) = phase.cleared(pos - 1) {
        Action::SetOutput { lamp, on: false }
    } else if pos == clears + 1 {
        Action::Emit { line: color_line(phase.label()) }
    } else {
        Action::Delay { ms: phase.duration_ms() }
    }
}

impl Sequencer {
    #[verifier::type_invariant]
    spec fn inv(self) -> bool {
        self@.wf()
    }

    /// A sequencer at power-on. Its first action is in flight: hand
    /// [`Sequencer::in_flight`] to the driver.
    pub fn new() -> (seq: Sequencer)
        ensures
            seq@ == SequencerView::start(),
            seq@.wf(),
    {
        proof {
            lemma_program_shape(Phase::Red);
        }
        Sequencer { phase: Phase::first(), pos: 0, halted: false }
    }

    /// The current phase.
    pub fn phase(&self) -> (phase: Phase)
        ensures
            phase == self@.phase,
    {
        self.phase
    }

    /// Whether a fault has stopped the sequencer.
    pub fn is_halted(&self) -> (halted: bool)
        ensures
            halted == self@.halted,
    {
        self.halted
    }

    /// The action that the driver is to carry out now.
    pub fn in_flight(&self) -> (action: Action)
        ensures
            action@ == self@.in_flight(),
            self@.wf(),
    {
        proof {
            use_type_invariant(self);
        }
        if self.halted {
            Action::Abort
        } else {
            action_at(self.phase, self.pos)
        }
    }

    /// Takes the driver's report on the action in flight and returns the
    /// action to carry out next.
    ///
    /// After `Done` that is the next action of the cycle. After `Fault` it is
    /// `Abort`, now and on every later call.
    pub fn step(&mut self, outcome: Outcome) -> (action: Action)
        ensures
            final(self)@ == old(self)@.react(outcome),
            final(self)@.wf(),
            action@ == final(self)@.in_flight(),
    {
        proof {
            use_type_invariant(&*self);
            lemma_program_shape(self.phase);
            lemma_program_shape(self.phase.spec_next());
        }
        match outcome {
            Outcome::Fault => {
                *self = Sequencer { phase: self.phase, pos: self.pos, halted: true };
            },
            Outcome::Done => {
                if !self.halted {
                    if self.pos + 1 < program_len(self.phase) {
                        *self = Sequencer { phase: self.phase, pos: self.pos + 1, halted: false };
                    } else {
                        *self = Sequencer { phase: self.phase.next(), pos: 0, halted: false };
                    }
                }
            },
        }
        self.in_flight()
    }
}

} // verus!
