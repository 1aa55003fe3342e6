//! The phase table: four phases in a fixed cyclic order, each with the lamp
//! it shows, its dwell and its label.

use crate::lamp::{Lamp, Outputs};
use vstd::prelude::*;

verus! {

/// Number of entries in the phase table.
pub const PHASE_COUNT: usize = 4;

/// A phase of the cycle. Orange stands in the table twice: the two entries
/// show the same lamp for the same time, but one follows red and leads to
/// green, the other follows green and leads back to red.
#[derive(Clone, Copy, Debug, PartialEq, Eq, Structural)]
pub enum Phase {
    Red,
    Orange1,
    Green,
    Orange2,
}

/// One entry of the phase table, written out.
#[derive(Clone, Copy, Debug, PartialEq, Eq)]
pub struct PhaseRecord {
    pub red_on: bool,
    pub orange_on: bool,
    pub green_on: bool,
    pub duration_ms: u32,
    pub label: &'static str,
}

impl Phase {
    /// Position in the table, counted from zero.
    pub open spec fn spec_index(self) -> nat {
        match self {
            Phase::Red => 0,
            Phase::Orange1 => 1,
            Phase::Green => 2,
            Phase::Orange2 => 3,
        }
    }

    /// The phase at position `i` of the table read cyclically.
    pub open spec fn at(i: nat) -> Phase {
        if i % 4 == 0 {
            Phase::Red
        } else if i % 4 == 1 {
            Phase::Orange1
        } else if i % 4 == 2 {
            Phase::Green
        } else {
            Phase::Orange2
        }
    }

    /// The phase that follows this one.
    pub open spec fn spec_next(self) -> Phase {
        match self {
            Phase::Red => Phase::Orange1,
            Phase::Orange1 => Phase::Green,
            Phase::Green => Phase::Orange2,
            Phase::Orange2 => Phase::Red,
        }
    }

    /// The one lamp that is lit during this phase.
    pub open spec fn spec_lamp(self) -> Lamp {
        match self {
            Phase::Red => Lamp::Red,
            Phase::Orange1 => Lamp::Orange,
            Phase::Green => Lamp::Green,
            Phase::Orange2 => Lamp::Orange,
        }
    }

    /// The levels of the three lines during this phase.
    pub open spec fn spec_outputs(self) -> Outputs {
        match self {
            Phase::Red => Outputs { red_on: true, orange_on: false, green_on: false },
            Phase::Orange1 => Outputs { red_on: false, orange_on: true, green_on: false },
            Phase::Green => Outputs { red_on: false, orange_on: false, green_on: true },
            Phase::Orange2 => Outputs { red_on: false, orange_on: true, green_on: false },
        }
    }

    /// How long this phase is held, in milliseconds.
    pub open spec fn spec_duration_ms(self) -> u32 {
        match self {
            Phase::Red => 2000,
            Phase::Orange1 => 1000,
            Phase::Green => 3000,
            Phase::Orange2 => 1000,
        }
    }

    /// The name of the colour of this phase.
    pub open spec fn spec_label(self) -> Seq<char> {
        match self {
            Phase::Red => "Red"@,
            Phase::Orange1 => "Orange"@,
            Phase::Green => "Green"@,
            Phase::Orange2 => "Orange"@,
        }
    }

    /// The lamps that this phase switches off, in the order of the writes.
    /// Red is where the cycle is entered, with the lines in an unknown state,
    /// so it switches off both other lamps; every other phase switches off the
    /// lamp of the phase before it.
    pub open spec fn spec_clears(self) -> Seq<Lamp> {
        match self {
            Phase::Red => seq![Lamp::Orange, Lamp::Green],
            Phase::Orange1 => seq![Lamp::Red],
            Phase::Green => seq![Lamp::Orange],
            Phase::Orange2 => seq![Lamp::Green],
        }
    }

    /// The phase in which the cycle is entered.
    pub fn first() -> (p: Phase)
        ensures
            p == Phase::Red,
            p == Phase::at(0),
    {
        Phase::Red
    }

    /// Position of this phase in the table, counted from zero.
    pub fn index(self) -> (i: usize)
        ensures
            i == self.spec_index(),
            i < PHASE_COUNT,
    {
        match self {
            Phase::Red => 0,
            Phase::Orange1 => 1,
            Phase::Green => 2,
            Phase::Orange2 => 3,
        }
    }

    /// The phase at position `i` of the table, if the table has one there.
    pub fn from_index(i: usize) -> (p: Option<Phase>)
        ensures
            i < PHASE_COUNT ==> p == Some(Phase::at(i as nat)),
            i >= PHASE_COUNT ==> p.is_none(),
    {
        if i == 0 {
            Some(Phase::Red)
        } else if i == 1 {
            Some(Phase::Orange1)
        } else if i == 2 {
            Some(Phase::Green)
        } else if i == 3 {
            Some(Phase::Orange2)
        } else {
            None
        }
    }

    /// The phase that follows this one; after the last entry the table starts
    /// over.
    #[verifier::when_used_as_spec(spec_next)]
    pub fn next(self) -> (p: Phase)
        ensures
            p == self.spec_next(),
            p == Phase::at(self.spec_index() + 1),
            p.spec_index() == (self.spec_index() + 1) % 4,
    {
        match self {
            Phase::Red => Phase::Orange1,
            Phase::Orange1 => Phase::Green,
            Phase::Green => Phase::Orange2,
            Phase::Orange2 => Phase::Red,
        }
    }

    /// The one lamp that is lit during this phase.
    #[verifier::when_used_as_spec(spec_lamp)]
    pub fn lamp(self) -> (lamp: Lamp)
        ensures
            lamp == self.spec_lamp(),
    {
        match self {
            Phase::Red => Lamp::Red,
            Phase::Orange1 => Lamp::Orange,
            Phase::Green => Lamp::Green,
            Phase::Orange2 => Lamp::Orange,
        }
    }

    /// The levels of the three lines during this phase.
    #[verifier::when_used_as_spec(spec_outputs)]
    pub fn outputs(self) -> (out: Outputs)
        ensures
            out == self.spec_outputs(),
            out == Outputs::only(self.spec_lamp()),
    {
        Outputs::showing(self.lamp())
    }

    /// How long this phase is held, in milliseconds.
    #[verifier::when_used_as_spec(spec_duration_ms)]
    pub fn duration_ms(self) -> (ms: u32)
        ensures
            ms == self.spec_duration_ms(),
    {
        match self {
            Phase::Red => 2000,
            Phase::Orange1 => 1000,
            Phase::Green => 3000,
            Phase::Orange2 => 1000,
        }
    }

    /// The name of the colour of this phase.
    pub fn label(self) -> (label: &'static str)
        ensures
            label@ == self.spec_label(),
    {
        match self {
            Phase::Red => "Red",
            Phase::Orange1 => "Orange",
            Phase::Green => "Green",
            Phase::Orange2 => "Orange",
        }
    }

    /// How many lamps this phase switches off.
    pub fn clear_count(self) -> (n: usize)
        ensures
            n == self.spec_clears().len(),
            1 <= n <= 2,
    {
        match self {
            Phase::Red => 2,
            _ => 1,
        }
    }

    /// The `i`-th lamp that this phase switches off, if there are that many.
    pub fn cleared(self, i: usize) -> (lamp: Option<Lamp>)
        ensures
            i < self.spec_clears().len() ==> lamp == Some(self.spec_clears()[i as int]),
            i >= self.spec_clears().len() ==> lamp.is_none(),
    {
        match self {
            Phase::Red => if i == 0 {
                Some(Lamp::Orange)
            } else if i == 1 {
                Some(Lamp::Green)
            } else {
                None
            },
            Phase::Orange1 => if i == 0 {
                Some(Lamp::Red)
            } else {
                None
            },
            Phase::Green => if i == 0 {
                Some(Lamp::Orange)
            } else {
                None
            },
            Phase::Orange2 => if i == 0 {
                Some(Lamp::Green)
            } else {
                None
            },
        }
    }

    /// The table entry of this phase.
    pub fn record(self) -> (rec: PhaseRecord)
        ensures
            rec.describes(self),
    {
        let out = self.outputs();
        PhaseRecord {
            red_on: out.red_on,
            orange_on: out.orange_on,
            green_on: out.green_on,
            duration_ms: self.duration_ms(),
            label: self.label(),
        }
    }
}

impl PhaseRecord {
    /// Whether this record is the table entry of `phase`.
    pub open spec fn describes(self, phase: Phase) -> bool {
        &&& self.spec_outputs() == phase.spec_outputs()
        &&& self.duration_ms == phase.spec_duration_ms()
        &&& self.label@ == phase.spec_label()
    }

    /// The three levels of this record as one value.
    pub open spec fn spec_outputs(self) -> Outputs {
        Outputs { red_on: self.red_on, orange_on: self.orange_on, green_on: self.green_on }
    }

    /// The three levels of this record as one value.
    pub fn outputs(&self) -> (out: Outputs)
        ensures
            out == self.spec_outputs(),
    {
        Outputs { red_on: self.red_on, orange_on: self.orange_on, green_on: self.green_on }
    }
}

/// The whole phase table, in cycle order.
pub fn phase_table() -> (table: Vec<PhaseRecord>)
    ensures
        table@.len() == PHASE_COUNT,
        forall|i: int| 0 <= i < 4 ==> (#[trigger] table@[i]).describes(Phase::at(i as nat)),
{
    let mut table: Vec<PhaseRecord> = Vec::new();
    table.push(Phase::Red.record());
    table.push(Phase::Orange1.record());
    table.push(Phase::Green.record());
    table.push(Phase::Orange2.record());
    table
}

/// The table is consistent. Every phase lights its own lamp and no other;
/// read cyclically, the table gives each phase at its own position and its
/// successor at the next; and every phase switches off the lamp of the phase
/// before it, never its own.
pub proof fn law_phase_table(p: Phase)
    ensures
        p.spec_outputs() == Outputs::only(p.spec_lamp()),
        p.spec_outputs().lit_count() == 1,
        p.spec_index() < 4,
        Phase::at(p.spec_index()) == p,
        Phase::at(p.spec_index() + 1) == p.spec_next(),
        p.spec_next().spec_index() == (p.spec_index() + 1) % 4,
        p.spec_next().spec_clears().contains(p.spec_lamp()),
        !p.spec_clears().contains(p.spec_lamp()),
{
    let next = p.spec_next();
    assert(next.spec_clears()[0] == p.spec_lamp());
}

} // verus!
