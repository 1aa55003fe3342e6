//! The three signal lamps and the levels of their output lines.

use vstd::prelude::*;

verus! {

/// One of the three signal lamps, each wired to an output line of its own.
#[derive(Clone, Copy, Debug, PartialEq, Eq, Structural)]
pub enum Lamp {
    Red,
    Orange,
    Green,
}

/// The levels of the three output lines at one instant: `true` is lit.
#[derive(Clone, Copy, Debug, PartialEq, Eq, Structural)]
pub struct Outputs {
    pub red_on: bool,
    pub orange_on: bool,
    pub green_on: bool,
}

impl Outputs {
    /// All three lines low.
    pub open spec fn dark() -> Outputs {
        Outputs { red_on: false, orange_on: false, green_on: false }
    }

    /// The line of `lamp` high and the two others low.
    pub open spec fn only(lamp: Lamp) -> Outputs {
        Outputs {
            red_on: lamp == Lamp::Red,
            orange_on: lamp == Lamp::Orange,
            green_on: lamp == Lamp::Green,
        }
    }

    /// The level of the line of `lamp`.
    pub open spec fn level(self, lamp: Lamp) -> bool {
        match lamp {
            Lamp::Red => self.red_on,
            Lamp::Orange => self.orange_on,
            Lamp::Green => self.green_on,
        }
    }

    /// These levels after the line of `lamp` was written with `on`; the two
    /// other lines keep their level.
    pub open spec fn with_level(self, lamp: Lamp, on: bool) -> Outputs {
        match lamp {
            Lamp::Red => Outputs { red_on: on, ..self },
            Lamp::Orange => Outputs { orange_on: on, ..self },
            Lamp::Green => Outputs { green_on: on, ..self },
        }
    }

    /// How many of the three lamps are lit.
    pub open spec fn lit_count(self) -> nat {
        (if self.red_on { 1nat } else { 0nat })
            + (if self.orange_on { 1nat } else { 0nat })
            + (if self.green_on { 1nat } else { 0nat })
    }

    /// The levels with every lamp off.
    pub fn all_off() -> (out: Outputs)
        ensures
            out == Outputs::dark(),
    {
        Outputs { red_on: false, orange_on: false, green_on: false }
    }

    /// The levels with `lamp` lit and the two others off.
    pub fn showing(lamp: Lamp) -> (out: Outputs)
        ensures
            out == Outputs::only(lamp),
    {
        match lamp {
            Lamp::Red => Outputs { red_on: true, orange_on: false, green_on: false },
            Lamp::Orange => Outputs { red_on: false, orange_on: true, green_on: false },
            Lamp::Green => Outputs { red_on: false, orange_on: false, green_on: true },
        }
    }

    /// Whether `lamp` is lit.
    pub fn is_lit(&self, lamp: Lamp) -> (lit: bool)
        ensures
            lit == self.level(lamp),
    {
        match lamp {
            Lamp::Red => self.red_on,
            Lamp::Orange => self.orange_on,
            Lamp::Green => self.green_on,
        }
    }

    /// Records a write of `on` to the line of `lamp`.
    pub fn set(&mut self, lamp: Lamp, on: bool)
        ensures
            *final(self) == old(self).with_level(lamp, on),
    {
        match lamp {
            Lamp::Red => {
                self.red_on = on;
            },
            Lamp::Orange => {
                self.orange_on = on;
            },
            Lamp::Green => {
                self.green_on = on;
            },
        }
    }

    /// Counts the lamps that are lit.
    pub fn count_lit(&self) -> (n: u8)
        ensures
            n == self.lit_count(),
    {
        let mut n: u8 = 0;
        if self.red_on {
            n = n + 1;
        }
        if self.orange_on {
            n = n + 1;
        }
        if self.green_on {
            n = n + 1;
        }
        n
    }
}

} // verus!
