//! Dice.

use vstd::prelude::*;

verus! {

/// A die, named by the number of its faces.
#[derive(Debug, PartialEq, Eq, PartialOrd, Ord, Clone, Copy, Structural)]
pub enum Die {
    D4,
    D6,
    D8,
    D10,
    D12,
    D20,
}

impl Die {
    /// The number of faces.
    pub open spec fn faces(&self) -> int {
        match self {
            Die::D4 => 4,
            Die::D6 => 6,
            Die::D8 => 8,
            Die::D10 => 10,
            Die::D12 => 12,
            Die::D20 => 20,
        }
    }

    /// Rolls the die: a face from one to the number of faces.
    pub fn roll(&self, rng: &mut rand::rngs::StdRng) -> (face: i8)
        ensures
            1 <= face <= self.faces(),
    {
        let faces: i8 = match self {
            Die::D4 => 4,
            Die::D6 => 6,
            Die::D8 => 8,
            Die::D10 => 10,
            Die::D12 => 12,
            Die::D20 => 20,
        };
        crate::random::roll(rng, 1, faces)
    }
}

/// A number of dice of one kind, rolled together.
#[derive(Debug, PartialEq, Eq, PartialOrd, Ord, Clone, Copy, Structural)]
pub struct DiceFormula(pub i8, pub Die);

impl DiceFormula {
    /// Rolls the dice and adds up the faces. Without dice the sum is zero.
    pub fn roll(&self, rng: &mut rand::rngs::StdRng) -> (sum: i32)
        ensures
            self.0 <= 0 ==> sum == 0,
            self.0 > 0 ==> self.0 <= sum <= self.0 * self.1.faces(),
    {
        let mut result: i32 = 0;
        let mut rolled: i8 = 0;
        while rolled < self.0
            invariant
                0 <= rolled,
                self.0 > 0 ==> rolled <= self.0,
                self.0 <= 0 ==> result == 0,
                rolled <= result <= rolled * self.1.faces(),
            decreases self.0 - rolled,
        {
            let face: i8 = self.1.roll(rng);
            assert(rolled * self.1.faces() + face <= (rolled + 1) * self.1.faces())
                by (nonlinear_arith)
                requires
                    face <= self.1.faces(),
            ;
            assert(rolled * self.1.faces() <= 127 * 20) by (nonlinear_arith)
                requires
                    0 <= rolled <= 127,
                    1 <= self.1.faces() <= 20,
            ;
            result += face as i32;
            rolled += 1;
        }
        result
    }
}

} // verus!
