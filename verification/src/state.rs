//! The two states a cell can be in.

use vstd::prelude::*;

verus! {

/// The state of one cell.
#[derive(Clone, Copy, Debug, PartialEq, Eq, Structural)]
pub enum State {
    Alive,
    Dead,
}

impl State {
    /// The name of the state as text: `Alive` or `Dead`.
    pub open spec fn tag(self) -> Seq<char> {
        match self {
            State::Alive => seq!['A', 'l', 'i', 'v', 'e'],
            State::Dead => seq!['D', 'e', 'a', 'd'],
        }
    }

    /// The name of the state.
    pub fn name(&self) -> (name: &'static str)
        ensures
            name@ == self.tag(),
    {
        match self {
            State::Alive => {
                proof {
                    reveal_strlit("Alive");
                }
                assert("Alive"@ =~= State::Alive.tag());
                "Alive"
            },
            State::Dead => {
                proof {
                    reveal_strlit("Dead");
                }
                assert("Dead"@ =~= State::Dead.tag());
                "Dead"
            },
        }
    }

    /// Whether the cell is alive.
    pub fn is_alive(&self) -> (alive: bool)
        ensures
            alive == (*self == State::Alive),
    {
        match self {
            State::Alive => true,
            State::Dead => false,
        }
    }

    /// The state that a boolean stands for: `Alive` for `true`, `Dead` for `false`.
    pub fn from_alive(alive: bool) -> (state: State)
        ensures
            state == (if alive { State::Alive } else { State::Dead }),
    {
        if alive {
            State::Alive
        } else {
            State::Dead
        }
    }
}

} // verus!
