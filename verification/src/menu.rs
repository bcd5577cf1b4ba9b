//! Cyclic display menu: Clock, Temperature, Settings.
//!
//! The menu advances in that fixed order and only on a detected toggle-button
//! press; after Settings it returns to Clock.  The initial face is Clock and
//! the machine has no terminal state.

use vstd::prelude::*;

verus! {

/// The face the display currently shows.
#[derive(Clone, Copy, PartialEq, Eq, Structural, Debug)]
pub enum MenuState {
    Clock,
    Temperature,
    Settings,
}

impl MenuState {
    /// Position of the face in the cycle: Clock 0, Temperature 1, Settings 2.
    pub open spec fn index(self) -> int {
        match self {
            MenuState::Clock => 0,
            MenuState::Temperature => 1,
            MenuState::Settings => 2,
        }
    }

    /// The face at a given cycle position.
    pub open spec fn from_index(i: int) -> MenuState
        recommends 0 <= i < 3,
    {
        if i == 0 {
            MenuState::Clock
        } else if i == 1 {
            MenuState::Temperature
        } else {
            MenuState::Settings
        }
    }

    /// The next face in the fixed cyclic order.
    pub open spec fn spec_next(self) -> MenuState {
        MenuState::from_index((self.index() + 1) % 3)
    }

    /// The face reached from `self` after `n` toggle presses.
    pub open spec fn after_presses(self, n: nat) -> MenuState
        decreases n,
    {
        if n == 0 {
            self
        } else {
            self.after_presses((n - 1) as nat).spec_next()
        }
    }

    /// Advance one step in the cycle Clock -> Temperature -> Settings -> Clock.
    pub fn next(self) -> (m: MenuState)
        ensures
            m == self.spec_next(),
            m.index() == (self.index() + 1) % 3,
    {
        match self {
            MenuState::Clock => MenuState::Temperature,
            MenuState::Temperature => MenuState::Settings,
            MenuState::Settings => MenuState::Clock,
        }
    }
}

/// Law: the menu is cyclic — starting from Clock, `n` toggle presses land on
/// the face whose cycle position is `n` modulo 3.
pub proof fn lemma_menu_cyclic(n: nat)
    ensures
        MenuState::Clock.after_presses(n) == MenuState::from_index(n as int % 3),
        decreases n,
{
    if n > 0 {
        lemma_menu_cyclic((n - 1) as nat);
        assert(n as int % 3 == ((n - 1) % 3 + 1) % 3) by {
            vstd::arithmetic::div_mod::lemma_add_mod_noop(n - 1, 1, 3);
            assert(1int % 3 == 1);
        }
    }
}

} // verus!
