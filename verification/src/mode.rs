//! The interface's top-level screens and their cyclic order.

use vstd::prelude::*;

verus! {

/// Which screen the interface shows.
#[derive(Clone, Copy, Debug, PartialEq, Eq, Structural)]
pub enum Mode {
    Home,
    Chat,
    Settings,
    Exit,
}

impl Mode {
    /// The tab position of each screen.
    pub open spec fn spec_index(self) -> int {
        match self {
            Mode::Home => 0,
            Mode::Chat => 1,
            Mode::Settings => 2,
            Mode::Exit => 3,
        }
    }

    /// The screen that follows this one, cyclically.
    pub open spec fn spec_next(self) -> Mode {
        match self {
            Mode::Home => Mode::Chat,
            Mode::Chat => Mode::Settings,
            Mode::Settings => Mode::Exit,
            Mode::Exit => Mode::Home,
        }
    }

    /// The tab position of this screen.
    pub fn to_usize(&self) -> (r: usize)
        ensures
            r == self.spec_index(),
    {
        match self {
            Mode::Home => 0,
            Mode::Chat => 1,
            Mode::Settings => 2,
            Mode::Exit => 3,
        }
    }

    /// The screen that follows this one, cyclically.
    pub fn next_mode(&self) -> (r: Mode)
        ensures
            r == self.spec_next(),
            r.spec_index() == (self.spec_index() + 1) % 4,
    {
        match self {
            Mode::Home => Mode::Chat,
            Mode::Chat => Mode::Settings,
            Mode::Settings => Mode::Exit,
            Mode::Exit => Mode::Home,
        }
    }
}

} // verus!
