//! The mode flag: which of the two backends currently serves the focused field.

use vstd::prelude::*;

verus! {

/// Whether the editor backend (rather than the pass-through backend) is active.
///
/// The flag is owned by the coordinator and changed only by its dispatch.
#[derive(Clone, Copy, Debug, PartialEq, Eq, Structural)]
pub struct VimeState {
    active: bool,
}

impl View for VimeState {
    type V = bool;

    closed spec fn view(&self) -> bool {
        self.active
    }
}

impl VimeState {
    /// A flag that starts out as `active`.
    pub fn new(active: bool) -> (s: Self)
        ensures
            s@ == active,
    {
        Self { active }
    }

    /// Whether the editor backend is active.
    pub fn is_active(&self) -> (b: bool)
        ensures
            b == self@,
    {
        self.active
    }

    /// Makes the pass-through backend the active one.
    pub fn inactivate(&mut self)
        ensures
            !final(self)@,
    {
        self.active = false;
    }

    /// Flips the flag and returns the value it had before.
    pub fn toggle(&mut self) -> (was: bool)
        ensures
            was == old(self)@,
            final(self)@ == !old(self)@,
    {
        let was = self.active;
        self.active = !was;
        was
    }
}

} // verus!
