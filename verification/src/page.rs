//! The page state machine: which of the two screens is showing, and the one
//! rule that changes it.

use vstd::prelude::*;

verus! {

/// The screen currently shown.
#[derive(Clone, Copy, Debug, PartialEq, Eq, Structural)]
pub enum Page {
    /// The digital clockface, refreshed on every tick.
    Clock,
    /// The static secondary screen.
    Secondary,
}

impl Page {
    /// The page the device shows after start-up.
    pub open spec fn initial_spec() -> Page {
        Page::Clock
    }

    /// The other page.
    pub open spec fn toggled(self) -> Page {
        match self {
            Page::Clock => Page::Secondary,
            Page::Secondary => Page::Clock,
        }
    }

    /// The page the device shows after start-up.
    pub fn initial() -> (page: Page)
        ensures
            page == Page::initial_spec(),
    {
        Page::Clock
    }

    /// Switches to the other page.
    pub fn toggle(self) -> (next: Page)
        ensures
            next == self.toggled(),
    {
        match self {
            Page::Clock => Page::Secondary,
            Page::Secondary => Page::Clock,
        }
    }
}

/// Toggling always leaves the page it starts on, and toggling twice comes
/// back to it: the toggle is its own inverse.
pub proof fn toggle_is_its_own_inverse(page: Page)
    ensures
        page.toggled() != page,
        page.toggled().toggled() == page,
        Page::Clock.toggled() == Page::Secondary,
        Page::Secondary.toggled() == Page::Clock,
{
}

} // verus!
