//! The shared state registry: one slot per peripheral handle, empty until
//! start-up fills it, and the current page. The caller keeps the registry
//! behind its critical section; this module says what each access does.

use crate::dispatch::button_actions;
use crate::dispatch::page_after_button;
use crate::dispatch::service_button;
use crate::dispatch::service_timer;
use crate::dispatch::timer_actions;
use crate::dispatch::Action;
use crate::dispatch::ButtonStatus;
use crate::dispatch::TickPolicy;
use crate::page::Page;
use vstd::prelude::*;

verus! {

/// A place for one peripheral handle. It is empty until a handle is put in.
pub struct Slot<T> {
    handle: Option<T>,
}

impl<T> Slot<T> {
    /// What the slot holds.
    pub closed spec fn held(&self) -> Option<T> {
        self.handle
    }

    /// An empty slot.
    pub fn empty() -> (slot: Slot<T>)
        ensures
            slot.held() is None,
    {
        Slot { handle: None }
    }

    /// Tells whether a handle has been put in.
    pub fn is_populated(&self) -> (yes: bool)
        ensures
            yes == (self.held() is Some),
    {
        self.handle.is_some()
    }

    /// Puts a handle in and hands back the one it displaces, if any.
    pub fn replace(&mut self, handle: T) -> (displaced: Option<T>)
        ensures
            final(self).held() == Some(handle),
            displaced == old(self).held(),
    {
        let displaced = self.handle.take();
        self.handle = Some(handle);
        displaced
    }

    /// The handle in the slot. An empty slot cannot be read.
    pub fn get(&self) -> (handle: &T)
        requires
            self.held() is Some,
        ensures
            self.held() == Some(*handle),
    {
        self.handle.as_ref().unwrap()
    }

    /// The handle in the slot, for use. An empty slot cannot be read, and
    /// the slot holds afterwards whatever the caller left in the handle.
    pub fn get_mut(&mut self) -> (handle: &mut T)
        requires
            old(self).held() is Some,
        ensures
            old(self).held() == Some(*handle),
            final(self).held() == Some(*final(handle)),
    {
        self.handle.as_mut().unwrap()
    }

    /// The handle in the slot for use, or nothing where the slot is empty:
    /// never a stand-in.
    pub fn try_get_mut(&mut self) -> (handle: Option<&mut T>)
        ensures
            handle is Some <==> old(self).held() is Some,
            handle matches Some(h) ==> old(self).held() == Some(*h) && final(self).held() == Some(
                *final(h),
            ),
            handle is None ==> final(self).held() is None,
    {
        self.handle.as_mut()
    }
}

/// The current page, kept so that nothing but the serving of the button
/// can change it.
pub struct PageState {
    page: Page,
}

impl PageState {
    /// The current page.
    pub closed spec fn current(&self) -> Page {
        self.page
    }

    /// The state at start-up: the initial page.
    pub fn new() -> (state: PageState)
        ensures
            state.current() == Page::initial_spec(),
    {
        PageState { page: Page::initial() }
    }

    /// The current page.
    pub fn page(&self) -> (page: Page)
        ensures
            page == self.current(),
    {
        self.page
    }

    /// Serves the button on the current page: a validated press switches
    /// the page, anything else leaves it.
    pub fn service_button(&mut self, button: ButtonStatus) -> (actions: Vec<Action>)
        ensures
            final(self).current() == page_after_button(old(self).current(), button),
            actions@ == button_actions(old(self).current(), button),
            !button.is_low ==> final(self).current() == old(self).current(),
    {
        let (next, actions) = service_button(self.page, button);
        self.page = next;
        actions
    }

    /// Serves the tick on the current page, which it leaves as it is.
    pub fn service_timer(&self, timer_set: bool, policy: TickPolicy) -> (actions: Vec<Action>)
        ensures
            actions@ == timer_actions(self.current(), timer_set, policy),
    {
        service_timer(self.page, timer_set, policy)
    }
}

/// The registry: the four peripheral slots and the current page. The type
/// parameters are the handle types of the display (`D`), the periodic timer
/// (`T`), the button input (`B`) and the clock peripheral (`C`).
pub struct Registry<D, T, B, C> {
    /// The display handle.
    pub display: Slot<D>,
    /// The handle of the periodic timer.
    pub timer: Slot<T>,
    /// The handle of the button input.
    pub button: Slot<B>,
    /// The handle of the clock peripheral.
    pub clock: Slot<C>,
    /// The current page.
    pub page: PageState,
}

impl<D, T, B, C> Registry<D, T, B, C> {
    /// All four slots are populated: interrupts may be served.
    pub open spec fn ready(&self) -> bool {
        &&& self.display.held() is Some
        &&& self.timer.held() is Some
        &&& self.button.held() is Some
        &&& self.clock.held() is Some
    }

    /// A registry with all four slots empty, showing the initial page.
    pub fn new() -> (registry: Self)
        ensures
            registry.display.held() is None,
            registry.timer.held() is None,
            registry.button.held() is None,
            registry.clock.held() is None,
            registry.page.current() == Page::initial_spec(),
    {
        Registry {
            display: Slot::empty(),
            timer: Slot::empty(),
            button: Slot::empty(),
            clock: Slot::empty(),
            page: PageState::new(),
        }
    }

    /// Tells whether all four slots are populated.
    pub fn is_ready(&self) -> (yes: bool)
        ensures
            yes == self.ready(),
    {
        self.display.is_populated() && self.timer.is_populated() && self.button.is_populated()
            && self.clock.is_populated()
    }
}

} // verus!
