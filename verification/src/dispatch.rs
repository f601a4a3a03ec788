//! The interrupt dispatcher: one handler for the button edge and the
//! periodic tick. It decides, from what it finds pending, which page is
//! current afterwards and what the caller has to do, in order.

use crate::page::Page;
use crate::render::cycle;
use crate::render::RenderStep;
use vstd::prelude::*;

verus! {

/// What the button input reports when the handler looks at it.
#[derive(Clone, Copy, Debug, PartialEq, Eq, Structural)]
pub struct ButtonStatus {
    /// The edge interrupt of the button line is pending.
    pub interrupt_set: bool,
    /// The line reads low: with its pull-up, the button is held down.
    pub is_low: bool,
}

impl ButtonStatus {
    /// The status is a validated press: an edge is pending and the button is
    /// still down. An edge with the line high again is a release or noise.
    pub open spec fn pressed(self) -> bool {
        self.interrupt_set && self.is_low
    }

    /// Tells whether the status is a validated press.
    pub fn is_pressed(&self) -> (yes: bool)
        ensures
            yes == self.pressed(),
    {
        self.interrupt_set && self.is_low
    }
}

/// Which pages a periodic tick redraws.
#[derive(Clone, Copy, Debug, PartialEq, Eq, Structural)]
pub enum TickPolicy {
    /// A tick redraws whatever page is current.
    EveryPage,
    /// A tick redraws the clock page and leaves the secondary page alone.
    ClockOnly,
}

impl TickPolicy {
    /// A tick redraws `page` under this policy.
    pub open spec fn renders(self, page: Page) -> bool {
        self == TickPolicy::EveryPage || page == Page::Clock
    }

    /// Tells whether a tick redraws `page` under this policy.
    pub fn should_render(self, page: Page) -> (yes: bool)
        ensures
            yes == self.renders(page),
    {
        match self {
            TickPolicy::EveryPage => true,
            TickPolicy::ClockOnly => match page {
                Page::Clock => true,
                Page::Secondary => false,
            },
        }
    }
}

/// An interrupt source of the handler.
#[derive(Clone, Copy, Debug, PartialEq, Eq, Structural)]
pub enum Source {
    /// The edge interrupt of the button line.
    Button,
    /// The interrupt of the periodic timer.
    Timer,
}

/// Something the handler asks its caller to do.
#[derive(Clone, Copy, Debug, PartialEq, Eq, Structural)]
pub enum Action {
    /// Run one render cycle of the page.
    Render(Page),
    /// Clear the pending flag of the source.
    ClearInterrupt(Source),
}

/// What one run of the handler finds pending.
#[derive(Clone, Copy, Debug, PartialEq, Eq, Structural)]
pub struct Pending {
    /// The button input, read first.
    pub button: ButtonStatus,
    /// The tick interrupt is pending, read once the button has been served.
    pub timer_set: bool,
}

/// What one run of the handler decides.
#[derive(Debug, PartialEq, Eq)]
pub struct Dispatch {
    /// The current page after the run.
    pub page: Page,
    /// What the caller has to do, first to last.
    pub actions: Vec<Action>,
}

/// The page after the button has been served: the other page on a validated
/// press, the same page otherwise.
pub open spec fn page_after_button(page: Page, button: ButtonStatus) -> Page {
    if button.pressed() {
        page.toggled()
    } else {
        page
    }
}

/// What serving the button asks for: on a validated press one render of the
/// page switched to, else nothing.
pub open spec fn button_actions(page: Page, button: ButtonStatus) -> Seq<Action> {
    if button.pressed() {
        seq![Action::Render(page.toggled())]
    } else {
        Seq::empty()
    }
}

/// What serving the tick asks for: one render of the current page where a
/// tick is pending and the policy redraws that page, else nothing.
pub open spec fn timer_actions(page: Page, timer_set: bool, policy: TickPolicy) -> Seq<Action> {
    if timer_set && policy.renders(page) {
        seq![Action::Render(page)]
    } else {
        Seq::empty()
    }
}

/// The end of every run: both pending flags are cleared, the button's first.
pub open spec fn acknowledgements() -> Seq<Action> {
    seq![Action::ClearInterrupt(Source::Button), Action::ClearInterrupt(Source::Timer)]
}

/// The page after one run of the handler. Only the button can change it.
pub open spec fn page_after(page: Page, pending: Pending) -> Page {
    page_after_button(page, pending.button)
}

/// The actions of one run of the handler: the button is served first, then
/// the tick on the page that the button left, then both flags are cleared.
pub open spec fn actions_for(page: Page, pending: Pending, policy: TickPolicy) -> Seq<Action> {
    button_actions(page, pending.button) + timer_actions(
        page_after_button(page, pending.button),
        pending.timer_set,
        policy,
    ) + acknowledgements()
}

/// Serves the button: switches the page on a validated press and asks for
/// the new page to be rendered.
pub fn service_button(page: Page, button: ButtonStatus) -> (served: (Page, Vec<Action>))
    ensures
        served.0 == page_after_button(page, button),
        served.1@ == button_actions(page, button),
        !button.is_low ==> served.0 == page && served.1@.len() == 0,
{
    if button.is_pressed() {
        let next = page.toggle();
        let actions = vec![Action::Render(next)];
        assert(actions@ =~= button_actions(page, button));
        (next, actions)
    } else {
        (page, Vec::new())
    }
}

/// Serves the tick: asks for the current page to be rendered where a tick
/// is pending and the policy redraws that page.
pub fn service_timer(page: Page, timer_set: bool, policy: TickPolicy) -> (actions: Vec<Action>)
    ensures
        actions@ == timer_actions(page, timer_set, policy),
{
    if timer_set && policy.should_render(page) {
        let actions = vec![Action::Render(page)];
        assert(actions@ =~= timer_actions(page, timer_set, policy));
        actions
    } else {
        Vec::new()
    }
}

/// Ends a run: asks for both pending flags to be cleared, whichever source
/// fired.
pub fn acknowledge() -> (actions: Vec<Action>)
    ensures
        actions@ == acknowledgements(),
{
    let actions = vec![
        Action::ClearInterrupt(Source::Button),
        Action::ClearInterrupt(Source::Timer),
    ];
    assert(actions@ =~= acknowledgements());
    actions
}

/// One run of the interrupt handler on the current page.
pub fn handler(page: Page, pending: Pending, policy: TickPolicy) -> (run: Dispatch)
    ensures
        run.page == page_after(page, pending),
        run.actions@ == actions_for(page, pending, policy),
        !pending.button.is_low ==> run.page == page,
        run.actions@.len() >= 2,
        run.actions@.subrange(run.actions@.len() - 2, run.actions@.len() as int)
            == acknowledgements(),
{
    let (next, mut actions) = service_button(page, pending.button);
    let mut tick = service_timer(next, pending.timer_set, policy);
    actions.append(&mut tick);
    let mut clear = acknowledge();
    actions.append(&mut clear);
    proof {
        handler_always_acknowledges(page, pending, policy);
    }
    Dispatch { page: next, actions }
}

/// Every run ends by clearing both pending flags, whatever was pending and
/// whatever was served before.
pub proof fn handler_always_acknowledges(page: Page, pending: Pending, policy: TickPolicy)
    ensures
        2 <= actions_for(page, pending, policy).len() <= 4,
        actions_for(page, pending, policy).subrange(
            actions_for(page, pending, policy).len() - 2,
            actions_for(page, pending, policy).len() as int,
        ) == acknowledgements(),
{
    let a = actions_for(page, pending, policy);
    assert(a.subrange(a.len() - 2, a.len() as int) =~= acknowledgements());
}

/// The page after a sequence of runs, each starting from the page the run
/// before it left.
pub open spec fn page_after_all(page: Page, runs: Seq<Pending>) -> Page
    decreases runs.len(),
{
    if runs.len() == 0 {
        page
    } else {
        page_after(page_after_all(page, runs.drop_last()), runs.last())
    }
}

/// The actions of a sequence of runs, one run after the other.
pub open spec fn actions_for_all(page: Page, runs: Seq<Pending>, policy: TickPolicy) -> Seq<
    Action,
>
    decreases runs.len(),
{
    if runs.len() == 0 {
        Seq::empty()
    } else {
        actions_for_all(page, runs.drop_last(), policy) + actions_for(
            page_after_all(page, runs.drop_last()),
            runs.last(),
            policy,
        )
    }
}

/// The run was caused by the tick alone: the tick is pending and the button
/// shows no validated press.
pub open spec fn is_tick(pending: Pending) -> bool {
    pending.timer_set && !pending.button.pressed()
}

/// A validated press always leaves the page it found, and a second one
/// returns to it: from the clock page the first press shows the secondary
/// page and the second shows the clock again.
pub proof fn two_presses_return(page: Page, first: Pending, second: Pending)
    requires
        first.button.pressed(),
        second.button.pressed(),
    ensures
        page_after(page, first) == page.toggled(),
        page_after(page, first) != page,
        page_after(page_after(page, first), second) == page,
        page_after(Page::Clock, first) == Page::Secondary,
        page_after(page_after(Page::Clock, first), second) == Page::Clock,
{
}

/// A button interrupt that finds the line high changes nothing on the
/// button's account: the page stays and no render is asked for it. What is
/// left of the run is the tick and the clearing of the flags.
pub proof fn edge_without_press_keeps_page(page: Page, pending: Pending, policy: TickPolicy)
    requires
        !pending.button.is_low,
    ensures
        page_after(page, pending) == page,
        actions_for(page, pending, policy) == timer_actions(page, pending.timer_set, policy)
            + acknowledgements(),
{
    assert(actions_for(page, pending, policy) =~= timer_actions(page, pending.timer_set, policy)
        + acknowledgements());
}

/// Nothing but a validated press changes the page: not a tick, not an edge
/// without a press, not the policy.
pub proof fn page_changes_only_on_press(page: Page, pending: Pending)
    ensures
        page_after(page, pending) != page <==> pending.button.pressed(),
{
}

/// Where a press and a tick are pending together, the button is served
/// first: the page switches, is rendered on the button's account, and the
/// tick then redraws the page switched to, where the policy redraws it.
pub proof fn button_is_served_before_tick(page: Page, pending: Pending, policy: TickPolicy)
    requires
        pending.button.pressed(),
        pending.timer_set,
    ensures
        policy.renders(page.toggled()) ==> actions_for(page, pending, policy) == seq![
            Action::Render(page.toggled()),
            Action::Render(page.toggled()),
            Action::ClearInterrupt(Source::Button),
            Action::ClearInterrupt(Source::Timer),
        ],
        !policy.renders(page.toggled()) ==> actions_for(page, pending, policy) == seq![
            Action::Render(page.toggled()),
            Action::ClearInterrupt(Source::Button),
            Action::ClearInterrupt(Source::Timer),
        ],
{
    if policy.renders(page.toggled()) {
        assert(actions_for(page, pending, policy) =~= seq![
            Action::Render(page.toggled()),
            Action::Render(page.toggled()),
            Action::ClearInterrupt(Source::Button),
            Action::ClearInterrupt(Source::Timer),
        ]);
    } else {
        assert(actions_for(page, pending, policy) =~= seq![
            Action::Render(page.toggled()),
            Action::ClearInterrupt(Source::Button),
            Action::ClearInterrupt(Source::Timer),
        ]);
    }
}

/// A tick on the clock page asks for exactly one render of the clock page,
/// under either policy, and leaves the page as it is. That render is one
/// cycle of clearing, reading the clock, drawing and flushing.
pub proof fn tick_on_clock_page_renders_once(pending: Pending, policy: TickPolicy)
    requires
        is_tick(pending),
    ensures
        page_after(Page::Clock, pending) == Page::Clock,
        actions_for(Page::Clock, pending, policy) == seq![
            Action::Render(Page::Clock),
            Action::ClearInterrupt(Source::Button),
            Action::ClearInterrupt(Source::Timer),
        ],
        cycle(Page::Clock) == seq![
            RenderStep::ClearBuffer,
            RenderStep::ReadClock,
            RenderStep::DrawClockface,
            RenderStep::Flush,
        ],
{
    assert(actions_for(Page::Clock, pending, policy) =~= seq![
        Action::Render(Page::Clock),
        Action::ClearInterrupt(Source::Button),
        Action::ClearInterrupt(Source::Timer),
    ]);
}

/// Over any sequence of ticks that starts on the clock page, the page stays
/// the clock page and every tick asks for one render of it, no more and no
/// fewer: the `i`-th run contributes one render and the two clearings, and
/// nothing is carried from one tick to the next.
pub proof fn every_tick_on_clock_page_renders_once(runs: Seq<Pending>, policy: TickPolicy)
    requires
        forall|i: int| 0 <= i < runs.len() ==> is_tick(#[trigger] runs[i]),
    ensures
        page_after_all(Page::Clock, runs) == Page::Clock,
        actions_for_all(Page::Clock, runs, policy).len() == 3 * runs.len(),
        forall|i: int|
            0 <= i < runs.len() ==> {
                &&& #[trigger] actions_for_all(Page::Clock, runs, policy)[3 * i] == Action::Render(
                    Page::Clock,
                )
                &&& actions_for_all(Page::Clock, runs, policy)[3 * i + 1]
                    == Action::ClearInterrupt(Source::Button)
                &&& actions_for_all(Page::Clock, runs, policy)[3 * i + 2]
                    == Action::ClearInterrupt(Source::Timer)
            },
    decreases runs.len(),
{
    if runs.len() > 0 {
        let earlier = runs.drop_last();
        assert forall|i: int| 0 <= i < earlier.len() implies is_tick(#[trigger] earlier[i]) by {
            assert(earlier[i] == runs[i]);
        }
        every_tick_on_clock_page_renders_once(earlier, policy);
        tick_on_clock_page_renders_once(runs.last(), policy);
        let all = actions_for_all(Page::Clock, runs, policy);
        let before = actions_for_all(Page::Clock, earlier, policy);
        assert(all == before + actions_for(Page::Clock, runs.last(), policy));
        assert forall|i: int| 0 <= i < runs.len() implies {
            &&& #[trigger] all[3 * i] == Action::Render(Page::Clock)
            &&& all[3 * i + 1] == Action::ClearInterrupt(Source::Button)
            &&& all[3 * i + 2] == Action::ClearInterrupt(Source::Timer)
        } by {
            if i < earlier.len() {
                assert(all[3 * i] == before[3 * i]);
                assert(all[3 * i + 1] == before[3 * i + 1]);
                assert(all[3 * i + 2] == before[3 * i + 2]);
            }
        }
    }
}

} // verus!
