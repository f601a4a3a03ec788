//! A model of the display and the clock, to say what the steps of a cycle
//! and the actions of a handler run leave on the glass.

use crate::clockface::clockface;
use crate::clockface::ClockfaceView;
use crate::dispatch::actions_for;
use crate::dispatch::is_tick;
use crate::dispatch::page_after;
use crate::dispatch::tick_on_clock_page_renders_once;
use crate::dispatch::Action;
use crate::dispatch::Pending;
use crate::dispatch::Source;
use crate::dispatch::TickPolicy;
use crate::geometry::Bounds;
use crate::page::Page;
use crate::render::cycle;
use crate::render::RenderStep;
use crate::time::Reading;
use vstd::prelude::*;

verus! {

/// What a draw step leaves in the display buffer.
pub enum Drawing {
    /// A clockface.
    Face(ClockfaceView),
    /// The image of the secondary page, with its top-left corner at the
    /// given pixel.
    Image { x: int, y: int },
}

/// The display and the clock as a render cycle acts on them.
pub struct Panel {
    /// What was drawn into the buffer since it was last cleared.
    pub buffer: Seq<Drawing>,
    /// What the glass shows: the buffer as of the last flush.
    pub shown: Seq<Drawing>,
    /// The latest reading taken from the clock, if any.
    pub reading: Option<Reading>,
    /// How often the clock was read.
    pub clock_reads: nat,
}

/// The panel after one step, on a display with the bounding box `bounds`
/// while the clock stands at `now`.
pub open spec fn after_step(panel: Panel, step: RenderStep, bounds: Bounds, now: Reading) -> Panel {
    match step {
        RenderStep::ClearBuffer => Panel { buffer: Seq::empty(), ..panel },
        RenderStep::ReadClock => Panel {
            reading: Some(now),
            clock_reads: panel.clock_reads + 1,
            ..panel
        },
        RenderStep::DrawClockface => match panel.reading {
            Some(reading) => Panel {
                buffer: panel.buffer.push(Drawing::Face(clockface(bounds, reading))),
                ..panel
            },
            None => panel,
        },
        RenderStep::DrawImage { x, y } => Panel {
            buffer: panel.buffer.push(Drawing::Image { x: x as int, y: y as int }),
            ..panel
        },
        RenderStep::Flush => Panel { shown: panel.buffer, ..panel },
    }
}

/// The panel after a sequence of steps, performed first to last.
pub open spec fn after_steps(
    panel: Panel,
    steps: Seq<RenderStep>,
    bounds: Bounds,
    now: Reading,
) -> Panel
    decreases steps.len(),
{
    if steps.len() == 0 {
        panel
    } else {
        after_step(after_steps(panel, steps.drop_last(), bounds, now), steps.last(), bounds, now)
    }
}

/// The panel after the caller has performed the actions, first to last, on
/// a display with the bounding box `bounds` while the clock stands at `now`.
/// Clearing a pending flag does not touch the panel.
pub open spec fn after_actions(
    panel: Panel,
    actions: Seq<Action>,
    bounds: Bounds,
    now: Reading,
) -> Panel
    decreases actions.len(),
{
    if actions.len() == 0 {
        panel
    } else {
        let earlier = after_actions(panel, actions.drop_last(), bounds, now);
        match actions.last() {
            Action::Render(page) => after_steps(earlier, cycle(page), bounds, now),
            Action::ClearInterrupt(_) => earlier,
        }
    }
}

/// Performing one more step after a sequence is performing the sequence
/// and then the step.
proof fn after_one_more_step(
    panel: Panel,
    steps: Seq<RenderStep>,
    step: RenderStep,
    bounds: Bounds,
    now: Reading,
)
    ensures
        after_steps(panel, steps.push(step), bounds, now) == after_step(
            after_steps(panel, steps, bounds, now),
            step,
            bounds,
            now,
        ),
{
    assert(steps.push(step).drop_last() =~= steps);
}

/// A cycle of the clock page reads the clock once and leaves on the glass
/// the clockface of that reading and nothing else, whatever the buffer held
/// and the glass showed before: also where it showed that same clockface.
pub proof fn clock_cycle_shows_fresh_reading(before: Panel, bounds: Bounds, now: Reading)
    ensures
        after_steps(before, cycle(Page::Clock), bounds, now).shown == seq![
            Drawing::Face(clockface(bounds, now)),
        ],
        after_steps(before, cycle(Page::Clock), bounds, now).clock_reads == before.clock_reads + 1,
{
    let none = Seq::<RenderStep>::empty();
    let clear = none.push(RenderStep::ClearBuffer);
    let read = clear.push(RenderStep::ReadClock);
    let draw = read.push(RenderStep::DrawClockface);
    let flush = draw.push(RenderStep::Flush);
    after_one_more_step(before, none, RenderStep::ClearBuffer, bounds, now);
    after_one_more_step(before, clear, RenderStep::ReadClock, bounds, now);
    after_one_more_step(before, read, RenderStep::DrawClockface, bounds, now);
    after_one_more_step(before, draw, RenderStep::Flush, bounds, now);
    assert(flush =~= cycle(Page::Clock));
    assert(after_steps(before, flush, bounds, now).shown =~= seq![
        Drawing::Face(clockface(bounds, now)),
    ]);
}

/// A cycle of the secondary page leaves the image on the glass and nothing
/// else, and never reads the clock: the count of reads and the latest
/// reading stay as they were, and the result does not depend on the time.
pub proof fn secondary_cycle_never_reads_clock(before: Panel, bounds: Bounds, now: Reading)
    ensures
        !cycle(Page::Secondary).contains(RenderStep::ReadClock),
        after_steps(before, cycle(Page::Secondary), bounds, now).shown == seq![
            Drawing::Image { x: 0, y: 0 },
        ],
        after_steps(before, cycle(Page::Secondary), bounds, now).clock_reads == before.clock_reads,
        after_steps(before, cycle(Page::Secondary), bounds, now).reading == before.reading,
{
    let none = Seq::<RenderStep>::empty();
    let clear = none.push(RenderStep::ClearBuffer);
    let draw = clear.push(RenderStep::DrawImage { x: 0, y: 0 });
    let flush = draw.push(RenderStep::Flush);
    after_one_more_step(before, none, RenderStep::ClearBuffer, bounds, now);
    after_one_more_step(before, clear, RenderStep::DrawImage { x: 0, y: 0 }, bounds, now);
    after_one_more_step(before, draw, RenderStep::Flush, bounds, now);
    assert(flush =~= cycle(Page::Secondary));
    assert(after_steps(before, flush, bounds, now).shown =~= seq![Drawing::Image { x: 0, y: 0 }]);
}

/// Performing one more action after a sequence is performing the sequence
/// and then the action.
proof fn after_one_more_action(
    panel: Panel,
    actions: Seq<Action>,
    action: Action,
    bounds: Bounds,
    now: Reading,
)
    ensures
        action matches Action::Render(page) ==> after_actions(
            panel,
            actions.push(action),
            bounds,
            now,
        ) == after_steps(after_actions(panel, actions, bounds, now), cycle(page), bounds, now),
        action is ClearInterrupt ==> after_actions(panel, actions.push(action), bounds, now)
            == after_actions(panel, actions, bounds, now),
{
    assert(actions.push(action).drop_last() =~= actions);
}

/// After a tick on the clock page the glass shows the clockface of the time
/// at that tick and nothing else, and the clock was read once for it. This
/// holds whatever the glass showed before: the time of the tick before
/// leaves no trace, and the same time twice is drawn in full twice.
pub proof fn tick_on_clock_page_shows_the_time(
    before: Panel,
    pending: Pending,
    policy: TickPolicy,
    bounds: Bounds,
    now: Reading,
)
    requires
        is_tick(pending),
    ensures
        after_actions(
            before,
            actions_for(Page::Clock, pending, policy),
            bounds,
            now,
        ).shown == seq![Drawing::Face(clockface(bounds, now))],
        after_actions(
            before,
            actions_for(Page::Clock, pending, policy),
            bounds,
            now,
        ).clock_reads == before.clock_reads + 1,
{
    tick_on_clock_page_renders_once(pending, policy);
    clock_cycle_shows_fresh_reading(before, bounds, now);
    let none = Seq::<Action>::empty();
    let render = none.push(Action::Render(Page::Clock));
    let button = render.push(Action::ClearInterrupt(Source::Button));
    let timer = button.push(Action::ClearInterrupt(Source::Timer));
    after_one_more_action(before, none, Action::Render(Page::Clock), bounds, now);
    after_one_more_action(before, render, Action::ClearInterrupt(Source::Button), bounds, now);
    after_one_more_action(before, button, Action::ClearInterrupt(Source::Timer), bounds, now);
    assert(timer =~= actions_for(Page::Clock, pending, policy));
}

/// After a validated press with no tick pending the glass shows the page
/// switched to: the image after a press on the clock page, for which the
/// clock is not read, and the clockface of the time of the press after a
/// press on the secondary page.
pub proof fn press_shows_the_other_page(
    before: Panel,
    page: Page,
    pending: Pending,
    policy: TickPolicy,
    bounds: Bounds,
    now: Reading,
)
    requires
        pending.button.pressed(),
        !pending.timer_set,
    ensures
        page == Page::Clock ==> after_actions(
            before,
            actions_for(page, pending, policy),
            bounds,
            now,
        ).shown == seq![Drawing::Image { x: 0, y: 0 }] && after_actions(
            before,
            actions_for(page, pending, policy),
            bounds,
            now,
        ).clock_reads == before.clock_reads,
        page == Page::Secondary ==> after_actions(
            before,
            actions_for(page, pending, policy),
            bounds,
            now,
        ).shown == seq![Drawing::Face(clockface(bounds, now))],
{
    clock_cycle_shows_fresh_reading(before, bounds, now);
    secondary_cycle_never_reads_clock(before, bounds, now);
    let none = Seq::<Action>::empty();
    let render = none.push(Action::Render(page.toggled()));
    let button = render.push(Action::ClearInterrupt(Source::Button));
    let timer = button.push(Action::ClearInterrupt(Source::Timer));
    after_one_more_action(before, none, Action::Render(page.toggled()), bounds, now);
    after_one_more_action(before, render, Action::ClearInterrupt(Source::Button), bounds, now);
    after_one_more_action(before, button, Action::ClearInterrupt(Source::Timer), bounds, now);
    assert(timer =~= actions_for(page, pending, policy));
}

/// The glass shows `page` and nothing else: one clockface for the clock
/// page, the image for the secondary page.
pub open spec fn shows(panel: Panel, page: Page) -> bool {
    &&& panel.shown.len() == 1
    &&& match page {
        Page::Clock => panel.shown[0] is Face,
        Page::Secondary => panel.shown[0] is Image,
    }
}

/// A render cycle of a page leaves that page on the glass.
pub proof fn cycle_shows_its_page(before: Panel, page: Page, bounds: Bounds, now: Reading)
    ensures
        shows(after_steps(before, cycle(page), bounds, now), page),
{
    clock_cycle_shows_fresh_reading(before, bounds, now);
    secondary_cycle_never_reads_clock(before, bounds, now);
}

/// The glass follows the page: where the glass shows the current page
/// before a run of the handler, it shows the current page after it,
/// whatever was pending and under either policy. A run that switches the
/// page never leaves the old page on the glass.
pub proof fn glass_follows_the_page(
    before: Panel,
    page: Page,
    pending: Pending,
    policy: TickPolicy,
    bounds: Bounds,
    now: Reading,
)
    requires
        shows(before, page),
    ensures
        shows(
            after_actions(before, actions_for(page, pending, policy), bounds, now),
            page_after(page, pending),
        ),
{
    let next = page_after(page, pending);
    let none = Seq::<Action>::empty();
    let press = pending.button.pressed();
    let tick = pending.timer_set && policy.renders(next);
    let first = if press {
        none.push(Action::Render(next))
    } else {
        none
    };
    let second = if tick {
        first.push(Action::Render(next))
    } else {
        first
    };
    let button = second.push(Action::ClearInterrupt(Source::Button));
    let timer = button.push(Action::ClearInterrupt(Source::Timer));
    if press {
        after_one_more_action(before, none, Action::Render(next), bounds, now);
        cycle_shows_its_page(before, next, bounds, now);
    }
    let served = after_actions(before, first, bounds, now);
    if tick {
        after_one_more_action(before, first, Action::Render(next), bounds, now);
        cycle_shows_its_page(served, next, bounds, now);
    }
    after_one_more_action(before, second, Action::ClearInterrupt(Source::Button), bounds, now);
    after_one_more_action(before, button, Action::ClearInterrupt(Source::Timer), bounds, now);
    assert(timer =~= actions_for(page, pending, policy));
}

} // verus!
