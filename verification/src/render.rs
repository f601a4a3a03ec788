//! The render dispatcher: for each page, the steps of one render cycle in
//! the order the caller performs them on the hardware.

use crate::page::Page;
use vstd::prelude::*;

verus! {

/// One step of a render cycle.
#[derive(Clone, Copy, Debug, PartialEq, Eq, Structural)]
pub enum RenderStep {
    /// Blank the whole display buffer.
    ClearBuffer,
    /// Take a reading from the clock peripheral.
    ReadClock,
    /// Draw the clockface of the reading just taken into the buffer.
    DrawClockface,
    /// Draw the image of the secondary page into the buffer, with its
    /// top-left corner at the given pixel.
    DrawImage { x: i32, y: i32 },
    /// Transfer the whole buffer to the display controller.
    Flush,
}

impl RenderStep {
    /// The step puts page content into the buffer.
    pub open spec fn is_draw(self) -> bool {
        self is DrawClockface || self is DrawImage
    }
}

/// The cycle of the clock page.
pub open spec fn clock_cycle() -> Seq<RenderStep> {
    seq![
        RenderStep::ClearBuffer,
        RenderStep::ReadClock,
        RenderStep::DrawClockface,
        RenderStep::Flush,
    ]
}

/// The cycle of the secondary page: its image fills the display from the
/// origin.
pub open spec fn secondary_cycle() -> Seq<RenderStep> {
    seq![RenderStep::ClearBuffer, RenderStep::DrawImage { x: 0, y: 0 }, RenderStep::Flush]
}

/// The cycle that renders `page`.
pub open spec fn cycle(page: Page) -> Seq<RenderStep> {
    match page {
        Page::Clock => clock_cycle(),
        Page::Secondary => secondary_cycle(),
    }
}

/// The steps that render the clock page.
pub fn render_clock() -> (steps: Vec<RenderStep>)
    ensures
        steps@ == clock_cycle(),
{
    let steps = vec![
        RenderStep::ClearBuffer,
        RenderStep::ReadClock,
        RenderStep::DrawClockface,
        RenderStep::Flush,
    ];
    assert(steps@ =~= clock_cycle());
    steps
}

/// The steps that render the secondary page.
pub fn render_secondary() -> (steps: Vec<RenderStep>)
    ensures
        steps@ == secondary_cycle(),
{
    let steps = vec![
        RenderStep::ClearBuffer,
        RenderStep::DrawImage { x: 0, y: 0 },
        RenderStep::Flush,
    ];
    assert(steps@ =~= secondary_cycle());
    steps
}

/// The steps that render `page`.
pub fn render(page: Page) -> (steps: Vec<RenderStep>)
    ensures
        steps@ == cycle(page),
{
    match page {
        Page::Clock => render_clock(),
        Page::Secondary => render_secondary(),
    }
}

/// Every cycle is framed: it starts by clearing the buffer, ends by
/// flushing it, clears and flushes nowhere else, and draws exactly once in
/// between.
pub proof fn cycle_is_clear_draw_flush(page: Page)
    ensures
        cycle(page).len() >= 3,
        forall|i: int|
            0 <= i < cycle(page).len() ==> (#[trigger] cycle(page)[i] == RenderStep::ClearBuffer
                <==> i == 0),
        forall|i: int|
            0 <= i < cycle(page).len() ==> (#[trigger] cycle(page)[i] == RenderStep::Flush <==> i
                == cycle(page).len() - 1),
        forall|i: int|
            0 <= i < cycle(page).len() ==> (#[trigger] cycle(page)[i].is_draw() <==> i
                == cycle(page).len() - 2),
{
}

/// A clockface is never drawn from a stale reading: wherever a cycle draws
/// the clockface, it has read the clock earlier in that same cycle.
pub proof fn clockface_is_drawn_from_a_reading_of_its_cycle(page: Page)
    ensures
        forall|i: int|
            0 <= i < cycle(page).len() && #[trigger] cycle(page)[i] == RenderStep::DrawClockface
                ==> exists|j: int| 0 <= j < i && #[trigger] cycle(page)[j] == RenderStep::ReadClock,
{
    assert forall|i: int|
        0 <= i < cycle(page).len() && #[trigger] cycle(page)[i]
            == RenderStep::DrawClockface implies exists|j: int|
        0 <= j < i && #[trigger] cycle(page)[j] == RenderStep::ReadClock by {
        assert(page == Page::Clock && i == 2);
        assert(cycle(page)[1] == RenderStep::ReadClock);
    }
}

} // verus!
