use espwatch::page::Page;
use espwatch::render::render;
use espwatch::render::render_clock;
use espwatch::render::render_secondary;
use espwatch::render::RenderStep;

#[test]
fn clock_cycle_clears_reads_draws_flushes() {
    assert_eq!(
        render_clock(),
        vec![
            RenderStep::ClearBuffer,
            RenderStep::ReadClock,
            RenderStep::DrawClockface,
            RenderStep::Flush,
        ]
    );
}

#[test]
fn secondary_cycle_clears_draws_flushes() {
    assert_eq!(
        render_secondary(),
        vec![RenderStep::ClearBuffer, RenderStep::DrawImage { x: 0, y: 0 }, RenderStep::Flush]
    );
}

#[test]
fn render_picks_the_cycle_of_the_page() {
    assert_eq!(render(Page::Clock), render_clock());
    assert_eq!(render(Page::Secondary), render_secondary());
}

#[test]
fn secondary_cycle_never_reads_the_clock() {
    assert!(!render(Page::Secondary).contains(&RenderStep::ReadClock));
    assert!(!render(Page::Secondary).contains(&RenderStep::DrawClockface));
}

#[test]
fn clock_cycle_reads_the_clock_once_before_drawing() {
    let steps = render(Page::Clock);
    let reads: Vec<usize> =
        (0..steps.len()).filter(|&i| steps[i] == RenderStep::ReadClock).collect();
    let draws: Vec<usize> =
        (0..steps.len()).filter(|&i| steps[i] == RenderStep::DrawClockface).collect();
    assert_eq!(reads.len(), 1);
    assert_eq!(draws.len(), 1);
    assert!(reads[0] < draws[0]);
}

#[test]
fn every_cycle_is_framed_by_clear_and_flush() {
    for page in [Page::Clock, Page::Secondary] {
        let steps = render(page);
        assert_eq!(steps.first(), Some(&RenderStep::ClearBuffer));
        assert_eq!(steps.last(), Some(&RenderStep::Flush));
        assert_eq!(steps.iter().filter(|&&s| s == RenderStep::ClearBuffer).count(), 1);
        assert_eq!(steps.iter().filter(|&&s| s == RenderStep::Flush).count(), 1);
        let draws = steps
            .iter()
            .filter(|&&s| matches!(s, RenderStep::DrawClockface | RenderStep::DrawImage { .. }))
            .count();
        assert_eq!(draws, 1);
    }
}

#[test]
fn repeated_renders_give_the_full_cycle_each_time() {
    let first = render(Page::Clock);
    let second = render(Page::Clock);
    assert_eq!(first, second);
    assert_eq!(second.len(), 4);
}
