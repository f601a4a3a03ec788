use espwatch::dispatch::acknowledge;
use espwatch::dispatch::handler;
use espwatch::dispatch::service_button;
use espwatch::dispatch::service_timer;
use espwatch::dispatch::Action;
use espwatch::dispatch::ButtonStatus;
use espwatch::dispatch::Pending;
use espwatch::dispatch::Source;
use espwatch::dispatch::TickPolicy;
use espwatch::page::Page;

const PRESS: ButtonStatus = ButtonStatus { interrupt_set: true, is_low: true };
const RELEASE: ButtonStatus = ButtonStatus { interrupt_set: true, is_low: false };
const HELD: ButtonStatus = ButtonStatus { interrupt_set: false, is_low: true };
const IDLE: ButtonStatus = ButtonStatus { interrupt_set: false, is_low: false };

fn clears() -> Vec<Action> {
    vec![Action::ClearInterrupt(Source::Button), Action::ClearInterrupt(Source::Timer)]
}

#[test]
fn initial_page_is_the_clock() {
    assert_eq!(Page::initial(), Page::Clock);
}

#[test]
fn toggle_is_its_own_inverse() {
    assert_eq!(Page::Clock.toggle(), Page::Secondary);
    assert_eq!(Page::Secondary.toggle(), Page::Clock);
    assert_eq!(Page::Clock.toggle().toggle(), Page::Clock);
    assert_eq!(Page::Secondary.toggle().toggle(), Page::Secondary);
}

#[test]
fn press_is_an_edge_with_the_line_low() {
    assert!(PRESS.is_pressed());
    assert!(!RELEASE.is_pressed());
    assert!(!HELD.is_pressed());
    assert!(!IDLE.is_pressed());
}

#[test]
fn two_presses_go_to_secondary_and_back() {
    let pending = Pending { button: PRESS, timer_set: false };
    let first = handler(Page::initial(), pending, TickPolicy::EveryPage);
    assert_eq!(first.page, Page::Secondary);
    let mut expected = vec![Action::Render(Page::Secondary)];
    expected.extend(clears());
    assert_eq!(first.actions, expected);
    let second = handler(first.page, pending, TickPolicy::EveryPage);
    assert_eq!(second.page, Page::Clock);
    let mut expected = vec![Action::Render(Page::Clock)];
    expected.extend(clears());
    assert_eq!(second.actions, expected);
}

#[test]
fn release_edge_does_not_change_the_page() {
    for page in [Page::Clock, Page::Secondary] {
        for policy in [TickPolicy::EveryPage, TickPolicy::ClockOnly] {
            let run = handler(page, Pending { button: RELEASE, timer_set: false }, policy);
            assert_eq!(run.page, page);
            assert_eq!(run.actions, clears());
        }
    }
}

#[test]
fn low_line_without_an_edge_does_not_change_the_page() {
    let run = handler(Page::Clock, Pending { button: HELD, timer_set: false }, TickPolicy::EveryPage);
    assert_eq!(run.page, Page::Clock);
    assert_eq!(run.actions, clears());
}

#[test]
fn nothing_pending_still_clears_both_flags() {
    let run = handler(Page::Secondary, Pending { button: IDLE, timer_set: false }, TickPolicy::ClockOnly);
    assert_eq!(run.page, Page::Secondary);
    assert_eq!(run.actions, clears());
}

#[test]
fn every_tick_on_the_clock_page_renders_once() {
    for policy in [TickPolicy::EveryPage, TickPolicy::ClockOnly] {
        let mut page = Page::Clock;
        for _ in 0..5 {
            let run = handler(page, Pending { button: IDLE, timer_set: true }, policy);
            let mut expected = vec![Action::Render(Page::Clock)];
            expected.extend(clears());
            assert_eq!(run.actions, expected);
            assert_eq!(run.page, Page::Clock);
            page = run.page;
        }
    }
}

#[test]
fn tick_with_a_release_edge_renders_once() {
    let run = handler(Page::Clock, Pending { button: RELEASE, timer_set: true }, TickPolicy::ClockOnly);
    let mut expected = vec![Action::Render(Page::Clock)];
    expected.extend(clears());
    assert_eq!(run.actions, expected);
    assert_eq!(run.page, Page::Clock);
}

#[test]
fn tick_on_the_secondary_page_follows_the_policy() {
    let pending = Pending { button: IDLE, timer_set: true };
    let every = handler(Page::Secondary, pending, TickPolicy::EveryPage);
    let mut expected = vec![Action::Render(Page::Secondary)];
    expected.extend(clears());
    assert_eq!(every.actions, expected);
    assert_eq!(every.page, Page::Secondary);
    let clock_only = handler(Page::Secondary, pending, TickPolicy::ClockOnly);
    assert_eq!(clock_only.actions, clears());
    assert_eq!(clock_only.page, Page::Secondary);
}

#[test]
fn press_and_tick_together_serve_the_button_first() {
    let pending = Pending { button: PRESS, timer_set: true };
    let run = handler(Page::Clock, pending, TickPolicy::EveryPage);
    assert_eq!(run.page, Page::Secondary);
    let mut expected = vec![Action::Render(Page::Secondary), Action::Render(Page::Secondary)];
    expected.extend(clears());
    assert_eq!(run.actions, expected);

    let run = handler(Page::Secondary, pending, TickPolicy::ClockOnly);
    assert_eq!(run.page, Page::Clock);
    let mut expected = vec![Action::Render(Page::Clock), Action::Render(Page::Clock)];
    expected.extend(clears());
    assert_eq!(run.actions, expected);
}

#[test]
fn press_and_tick_together_skip_the_tick_where_the_policy_says_so() {
    let pending = Pending { button: PRESS, timer_set: true };
    let run = handler(Page::Clock, pending, TickPolicy::ClockOnly);
    assert_eq!(run.page, Page::Secondary);
    let mut expected = vec![Action::Render(Page::Secondary)];
    expected.extend(clears());
    assert_eq!(run.actions, expected);
}

#[test]
fn every_run_ends_with_both_clears() {
    for page in [Page::Clock, Page::Secondary] {
        for button in [PRESS, RELEASE, HELD, IDLE] {
            for timer_set in [false, true] {
                for policy in [TickPolicy::EveryPage, TickPolicy::ClockOnly] {
                    let run = handler(page, Pending { button, timer_set }, policy);
                    let n = run.actions.len();
                    assert!((2..=4).contains(&n));
                    assert_eq!(run.actions[n - 2..], clears()[..]);
                    assert_eq!(run.page != page, button.is_pressed());
                }
            }
        }
    }
}

#[test]
fn handler_is_its_three_services_in_order() {
    for page in [Page::Clock, Page::Secondary] {
        for button in [PRESS, RELEASE, HELD, IDLE] {
            for timer_set in [false, true] {
                for policy in [TickPolicy::EveryPage, TickPolicy::ClockOnly] {
                    let (next, mut actions) = service_button(page, button);
                    actions.extend(service_timer(next, timer_set, policy));
                    actions.extend(acknowledge());
                    let run = handler(page, Pending { button, timer_set }, policy);
                    assert_eq!(run.page, next);
                    assert_eq!(run.actions, actions);
                }
            }
        }
    }
}

#[test]
fn policy_table() {
    assert!(TickPolicy::EveryPage.should_render(Page::Clock));
    assert!(TickPolicy::EveryPage.should_render(Page::Secondary));
    assert!(TickPolicy::ClockOnly.should_render(Page::Clock));
    assert!(!TickPolicy::ClockOnly.should_render(Page::Secondary));
}
