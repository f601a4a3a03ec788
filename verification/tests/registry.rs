use espwatch::dispatch::Action;
use espwatch::dispatch::ButtonStatus;
use espwatch::dispatch::TickPolicy;
use espwatch::page::Page;
use espwatch::registry::PageState;
use espwatch::registry::Registry;
use espwatch::registry::Slot;

#[test]
fn slot_starts_empty() {
    let mut slot: Slot<u32> = Slot::empty();
    assert!(!slot.is_populated());
    assert!(slot.try_get_mut().is_none());
}

#[test]
fn slot_holds_what_was_put_in() {
    let mut slot: Slot<&str> = Slot::empty();
    assert_eq!(slot.replace("display"), None);
    assert!(slot.is_populated());
    assert_eq!(*slot.get(), "display");
    assert_eq!(*slot.get_mut(), "display");
}

#[test]
fn slot_hands_back_what_it_displaces() {
    let mut slot: Slot<u8> = Slot::empty();
    assert_eq!(slot.replace(1), None);
    assert_eq!(slot.replace(2), Some(1));
    assert_eq!(*slot.get(), 2);
}

#[test]
fn slot_keeps_what_the_caller_leaves_in_the_handle() {
    let mut slot: Slot<Vec<u8>> = Slot::empty();
    slot.replace(vec![1]);
    slot.get_mut().push(2);
    assert_eq!(*slot.get(), vec![1, 2]);
    if let Some(handle) = slot.try_get_mut() {
        handle.push(3);
    }
    assert_eq!(*slot.get(), vec![1, 2, 3]);
}

#[test]
fn registry_starts_empty_on_the_clock_page() {
    let registry: Registry<u8, u16, u32, u64> = Registry::new();
    assert!(!registry.display.is_populated());
    assert!(!registry.timer.is_populated());
    assert!(!registry.button.is_populated());
    assert!(!registry.clock.is_populated());
    assert!(!registry.is_ready());
    assert_eq!(registry.page.page(), Page::Clock);
}

#[test]
fn registry_is_ready_once_all_four_slots_are_populated() {
    let mut registry: Registry<u8, u16, u32, u64> = Registry::new();
    registry.clock.replace(4);
    assert!(!registry.is_ready());
    registry.display.replace(1);
    assert!(!registry.is_ready());
    registry.button.replace(3);
    assert!(!registry.is_ready());
    registry.timer.replace(2);
    assert!(registry.is_ready());
}

#[test]
fn registry_slots_can_be_used_side_by_side() {
    let mut registry: Registry<Vec<u8>, u16, u32, u64> = Registry::new();
    registry.display.replace(Vec::new());
    registry.clock.replace(42);
    let display = registry.display.get_mut();
    let clock = registry.clock.get_mut();
    display.push(*clock as u8);
    *clock += 1;
    assert_eq!(*registry.display.get(), vec![42]);
    assert_eq!(*registry.clock.get(), 43);
}

#[test]
fn page_state_changes_only_on_a_press() {
    let mut state = PageState::new();
    assert_eq!(state.page(), Page::Clock);
    let none = state.service_button(ButtonStatus { interrupt_set: true, is_low: false });
    assert_eq!(none, vec![]);
    assert_eq!(state.page(), Page::Clock);
    let press = state.service_button(ButtonStatus { interrupt_set: true, is_low: true });
    assert_eq!(press, vec![Action::Render(Page::Secondary)]);
    assert_eq!(state.page(), Page::Secondary);
    let press = state.service_button(ButtonStatus { interrupt_set: true, is_low: true });
    assert_eq!(press, vec![Action::Render(Page::Clock)]);
    assert_eq!(state.page(), Page::Clock);
}

#[test]
fn page_state_serves_the_tick_without_changing() {
    let mut state = PageState::new();
    assert_eq!(state.service_timer(true, TickPolicy::ClockOnly), vec![Action::Render(Page::Clock)]);
    assert_eq!(state.service_timer(false, TickPolicy::EveryPage), vec![]);
    assert_eq!(state.page(), Page::Clock);
    state.service_button(ButtonStatus { interrupt_set: true, is_low: true });
    assert_eq!(state.service_timer(true, TickPolicy::ClockOnly), vec![]);
    assert_eq!(
        state.service_timer(true, TickPolicy::EveryPage),
        vec![Action::Render(Page::Secondary)]
    );
    assert_eq!(state.page(), Page::Secondary);
}
