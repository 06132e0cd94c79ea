use playit_manager::nav::{EditField, NavAction, NavEvent, NavigationState, Screen};

#[test]
fn starts_at_overview_top() {
    let nav = NavigationState::new();
    assert_eq!(nav.screen(), Screen::Overview);
    assert_eq!(nav.selected_index(), 0);
    assert_eq!(nav.descended_from(), None);
}

#[test]
fn down_stops_at_max_and_up_stops_at_zero() {
    let mut nav = NavigationState::new();
    nav.set_max_for_render(3);
    assert_eq!(nav.step(NavEvent::Up, 3), NavAction::Stay);
    assert_eq!(nav.selected_index(), 0);
    assert_eq!(nav.step(NavEvent::Down, 3), NavAction::Stay);
    assert_eq!(nav.step(NavEvent::Down, 3), NavAction::Stay);
    assert_eq!(nav.selected_index(), 2);
    // At the bound: a further Down is a no-op.
    assert_eq!(nav.step(NavEvent::Down, 3), NavAction::Stay);
    assert_eq!(nav.selected_index(), 2);
    assert_eq!(nav.step(NavEvent::Up, 3), NavAction::Stay);
    assert_eq!(nav.selected_index(), 1);
}

#[test]
fn descend_and_ascend_restore_selection() {
    let mut nav = NavigationState::new();
    nav.set_max_for_render(3);
    nav.step(NavEvent::Down, 3);
    nav.step(NavEvent::Down, 3);
    assert_eq!(nav.selected_index(), 2);

    assert_eq!(nav.step(NavEvent::Activate, 3), NavAction::Stay);
    assert_eq!(nav.screen(), Screen::Detail);
    assert_eq!(nav.selected_index(), 0);
    assert_eq!(nav.descended_from(), Some(2));

    assert_eq!(nav.step(NavEvent::Back, 3), NavAction::Stay);
    assert_eq!(nav.screen(), Screen::Overview);
    assert_eq!(nav.selected_index(), 2);
    assert_eq!(nav.descended_from(), None);
}

#[test]
fn back_at_overview_is_a_no_op() {
    let mut nav = NavigationState::new();
    nav.set_max_for_render(2);
    nav.step(NavEvent::Down, 2);
    assert_eq!(nav.step(NavEvent::Back, 2), NavAction::Stay);
    assert_eq!(nav.screen(), Screen::Overview);
    assert_eq!(nav.selected_index(), 1);
}

#[test]
fn detail_activate_picks_the_editable_fields() {
    let mut nav = NavigationState::new();
    nav.set_max_for_render(1);
    nav.step(NavEvent::Activate, 1);
    assert_eq!(nav.screen(), Screen::Detail);
    // Field 0 is the read-only domain: activate is a no-op.
    assert_eq!(nav.step(NavEvent::Activate, 1), NavAction::Stay);
    nav.step(NavEvent::Down, 1);
    assert_eq!(nav.step(NavEvent::Activate, 1), NavAction::Edit(EditField::Name));
    nav.step(NavEvent::Down, 1);
    assert_eq!(nav.step(NavEvent::Activate, 1), NavAction::Edit(EditField::Port));
}

#[test]
fn ascend_clamps_when_the_list_shrank() {
    let mut nav = NavigationState::new();
    nav.set_max_for_render(5);
    for _ in 0..4 {
        nav.step(NavEvent::Down, 5);
    }
    assert_eq!(nav.selected_index(), 4);
    nav.step(NavEvent::Activate, 5);
    // The account lost three tunnels while Detail was open.
    assert_eq!(nav.step(NavEvent::Back, 2), NavAction::Stay);
    assert_eq!(nav.screen(), Screen::Overview);
    assert_eq!(nav.selected_index(), 1);
}

#[test]
fn render_recompute_clamps_cursor() {
    let mut nav = NavigationState::new();
    nav.set_max_for_render(4);
    for _ in 0..3 {
        nav.step(NavEvent::Down, 4);
    }
    assert_eq!(nav.selected_index(), 3);
    nav.set_max_for_render(2);
    assert_eq!(nav.selected_index(), 1);
}
