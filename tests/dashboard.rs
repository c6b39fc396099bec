use bambixploit::ui::{centered_shares, window_start, Event, TabState, UiControl, UiKey};

#[test]
fn tabs_move_and_stop_at_edges() {
    let mut t = TabState::Overview;
    t.previous();
    assert_eq!(t, TabState::Overview);
    t.next();
    assert_eq!(t, TabState::Teams);
    t.next();
    assert_eq!(t, TabState::Exploits);
    t.next();
    assert_eq!(t, TabState::Exploits);
    assert_eq!(t.index(), 2);
    t.previous();
    assert_eq!(t, TabState::Teams);
}

#[test]
fn tab_titles() {
    assert_eq!(TabState::get_titles(), vec!["Overview", "Teams", "Exploits"]);
}

#[test]
fn ctrl_c_twice_quits() {
    let mut c = UiControl::new();
    assert!(!c.handle_key(UiKey::CtrlC));
    assert!(c.close_menu);
    assert!(c.handle_key(UiKey::CtrlC));
}

#[test]
fn other_key_closes_prompt() {
    let mut c = UiControl::new();
    assert!(!c.handle_key(UiKey::CtrlC));
    assert!(!c.handle_key(UiKey::Right));
    assert!(!c.close_menu);
    assert_eq!(c.tab_selected, TabState::Teams);
    assert!(!c.handle_key(UiKey::CtrlC));
    assert!(!c.handle_key(UiKey::Other));
    assert!(!c.close_menu);
    assert!(!c.handle_key(UiKey::Left));
    assert_eq!(c.tab_selected, TabState::Overview);
}

#[test]
fn chart_window() {
    assert_eq!(window_start(0), 0);
    assert_eq!(window_start(120), 0);
    assert_eq!(window_start(121), 1);
    assert_eq!(window_start(500), 380);
}

#[test]
fn centered_box() {
    assert_eq!(centered_shares(20), (40, 20, 40));
    assert_eq!(centered_shares(40), (30, 40, 30));
    assert_eq!(centered_shares(100), (0, 100, 0));
}

#[test]
fn events_carry_input() {
    let e: Event<UiKey> = Event::Input(UiKey::Left);
    assert!(matches!(e, Event::Input(UiKey::Left)));
    let t: Event<UiKey> = Event::Tick;
    assert!(matches!(t, Event::Tick));
}
