use nbping::control::{
    end_of_turn, exporter_key_stops, find_entry, handle_key, Key, KeyAction, KeyPress, UiState,
};
use nbping::theme::ThemeKind;
use nbping::view::View;

fn press(key: Key) -> KeyPress {
    KeyPress { key, control: false }
}

fn start() -> UiState {
    UiState { view: View::Graph, theme: ThemeKind::Day }
}

#[test]
fn quit_keys_quit_without_change() {
    let s = UiState { view: View::Point, theme: ThemeKind::Night };
    assert_eq!(handle_key(s, press(Key::Char('q'))), (s, KeyAction::Quit));
    assert_eq!(handle_key(s, press(Key::Esc)), (s, KeyAction::Quit));
    assert_eq!(handle_key(s, KeyPress { key: Key::Char('c'), control: true }), (s, KeyAction::Quit));
    assert_eq!(handle_key(s, press(Key::Char('c'))), (s, KeyAction::Ignore));
}

#[test]
fn number_keys_choose_views() {
    let s = start();
    assert_eq!(handle_key(s, press(Key::Char('2'))).0.view, View::Table);
    assert_eq!(handle_key(s, press(Key::Char('3'))).0.view, View::Point);
    assert_eq!(handle_key(s, press(Key::Char('4'))).0.view, View::Sparkline);
    let t = UiState { view: View::Table, theme: ThemeKind::Night };
    assert_eq!(
        handle_key(t, press(Key::Char('1'))),
        (UiState { view: View::Graph, theme: ThemeKind::Night }, KeyAction::Redraw)
    );
}

#[test]
fn tab_cycles_views_and_t_switches_theme() {
    let mut s = start();
    let mut seen = Vec::new();
    for _ in 0..4 {
        let (n, a) = handle_key(s, press(Key::Tab));
        assert_eq!(a, KeyAction::Redraw);
        s = n;
        seen.push(s.view);
    }
    assert_eq!(seen, vec![View::Table, View::Point, View::Sparkline, View::Graph]);
    let (n, a) = handle_key(s, press(Key::Char('t')));
    assert_eq!(a, KeyAction::Redraw);
    assert_eq!(n, UiState { view: View::Graph, theme: ThemeKind::Night });
    let (n, _) = handle_key(n, press(Key::Char('T')));
    assert_eq!(n, s);
}

#[test]
fn other_keys_are_ignored() {
    let s = start();
    assert_eq!(handle_key(s, press(Key::Char('x'))), (s, KeyAction::Ignore));
    assert_eq!(handle_key(s, press(Key::Other)), (s, KeyAction::Ignore));
    assert_eq!(handle_key(s, press(Key::Char('5'))), (s, KeyAction::Ignore));
}

#[test]
fn exporter_stop_keys() {
    assert!(exporter_key_stops(press(Key::Char('q'))));
    assert!(exporter_key_stops(press(Key::Esc)));
    assert!(exporter_key_stops(KeyPress { key: Key::Char('c'), control: true }));
    assert!(!exporter_key_stops(press(Key::Char('c'))));
    assert!(!exporter_key_stops(press(Key::Tab)));
}

#[test]
fn end_of_turn_ticks_and_repaints() {
    assert_eq!(end_of_turn(5, false, false, false), (5, false));
    assert_eq!(end_of_turn(5, true, false, false), (5, true));
    assert_eq!(end_of_turn(5, false, true, false), (5, true));
    assert_eq!(end_of_turn(5, false, false, true), (6, true));
    assert_eq!(end_of_turn(u64::MAX, false, false, true), (0, true));
}

#[test]
fn find_entry_matches_target_and_address() {
    let e = vec![
        ("a.com".to_string(), "1.1.1.1".to_string()),
        ("a.com".to_string(), "2.2.2.2".to_string()),
        ("b.com".to_string(), "2.2.2.2".to_string()),
    ];
    assert_eq!(find_entry(&e, &"a.com".to_string(), &"2.2.2.2".to_string()), Some(1));
    assert_eq!(find_entry(&e, &"b.com".to_string(), &"2.2.2.2".to_string()), Some(2));
    assert_eq!(find_entry(&e, &"b.com".to_string(), &"1.1.1.1".to_string()), None);
    assert_eq!(find_entry(&vec![], &"a".to_string(), &"b".to_string()), None);
}
