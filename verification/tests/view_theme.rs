use std::sync::atomic::AtomicU8;

use nbping::text::str_eq;
use nbping::theme::{load_theme, load_theme_kind, store_theme, Color, ThemeKind};
use nbping::view::{load_view, store_view, View};

#[test]
fn view_from_str_known_and_unknown() {
    assert_eq!(View::from_str("graph"), Some(View::Graph));
    assert_eq!(View::from_str("table"), Some(View::Table));
    assert_eq!(View::from_str("point"), Some(View::Point));
    assert_eq!(View::from_str("sparkline"), Some(View::Sparkline));
    assert_eq!(View::from_str("pie"), None);
    assert_eq!(View::from_str("Graph"), None);
    assert_eq!(View::from_str(""), None);
    assert_eq!(View::from_str("graphs"), None);
}

#[test]
fn view_from_u8_falls_back_to_graph() {
    assert_eq!(View::from_u8(0), View::Graph);
    assert_eq!(View::from_u8(1), View::Table);
    assert_eq!(View::from_u8(2), View::Point);
    assert_eq!(View::from_u8(3), View::Sparkline);
    assert_eq!(View::from_u8(4), View::Graph);
    assert_eq!(View::from_u8(255), View::Graph);
}

#[test]
fn view_names_and_codes_round_trip() {
    for v in [View::Graph, View::Table, View::Point, View::Sparkline] {
        assert_eq!(View::from_str(v.name()), Some(v));
        assert_eq!(View::from_u8(v.to_u8()), v);
    }
    assert_eq!(View::Sparkline.name(), "sparkline");
    assert_eq!(View::Point.to_u8(), 2);
}

#[test]
fn view_next_cycles_through_all_four() {
    assert_eq!(View::Graph.next(), View::Table);
    assert_eq!(View::Table.next(), View::Point);
    assert_eq!(View::Point.next(), View::Sparkline);
    assert_eq!(View::Sparkline.next(), View::Graph);
    for v in [View::Graph, View::Table, View::Point, View::Sparkline] {
        assert_eq!(v.next().next().next().next(), v);
    }
}

#[test]
fn view_slot_store_then_load() {
    let slot = AtomicU8::new(0);
    assert_eq!(load_view(&slot), View::Graph);
    for v in [View::Table, View::Point, View::Sparkline, View::Graph] {
        store_view(&slot, v);
        assert_eq!(load_view(&slot), v);
    }
    let stray = AtomicU8::new(9);
    assert_eq!(load_view(&stray), View::Graph);
}

#[test]
fn theme_kind_basics() {
    assert_eq!(ThemeKind::from_u8(0), ThemeKind::Day);
    assert_eq!(ThemeKind::from_u8(1), ThemeKind::Night);
    assert_eq!(ThemeKind::from_u8(7), ThemeKind::Day);
    assert_eq!(ThemeKind::Day.next(), ThemeKind::Night);
    assert_eq!(ThemeKind::Night.next(), ThemeKind::Day);
    assert_eq!(ThemeKind::Day.name(), "day");
    assert_eq!(ThemeKind::Night.name(), "night");
    assert_eq!(ThemeKind::Night.to_u8(), 1);
}

#[test]
fn theme_slot_store_then_load() {
    let slot = AtomicU8::new(0);
    assert_eq!(load_theme_kind(&slot), ThemeKind::Day);
    store_theme(&slot, ThemeKind::Night);
    assert_eq!(load_theme_kind(&slot), ThemeKind::Night);
    assert_eq!(load_theme(&slot).bg, Color::Rgb(0, 0, 0));
    store_theme(&slot, ThemeKind::Day);
    assert_eq!(load_theme(&slot).bg, Color::Reset);
}

#[test]
fn palettes_hold_their_colours() {
    let day = ThemeKind::Day.palette();
    let night = ThemeKind::Night.palette();
    assert_eq!(day.fg, Color::Reset);
    assert_eq!(day.primary, Color::Rgb(38, 139, 210));
    assert_eq!(day.border, Color::Rgb(147, 161, 161));
    assert_eq!(night.fg, Color::Rgb(220, 220, 220));
    assert_eq!(night.accent, Color::Rgb(187, 154, 247));
    assert_eq!(night.border, Color::Rgb(90, 100, 130));
    // Status colours and the gradient are the same in both themes.
    assert_eq!(day.success, night.success);
    assert_eq!(day.danger, Color::Rgb(231, 76, 60));
    assert_eq!(day.warning, Color::Rgb(241, 196, 15));
    assert_eq!(day.gradient, night.gradient);
    assert_eq!(day.gradient[0], Color::Rgb(46, 204, 113));
    assert_eq!(day.gradient[5], Color::Rgb(192, 57, 43));
}

#[test]
fn str_eq_compares_characters() {
    assert!(str_eq("héllo", "héllo"));
    assert!(!str_eq("héllo", "hello"));
    assert!(!str_eq("ab", "abc"));
    assert!(str_eq("", ""));
}
