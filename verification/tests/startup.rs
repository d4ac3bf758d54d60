use nbping::config::{resolve_exporter, resolve_tui, ConfigError, FileConfig, Mode};
use nbping::startup::{
    banner_listing, check_exporter, check_tui, exporter_ping_period_ms, exporter_worker_threads,
    initial_view, select_mode, seconds_to_millis, target_index, tui_ping_period_ms,
    tui_worker_threads, uses_multiple, StartupError,
};
use nbping::view::View;

#[test]
fn subcommand_selects_exporter() {
    let f = FileConfig { mode: Some("bogus".to_string()), ..FileConfig::default() };
    assert_eq!(select_mode(true, &f), Ok(Mode::Exporter));
    assert_eq!(select_mode(false, &f), Err(ConfigError::InvalidMode("bogus".to_string())));
    assert_eq!(select_mode(false, &FileConfig::default()), Ok(Mode::Tui));
    let e = FileConfig { mode: Some("exporter".to_string()), ..FileConfig::default() };
    assert_eq!(select_mode(false, &e), Ok(Mode::Exporter));
}

#[test]
fn startup_checks() {
    let f = FileConfig::default();
    let none = resolve_tui(vec![], None, None, false, None, None, None, &f);
    assert_eq!(check_tui(&none), Err(StartupError::NoTargets));
    let neg = resolve_tui(vec!["a".into()], None, Some(-2), false, None, None, None, &f);
    assert_eq!(check_tui(&neg), Err(StartupError::NegativeInterval(-2)));
    let ok = resolve_tui(vec!["a".into()], None, Some(0), false, None, None, None, &f);
    assert_eq!(check_tui(&ok), Ok(()));
    let ex = resolve_exporter(vec![], None, None, vec![], None, false, &f);
    assert_eq!(check_exporter(&ex), Err(StartupError::NoTargets));
    let ex = resolve_exporter(vec!["a".into()], None, None, vec![], None, false, &f);
    assert_eq!(check_exporter(&ex), Ok(()));
}

#[test]
fn worker_thread_counts() {
    assert_eq!(tui_worker_threads(3, 0), 4);
    assert_eq!(tui_worker_threads(1, 5), 6);
    assert_eq!(tui_worker_threads(2, 5), 3);
    assert_eq!(tui_worker_threads(1, -1), 2);
    assert_eq!(tui_worker_threads(0, 0), 1);
    assert_eq!(exporter_worker_threads(4), 5);
    assert!(uses_multiple(1, 2));
    assert!(!uses_multiple(2, 2));
    assert!(!uses_multiple(1, 0));
}

#[test]
fn ping_periods() {
    assert_eq!(tui_ping_period_ms(0), 500);
    assert_eq!(tui_ping_period_ms(2), 2000);
    assert_eq!(tui_ping_period_ms(86400), 86_400_000);
    assert_eq!(tui_ping_period_ms(i32::MAX), i32::MAX);
    assert_eq!(seconds_to_millis(-3_000_000), i32::MIN);
    assert_eq!(exporter_ping_period_ms(1), 1000);
    assert_eq!(exporter_ping_period_ms(3_000_000), i32::MAX as u64);
}

#[test]
fn initial_view_falls_back_to_graph() {
    assert_eq!(initial_view("sparkline"), View::Sparkline);
    assert_eq!(initial_view("bogus"), View::Graph);
}

#[test]
fn address_labels() {
    assert_eq!(target_index(1, 3), 0);
    assert_eq!(target_index(3, 2), 2);
}

#[test]
fn exporter_banner_lists_five_then_counts() {
    assert_eq!(banner_listing(3), (3, None));
    assert_eq!(banner_listing(5), (5, None));
    assert_eq!(banner_listing(8), (5, Some(3)));
    assert_eq!(banner_listing(0), (0, None));
}
