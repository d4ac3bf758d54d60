//! Start-up decisions: which mode runs, whether the resolved settings are
//! usable, how many worker threads to start, the ping period, and what the
//! exporter's banner lists.

use vstd::prelude::*;
use vstd::view::View as ModelView;

use crate::config::{ConfigError, ConfigProblem, FileConfig, Mode, ResolvedExporter, ResolvedTui};
use crate::view::View;

verus! {

/// Why the program cannot start with the resolved settings.
#[derive(Debug, Clone, Copy, PartialEq, Eq, Structural)]
pub enum StartupError {
    /// Neither the command line nor the file names a target.
    NoTargets,
    /// The interval is below zero.
    NegativeInterval(i32),
}

/// The mode to run: an `exporter` subcommand always selects the exporter;
/// otherwise the file's `mode` decides, `tui` when it names none.
pub fn select_mode(exporter_subcommand: bool, file: &FileConfig) -> (r: Result<Mode, ConfigError>)
    ensures
        exporter_subcommand ==> r == Ok::<Mode, ConfigError>(Mode::Exporter),
        !exporter_subcommand ==> match r {
            Ok(m) => file.mode_result() == Ok::<Mode, ConfigProblem>(m),
            Err(e) => file.mode_result() == Err::<Mode, ConfigProblem>(e@),
        },
{
    if exporter_subcommand {
        Ok(Mode::Exporter)
    } else {
        file.mode()
    }
}

/// Checks the interactive settings: at least one target, and an interval
/// that is not below zero (the file's interval is checked when it is read;
/// this also covers the command line's).
pub fn check_tui(cfg: &ResolvedTui) -> (r: Result<(), StartupError>)
    ensures
        cfg.targets@.len() == 0 ==> r == Err::<(), StartupError>(StartupError::NoTargets),
        cfg.targets@.len() > 0 && cfg.interval < 0 ==> r == Err::<(), StartupError>(
            StartupError::NegativeInterval(cfg.interval),
        ),
        cfg.targets@.len() > 0 && cfg.interval >= 0 ==> r is Ok,
{
    if cfg.targets.len() == 0 {
        Err(StartupError::NoTargets)
    } else if cfg.interval < 0 {
        Err(StartupError::NegativeInterval(cfg.interval))
    } else {
        Ok(())
    }
}

/// Checks the exporter settings: at least one target.
pub fn check_exporter(cfg: &ResolvedExporter) -> (r: Result<(), StartupError>)
    ensures
        cfg.targets@.len() == 0 ==> r == Err::<(), StartupError>(StartupError::NoTargets),
        cfg.targets@.len() > 0 ==> r is Ok,
{
    if cfg.targets.len() == 0 {
        Err(StartupError::NoTargets)
    } else {
        Ok(())
    }
}

/// Whether several addresses are resolved for one target: only with a single
/// target and a positive `multiple`.
pub open spec fn resolves_multiple(n_targets: nat, multiple: i32) -> bool {
    n_targets == 1 && multiple > 0
}

/// Whether several addresses are resolved for one target.
pub fn uses_multiple(n_targets: usize, multiple: i32) -> (r: bool)
    ensures
        r == resolves_multiple(n_targets as nat, multiple),
{
    n_targets == 1 && multiple > 0
}

/// Number of addresses pinged: `multiple` of them for a single target with a
/// positive `multiple`, one per target otherwise.
pub open spec fn address_count(n_targets: nat, multiple: i32) -> nat {
    if resolves_multiple(n_targets, multiple) { multiple as nat } else { n_targets }
}

/// Worker threads for the interactive mode: one per pinged address, plus one.
pub fn tui_worker_threads(n_targets: usize, multiple: i32) -> (r: usize)
    requires
        address_count(n_targets as nat, multiple) < usize::MAX,
    ensures
        r == address_count(n_targets as nat, multiple) + 1,
        r >= 1,
{
    let ip_count = if uses_multiple(n_targets, multiple) {
        multiple as usize
    } else {
        n_targets
    };
    let w = ip_count + 1;
    if w < 1 {
        1
    } else {
        w
    }
}

/// Worker threads for the exporter: one per target, plus one.
pub fn exporter_worker_threads(n_targets: usize) -> (r: usize)
    requires
        n_targets < usize::MAX,
    ensures
        r == n_targets + 1,
{
    let w = n_targets + 1;
    if w < 1 {
        1
    } else {
        w
    }
}

/// `x * 1000`, clamped to the range of `i32`.
pub open spec fn saturating_millis(x: i32) -> i32 {
    if x * 1000 > i32::MAX {
        i32::MAX
    } else if x * 1000 < i32::MIN {
        i32::MIN
    } else {
        (x * 1000) as i32
    }
}

/// Seconds to milliseconds, saturating at the bounds of `i32`.
pub fn seconds_to_millis(x: i32) -> (r: i32)
    ensures
        r == saturating_millis(x),
{
    match x.checked_mul(1000) {
        Some(v) => v,
        None => if x > 0 {
            i32::MAX
        } else {
            i32::MIN
        },
    }
}

/// The interactive ping period in milliseconds: an interval of 0 means
/// 500 ms; otherwise the interval in seconds, times 1000, saturating.
pub fn tui_ping_period_ms(interval: i32) -> (r: i32)
    ensures
        r == (if interval == 0 { 500 } else { saturating_millis(interval) }),
{
    if interval == 0 {
        500
    } else {
        seconds_to_millis(interval)
    }
}

/// The exporter's ping period in milliseconds: the interval in seconds, times
/// 1000, saturating, taken as an unsigned duration.
pub fn exporter_ping_period_ms(interval: i32) -> (r: u64)
    ensures
        r == saturating_millis(interval) as u64,
{
    let ms = seconds_to_millis(interval);
    ms as u64
}

/// The view to start in: the named one, or the graph view when the name is unknown.
pub fn initial_view(view_type: &str) -> (r: View)
    ensures
        r == (match View::parse(view_type@) {
            Some(v) => v,
            None => View::Graph,
        }),
{
    match View::from_str(view_type) {
        Some(v) => v,
        None => View::Graph,
    }
}

/// Which target's name labels address `i`: the single target when there is
/// one (all addresses then belong to it), else target `i`.
pub fn target_index(n_targets: usize, i: usize) -> (r: usize)
    ensures
        r == (if n_targets == 1 { 0 } else { i }),
{
    if n_targets == 1 {
        0
    } else {
        i
    }
}

/// The most targets the exporter's banner names one by one.
pub const BANNER_TARGETS: usize = 5;

/// What the exporter's banner lists for `n` targets: the first (at most five)
/// by name, then, when there are more, a line that counts the rest.
pub fn banner_listing(n: usize) -> (r: (usize, Option<usize>))
    ensures
        r.0 == (if n < BANNER_TARGETS { n } else { BANNER_TARGETS }),
        r.1 == (if n > BANNER_TARGETS { Some((n - BANNER_TARGETS) as usize) } else { None }),
        r.0 + match r.1 {
            Some(k) => k as int,
            None => 0,
        } == n,
{
    if n > BANNER_TARGETS {
        (BANNER_TARGETS, Some(n - BANNER_TARGETS))
    } else {
        (n, None)
    }
}

/// An interval that passed the file's check (0 to 86400 s), times 1000, is
/// exact: no saturation happens below one day.
pub proof fn lemma_valid_interval_millis_exact(interval: i32)
    requires
        0 <= interval <= crate::config::MAX_INTERVAL,
    ensures
        saturating_millis(interval) == interval * 1000,
{
}

/// The exporter's interval is at least one second after resolution, so its
/// ping period is at least one second too and the exporter never busy-loops.
pub proof fn lemma_exporter_period_at_least_one_second(interval: i32)
    requires
        interval >= 1,
    ensures
        saturating_millis(interval) as u64 >= 1000,
{
}

} // verus!
