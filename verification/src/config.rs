//! Settings of a run, merged from the command line, a configuration file and
//! built-in defaults, in that order of precedence.

use vstd::prelude::*;
use vstd::view::View as ModelView;

use crate::dedup::{dedup, dedup_strings, distinct, lemma_dedup_distinct, string_views};
use crate::text::str_eq;
use crate::view::View;

verus! {

/// The settings a configuration file holds. Every field is optional, so that
/// an absent field falls through to the command line or the default.
#[derive(Debug, PartialEq)]
pub struct FileConfig {
    /// Execution mode: `tui` (default) or `exporter`.
    pub mode: Option<String>,
    /// Target addresses or host names to ping.
    pub targets: Option<Vec<String>>,
    /// Number of pings to send (0 = unlimited).
    pub count: Option<usize>,
    /// Interval between pings, in seconds.
    pub interval: Option<i32>,
    /// Force using IPv6.
    pub force_ipv6: Option<bool>,
    /// Resolve several addresses for a single target (tui mode only).
    pub multiple: Option<i32>,
    /// Initial view: graph/table/point/sparkline (tui mode only).
    pub view_type: Option<String>,
    /// File to save ping results to (tui mode only).
    pub output: Option<String>,
    /// Metrics HTTP port (exporter mode only).
    pub port: Option<u16>,
}

/// Execution mode selected by the configuration.
#[derive(Debug, Clone, Copy, PartialEq, Eq, Structural)]
pub enum Mode {
    Tui,
    Exporter,
}

/// Why a configuration was refused.
#[derive(Debug, PartialEq)]
pub enum ConfigError {
    /// `mode` is neither `tui` nor `exporter`.
    InvalidMode(String),
    /// `view_type` is not one of graph, table, point, sparkline.
    InvalidViewType(String),
    /// `interval` is below zero.
    NegativeInterval(i32),
    /// `interval` is above one day (86400 s).
    IntervalTooLarge(i32),
    /// `multiple` is below zero.
    NegativeMultiple(i32),
}

/// A refusal, with its text taken as characters.
pub enum ConfigProblem {
    InvalidMode(Seq<char>),
    InvalidViewType(Seq<char>),
    NegativeInterval(i32),
    IntervalTooLarge(i32),
    NegativeMultiple(i32),
}

impl ModelView for ConfigError {
    type V = ConfigProblem;

    open spec fn view(&self) -> ConfigProblem {
        match self {
            ConfigError::InvalidMode(s) => ConfigProblem::InvalidMode(s@),
            ConfigError::InvalidViewType(s) => ConfigProblem::InvalidViewType(s@),
            ConfigError::NegativeInterval(i) => ConfigProblem::NegativeInterval(*i),
            ConfigError::IntervalTooLarge(i) => ConfigProblem::IntervalTooLarge(*i),
            ConfigError::NegativeMultiple(m) => ConfigProblem::NegativeMultiple(*m),
        }
    }
}

/// The largest interval a file may set: one day, in seconds.
pub const MAX_INTERVAL: i32 = 86400;

/// The mode whose name is `s`, if any.
pub open spec fn parse_mode(s: Seq<char>) -> Option<Mode> {
    if s == "tui"@ {
        Some(Mode::Tui)
    } else if s == "exporter"@ {
        Some(Mode::Exporter)
    } else {
        None
    }
}

/// The first of the options that holds a value, in the order given.
pub open spec fn first_some<T>(a: Option<T>, b: Option<T>) -> Option<T> {
    match a {
        Some(x) => Some(x),
        None => b,
    }
}

/// The value held, or `d` when there is none.
pub open spec fn or_default<T>(a: Option<T>, d: T) -> T {
    match a {
        Some(x) => x,
        None => d,
    }
}

impl FileConfig {
    /// The mode named by the file, `Tui` when it names none, or the refusal of
    /// an unknown name.
    pub open spec fn mode_result(self) -> Result<Mode, ConfigProblem> {
        match self.mode {
            None => Ok(Mode::Tui),
            Some(m) => match parse_mode(m@) {
                Some(md) => Ok(md),
                None => Err(ConfigProblem::InvalidMode(m@)),
            },
        }
    }

    /// The first thing wrong with the file, checked in the order mode,
    /// view_type, interval, multiple; `None` when nothing is.
    pub open spec fn problem(self) -> Option<ConfigProblem> {
        if self.mode is Some && parse_mode(self.mode->0@) is None {
            Some(ConfigProblem::InvalidMode(self.mode->0@))
        } else if self.view_type is Some && View::parse(self.view_type->0@) is None {
            Some(ConfigProblem::InvalidViewType(self.view_type->0@))
        } else if self.interval is Some && self.interval->0 < 0 {
            Some(ConfigProblem::NegativeInterval(self.interval->0))
        } else if self.interval is Some && self.interval->0 > MAX_INTERVAL {
            Some(ConfigProblem::IntervalTooLarge(self.interval->0))
        } else if self.multiple is Some && self.multiple->0 < 0 {
            Some(ConfigProblem::NegativeMultiple(self.multiple->0))
        } else {
            None
        }
    }

    /// A file with every field absent.
    pub open spec fn is_empty(self) -> bool {
        &&& self.mode is None
        &&& self.targets is None
        &&& self.count is None
        &&& self.interval is None
        &&& self.force_ipv6 is None
        &&& self.multiple is None
        &&& self.view_type is None
        &&& self.output is None
        &&& self.port is None
    }

}

impl Default for FileConfig {
    /// A file with every field absent.
    fn default() -> (r: FileConfig)
        ensures
            r.is_empty(),
    {
        FileConfig {
            mode: None,
            targets: None,
            count: None,
            interval: None,
            force_ipv6: None,
            multiple: None,
            view_type: None,
            output: None,
            port: None,
        }
    }
}

impl FileConfig {
    /// Checks the enum-like text fields and the numeric ranges, so that a bad
    /// file is refused at start-up. The first problem found is returned.
    pub fn validate(&self) -> (r: Result<(), ConfigError>)
        ensures
            match r {
                Ok(()) => self.problem() is None,
                Err(e) => self.problem() == Some(e@),
            },
            r is Ok ==> (self.interval matches Some(i) ==> 0 <= i <= MAX_INTERVAL),
            r is Ok ==> (self.multiple matches Some(m) ==> 0 <= m),
            r is Ok ==> self.mode_result() is Ok,
            r is Ok <==> {
                &&& (self.mode matches Some(m) ==> (m@ == "tui"@ || m@ == "exporter"@))
                &&& (self.view_type matches Some(v) ==> (v@ == "graph"@ || v@ == "table"@
                    || v@ == "point"@ || v@ == "sparkline"@))
                &&& (self.interval matches Some(i) ==> 0 <= i <= 86400)
                &&& (self.multiple matches Some(m) ==> m >= 0)
            },
    {
        if let Some(mode) = &self.mode {
            match self.parsed_mode_inner(mode.as_str()) {
                Ok(_) => {},
                Err(e) => {
                    return Err(e);
                },
            }
        }
        if let Some(view) = &self.view_type {
            if View::from_str(view.as_str()).is_none() {
                return Err(ConfigError::InvalidViewType(view.clone()));
            }
        }
        if let Some(i) = self.interval {
            if i < 0 {
                return Err(ConfigError::NegativeInterval(i));
            }
            if i > MAX_INTERVAL {
                return Err(ConfigError::IntervalTooLarge(i));
            }
        }
        if let Some(m) = self.multiple {
            if m < 0 {
                return Err(ConfigError::NegativeMultiple(m));
            }
        }
        Ok(())
    }

    /// The execution mode the file declares, `Tui` when it declares none.
    pub fn mode(&self) -> (r: Result<Mode, ConfigError>)
        ensures
            match r {
                Ok(m) => self.mode_result() == Ok::<Mode, ConfigProblem>(m),
                Err(e) => self.mode_result() == Err::<Mode, ConfigProblem>(e@),
            },
    {
        match &self.mode {
            Some(m) => self.parsed_mode_inner(m.as_str()),
            None => Ok(Mode::Tui),
        }
    }

    /// Parses a mode name, refusing anything but `tui` and `exporter`.
    pub fn parsed_mode_inner(&self, mode: &str) -> (r: Result<Mode, ConfigError>)
        ensures
            match r {
                Ok(m) => parse_mode(mode@) == Some(m),
                Err(e) => parse_mode(mode@) is None && e@ == ConfigProblem::InvalidMode(mode@),
            },
    {
        if str_eq(mode, "tui") {
            Ok(Mode::Tui)
        } else if str_eq(mode, "exporter") {
            Ok(Mode::Exporter)
        } else {
            Err(ConfigError::InvalidMode(mode.to_owned()))
        }
    }
}

/// Fully resolved settings of the interactive mode.
#[derive(Debug, PartialEq)]
pub struct ResolvedTui {
    pub targets: Vec<String>,
    pub count: usize,
    pub interval: i32,
    pub force_ipv6: bool,
    pub multiple: i32,
    pub view_type: String,
    pub output: Option<String>,
}

/// Fully resolved settings of the exporter mode.
#[derive(Debug, PartialEq)]
pub struct ResolvedExporter {
    pub targets: Vec<String>,
    pub interval: i32,
    pub port: u16,
    pub force_ipv6: bool,
}

/// The target list before duplicates are removed: the command line's when it
/// names any, else the file's, else none.
pub open spec fn raw_targets(cli_targets: Seq<String>, file: FileConfig) -> Seq<Seq<char>> {
    if cli_targets.len() > 0 {
        string_views(cli_targets)
    } else {
        match file.targets {
            Some(t) => string_views(t@),
            None => Seq::empty(),
        }
    }
}

/// The resolved target list: the raw list without repeats, in first-seen order.
pub open spec fn resolved_targets(cli_targets: Seq<String>, file: FileConfig) -> Seq<Seq<char>> {
    dedup(raw_targets(cli_targets, file))
}

/// The characters of an optional string.
pub open spec fn opt_view(o: Option<String>) -> Option<Seq<char>> {
    match o {
        Some(s) => Some(s@),
        None => None,
    }
}

/// Copies an optional string.
fn clone_opt(o: &Option<String>) -> (r: Option<String>)
    ensures
        r == *o,
{
    match o {
        Some(s) => Some(s.clone()),
        None => None,
    }
}

/// The command-line targets when there are any, otherwise the file's; with
/// repeats removed, keeping the first occurrence of each.
pub fn resolve_targets(cli_targets: Vec<String>, file: &FileConfig) -> (r: Vec<String>)
    ensures
        string_views(r@) == resolved_targets(cli_targets@, *file),
        distinct(string_views(r@)),
{
    let raw = if cli_targets.len() > 0 {
        cli_targets
    } else {
        match &file.targets {
            Some(t) => t.clone(),
            None => Vec::new(),
        }
    };
    proof {
        assert(string_views(raw@) =~= raw_targets(cli_targets@, *file));
        lemma_dedup_distinct(raw_targets(cli_targets@, *file));
    }
    dedup_strings(raw)
}

/// Merges command-line values and file values into the interactive settings.
/// For each field: the command line's value, else the file's, else the default.
pub fn resolve_tui(
    cli_targets: Vec<String>,
    cli_count: Option<usize>,
    cli_interval: Option<i32>,
    cli_force_ipv6: bool,
    cli_multiple: Option<i32>,
    cli_view_type: Option<String>,
    cli_output: Option<String>,
    file: &FileConfig,
) -> (r: ResolvedTui)
    ensures
        string_views(r.targets@) == resolved_targets(cli_targets@, *file),
        r.count == or_default(first_some(cli_count, file.count), 0),
        r.interval == or_default(first_some(cli_interval, file.interval), 0),
        r.force_ipv6 == (cli_force_ipv6 || file.force_ipv6 == Some(true)),
        r.multiple == or_default(first_some(cli_multiple, file.multiple), 0),
        r.view_type@ == or_default(first_some(opt_view(cli_view_type), opt_view(file.view_type)), "graph"@),
        r.output == first_some(cli_output, file.output),
{
    let targets = resolve_targets(cli_targets, file);
    let count = match cli_count {
        Some(c) => c,
        None => match file.count {
            Some(c) => c,
            None => 0,
        },
    };
    let interval = match cli_interval {
        Some(i) => i,
        None => match file.interval {
            Some(i) => i,
            None => 0,
        },
    };
    let file_ipv6 = match file.force_ipv6 {
        Some(b) => b,
        None => false,
    };
    let multiple = match cli_multiple {
        Some(m) => m,
        None => match file.multiple {
            Some(m) => m,
            None => 0,
        },
    };
    let view_type = match cli_view_type {
        Some(v) => v,
        None => match &file.view_type {
            Some(v) => v.clone(),
            None => "graph".to_owned(),
        },
    };
    let output = match cli_output {
        Some(o) => Some(o),
        None => clone_opt(&file.output),
    };
    ResolvedTui {
        targets,
        count,
        interval,
        force_ipv6: cli_force_ipv6 || file_ipv6,
        multiple,
        view_type,
        output,
    }
}

/// The exporter interval before the guard: subcommand, then top-level flag,
/// then file, then 1 second.
pub open spec fn exporter_raw_interval(
    sub_interval: Option<i32>,
    top_interval: Option<i32>,
    file: FileConfig,
) -> i32 {
    or_default(first_some(sub_interval, first_some(top_interval, file.interval)), 1)
}

/// Merges subcommand values, top-level command-line values and file values
/// into the exporter settings. The subcommand's values come first, then the
/// top-level flags, then the file, then the defaults (1 s, port 9090). An
/// interval of zero or below would busy-loop, so it becomes 1 second.
pub fn resolve_exporter(
    sub_targets: Vec<String>,
    sub_interval: Option<i32>,
    sub_port: Option<u16>,
    top_targets: Vec<String>,
    top_interval: Option<i32>,
    cli_force_ipv6: bool,
    file: &FileConfig,
) -> (r: ResolvedExporter)
    ensures
        string_views(r.targets@) == resolved_targets(
            if sub_targets@.len() > 0 { sub_targets@ } else { top_targets@ },
            *file,
        ),
        r.interval == (if exporter_raw_interval(sub_interval, top_interval, *file) <= 0 {
            1
        } else {
            exporter_raw_interval(sub_interval, top_interval, *file)
        }),
        r.interval >= 1,
        r.interval == (match sub_interval {
            Some(i) => if i <= 0 { 1 } else { i },
            None => match top_interval {
                Some(i) => if i <= 0 { 1 } else { i },
                None => match file.interval {
                    Some(i) => if i <= 0 { 1 } else { i },
                    None => 1,
                },
            },
        }),
        sub_interval is None && top_interval is None && file.interval is Some
            && file.interval->0 >= 1 ==> r.interval == file.interval->0,
        r.port == or_default(first_some(sub_port, file.port), 9090),
        r.port == (match sub_port {
            Some(p) => p,
            None => match file.port {
                Some(p) => p,
                None => 9090,
            },
        }),
        r.force_ipv6 == (cli_force_ipv6 || file.force_ipv6 == Some(true)),
{
    let cli_targets = if sub_targets.len() > 0 {
        sub_targets
    } else {
        top_targets
    };
    let interval = match sub_interval {
        Some(i) => i,
        None => match top_interval {
            Some(i) => i,
            None => match file.interval {
                Some(i) => i,
                None => 1,
            },
        },
    };
    let interval = if interval <= 0 {
        1
    } else {
        interval
    };
    let port = match sub_port {
        Some(p) => p,
        None => match file.port {
            Some(p) => p,
            None => 9090,
        },
    };
    let file_ipv6 = match file.force_ipv6 {
        Some(b) => b,
        None => false,
    };
    ResolvedExporter {
        targets: resolve_targets(cli_targets, file),
        interval,
        port,
        force_ipv6: cli_force_ipv6 || file_ipv6,
    }
}

/// A file that passed `validate` never makes the interactive interval
/// negative when the command line leaves the interval to the file.
pub proof fn lemma_valid_file_interval_nonnegative(file: FileConfig)
    requires
        file.problem() is None,
    ensures
        or_default(first_some(None::<i32>, file.interval), 0) >= 0,
        or_default(first_some(None::<i32>, file.interval), 0) <= MAX_INTERVAL,
{
}

/// A file that passed `validate` names a known mode or none.
pub proof fn lemma_valid_file_has_mode(file: FileConfig)
    requires
        file.problem() is None,
    ensures
        file.mode_result() is Ok,
{
}

/// Resolving an already resolved target list changes nothing: with the file
/// unchanged, the resolved list fed back as command-line targets comes out the same.
pub proof fn lemma_resolve_targets_idempotent(cli_targets: Seq<String>, again: Seq<String>, file: FileConfig)
    requires
        string_views(again) == resolved_targets(cli_targets, file),
        again.len() > 0,
    ensures
        resolved_targets(again, file) == resolved_targets(cli_targets, file),
{
    crate::dedup::lemma_dedup_idempotent(raw_targets(cli_targets, file));
}

/// A file that sets nothing but an interval from 0 to 86400 seconds is
/// accepted; 0 is a valid interval (it means the 500 ms default period).
pub proof fn lemma_interval_only_file_accepted(file: FileConfig, i: i32)
    requires
        file.mode is None,
        file.view_type is None,
        file.multiple is None,
        file.interval == Some(i),
        0 <= i <= 86400,
    ensures
        file.problem() is None,
{
}

/// A file is refused exactly when one of its fields is out of range: an unknown
/// mode or view name, an interval below 0 or above 86400, or a negative
/// `multiple`.
pub proof fn lemma_problem_iff_out_of_range(file: FileConfig)
    ensures
        file.problem() is None <==> {
            &&& (file.mode matches Some(m) ==> (m@ == "tui"@ || m@ == "exporter"@))
            &&& (file.view_type matches Some(v) ==> (v@ == "graph"@ || v@ == "table"@
                || v@ == "point"@ || v@ == "sparkline"@))
            &&& (file.interval matches Some(i) ==> 0 <= i <= 86400)
            &&& (file.multiple matches Some(m) ==> m >= 0)
        },
{
}

/// When neither the subcommand nor the top-level flag gives an interval, the
/// file's positive interval is the exporter's interval.
pub proof fn lemma_exporter_interval_from_file(
    sub_interval: Option<i32>,
    top_interval: Option<i32>,
    file: FileConfig,
    i: i32,
)
    requires
        sub_interval is None,
        top_interval is None,
        file.interval == Some(i),
        i >= 1,
    ensures
        exporter_raw_interval(sub_interval, top_interval, file) == i,
{
}

/// A positive interval from the subcommand wins over the top-level flag and
/// the file; a positive top-level interval wins over the file.
pub proof fn lemma_exporter_interval_precedence(
    sub_interval: Option<i32>,
    top_interval: Option<i32>,
    file: FileConfig,
)
    ensures
        sub_interval matches Some(i) ==> exporter_raw_interval(sub_interval, top_interval, file) == i,
        sub_interval is None ==> (top_interval matches Some(i) ==> exporter_raw_interval(
            sub_interval,
            top_interval,
            file,
        ) == i),
        sub_interval is None && top_interval is None && file.interval is None
            ==> exporter_raw_interval(sub_interval, top_interval, file) == 1,
{
}

} // verus!
