//! The integer side of the screen layout: how the per-target cards are laid
//! out in a grid, how the header row is shared, the header's totals, and the
//! badges and frames that are picked by position.

use vstd::prelude::*;

verus! {

/// The narrowest a latency chart card may be, in terminal columns.
pub const MIN_CHART_WIDTH: u16 = 48;

/// The width of the metrics part of the header, in terminal columns.
pub const METRICS_WIDTH: u16 = 58;

/// Height of one target block in the point view, in rows.
pub const POINT_BLOCK_HEIGHT: u16 = 5;

/// Number of card columns for `n` targets on a screen `width` columns wide:
/// as many as fit at the minimum card width, at least one, at most `n`.
pub open spec fn grid_cols(width: u16, n: nat) -> nat {
    let fit = (width / MIN_CHART_WIDTH) as nat;
    let at_least_one = if fit < 1 { 1 } else { fit };
    if at_least_one < n { at_least_one } else { n }
}

/// Number of card rows: `n` cards in rows of `cols`, rounded up.
pub open spec fn grid_rows(n: nat, cols: nat) -> nat {
    if n % cols == 0 { n / cols } else { n / cols + 1 }
}

/// Columns and rows of the chart grid for `n > 0` targets on a screen
/// `width` columns wide.
pub fn graph_grid(width: u16, n: usize) -> (r: (usize, usize))
    requires
        n > 0,
    ensures
        r.0 == grid_cols(width, n as nat),
        r.1 == grid_rows(n as nat, r.0 as nat),
        1 <= r.0 <= n,
        1 <= r.1 <= n,
        (r.1 - 1) * r.0 < n <= r.1 * r.0,
        r.0 == 1 || r.0 * 48 <= width,
        r.0 == n || (r.0 + 1) * 48 > width,
        r.0 == (if (width / 48) as int >= n {
            n as int
        } else if width / 48 < 1 {
            1
        } else {
            (width / 48) as int
        }),
{
    let fit = (width / MIN_CHART_WIDTH) as usize;
    let cols = if fit < 1 { 1 } else { fit };
    let cols = if cols < n { cols } else { n };
    proof {
        lemma_grid_bounds(n as nat, cols as nat);
        lemma_grid_cols_fit(width, n as nat);
    }
    let rows = if n % cols == 0 { n / cols } else { n / cols + 1 };
    (cols, rows)
}

/// The grid has as many columns as cards of 48 columns fit side by side, at
/// least one and at most one per target: the chosen count fits the width
/// (unless it is the single forced column), and one more column would not fit
/// (unless every target already has its own column).
pub proof fn lemma_grid_cols_fit(width: u16, n: nat)
    requires
        n > 0,
    ensures
        1 <= grid_cols(width, n) <= n,
        grid_cols(width, n) == 1 || grid_cols(width, n) * 48 <= width,
        grid_cols(width, n) == n || (grid_cols(width, n) + 1) * 48 > width,
{
    let f = (width / MIN_CHART_WIDTH) as nat;
    let c = grid_cols(width, n);
    assert(f * 48 <= width && width < (f + 1) * 48) by (nonlinear_arith)
        requires
            f == width / 48,
    ;
    if c != 1 && c != f {
        assert(c == n && n < f);
        assert(c * 48 <= f * 48) by (nonlinear_arith)
            requires
                c <= f,
        ;
    }
    if c != n {
        if c == f {
        } else {
            assert(c == 1 && f < 1);
        }
    }
}

/// With `cols > 0` columns, the rounded-up row count holds every card, and
/// one row fewer would not.
pub proof fn lemma_grid_bounds(n: nat, cols: nat)
    requires
        n > 0,
        1 <= cols <= n,
    ensures
        1 <= grid_rows(n, cols) <= n,
        (grid_rows(n, cols) - 1) * cols < n <= grid_rows(n, cols) * cols,
{
    let q = n / cols;
    let m = n % cols;
    assert(n == q * cols + m && 0 <= m < cols) by (nonlinear_arith)
        requires
            cols > 0,
            q == n / cols,
            m == n % cols,
    ;
    assert(q >= 1) by (nonlinear_arith)
        requires
            n == q * cols + m,
            0 <= m < cols,
            cols <= n,
    ;
    assert(q <= n) by (nonlinear_arith)
        requires
            n == q * cols + m,
            cols >= 1,
            m >= 0,
    ;
    if m == 0 {
        assert((q - 1) * cols < n) by (nonlinear_arith)
            requires
                n == q * cols,
                cols >= 1,
        ;
    } else {
        assert(q + 1 <= n) by (nonlinear_arith)
            requires
                n == q * cols + m,
                cols >= 1,
                m >= 1,
                q >= 1,
                m < cols,
        ;
        assert(n <= (q + 1) * cols) by (nonlinear_arith)
            requires
                n == q * cols + m,
                m < cols,
        ;
    }
}

/// The targets shown in grid row `row`: from `row * cols` up to, but not
/// including, `row * cols + cols` or `n`, whichever comes first.
pub fn grid_row_range(row: usize, cols: usize, n: usize) -> (r: (usize, usize))
    requires
        cols > 0,
        row * cols < n,
        (row + 1) * cols <= usize::MAX,
    ensures
        r.0 == row * cols,
        r.1 == (if row * cols + cols < n { row * cols + cols } else { n as int }),
        r.0 < r.1 <= n,
        r.1 - r.0 <= cols,
{
    proof {
        assert((row + 1) * cols == row * cols + cols) by (nonlinear_arith);
    }
    let start = row * cols;
    let end = if start + cols < n {
        start + cols
    } else {
        n
    };
    (start, end)
}

/// The grid rows share the targets out: row 0 starts at the first target, each
/// row ends where the next begins, and the last row ends at the last target.
/// So every target is drawn in exactly one card.
pub proof fn lemma_grid_rows_partition(n: nat, cols: nat, row: nat)
    requires
        1 <= cols <= n,
        row < grid_rows(n, cols),
    ensures
        row * cols < n,
        row + 1 < grid_rows(n, cols) ==> row * cols + cols < n && (row + 1) * cols
            == row * cols + cols,
        row + 1 == grid_rows(n, cols) ==> row * cols + cols >= n,
{
    lemma_grid_bounds(n, cols);
    let rows = grid_rows(n, cols);
    assert(row * cols <= (rows - 1) * cols) by (nonlinear_arith)
        requires
            row <= rows - 1,
    ;
    assert((row + 1) * cols == row * cols + cols) by (nonlinear_arith);
    if row + 1 < rows {
        assert((row + 1) * cols <= (rows - 1) * cols) by (nonlinear_arith)
            requires
                row + 1 <= rows - 1,
        ;
    } else {
        assert(row * cols + cols == rows * cols) by (nonlinear_arith)
            requires
                row + 1 == rows,
        ;
    }
}

/// Height share of each grid row, in percent: `100 / rows`, with `rows`
/// taken as a 16-bit count.
pub fn row_percentage(rows: usize) -> (r: u16)
    requires
        (rows as u16) != 0,
    ensures
        r == 100u16 / (rows as u16),
{
    100 / (rows as u16)
}

/// How the header's inner row of `width` columns is shared: the activity bar
/// gets what the metrics (at most 58 columns) leave over.
pub fn header_columns(width: u16) -> (r: (u16, u16))
    ensures
        r.1 == (if METRICS_WIDTH < width { METRICS_WIDTH } else { width }),
        r.0 == width - r.1,
        r.0 + r.1 == width,
{
    let metrics = if METRICS_WIDTH < width {
        METRICS_WIDTH
    } else {
        width
    };
    (width - metrics, metrics)
}

/// Sum of the first components (received replies) of `s`.
pub open spec fn sum_received(s: Seq<(usize, usize)>) -> nat
    decreases s.len(),
{
    if s.len() == 0 {
        0
    } else {
        sum_received(s.drop_last()) + (s.last().0 as nat)
    }
}

/// Sum of the second components (timeouts) of `s`.
pub open spec fn sum_timeouts(s: Seq<(usize, usize)>) -> nat
    decreases s.len(),
{
    if s.len() == 0 {
        0
    } else {
        sum_timeouts(s.drop_last()) + (s.last().1 as nat)
    }
}

/// Number of targets in `s` that have received at least one reply.
pub open spec fn count_alive(s: Seq<(usize, usize)>) -> nat
    decreases s.len(),
{
    if s.len() == 0 {
        0
    } else {
        count_alive(s.drop_last()) + if s.last().0 > 0 { 1nat } else { 0nat }
    }
}

/// A target counts as alive exactly when it has received at least one reply,
/// whatever its timeouts: the alive count is the number of entries with a
/// positive received count.
pub proof fn lemma_alive_counts_replying(s: Seq<(usize, usize)>)
    ensures
        count_alive(s) == s.filter(|p: (usize, usize)| p.0 > 0).len(),
    decreases s.len(),
{
    reveal_with_fuel(Seq::<(usize, usize)>::filter, 1);
    if s.len() > 0 {
        lemma_alive_counts_replying(s.drop_last());
    }
}

/// Timeouts never change the alive count: two lists with the same received
/// counts, entry by entry, have the same number of alive targets.
pub proof fn lemma_alive_ignores_timeouts(a: Seq<(usize, usize)>, b: Seq<(usize, usize)>)
    requires
        a.len() == b.len(),
        forall|i: int| 0 <= i < a.len() ==> #[trigger] a[i].0 == b[i].0,
    ensures
        count_alive(a) == count_alive(b),
    decreases a.len(),
{
    if a.len() > 0 {
        let (a1, b1) = (a.drop_last(), b.drop_last());
        assert forall|i: int| 0 <= i < a1.len() implies #[trigger] a1[i].0 == b1[i].0 by {
            assert(a[i].0 == b[i].0);
        }
        lemma_alive_ignores_timeouts(a1, b1);
        assert(a.last().0 == b.last().0);
    }
}

/// A prefix's sums are no larger than the whole sequence's.
pub proof fn lemma_prefix_sums_bounded(s: Seq<(usize, usize)>, i: int)
    requires
        0 <= i <= s.len(),
    ensures
        sum_received(s.take(i)) <= sum_received(s),
        sum_timeouts(s.take(i)) <= sum_timeouts(s),
        count_alive(s.take(i)) <= count_alive(s),
        count_alive(s) <= s.len(),
    decreases s.len(),
{
    if s.len() > 0 {
        if i == s.len() {
            assert(s.take(i) =~= s);
            lemma_prefix_sums_bounded(s.drop_last(), s.len() - 1);
            assert(s.drop_last().take(s.len() - 1) =~= s.drop_last());
        } else {
            lemma_prefix_sums_bounded(s.drop_last(), i);
            assert(s.drop_last().take(i) =~= s.take(i));
        }
    }
}

/// The header's totals over all targets, each given as (received, timeouts):
/// the replies received, the timeouts, and how many targets replied at least once.
pub fn header_counts(stats: &Vec<(usize, usize)>) -> (r: (usize, usize, usize))
    requires
        sum_received(stats@) <= usize::MAX,
        sum_timeouts(stats@) <= usize::MAX,
    ensures
        r.0 == sum_received(stats@),
        r.1 == sum_timeouts(stats@),
        r.2 == count_alive(stats@),
        r.2 <= stats@.len(),
        r.2 == stats@.filter(|p: (usize, usize)| p.0 > 0).len(),
{
    let mut recv: usize = 0;
    let mut timeouts: usize = 0;
    let mut alive: usize = 0;
    let mut i: usize = 0;
    proof {
        lemma_prefix_sums_bounded(stats@, stats@.len() as int);
    }
    while i < stats.len()
        invariant
            i <= stats@.len(),
            sum_received(stats@) <= usize::MAX,
            sum_timeouts(stats@) <= usize::MAX,
            count_alive(stats@) <= stats@.len(),
            recv == sum_received(stats@.take(i as int)),
            timeouts == sum_timeouts(stats@.take(i as int)),
            alive == count_alive(stats@.take(i as int)),
        decreases stats@.len() - i,
    {
        proof {
            lemma_prefix_sums_bounded(stats@, i + 1);
            assert(stats@.take(i + 1).drop_last() =~= stats@.take(i as int));
            lemma_prefix_sums_bounded(stats@.take(i + 1), i + 1);
        }
        let (r, t) = stats[i];
        recv = recv + r;
        timeouts = timeouts + t;
        if r > 0 {
            alive = alive + 1;
        }
        i = i + 1;
    }
    assert(stats@.take(stats@.len() as int) =~= stats@);
    proof {
        lemma_alive_counts_replying(stats@);
    }
    (recv, timeouts, alive)
}

/// The badge in front of the table row at rank `index` of `n`: medals for the
/// first three, a tortoise for the last when there are more than three, and
/// an arrow otherwise.
pub open spec fn rank_badge_text(index: nat, n: nat) -> Seq<char> {
    if index == 0 {
        "\u{1F947}"@
    } else if index == 1 {
        "\u{1F948}"@
    } else if index == 2 {
        "\u{1F949}"@
    } else if index + 1 == n && n > 3 {
        "\u{1F422}"@
    } else {
        "\u{25B8}"@
    }
}

/// The badge in front of the table row at rank `index` of `n` rows.
pub fn rank_badge(index: usize, n: usize) -> (r: &'static str)
    requires
        index < n,
    ensures
        r@ == rank_badge_text(index as nat, n as nat),
{
    if index == 0 {
        "\u{1F947}"
    } else if index == 1 {
        "\u{1F948}"
    } else if index == 2 {
        "\u{1F949}"
    } else if index + 1 == n && n > 3 {
        "\u{1F422}"
    } else {
        "\u{25B8}"
    }
}

/// Number of frames of the header's spinner.
pub const HEARTBEAT_FRAMES: usize = 10;

/// The spinner frames, in order.
pub open spec fn heartbeat_frames() -> Seq<Seq<char>> {
    seq![
        "\u{280B}"@,
        "\u{2819}"@,
        "\u{2839}"@,
        "\u{2838}"@,
        "\u{283C}"@,
        "\u{2834}"@,
        "\u{2826}"@,
        "\u{2827}"@,
        "\u{2807}"@,
        "\u{280F}"@,
    ]
}

/// The spinner frame shown at animation tick `tick`: frame `tick mod 10`,
/// the tick taken as a machine word.
pub fn heartbeat_frame(tick: u64) -> (r: &'static str)
    ensures
        r@ == heartbeat_frames()[((tick as usize) % HEARTBEAT_FRAMES) as int],
{
    let i = (tick as usize) % HEARTBEAT_FRAMES;
    if i == 0 {
        "\u{280B}"
    } else if i == 1 {
        "\u{2819}"
    } else if i == 2 {
        "\u{2839}"
    } else if i == 3 {
        "\u{2838}"
    } else if i == 4 {
        "\u{283C}"
    } else if i == 5 {
        "\u{2834}"
    } else if i == 6 {
        "\u{2826}"
    } else if i == 7 {
        "\u{2827}"
    } else if i == 8 {
        "\u{2807}"
    } else {
        "\u{280F}"
    }
}

/// Height of the point view's block of `n` targets: five rows each, with the
/// count taken as 16 bits, plus a margin row above and below.
pub fn point_blocks_height(n: usize) -> (r: u16)
    requires
        (n as u16) * POINT_BLOCK_HEIGHT + 2 <= u16::MAX,
    ensures
        r == (n as u16) * POINT_BLOCK_HEIGHT + 2,
{
    (n as u16) * POINT_BLOCK_HEIGHT + 2
}

/// Where a window of the last `window` samples starts in a series of `len`:
/// `len - window`, or 0 when the series is shorter than the window.
pub fn window_start(len: usize, window: usize) -> (r: usize)
    ensures
        r == (if len > window { len - window } else { 0 }),
        r <= len,
        len - r <= window,
{
    len.saturating_sub(window)
}

/// How many of the latest errors the errors panel shows.
pub const RECENT_ERRORS: usize = 5;

/// The latest errors, newest first, at most five of them.
pub fn recent_errors(errs: &Vec<String>) -> (r: Vec<String>)
    ensures
        r@.len() == (if errs@.len() < RECENT_ERRORS { errs@.len() } else { RECENT_ERRORS as nat }),
        forall|i: int| 0 <= i < r@.len() ==> #[trigger] r@[i]@ == errs@[errs@.len() - 1 - i]@,
{
    let n = errs.len();
    let k = if n < RECENT_ERRORS {
        n
    } else {
        RECENT_ERRORS
    };
    let mut out: Vec<String> = Vec::new();
    let mut i: usize = 0;
    while i < k
        invariant
            n == errs@.len(),
            k <= n,
            k == (if n < RECENT_ERRORS { n } else { RECENT_ERRORS }),
            i <= k,
            out@.len() == i,
            forall|j: int| 0 <= j < i ==> #[trigger] out@[j]@ == errs@[n - 1 - j]@,
        decreases k - i,
    {
        let e = errs[n - 1 - i].clone();
        out.push(e);
        i = i + 1;
    }
    out
}

} // verus!
