use nbping::layout::{
    graph_grid, grid_row_range, header_columns, header_counts, heartbeat_frame,
    point_blocks_height, rank_badge, recent_errors, row_percentage, window_start,
};

#[test]
fn grid_columns_follow_width() {
    assert_eq!(graph_grid(100, 5), (2, 3));
    assert_eq!(graph_grid(10, 3), (1, 3));
    assert_eq!(graph_grid(480, 3), (3, 1));
    assert_eq!(graph_grid(200, 7), (4, 2));
    assert_eq!(graph_grid(0, 1), (1, 1));
}

#[test]
fn grid_rows_cover_every_target_once() {
    let n = 7;
    let (cols, rows) = graph_grid(200, n);
    let mut covered = Vec::new();
    for row in 0..rows {
        let (start, end) = grid_row_range(row, cols, n);
        covered.extend(start..end);
    }
    assert_eq!(covered, (0..n).collect::<Vec<_>>());
    assert_eq!(grid_row_range(1, 4, 7), (4, 7));
}

#[test]
fn row_share_in_percent() {
    assert_eq!(row_percentage(1), 100);
    assert_eq!(row_percentage(3), 33);
    assert_eq!(row_percentage(200), 0);
}

#[test]
fn header_splits_bar_and_metrics() {
    assert_eq!(header_columns(100), (42, 58));
    assert_eq!(header_columns(58), (0, 58));
    assert_eq!(header_columns(30), (0, 30));
}

#[test]
fn header_totals() {
    assert_eq!(header_counts(&vec![(3, 1), (0, 4), (2, 0)]), (5, 5, 2));
    assert_eq!(header_counts(&vec![]), (0, 0, 0));
}

#[test]
fn table_rank_badges() {
    assert_eq!(rank_badge(0, 5), "🥇");
    assert_eq!(rank_badge(1, 5), "🥈");
    assert_eq!(rank_badge(2, 5), "🥉");
    assert_eq!(rank_badge(3, 5), "▸");
    assert_eq!(rank_badge(4, 5), "🐢");
    assert_eq!(rank_badge(2, 3), "🥉");
    assert_eq!(rank_badge(3, 4), "🐢");
}

#[test]
fn heartbeat_cycles_every_ten_ticks() {
    assert_eq!(heartbeat_frame(0), "⠋");
    assert_eq!(heartbeat_frame(9), "⠏");
    assert_eq!(heartbeat_frame(10), heartbeat_frame(0));
    assert_eq!(heartbeat_frame(13), "⠸");
}

#[test]
fn point_view_height() {
    assert_eq!(point_blocks_height(0), 2);
    assert_eq!(point_blocks_height(3), 17);
}

#[test]
fn windows_of_latest_samples() {
    assert_eq!(window_start(100, 60), 40);
    assert_eq!(window_start(10, 60), 0);
    assert_eq!(window_start(60, 60), 0);
}

#[test]
fn newest_errors_first() {
    let errs: Vec<String> = (1..=7).map(|i| format!("e{}", i)).collect();
    assert_eq!(recent_errors(&errs), vec!["e7", "e6", "e5", "e4", "e3"]);
    let few = vec!["x".to_string(), "y".to_string()];
    assert_eq!(recent_errors(&few), vec!["y", "x"]);
    assert!(recent_errors(&vec![]).is_empty());
}
