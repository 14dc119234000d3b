use egui_kittest_demo::layout::{scale_bucket, CARD_COUNT};
use egui_kittest_demo::{column_count, distribute_cards, layout_mode, DemoApp, LayoutMode, ScaleBucket};

#[test]
fn test_semantic_layout_indicators() {
    let mut app = DemoApp::new();

    let narrow = app.plan_frame(360);
    assert_eq!(narrow.layout, LayoutMode::Stacked);
    assert_eq!(narrow.columns, 1);

    let medium = app.plan_frame(820);
    assert_eq!(medium.layout, LayoutMode::SidePlusCentral);
    assert_eq!(medium.columns, 2);

    let wide = app.plan_frame(1280);
    assert_eq!(wide.columns, 3);
}

#[test]
fn wide_grid_geometry_columns_order() {
    let mut app = DemoApp::new();
    let plan = app.plan_frame(1280);
    assert_eq!(plan.columns, 3);
    let columns = distribute_cards(CARD_COUNT, plan.columns);
    // The first row holds cards 1, 2, 3 (indices 0, 1, 2), left to right.
    let first_row: Vec<usize> = columns.iter().map(|c| c[0]).collect();
    assert_eq!(first_row, vec![0, 1, 2]);
}

#[test]
fn scroll_to_view_offscreen_card() {
    let mut app = DemoApp::new();
    let plan = app.plan_frame(320);
    let columns = distribute_cards(CARD_COUNT, plan.columns);
    assert!(columns.iter().any(|c| c.contains(&5)));
}

#[test]
fn test_all_cards_visible_via_scroll_narrow() {
    let mut app = DemoApp::new();
    let plan = app.plan_frame(320);
    assert_eq!(plan.layout, LayoutMode::Stacked);
    let columns = distribute_cards(CARD_COUNT, plan.columns);
    for i in 1..=6usize {
        assert!(columns.iter().any(|c| c.contains(&(i - 1))), "card {i} missing");
    }
}

#[test]
fn test_small_window_has_scrollbar_and_accessible_content() {
    let mut app = DemoApp::new();
    let plan = app.plan_frame(300);
    assert_eq!(plan.layout, LayoutMode::Stacked);
    let columns = distribute_cards(CARD_COUNT, plan.columns);
    assert_eq!(columns, vec![vec![0, 1, 2, 3, 4, 5]]);
}

#[test]
fn narrow_widths_stack_with_one_column() {
    for w in [0u32, 1, 320, 360, 599] {
        assert_eq!(layout_mode(w), LayoutMode::Stacked);
        assert_eq!(column_count(w), 1);
        assert_eq!(scale_bucket(w), ScaleBucket::Small);
    }
}

#[test]
fn medium_widths_go_side_by_side_with_two_columns() {
    for w in [600u32, 601, 820, 899] {
        assert_eq!(layout_mode(w), LayoutMode::SidePlusCentral);
        assert_eq!(column_count(w), 2);
        assert_eq!(scale_bucket(w), ScaleBucket::Medium);
    }
}

#[test]
fn wide_widths_go_side_by_side_with_three_columns() {
    for w in [900u32, 901, 1280, 4000, u32::MAX] {
        assert_eq!(layout_mode(w), LayoutMode::SidePlusCentral);
        assert_eq!(column_count(w), 3);
        assert_eq!(scale_bucket(w), ScaleBucket::Large);
    }
}

#[test]
fn six_cards_over_three_columns() {
    assert_eq!(distribute_cards(6, 3), vec![vec![0, 3], vec![1, 4], vec![2, 5]]);
}

#[test]
fn six_cards_over_two_columns() {
    assert_eq!(distribute_cards(6, 2), vec![vec![0, 2, 4], vec![1, 3, 5]]);
}

#[test]
fn six_cards_over_one_column() {
    assert_eq!(distribute_cards(6, 1), vec![vec![0, 1, 2, 3, 4, 5]]);
}

#[test]
fn fewer_cards_than_columns_leaves_columns_empty() {
    assert_eq!(distribute_cards(2, 3), vec![vec![0], vec![1], vec![]]);
    assert_eq!(distribute_cards(0, 2), vec![Vec::<usize>::new(), vec![]]);
}

#[test]
fn resize_there_and_back_restores_layout() {
    let mut app = DemoApp::new();
    let first = app.plan_frame(360);
    let zoom_first = app.zoom_percent;
    let wide = app.plan_frame(1280);
    assert_eq!(wide.layout, LayoutMode::SidePlusCentral);
    assert_eq!(wide.columns, 3);
    let back = app.plan_frame(360);
    assert_eq!(back.layout, first.layout);
    assert_eq!(back.columns, first.columns);
    assert_eq!(back.scale_percent, first.scale_percent);
    assert_eq!(app.zoom_percent, zoom_first);
}
