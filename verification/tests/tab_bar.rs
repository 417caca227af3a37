use std::rc::Rc;
use ui::tab_bar::{GroupEdges, TabBar, TabBarLayout};

type TestBar = TabBar<&'static str, u32, u8>;

fn layout(
    stacked_rows: bool,
    start_group: bool,
    end_group: bool,
    bar_bounds_probe: bool,
    actions_bounds_probe: bool,
    tracks_scroll: bool,
) -> TabBarLayout {
    TabBarLayout {
        stacked_rows,
        start_group,
        end_group,
        start_edges: GroupEdges { border_left: false, border_right: true, border_bottom: true },
        end_edges: GroupEdges { border_left: true, border_right: false, border_bottom: true },
        bar_bounds_probe,
        actions_bounds_probe,
        tracks_scroll,
    }
}

#[test]
fn empty_bar_shows_only_the_row() {
    let out = TestBar::new("empty_tab_bar").render();
    assert_eq!(out.id, "empty_tab_bar");
    assert_eq!(out.layout, layout(false, false, false, false, false, false));
    assert!(out.start_children.is_empty());
    assert!(out.children.is_empty());
    assert!(out.end_children.is_empty());
    assert_eq!(out.scroll_handle, None);
}

#[test]
fn full_bar_shows_both_groups() {
    let mut bar = TestBar::new("full_tab_bar").start_child(1).end_child(5);
    bar.extend(vec![2, 3, 4]);
    let out = bar.render();
    assert_eq!(out.layout, layout(false, true, true, false, false, false));
    assert_eq!(out.start_children, vec![1]);
    assert_eq!(out.children, vec![2, 3, 4]);
    assert_eq!(out.end_children, vec![5]);
}

#[test]
fn row_tracks_scroll_handle() {
    let out = TestBar::new("tabs").track_scroll(&42).render();
    assert!(out.layout.tracks_scroll);
    assert_eq!(out.scroll_handle, Some(42));
}

#[test]
fn scroll_handle_is_cloned() {
    let handle = Rc::new(7u32);
    let out = TabBar::<&str, Rc<u32>, u8>::new("tabs").track_scroll(&handle).render();
    let kept = out.scroll_handle.unwrap();
    assert!(Rc::ptr_eq(&kept, &handle));
    assert_eq!(Rc::strong_count(&handle), 2);
}

#[test]
fn row_reports_no_bounds() {
    let out = TestBar::new("b").report_bounds(1).report_actions_bounds(2).end_child(9).render();
    assert_eq!(out.layout, layout(false, false, true, false, false, false));
    assert_eq!(out.report_bounds, Some(1));
    assert_eq!(out.report_actions_bounds, Some(2));
}

#[test]
fn stacked_rows_hide_start_children() {
    let out = TestBar::new("wrapped_tab_bar")
        .wrap(true)
        .start_child(1)
        .track_scroll(&3)
        .report_bounds(4)
        .render();
    assert_eq!(out.layout, layout(true, false, false, true, false, false));
    assert_eq!(out.start_children, vec![1]);
}

#[test]
fn stacked_rows_report_actions_only_with_end_children() {
    let no_end = TestBar::new("w").wrap(true).report_actions_bounds(2).render();
    assert!(!no_end.layout.end_group);
    assert!(!no_end.layout.actions_bounds_probe);

    let with_end = TestBar::new("w").wrap(true).report_actions_bounds(2).end_child(8).render();
    assert_eq!(with_end.layout, layout(true, false, true, false, true, false));
}

#[test]
fn children_lists_keep_order() {
    let bar = TestBar::new("b")
        .start_children(vec![1, 2, 3])
        .start_child(4)
        .end_children(vec![7, 8])
        .end_children(vec![])
        .end_child(9);
    let out = bar.render();
    assert_eq!(out.start_children, vec![1, 2, 3, 4]);
    assert_eq!(out.end_children, vec![7, 8, 9]);
}

#[test]
fn children_mut_changes_the_bar() {
    let mut bar = TestBar::new("b");
    bar.start_children_mut().push(11);
    bar.end_children_mut().extend(vec![12, 13]);
    let out = bar.render();
    assert_eq!(out.start_children, vec![11]);
    assert_eq!(out.end_children, vec![12, 13]);
    assert!(out.layout.start_group && out.layout.end_group);
}
