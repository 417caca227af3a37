use std::cmp::Ordering;
use ui::tab::{Tab, TabCloseSide, TabEdges, TabOrder, TabPosition, TabSlot};

type TestTab = Tab<&'static str, u32, u8>;

fn edges(bl: bool, br: bool, bb: bool, pl: bool, pr: bool, pb: bool) -> TabEdges {
    TabEdges {
        border_left: bl,
        border_right: br,
        border_bottom: bb,
        pad_left: pl,
        pad_right: pr,
        pad_bottom: pb,
    }
}

fn row_edges_of(position: TabPosition, selected: bool) -> TabEdges {
    TestTab::new("t").position(position).toggle_state(selected).render().style.edges
}

fn wrapped_edges_of(selected: bool, mid_row: bool, row_end: bool) -> TabEdges {
    TestTab::new("t")
        .wrap(true)
        .toggle_state(selected)
        .wrap_mid_row(mid_row)
        .wrap_row_end(row_end)
        .render()
        .style
        .edges
}

#[test]
fn new_tab_is_unselected_first_and_plain() {
    let out = TestTab::new("default").render();
    assert_eq!(out.id, "default");
    assert_eq!(out.style.edges, edges(false, false, true, true, true, false));
    assert!(!out.style.active_colors);
    assert!(!out.style.no_shrink);
    assert!(!out.style.extended);
    assert!(!out.style.bounds_probe);
    assert_eq!(out.style.first_slot, TabSlot::Start);
    assert_eq!(out.style.second_slot, TabSlot::End);
    assert_eq!(out.first_slot, None);
    assert_eq!(out.second_slot, None);
    assert!(out.children.is_empty());
    assert_eq!(out.extend_to, None);
    assert_eq!(out.report_bounds, None);
}

#[test]
fn row_edges_first() {
    assert_eq!(row_edges_of(TabPosition::First, true), edges(false, true, false, true, false, true));
    assert_eq!(row_edges_of(TabPosition::First, false), edges(false, false, true, true, true, false));
}

#[test]
fn row_edges_last() {
    assert_eq!(row_edges_of(TabPosition::Last, true), edges(true, true, false, false, false, true));
    assert_eq!(row_edges_of(TabPosition::Last, false), edges(false, true, true, true, false, false));
}

#[test]
fn row_edges_middle() {
    let equal = edges(true, true, false, false, false, true);
    assert_eq!(row_edges_of(TabPosition::Middle(TabOrder::Equal), true), equal);
    // The order, not the selection flag, decides a middle tab's edges.
    assert_eq!(row_edges_of(TabPosition::Middle(TabOrder::Equal), false), equal);
    assert_eq!(
        row_edges_of(TabPosition::Middle(TabOrder::Less), false),
        edges(true, false, true, false, true, false)
    );
    assert_eq!(
        row_edges_of(TabPosition::Middle(TabOrder::Greater), false),
        edges(false, true, true, true, false, false)
    );
}

#[test]
fn row_tab_size_is_constant() {
    let positions = [
        TabPosition::First,
        TabPosition::Last,
        TabPosition::Middle(TabOrder::Less),
        TabPosition::Middle(TabOrder::Equal),
        TabPosition::Middle(TabOrder::Greater),
    ];
    for position in positions {
        for selected in [false, true] {
            let e = row_edges_of(position, selected);
            assert_ne!(e.border_left, e.pad_left);
            assert_ne!(e.border_right, e.pad_right);
            assert_ne!(e.border_bottom, e.pad_bottom);
        }
    }
}

fn position_in_row(ix: usize, count: usize, selected_ix: usize) -> TabPosition {
    if ix == 0 {
        TabPosition::First
    } else if ix == count - 1 {
        TabPosition::Last
    } else {
        TabPosition::middle(ix.cmp(&selected_ix))
    }
}

#[test]
fn row_seams_have_one_border() {
    for count in 2..6usize {
        for selected_ix in 0..count {
            let row: Vec<TabEdges> = (0..count)
                .map(|ix| row_edges_of(position_in_row(ix, count, selected_ix), ix == selected_ix))
                .collect();
            for ix in 0..count - 1 {
                assert_ne!(row[ix].border_right, row[ix + 1].border_left);
            }
            assert!(!row[0].border_left);
            assert!(row[count - 1].border_right);
        }
    }
}

#[test]
fn wrapped_edges_unselected() {
    assert_eq!(wrapped_edges_of(false, false, false), edges(false, true, true, true, false, false));
    assert_eq!(wrapped_edges_of(false, true, true), edges(false, false, true, true, false, false));
}

#[test]
fn wrapped_edges_selected_final_row_connects() {
    assert_eq!(wrapped_edges_of(true, false, false), edges(false, true, false, true, false, true));
    assert_eq!(wrapped_edges_of(true, false, true), edges(false, false, false, true, false, true));
}

#[test]
fn wrapped_edges_selected_mid_row_keeps_separator() {
    assert_eq!(wrapped_edges_of(true, true, false), edges(false, true, true, true, false, true));
    // A row-end tab has no right border, selected or not.
    assert_eq!(wrapped_edges_of(true, true, true), edges(false, false, true, true, false, true));
}

#[test]
fn wrapped_edges_ignore_position() {
    let a = TestTab::new("a").wrap(true).position(TabPosition::Last).toggle_state(true).render();
    let b = TestTab::new("b").wrap(true).position(TabPosition::First).toggle_state(true).render();
    assert_eq!(a.style.edges, b.style.edges);
    assert!(a.style.no_shrink);
}

#[test]
fn close_side_start_swaps_slots() {
    let out = TestTab::new("t")
        .start_slot(Some(10))
        .end_slot(Some(20))
        .close_side(TabCloseSide::Start)
        .render();
    assert_eq!(out.style.first_slot, TabSlot::End);
    assert_eq!(out.style.second_slot, TabSlot::Start);
    assert_eq!(out.first_slot, Some(20));
    assert_eq!(out.second_slot, Some(10));

    let out = TestTab::new("t").start_slot(Some(10)).end_slot(Some(20)).render();
    assert_eq!(out.first_slot, Some(10));
    assert_eq!(out.second_slot, Some(20));
}

#[test]
fn slot_can_be_cleared() {
    let out = TestTab::new("t").end_slot(Some(5)).end_slot(None).render();
    assert_eq!(out.second_slot, None);
}

#[test]
fn extend_to_and_report_bounds_are_handed_over() {
    let out = TestTab::new("t").extend_to(240).report_bounds(9).render();
    assert!(out.style.extended);
    assert!(out.style.bounds_probe);
    assert_eq!(out.extend_to, Some(240));
    assert_eq!(out.report_bounds, Some(9));
}

#[test]
fn selected_tab_takes_active_colors() {
    let out = TestTab::new("selected").toggle_state(true).render();
    assert!(out.style.active_colors);
    let out = TestTab::new("selected").toggle_state(true).toggle_state(false).render();
    assert!(!out.style.active_colors);
}

#[test]
fn children_keep_their_order() {
    let mut tab = TestTab::new("t");
    tab.extend(vec![1, 2]);
    tab.extend(vec![3]);
    tab.extend(vec![]);
    tab.extend(vec![4, 5, 6]);
    assert_eq!(tab.render().children, vec![1, 2, 3, 4, 5, 6]);
}

#[test]
fn order_converts_both_ways() {
    for ordering in [Ordering::Less, Ordering::Equal, Ordering::Greater] {
        assert_eq!(TabOrder::from_ordering(ordering).to_ordering(), ordering);
    }
    assert_eq!(TabOrder::from_ordering(Ordering::Less), TabOrder::Less);
    assert_eq!(TabOrder::from_ordering(Ordering::Greater), TabOrder::Greater);
    assert_eq!(TabPosition::middle(Ordering::Equal), TabPosition::Middle(TabOrder::Equal));
}

#[test]
fn position_last_call_wins_and_commutes() {
    let a = TestTab::new("t")
        .position(TabPosition::Last)
        .position(TabPosition::Middle(TabOrder::Less))
        .toggle_state(true)
        .close_side(TabCloseSide::Start)
        .render();
    let b = TestTab::new("t")
        .toggle_state(true)
        .close_side(TabCloseSide::Start)
        .position(TabPosition::Middle(TabOrder::Less))
        .render();
    assert_eq!(a.style, b.style);
    assert_eq!(a.style.edges, row_edges_of(TabPosition::Middle(TabOrder::Less), true));
}
