//! A single tab: the state its builder collects and the border, padding and
//! slot decisions its renderer makes.

use std::cmp::Ordering;
use vstd::prelude::*;
use crate::children::{ChildList, has_room};

verus! {

/// Where a middle tab stands with respect to the selected tab.
#[derive(Debug, PartialEq, Eq, Structural, Clone, Copy)]
pub enum TabOrder {
    /// The tab is before the selected tab.
    Less,
    /// The tab is the selected tab.
    Equal,
    /// The tab is after the selected tab.
    Greater,
}

/// Whether `order` names the same relation as `ordering`.
pub open spec fn order_matches(order: TabOrder, ordering: Ordering) -> bool {
    match order {
        TabOrder::Less => ordering == Ordering::Less,
        TabOrder::Equal => ordering == Ordering::Equal,
        TabOrder::Greater => ordering == Ordering::Greater,
    }
}

impl TabOrder {
    /// The order that an `Ordering` names.
    pub fn from_ordering(ordering: Ordering) -> (order: TabOrder)
        ensures
            order_matches(order, ordering),
    {
        match ordering {
            Ordering::Less => TabOrder::Less,
            Ordering::Equal => TabOrder::Equal,
            Ordering::Greater => TabOrder::Greater,
        }
    }

    /// The `Ordering` that this order names.
    pub fn to_ordering(self) -> (ordering: Ordering)
        ensures
            order_matches(self, ordering),
    {
        match self {
            TabOrder::Less => Ordering::Less,
            TabOrder::Equal => Ordering::Equal,
            TabOrder::Greater => Ordering::Greater,
        }
    }
}

/// The position of a [`Tab`] within a list of tabs.
#[derive(Debug, PartialEq, Eq, Structural, Clone, Copy)]
pub enum TabPosition {
    /// The tab is first in the list.
    First,
    /// The tab is in the middle of the list (i.e., it is not the first or last tab).
    ///
    /// The [`TabOrder`] is where this tab is positioned with respect to the selected tab.
    Middle(TabOrder),
    /// The tab is last in the list.
    Last,
}

impl TabPosition {
    /// A middle position, placed by an `Ordering` with respect to the selected tab.
    pub fn middle(ordering: Ordering) -> (position: TabPosition)
        ensures
            position matches TabPosition::Middle(order) && order_matches(order, ordering),
    {
        TabPosition::Middle(TabOrder::from_ordering(ordering))
    }
}

/// The side of a tab on which its close button sits.
#[derive(Debug, PartialEq, Eq, Structural, Clone, Copy)]
pub enum TabCloseSide {
    Start,
    End,
}

/// One of the two slots of a tab.
#[derive(Debug, PartialEq, Eq, Structural, Clone, Copy)]
pub enum TabSlot {
    /// The slot set by [`Tab::start_slot`].
    Start,
    /// The slot set by [`Tab::end_slot`].
    End,
}


/// The one-pixel borders and paddings on the left, right and bottom sides of
/// a tab (the top side never has either).
#[derive(Debug, PartialEq, Eq, Structural, Clone, Copy)]
pub struct TabEdges {
    pub border_left: bool,
    pub border_right: bool,
    pub border_bottom: bool,
    pub pad_left: bool,
    pub pad_right: bool,
    pub pad_bottom: bool,
}

/// Whether a tab at `position` is the selected one: the ends say so by
/// `selected`, a middle tab by its order with respect to the selected tab.
pub open spec fn is_active(position: TabPosition, selected: bool) -> bool {
    match position {
        TabPosition::First | TabPosition::Last => selected,
        TabPosition::Middle(order) => order == TabOrder::Equal,
    }
}

/// The edges of a tab in a single scrolling row.
///
/// The active tab has no bottom border (it opens onto the content below) and
/// pads its bottom instead. A side with no border is padded, so each tab is
/// one pixel wider on either side and one pixel taller whatever its state.
/// The left side has a border except on the first tab, on an unselected last
/// tab and on tabs after the selected one; the right side has a border
/// except on an unselected first tab and on tabs before the selected one.
pub open spec fn row_edges(position: TabPosition, selected: bool) -> TabEdges {
    let border_left = match position {
        TabPosition::First => false,
        TabPosition::Last => selected,
        TabPosition::Middle(order) => order != TabOrder::Greater,
    };
    let border_right = match position {
        TabPosition::First => selected,
        TabPosition::Last => true,
        TabPosition::Middle(order) => order != TabOrder::Less,
    };
    let active = is_active(position, selected);
    TabEdges {
        border_left,
        border_right,
        border_bottom: !active,
        pad_left: !border_left,
        pad_right: !border_right,
        pad_bottom: active,
    }
}

/// The edges of a tab laid out in wrapped rows.
///
/// Every tab pads its left side; the right side has a border on all but the
/// last tab of a row; every tab of a row with another row below it keeps its
/// bottom border, so the row separator stays continuous; the selected tab
/// pads its bottom, and in the final row it drops its bottom border and so
/// connects to the content below.
pub open spec fn wrapped_edges(selected: bool, mid_row: bool, row_end: bool) -> TabEdges {
    TabEdges {
        border_left: false,
        border_right: !row_end,
        border_bottom: !selected || mid_row,
        pad_left: true,
        pad_right: false,
        pad_bottom: selected,
    }
}

/// The edges of a tab, by its layout mode.
pub open spec fn tab_edges(
    wrap: bool,
    position: TabPosition,
    selected: bool,
    mid_row: bool,
    row_end: bool,
) -> TabEdges {
    if wrap {
        wrapped_edges(selected, mid_row, row_end)
    } else {
        row_edges(position, selected)
    }
}

impl TabEdges {
    /// Edges from their six flags.
    pub fn new(
        border_left: bool,
        border_right: bool,
        border_bottom: bool,
        pad_left: bool,
        pad_right: bool,
        pad_bottom: bool,
    ) -> (edges: TabEdges)
        ensures
            edges == (TabEdges {
                border_left,
                border_right,
                border_bottom,
                pad_left,
                pad_right,
                pad_bottom,
            }),
    {
        TabEdges { border_left, border_right, border_bottom, pad_left, pad_right, pad_bottom }
    }

    /// The edges of a tab, by its layout mode, position, selection and row.
    pub fn for_tab(
        wrap: bool,
        position: TabPosition,
        selected: bool,
        mid_row: bool,
        row_end: bool,
    ) -> (edges: TabEdges)
        ensures
            edges == tab_edges(wrap, position, selected, mid_row, row_end),
    {
        if wrap {
            if selected {
                if mid_row {
                    // pl_px, border_r (unless row end), border_b, pb_px
                    TabEdges::new(false, !row_end, true, true, false, true)
                } else {
                    // pl_px, border_r (unless row end), pb_px
                    TabEdges::new(false, !row_end, false, true, false, true)
                }
            } else {
                // pl_px, border_r (unless row end), border_b
                TabEdges::new(false, !row_end, true, true, false, false)
            }
        } else {
            match position {
                TabPosition::First => {
                    if selected {
                        // pl_px, border_r, pb_px
                        TabEdges::new(false, true, false, true, false, true)
                    } else {
                        // pl_px, pr_px, border_b
                        TabEdges::new(false, false, true, true, true, false)
                    }
                },
                TabPosition::Last => {
                    if selected {
                        // border_l, border_r, pb_px
                        TabEdges::new(true, true, false, false, false, true)
                    } else {
                        // pl_px, border_b, border_r
                        TabEdges::new(false, true, true, true, false, false)
                    }
                },
                TabPosition::Middle(TabOrder::Equal) => {
                    // border_l, border_r, pb_px
                    TabEdges::new(true, true, false, false, false, true)
                },
                TabPosition::Middle(TabOrder::Less) => {
                    // border_l, pr_px, border_b
                    TabEdges::new(true, false, true, false, true, false)
                },
                TabPosition::Middle(TabOrder::Greater) => {
                    // border_r, pl_px, border_b
                    TabEdges::new(false, true, true, true, false, false)
                },
            }
        }
    }
}


/// The styling decisions of a tab's renderer.
#[derive(Debug, PartialEq, Eq, Structural, Clone, Copy)]
pub struct TabStyle {
    /// Its one-pixel borders and paddings.
    pub edges: TabEdges,
    /// Whether it takes the active text and background colors (else the muted
    /// text and inactive background).
    pub active_colors: bool,
    /// Whether it never shrinks (wrapped tabs have no ellipsis to make room for).
    pub no_shrink: bool,
    /// Whether it takes its extended width and pushes its second slot to the
    /// right edge with a spacer.
    pub extended: bool,
    /// Whether its content carries a probe that reports the laid-out bounds.
    pub bounds_probe: bool,
    /// The slot shown before the children.
    pub first_slot: TabSlot,
    /// The slot shown after the children.
    pub second_slot: TabSlot,
}

/// The slot shown before the children: the close button goes last, so a tab
/// that closes at its end leads with its start slot and one that closes at
/// its start leads with its end slot.
pub open spec fn leading_slot(close_side: TabCloseSide) -> TabSlot {
    match close_side {
        TabCloseSide::End => TabSlot::Start,
        TabCloseSide::Start => TabSlot::End,
    }
}

/// The other slot.
pub open spec fn other_slot(slot: TabSlot) -> TabSlot {
    match slot {
        TabSlot::Start => TabSlot::End,
        TabSlot::End => TabSlot::Start,
    }
}

/// The style a tab in `state` is rendered with.
pub open spec fn tab_style<I, W, R>(state: TabState<I, W, R>) -> TabStyle {
    TabStyle {
        edges: tab_edges(
            state.wrap,
            state.position,
            state.selected,
            state.wrap_mid_row,
            state.wrap_row_end,
        ),
        active_colors: state.selected,
        no_shrink: state.wrap,
        extended: state.extend_to is Some,
        bounds_probe: state.report_bounds is Some,
        first_slot: leading_slot(state.close_side),
        second_slot: other_slot(leading_slot(state.close_side)),
    }
}

/// The element a slot of a tab in `state` holds.
pub open spec fn slot_element<I, W, R>(state: TabState<I, W, R>, slot: TabSlot) -> Option<u64> {
    match slot {
        TabSlot::Start => state.start_slot,
        TabSlot::End => state.end_slot,
    }
}

/// What a tab hands to the element tree: its id and style, its slots in
/// display order, its children and the values its style refers to.
pub struct TabRender<I, W, R> {
    pub id: I,
    pub style: TabStyle,
    pub first_slot: Option<u64>,
    pub second_slot: Option<u64>,
    pub children: Vec<u64>,
    pub extend_to: Option<W>,
    pub report_bounds: Option<R>,
}

/// What a tab's builder has collected: its id, selection, position, close
/// side, the keys of its two slots and of its children, its wrap-row flags,
/// the width it extends to and the sink for its laid-out bounds.
pub struct TabState<I, W, R> {
    pub id: I,
    pub selected: bool,
    pub position: TabPosition,
    pub close_side: TabCloseSide,
    pub start_slot: Option<u64>,
    pub end_slot: Option<u64>,
    pub children: Seq<u64>,
    pub wrap: bool,
    pub wrap_mid_row: bool,
    pub wrap_row_end: bool,
    pub extend_to: Option<W>,
    pub report_bounds: Option<R>,
}

/// One builder call on a tab, as a change to its state.
pub enum TabSetting<W, R> {
    Selected(bool),
    Position(TabPosition),
    CloseSide(TabCloseSide),
    StartSlot(Option<u64>),
    EndSlot(Option<u64>),
    Wrap(bool),
    WrapMidRow(bool),
    WrapRowEnd(bool),
    ExtendTo(W),
    ReportBounds(R),
    /// Children appended at the end.
    Children(Seq<u64>),
}

/// The state after a builder call: each call sets its own field (or, for
/// children, appends to them) and leaves every other field as it was.
pub open spec fn apply_setting<I, W, R>(
    state: TabState<I, W, R>,
    setting: TabSetting<W, R>,
) -> TabState<I, W, R> {
    match setting {
        TabSetting::Selected(selected) => TabState { selected, ..state },
        TabSetting::Position(position) => TabState { position, ..state },
        TabSetting::CloseSide(close_side) => TabState { close_side, ..state },
        TabSetting::StartSlot(start_slot) => TabState { start_slot, ..state },
        TabSetting::EndSlot(end_slot) => TabState { end_slot, ..state },
        TabSetting::Wrap(wrap) => TabState { wrap, ..state },
        TabSetting::WrapMidRow(wrap_mid_row) => TabState { wrap_mid_row, ..state },
        TabSetting::WrapRowEnd(wrap_row_end) => TabState { wrap_row_end, ..state },
        TabSetting::ExtendTo(width) => TabState { extend_to: Some(width), ..state },
        TabSetting::ReportBounds(report) => TabState { report_bounds: Some(report), ..state },
        TabSetting::Children(keys) => TabState { children: state.children + keys, ..state },
    }
}

/// The field of the state that a builder call changes, by number.
pub open spec fn setting_field<W, R>(setting: TabSetting<W, R>) -> int {
    match setting {
        TabSetting::Selected(_) => 0,
        TabSetting::Position(_) => 1,
        TabSetting::CloseSide(_) => 2,
        TabSetting::StartSlot(_) => 3,
        TabSetting::EndSlot(_) => 4,
        TabSetting::Wrap(_) => 5,
        TabSetting::WrapMidRow(_) => 6,
        TabSetting::WrapRowEnd(_) => 7,
        TabSetting::ExtendTo(_) => 8,
        TabSetting::ReportBounds(_) => 9,
        TabSetting::Children(_) => 10,
    }
}

/// A tab. `I` is its element id, `W` the width it may be extended to and `R`
/// the sink that receives its laid-out bounds; slots and children are held
/// by key.
pub struct Tab<I, W, R> {
    id: I,
    selected: bool,
    position: TabPosition,
    close_side: TabCloseSide,
    start_slot: Option<u64>,
    end_slot: Option<u64>,
    children: ChildList,
    wrap: bool,
    /// Whether this tab sits in a wrap row that has another row below it.
    wrap_mid_row: bool,
    wrap_row_end: bool,
    extend_to: Option<W>,
    report_bounds: Option<R>,
}

impl<I, W, R> View for Tab<I, W, R> {
    type V = TabState<I, W, R>;

    closed spec fn view(&self) -> TabState<I, W, R> {
        TabState {
            id: self.id,
            selected: self.selected,
            position: self.position,
            close_side: self.close_side,
            start_slot: self.start_slot,
            end_slot: self.end_slot,
            children: self.children@,
            wrap: self.wrap,
            wrap_mid_row: self.wrap_mid_row,
            wrap_row_end: self.wrap_row_end,
            extend_to: self.extend_to,
            report_bounds: self.report_bounds,
        }
    }
}

impl<I, W, R> Tab<I, W, R> {
    /// A new tab: unselected, first, closing at its end, with empty slots, no
    /// children, not wrapped, not extended and reporting no bounds.
    pub fn new(id: I) -> (tab: Self)
        ensures
            tab@ == (TabState::<I, W, R> {
                id,
                selected: false,
                position: TabPosition::First,
                close_side: TabCloseSide::End,
                start_slot: None,
                end_slot: None,
                children: Seq::empty(),
                wrap: false,
                wrap_mid_row: false,
                wrap_row_end: false,
                extend_to: None,
                report_bounds: None,
            }),
    {
        Tab {
            id,
            selected: false,
            position: TabPosition::First,
            close_side: TabCloseSide::End,
            start_slot: None,
            end_slot: None,
            children: ChildList::new(),
            wrap: false,
            wrap_mid_row: false,
            wrap_row_end: false,
            extend_to: None,
            report_bounds: None,
        }
    }

    /// Switches to wrap-mode border/geometry behavior.
    pub fn wrap(self, wrap: bool) -> (tab: Self)
        ensures
            tab@ == apply_setting(self@, TabSetting::Wrap(wrap)),
    {
        let mut tab = self;
        tab.wrap = wrap;
        tab
    }

    /// Marks this tab as the last of its (non-final) wrap row: suppresses the
    /// right border.
    pub fn wrap_row_end(self, row_end: bool) -> (tab: Self)
        ensures
            tab@ == apply_setting(self@, TabSetting::WrapRowEnd(row_end)),
    {
        let mut tab = self;
        tab.wrap_row_end = row_end;
        tab
    }

    /// Extends this tab to `width` total width, filling its row's leftover;
    /// also pushes the end slot flush to the tab's right edge via a spacer.
    pub fn extend_to(self, width: W) -> (tab: Self)
        ensures
            tab@ == apply_setting(self@, TabSetting::ExtendTo(width)),
    {
        let mut tab = self;
        tab.extend_to = Some(width);
        tab
    }

    /// Marks this tab as sitting in a wrap row with another row below it.
    /// Active tabs keep their bottom border in such rows so the row separator
    /// stays continuous; only active tabs in the last row get the connected look.
    pub fn wrap_mid_row(self, mid_row: bool) -> (tab: Self)
        ensures
            tab@ == apply_setting(self@, TabSetting::WrapMidRow(mid_row)),
    {
        let mut tab = self;
        tab.wrap_mid_row = mid_row;
        tab
    }

    /// Reports this tab's laid-out bounds to `report` every frame.
    pub fn report_bounds(self, report: R) -> (tab: Self)
        ensures
            tab@ == apply_setting(self@, TabSetting::ReportBounds(report)),
    {
        let mut tab = self;
        tab.report_bounds = Some(report);
        tab
    }

    /// Sets the position of this tab within its list.
    pub fn position(self, position: TabPosition) -> (tab: Self)
        ensures
            tab@ == apply_setting(self@, TabSetting::Position(position)),
    {
        let mut tab = self;
        tab.position = position;
        tab
    }

    /// Sets the side on which the close button sits.
    pub fn close_side(self, close_side: TabCloseSide) -> (tab: Self)
        ensures
            tab@ == apply_setting(self@, TabSetting::CloseSide(close_side)),
    {
        let mut tab = self;
        tab.close_side = close_side;
        tab
    }

    /// Sets (or, with `None`, clears) the element of the start slot.
    pub fn start_slot(self, element: Option<u64>) -> (tab: Self)
        ensures
            tab@ == apply_setting(self@, TabSetting::StartSlot(element)),
    {
        let mut tab = self;
        tab.start_slot = element;
        tab
    }

    /// Sets (or, with `None`, clears) the element of the end slot.
    pub fn end_slot(self, element: Option<u64>) -> (tab: Self)
        ensures
            tab@ == apply_setting(self@, TabSetting::EndSlot(element)),
    {
        let mut tab = self;
        tab.end_slot = element;
        tab
    }

    /// Sets whether this tab is the selected one.
    pub fn toggle_state(self, selected: bool) -> (tab: Self)
        ensures
            tab@ == apply_setting(self@, TabSetting::Selected(selected)),
    {
        let mut tab = self;
        tab.selected = selected;
        tab
    }

    /// Appends child elements, in order.
    pub fn extend(&mut self, elements: Vec<u64>)
        requires
            has_room(old(self)@.children.len() as int, elements@.len() as int),
        ensures
            final(self)@ == apply_setting(old(self)@, TabSetting::Children(elements@)),
    {
        self.children.extend(elements);
    }

    /// Decides how this tab is rendered and hands over what it holds.
    pub fn render(self) -> (out: TabRender<I, W, R>)
        ensures
            out.id == self@.id,
            out.style == tab_style(self@),
            out.style.active_colors == self@.selected,
            out.style.no_shrink == self@.wrap,
            out.style.extended == (self@.extend_to is Some),
            out.style.bounds_probe == (self@.report_bounds is Some),
            out.first_slot == slot_element(self@, out.style.first_slot),
            out.second_slot == slot_element(self@, out.style.second_slot),
            out.children@ == self@.children,
            out.extend_to == self@.extend_to,
            out.report_bounds == self@.report_bounds,
    {
        let edges = TabEdges::for_tab(
            self.wrap,
            self.position,
            self.selected,
            self.wrap_mid_row,
            self.wrap_row_end,
        );
        let (first_slot, second_slot, first, second) = match self.close_side {
            TabCloseSide::End => (TabSlot::Start, TabSlot::End, self.start_slot, self.end_slot),
            TabCloseSide::Start => (TabSlot::End, TabSlot::Start, self.end_slot, self.start_slot),
        };
        let style = TabStyle {
            edges,
            active_colors: self.selected,
            no_shrink: self.wrap,
            extended: self.extend_to.is_some(),
            bounds_probe: self.report_bounds.is_some(),
            first_slot,
            second_slot,
        };
        let children = self.children.to_vec();
        TabRender {
            id: self.id,
            style,
            first_slot: first,
            second_slot: second,
            children,
            extend_to: self.extend_to,
            report_bounds: self.report_bounds,
        }
    }
}


/// The position that a tab bar gives the tab at index `ix` of `count` tabs
/// when the tab at `selected_ix` is selected: the ends are first and last,
/// the others are placed with respect to the selected tab.
pub open spec fn position_in_row(ix: int, count: int, selected_ix: int) -> TabPosition {
    if ix == 0 {
        TabPosition::First
    } else if ix == count - 1 {
        TabPosition::Last
    } else if ix < selected_ix {
        TabPosition::Middle(TabOrder::Less)
    } else if ix == selected_ix {
        TabPosition::Middle(TabOrder::Equal)
    } else {
        TabPosition::Middle(TabOrder::Greater)
    }
}

/// In a single row, every tab has exactly one pixel of border or padding on
/// its left, right and bottom sides, whatever its position and selection, so
/// selecting a tab never changes its size.
pub proof fn law_row_tab_size_is_constant<I, W, R>(state: TabState<I, W, R>)
    requires
        !state.wrap,
    ensures
        ({
            let e = tab_style(state).edges;
            &&& e.border_left != e.pad_left
            &&& e.border_right != e.pad_right
            &&& e.border_bottom != e.pad_bottom
        }),
{
}

/// In a single row, a tab drops its bottom border exactly when it is the
/// active tab, which then connects to the content below.
pub proof fn law_row_active_tab_connects<I, W, R>(state: TabState<I, W, R>)
    requires
        !state.wrap,
    ensures
        tab_style(state).edges.border_bottom == !is_active(state.position, state.selected),
        tab_style(state).edges.pad_bottom == is_active(state.position, state.selected),
{
}

/// In a single row of `count` tabs placed around the selected tab, each seam
/// between neighbours carries exactly one border: the right border of the
/// left tab or the left border of the right tab, never both and never none.
/// The first tab has no left border and the last tab has a right border.
pub proof fn law_row_seams_have_one_border(count: int, selected_ix: int, ix: int)
    requires
        0 <= selected_ix < count,
        0 <= ix,
        ix + 1 < count,
    ensures
        row_edges(position_in_row(ix, count, selected_ix), ix == selected_ix).border_right
            != row_edges(
            position_in_row(ix + 1, count, selected_ix),
            ix + 1 == selected_ix,
        ).border_left,
        !row_edges(position_in_row(0, count, selected_ix), 0 == selected_ix).border_left,
        row_edges(
            position_in_row(count - 1, count, selected_ix),
            count - 1 == selected_ix,
        ).border_right,
{
}

/// In wrapped rows, every tab pads its left side and has a right border
/// unless it ends its row.
pub proof fn law_wrap_right_border_unless_row_end<I, W, R>(state: TabState<I, W, R>)
    requires
        state.wrap,
    ensures
        tab_style(state).edges.border_right == !state.wrap_row_end,
        !tab_style(state).edges.border_left,
        tab_style(state).edges.pad_left,
        !tab_style(state).edges.pad_right,
{
}

/// In wrapped rows, every tab of a row with another row below keeps its
/// bottom border, so the row separator stays continuous; in the final row
/// only the selected tab drops it; the selected tab pads its bottom.
pub proof fn law_wrap_row_separator<I, W, R>(state: TabState<I, W, R>)
    requires
        state.wrap,
    ensures
        state.wrap_mid_row ==> tab_style(state).edges.border_bottom,
        !state.wrap_mid_row ==> (tab_style(state).edges.border_bottom == !state.selected),
        tab_style(state).edges.pad_bottom == state.selected,
{
}

/// In wrapped rows the edges depend on the selection and the row alone, not
/// on the position in the list.
pub proof fn law_wrap_edges_ignore_position<I, W, R>(
    a: TabState<I, W, R>,
    b: TabState<I, W, R>,
)
    requires
        a.wrap,
        b.wrap,
        a.selected == b.selected,
        a.wrap_mid_row == b.wrap_mid_row,
        a.wrap_row_end == b.wrap_row_end,
    ensures
        tab_style(a).edges == tab_style(b).edges,
{
}

/// Both slots are shown, once each; the close side decides which goes last:
/// the end slot when the tab closes at its end, the start slot otherwise.
pub proof fn law_slots_follow_close_side<I, W, R>(state: TabState<I, W, R>)
    ensures
        tab_style(state).first_slot != tab_style(state).second_slot,
        (tab_style(state).second_slot == TabSlot::End) == (state.close_side == TabCloseSide::End),
{
}


/// Setting the position twice keeps the second position: the last call wins.
pub proof fn law_position_last_write_wins<I, W, R>(
    state: TabState<I, W, R>,
    first: TabPosition,
    second: TabPosition,
)
    ensures
        apply_setting(apply_setting(state, TabSetting::Position(first)), TabSetting::Position(second))
            == apply_setting(state, TabSetting::Position(second)),
{
}

/// Setting the position and making any other builder call give the same
/// tab in either order.
pub proof fn law_position_commutes<I, W, R>(
    state: TabState<I, W, R>,
    position: TabPosition,
    other: TabSetting<W, R>,
)
    requires
        setting_field(other) != 1,
    ensures
        apply_setting(apply_setting(state, TabSetting::Position(position)), other)
            == apply_setting(apply_setting(state, other), TabSetting::Position(position)),
{
}

/// More generally, builder calls that change different fields commute, and
/// of two calls that set the same field (children aside, which append) the
/// last one wins.
pub proof fn law_builder_calls_commute<I, W, R>(
    state: TabState<I, W, R>,
    a: TabSetting<W, R>,
    b: TabSetting<W, R>,
)
    ensures
        setting_field(a) != setting_field(b) ==> apply_setting(apply_setting(state, a), b)
            == apply_setting(apply_setting(state, b), a),
        setting_field(a) == setting_field(b) && setting_field(b) != 10 ==> apply_setting(
            apply_setting(state, a),
            b,
        ) == apply_setting(state, b),
{
}


/// In both layout modes, a tab takes the active colors exactly when it is
/// selected, never shrinks exactly when it is wrapped, takes its extended
/// width exactly when one was set, and carries a bounds probe exactly when a
/// bounds sink was set.
pub proof fn law_style_flags_follow_settings<I, W, R>(state: TabState<I, W, R>)
    ensures
        tab_style(state).active_colors == state.selected,
        tab_style(state).no_shrink == state.wrap,
        tab_style(state).extended == (state.extend_to is Some),
        tab_style(state).bounds_probe == (state.report_bounds is Some),
{
}

} // verus!
