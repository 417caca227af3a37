//! A tab bar: the state its builder collects and the layout decisions its
//! renderer makes.

use vstd::prelude::*;
use crate::children::{ChildList, has_room};

verus! {

/// What a tab bar's builder has collected: its id, the keys of its start
/// children, tabs and end children, its scroll handle, whether it wraps, and
/// the sinks for its own and its actions' laid-out bounds.
pub struct TabBarState<I, S, R> {
    pub id: I,
    pub start_children: Seq<u64>,
    pub children: Seq<u64>,
    pub end_children: Seq<u64>,
    pub scroll_handle: Option<S>,
    pub wrap: bool,
    pub report_bounds: Option<R>,
    pub report_actions_bounds: Option<R>,
}

/// A tab bar. `I` is its element id, `S` the scroll handle it may track and
/// `R` the sink that receives laid-out bounds; children are held by key.
pub struct TabBar<I, S, R> {
    id: I,
    start_children: ChildList,
    children: ChildList,
    end_children: ChildList,
    scroll_handle: Option<S>,
    wrap: bool,
    report_bounds: Option<R>,
    report_actions_bounds: Option<R>,
}

impl<I, S, R> View for TabBar<I, S, R> {
    type V = TabBarState<I, S, R>;

    closed spec fn view(&self) -> TabBarState<I, S, R> {
        TabBarState {
            id: self.id,
            start_children: self.start_children@,
            children: self.children@,
            end_children: self.end_children@,
            scroll_handle: self.scroll_handle,
            wrap: self.wrap,
            report_bounds: self.report_bounds,
            report_actions_bounds: self.report_actions_bounds,
        }
    }
}

/// The one-pixel borders of a group of children.
#[derive(Debug, PartialEq, Eq, Structural, Clone, Copy)]
pub struct GroupEdges {
    pub border_left: bool,
    pub border_right: bool,
    pub border_bottom: bool,
}

/// The borders of the start group: it sits on the bar's bottom border and
/// is parted from the tabs on its right.
pub open spec fn start_group_edges() -> GroupEdges {
    GroupEdges { border_left: false, border_right: true, border_bottom: true }
}

/// The borders of the end group, in one row and over stacked rows alike: it
/// sits on the bar's bottom border and is parted from the tabs on its left.
pub open spec fn end_group_edges() -> GroupEdges {
    GroupEdges { border_left: true, border_right: false, border_bottom: true }
}

/// The layout decisions of a tab bar's renderer.
#[derive(Debug, PartialEq, Eq, Structural, Clone, Copy)]
pub struct TabBarLayout {
    /// Whether the tabs come as rows stacked by the caller (else as one
    /// horizontally scrolling row of fixed height).
    pub stacked_rows: bool,
    /// Whether the start children are shown, in a group left of the tabs.
    pub start_group: bool,
    /// Whether the end children are shown, in a group right of the tabs (over
    /// the top right corner when the rows are stacked).
    pub end_group: bool,
    /// The borders of the start group.
    pub start_edges: GroupEdges,
    /// The borders of the end group.
    pub end_edges: GroupEdges,
    /// Whether a probe reports the bar's laid-out bounds.
    pub bar_bounds_probe: bool,
    /// Whether a probe in the end group reports its laid-out bounds.
    pub actions_bounds_probe: bool,
    /// Whether the tab row follows the scroll handle.
    pub tracks_scroll: bool,
}

/// The layout of a tab bar in `state`.
///
/// Stacked rows: the pane plans and builds the rows, the bar stacks them;
/// the start children are not shown, the end children are when there are
/// any, and the bounds of the bar and of its end group are reported when a
/// sink is set. One row: each group of children is shown when it is not
/// empty, the row follows the scroll handle when there is one, and no bounds
/// are reported.
pub open spec fn tab_bar_layout<I, S, R>(state: TabBarState<I, S, R>) -> TabBarLayout {
    let has_end = state.end_children.len() != 0;
    if state.wrap {
        TabBarLayout {
            stacked_rows: true,
            start_group: false,
            end_group: has_end,
            start_edges: start_group_edges(),
            end_edges: end_group_edges(),
            bar_bounds_probe: state.report_bounds is Some,
            actions_bounds_probe: has_end && state.report_actions_bounds is Some,
            tracks_scroll: false,
        }
    } else {
        TabBarLayout {
            stacked_rows: false,
            start_group: state.start_children.len() != 0,
            end_group: has_end,
            start_edges: start_group_edges(),
            end_edges: end_group_edges(),
            bar_bounds_probe: false,
            actions_bounds_probe: false,
            tracks_scroll: state.scroll_handle is Some,
        }
    }
}

/// What a tab bar hands to the element tree: its id and layout, its three
/// groups of children and the values its layout refers to.
pub struct TabBarRender<I, S, R> {
    pub id: I,
    pub layout: TabBarLayout,
    pub start_children: Vec<u64>,
    pub children: Vec<u64>,
    pub end_children: Vec<u64>,
    pub scroll_handle: Option<S>,
    pub report_bounds: Option<R>,
    pub report_actions_bounds: Option<R>,
}

impl<I, S, R> TabBar<I, S, R> {
    /// A new tab bar: no children, no scroll handle, one row, reporting no bounds.
    pub fn new(id: I) -> (bar: Self)
        ensures
            bar@ == (TabBarState::<I, S, R> {
                id,
                start_children: Seq::empty(),
                children: Seq::empty(),
                end_children: Seq::empty(),
                scroll_handle: None,
                wrap: false,
                report_bounds: None,
                report_actions_bounds: None,
            }),
    {
        TabBar {
            id,
            start_children: ChildList::new(),
            children: ChildList::new(),
            end_children: ChildList::new(),
            scroll_handle: None,
            wrap: false,
            report_bounds: None,
            report_actions_bounds: None,
        }
    }

    /// Makes the tab row follow a clone of `scroll_handle`.
    pub fn track_scroll(self, scroll_handle: &S) -> (bar: Self)
        where
            S: Clone,
        ensures
            bar@.scroll_handle matches Some(handle) && cloned(*scroll_handle, handle),
            bar@ == (TabBarState { scroll_handle: bar@.scroll_handle, ..self@ }),
    {
        let mut bar = self;
        bar.scroll_handle = Some(scroll_handle.clone());
        bar
    }

    /// Switches to stacked rows planned by the caller.
    pub fn wrap(self, wrap: bool) -> (bar: Self)
        ensures
            bar@ == (TabBarState { wrap, ..self@ }),
    {
        let mut bar = self;
        bar.wrap = wrap;
        bar
    }

    /// Reports the bar's laid-out bounds to `report` (in stacked rows).
    pub fn report_bounds(self, report: R) -> (bar: Self)
        ensures
            bar@ == (TabBarState { report_bounds: Some(report), ..self@ }),
    {
        let mut bar = self;
        bar.report_bounds = Some(report);
        bar
    }

    /// Reports the end group's laid-out bounds to `report` (in stacked rows).
    pub fn report_actions_bounds(self, report: R) -> (bar: Self)
        ensures
            bar@ == (TabBarState { report_actions_bounds: Some(report), ..self@ }),
    {
        let mut bar = self;
        bar.report_actions_bounds = Some(report);
        bar
    }

    /// The start children, to change in place.
    pub fn start_children_mut(&mut self) -> (list: &mut ChildList)
        ensures
            list@ == old(self)@.start_children,
            final(self)@ == (TabBarState { start_children: final(list)@, ..old(self)@ }),
    {
        &mut self.start_children
    }

    /// Appends one start child.
    pub fn start_child(self, start_child: u64) -> (bar: Self)
        requires
            has_room(self@.start_children.len() as int, 1),
        ensures
            bar@ == (TabBarState { start_children: self@.start_children.push(start_child), ..self@ }),
    {
        let mut bar = self;
        bar.start_children_mut().push(start_child);
        bar
    }

    /// Appends start children, in order.
    pub fn start_children(self, start_children: Vec<u64>) -> (bar: Self)
        requires
            has_room(self@.start_children.len() as int, start_children@.len() as int),
        ensures
            bar@ == (TabBarState { start_children: self@.start_children + start_children@, ..self@ }),
    {
        let mut bar = self;
        bar.start_children_mut().extend(start_children);
        bar
    }

    /// The end children, to change in place.
    pub fn end_children_mut(&mut self) -> (list: &mut ChildList)
        ensures
            list@ == old(self)@.end_children,
            final(self)@ == (TabBarState { end_children: final(list)@, ..old(self)@ }),
    {
        &mut self.end_children
    }

    /// Appends one end child.
    pub fn end_child(self, end_child: u64) -> (bar: Self)
        requires
            has_room(self@.end_children.len() as int, 1),
        ensures
            bar@ == (TabBarState { end_children: self@.end_children.push(end_child), ..self@ }),
    {
        let mut bar = self;
        bar.end_children_mut().push(end_child);
        bar
    }

    /// Appends end children, in order.
    pub fn end_children(self, end_children: Vec<u64>) -> (bar: Self)
        requires
            has_room(self@.end_children.len() as int, end_children@.len() as int),
        ensures
            bar@ == (TabBarState { end_children: self@.end_children + end_children@, ..self@ }),
    {
        let mut bar = self;
        bar.end_children_mut().extend(end_children);
        bar
    }

    /// Appends tabs, in order.
    pub fn extend(&mut self, elements: Vec<u64>)
        requires
            has_room(old(self)@.children.len() as int, elements@.len() as int),
        ensures
            final(self)@ == (TabBarState { children: old(self)@.children + elements@, ..old(self)@ }),
    {
        self.children.extend(elements);
    }

    /// Decides how this bar is laid out and hands over what it holds.
    pub fn render(self) -> (out: TabBarRender<I, S, R>)
        ensures
            out.id == self@.id,
            out.layout == tab_bar_layout(self@),
            out.layout.stacked_rows == self@.wrap,
            self@.wrap ==> (out.layout.bar_bounds_probe == (self@.report_bounds is Some)),
            self@.wrap ==> (out.layout.actions_bounds_probe == (self@.end_children.len() != 0
                && self@.report_actions_bounds is Some)),
            !self@.wrap ==> (out.layout.start_group == (self@.start_children.len() != 0)),
            !self@.wrap ==> (out.layout.tracks_scroll == (self@.scroll_handle is Some)),
            out.layout.end_group == (self@.end_children.len() != 0),
            out.start_children@ == self@.start_children,
            out.children@ == self@.children,
            out.end_children@ == self@.end_children,
            out.scroll_handle == self@.scroll_handle,
            out.report_bounds == self@.report_bounds,
            out.report_actions_bounds == self@.report_actions_bounds,
    {
        let has_end = !self.end_children.is_empty();
        let start_edges = GroupEdges { border_left: false, border_right: true, border_bottom: true };
        let end_edges = GroupEdges { border_left: true, border_right: false, border_bottom: true };
        let layout = if self.wrap {
            TabBarLayout {
                stacked_rows: true,
                start_group: false,
                end_group: has_end,
                start_edges,
                end_edges,
                bar_bounds_probe: self.report_bounds.is_some(),
                actions_bounds_probe: has_end && self.report_actions_bounds.is_some(),
                tracks_scroll: false,
            }
        } else {
            TabBarLayout {
                stacked_rows: false,
                start_group: !self.start_children.is_empty(),
                end_group: has_end,
                start_edges,
                end_edges,
                bar_bounds_probe: false,
                actions_bounds_probe: false,
                tracks_scroll: self.scroll_handle.is_some(),
            }
        };
        TabBarRender {
            id: self.id,
            layout,
            start_children: self.start_children.to_vec(),
            children: self.children.to_vec(),
            end_children: self.end_children.to_vec(),
            scroll_handle: self.scroll_handle,
            report_bounds: self.report_bounds,
            report_actions_bounds: self.report_actions_bounds,
        }
    }
}


/// With stacked rows, the start children are never shown and the scroll
/// handle is never followed; in one row, no bounds are ever reported.
pub proof fn law_modes_keep_their_own_parts<I, S, R>(state: TabBarState<I, S, R>)
    ensures
        state.wrap ==> !tab_bar_layout(state).start_group,
        state.wrap ==> !tab_bar_layout(state).tracks_scroll,
        !state.wrap ==> !tab_bar_layout(state).bar_bounds_probe,
        !state.wrap ==> !tab_bar_layout(state).actions_bounds_probe,
        tab_bar_layout(state).stacked_rows == state.wrap,
{
}

/// In both modes the end group is shown exactly when there are end
/// children, and the end group's bounds are reported only when it is shown.
pub proof fn law_end_group_follows_end_children<I, S, R>(state: TabBarState<I, S, R>)
    ensures
        tab_bar_layout(state).end_group == (state.end_children.len() != 0),
        tab_bar_layout(state).actions_bounds_probe ==> tab_bar_layout(state).end_group,
{
}

/// Each group sits on the bar's bottom border and has a border on the side
/// that faces the tabs, and on no other side.
pub proof fn law_groups_border_the_tabs<I, S, R>(state: TabBarState<I, S, R>)
    ensures
        tab_bar_layout(state).start_edges.border_bottom,
        tab_bar_layout(state).start_edges.border_right,
        !tab_bar_layout(state).start_edges.border_left,
        tab_bar_layout(state).end_edges.border_bottom,
        tab_bar_layout(state).end_edges.border_left,
        !tab_bar_layout(state).end_edges.border_right,
{
}

/// A child added to a group is shown: an end child in both modes, a start
/// child in one row.
pub proof fn law_added_child_is_shown<I, S, R>(state: TabBarState<I, S, R>, key: u64)
    ensures
        tab_bar_layout(TabBarState { end_children: state.end_children.push(key), ..state }).end_group,
        !state.wrap ==> tab_bar_layout(
            TabBarState { start_children: state.start_children.push(key), ..state },
        ).start_group,
{
}


/// With stacked rows, the bar's bounds are reported exactly when a sink was
/// set and the end group's exactly when a sink was set and there are end
/// children, whatever the other groups hold; in one row, the start group is
/// shown exactly when there are start children and the tab row follows the
/// scroll handle exactly when one was set, whatever the other groups hold.
pub proof fn law_layout_flags_follow_settings<I, S, R>(state: TabBarState<I, S, R>)
    ensures
        state.wrap ==> (tab_bar_layout(state).bar_bounds_probe == (state.report_bounds is Some)),
        state.wrap ==> (tab_bar_layout(state).actions_bounds_probe == (state.end_children.len()
            != 0 && state.report_actions_bounds is Some)),
        !state.wrap ==> (tab_bar_layout(state).start_group == (state.start_children.len() != 0)),
        !state.wrap ==> (tab_bar_layout(state).tracks_scroll == (state.scroll_handle is Some)),
{
}

} // verus!
