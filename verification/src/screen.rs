//! The two screens: where their panes are, their titles, texts and offsets, and what is
//! selected.

use crate::live_app::{AppView, LivePanes, LiveTuiApp};
use crate::live_text;
use crate::live_text::{
    format_live_allocator_scan_pane, format_live_code_context, format_live_console_pane,
    format_live_heap_layout_pane, format_live_logs_pane, format_live_maps_tab,
    format_live_registers_pane, format_live_stack_tab, format_live_trace_rows,
    live_chunk_inspector_text, live_related_records_text,
};
use crate::panes;
use crate::panes::{
    clamp_scroll, clamped_scroll_for_text, format_pane_title, format_right_tabs,
    format_scroll_indicator, scroll_offset_u16, text_line_count, LiveDebuggerPane, LiveRightTab,
};
use crate::replay;
use crate::replay::{
    replay_details_text, replay_related_panel, replay_timeline_rows, visible_timeline_offset,
    ReplaySession, ReplayTuiState,
};
use crate::replay_text::ReplayConfig;
use crate::text;
use crate::text::{cat3, owned};
use ratatui::layout::{Constraint, Direction, Layout, Rect};
use vstd::prelude::*;

verus! {

/// A part of the terminal.
#[derive(Debug, Clone, Copy, PartialEq, Eq, Structural)]
pub struct Area {
    pub x: u16,
    pub y: u16,
    pub width: u16,
    pub height: u16,
}

/// The rows of an area within its border.
pub open spec fn inner_height(area: Area) -> usize {
    if area.height >= 2 {
        (area.height - 2) as usize
    } else {
        0
    }
}

impl Area {
    pub fn rows(self) -> (r: usize)
        ensures
            r == inner_height(self),
    {
        if self.height >= 2 {
            (self.height - 2) as usize
        } else {
            0
        }
    }
}

/// What a part gets of an area that is split: a percentage, a fixed size, or what is left
/// and at least some size.
#[derive(Debug, Clone, Copy, PartialEq, Eq, Structural)]
pub enum Share {
    Percentage(u16),
    Length(u16),
    Min(u16),
}

/// Whether the parts of an area lie below or beside each other.
#[derive(Debug, Clone, Copy, PartialEq, Eq, Structural)]
pub enum Axis {
    Rows,
    Columns,
}

/// Whether `parts` has one part for each share, each as wide as the area and at its left edge
/// where they lie below each other, each as high and at its upper edge where they lie beside
/// each other.
pub open spec fn are_parts(parts: Seq<Area>, area: Area, axis: Axis, count: nat) -> bool {
    &&& parts.len() == count
    &&& forall|i: int|
        0 <= i < parts.len() ==> match axis {
            Axis::Rows => (#[trigger] parts[i]).x == area.x && parts[i].width == area.width,
            Axis::Columns => parts[i].y == area.y && parts[i].height == area.height,
        }
}

/// Whether `ratatui::layout::Layout::split` may give these parts of an area for these shares.
/// It is a relation: one area and the same shares may have more than one answer.
pub uninterp spec fn may_split(
    area: Area,
    axis: Axis,
    shares: Seq<Share>,
    parts: Seq<Area>,
) -> bool;

/// The parts of an area, from `ratatui::layout::Layout::split`: one for each share, in one
/// row or column. Where a part begins and ends along the axis comes out of a solver that works
/// in floating point on hash maps with random seeds; of that the contract says only that it is
/// an answer for this area, this axis and these shares.
#[verifier::external_body]
fn split_area(area: Area, axis: Axis, shares: &Vec<Share>) -> (r: Vec<Area>)
    ensures
        may_split(area, axis, shares@, r@),
        are_parts(r@, area, axis, shares@.len()),
{
    let direction = match axis {
        Axis::Rows => Direction::Vertical,
        Axis::Columns => Direction::Horizontal,
    };
    let constraints = shares.iter().map(|share| match *share {
        Share::Percentage(n) => Constraint::Percentage(n),
        Share::Length(n) => Constraint::Length(n),
        Share::Min(n) => Constraint::Min(n),
    });
    let rect = Rect { x: area.x, y: area.y, width: area.width, height: area.height };
    let parts = Layout::default().direction(direction).constraints(constraints).split(rect);
    parts.iter().map(|p| Area { x: p.x, y: p.y, width: p.width, height: p.height }).collect()
}

/// A pane of text: its title, the text, the first line in view, and whether it has the focus.
#[derive(Debug, Clone, PartialEq, Eq)]
pub struct Pane {
    pub title: String,
    pub body: String,
    pub offset: u16,
    pub focused: bool,
}

/// The model of a [`Pane`].
pub struct PaneView {
    pub title: Seq<char>,
    pub body: Seq<char>,
    pub offset: u16,
    pub focused: bool,
}

impl View for Pane {
    type V = PaneView;

    open spec fn view(&self) -> PaneView {
        PaneView {
            title: self.title@,
            body: self.body@,
            offset: self.offset,
            focused: self.focused,
        }
    }
}

/// The first line in view where a text is scrolled within a pane of the given height.
pub open spec fn first_line(body: Seq<char>, scroll: usize, height: usize) -> u16 {
    let at = panes::clamped(scroll as nat, panes::line_count_of(body), height as nat);
    if at > u16::MAX {
        u16::MAX
    } else {
        at as u16
    }
}

/// A pane with a plain title.
pub open spec fn titled_pane(
    name: Seq<char>,
    body: Seq<char>,
    scroll: usize,
    height: usize,
    focused: bool,
) -> PaneView {
    PaneView {
        title: panes::pane_title(name, focused),
        body,
        offset: first_line(body, scroll, height),
        focused,
    }
}

/// A pane whose title says which lines are in view.
pub open spec fn scrolled_pane(
    name: Seq<char>,
    body: Seq<char>,
    scroll: usize,
    height: usize,
    focused: bool,
) -> PaneView {
    let lines = panes::line_count_of(body);
    titled_pane(
        name + " "@ + panes::scroll_indicator(
            panes::clamped(scroll as nat, lines, height as nat),
            lines,
            height as nat,
        ),
        body,
        scroll,
        height,
        focused,
    )
}

fn make_titled_pane(name: &str, body: String, scroll: usize, height: usize, focused: bool) -> (r: Pane)
    ensures
        r@ == titled_pane(name@, body@, scroll, height, focused),
{
    let at: usize = clamped_scroll_for_text(body.as_str(), scroll, height);
    Pane {
        title: format_pane_title(name, focused),
        body,
        offset: scroll_offset_u16(at),
        focused,
    }
}

fn make_scrolled_pane(
    name: &str,
    body: String,
    scroll: usize,
    height: usize,
    focused: bool,
) -> (r: Pane)
    ensures
        r@ == scrolled_pane(name@, body@, scroll, height, focused),
{
    let lines: usize = text_line_count(body.as_str());
    let at: usize = clamp_scroll(scroll, lines, height);
    let title = cat3(name, " ", format_scroll_indicator(at, lines, height).as_str());
    make_titled_pane(title.as_str(), body, scroll, height, focused)
}

// ---------------------------------------------------------------------------
// The live screen
// ---------------------------------------------------------------------------

/// Whether a terminal has room for the live screen.
pub open spec fn fits(width: u16, height: u16) -> bool {
    width >= 80 && height >= 20
}

pub fn fits_live_screen(width: u16, height: u16) -> (r: bool)
    ensures
        r == fits(width, height),
{
    width >= 80 && height >= 20
}

/// Whether a pane has the focus.
pub open spec fn has_focus(panes: LivePanes, pane: LiveDebuggerPane) -> bool {
    panes.focused_debugger_pane == pane
}

fn is_focused(app: &LiveTuiApp, pane: LiveDebuggerPane) -> (r: bool)
    ensures
        r == has_focus(app@.panes, pane),
{
    app.panes.focused_debugger_pane == pane
}

pub open spec fn registers_pane_view(app: AppView, height: usize) -> PaneView {
    scrolled_pane(
        "Registers"@,
        live_text::registers_pane(app),
        app.panes.register_pane_scroll,
        height,
        has_focus(app.panes, LiveDebuggerPane::Registers),
    )
}

pub fn live_registers_pane(app: &LiveTuiApp, height: usize) -> (r: Pane)
    ensures
        r@ == registers_pane_view(app@, height),
{
    make_scrolled_pane(
        "Registers",
        format_live_registers_pane(app),
        app.panes.register_pane_scroll,
        height,
        is_focused(app, LiveDebuggerPane::Registers),
    )
}

pub open spec fn code_pane_view(app: AppView, height: usize) -> PaneView {
    scrolled_pane(
        "Code"@,
        live_text::code_pane(app.data),
        app.panes.code_pane_scroll,
        height,
        has_focus(app.panes, LiveDebuggerPane::Code),
    )
}

pub fn live_code_pane(app: &LiveTuiApp, height: usize) -> (r: Pane)
    ensures
        r@ == code_pane_view(app@, height),
{
    make_scrolled_pane(
        "Code",
        format_live_code_context(app),
        app.panes.code_pane_scroll,
        height,
        is_focused(app, LiveDebuggerPane::Code),
    )
}

/// The console shows its end: it is never scrolled.
pub open spec fn console_pane_view(app: AppView, height: usize) -> PaneView {
    PaneView {
        title: panes::pane_title("Console"@, has_focus(app.panes, LiveDebuggerPane::Console)),
        body: text::join(live_text::console_lines(app, height), "\n"@),
        offset: 0,
        focused: has_focus(app.panes, LiveDebuggerPane::Console),
    }
}

pub fn live_console_pane(app: &LiveTuiApp, height: usize) -> (r: Pane)
    ensures
        r@ == console_pane_view(app@, height),
{
    let focused = is_focused(app, LiveDebuggerPane::Console);
    Pane {
        title: format_pane_title("Console", focused),
        body: format_live_console_pane(app, height),
        offset: 0,
        focused,
    }
}

/// The row of tab names.
pub open spec fn tabs_pane_view(app: AppView) -> PaneView {
    PaneView {
        title: panes::pane_title("Right Tabs"@, has_focus(app.panes, LiveDebuggerPane::RightTab)),
        body: panes::tab_row(app.panes.active_right_tab),
        offset: 0,
        focused: has_focus(app.panes, LiveDebuggerPane::RightTab),
    }
}

pub fn live_tabs_pane(app: &LiveTuiApp) -> (r: Pane)
    ensures
        r@ == tabs_pane_view(app@),
{
    let focused = is_focused(app, LiveDebuggerPane::RightTab);
    Pane {
        title: format_pane_title("Right Tabs", focused),
        body: format_right_tabs(app.panes.active_right_tab),
        offset: 0,
        focused,
    }
}

/// The pane of a tab other than the heap tab, or the upper part of the heap tab.
pub open spec fn tab_pane(app: AppView, tab: LiveRightTab, height: usize) -> PaneView {
    let focused = has_focus(app.panes, LiveDebuggerPane::RightTab);
    match tab {
        LiveRightTab::Heap => scrolled_pane(
            "Heap Layout"@,
            live_text::heap_layout_pane(app, usize::MAX),
            app.panes.heap_layout_scroll,
            height,
            focused,
        ),
        LiveRightTab::Stack => scrolled_pane(
            "Stack"@,
            live_text::stack_tab(app.data),
            app.panes.stack_tab_scroll,
            height,
            focused,
        ),
        LiveRightTab::Logs => titled_pane(
            "Logs"@,
            live_text::logs_pane(app.logs),
            app.panes.related_records_scroll,
            height,
            focused,
        ),
        LiveRightTab::Maps => scrolled_pane(
            "Maps"@,
            live_text::maps_tab(app.data),
            app.panes.maps_tab_scroll,
            height,
            focused,
        ),
    }
}

/// The pane of the active tab; of the heap tab, its upper part.
pub fn live_tab_pane(app: &LiveTuiApp, height: usize) -> (r: Pane)
    ensures
        r@ == tab_pane(app@, app@.panes.active_right_tab, height),
{
    let focused = is_focused(app, LiveDebuggerPane::RightTab);
    match app.panes.active_right_tab {
        LiveRightTab::Heap => make_scrolled_pane(
            "Heap Layout",
            format_live_heap_layout_pane(app, usize::MAX),
            app.panes.heap_layout_scroll,
            height,
            focused,
        ),
        LiveRightTab::Stack => make_scrolled_pane(
            "Stack",
            format_live_stack_tab(app),
            app.panes.stack_tab_scroll,
            height,
            focused,
        ),
        LiveRightTab::Logs => make_titled_pane(
            "Logs",
            format_live_logs_pane(app),
            app.panes.related_records_scroll,
            height,
            focused,
        ),
        LiveRightTab::Maps => make_scrolled_pane(
            "Maps",
            format_live_maps_tab(app),
            app.panes.maps_tab_scroll,
            height,
            focused,
        ),
    }
}

/// The middle part of the heap tab.
pub open spec fn allocator_pane_view(app: AppView, height: usize) -> PaneView {
    titled_pane(
        "Allocator / Scan"@,
        text::join(live_text::allocator_pane_lines(app.data), "\n"@),
        app.panes.allocator_scan_scroll,
        height,
        false,
    )
}

pub fn live_allocator_pane(app: &LiveTuiApp, height: usize) -> (r: Pane)
    ensures
        r@ == allocator_pane_view(app@, height),
{
    make_titled_pane(
        "Allocator / Scan",
        format_live_allocator_scan_pane(app),
        app.panes.allocator_scan_scroll,
        height,
        false,
    )
}

/// The lower part of the heap tab: the chunk inspector where it is open, else what was
/// recorded at the selected event.
pub open spec fn inspector_pane_view(app: AppView, config: ReplayConfig, height: usize) -> PaneView {
    if app.panes.show_chunk_inspector {
        titled_pane(
            "Chunk Inspector"@,
            live_text::inspector_text(app),
            app.panes.chunk_inspector_scroll,
            height,
            false,
        )
    } else {
        titled_pane(
            "Related"@,
            live_text::related_pane(app, config),
            app.panes.related_records_scroll,
            height,
            false,
        )
    }
}

pub fn live_inspector_pane(app: &LiveTuiApp, config: &ReplayConfig, height: usize) -> (r: Pane)
    ensures
        r@ == inspector_pane_view(app@, *config, height),
{
    if app.panes.show_chunk_inspector {
        make_titled_pane(
            "Chunk Inspector",
            live_chunk_inspector_text(app),
            app.panes.chunk_inspector_scroll,
            height,
            false,
        )
    } else {
        make_titled_pane(
            "Related",
            live_related_records_text(app, config),
            app.panes.related_records_scroll,
            height,
            false,
        )
    }
}

/// A list of rows: its title, the rows in view, and the place of the selected one among them.
#[derive(Debug, Clone, PartialEq, Eq)]
pub struct RowPane {
    pub title: String,
    pub rows: Vec<String>,
    pub selected: Option<usize>,
    pub focused: bool,
}

/// The place of the selected row among the rows in view.
pub open spec fn place_in_view(selected: usize, height: usize, count: nat) -> usize {
    let from = replay::timeline_offset(selected as int, height as int, count as int);
    if selected >= from {
        (selected - from) as usize
    } else {
        0
    }
}

fn find_place_in_view(selected: usize, height: usize, count: usize) -> (r: usize)
    ensures
        r == place_in_view(selected, height, count as nat),
{
    let from: usize = visible_timeline_offset(selected, height, count);
    if selected >= from {
        selected - from
    } else {
        0
    }
}

/// Whether `r` is the list of events in a pane of the given height.
pub open spec fn is_trace_pane(r: RowPane, app: AppView, height: usize) -> bool {
    &&& r.title@ == panes::pane_title("Trace"@, has_focus(app.panes, LiveDebuggerPane::Trace))
    &&& text::texts(r.rows@) == live_text::trace_pane(app, height)
    &&& r.selected == (if app.count() == 0 {
        None
    } else {
        Some(place_in_view(app.control.selected_index, height, app.count()))
    })
    &&& r.focused == has_focus(app.panes, LiveDebuggerPane::Trace)
}

pub fn live_trace_pane(app: &LiveTuiApp, height: usize) -> (r: RowPane)
    ensures
        is_trace_pane(r, app@, height),
{
    let focused = is_focused(app, LiveDebuggerPane::Trace);
    let count: usize = app.data.events.len();
    RowPane {
        title: format_pane_title("Trace", focused),
        rows: format_live_trace_rows(app, height).items,
        selected: if count == 0 {
            None
        } else {
            Some(find_place_in_view(app.control.selected_index, height, count))
        },
        focused,
    }
}

/// Where the panes of the live screen are.
#[derive(Debug, Clone, Copy, PartialEq, Eq, Structural)]
pub struct LiveAreas {
    pub registers: Area,
    pub code: Area,
    pub trace: Area,
    pub console: Area,
    pub tabs: Area,
    pub tab: Area,
    pub heap_upper: Area,
    pub heap_middle: Area,
    pub heap_lower: Area,
}

/// The areas of a column share its edges.
pub open spec fn same_column(a: Area, b: Area) -> bool {
    a.x == b.x && a.width == b.width
}

/// Whether these are the columns of the live screen, with 60 and 40 percent of it.
pub open spec fn are_live_columns(left: Area, right: Area, area: Area) -> bool {
    may_split(
        area,
        Axis::Columns,
        seq![Share::Percentage(60), Share::Percentage(40)],
        seq![left, right],
    )
}

/// Whether the panes of the live screen are where they belong: the debugger's panes share the
/// left column, the tab names have three rows of the right one and the tab the rest, and the
/// heap tab has three parts.
pub open spec fn is_live_layout(r: LiveAreas, area: Area) -> bool {
    exists|left: Area, right: Area|
        {
            &&& #[trigger] are_live_columns(left, right, area)
            &&& may_split(
                left,
                Axis::Rows,
                seq![
                    Share::Percentage(19),
                    Share::Percentage(24),
                    Share::Percentage(38),
                    Share::Min(5),
                ],
                seq![r.registers, r.code, r.trace, r.console],
            )
            &&& may_split(
                right,
                Axis::Rows,
                seq![Share::Length(3), Share::Min(3)],
                seq![r.tabs, r.tab],
            )
            &&& may_split(
                r.tab,
                Axis::Rows,
                seq![Share::Percentage(50), Share::Percentage(25), Share::Min(4)],
                seq![r.heap_upper, r.heap_middle, r.heap_lower],
            )
        }
}

/// Lays out the live screen: the debugger's panes in the left column, the tabs in the right
/// one, and the three parts of the heap tab within the tab.
pub fn layout_live_screen(area: Area) -> (r: LiveAreas)
    ensures
        is_live_layout(r, area),
        same_column(r.registers, r.code),
        same_column(r.registers, r.trace),
        same_column(r.registers, r.console),
        same_column(r.tabs, r.tab),
        same_column(r.tab, r.heap_upper),
        same_column(r.tab, r.heap_middle),
        same_column(r.tab, r.heap_lower),
{
    let column_shares = vec![Share::Percentage(60), Share::Percentage(40)];
    let columns = split_area(area, Axis::Columns, &column_shares);
    let left_shares = vec![
        Share::Percentage(19),
        Share::Percentage(24),
        Share::Percentage(38),
        Share::Min(5),
    ];
    let left = split_area(columns[0], Axis::Rows, &left_shares);
    let right_shares = vec![Share::Length(3), Share::Min(3)];
    let right = split_area(columns[1], Axis::Rows, &right_shares);
    let heap_shares = vec![Share::Percentage(50), Share::Percentage(25), Share::Min(4)];
    let heap = split_area(right[1], Axis::Rows, &heap_shares);
    proof {
        assert(column_shares@ =~= seq![Share::Percentage(60), Share::Percentage(40)]);
        assert(columns@ =~= seq![columns@[0], columns@[1]]);
        assert(are_live_columns(columns@[0], columns@[1], area));
        assert(left_shares@ =~= seq![
            Share::Percentage(19),
            Share::Percentage(24),
            Share::Percentage(38),
            Share::Min(5),
        ]);
        assert(left@ =~= seq![left@[0], left@[1], left@[2], left@[3]]);
        assert(right_shares@ =~= seq![Share::Length(3), Share::Min(3)]);
        assert(right@ =~= seq![right@[0], right@[1]]);
        assert(heap_shares@ =~= seq![
            Share::Percentage(50),
            Share::Percentage(25),
            Share::Min(4),
        ]);
        assert(heap@ =~= seq![heap@[0], heap@[1], heap@[2]]);
    }
    LiveAreas {
        registers: left[0],
        code: left[1],
        trace: left[2],
        console: left[3],
        tabs: right[0],
        tab: right[1],
        heap_upper: heap[0],
        heap_middle: heap[1],
        heap_lower: heap[2],
    }
}

/// Something to put on the terminal.
#[derive(Debug, Clone, PartialEq, Eq)]
pub enum Painted {
    Text { area: Area, pane: Pane },
    Rows { area: Area, pane: RowPane },
}

/// Whether `p` is a pane of text in an area.
pub open spec fn is_text_at(p: Painted, area: Area, view: PaneView) -> bool {
    match p {
        Painted::Text { area: at, pane } => at == area && pane@ == view,
        _ => false,
    }
}

/// What is said where the live screen has no room.
pub open spec fn no_room_pane() -> PaneView {
    PaneView {
        title: "Heapify"@,
        body: "terminal too small for debugger layout"@,
        offset: 0,
        focused: false,
    }
}

/// Whether `r` is the left column of the live screen and the tab names, in this order.
pub open spec fn are_debugger_panes(r: Seq<Painted>, app: AppView, areas: LiveAreas) -> bool {
    &&& r.len() >= 5
    &&& is_text_at(
        r[0],
        areas.registers,
        registers_pane_view(app, inner_height(areas.registers)),
    )
    &&& is_text_at(r[1], areas.code, code_pane_view(app, inner_height(areas.code)))
    &&& match r[2] {
        Painted::Rows { area, pane } => area == areas.trace && is_trace_pane(
            pane,
            app,
            inner_height(areas.trace),
        ),
        _ => false,
    }
    &&& is_text_at(r[3], areas.console, console_pane_view(app, inner_height(areas.console)))
    &&& is_text_at(r[4], areas.tabs, tabs_pane_view(app))
}

/// Whether `r` is the live screen.
pub open spec fn is_live_screen(
    r: Seq<Painted>,
    app: AppView,
    config: ReplayConfig,
    areas: LiveAreas,
) -> bool {
    let tab = app.panes.active_right_tab;
    &&& are_debugger_panes(r, app, areas)
    &&& if tab is Heap {
        &&& r.len() == 8
        &&& is_text_at(
            r[5],
            areas.heap_upper,
            tab_pane(app, tab, inner_height(areas.heap_upper)),
        )
        &&& is_text_at(
            r[6],
            areas.heap_middle,
            allocator_pane_view(app, inner_height(areas.heap_middle)),
        )
        &&& is_text_at(
            r[7],
            areas.heap_lower,
            inspector_pane_view(app, config, inner_height(areas.heap_lower)),
        )
    } else {
        &&& r.len() == 6
        &&& is_text_at(r[5], areas.tab, tab_pane(app, tab, inner_height(areas.tab)))
    }
}

/// What the live screen shows in given areas.
pub fn paint_live_screen(app: &LiveTuiApp, config: &ReplayConfig, areas: &LiveAreas) -> (r: Vec<
    Painted,
>)
    ensures
        is_live_screen(r@, app@, *config, *areas),
{
    let mut r: Vec<Painted> = Vec::new();
    r.push(
        Painted::Text {
            area: areas.registers,
            pane: live_registers_pane(app, areas.registers.rows()),
        },
    );
    r.push(Painted::Text { area: areas.code, pane: live_code_pane(app, areas.code.rows()) });
    r.push(Painted::Rows { area: areas.trace, pane: live_trace_pane(app, areas.trace.rows()) });
    r.push(
        Painted::Text {
            area: areas.console,
            pane: live_console_pane(app, areas.console.rows()),
        },
    );
    r.push(Painted::Text { area: areas.tabs, pane: live_tabs_pane(app) });
    match app.panes.active_right_tab {
        LiveRightTab::Heap => {
            r.push(
                Painted::Text {
                    area: areas.heap_upper,
                    pane: live_tab_pane(app, areas.heap_upper.rows()),
                },
            );
            r.push(
                Painted::Text {
                    area: areas.heap_middle,
                    pane: live_allocator_pane(app, areas.heap_middle.rows()),
                },
            );
            r.push(
                Painted::Text {
                    area: areas.heap_lower,
                    pane: live_inspector_pane(app, config, areas.heap_lower.rows()),
                },
            );
        },
        _ => {
            r.push(
                Painted::Text { area: areas.tab, pane: live_tab_pane(app, areas.tab.rows()) },
            );
        },
    }
    r
}

/// What is put on a terminal for the live screen: its panes, or one that says that there is
/// no room for them.
pub fn draw_live_screen(app: &LiveTuiApp, config: &ReplayConfig, area: Area) -> (r: Vec<Painted>)
    ensures
        if fits(area.width, area.height) {
            exists|areas: LiveAreas|
                is_live_layout(areas, area) && #[trigger] is_live_screen(r@, app@, *config, areas)
        } else {
            r@.len() == 1 && is_text_at(r@[0], area, no_room_pane())
        },
{
    if !fits_live_screen(area.width, area.height) {
        let mut r: Vec<Painted> = Vec::new();
        let pane = Pane {
            title: owned("Heapify"),
            body: owned("terminal too small for debugger layout"),
            offset: 0,
            focused: false,
        };
        r.push(Painted::Text { area, pane });
        return r;
    }
    let areas = layout_live_screen(area);
    let r = paint_live_screen(app, config, &areas);
    assert(is_live_screen(r@, app@, *config, areas));
    r
}

// ---------------------------------------------------------------------------
// The replay screen
// ---------------------------------------------------------------------------

/// Whether there is anything to show on the replay screen; else the words that say so.
pub fn replay_screen_notice(session: &ReplaySession) -> (r: Option<String>)
    ensures
        text::opt(r) == (if session.events@.len() == 0 {
            Some("no events found in trace"@)
        } else {
            None
        }),
{
    if session.event_count() == 0 {
        Some(owned("no events found in trace"))
    } else {
        None
    }
}

/// Whether `r` is the timeline in a pane of the given height.
pub open spec fn is_timeline_pane(
    r: RowPane,
    session: ReplaySession,
    state: ReplayTuiState,
    height: usize,
) -> bool {
    let count = session.events@.len();
    let from = replay::timeline_offset(
        state.selected_event_index as int,
        height as int,
        count as int,
    );
    &&& r.title@ == "Event Timeline"@
    &&& text::texts(r.rows@) == replay::timeline_view(session, from, height as int)
    &&& r.selected == Some(place_in_view(state.selected_event_index, height, count))
    &&& !r.focused
}

pub fn replay_timeline_pane(session: &ReplaySession, state: &ReplayTuiState, height: usize) -> (r:
    RowPane)
    ensures
        is_timeline_pane(r, *session, *state, height),
{
    let count: usize = session.event_count();
    let from: usize = visible_timeline_offset(state.selected_event_index, height, count);
    RowPane {
        title: owned("Event Timeline"),
        rows: replay_timeline_rows(session, from, height),
        selected: Some(find_place_in_view(state.selected_event_index, height, count)),
        focused: false,
    }
}

pub open spec fn details_pane_view(
    session: ReplaySession,
    state: ReplayTuiState,
    config: ReplayConfig,
) -> PaneView {
    PaneView {
        title: "Selected Event Details"@,
        body: replay::details_text(session, state.selected_event_index as int, config),
        offset: state.scroll_details,
        focused: false,
    }
}

pub open spec fn related_pane_view(
    session: ReplaySession,
    state: ReplayTuiState,
    config: ReplayConfig,
) -> PaneView {
    PaneView {
        title: "Related Records"@,
        body: replay::related_panel_text(
            session,
            session.record_at(state.selected_event_index as int),
            config,
        ),
        offset: 0,
        focused: false,
    }
}

/// Where the panes of the replay screen are.
#[derive(Debug, Clone, Copy, PartialEq, Eq, Structural)]
pub struct ReplayAreas {
    pub timeline: Area,
    pub details: Area,
    pub related: Area,
}

/// Whether the panes of the replay screen are where they belong: below each other, with 40, 30
/// and 30 percent of the rows.
pub open spec fn is_replay_layout(r: ReplayAreas, area: Area) -> bool {
    may_split(
        area,
        Axis::Rows,
        seq![Share::Percentage(40), Share::Percentage(30), Share::Percentage(30)],
        seq![r.timeline, r.details, r.related],
    )
}

/// Lays out the replay screen: three panes below each other.
pub fn layout_replay_screen(area: Area) -> (r: ReplayAreas)
    ensures
        is_replay_layout(r, area),
        same_column(r.timeline, area),
        same_column(r.details, area),
        same_column(r.related, area),
{
    let shares = vec![Share::Percentage(40), Share::Percentage(30), Share::Percentage(30)];
    let parts = split_area(area, Axis::Rows, &shares);
    proof {
        assert(shares@ =~= seq![
            Share::Percentage(40),
            Share::Percentage(30),
            Share::Percentage(30),
        ]);
        assert(parts@ =~= seq![parts@[0], parts@[1], parts@[2]]);
    }
    ReplayAreas { timeline: parts[0], details: parts[1], related: parts[2] }
}

/// Whether `r` is the replay screen.
pub open spec fn is_replay_screen(
    r: Seq<Painted>,
    session: ReplaySession,
    state: ReplayTuiState,
    config: ReplayConfig,
    areas: ReplayAreas,
) -> bool {
    &&& r.len() == 3
    &&& match r[0] {
        Painted::Rows { area, pane } => area == areas.timeline && is_timeline_pane(
            pane,
            session,
            state,
            inner_height(areas.timeline),
        ),
        _ => false,
    }
    &&& is_text_at(r[1], areas.details, details_pane_view(session, state, config))
    &&& is_text_at(r[2], areas.related, related_pane_view(session, state, config))
}

/// What the replay screen shows in given areas.
pub fn paint_replay_screen(
    session: &ReplaySession,
    state: &ReplayTuiState,
    config: &ReplayConfig,
    areas: &ReplayAreas,
) -> (r: Vec<Painted>)
    ensures
        is_replay_screen(r@, *session, *state, *config, *areas),
{
    let mut r: Vec<Painted> = Vec::new();
    r.push(
        Painted::Rows {
            area: areas.timeline,
            pane: replay_timeline_pane(session, state, areas.timeline.rows()),
        },
    );
    let details = Pane {
        title: owned("Selected Event Details"),
        body: replay_details_text(session, state.selected_event_index, config),
        offset: state.scroll_details,
        focused: false,
    };
    r.push(Painted::Text { area: areas.details, pane: details });
    let related = Pane {
        title: owned("Related Records"),
        body: replay_related_panel(session, state.selected_event_index, config),
        offset: 0,
        focused: false,
    };
    r.push(Painted::Text { area: areas.related, pane: related });
    r
}

/// What is put on a terminal for the replay screen.
pub fn draw_replay_screen(
    session: &ReplaySession,
    state: &ReplayTuiState,
    config: &ReplayConfig,
    area: Area,
) -> (r: Vec<Painted>)
    ensures
        exists|areas: ReplayAreas|
            is_replay_layout(areas, area) && #[trigger] is_replay_screen(
                r@,
                *session,
                *state,
                *config,
                areas,
            ),
{
    let areas = layout_replay_screen(area);
    let r = paint_replay_screen(session, state, config, &areas);
    assert(is_replay_screen(r@, *session, *state, *config, areas));
    r
}

// ---------------------------------------------------------------------------
// Laws
// ---------------------------------------------------------------------------

/// The selected event is one of the rows in view, whatever the height of the pane, as long as
/// it has a row.
pub proof fn law_selection_is_in_view(selected: usize, height: usize, count: nat)
    requires
        selected < count,
        height > 0,
    ensures
        place_in_view(selected, height, count) < height,
        replay::timeline_offset(selected as int, height as int, count as int) + place_in_view(
            selected,
            height,
            count,
        ) == selected,
{
}

} // verus!
