//! The live debugger screen: its state, and how navigation and trace updates change it.

use crate::classify;
use crate::live;
use crate::live::{
    validate_live_command, DebuggerStopReason, LatestKind, LiveCommand, LiveCommandId,
    LiveCommandMessage, LiveCommandStatus, LiveData, LiveTargetStatus, Stop, StopView, DataView,
};
use crate::number;
use crate::number::parse_json_addr;
use crate::panes;
use crate::panes::{
    next_live_debugger_pane, next_live_right_tab, scroll_delta, LiveDebuggerPane, LiveRightTab,
};
use crate::record::{JsonLayoutChunk, JsonTraceRecord};
use crate::replay;
use crate::replay::replay_record_event_id;
use crate::search;
use crate::search::{
    drop_last_char, find_layout_chunk, format_heap_search_failure, parse_heap_search_query,
    HeapSearchQuery,
};
use crate::snapshot::{CodeContext, DisassemblyLine};
use crate::text;
use crate::text::{cat4, owned};
use std::collections::VecDeque;
use vstd::prelude::*;

verus! {

/// The number of log lines that are kept.
pub const LOG_LIMIT: usize = 200;

/// The number of events that a page key moves by.
pub const EVENT_PAGE: usize = 10;

/// The number of lines kept in view above a selected chunk.
pub const CHUNK_CONTEXT: usize = 5;

/// The number of lines of the code pane above the disassembly that scroll out of view when
/// the pane follows the instruction pointer.
pub const CODE_CONTEXT: usize = 3;

// ---------------------------------------------------------------------------
// State
// ---------------------------------------------------------------------------

/// The target, the commands sent to it, and the selected event.
pub struct LiveControl {
    pub target_status: LiveTargetStatus,
    pub follow_tail: bool,
    pub follow_tail_before_pause: Option<bool>,
    pub selected_index: usize,
    pub status_line: String,
    pub last_command: Option<LiveCommand>,
    pub last_command_status: Option<LiveCommandStatus>,
    pub last_command_message: Option<String>,
    pub next_command_id: u64,
    pub latest_stop_reason: Option<DebuggerStopReason>,
}

/// The model of [`LiveControl`].
pub struct ControlView {
    pub target_status: LiveTargetStatus,
    pub follow_tail: bool,
    pub follow_tail_before_pause: Option<bool>,
    pub selected_index: usize,
    pub status_line: Seq<char>,
    pub last_command: Option<LiveCommand>,
    pub last_command_status: Option<LiveCommandStatus>,
    pub last_command_message: Option<Seq<char>>,
    pub next_command_id: u64,
    pub latest_stop_reason: Option<StopView>,
}

impl View for LiveControl {
    type V = ControlView;

    open spec fn view(&self) -> ControlView {
        ControlView {
            target_status: self.target_status,
            follow_tail: self.follow_tail,
            follow_tail_before_pause: self.follow_tail_before_pause,
            selected_index: self.selected_index,
            status_line: self.status_line@,
            last_command: self.last_command,
            last_command_status: self.last_command_status,
            last_command_message: text::opt(self.last_command_message),
            next_command_id: self.next_command_id,
            latest_stop_reason: live::opt_stop(self.latest_stop_reason),
        }
    }
}

/// The part of the screen that a jump brings forward.
#[derive(Debug, Clone, Copy, PartialEq, Eq, Structural)]
pub enum LiveTuiPane {
    Timeline,
    Details,
    HeapLayout,
    Related,
}

/// Which panes are shown and focused, and how far each is scrolled.
#[derive(Debug, Clone, Copy, PartialEq, Eq, Structural)]
pub struct LivePanes {
    pub focused_debugger_pane: LiveDebuggerPane,
    pub focused_pane: LiveTuiPane,
    pub active_right_tab: LiveRightTab,
    pub show_heap_pane: bool,
    pub show_scan_pane: bool,
    pub show_chunk_inspector: bool,
    pub code_follow_rip: bool,
    pub heap_layout_scroll: usize,
    pub allocator_scan_scroll: usize,
    pub related_records_scroll: usize,
    pub event_details_scroll: usize,
    pub chunk_inspector_scroll: usize,
    pub code_pane_scroll: usize,
    pub register_pane_scroll: usize,
    pub stack_tab_scroll: usize,
    pub maps_tab_scroll: usize,
}

/// The chunk that is selected in the heap layout.
#[derive(Debug, Clone, Copy, PartialEq, Eq, Structural)]
pub struct ChunkSelection {
    pub index: Option<usize>,
    pub addr: Option<u64>,
    pub user_addr: Option<u64>,
}

/// The command console.
pub struct ConsoleState {
    pub input_active: bool,
    pub input: String,
    pub history: Vec<String>,
    pub history_index: Option<usize>,
}

/// The model of [`ConsoleState`].
pub struct ConsoleView {
    pub input_active: bool,
    pub input: Seq<char>,
    pub history: Seq<Seq<char>>,
    pub history_index: Option<usize>,
}

impl View for ConsoleState {
    type V = ConsoleView;

    open spec fn view(&self) -> ConsoleView {
        ConsoleView {
            input_active: self.input_active,
            input: self.input@,
            history: text::texts(self.history@),
            history_index: self.history_index,
        }
    }
}

/// The heap search prompt.
pub struct SearchState {
    pub prompt_active: bool,
    pub input: String,
    pub status: Option<String>,
}

/// The model of [`SearchState`].
pub struct SearchView {
    pub prompt_active: bool,
    pub input: Seq<char>,
    pub status: Option<Seq<char>>,
}

impl View for SearchState {
    type V = SearchView;

    open spec fn view(&self) -> SearchView {
        SearchView {
            prompt_active: self.prompt_active,
            input: self.input@,
            status: text::opt(self.status),
        }
    }
}

/// The whole screen.
pub struct LiveTuiApp {
    pub data: LiveData,
    pub control: LiveControl,
    pub panes: LivePanes,
    pub chunk: ChunkSelection,
    pub console: ConsoleState,
    pub search: SearchState,
    pub logs: VecDeque<String>,
}

/// The model of [`LiveTuiApp`].
pub struct AppView {
    pub data: DataView,
    pub control: ControlView,
    pub panes: LivePanes,
    pub chunk: ChunkSelection,
    pub console: ConsoleView,
    pub search: SearchView,
    pub logs: Seq<Seq<char>>,
}

impl View for LiveTuiApp {
    type V = AppView;

    open spec fn view(&self) -> AppView {
        AppView {
            data: self.data@,
            control: self.control@,
            panes: self.panes,
            chunk: self.chunk,
            console: self.console@,
            search: self.search@,
            logs: text::texts(self.logs@),
        }
    }
}

pub open spec fn no_chunk() -> ChunkSelection {
    ChunkSelection { index: None, addr: None, user_addr: None }
}

/// The screen before anything has been traced.
pub open spec fn fresh() -> AppView {
    AppView {
        data: DataView {
            events: Seq::empty(),
            related: Seq::empty(),
            session_start: None,
            session_end: None,
            registers: Seq::empty(),
            stacks: Seq::empty(),
            contexts: Seq::empty(),
            maps: None,
        },
        control: ControlView {
            target_status: LiveTargetStatus::Running,
            follow_tail: true,
            follow_tail_before_pause: None,
            selected_index: 0,
            status_line: "starting trace..."@,
            last_command: None,
            last_command_status: None,
            last_command_message: None,
            next_command_id: 1,
            latest_stop_reason: None,
        },
        panes: LivePanes {
            focused_debugger_pane: LiveDebuggerPane::Trace,
            focused_pane: LiveTuiPane::Timeline,
            active_right_tab: LiveRightTab::Heap,
            show_heap_pane: true,
            show_scan_pane: true,
            show_chunk_inspector: false,
            code_follow_rip: true,
            heap_layout_scroll: 0,
            allocator_scan_scroll: 0,
            related_records_scroll: 0,
            event_details_scroll: 0,
            chunk_inspector_scroll: 0,
            code_pane_scroll: 0,
            register_pane_scroll: 0,
            stack_tab_scroll: 0,
            maps_tab_scroll: 0,
        },
        chunk: no_chunk(),
        console: ConsoleView {
            input_active: false,
            input: Seq::empty(),
            history: Seq::empty(),
            history_index: None,
        },
        search: SearchView { prompt_active: false, input: Seq::empty(), status: None },
        logs: Seq::empty(),
    }
}

impl Default for LiveTuiApp {
    fn default() -> (r: Self)
        ensures
            r@ == fresh(),
    {
        let r = LiveTuiApp {
            data: LiveData {
                events: Vec::new(),
                related: Vec::new(),
                session_start: None,
                session_end: None,
                registers: Vec::new(),
                stacks: Vec::new(),
                contexts: Vec::new(),
                maps: None,
            },
            control: LiveControl {
                target_status: LiveTargetStatus::Running,
                follow_tail: true,
                follow_tail_before_pause: None,
                selected_index: 0,
                status_line: owned("starting trace..."),
                last_command: None,
                last_command_status: None,
                last_command_message: None,
                next_command_id: 1,
                latest_stop_reason: None,
            },
            panes: LivePanes {
                focused_debugger_pane: LiveDebuggerPane::Trace,
                focused_pane: LiveTuiPane::Timeline,
                active_right_tab: LiveRightTab::Heap,
                show_heap_pane: true,
                show_scan_pane: true,
                show_chunk_inspector: false,
                code_follow_rip: true,
                heap_layout_scroll: 0,
                allocator_scan_scroll: 0,
                related_records_scroll: 0,
                event_details_scroll: 0,
                chunk_inspector_scroll: 0,
                code_pane_scroll: 0,
                register_pane_scroll: 0,
                stack_tab_scroll: 0,
                maps_tab_scroll: 0,
            },
            chunk: ChunkSelection { index: None, addr: None, user_addr: None },
            console: ConsoleState {
                input_active: false,
                input: String::new(),
                history: Vec::new(),
                history_index: None,
            },
            search: SearchState { prompt_active: false, input: String::new(), status: None },
            logs: VecDeque::new(),
        };
        assert(r.console@.history =~= Seq::empty());
        assert(r.console@.input =~= Seq::empty());
        assert(r.search@.input =~= Seq::empty());
        assert(r@.logs =~= Seq::empty());
        r
    }
}

// ---------------------------------------------------------------------------
// Events
// ---------------------------------------------------------------------------

/// The index of the last of `count` events, or zero.
pub open spec fn last_index(count: nat) -> usize {
    if count == 0 {
        0
    } else {
        (count - 1) as usize
    }
}

/// The index `by` places further down a list of `count`, not past its end.
pub open spec fn down(index: usize, by: nat, count: nat) -> usize {
    if index + by > last_index(count) {
        last_index(count)
    } else {
        (index + by) as usize
    }
}

/// The index `by` places further up, not past the start.
pub open spec fn up(index: usize, by: nat) -> usize {
    if index < by {
        0
    } else {
        (index - by) as usize
    }
}

/// The index of the first event record from `i` on with an id.
pub open spec fn event_index(events: Seq<JsonTraceRecord>, i: int, event_id: usize) -> Option<usize>
    decreases events.len() - i,
{
    if i < 0 || i >= events.len() {
        None
    } else if replay::record_event_id(events[i]) == Some(event_id) {
        Some(i as usize)
    } else {
        event_index(events, i + 1, event_id)
    }
}

impl AppView {
    pub open spec fn count(self) -> nat {
        self.data.events.len()
    }

    /// The selection moved to an event; only the latest is followed.
    pub open spec fn select(self, index: usize, follow: bool) -> AppView {
        AppView {
            control: ControlView { selected_index: index, follow_tail: follow, ..self.control },
            ..self
        }
    }

    pub open spec fn select_latest(self) -> AppView {
        self.select(last_index(self.count()), true)
    }

    /// The event that is selected.
    pub open spec fn selected_record(self) -> Option<JsonTraceRecord> {
        if self.control.selected_index < self.count() {
            Some(self.data.events[self.control.selected_index as int])
        } else {
            None
        }
    }

    pub open spec fn selected_event_id(self) -> Option<usize> {
        match self.selected_record() {
            Some(record) => replay::record_event_id(record),
            None => None,
        }
    }
}

pub fn step_down(index: usize, by: usize, count: usize) -> (r: usize)
    ensures
        r == down(index, by as nat, count as nat),
{
    let last: usize = if count == 0 {
        0
    } else {
        count - 1
    };
    if index >= last || by > last - index {
        last
    } else {
        index + by
    }
}

fn step_up(index: usize, by: usize) -> (r: usize)
    ensures
        r == up(index, by as nat),
{
    if index < by {
        0
    } else {
        index - by
    }
}

impl LiveTuiApp {
    pub fn select_next(&mut self)
        ensures
            final(self)@ == old(self)@.select(
                down(old(self)@.control.selected_index, 1, old(self)@.count()),
                false,
            ),
    {
        self.control.selected_index = step_down(
            self.control.selected_index,
            1,
            self.data.events.len(),
        );
        self.control.follow_tail = false;
    }

    pub fn select_previous(&mut self)
        ensures
            final(self)@ == old(self)@.select(up(old(self)@.control.selected_index, 1), false),
    {
        self.control.selected_index = step_up(self.control.selected_index, 1);
        self.control.follow_tail = false;
    }

    pub fn select_page_down(&mut self)
        ensures
            final(self)@ == old(self)@.select(
                down(old(self)@.control.selected_index, EVENT_PAGE as nat, old(self)@.count()),
                false,
            ),
    {
        self.control.selected_index = step_down(
            self.control.selected_index,
            EVENT_PAGE,
            self.data.events.len(),
        );
        self.control.follow_tail = false;
    }

    pub fn select_page_up(&mut self)
        ensures
            final(self)@ == old(self)@.select(
                up(old(self)@.control.selected_index, EVENT_PAGE as nat),
                false,
            ),
    {
        self.control.selected_index = step_up(self.control.selected_index, EVENT_PAGE);
        self.control.follow_tail = false;
    }

    pub fn select_first(&mut self)
        ensures
            final(self)@ == old(self)@.select(0, false),
    {
        self.control.selected_index = 0;
        self.control.follow_tail = false;
    }

    pub fn select_latest(&mut self)
        ensures
            final(self)@ == old(self)@.select_latest(),
    {
        let count: usize = self.data.events.len();
        self.control.selected_index = if count == 0 {
            0
        } else {
            count - 1
        };
        self.control.follow_tail = true;
    }

    pub fn selected_event_record(&self) -> (r: Option<&JsonTraceRecord>)
        ensures
            classify::opt_record(r) == self@.selected_record(),
    {
        if self.control.selected_index < self.data.events.len() {
            Some(&self.data.events[self.control.selected_index])
        } else {
            None
        }
    }

    pub fn selected_event_id(&self) -> (r: Option<usize>)
        ensures
            r == self@.selected_event_id(),
    {
        match self.selected_event_record() {
            Some(record) => replay_record_event_id(record),
            None => None,
        }
    }

    /// Whether the target stands still for inspection.
    pub fn inspection_mode(&self) -> (r: bool)
        ensures
            r == (self@.control.target_status is Paused),
    {
        match self.control.target_status {
            LiveTargetStatus::Paused => true,
            _ => false,
        }
    }

    pub fn find_event_index(&self, event_id: usize) -> (r: Option<usize>)
        ensures
            r == event_index(self@.data.events, 0, event_id),
    {
        let mut i: usize = 0;
        while i < self.data.events.len()
            invariant
                i <= self.data.events.len(),
                event_index(self.data.events@, 0, event_id) == event_index(
                    self.data.events@,
                    i as int,
                    event_id,
                ),
            decreases self.data.events.len() - i,
        {
            if let Some(id) = replay_record_event_id(&self.data.events[i]) {
                if id == event_id {
                    return Some(i);
                }
            }
            i = i + 1;
        }
        None
    }
}

// ---------------------------------------------------------------------------
// Panes
// ---------------------------------------------------------------------------

/// What the focus on a pane brings forward.
pub open spec fn focus_shows(pane: LiveDebuggerPane, tab: LiveRightTab) -> LiveTuiPane {
    match pane {
        LiveDebuggerPane::Trace => LiveTuiPane::Timeline,
        LiveDebuggerPane::Registers => LiveTuiPane::Details,
        LiveDebuggerPane::Code => LiveTuiPane::Details,
        LiveDebuggerPane::Console => LiveTuiPane::Related,
        LiveDebuggerPane::RightTab => if tab is Heap {
            LiveTuiPane::HeapLayout
        } else {
            LiveTuiPane::Related
        },
    }
}

impl LivePanes {
    /// The focus moved to a pane.
    pub open spec fn focus(self, pane: LiveDebuggerPane) -> LivePanes {
        LivePanes {
            focused_debugger_pane: pane,
            focused_pane: focus_shows(pane, self.active_right_tab),
            ..self
        }
    }

    /// The focus moved to a tab of the right column.
    pub open spec fn open_tab(self, tab: LiveRightTab) -> LivePanes {
        (LivePanes { active_right_tab: tab, ..self }).focus(LiveDebuggerPane::RightTab)
    }

    /// The focus moved to the events where the pane that has it is hidden.
    pub open spec fn visible(self) -> LivePanes {
        if !self.show_heap_pane && self.focused_pane is HeapLayout {
            self.focus(LiveDebuggerPane::Trace)
        } else {
            self
        }
    }

    /// The offset of the focused pane; the console has none.
    pub open spec fn focused_scroll(self) -> usize {
        match self.focused_debugger_pane {
            LiveDebuggerPane::Registers => self.register_pane_scroll,
            LiveDebuggerPane::Code => self.code_pane_scroll,
            LiveDebuggerPane::Trace => self.event_details_scroll,
            LiveDebuggerPane::Console => 0,
            LiveDebuggerPane::RightTab => match self.active_right_tab {
                LiveRightTab::Heap => self.heap_layout_scroll,
                LiveRightTab::Stack => self.stack_tab_scroll,
                LiveRightTab::Logs => self.related_records_scroll,
                LiveRightTab::Maps => self.maps_tab_scroll,
            },
        }
    }

    /// The focused pane moved to an offset; the code pane then no longer follows the
    /// instruction pointer.
    pub open spec fn scrolled_to(self, to: usize) -> LivePanes {
        match self.focused_debugger_pane {
            LiveDebuggerPane::Registers => LivePanes { register_pane_scroll: to, ..self },
            LiveDebuggerPane::Code => LivePanes {
                code_pane_scroll: to,
                code_follow_rip: false,
                ..self
            },
            LiveDebuggerPane::Trace => LivePanes { event_details_scroll: to, ..self },
            LiveDebuggerPane::Console => self,
            LiveDebuggerPane::RightTab => match self.active_right_tab {
                LiveRightTab::Heap => LivePanes { heap_layout_scroll: to, ..self },
                LiveRightTab::Stack => LivePanes { stack_tab_scroll: to, ..self },
                LiveRightTab::Logs => LivePanes { related_records_scroll: to, ..self },
                LiveRightTab::Maps => LivePanes { maps_tab_scroll: to, ..self },
            },
        }
    }

    /// The code pane set to follow the instruction pointer, at an offset.
    pub open spec fn following(self, to: usize) -> LivePanes {
        LivePanes { code_follow_rip: true, code_pane_scroll: to, ..self }
    }

    pub fn set_focus(&mut self, pane: LiveDebuggerPane)
        ensures
            *final(self) == old(self).focus(pane),
    {
        self.focused_debugger_pane = pane;
        self.focused_pane = match pane {
            LiveDebuggerPane::Trace => LiveTuiPane::Timeline,
            LiveDebuggerPane::Registers => LiveTuiPane::Details,
            LiveDebuggerPane::Code => LiveTuiPane::Details,
            LiveDebuggerPane::Console => LiveTuiPane::Related,
            LiveDebuggerPane::RightTab => match self.active_right_tab {
                LiveRightTab::Heap => LiveTuiPane::HeapLayout,
                _ => LiveTuiPane::Related,
            },
        };
    }

    fn get_focused_scroll(&self) -> (r: usize)
        ensures
            r == self.focused_scroll(),
    {
        match self.focused_debugger_pane {
            LiveDebuggerPane::Registers => self.register_pane_scroll,
            LiveDebuggerPane::Code => self.code_pane_scroll,
            LiveDebuggerPane::Trace => self.event_details_scroll,
            LiveDebuggerPane::Console => 0,
            LiveDebuggerPane::RightTab => match self.active_right_tab {
                LiveRightTab::Heap => self.heap_layout_scroll,
                LiveRightTab::Stack => self.stack_tab_scroll,
                LiveRightTab::Logs => self.related_records_scroll,
                LiveRightTab::Maps => self.maps_tab_scroll,
            },
        }
    }

    pub fn set_focused_scroll(&mut self, to: usize)
        ensures
            *final(self) == old(self).scrolled_to(to),
    {
        match self.focused_debugger_pane {
            LiveDebuggerPane::Registers => {
                self.register_pane_scroll = to;
            },
            LiveDebuggerPane::Code => {
                self.code_pane_scroll = to;
                self.code_follow_rip = false;
            },
            LiveDebuggerPane::Trace => {
                self.event_details_scroll = to;
            },
            LiveDebuggerPane::Console => {},
            LiveDebuggerPane::RightTab => match self.active_right_tab {
                LiveRightTab::Heap => {
                    self.heap_layout_scroll = to;
                },
                LiveRightTab::Stack => {
                    self.stack_tab_scroll = to;
                },
                LiveRightTab::Logs => {
                    self.related_records_scroll = to;
                },
                LiveRightTab::Maps => {
                    self.maps_tab_scroll = to;
                },
            },
        }
    }
}

/// The position of the first current line from `i` on, or zero.
pub open spec fn current_line(lines: Seq<DisassemblyLine>, i: int) -> usize
    decreases lines.len() - i,
{
    if i < 0 || i >= lines.len() {
        0
    } else if lines[i].is_current {
        i as usize
    } else {
        current_line(lines, i + 1)
    }
}

/// The offset at which the code pane shows the current instruction.
pub open spec fn code_offset(context: Option<CodeContext>) -> usize {
    match context {
        Some(c) => match c.disassembly {
            Some(d) => panes::moved(current_line(d.lines@, 0), CODE_CONTEXT as int),
            None => CODE_CONTEXT,
        },
        None => 0,
    }
}

pub fn offset_of_current_line(context: Option<&CodeContext>) -> (r: usize)
    ensures
        r == code_offset(live::opt_ref(context)),
{
    match context {
        None => 0,
        Some(c) => match &c.disassembly {
            None => CODE_CONTEXT,
            Some(d) => {
                let mut i: usize = 0;
                while i < d.lines.len() && !d.lines[i].is_current
                    invariant
                        i <= d.lines.len(),
                        current_line(d.lines@, 0) == current_line(d.lines@, i as int),
                    decreases d.lines.len() - i,
                {
                    i = i + 1;
                }
                if i < d.lines.len() {
                    scroll_delta(i, CODE_CONTEXT as isize)
                } else {
                    scroll_delta(0, CODE_CONTEXT as isize)
                }
            },
        },
    }
}

impl AppView {
    pub open spec fn with_panes(self, panes: LivePanes) -> AppView {
        AppView { panes, ..self }
    }

    /// The code pane focused and showing the current instruction.
    pub open spec fn recentered(self) -> AppView {
        self.with_panes(
            self.panes.focus(LiveDebuggerPane::Code).following(
                code_offset(live::latest(self.data.contexts)),
            ),
        )
    }

    /// The top of the focused pane; among the events, the first.
    pub open spec fn at_top(self) -> AppView {
        if self.panes.focused_debugger_pane is Trace {
            self.select(0, false)
        } else {
            self.with_panes(self.panes.scrolled_to(0))
        }
    }
}

impl LiveTuiApp {
    pub fn focus_next_pane(&mut self)
        ensures
            final(self)@ == old(self)@.with_panes(
                old(self)@.panes.focus(
                    panes::next_pane(old(self)@.panes.focused_debugger_pane, 1),
                ),
            ),
    {
        let pane = next_live_debugger_pane(self.panes.focused_debugger_pane, 1);
        self.panes.set_focus(pane);
    }

    pub fn focus_previous_pane(&mut self)
        ensures
            final(self)@ == old(self)@.with_panes(
                old(self)@.panes.focus(
                    panes::next_pane(old(self)@.panes.focused_debugger_pane, -1),
                ),
            ),
    {
        let pane = next_live_debugger_pane(self.panes.focused_debugger_pane, -1);
        self.panes.set_focus(pane);
    }

    pub fn set_active_right_tab(&mut self, tab: LiveRightTab)
        ensures
            final(self)@ == old(self)@.with_panes(old(self)@.panes.open_tab(tab)),
    {
        self.panes.active_right_tab = tab;
        self.panes.set_focus(LiveDebuggerPane::RightTab);
    }

    pub fn next_right_tab(&mut self)
        ensures
            final(self)@ == old(self)@.with_panes(
                old(self)@.panes.open_tab(panes::next_tab(old(self)@.panes.active_right_tab, 1)),
            ),
    {
        let tab = next_live_right_tab(self.panes.active_right_tab, 1);
        self.set_active_right_tab(tab);
    }

    pub fn previous_right_tab(&mut self)
        ensures
            final(self)@ == old(self)@.with_panes(
                old(self)@.panes.open_tab(panes::next_tab(old(self)@.panes.active_right_tab, -1)),
            ),
    {
        let tab = next_live_right_tab(self.panes.active_right_tab, -1);
        self.set_active_right_tab(tab);
    }

    pub fn ensure_focus_visible(&mut self)
        ensures
            final(self)@ == old(self)@.with_panes(old(self)@.panes.visible()),
    {
        let hidden = !self.panes.show_heap_pane && self.panes.focused_pane
            == LiveTuiPane::HeapLayout;
        if hidden {
            self.panes.set_focus(LiveDebuggerPane::Trace);
        }
    }

    pub fn scroll_focused(&mut self, delta: isize)
        ensures
            final(self)@ == old(self)@.with_panes(
                old(self)@.panes.scrolled_to(
                    panes::moved(old(self)@.panes.focused_scroll(), delta as int),
                ),
            ),
    {
        let to: usize = scroll_delta(self.panes.get_focused_scroll(), delta);
        self.panes.set_focused_scroll(to);
    }

    pub fn scroll_focused_top(&mut self)
        ensures
            final(self)@ == old(self)@.at_top(),
    {
        let on_events = self.panes.focused_debugger_pane == LiveDebuggerPane::Trace;
        if on_events {
            self.select_first();
        } else {
            self.panes.set_focused_scroll(0);
        }
    }

    pub fn focus_code_and_recenter(&mut self)
        ensures
            final(self)@ == old(self)@.recentered(),
    {
        let to: usize = offset_of_current_line(live::latest_stop(&self.data.contexts));
        self.panes.set_focus(LiveDebuggerPane::Code);
        self.panes.code_follow_rip = true;
        self.panes.code_pane_scroll = to;
    }
}

// ---------------------------------------------------------------------------
// Chunks
// ---------------------------------------------------------------------------

/// The chunk at an index, with its addresses.
pub open spec fn chunk_at(chunks: Seq<JsonLayoutChunk>, index: usize) -> ChunkSelection {
    ChunkSelection {
        index: Some(index),
        addr: number::auto_radix_number(chunks[index as int].chunk_addr@),
        user_addr: number::auto_radix_number(chunks[index as int].user_addr@),
    }
}

/// The chunk at an index that is kept within the list; none in an empty list.
pub open spec fn chunk_near(chunks: Seq<JsonLayoutChunk>, index: usize) -> ChunkSelection {
    if chunks.len() == 0 {
        no_chunk()
    } else {
        chunk_at(chunks, down(index, 0, chunks.len()))
    }
}

/// The chunk after the selected one, or the first.
pub open spec fn next_chunk(chunks: Seq<JsonLayoutChunk>, chunk: ChunkSelection) -> ChunkSelection {
    match chunk.index {
        None => chunk_near(chunks, 0),
        Some(i) => chunk_near(chunks, down(i, 1, chunks.len())),
    }
}

/// The chunk before the selected one, or the first.
pub open spec fn previous_chunk(chunks: Seq<JsonLayoutChunk>, chunk: ChunkSelection) -> ChunkSelection {
    match chunk.index {
        None => chunk_near(chunks, 0),
        Some(i) => chunk_near(chunks, up(i, 1)),
    }
}

/// The selected chunk looked up again in a new layout: by its user address, or else by its
/// place.
pub open spec fn reselected(chunks: Seq<JsonLayoutChunk>, chunk: ChunkSelection) -> ChunkSelection {
    let found = match chunk.user_addr {
        Some(addr) => search::first_chunk(chunks, 0, HeapSearchQuery::UserAddress(addr)),
        None => None,
    };
    match (found, chunk.index) {
        (Some(i), _) => chunk_at(chunks, i),
        (None, Some(i)) => chunk_near(chunks, i),
        (None, None) => no_chunk(),
    }
}

/// The offset of the heap layout at which a chunk is in view.
pub open spec fn chunk_offset(index: usize) -> usize {
    up(index, CHUNK_CONTEXT as nat)
}

impl LivePanes {
    /// The heap layout brought forward with a chunk in view and the inspector open.
    pub open spec fn showing_chunk(self, index: usize) -> LivePanes {
        LivePanes {
            show_heap_pane: true,
            show_chunk_inspector: true,
            chunk_inspector_scroll: 0,
            heap_layout_scroll: chunk_offset(index),
            ..self.open_tab(LiveRightTab::Heap)
        }
    }

    /// The inspector open from its top.
    pub open spec fn inspecting(self) -> LivePanes {
        LivePanes { show_chunk_inspector: true, chunk_inspector_scroll: 0, ..self }
    }
}

impl AppView {
    pub open spec fn with_chunk(self, chunk: ChunkSelection) -> AppView {
        AppView { chunk, ..self }
    }

    /// A chunk of the latest layout selected and brought into view.
    pub open spec fn show_chunk(self, index: usize) -> AppView {
        AppView {
            chunk: chunk_at(self.data.chunks(), index),
            panes: self.panes.showing_chunk(index),
            ..self
        }
    }

    /// A search carried out: the first chunk that matches is shown, or the failure said.
    pub open spec fn searched(self, query: HeapSearchQuery) -> AppView {
        let said = |status: Seq<char>|
            SearchView { status: Some(status), ..self.search };
        match search::first_chunk(self.data.chunks(), 0, query) {
            Some(index) => AppView {
                search: said(found_text(self.data.chunks()[index as int])),
                ..self.show_chunk(index)
            },
            None => AppView { search: said(search::search_failure(query)), ..self },
        }
    }

    /// What was typed at the search prompt carried out, and the prompt closed.
    pub open spec fn search_submitted(self) -> AppView {
        let closed = SearchView { prompt_active: false, ..self.search };
        match search::query_of(search::words(self.search.input)) {
            Ok(query) => (AppView { search: closed, ..self }).searched(query),
            Err(message) => AppView {
                search: SearchView { status: Some(message), ..closed },
                ..self
            },
        }
    }

    pub open spec fn with_search(self, search: SearchView) -> AppView {
        AppView { search, ..self }
    }
}

/// What is said of a chunk that was found.
pub open spec fn found_text(chunk: JsonLayoutChunk) -> Seq<char> {
    "selected chunk "@ + chunk.chunk_addr@ + " user "@ + chunk.user_addr@
}

fn selection_at(chunks: &Vec<JsonLayoutChunk>, index: usize) -> (r: ChunkSelection)
    requires
        index < chunks.len(),
    ensures
        r == chunk_at(chunks@, index),
{
    let chunk = &chunks[index];
    ChunkSelection {
        index: Some(index),
        addr: parse_json_addr(chunk.chunk_addr.as_str()),
        user_addr: parse_json_addr(chunk.user_addr.as_str()),
    }
}

fn selection_near(chunks: &Vec<JsonLayoutChunk>, index: usize) -> (r: ChunkSelection)
    ensures
        r == chunk_near(chunks@, index),
{
    if chunks.len() == 0 {
        ChunkSelection { index: None, addr: None, user_addr: None }
    } else {
        selection_at(chunks, step_down(index, 0, chunks.len()))
    }
}

pub fn selection_again(chunks: &Vec<JsonLayoutChunk>, chunk: ChunkSelection) -> (r: ChunkSelection)
    ensures
        r == reselected(chunks@, chunk),
{
    if let Some(addr) = chunk.user_addr {
        if let Some(i) = find_layout_chunk(chunks, HeapSearchQuery::UserAddress(addr)) {
            return selection_at(chunks, i);
        }
    }
    match chunk.index {
        Some(i) => selection_near(chunks, i),
        None => ChunkSelection { index: None, addr: None, user_addr: None },
    }
}

/// The chunks of the latest layout.
pub fn latest_chunks(data: &LiveData) -> (r: Option<&Vec<JsonLayoutChunk>>)
    ensures
        match r {
            Some(chunks) => search::layout_chunks(data@.layout()) == Some(chunks@)
                && data@.chunks() == chunks@,
            None => data@.chunks() == Seq::<JsonLayoutChunk>::empty() && search::layout_chunks(
                data@.layout(),
            ) is None,
        },
{
    match data.latest_record(LatestKind::HeapLayout) {
        Some(JsonTraceRecord::HeapLayout { chunks, .. }) => Some(chunks),
        _ => None,
    }
}

impl LiveTuiApp {
    pub fn select_next_chunk(&mut self)
        ensures
            final(self)@ == old(self)@.with_chunk(
                next_chunk(old(self)@.data.chunks(), old(self)@.chunk),
            ),
    {
        let chunk = match latest_chunks(&self.data) {
            Some(chunks) => match self.chunk.index {
                None => selection_near(chunks, 0),
                Some(i) => selection_near(chunks, step_down(i, 1, chunks.len())),
            },
            None => ChunkSelection { index: None, addr: None, user_addr: None },
        };
        self.chunk = chunk;
    }

    pub fn select_previous_chunk(&mut self)
        ensures
            final(self)@ == old(self)@.with_chunk(
                previous_chunk(old(self)@.data.chunks(), old(self)@.chunk),
            ),
    {
        let chunk = match latest_chunks(&self.data) {
            Some(chunks) => match self.chunk.index {
                None => selection_near(chunks, 0),
                Some(i) => selection_near(chunks, step_up(i, 1)),
            },
            None => ChunkSelection { index: None, addr: None, user_addr: None },
        };
        self.chunk = chunk;
    }

    /// Reads the selected chunk's addresses from the latest layout again; without a selection,
    /// selects the first chunk.
    pub fn select_chunk_at_current_layout_index(&mut self)
        ensures
            final(self)@ == old(self)@.with_chunk(
                chunk_near(
                    old(self)@.data.chunks(),
                    match old(self)@.chunk.index {
                        Some(i) => i,
                        None => 0,
                    },
                ),
            ),
    {
        let index: usize = match self.chunk.index {
            Some(i) => i,
            None => 0,
        };
        let chunk = match latest_chunks(&self.data) {
            Some(chunks) => selection_near(chunks, index),
            None => ChunkSelection { index: None, addr: None, user_addr: None },
        };
        self.chunk = chunk;
    }

    pub fn find_chunk_in_latest_layout(&self, query: HeapSearchQuery) -> (r: Option<usize>)
        ensures
            r == search::first_chunk(self@.data.chunks(), 0, query),
            r matches Some(i) ==> i < self@.data.chunks().len(),
    {
        match latest_chunks(&self.data) {
            Some(chunks) => find_layout_chunk(chunks, query),
            None => None,
        }
    }

    /// The selected chunk, where the latest layout has it.
    pub fn selected_chunk_from_latest_layout(&self) -> (r: Option<&JsonLayoutChunk>)
        ensures
            live::opt_ref(r) == self@.selected_chunk(),
    {
        match (latest_chunks(&self.data), self.chunk.index) {
            (Some(chunks), Some(i)) => if i < chunks.len() {
                Some(&chunks[i])
            } else {
                None
            },
            _ => None,
        }
    }

    pub fn show_chunk(&mut self, index: usize)
        requires
            index < old(self)@.data.chunks().len(),
        ensures
            final(self)@ == old(self)@.show_chunk(index),
    {
        let chunk = match latest_chunks(&self.data) {
            Some(chunks) => selection_at(chunks, index),
            None => ChunkSelection { index: None, addr: None, user_addr: None },
        };
        self.chunk = chunk;
        self.panes.active_right_tab = LiveRightTab::Heap;
        self.panes.set_focus(LiveDebuggerPane::RightTab);
        self.panes.show_heap_pane = true;
        self.panes.show_chunk_inspector = true;
        self.panes.chunk_inspector_scroll = 0;
        self.panes.heap_layout_scroll = step_up(index, CHUNK_CONTEXT);
    }

    pub fn execute_heap_search_query(&mut self, query: HeapSearchQuery)
        ensures
            final(self)@ == old(self)@.searched(query),
    {
        let found = self.find_chunk_in_latest_layout(query);
        match found {
            Some(index) => {
                let status = match latest_chunks(&self.data) {
                    Some(chunks) => {
                        let chunk = &chunks[index];
                        cat4(
                            "selected chunk ",
                            chunk.chunk_addr.as_str(),
                            " user ",
                            chunk.user_addr.as_str(),
                        )
                    },
                    None => owned(""),
                };
                self.show_chunk(index);
                self.search.status = Some(status);
            },
            None => {
                self.search.status = Some(format_heap_search_failure(query));
            },
        }
    }

    pub fn start_heap_search_prompt(&mut self)
        ensures
            final(self)@ == old(self)@.with_search(
                (SearchView { prompt_active: true, input: Seq::empty(), status: None }),
            ),
    {
        self.search.prompt_active = true;
        self.search.input = String::new();
        self.search.status = None;
        assert(self.search@.input =~= Seq::empty());
    }

    pub fn cancel_heap_search_prompt(&mut self)
        ensures
            final(self)@ == old(self)@.with_search(
                (SearchView { prompt_active: false, input: Seq::empty(), ..old(self)@.search }),
            ),
    {
        self.search.prompt_active = false;
        self.search.input = String::new();
        assert(self.search@.input =~= Seq::empty());
    }

    pub fn push_search_char(&mut self, ch: char)
        ensures
            final(self)@ == old(self)@.with_search(
                (SearchView { input: old(self)@.search.input.push(ch), ..old(self)@.search }),
            ),
    {
        self.search.input.push(ch);
    }

    pub fn pop_search_char(&mut self)
        ensures
            final(self)@ == old(self)@.with_search(
                (SearchView {
                    input: search::shortened(old(self)@.search.input),
                    ..old(self)@.search
                }),
            ),
    {
        self.search.input = drop_last_char(self.search.input.as_str());
    }

    pub fn execute_heap_search(&mut self)
        ensures
            final(self)@ == old(self)@.search_submitted(),
    {
        let query = parse_heap_search_query(self.search.input.as_str());
        self.search.prompt_active = false;
        match query {
            Ok(query) => {
                self.execute_heap_search_query(query);
            },
            Err(error) => {
                self.search.status = Some(error.to_text());
            },
        }
    }
}

impl AppView {
    /// The selected chunk, where the latest layout has it.
    pub open spec fn selected_chunk(self) -> Option<JsonLayoutChunk> {
        match self.chunk.index {
            Some(i) => if i < self.data.chunks().len() {
                Some(self.data.chunks()[i as int])
            } else {
                None
            },
            None => None,
        }
    }
}

// ---------------------------------------------------------------------------
// Console and logs
// ---------------------------------------------------------------------------

/// A line added to the log, which keeps only its latest lines.
pub open spec fn logged(logs: Seq<Seq<char>>, line: Seq<char>) -> Seq<Seq<char>> {
    let all = logs.push(line);
    if all.len() > LOG_LIMIT {
        all.skip(all.len() - LOG_LIMIT)
    } else {
        all
    }
}

impl ConsoleView {
    /// The entry before the one shown; the latest where none is.
    pub open spec fn older(self) -> ConsoleView {
        if self.history.len() == 0 {
            self
        } else {
            let index = match self.history_index {
                None => last_index(self.history.len()),
                Some(i) => up(down(i, 0, self.history.len()), 1),
            };
            ConsoleView {
                input: self.history[index as int],
                history_index: Some(index),
                ..self
            }
        }
    }

    /// The entry after the one shown; an empty line after the latest.
    pub open spec fn newer(self) -> ConsoleView {
        match self.history_index {
            None => self,
            Some(i) => if i + 1 < self.history.len() {
                ConsoleView {
                    input: self.history[i + 1],
                    history_index: Some((i + 1) as usize),
                    ..self
                }
            } else {
                ConsoleView { input: Seq::empty(), history_index: None, ..self }
            },
        }
    }

    pub open spec fn closed(self) -> ConsoleView {
        ConsoleView { input_active: false, input: Seq::empty(), history_index: None, ..self }
    }
}

impl AppView {
    pub open spec fn with_console(self, console: ConsoleView) -> AppView {
        AppView { console, ..self }
    }

    pub open spec fn log(self, line: Seq<char>) -> AppView {
        AppView { logs: logged(self.logs, line), ..self }
    }
}

impl LiveTuiApp {
    pub fn push_log_line(&mut self, line: String)
        ensures
            final(self)@ == old(self)@.log(line@),
    {
        let ghost before = self.logs@;
        self.logs.push_back(line);
        let ghost all = self.logs@;
        assert(text::texts(all) =~= text::texts(before).push(line@));
        while self.logs.len() > LOG_LIMIT
            invariant
                self.logs@.len() <= all.len(),
                self.logs@ == all.skip(all.len() - self.logs@.len()),
                all.len() > LOG_LIMIT ==> self.logs@.len() >= LOG_LIMIT,
                all.len() <= LOG_LIMIT ==> self.logs@ == all,
                self.data == old(self).data,
                self.control == old(self).control,
                self.panes == old(self).panes,
                self.chunk == old(self).chunk,
                self.console == old(self).console,
                self.search == old(self).search,
            decreases self.logs@.len(),
        {
            let ghost now = self.logs@;
            let _ = self.logs.pop_front();
            assert(self.logs@ =~= all.skip(all.len() - self.logs@.len()));
        }
        proof {
            let kept = self.logs@;
            assert(text::texts(kept) =~= logged(text::texts(before), line@));
        }
    }

    pub fn push_console_output(&mut self, line: &str)
        ensures
            final(self)@ == old(self)@.log(line@),
    {
        self.push_log_line(owned(line));
    }

    pub fn start_console_input(&mut self)
        ensures
            final(self)@ == old(self)@.with_panes(
                old(self)@.panes.focus(LiveDebuggerPane::Console),
            ).with_console(
                (ConsoleView {
                    input_active: true,
                    input: Seq::empty(),
                    history_index: None,
                    ..old(self)@.console
                }),
            ),
    {
        self.panes.set_focus(LiveDebuggerPane::Console);
        self.console.input_active = true;
        self.console.input = String::new();
        self.console.history_index = None;
        assert(self.console@.input =~= Seq::empty());
    }

    pub fn cancel_console_input(&mut self)
        ensures
            final(self)@ == old(self)@.with_console(old(self)@.console.closed()),
    {
        self.console.input_active = false;
        self.console.input = String::new();
        self.console.history_index = None;
        assert(self.console@.input =~= Seq::empty());
    }

    pub fn push_console_char(&mut self, ch: char)
        ensures
            final(self)@ == old(self)@.with_console(
                (ConsoleView { input: old(self)@.console.input.push(ch), ..old(self)@.console }),
            ),
    {
        self.console.input.push(ch);
    }

    pub fn pop_console_char(&mut self)
        ensures
            final(self)@ == old(self)@.with_console(
                (ConsoleView {
                    input: search::shortened(old(self)@.console.input),
                    ..old(self)@.console
                }),
            ),
    {
        self.console.input = drop_last_char(self.console.input.as_str());
    }

    pub fn history_previous(&mut self)
        ensures
            final(self)@ == old(self)@.with_console(old(self)@.console.older()),
    {
        let count: usize = self.console.history.len();
        if count > 0 {
            let index: usize = match self.console.history_index {
                None => count - 1,
                Some(i) => step_up(step_down(i, 0, count), 1),
            };
            self.console.input = self.console.history[index].clone();
            self.console.history_index = Some(index);
        }
    }

    pub fn history_next(&mut self)
        ensures
            final(self)@ == old(self)@.with_console(old(self)@.console.newer()),
    {
        if let Some(i) = self.console.history_index {
            let count: usize = self.console.history.len();
            if count > 0 && i < count - 1 {
                self.console.input = self.console.history[i + 1].clone();
                self.console.history_index = Some(i + 1);
            } else {
                self.console.input = String::new();
                self.console.history_index = None;
                assert(self.console@.input =~= Seq::empty());
            }
        }
    }

    pub fn remember_console_command(&mut self, command: &str)
        ensures
            final(self)@ == old(self)@.with_console(
                (ConsoleView {
                    history: old(self)@.console.history.push(command@),
                    ..old(self)@.console
                }),
            ),
    {
        self.console.history.push(owned(command));
        assert(self.console@.history =~= old(self)@.console.history.push(command@));
    }
}

// ---------------------------------------------------------------------------
// Commands
// ---------------------------------------------------------------------------

impl ControlView {
    /// A command that was refused.
    pub open spec fn rejected(self, command: LiveCommand) -> ControlView {
        let reason = live::rejection(self.target_status, command);
        ControlView {
            last_command: Some(command),
            last_command_status: Some(LiveCommandStatus::Rejected),
            last_command_message: Some(reason),
            status_line: reason,
            ..self
        }
    }

    /// A command that was numbered to be sent.
    pub open spec fn numbered(self, command: LiveCommand) -> ControlView {
        ControlView {
            last_command: Some(command),
            last_command_status: Some(LiveCommandStatus::Accepted),
            next_command_id: if self.next_command_id == u64::MAX {
                u64::MAX
            } else {
                (self.next_command_id + 1) as u64
            },
            ..self
        }
    }

    /// A command that could not be sent.
    pub open spec fn unsent(self, command: LiveCommand) -> ControlView {
        ControlView {
            last_command: Some(command),
            last_command_status: Some(LiveCommandStatus::Failed),
            last_command_message: Some("failed to send command to trace worker"@),
            status_line: "failed to send command to trace worker"@,
            ..self
        }
    }

    pub open spec fn says(self, message: Seq<char>) -> ControlView {
        ControlView { status_line: message, last_command_message: Some(message), ..self }
    }

    /// A command that was sent, with `last` the index of the latest event.
    pub open spec fn sent(self, command: LiveCommand, last: usize) -> ControlView {
        match command {
            LiveCommand::Stop => (ControlView {
                target_status: LiveTargetStatus::Stopping,
                ..self
            }).says("stopping target..."@),
            LiveCommand::Pause => (ControlView {
                follow_tail_before_pause: Some(self.follow_tail),
                follow_tail: false,
                ..self
            }).says("pause requested..."@),
            LiveCommand::Resume => (match self.follow_tail_before_pause {
                Some(follow) => ControlView {
                    follow_tail_before_pause: None,
                    follow_tail: follow,
                    selected_index: if follow {
                        last
                    } else {
                        self.selected_index
                    },
                    ..self
                },
                None => self,
            }).says("resume requested..."@),
            LiveCommand::Continue => (ControlView {
                target_status: LiveTargetStatus::Running,
                follow_tail_before_pause: None,
                follow_tail: true,
                selected_index: last,
                ..self
            }).says("running"@),
            LiveCommand::StepAllocatorEvent => (ControlView {
                target_status: LiveTargetStatus::SteppingToNextAllocatorEvent,
                follow_tail: true,
                selected_index: last,
                ..self
            }).says("stepping to next allocator event..."@),
            LiveCommand::StepInstruction => (ControlView {
                target_status: LiveTargetStatus::SteppingInstruction,
                follow_tail: false,
                ..self
            }).says("waiting for next stop..."@),
            LiveCommand::StepInstructionOver => (ControlView {
                target_status: LiveTargetStatus::SteppingInstructionOver,
                follow_tail: false,
                ..self
            }).says("waiting for next stop..."@),
        }
    }
}

impl AppView {
    pub open spec fn with_control(self, control: ControlView) -> AppView {
        AppView { control, ..self }
    }

    /// A command prepared: numbered where the target takes it, refused where it does not.
    pub open spec fn prepared(self, command: LiveCommand) -> AppView {
        self.with_control(
            if live::allows(self.control.target_status, command) {
                self.control.numbered(command)
            } else {
                self.control.rejected(command)
            },
        )
    }

    pub open spec fn sent(self, command: LiveCommand) -> AppView {
        self.with_control(self.control.sent(command, last_index(self.count())))
    }
}

impl LiveTuiApp {
    /// Numbers a command for the trace worker, where the target's state allows it.
    pub fn prepare_command(&mut self, command: LiveCommand) -> (r: Result<
        LiveCommandMessage,
        String,
    >)
        ensures
            final(self)@ == old(self)@.prepared(command),
            match r {
                Ok(message) => live::allows(old(self)@.control.target_status, command) && message
                    == (LiveCommandMessage {
                    id: LiveCommandId(old(self)@.control.next_command_id),
                    command,
                }),
                Err(reason) => !live::allows(old(self)@.control.target_status, command) && reason@
                    == live::rejection(old(self)@.control.target_status, command),
            },
    {
        match validate_live_command(self.control.target_status, command) {
            Ok(_) => {
                let id: u64 = self.control.next_command_id;
                if id < u64::MAX {
                    self.control.next_command_id = id + 1;
                }
                self.control.last_command = Some(command);
                self.control.last_command_status = Some(LiveCommandStatus::Accepted);
                Ok(LiveCommandMessage { id: LiveCommandId(id), command })
            },
            Err(reason) => {
                self.control.last_command = Some(command);
                self.control.last_command_status = Some(LiveCommandStatus::Rejected);
                self.control.last_command_message = Some(reason.clone());
                self.control.status_line = reason.clone();
                Err(reason)
            },
        }
    }

    fn say(&mut self, message: &str)
        ensures
            final(self)@ == old(self)@.with_control(old(self)@.control.says(message@)),
    {
        self.control.status_line = owned(message);
        self.control.last_command_message = Some(owned(message));
    }

    fn latest_index(&self) -> (r: usize)
        ensures
            r == last_index(self@.count()),
    {
        let count: usize = self.data.events.len();
        if count == 0 {
            0
        } else {
            count - 1
        }
    }
}

/// Records that a command could not be sent.
pub fn apply_unsent_live_command(app: &mut LiveTuiApp, command: LiveCommand)
    ensures
        final(app)@ == old(app)@.with_control(old(app)@.control.unsent(command)),
{
    app.control.last_command = Some(command);
    app.control.last_command_status = Some(LiveCommandStatus::Failed);
    app.control.last_command_message = Some(owned("failed to send command to trace worker"));
    app.control.status_line = owned("failed to send command to trace worker");
}

/// Records that a command was sent.
pub fn apply_sent_live_command(app: &mut LiveTuiApp, command: LiveCommand)
    ensures
        final(app)@ == old(app)@.sent(command),
{
    let last: usize = app.latest_index();
    match command {
        LiveCommand::Stop => {
            app.control.target_status = LiveTargetStatus::Stopping;
            app.say("stopping target...");
        },
        LiveCommand::Pause => {
            app.control.follow_tail_before_pause = Some(app.control.follow_tail);
            app.control.follow_tail = false;
            app.say("pause requested...");
        },
        LiveCommand::Resume => {
            if let Some(follow_tail) = app.control.follow_tail_before_pause {
                app.control.follow_tail_before_pause = None;
                app.control.follow_tail = follow_tail;
                if follow_tail {
                    app.control.selected_index = last;
                }
            }
            app.say("resume requested...");
        },
        LiveCommand::Continue => {
            app.control.target_status = LiveTargetStatus::Running;
            app.control.follow_tail_before_pause = None;
            app.control.follow_tail = true;
            app.control.selected_index = last;
            app.say("running");
        },
        LiveCommand::StepAllocatorEvent => {
            app.control.target_status = LiveTargetStatus::SteppingToNextAllocatorEvent;
            app.control.follow_tail = true;
            app.control.selected_index = last;
            app.say("stepping to next allocator event...");
        },
        LiveCommand::StepInstruction => {
            app.control.target_status = LiveTargetStatus::SteppingInstruction;
            app.control.follow_tail = false;
            app.say("waiting for next stop...");
        },
        LiveCommand::StepInstructionOver => {
            app.control.target_status = LiveTargetStatus::SteppingInstructionOver;
            app.control.follow_tail = false;
            app.say("waiting for next stop...");
        },
    }
}

} // verus!
