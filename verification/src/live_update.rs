//! Updates from the trace worker: what each does to the screen, and which go into the trace
//! file.

use crate::breaks::AllocatorBreakMatch;
use crate::classify;
use crate::event;
use crate::event::{json_heap_event, HeapTraceEvent, HeapTrackerExplanation, HeapTrackerNote};
use crate::live;
use crate::live::{
    latest_stop, DataView, DebuggerStopReason, LatestKind, LiveCommand, LiveCommandId,
    LiveCommandStatus, LiveTargetStatus, RelatedRecord, Stop, StopView,
};
use crate::live_app;
use crate::live_app::{AppView, ControlView, LivePanes, LiveTuiApp};
use crate::record::JsonTraceRecord;
use crate::search;
use crate::search::HeapSearchQuery;
use crate::snapshot::{
    CodeContext, ProcessMapsSnapshot, RegisterSnapshot, StackSnapshot, SymbolizedAddress,
};
use crate::stop_text;
use crate::stop_text::annotate_stack_snapshot;
use crate::text;
use crate::text::{cat4, cat5, cat6, owned};
use vstd::prelude::*;

verus! {

/// The record that a session starts with.
#[derive(Debug, Clone, PartialEq, Eq)]
pub struct JsonSessionStart {
    pub record: JsonTraceRecord,
}

/// The record that a session ends with.
#[derive(Debug, Clone, PartialEq, Eq)]
pub struct JsonSessionEnd {
    pub record: JsonTraceRecord,
}

/// Something that happened in a trace.
#[derive(Debug, Clone, PartialEq, Eq)]
pub enum LiveTraceUpdate {
    SessionStart(JsonSessionStart),
    Event {
        event_id: usize,
        event: HeapTraceEvent,
        note: HeapTrackerNote,
        explanation: HeapTrackerExplanation,
        caller_symbol: Option<SymbolizedAddress>,
    },
    RelatedRecord { event_id: usize, record: JsonTraceRecord },
    Status { message: String },
    CommandStatus {
        command_id: Option<LiveCommandId>,
        command: Option<LiveCommand>,
        status: LiveCommandStatus,
        target_status: LiveTargetStatus,
        message: String,
    },
    ProcessMaps { snapshot: ProcessMapsSnapshot },
    RegisterSnapshot { event_id: Option<usize>, snapshot: RegisterSnapshot },
    StackSnapshot { event_id: Option<usize>, snapshot: StackSnapshot },
    CodeContext { event_id: Option<usize>, context: CodeContext },
    BreakMatched(AllocatorBreakMatch),
    SessionEnd(JsonSessionEnd),
}

// ---------------------------------------------------------------------------
// The trace file
// ---------------------------------------------------------------------------

/// Whether an update goes into the trace file: the session's ends, its events and what
/// belongs to them do, what only the screen shows does not.
pub open spec fn is_traced(update: LiveTraceUpdate) -> bool {
    update is SessionStart || update is Event || update is RelatedRecord || update is SessionEnd
}

/// Whether `record` is what the trace file holds of an update.
pub open spec fn is_trace_record(record: JsonTraceRecord, update: LiveTraceUpdate) -> bool {
    match update {
        LiveTraceUpdate::SessionStart(start) => record == start.record,
        LiveTraceUpdate::Event { event, note, explanation, caller_symbol, .. } => match record {
            JsonTraceRecord::Event { event: json } => event::is_json_event(
                json,
                event,
                note,
                explanation,
                caller_symbol,
            ),
            _ => false,
        },
        LiveTraceUpdate::RelatedRecord { record: related, .. } => record == related,
        LiveTraceUpdate::SessionEnd(end) => record == end.record,
        _ => false,
    }
}

/// The record that the trace file gets for an update.
pub fn trace_record(update: LiveTraceUpdate) -> (r: Option<JsonTraceRecord>)
    ensures
        match r {
            Some(record) => is_traced(update) && is_trace_record(record, update),
            None => !is_traced(update),
        },
{
    match update {
        LiveTraceUpdate::SessionStart(start) => Some(start.record),
        LiveTraceUpdate::Event { event, note, explanation, caller_symbol, .. } => Some(
            JsonTraceRecord::Event {
                event: json_heap_event(&event, note, explanation, caller_symbol),
            },
        ),
        LiveTraceUpdate::RelatedRecord { record, .. } => Some(record),
        LiveTraceUpdate::SessionEnd(end) => Some(end.record),
        _ => None,
    }
}

// ---------------------------------------------------------------------------
// The screen
// ---------------------------------------------------------------------------

impl ControlView {
    /// The outcome of a command; a paused target is no longer followed.
    pub open spec fn reported(
        self,
        command: Option<LiveCommand>,
        status: LiveCommandStatus,
        target_status: LiveTargetStatus,
        message: Seq<char>,
    ) -> ControlView {
        ControlView {
            target_status,
            last_command: command,
            last_command_status: Some(status),
            last_command_message: Some(message),
            status_line: message,
            follow_tail: self.follow_tail && target_status !is Paused,
            latest_stop_reason: match live::reported_stop(command, status, message) {
                Some(stop) => Some(stop),
                None => self.latest_stop_reason,
            },
            ..self
        }
    }
}

/// The log line of a command's outcome.
pub open spec fn report_line(
    command: Option<LiveCommand>,
    status: LiveCommandStatus,
    message: Seq<char>,
) -> Seq<char> {
    (match command {
        Some(c) => live::command_word(c),
        None => "target"@,
    }) + ": "@ + message + " ("@ + live::status_word(status) + ")"@
}

/// What is said of a condition that was met.
pub open spec fn break_text(message: Seq<char>, event_id: usize) -> Seq<char> {
    "break condition matched: "@ + message + " after event #"@ + text::dec(event_id as nat)
}

/// What is said of a session that has ended.
pub open spec fn end_text(record: JsonTraceRecord) -> Seq<char> {
    match record {
        JsonTraceRecord::SessionEnd { exit_status, event_count } =>
            "target exited: "@ + exit_status@ + "; "@ + text::dec(event_count as nat)
                + " events; press q to quit"@,
        _ => "target exited; press q to quit"@,
    }
}

/// The stop that a session's last record reports.
pub open spec fn end_stop(record: JsonTraceRecord) -> Option<StopView> {
    match record {
        JsonTraceRecord::SessionEnd { exit_status, .. } => Some(
            StopView::ProcessExit { status: exit_status@ },
        ),
        _ => None,
    }
}

impl AppView {
    pub open spec fn with_data(self, data: DataView) -> AppView {
        AppView { data, ..self }
    }

    pub open spec fn says(self, message: Seq<char>) -> AppView {
        self.with_control(ControlView { status_line: message, ..self.control })
    }

    pub open spec fn started(self, record: JsonTraceRecord) -> AppView {
        self.with_data(DataView { session_start: Some(record), ..self.data }).says("tracing..."@)
    }

    /// An event added; it is selected where the latest is followed.
    pub open spec fn event_added(self, record: JsonTraceRecord) -> AppView {
        let next = self.with_data(DataView { events: self.data.events.push(record), ..self.data });
        if self.control.follow_tail {
            next.select_latest()
        } else {
            next
        }
    }

    /// A record of an event added. A new heap layout keeps the selected chunk as far as it
    /// can, and its pane within the layout.
    pub open spec fn related_added(self, event_id: usize, record: JsonTraceRecord) -> AppView {
        let next = self.with_data(
            DataView {
                related: self.data.related.push(RelatedRecord { event_id, record }),
                ..self.data
            },
        );
        match record {
            JsonTraceRecord::HeapLayout { chunks, .. } => AppView {
                chunk: live_app::reselected(chunks@, self.chunk),
                panes: LivePanes {
                    heap_layout_scroll: live_app::down(
                        self.panes.heap_layout_scroll,
                        0,
                        chunks@.len(),
                    ),
                    ..self.panes
                },
                ..next
            },
            _ => next,
        }
    }

    pub open spec fn registers_read(
        self,
        event_id: Option<usize>,
        value: RegisterSnapshot,
    ) -> AppView {
        self.with_data(
            DataView { registers: self.data.registers.push(Stop { event_id, value }), ..self.data },
        )
    }

    /// A stack added, with notes on what its words point to.
    pub open spec fn stack_read(self, event_id: Option<usize>, value: StackSnapshot) -> AppView {
        self.with_data(
            DataView { stacks: self.data.stacks.push(Stop { event_id, value }), ..self.data },
        )
    }

    /// A code context added; the code pane moves to it where it follows the instruction
    /// pointer.
    pub open spec fn code_read(self, event_id: Option<usize>, value: CodeContext) -> AppView {
        let next = self.with_data(
            DataView { contexts: self.data.contexts.push(Stop { event_id, value }), ..self.data },
        );
        if self.panes.code_follow_rip {
            next.with_panes(self.panes.following(live_app::code_offset(Some(value))))
        } else {
            next
        }
    }

    /// A condition met: the target stands still at the event, and the chunk it was about is
    /// shown where the latest layout has it.
    pub open spec fn broke(
        self,
        event_id: usize,
        user_addr: Option<u64>,
        message: Seq<char>,
    ) -> AppView {
        let said = break_text(message, event_id);
        let stopped = self.log(said).with_control(
            ControlView {
                status_line: said,
                target_status: LiveTargetStatus::Paused,
                follow_tail: false,
                selected_index: match live_app::event_index(self.data.events, 0, event_id) {
                    Some(index) => index,
                    None => self.control.selected_index,
                },
                ..self.control
            },
        );
        match user_addr {
            Some(addr) => match search::first_chunk(
                self.data.chunks(),
                0,
                HeapSearchQuery::UserAddress(addr),
            ) {
                Some(index) => stopped.show_chunk(index),
                None => stopped,
            },
            None => stopped,
        }
    }

    pub open spec fn ended(self, record: JsonTraceRecord) -> AppView {
        self.with_data(DataView { session_end: Some(record), ..self.data }).with_control(
            ControlView {
                target_status: LiveTargetStatus::Exited,
                status_line: end_text(record),
                latest_stop_reason: match end_stop(record) {
                    Some(stop) => Some(stop),
                    None => self.control.latest_stop_reason,
                },
                ..self.control
            },
        )
    }

    /// Whether `next` is the screen after an update.
    pub open spec fn updated(self, update: LiveTraceUpdate, next: AppView) -> bool {
        match update {
            LiveTraceUpdate::SessionStart(start) => next == self.started(start.record),
            LiveTraceUpdate::Event { .. } => exists|record: JsonTraceRecord| #[trigger]
                is_trace_record(record, update) && next == self.event_added(record),
            LiveTraceUpdate::RelatedRecord { event_id, record } => next == self.related_added(
                event_id,
                record,
            ),
            LiveTraceUpdate::Status { message } => next == self.says(message@),
            LiveTraceUpdate::CommandStatus { command, status, target_status, message, .. } => next
                == self.with_control(
                self.control.reported(command, status, target_status, message@),
            ).log(report_line(command, status, message@)),
            LiveTraceUpdate::ProcessMaps { snapshot } => next == self.with_data(
                DataView { maps: Some(snapshot), ..self.data },
            ),
            LiveTraceUpdate::RegisterSnapshot { event_id, snapshot } => next
                == self.registers_read(event_id, snapshot),
            LiveTraceUpdate::StackSnapshot { event_id, snapshot } => exists|value: StackSnapshot|
                #[trigger] stop_text::is_annotated_stack(
                    value,
                    snapshot,
                    self.data.maps,
                    self.data.layout(),
                    self.data.rip(),
                ) && next == self.stack_read(event_id, value),
            LiveTraceUpdate::CodeContext { event_id, context } => next == self.code_read(
                event_id,
                context,
            ),
            LiveTraceUpdate::BreakMatched(m) => next == self.broke(
                m.event_id,
                m.user_addr,
                m.message@,
            ),
            LiveTraceUpdate::SessionEnd(end) => next == self.ended(end.record),
        }
    }
}

impl LiveTuiApp {
    fn add_event(&mut self, record: JsonTraceRecord)
        ensures
            final(self)@ == old(self)@.event_added(record),
    {
        self.data.events.push(record);
        if self.control.follow_tail {
            self.select_latest();
        }
    }

    fn add_related(&mut self, event_id: usize, record: JsonTraceRecord)
        ensures
            final(self)@ == old(self)@.related_added(event_id, record),
    {
        if let JsonTraceRecord::HeapLayout { chunks, .. } = &record {
            self.chunk = live_app::selection_again(chunks, self.chunk);
            self.panes.heap_layout_scroll = live_app::step_down(
                self.panes.heap_layout_scroll,
                0,
                chunks.len(),
            );
        }
        self.data.related.push(RelatedRecord { event_id, record });
    }

    fn report_command(
        &mut self,
        command: Option<LiveCommand>,
        status: LiveCommandStatus,
        target_status: LiveTargetStatus,
        message: String,
    )
        ensures
            final(self)@ == old(self)@.with_control(
                old(self)@.control.reported(command, status, target_status, message@),
            ).log(report_line(command, status, message@)),
    {
        let word = match command {
            Some(c) => c.as_str(),
            None => "target",
        };
        let line = cat6(word, ": ", message.as_str(), " (", status.as_str(), ")");
        let stop = live::stop_reported_by(command, status, message.as_str());
        if stop.is_some() {
            self.control.latest_stop_reason = stop;
        }
        self.control.target_status = target_status;
        self.control.last_command = command;
        self.control.last_command_status = Some(status);
        self.control.last_command_message = Some(message.clone());
        self.control.status_line = message;
        if let LiveTargetStatus::Paused = target_status {
            self.control.follow_tail = false;
        }
        self.push_log_line(line);
    }

    fn stop_at_break(&mut self, event_id: usize, user_addr: Option<u64>, message: String)
        ensures
            final(self)@ == old(self)@.broke(event_id, user_addr, message@),
    {
        let said = cat4(
            "break condition matched: ",
            message.as_str(),
            " after event #",
            text::format_dec_usize(event_id).as_str(),
        );
        let found = match user_addr {
            Some(addr) => self.find_chunk_in_latest_layout(HeapSearchQuery::UserAddress(addr)),
            None => None,
        };
        if let Some(index) = self.find_event_index(event_id) {
            self.control.selected_index = index;
        }
        self.control.target_status = LiveTargetStatus::Paused;
        self.control.follow_tail = false;
        self.control.status_line = said.clone();
        self.push_log_line(said);
        if let Some(index) = found {
            self.show_chunk(index);
        }
    }

    fn end_session(&mut self, record: JsonTraceRecord)
        ensures
            final(self)@ == old(self)@.ended(record),
    {
        self.control.target_status = LiveTargetStatus::Exited;
        match &record {
            JsonTraceRecord::SessionEnd { exit_status, event_count } => {
                self.control.status_line =
                    cat5(
                        "target exited: ",
                        exit_status.as_str(),
                        "; ",
                        text::format_dec_usize(*event_count).as_str(),
                        " events; press q to quit",
                    );
                self.control.latest_stop_reason = Some(
                    DebuggerStopReason::ProcessExit { status: exit_status.clone() },
                );
            },
            _ => {
                self.control.status_line = owned("target exited; press q to quit");
            },
        }
        self.data.session_end = Some(record);
    }

    fn add_stack(&mut self, event_id: Option<usize>, snapshot: StackSnapshot)
        ensures
            old(self)@.updated(
                (LiveTraceUpdate::StackSnapshot { event_id, snapshot }),
                final(self)@,
            ),
    {
        let rip: Option<u64> = match latest_stop(&self.data.registers) {
            Some(registers) => Some(registers.instruction_pointer),
            None => None,
        };
        let value = annotate_stack_snapshot(
            snapshot,
            self.data.maps.as_ref(),
            self.data.latest_record(LatestKind::HeapLayout),
            rip,
        );
        self.data.stacks.push(Stop { event_id, value });
        assert(self@.data.stacks =~= old(self)@.data.stacks.push(Stop { event_id, value }));
        assert(self@ == old(self)@.stack_read(event_id, value));
    }

    fn add_code_context(&mut self, event_id: Option<usize>, context: CodeContext)
        ensures
            final(self)@ == old(self)@.code_read(event_id, context),
    {
        if self.panes.code_follow_rip {
            self.panes.code_pane_scroll = live_app::offset_of_current_line(Some(&context));
        }
        self.data.contexts.push(Stop { event_id, value: context });
    }

    /// Applies an update to the screen.
    pub fn apply_update(&mut self, update: LiveTraceUpdate)
        ensures
            old(self)@.updated(update, final(self)@),
    {
        match update {
            LiveTraceUpdate::SessionStart(start) => {
                self.data.session_start = Some(start.record);
                self.control.status_line = owned("tracing...");
            },
            LiveTraceUpdate::Event { event_id, event, note, explanation, caller_symbol } => {
                let record = JsonTraceRecord::Event {
                    event: json_heap_event(&event, note, explanation, caller_symbol),
                };
                assert(is_trace_record(record, update));
                self.add_event(record);
            },
            LiveTraceUpdate::RelatedRecord { event_id, record } => {
                self.add_related(event_id, record);
            },
            LiveTraceUpdate::Status { message } => {
                self.control.status_line = message;
            },
            LiveTraceUpdate::CommandStatus { command, status, target_status, message, .. } => {
                self.report_command(command, status, target_status, message);
            },
            LiveTraceUpdate::ProcessMaps { snapshot } => {
                self.data.maps = Some(snapshot);
            },
            LiveTraceUpdate::RegisterSnapshot { event_id, snapshot } => {
                self.data.registers.push(Stop { event_id, value: snapshot });
            },
            LiveTraceUpdate::StackSnapshot { event_id, snapshot } => {
                self.add_stack(event_id, snapshot);
            },
            LiveTraceUpdate::CodeContext { event_id, context } => {
                self.add_code_context(event_id, context);
            },
            LiveTraceUpdate::BreakMatched(m) => {
                self.stop_at_break(m.event_id, m.user_addr, m.message);
            },
            LiveTraceUpdate::SessionEnd(end) => {
                self.end_session(end.record);
            },
        }
    }

    /// Records that the trace worker is gone without having ended its session.
    pub fn input_lost(&mut self)
        ensures
            final(self)@ == (if old(self)@.data.session_end is None {
                old(self)@.says("trace worker ended without session end; press q to quit"@)
            } else {
                old(self)@
            }),
    {
        if self.data.session_end.is_none() {
            self.control.status_line =
            owned("trace worker ended without session end; press q to quit");
        }
    }
}

// ---------------------------------------------------------------------------
// Laws
// ---------------------------------------------------------------------------

/// Pausing and then resuming leaves the screen following the latest event exactly if it did
/// before.
pub proof fn law_resume_restores_follow(app: AppView)
    ensures
        app.sent(LiveCommand::Pause).sent(LiveCommand::Resume).control.follow_tail
            == app.control.follow_tail,
        !app.sent(LiveCommand::Pause).control.follow_tail,
        app.sent(LiveCommand::Pause).sent(LiveCommand::Resume).control.follow_tail_before_pause
            is None,
{
}

/// The log never holds more lines than its limit once a line has been added, and the last
/// of them is the line added.
pub proof fn law_log_is_bounded(app: AppView, line: Seq<char>)
    ensures
        app.log(line).logs.len() <= live_app::LOG_LIMIT,
        app.log(line).logs.last() == line,
        app.logs.len() < live_app::LOG_LIMIT ==> app.log(line).logs == app.logs.push(line),
{
}

/// A new event moves the selection only where the latest event is followed, and then to
/// that event.
pub proof fn law_new_event_selection(app: AppView, record: JsonTraceRecord)
    requires
        app.count() < usize::MAX,
    ensures
        app.control.follow_tail ==> app.event_added(record).selected_record() == Some(record),
        !app.control.follow_tail ==> app.event_added(record).control == app.control,
{
}

/// A target that was reported paused, or stopped at a condition, is not followed.
pub proof fn law_paused_is_not_followed(
    app: AppView,
    command: Option<LiveCommand>,
    status: LiveCommandStatus,
    message: Seq<char>,
    event_id: usize,
    user_addr: Option<u64>,
)
    ensures
        !app.control.reported(command, status, LiveTargetStatus::Paused, message).follow_tail,
        !app.broke(event_id, user_addr, message).control.follow_tail,
        app.broke(event_id, user_addr, message).control.target_status is Paused,
{
}

/// A heap layout that still has the selected chunk's user address keeps that chunk
/// selected.
pub proof fn law_layout_keeps_selection(app: AppView, event_id: usize, record: JsonTraceRecord)
    requires
        record is HeapLayout,
        search::layout_chunks(Some(record))->0.len() <= usize::MAX,
        app.chunk.user_addr is Some,
        search::first_chunk(
            search::layout_chunks(Some(record))->0,
            0,
            HeapSearchQuery::UserAddress(app.chunk.user_addr->0),
        ) is Some,
    ensures
        app.related_added(event_id, record).chunk.user_addr == app.chunk.user_addr,
        app.related_added(event_id, record).selected_chunk() is Some,
{
    let chunks = search::layout_chunks(Some(record))->0;
    let query = HeapSearchQuery::UserAddress(app.chunk.user_addr->0);
    search::law_search_finds_the_first(chunks, query);
    let next = app.related_added(event_id, record);
    assert(next.data.related.last().record == record);
    assert(next.data.related.drop_last() =~= app.data.related);
    assert(next.data.layout() == Some(record));
    assert(next.data.chunks() == chunks);
}

/// A stack in the stack tab uses the same classification as the registers: a word that is the
/// instruction pointer is marked as such, and any other says what its value points to.
pub proof fn law_stack_words_are_classified(
    app: AppView,
    event_id: Option<usize>,
    snapshot: StackSnapshot,
    next: AppView,
    i: int,
)
    requires
        app.updated((LiveTraceUpdate::StackSnapshot { event_id, snapshot }), next),
        0 <= i < snapshot.words@.len(),
    ensures
        live::latest(next.data.stacks) is Some,
        live::latest(next.data.stacks)->0.words@[i].value == snapshot.words@[i].value,
        text::opt(live::latest(next.data.stacks)->0.words@[i].annotation) == classify::value_note(
            snapshot.words@[i].value,
            app.data.maps,
            app.data.layout(),
            app.data.rip(),
            "rip"@,
        ),
{
    let value = choose|value: StackSnapshot|
        #[trigger] stop_text::is_annotated_stack(
            value,
            snapshot,
            app.data.maps,
            app.data.layout(),
            app.data.rip(),
        ) && next == app.stack_read(event_id, value);
    assert(next.data.stacks.last().value == value);
    assert(stop_text::is_annotated(
        value.words@[i],
        snapshot.words@[i],
        app.data.maps,
        app.data.layout(),
        app.data.rip(),
    ));
}

/// A rejected command changes neither the target nor the numbering of commands, and an
/// accepted one takes the next number.
pub proof fn law_command_numbering(app: AppView, command: LiveCommand)
    ensures
        !live::allows(app.control.target_status, command) ==> app.prepared(
            command,
        ).control.next_command_id == app.control.next_command_id,
        live::allows(app.control.target_status, command) && app.control.next_command_id < u64::MAX
            ==> app.prepared(command).control.next_command_id == app.control.next_command_id + 1,
        app.prepared(command).control.target_status == app.control.target_status,
{
}

/// A search that fails changes nothing but what the prompt says.
pub proof fn law_failed_search_keeps_selection(app: AppView, query: HeapSearchQuery)
    requires
        search::first_chunk(app.data.chunks(), 0, query) is None,
    ensures
        app.searched(query) == (AppView {
            search: app.searched(query).search,
            ..app
        }),
        app.searched(query).search.status == Some(search::search_failure(query)),
{
}

/// A search that succeeds selects a chunk that the query asks for and opens the inspector.
pub proof fn law_search_selects_a_match(app: AppView, query: HeapSearchQuery)
    requires
        app.data.chunks().len() <= usize::MAX,
        search::first_chunk(app.data.chunks(), 0, query) is Some,
    ensures
        app.searched(query).selected_chunk() is Some,
        search::query_matches(query, app.searched(query).selected_chunk()->0),
        app.searched(query).panes.show_chunk_inspector,
        app.searched(query).panes.show_heap_pane,
        app.searched(query).panes.focused_debugger_pane is RightTab,
        app.searched(query).panes.active_right_tab is Heap,
{
    search::law_search_finds_the_first(app.data.chunks(), query);
}

} // verus!
