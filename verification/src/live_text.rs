//! The texts of the live debugger's panes.

use crate::classify;
use crate::event;
use crate::event::{HeapTraceEvent, HeapTrackerExplanation, HeapTrackerNote};
use crate::live;
use crate::live::{LatestKind, DataView};
use crate::live_app::{latest_chunks, AppView, LiveTuiApp};
use crate::number;
use crate::number::parse_json_addr;
use crate::panes;
use crate::panes::{text_line_count, LiveDebuggerPane, LiveRightTab};
use crate::record::{
    JsonCallerSymbol, JsonHeapEvent, JsonHeapScanFinding, JsonHeapScanReport, JsonLayoutChunk,
    JsonTraceRecord,
};
use crate::record_text;
use crate::record_text::{explain_heap_scan_finding, format_allocator_source_delta};
use crate::registers;
use crate::registers::{
    diff_register_snapshots, format_rendered_register_line, render_register_lines,
};
use crate::replay;
use crate::replay::{
    allocator_state_of, format_replay_record, format_timeline_event_summary, is_event_record,
    live_record_type_label, replay_event_id, replay_record_event_id, visible_timeline_offset,
    ReplayEventAllocatorState,
};
use crate::replay_text;
use crate::replay_text::{format_json_caller_symbol, format_replay_event_summary, ReplayConfig};
use crate::search;
use crate::snapshot::{ProcessMapsSnapshot, RegisterSnapshot, SymbolizedAddress};
use crate::stop_text;
use crate::stop_text::{
    format_code_context_lines, format_process_maps_lines, format_stack_snapshot_lines,
};
use crate::text;
use crate::text::{cat2, cat3, cat4, cat5, cat6, cat7, owned, Lines};
use vstd::prelude::*;

verus! {

// ---------------------------------------------------------------------------
// Stops
// ---------------------------------------------------------------------------

pub open spec fn stack_tab(data: DataView) -> Seq<char> {
    match live::latest(data.stacks) {
        Some(s) => text::join(stop_text::stack_lines(s), "\n"@),
        None => "stack snapshot unavailable"@,
    }
}

pub fn format_live_stack_tab(app: &LiveTuiApp) -> (r: String)
    ensures
        r@ == stack_tab(app@.data),
{
    match live::latest_stop(&app.data.stacks) {
        Some(s) => text::format_join(&format_stack_snapshot_lines(s), "\n"),
        None => owned("stack snapshot unavailable"),
    }
}

pub open spec fn maps_tab(data: DataView) -> Seq<char> {
    match data.maps {
        Some(s) => text::join(stop_text::maps_lines(s), "\n"@),
        None => "process maps unavailable"@,
    }
}

pub fn format_live_maps_tab(app: &LiveTuiApp) -> (r: String)
    ensures
        r@ == maps_tab(app@.data),
{
    match &app.data.maps {
        Some(s) => text::format_join(&format_process_maps_lines(s), "\n"),
        None => owned("process maps unavailable"),
    }
}

pub open spec fn code_pane(data: DataView) -> Seq<char> {
    match live::latest(data.contexts) {
        Some(c) => text::join(stop_text::code_context_lines(c), "\n"@),
        None => "code context unavailable"@,
    }
}

pub fn format_live_code_context(app: &LiveTuiApp) -> (r: String)
    ensures
        r@ == code_pane(app@.data),
{
    match live::latest_stop(&app.data.contexts) {
        Some(c) => text::format_join(&format_code_context_lines(c), "\n"),
        None => owned("code context unavailable"),
    }
}

/// The line of a register: a star where it changed, its name, its value, and what the value
/// points to.
pub open spec fn register_pane_line(
    name: Seq<char>,
    value: u64,
    changed: Set<Seq<char>>,
    maps: Option<ProcessMapsSnapshot>,
    layout: Option<JsonTraceRecord>,
    selected: Option<u64>,
) -> Seq<char> {
    let lower = text::ascii_lower_text(name);
    (if changed.contains(lower) {
        "*"@
    } else {
        " "@
    }) + " "@ + text::pad_right(registers::display_name(lower), ' ', 7) + " "@
        + registers::fixed_hex(value) + match classify::value_note(
        value,
        maps,
        layout,
        selected,
        "selected chunk"@,
    ) {
        Some(note) => " ; "@ + note,
        None => Seq::empty(),
    }
}

/// The lines of all registers, in display order.
pub open spec fn register_pane_lines(
    snapshot: RegisterSnapshot,
    changed: Set<Seq<char>>,
    maps: Option<ProcessMapsSnapshot>,
    layout: Option<JsonTraceRecord>,
    selected: Option<u64>,
) -> Seq<Seq<char>> {
    let order = registers::display_order(snapshot.registers@);
    Seq::new(
        order.len(),
        |k: int|
            register_pane_line(
                order[k],
                registers::register_named(snapshot.registers@, order[k])->0.value,
                changed,
                maps,
                layout,
                selected,
            ),
    )
}

pub open spec fn registers_pane(app: AppView) -> Seq<char> {
    match live::latest(app.data.registers) {
        Some(snapshot) => text::join(
            register_pane_lines(
                snapshot,
                registers::snapshot_changes(live::previous(app.data.registers), snapshot),
                app.data.maps,
                app.data.layout(),
                app.chunk.user_addr,
            ),
            "\n"@,
        ),
        None => "registers unavailable"@,
    }
}

fn opt_maps_ref(maps: &Option<ProcessMapsSnapshot>) -> (r: Option<&ProcessMapsSnapshot>)
    ensures
        classify::opt_maps(r) == *maps,
{
    match maps {
        Some(m) => Some(m),
        None => None,
    }
}

pub fn format_live_registers_pane(app: &LiveTuiApp) -> (r: String)
    ensures
        r@ == registers_pane(app@),
{
    let snapshot = match live::latest_stop(&app.data.registers) {
        Some(s) => s,
        None => {
            return owned("registers unavailable");
        },
    };
    let before = live::previous_stop(&app.data.registers);
    assert(registers::opt_snapshot(before) == live::opt_ref(before));
    let changed = diff_register_snapshots(before, snapshot);
    let lines = render_register_lines(
        snapshot,
        &changed,
        opt_maps_ref(&app.data.maps),
        app.data.latest_record(LatestKind::HeapLayout),
        app.chunk.user_addr,
    );
    let ghost want = register_pane_lines(
        *snapshot,
        changed@,
        app.data.maps,
        app@.data.layout(),
        app.chunk.user_addr,
    );
    let mut l = Lines::new();
    let mut i: usize = 0;
    assert(want.take(0) =~= Seq::empty());
    while i < lines.len()
        invariant
            i <= lines.len(),
            lines@.len() == want.len(),
            registers::are_lines_of(
                lines@,
                *snapshot,
                changed@,
                app.data.maps,
                app@.data.layout(),
                app.chunk.user_addr,
            ),
            want == register_pane_lines(
                *snapshot,
                changed@,
                app.data.maps,
                app@.data.layout(),
                app.chunk.user_addr,
            ),
            l@ == want.take(i as int),
        decreases lines.len() - i,
    {
        let line = format_rendered_register_line(&lines[i]);
        assert(line@ == want[i as int]) by {
            let one = lines@[i as int];
            assert(registers::note_suffix(one.annotation) == match text::opt(one.annotation) {
                Some(note) => " ; "@ + note,
                None => Seq::empty(),
            });
        }
        l.push(line);
        assert(want.take(i + 1) =~= want.take(i as int).push(want[i as int]));
        i = i + 1;
    }
    assert(want.take(want.len() as int) =~= want);
    l.join("\n")
}

// ---------------------------------------------------------------------------
// Events
// ---------------------------------------------------------------------------

/// The details of the selected event, with the registers at it where they were read.
pub open spec fn event_details(app: AppView, config: ReplayConfig) -> Seq<char> {
    match app.selected_record() {
        None => match live::latest(app.data.registers) {
            Some(snapshot) => "registers:\n    "@ + snapshot.summary(),
            None => "waiting for events"@,
        },
        Some(record) => replay::record_text_of(record, config) + match replay::record_event_id(
            record,
        ) {
            Some(event_id) => match live::stop_of_event(app.data.registers, event_id) {
                Some(snapshot) => "\nregisters:\n    "@ + snapshot.summary(),
                None => Seq::empty(),
            },
            None => Seq::empty(),
        },
    }
}

pub fn live_event_details_text(app: &LiveTuiApp, config: &ReplayConfig) -> (r: String)
    ensures
        r@ == event_details(app@, *config),
{
    match app.selected_event_record() {
        None => match live::latest_stop(&app.data.registers) {
            Some(snapshot) => cat2("registers:\n    ", snapshot.summary_line().as_str()),
            None => owned("waiting for events"),
        },
        Some(record) => {
            let body = format_replay_record(record, config);
            let registers = match replay_record_event_id(record) {
                Some(event_id) => match live::find_stop_of_event(&app.data.registers, event_id) {
                    Some(snapshot) => cat2(
                        "\nregisters:\n    ",
                        snapshot.summary_line().as_str(),
                    ),
                    None => String::new(),
                },
                None => String::new(),
            };
            assert(registers@ =~= (match replay::record_event_id(*record) {
                Some(event_id) => match live::stop_of_event(app@.data.registers, event_id) {
                    Some(snapshot) => "\nregisters:\n    "@ + snapshot.summary(),
                    None => Seq::empty(),
                },
                None => Seq::empty(),
            }));
            cat2(body.as_str(), registers.as_str())
        },
    }
}

/// The allocator counts at an event: those of its first summary record from `i` on.
pub open spec fn state_among(records: Seq<JsonTraceRecord>, i: int) -> Option<
    ReplayEventAllocatorState,
>
    decreases records.len() - i,
{
    if i < 0 || i >= records.len() {
        None
    } else {
        match replay::state_of(records[i]) {
            Some(state) => Some(state),
            None => state_among(records, i + 1),
        }
    }
}

pub open spec fn live_state(data: DataView, event_id: usize) -> Option<ReplayEventAllocatorState> {
    state_among(live::records_of(data.related, event_id), 0)
}

pub fn allocator_state_for_live_event(app: &LiveTuiApp, event_id: usize) -> (r: Option<
    ReplayEventAllocatorState,
>)
    ensures
        r == live_state(app@.data, event_id),
{
    let found = app.data.related_records(event_id);
    let ghost all = live::records_of(app@.data.related, event_id);
    let mut i: usize = 0;
    while i < found.len()
        invariant
            i <= found.len(),
            all == live::records_of(app@.data.related, event_id),
            found@.len() == all.len(),
            forall|k: int| 0 <= k < found@.len() ==> *(#[trigger] found@[k]) == all[k],
            state_among(all, 0) == state_among(all, i as int),
        decreases found.len() - i,
    {
        assert(*found@[i as int] == all[i as int]);
        let state = allocator_state_of(found[i]);
        if state.is_some() {
            return state;
        }
        i = i + 1;
    }
    None
}

/// The rows of the events from `from` up to `to`.
pub open spec fn trace_rows(data: DataView, from: int, to: int) -> Seq<Seq<char>>
    decreases to - from,
{
    if from >= to || to > data.events.len() || from < 0 {
        Seq::empty()
    } else {
        let before = trace_rows(data, from, to - 1);
        match data.events[to - 1] {
            JsonTraceRecord::Event { event } => before.push(
                replay::timeline_summary(event, live_state(data, replay::event_id_of(event))),
            ),
            _ => before,
        }
    }
}

/// The events that a pane of the given height shows, which has at least one row.
pub open spec fn trace_pane(app: AppView, height: usize) -> Seq<Seq<char>> {
    let from = replay::timeline_offset(
        app.control.selected_index as int,
        height as int,
        app.count() as int,
    );
    let rows = if height == 0 {
        1
    } else {
        height as int
    };
    trace_rows(
        app.data,
        from,
        if from + rows <= app.count() {
            from + rows
        } else {
            app.count() as int
        },
    )
}

pub fn format_live_trace_rows(app: &LiveTuiApp, height: usize) -> (r: Lines)
    ensures
        r@ == trace_pane(app@, height),
{
    let count: usize = app.data.events.len();
    let from: usize = visible_timeline_offset(app.control.selected_index, height, count);
    let rows: usize = if height == 0 {
        1
    } else {
        height
    };
    let end: usize = if from < count && rows <= count - from {
        from + rows
    } else {
        count
    };
    let mut l = Lines::new();
    let mut i: usize = from;
    while i < end
        invariant
            from <= i,
            i <= end || i == from,
            end <= app.data.events.len(),
            l@ == trace_rows(app@.data, from as int, i as int),
        decreases end - i,
    {
        if let JsonTraceRecord::Event { event } = &app.data.events[i] {
            let state = allocator_state_for_live_event(app, replay_event_id(event));
            let state_ref = match &state {
                Some(s) => Some(s),
                None => None,
            };
            assert(replay::opt_state(state_ref) == state);
            l.push(format_timeline_event_summary(event, state_ref));
        }
        i = i + 1;
    }
    l
}

/// The records of an event under headings, without those that have no text.
pub open spec fn headed_texts(records: Seq<JsonTraceRecord>, config: ReplayConfig) -> Seq<Seq<char>>
    decreases records.len(),
{
    if records.len() == 0 {
        Seq::empty()
    } else {
        let before = headed_texts(records.drop_last(), config);
        let body = replay::record_text_of(records.last(), config);
        if records.last() is Event || body.len() == 0 {
            before
        } else {
            before.push("== "@ + replay::record_label(records.last()) + " ==\n"@ + body)
        }
    }
}

pub fn format_live_related_records_with_headings(
    records: &Vec<&JsonTraceRecord>,
    config: &ReplayConfig,
) -> (r: String)
    ensures
        r@ == text::join(headed_texts(deref_all(records@), *config), "\n\n"@),
{
    let ghost all = deref_all(records@);
    let mut l = Lines::new();
    let mut i: usize = 0;
    assert(all.take(0) =~= Seq::empty());
    while i < records.len()
        invariant
            i <= records.len(),
            all == deref_all(records@),
            l@ == headed_texts(all.take(i as int), *config),
        decreases records.len() - i,
    {
        proof {
            assert(all.take(i + 1).drop_last() =~= all.take(i as int));
            assert(all.take(i + 1).last() == all[i as int]);
        }
        let record = records[i];
        if !is_event_record(record) {
            let body = format_replay_record(record, config);
            if !body.as_str().is_empty() {
                l.push(cat4("== ", live_record_type_label(record), " ==\n", body.as_str()));
            }
        }
        i = i + 1;
    }
    assert(all.take(all.len() as int) =~= all);
    l.join("\n\n")
}

pub open spec fn deref_all(records: Seq<&JsonTraceRecord>) -> Seq<JsonTraceRecord> {
    Seq::new(records.len(), |i: int| *records[i])
}

/// What else was recorded at the selected event.
pub open spec fn related_pane(app: AppView, config: ReplayConfig) -> Seq<char> {
    match app.selected_event_id() {
        Some(event_id) => {
            let body = text::join(
                headed_texts(live::records_of(app.data.related, event_id), config),
                "\n\n"@,
            );
            if body.len() == 0 {
                "no related records"@
            } else {
                body
            }
        },
        None => "no related records"@,
    }
}

pub fn live_related_records_text(app: &LiveTuiApp, config: &ReplayConfig) -> (r: String)
    ensures
        r@ == related_pane(app@, *config),
{
    match app.selected_event_id() {
        Some(event_id) => {
            let found = app.data.related_records(event_id);
            assert(deref_all(found@) =~= live::records_of(app@.data.related, event_id));
            let body = format_live_related_records_with_headings(&found, config);
            if body.as_str().is_empty() {
                owned("no related records")
            } else {
                body
            }
        },
        None => owned("no related records"),
    }
}

// ---------------------------------------------------------------------------
// Console and logs
// ---------------------------------------------------------------------------

/// The last `n` lines.
pub open spec fn last_lines(lines: Seq<Seq<char>>, n: nat) -> Seq<Seq<char>> {
    if lines.len() <= n {
        lines
    } else {
        lines.skip(lines.len() - n)
    }
}

/// What the console says: the outcome of a search, or else of the last command, or else the
/// state of the trace.
pub open spec fn console_message(app: AppView) -> Seq<char> {
    match app.search.status {
        Some(status) => status,
        None => match app.control.last_command_message {
            Some(message) => message,
            None => app.control.status_line,
        },
    }
}

/// The line that is typed at.
pub open spec fn prompt_line(app: AppView) -> Seq<char> {
    if app.search.prompt_active {
        "jump> "@ + app.search.input
    } else if app.console.input_active {
        "heapify> "@ + app.console.input
    } else {
        "heapify> press ':' for command"@
    }
}

pub open spec fn console_lines(app: AppView, height: usize) -> Seq<Seq<char>> {
    last_lines(
        app.logs,
        if height < 6 {
            0
        } else {
            (height - 6) as nat
        },
    ) + seq![
        "target="@ + live::target_word(app.control.target_status),
        "follow: "@ + if app.control.follow_tail {
            "on"@
        } else {
            "off"@
        },
    ] + (match app.control.last_command_status {
        Some(status) => seq![
            (match app.control.last_command {
                Some(command) => live::command_word(command),
                None => "target"@,
            }) + ": "@ + live::status_word(status),
        ],
        None => Seq::empty(),
    }) + seq![
        console_message(app),
        "keys: Tab focus | 1 heap 2 stack 3 logs 4 maps | Space pause/resume | . stepi | , nexti | n next alloc | c continue"@,
        prompt_line(app),
    ]
}

/// The last lines of the log, as many as the pane has room for beside its other lines.
fn tail_of_log(app: &LiveTuiApp, height: usize) -> (r: Lines)
    ensures
        r@ == last_lines(
            app@.logs,
            if height < 6 {
                0
            } else {
                (height - 6) as nat
            },
        ),
{
    let room: usize = if height < 6 {
        0
    } else {
        height - 6
    };
    let count: usize = app.logs.len();
    let from: usize = if count <= room {
        0
    } else {
        count - room
    };
    let ghost want = last_lines(app@.logs, room as nat);
    let mut l = Lines::new();
    let mut i: usize = from;
    assert(want.take(0) =~= Seq::empty());
    while i < count
        invariant
            from <= i <= count,
            count == app.logs@.len(),
            from == (if count <= room {
                0
            } else {
                count - room
            }),
            want == last_lines(text::texts(app.logs@), room as nat),
            l@ == want.take(i - from),
        decreases count - i,
    {
        l.push(app.logs[i].clone());
        assert(want[i - from] == app.logs@[i as int]@);
        assert(want.take(i + 1 - from) =~= want.take(i - from).push(want[i - from]));
        i = i + 1;
    }
    assert(want.take(count - from) =~= want);
    l
}

pub fn format_live_console_pane(app: &LiveTuiApp, viewport_height: usize) -> (r: String)
    ensures
        r@ == text::join(console_lines(app@, viewport_height), "\n"@),
{
    let mut l = tail_of_log(app, viewport_height);
    l.push(cat2("target=", app.control.target_status.as_str()));
    l.push(
        cat2(
            "follow: ",
            if app.control.follow_tail {
                "on"
            } else {
                "off"
            },
        ),
    );
    if let Some(status) = app.control.last_command_status {
        let command = match app.control.last_command {
            Some(c) => c.as_str(),
            None => "target",
        };
        l.push(cat3(command, ": ", status.as_str()));
    }
    let message = match &app.search.status {
        Some(status) => status.as_str(),
        None => match &app.control.last_command_message {
            Some(message) => message.as_str(),
            None => app.control.status_line.as_str(),
        },
    };
    l.push(owned(message));
    l.push(
        owned(
            "keys: Tab focus | 1 heap 2 stack 3 logs 4 maps | Space pause/resume | . stepi | , nexti | n next alloc | c continue",
        ),
    );
    let prompt = if app.search.prompt_active {
        cat2("jump> ", app.search.input.as_str())
    } else if app.console.input_active {
        cat2("heapify> ", app.console.input.as_str())
    } else {
        owned("heapify> press ':' for command")
    };
    l.push(prompt);
    assert(l@ =~= console_lines(app@, viewport_height));
    l.join("\n")
}

pub open spec fn logs_pane(logs: Seq<Seq<char>>) -> Seq<char> {
    if logs.len() == 0 {
        "no logs yet"@
    } else {
        text::join(logs, "\n"@)
    }
}

pub fn format_live_logs_pane(app: &LiveTuiApp) -> (r: String)
    ensures
        r@ == logs_pane(app@.logs),
{
    let count: usize = app.logs.len();
    if count == 0 {
        return owned("no logs yet");
    }
    let mut l = Lines::new();
    let mut i: usize = 0;
    let ghost want = text::texts(app.logs@);
    assert(want.take(0) =~= Seq::empty());
    while i < count
        invariant
            i <= count,
            count == app.logs@.len(),
            want == text::texts(app.logs@),
            l@ == want.take(i as int),
        decreases count - i,
    {
        l.push(app.logs[i].clone());
        assert(want.take(i + 1) =~= want.take(i as int).push(want[i as int]));
        i = i + 1;
    }
    assert(want.take(count as int) =~= want);
    l.join("\n")
}

// ---------------------------------------------------------------------------
// Heap
// ---------------------------------------------------------------------------

/// One chunk of the heap layout, marked where it is selected.
pub open spec fn layout_row(chunk: JsonLayoutChunk, selected: bool) -> Seq<char> {
    (if selected {
        ">"@
    } else {
        " "@
    }) + " "@ + chunk.chunk_addr@ + " user="@ + chunk.user_addr@ + " size="@ + chunk.size@
        + " state="@ + chunk.state@
        + match chunk.allocator_source {
        Some(source) => " "@ + source.kind@,
        None => Seq::empty(),
    }
}

fn format_layout_row(chunk: &JsonLayoutChunk, selected: bool) -> (r: String)
    ensures
        r@ == layout_row(*chunk, selected),
{
    let marker = if selected {
        ">"
    } else {
        " "
    };
    let source = match &chunk.allocator_source {
        Some(source) => cat2(" ", source.kind.as_str()),
        None => String::new(),
    };
    let body =
        cat7(
            " ",
            chunk.chunk_addr.as_str(),
            " user=",
            chunk.user_addr.as_str(),
            " size=",
            chunk.size.as_str(),
            " state=",
        ).concat(chunk.state.as_str());
    let r = cat3(marker, body.as_str(), source.as_str());
    assert(source@ =~= (match chunk.allocator_source {
        Some(source) => " "@ + source.kind@,
        None => Seq::empty(),
    }));
    r
}

/// The rows of the first `n` chunks.
pub open spec fn layout_rows(chunks: Seq<JsonLayoutChunk>, n: nat, selected: Option<usize>) -> Seq<
    Seq<char>,
> {
    Seq::new(
        n,
        |i: int| layout_row(chunks[i], selected matches Some(k) && k == i),
    )
}

pub open spec fn layout_lines(
    event_id: usize,
    heap_start: Seq<char>,
    heap_end: Seq<char>,
    chunks: Seq<JsonLayoutChunk>,
    truncated: bool,
    chunks_omitted: usize,
    selected: Option<usize>,
    max_rows: usize,
) -> Seq<Seq<char>> {
    let shown = if chunks.len() <= max_rows {
        chunks.len()
    } else {
        max_rows as nat
    };
    let hidden = (chunks.len() - shown) as nat;
    seq![
        "event #"@ + text::dec(event_id as nat) + " heap "@ + heap_start + ".."@ + heap_end
            + " chunks="@ + text::dec(chunks.len()),
    ] + layout_rows(chunks, shown, selected) + text::when(
        hidden > 0,
        "... "@ + text::dec(hidden) + " more chunks hidden in pane"@,
    ) + text::when(
        truncated,
        "... "@ + text::dec(chunks_omitted as nat) + " chunks omitted by trace limit"@,
    )
}

pub open spec fn heap_layout_pane(app: AppView, max_rows: usize) -> Seq<char> {
    match app.data.layout() {
        Some(
            JsonTraceRecord::HeapLayout {
                event_id,
                heap_start,
                heap_end,
                chunks,
                truncated,
                chunks_omitted,
            },
        ) => text::join(
            layout_lines(
                event_id,
                heap_start@,
                heap_end@,
                chunks@,
                truncated,
                chunks_omitted,
                app.chunk.index,
                max_rows,
            ),
            "\n"@,
        ),
        _ => "heap layout unavailable; enable --layout or --allocator-views basic/full"@,
    }
}

pub fn format_live_heap_layout_pane(app: &LiveTuiApp, max_rows: usize) -> (r: String)
    ensures
        r@ == heap_layout_pane(app@, max_rows),
{
    match app.data.latest_record(LatestKind::HeapLayout) {
        Some(
            JsonTraceRecord::HeapLayout {
                event_id,
                heap_start,
                heap_end,
                chunks,
                truncated,
                chunks_omitted,
            },
        ) => {
            let shown: usize = if chunks.len() <= max_rows {
                chunks.len()
            } else {
                max_rows
            };
            let hidden: usize = chunks.len() - shown;
            let mut rows = Lines::new();
            let mut i: usize = 0;
            let ghost want = layout_rows(chunks@, shown as nat, app.chunk.index);
            assert(want.take(0) =~= Seq::empty());
            while i < shown
                invariant
                    i <= shown <= chunks.len(),
                    want == layout_rows(chunks@, shown as nat, app.chunk.index),
                    rows@ == want.take(i as int),
                decreases shown - i,
            {
                let selected = match app.chunk.index {
                    Some(k) => k == i,
                    None => false,
                };
                rows.push(format_layout_row(&chunks[i], selected));
                assert(want.take(i + 1) =~= want.take(i as int).push(want[i as int]));
                i = i + 1;
            }
            assert(want.take(shown as int) =~= want);
            let mut l = Lines::new();
            l.push(
                cat7(
                    "event #",
                    text::format_dec_usize(*event_id).as_str(),
                    " heap ",
                    heap_start.as_str(),
                    "..",
                    heap_end.as_str(),
                    " chunks=",
                ).concat(text::format_dec_usize(chunks.len()).as_str()),
            );
            l.add(rows);
            if hidden > 0 {
                l.push(
                    cat3(
                        "... ",
                        text::format_dec_usize(hidden).as_str(),
                        " more chunks hidden in pane",
                    ),
                );
            }
            if *truncated {
                l.push(
                    cat3(
                        "... ",
                        text::format_dec_usize(*chunks_omitted).as_str(),
                        " chunks omitted by trace limit",
                    ),
                );
            }
            assert(l@ =~= layout_lines(
                *event_id,
                heap_start@,
                heap_end@,
                chunks@,
                *truncated,
                *chunks_omitted,
                app.chunk.index,
                max_rows,
            ));
            l.join("\n")
        },
        _ => owned("heap layout unavailable; enable --layout or --allocator-views basic/full"),
    }
}

/// The counts of a summary record in one line; nothing for any other record.
pub open spec fn summary_compact(record: JsonTraceRecord) -> Seq<char> {
    match record {
        JsonTraceRecord::AllocatorSourceSummary {
            event_id,
            tcache_candidate_chunks,
            fastbin_chunks,
            unsorted_chunks,
            smallbin_chunks,
            largebin_chunks,
            total_free_list_chunks,
            warning_count,
        } =>
            "event #"@ + text::dec(event_id as nat) + " allocator: tc="@
                + text::dec(tcache_candidate_chunks as nat) + " fb="@
                + text::dec(fastbin_chunks as nat) + " ub="@ + text::dec(unsorted_chunks as nat)
                + " sb="@ + text::dec(smallbin_chunks as nat) + " lb="@
                + text::dec(largebin_chunks as nat) + " total="@
                + text::dec(total_free_list_chunks as nat) + " warn="@
                + text::dec(warning_count as nat),
        _ => Seq::empty(),
    }
}

pub fn format_live_allocator_summary_compact(record: &JsonTraceRecord) -> (r: String)
    ensures
        r@ == summary_compact(*record),
{
    match record {
        JsonTraceRecord::AllocatorSourceSummary {
            event_id,
            tcache_candidate_chunks,
            fastbin_chunks,
            unsorted_chunks,
            smallbin_chunks,
            largebin_chunks,
            total_free_list_chunks,
            warning_count,
        } =>
            cat7(
                "event #",
                text::format_dec_usize(*event_id).as_str(),
                " allocator: tc=",
                text::format_dec_usize(*tcache_candidate_chunks).as_str(),
                " fb=",
                text::format_dec_usize(*fastbin_chunks).as_str(),
                " ub=",
            )
                .concat(text::format_dec_usize(*unsorted_chunks).as_str())
                .concat(" sb=")
                .concat(text::format_dec_usize(*smallbin_chunks).as_str())
                .concat(" lb=")
                .concat(text::format_dec_usize(*largebin_chunks).as_str())
                .concat(" total=")
                .concat(text::format_dec_usize(*total_free_list_chunks).as_str())
                .concat(" warn=")
                .concat(text::format_dec_usize(*warning_count).as_str()),
        _ => String::new(),
    }
}

/// The changes of a delta record in one line; nothing for any other record.
pub open spec fn delta_compact(record: JsonTraceRecord) -> Seq<char> {
    match record {
        JsonTraceRecord::AllocatorSourceDelta {
            tcache_candidate_chunks_delta,
            fastbin_chunks_delta,
            unsorted_chunks_delta,
            smallbin_chunks_delta,
            largebin_chunks_delta,
            total_free_list_chunks_delta,
            warning_count_delta,
            ..
        } => "delta: tc="@ + record_text::source_delta_text(tcache_candidate_chunks_delta as int)
            + " fb="@ + record_text::source_delta_text(fastbin_chunks_delta as int) + " ub="@
            + record_text::source_delta_text(unsorted_chunks_delta as int) + " sb="@
            + record_text::source_delta_text(smallbin_chunks_delta as int) + " lb="@
            + record_text::source_delta_text(largebin_chunks_delta as int) + " total="@
            + record_text::source_delta_text(total_free_list_chunks_delta as int) + " warn="@
            + record_text::source_delta_text(warning_count_delta as int),
        _ => Seq::empty(),
    }
}

pub fn format_live_allocator_delta_compact(record: &JsonTraceRecord) -> (r: String)
    ensures
        r@ == delta_compact(*record),
{
    match record {
        JsonTraceRecord::AllocatorSourceDelta {
            tcache_candidate_chunks_delta,
            fastbin_chunks_delta,
            unsorted_chunks_delta,
            smallbin_chunks_delta,
            largebin_chunks_delta,
            total_free_list_chunks_delta,
            warning_count_delta,
            ..
        } => cat7(
            "delta: tc=",
            format_allocator_source_delta(*tcache_candidate_chunks_delta).as_str(),
            " fb=",
            format_allocator_source_delta(*fastbin_chunks_delta).as_str(),
            " ub=",
            format_allocator_source_delta(*unsorted_chunks_delta).as_str(),
            " sb=",
        ).concat(format_allocator_source_delta(*smallbin_chunks_delta).as_str()).concat(
            " lb=",
        ).concat(format_allocator_source_delta(*largebin_chunks_delta).as_str()).concat(
            " total=",
        ).concat(format_allocator_source_delta(*total_free_list_chunks_delta).as_str()).concat(
            " warn=",
        ).concat(format_allocator_source_delta(*warning_count_delta).as_str()),
        _ => String::new(),
    }
}

pub open spec fn warnings_compact(record: JsonTraceRecord) -> Seq<char> {
    match record {
        JsonTraceRecord::AllocatorWarnings { event_id, warnings } =>
            "event #"@ + text::dec(event_id as nat) + " allocator warnings: "@
                + text::dec(warnings@.len() as nat),
        _ => Seq::empty(),
    }
}

pub fn format_live_allocator_warnings_compact(record: &JsonTraceRecord) -> (r: String)
    ensures
        r@ == warnings_compact(*record),
{
    match record {
        JsonTraceRecord::AllocatorWarnings { event_id, warnings } =>
            cat4(
                "event #",
                text::format_dec_usize(*event_id).as_str(),
                " allocator warnings: ",
                text::format_dec_usize(warnings.len()).as_str(),
            ),
        _ => String::new(),
    }
}

/// A finding with the first line of its explanation.
pub open spec fn finding_compact(finding: JsonHeapScanFinding) -> Seq<Seq<char>> {
    seq![finding.severity@ + " "@ + finding.kind@ + ": "@ + finding.message@] + text::prefixed(
        "  "@,
        text::up_to(record_text::finding_explanation(finding.kind@), 1),
    )
}

/// The first `n` findings.
pub open spec fn findings_compact(findings: Seq<JsonHeapScanFinding>, n: nat) -> Seq<Seq<char>>
    decreases n,
{
    if n == 0 || n > findings.len() {
        Seq::empty()
    } else {
        findings_compact(findings, (n - 1) as nat) + finding_compact(findings[n - 1])
    }
}

pub open spec fn scan_compact_lines(event_id: usize, report: JsonHeapScanReport) -> Seq<Seq<char>> {
    let count = report.findings@.len();
    seq![
        "event #"@ + text::dec(event_id as nat) + " heap scan: status="@ + report.status@
            + " chunks="@ + text::dec(report.chunks_walked as nat) + " suspicious="@
            + text::dec(report.suspicious_count as nat),
    ] + findings_compact(
        report.findings@,
        if count <= 3 {
            count
        } else {
            3
        },
    ) + text::when(count > 3, "... "@ + text::dec((count - 3) as nat) + " more findings"@)
}

pub open spec fn scan_compact(record: JsonTraceRecord) -> Seq<char> {
    match record {
        JsonTraceRecord::HeapScan { event_id, report } => text::join(
            scan_compact_lines(event_id, report),
            "\n"@,
        ),
        _ => Seq::empty(),
    }
}

/// The first `n` lines of a finding's explanation, each after `prefix`.
fn explanation_start(prefix: &str, finding: &JsonHeapScanFinding, n: usize) -> (r: Lines)
    ensures
        r@ == text::prefixed(
            prefix@,
            text::up_to(record_text::finding_explanation(finding.kind@), n as nat),
        ),
{
    let all = Lines { items: explain_heap_scan_finding(finding) };
    let first = text::first_lines(all, n);
    text::format_prefixed(prefix, &first.items)
}

pub fn format_live_heap_scan_compact(record: &JsonTraceRecord) -> (r: String)
    ensures
        r@ == scan_compact(*record),
{
    match record {
        JsonTraceRecord::HeapScan { event_id, report } => {
            let count: usize = report.findings.len();
            let shown: usize = if count <= 3 {
                count
            } else {
                3
            };
            let mut l = Lines::new();
            l.push(
                cat7(
                    "event #",
                    text::format_dec_usize(*event_id).as_str(),
                    " heap scan: status=",
                    report.status.as_str(),
                    " chunks=",
                    text::format_dec_usize(report.chunks_walked).as_str(),
                    " suspicious=",
                ).concat(text::format_dec_usize(report.suspicious_count).as_str()),
            );
            let mut f = Lines::new();
            let mut i: usize = 0;
            while i < shown
                invariant
                    i <= shown <= report.findings.len(),
                    f@ == findings_compact(report.findings@, i as nat),
                decreases shown - i,
            {
                let finding = &report.findings[i];
                f.push(
                    cat5(
                        finding.severity.as_str(),
                        " ",
                        finding.kind.as_str(),
                        ": ",
                        finding.message.as_str(),
                    ),
                );
                f.add(explanation_start("  ", finding, 1));
                assert(f@ =~= findings_compact(report.findings@, (i + 1) as nat));
                i = i + 1;
            }
            l.add(f);
            if count > 3 {
                l.push(cat3("... ", text::format_dec_usize(count - 3).as_str(), " more findings"));
            }
            assert(l@ =~= scan_compact_lines(*event_id, *report));
            l.join("\n")
        },
        _ => String::new(),
    }
}

pub open spec fn allocator_pane_lines(data: DataView) -> Seq<Seq<char>> {
    seq![
        match live::latest_record_of(data.related, LatestKind::AllocatorSummary) {
            Some(record) => summary_compact(record),
            None => "allocator summary unavailable; enable --allocator-views basic/full"@,
        },
    ] + (match live::latest_record_of(data.related, LatestKind::AllocatorDelta) {
        Some(record) => seq![delta_compact(record)],
        None => Seq::empty(),
    }) + (match live::latest_record_of(data.related, LatestKind::AllocatorWarnings) {
        Some(record) => seq![warnings_compact(record)],
        None => Seq::empty(),
    }) + seq![
        match live::latest_record_of(data.related, LatestKind::HeapScan) {
            Some(record) => scan_compact(record),
            None => "heap scan unavailable; enable --heap-scan or --allocator-views basic/full"@,
        },
    ]
}

pub fn format_live_allocator_scan_pane(app: &LiveTuiApp) -> (r: String)
    ensures
        r@ == text::join(allocator_pane_lines(app@.data), "\n"@),
{
    let mut l = Lines::new();
    match app.data.latest_record(LatestKind::AllocatorSummary) {
        Some(record) => l.push(format_live_allocator_summary_compact(record)),
        None => l.push(
            owned("allocator summary unavailable; enable --allocator-views basic/full"),
        ),
    }
    if let Some(record) = app.data.latest_record(LatestKind::AllocatorDelta) {
        l.push(format_live_allocator_delta_compact(record));
    }
    if let Some(record) = app.data.latest_record(LatestKind::AllocatorWarnings) {
        l.push(format_live_allocator_warnings_compact(record));
    }
    match app.data.latest_record(LatestKind::HeapScan) {
        Some(record) => l.push(format_live_heap_scan_compact(record)),
        None => l.push(
            owned("heap scan unavailable; enable --heap-scan or --allocator-views basic/full"),
        ),
    }
    assert(l@ =~= allocator_pane_lines(app@.data));
    l.join("\n")
}

/// Whether a finding is about the chunk with one of the given addresses.
pub open spec fn finding_matches(
    finding: JsonHeapScanFinding,
    chunk_addr: Option<u64>,
    user_addr: Option<u64>,
) -> bool {
    ||| same_addr(finding.chunk_addr, chunk_addr)
    ||| same_addr(finding.user_addr, user_addr)
}

/// Whether an address is written, can be read, and is the one asked for.
pub open spec fn same_addr(written: Option<String>, addr: Option<u64>) -> bool {
    match written {
        Some(s) => number::auto_radix_number(s@) is Some && number::auto_radix_number(s@) == addr,
        None => false,
    }
}

fn is_same_addr(written: &Option<String>, addr: Option<u64>) -> (r: bool)
    ensures
        r == same_addr(*written, addr),
{
    match written {
        Some(s) => match (parse_json_addr(s.as_str()), addr) {
            (Some(a), Some(b)) => a == b,
            _ => false,
        },
        None => false,
    }
}

/// A finding of a chunk, with the first two lines of its explanation.
pub open spec fn chunk_finding(finding: JsonHeapScanFinding) -> Seq<char> {
    text::join(
        seq![
            finding.severity@ + " "@ + finding.kind@ + " chunk="@ + text::or_word(
                finding.chunk_addr,
                "?"@,
            ) + " user="@ + text::or_word(finding.user_addr, "?"@) + " "@ + finding.message@,
        ] + text::prefixed(
            "    "@,
            text::up_to(record_text::finding_explanation(finding.kind@), 2),
        ),
        "\n"@,
    )
}

fn format_chunk_finding(finding: &JsonHeapScanFinding) -> (r: String)
    ensures
        r@ == chunk_finding(*finding),
{
    let mut l = Lines::new();
    l.push(
        cat7(
            finding.severity.as_str(),
            " ",
            finding.kind.as_str(),
            " chunk=",
            text::str_or(&finding.chunk_addr, "?"),
            " user=",
            text::str_or(&finding.user_addr, "?"),
        ).concat(" ").concat(finding.message.as_str()),
    );
    l.add(explanation_start("    ", finding, 2));
    l.join("\n")
}

/// The findings about a chunk among the first `n`.
pub open spec fn chunk_findings(
    findings: Seq<JsonHeapScanFinding>,
    n: nat,
    chunk_addr: Option<u64>,
    user_addr: Option<u64>,
) -> Seq<Seq<char>>
    decreases n,
{
    if n == 0 || n > findings.len() {
        Seq::empty()
    } else {
        let before = chunk_findings(findings, (n - 1) as nat, chunk_addr, user_addr);
        if finding_matches(findings[n - 1], chunk_addr, user_addr) {
            before.push(chunk_finding(findings[n - 1]))
        } else {
            before
        }
    }
}

/// The findings of a heap scan about a chunk; none from any other record.
pub open spec fn scan_findings(
    record: Option<JsonTraceRecord>,
    chunk_addr: Option<u64>,
    user_addr: Option<u64>,
) -> Seq<Seq<char>> {
    match record {
        Some(JsonTraceRecord::HeapScan { report, .. }) => chunk_findings(
            report.findings@,
            report.findings@.len(),
            chunk_addr,
            user_addr,
        ),
        _ => Seq::empty(),
    }
}

pub fn collect_heap_scan_findings_for_chunk(
    record: Option<&JsonTraceRecord>,
    chunk_addr: Option<u64>,
    user_addr: Option<u64>,
) -> (r: Vec<String>)
    ensures
        text::texts(r@) == scan_findings(classify::opt_record(record), chunk_addr, user_addr),
{
    let mut l = Lines::new();
    if let Some(JsonTraceRecord::HeapScan { report, .. }) = record {
        let mut i: usize = 0;
        while i < report.findings.len()
            invariant
                i <= report.findings.len(),
                l@ == chunk_findings(report.findings@, i as nat, chunk_addr, user_addr),
            decreases report.findings.len() - i,
        {
            let finding = &report.findings[i];
            if is_same_addr(&finding.chunk_addr, chunk_addr) || is_same_addr(
                &finding.user_addr,
                user_addr,
            ) {
                l.push(format_chunk_finding(finding));
            }
            i = i + 1;
        }
    }
    assert(text::texts(l.items@) == l@);
    l.items
}

/// Whether an allocator call handed out or took back a pointer.
pub open spec fn event_matches(event: JsonHeapEvent, user_addr: u64) -> bool {
    match event {
        JsonHeapEvent::Malloc { returned_ptr, .. } => number::auto_radix_number(returned_ptr@)
            == Some(user_addr),
        JsonHeapEvent::Calloc { returned_ptr, .. } => number::auto_radix_number(returned_ptr@)
            == Some(user_addr),
        JsonHeapEvent::Free { ptr, .. } => number::auto_radix_number(ptr@) == Some(user_addr),
        JsonHeapEvent::Realloc { old_ptr, returned_ptr, .. } => number::auto_radix_number(old_ptr@)
            == Some(user_addr) || number::auto_radix_number(returned_ptr@) == Some(user_addr),
    }
}

fn is_address(written: &String, addr: u64) -> (r: bool)
    ensures
        r == (number::auto_radix_number(written@) == Some(addr)),
{
    match parse_json_addr(written.as_str()) {
        Some(a) => a == addr,
        None => false,
    }
}

pub fn event_matches_user_addr(event: &JsonHeapEvent, user_addr: u64) -> (r: bool)
    ensures
        r == event_matches(*event, user_addr),
{
    match event {
        JsonHeapEvent::Malloc { returned_ptr, .. } => is_address(returned_ptr, user_addr),
        JsonHeapEvent::Calloc { returned_ptr, .. } => is_address(returned_ptr, user_addr),
        JsonHeapEvent::Free { ptr, .. } => is_address(ptr, user_addr),
        JsonHeapEvent::Realloc { old_ptr, returned_ptr, .. } => is_address(old_ptr, user_addr)
            || is_address(returned_ptr, user_addr),
    }
}

/// Where a call came from, behind an `@`.
pub open spec fn caller_suffix(
    caller_addr: Option<String>,
    caller_symbol: Option<JsonCallerSymbol>,
) -> Seq<char> {
    match caller_symbol {
        Some(symbol) => " @ "@ + replay_text::caller_symbol_text(symbol, caller_addr),
        None => match caller_addr {
            Some(addr) => " @ "@ + addr@,
            None => Seq::empty(),
        },
    }
}

fn format_caller_suffix(
    caller_addr: &Option<String>,
    caller_symbol: &Option<JsonCallerSymbol>,
) -> (r: String)
    ensures
        r@ == caller_suffix(*caller_addr, *caller_symbol),
{
    match caller_symbol {
        Some(symbol) => cat2(" @ ", format_json_caller_symbol(symbol, caller_addr).as_str()),
        None => match caller_addr {
            Some(addr) => cat2(" @ ", addr.as_str()),
            None => String::new(),
        },
    }
}

/// A call and where it came from, in one line.
pub open spec fn event_history_line(event: JsonHeapEvent) -> Seq<char> {
    replay_text::event_summary(event) + match event {
        JsonHeapEvent::Malloc { caller_addr, caller_symbol, .. } => caller_suffix(
            caller_addr,
            caller_symbol,
        ),
        JsonHeapEvent::Free { caller_addr, caller_symbol, .. } => caller_suffix(
            caller_addr,
            caller_symbol,
        ),
        JsonHeapEvent::Calloc { caller_addr, caller_symbol, .. } => caller_suffix(
            caller_addr,
            caller_symbol,
        ),
        JsonHeapEvent::Realloc { caller_addr, caller_symbol, .. } => caller_suffix(
            caller_addr,
            caller_symbol,
        ),
    }
}

pub fn format_compact_event_history(event: &JsonHeapEvent) -> (r: String)
    ensures
        r@ == event_history_line(*event),
{
    let caller = match event {
        JsonHeapEvent::Malloc { caller_addr, caller_symbol, .. } => format_caller_suffix(
            caller_addr,
            caller_symbol,
        ),
        JsonHeapEvent::Free { caller_addr, caller_symbol, .. } => format_caller_suffix(
            caller_addr,
            caller_symbol,
        ),
        JsonHeapEvent::Calloc { caller_addr, caller_symbol, .. } => format_caller_suffix(
            caller_addr,
            caller_symbol,
        ),
        JsonHeapEvent::Realloc { caller_addr, caller_symbol, .. } => format_caller_suffix(
            caller_addr,
            caller_symbol,
        ),
    };
    cat2(format_replay_event_summary(event).as_str(), caller.as_str())
}

/// The calls among the first `n` events that handed out or took back a pointer.
pub open spec fn event_history(events: Seq<JsonTraceRecord>, n: nat, user_addr: u64) -> Seq<Seq<char>>
    decreases n,
{
    if n == 0 || n > events.len() {
        Seq::empty()
    } else {
        let before = event_history(events, (n - 1) as nat, user_addr);
        match events[n - 1] {
            JsonTraceRecord::Event { event } => if event_matches(event, user_addr) {
                before.push(event_history_line(event))
            } else {
                before
            },
            _ => before,
        }
    }
}

pub fn collect_event_history_for_user_addr(events: &Vec<JsonTraceRecord>, user_addr: u64) -> (r: Vec<
    String,
>)
    ensures
        text::texts(r@) == event_history(events@, events@.len(), user_addr),
{
    let mut l = Lines::new();
    let mut i: usize = 0;
    while i < events.len()
        invariant
            i <= events.len(),
            l@ == event_history(events@, i as nat, user_addr),
        decreases events.len() - i,
    {
        if let JsonTraceRecord::Event { event } = &events[i] {
            if event_matches_user_addr(event, user_addr) {
                l.push(format_compact_event_history(event));
            }
        }
        i = i + 1;
    }
    assert(text::texts(l.items@) == l@);
    l.items
}

/// A line for a value that is not empty.
pub open spec fn filled_line(label: Seq<char>, value: Seq<char>) -> Seq<Seq<char>> {
    text::when(value.len() > 0, label + value)
}

/// A list under two spaces, or `none`.
pub open spec fn listed(items: Seq<Seq<char>>) -> Seq<Seq<char>> {
    if items.len() == 0 {
        seq!["  none"@]
    } else {
        text::prefixed("  "@, items)
    }
}

/// The fields of a chunk.
pub open spec fn chunk_field_lines(chunk: JsonLayoutChunk) -> Seq<Seq<char>> {
    seq![
        "chunk addr: "@ + chunk.chunk_addr@,
        "user addr:  "@ + chunk.user_addr@,
        "size:       "@ + chunk.size@,
    ] + filled_line("prev size:  "@, chunk.prev_size@) + filled_line(
        "size raw:   "@,
        chunk.size_raw@,
    ) + text::when(
        chunk.flags@.len() > 0,
        "flags:      "@ + text::join(text::texts(chunk.flags@), ","@),
    ) + seq!["tracker:    "@ + chunk.state@] + match chunk.allocator_source {
        Some(source) => seq![
            "allocator:  "@ + source.kind@ + " size="@ + source.chunk_size@ + " index="@
                + text::dec(source.index as nat),
        ],
        None => Seq::empty(),
    }
}

fn format_chunk_fields(chunk: &JsonLayoutChunk) -> (r: Lines)
    ensures
        r@ == chunk_field_lines(*chunk),
{
    let mut l = Lines::new();
    l.push(cat2("chunk addr: ", chunk.chunk_addr.as_str()));
    l.push(cat2("user addr:  ", chunk.user_addr.as_str()));
    l.push(cat2("size:       ", chunk.size.as_str()));
    if !chunk.prev_size.as_str().is_empty() {
        l.push(cat2("prev size:  ", chunk.prev_size.as_str()));
    }
    if !chunk.size_raw.as_str().is_empty() {
        l.push(cat2("size raw:   ", chunk.size_raw.as_str()));
    }
    if chunk.flags.len() > 0 {
        l.push(cat2("flags:      ", text::format_join(&chunk.flags, ",").as_str()));
    }
    l.push(cat2("tracker:    ", chunk.state.as_str()));
    if let Some(source) = &chunk.allocator_source {
        l.push(
            cat6(
                "allocator:  ",
                source.kind.as_str(),
                " size=",
                source.chunk_size.as_str(),
                " index=",
                text::format_dec_usize(source.index).as_str(),
            ),
        );
    }
    assert(l@ =~= chunk_field_lines(*chunk));
    l
}

fn format_listed(items: Vec<String>) -> (r: Lines)
    ensures
        r@ == listed(text::texts(items@)),
{
    if items.len() == 0 {
        Lines::one("  none")
    } else {
        text::format_prefixed("  ", &items)
    }
}

/// What is known of the selected chunk: its fields, what heap scans found about it, and the
/// calls that handed it out or took it back.
pub open spec fn inspector_lines(app: AppView, chunk: JsonLayoutChunk) -> Seq<Seq<char>> {
    chunk_field_lines(chunk) + seq![""@, "heap scan findings:"@] + listed(
        text::up_to(
            scan_findings(
                live::latest_record_of(app.data.related, LatestKind::HeapScan),
                app.chunk.addr,
                app.chunk.user_addr,
            ),
            5,
        ),
    ) + seq![""@, "event history:"@] + listed(
        match app.chunk.user_addr {
            Some(addr) => event_history(app.data.events, app.data.events.len(), addr),
            None => Seq::empty(),
        },
    )
}

pub open spec fn inspector_text(app: AppView) -> Seq<char> {
    match search::layout_chunks(app.data.layout()) {
        None => "heap layout unavailable; enable --layout or --allocator-views basic/full"@,
        Some(_) => match app.selected_chunk() {
            Some(chunk) => text::join(inspector_lines(app, chunk), "\n"@),
            None => "no chunk selected"@,
        },
    }
}

pub fn live_chunk_inspector_text(app: &LiveTuiApp) -> (r: String)
    ensures
        r@ == inspector_text(app@),
{
    if latest_chunks(&app.data).is_none() {
        return owned("heap layout unavailable; enable --layout or --allocator-views basic/full");
    }
    match app.selected_chunk_from_latest_layout() {
        None => owned("no chunk selected"),
        Some(chunk) => {
            let findings = Lines {
                items: collect_heap_scan_findings_for_chunk(
                    app.data.latest_record(LatestKind::HeapScan),
                    app.chunk.addr,
                    app.chunk.user_addr,
                ),
            };
            let first = text::first_lines(findings, 5);
            let history = match app.chunk.user_addr {
                Some(addr) => collect_event_history_for_user_addr(&app.data.events, addr),
                None => Vec::new(),
            };
            assert(text::texts(history@) =~= (match app.chunk.user_addr {
                Some(addr) => event_history(app@.data.events, app@.data.events.len(), addr),
                None => Seq::empty(),
            }));
            let mut l = format_chunk_fields(chunk);
            l.push(owned(""));
            l.push(owned("heap scan findings:"));
            l.add(format_listed(first.items));
            l.push(owned(""));
            l.push(owned("event history:"));
            l.add(format_listed(history));
            assert(l@ =~= inspector_lines(app@, *chunk));
            l.join("\n")
        },
    }
}

// ---------------------------------------------------------------------------
// The focused pane
// ---------------------------------------------------------------------------

/// The text that the focused pane scrolls through.
#[verifier::opaque]
pub open spec fn focused_text(app: AppView) -> Seq<char> {
    match app.panes.focused_debugger_pane {
        LiveDebuggerPane::Registers => registers_pane(app),
        LiveDebuggerPane::Code => code_pane(app.data),
        LiveDebuggerPane::Trace => Seq::empty(),
        LiveDebuggerPane::Console => Seq::empty(),
        LiveDebuggerPane::RightTab => match app.panes.active_right_tab {
            LiveRightTab::Heap => heap_layout_pane(app, usize::MAX),
            LiveRightTab::Stack => stack_tab(app.data),
            LiveRightTab::Logs => logs_pane(app.logs),
            LiveRightTab::Maps => maps_tab(app.data),
        },
    }
}

impl AppView {
    /// The bottom of the focused pane, its last line on top; among the events, the latest.
    pub open spec fn at_bottom(self) -> AppView {
        if self.panes.focused_debugger_pane is Trace {
            self.select_latest()
        } else {
            self.with_panes(
                self.panes.scrolled_to((panes::line_count_of(focused_text(self)) - 1) as usize),
            )
        }
    }
}

impl LiveTuiApp {
    pub fn scroll_focused_bottom(&mut self)
        ensures
            final(self)@ == old(self)@.at_bottom(),
    {
        let shown = match self.panes.focused_debugger_pane {
            LiveDebuggerPane::Registers => format_live_registers_pane(self),
            LiveDebuggerPane::Code => format_live_code_context(self),
            LiveDebuggerPane::Trace => String::new(),
            LiveDebuggerPane::Console => String::new(),
            LiveDebuggerPane::RightTab => match self.panes.active_right_tab {
                LiveRightTab::Heap => format_live_heap_layout_pane(self, usize::MAX),
                LiveRightTab::Stack => format_live_stack_tab(self),
                LiveRightTab::Logs => format_live_logs_pane(self),
                LiveRightTab::Maps => format_live_maps_tab(self),
            },
        };
        let on_events = self.panes.focused_debugger_pane == LiveDebuggerPane::Trace;
        if on_events {
            self.select_latest();
        } else {
            proof {
                reveal(focused_text);
            }
            assert(shown@ =~= focused_text(self@));
            let lines: usize = text_line_count(shown.as_str());
            self.panes.set_focused_scroll(lines - 1);
        }
    }
}

// ---------------------------------------------------------------------------
// Laws
// ---------------------------------------------------------------------------

/// Every finding that names a chunk's own address or its user address is among the chunk's
/// findings.
pub proof fn law_chunk_findings(
    findings: Seq<JsonHeapScanFinding>,
    i: int,
    chunk_addr: Option<u64>,
    user_addr: Option<u64>,
)
    requires
        0 <= i < findings.len(),
        finding_matches(findings[i], chunk_addr, user_addr),
    ensures
        chunk_findings(findings, findings.len(), chunk_addr, user_addr).contains(
            chunk_finding(findings[i]),
        ),
{
    lemma_chunk_findings(findings, findings.len(), i, chunk_addr, user_addr);
}

proof fn lemma_chunk_findings(
    findings: Seq<JsonHeapScanFinding>,
    n: nat,
    i: int,
    chunk_addr: Option<u64>,
    user_addr: Option<u64>,
)
    requires
        0 <= i < n <= findings.len(),
        finding_matches(findings[i], chunk_addr, user_addr),
    ensures
        chunk_findings(findings, n, chunk_addr, user_addr).contains(chunk_finding(findings[i])),
    decreases n,
{
    let all = chunk_findings(findings, n, chunk_addr, user_addr);
    if i == n - 1 {
        assert(all.last() == chunk_finding(findings[i]));
    } else {
        lemma_chunk_findings(findings, (n - 1) as nat, i, chunk_addr, user_addr);
        let before = chunk_findings(findings, (n - 1) as nat, chunk_addr, user_addr);
        let k = choose|k: int| 0 <= k < before.len() && before[k] == chunk_finding(findings[i]);
        assert(all[k] == chunk_finding(findings[i]));
    }
}

/// The console always ends with the line that is typed at.
pub proof fn law_console_ends_with_prompt(app: AppView, height: usize)
    ensures
        console_lines(app, height).last() == prompt_line(app),
        console_lines(app, height).len() >= 5,
{
}

/// A recorded call belongs to the history of the memory that it handed out or took back.
pub proof fn law_recorded_call_is_in_history(
    json: JsonHeapEvent,
    call: HeapTraceEvent,
    note: HeapTrackerNote,
    explanation: HeapTrackerExplanation,
    symbol: Option<SymbolizedAddress>,
)
    requires
        event::is_json_event(json, call, note, explanation, symbol),
    ensures
        match call {
            HeapTraceEvent::Malloc { returned_ptr, .. } => event_matches(json, returned_ptr),
            HeapTraceEvent::Free { ptr, .. } => event_matches(json, ptr),
            HeapTraceEvent::Calloc { returned_ptr, .. } => event_matches(json, returned_ptr),
            HeapTraceEvent::Realloc { old_ptr, returned_ptr, .. } => event_matches(json, old_ptr)
                && event_matches(json, returned_ptr),
        },
{
    match call {
        HeapTraceEvent::Malloc { returned_ptr, .. } => {
            number::law_hex_round_trip(returned_ptr);
        },
        HeapTraceEvent::Free { ptr, .. } => {
            number::law_hex_round_trip(ptr);
        },
        HeapTraceEvent::Calloc { returned_ptr, .. } => {
            number::law_hex_round_trip(returned_ptr);
        },
        HeapTraceEvent::Realloc { old_ptr, returned_ptr, .. } => {
            number::law_hex_round_trip(old_ptr);
            number::law_hex_round_trip(returned_ptr);
        },
    }
}

} // verus!
