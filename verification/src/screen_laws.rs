//! What the panes of the live screen show, and what a trace prints of its records.

use crate::live;
use crate::live::{LatestKind, RelatedRecord, Stop};
use crate::live_app::AppView;
use crate::live_text;
use crate::number;
use crate::panes;
use crate::panes::{LiveDebuggerPane, LiveRightTab};
use crate::print_text;
use crate::record::{JsonHeapEvent, JsonLayoutChunk, JsonTraceRecord};
use crate::record_text;
use crate::replay;
use crate::replay_text;
use crate::replay_text::ReplayConfig;
use crate::screen;
use crate::screen::Area;
use crate::text;
use crate::text::{begins_with_line, ends_with_line, shows, shows_line};
use vstd::prelude::*;

verus! {

// ---------------------------------------------------------------------------
// The latest of a trace
// ---------------------------------------------------------------------------

/// The latest stop is the one that came last, and the one before it comes right before.
pub proof fn law_latest_stops<T>(stops: Seq<Stop<T>>, stop: Stop<T>, next: Stop<T>)
    ensures
        live::latest(stops.push(stop)) == Some(stop.value),
        live::previous(stops.push(stop).push(next)) == Some(stop.value),
        live::latest(Seq::<Stop<T>>::empty()) is None,
        live::previous(seq![stop]) is None,
{
}

/// The stop of an event is the latest one that was read at it.
pub proof fn law_stop_of_event<T>(stops: Seq<Stop<T>>, event_id: usize, k: int)
    requires
        0 <= k < stops.len(),
        stops[k].event_id == Some(event_id),
        forall|j: int| k < j < stops.len() ==> (#[trigger] stops[j]).event_id != Some(event_id),
    ensures
        live::stop_of_event(stops, event_id) == Some(stops[k].value),
    decreases stops.len(),
{
    if k < stops.len() - 1 {
        assert(stops.last().event_id != Some(event_id));
        law_stop_of_event(stops.drop_last(), event_id, k);
    }
}

/// The latest record of a kind is the last one of that kind, whatever came after it.
pub proof fn law_latest_record(related: Seq<RelatedRecord>, k: int)
    requires
        0 <= k < related.len(),
    ensures
        related[k].record is HeapLayout && (forall|j: int|
            k < j < related.len() ==> (#[trigger] related[j]).record !is HeapLayout)
            ==> live::latest_record_of(related, LatestKind::HeapLayout) == Some(related[k].record),
        related[k].record is AllocatorSourceSummary && (forall|j: int|
            k < j < related.len() ==> (#[trigger] related[j]).record !is AllocatorSourceSummary)
            ==> live::latest_record_of(related, LatestKind::AllocatorSummary) == Some(
            related[k].record,
        ),
        related[k].record is AllocatorSourceDelta && (forall|j: int|
            k < j < related.len() ==> (#[trigger] related[j]).record !is AllocatorSourceDelta)
            ==> live::latest_record_of(related, LatestKind::AllocatorDelta) == Some(
            related[k].record,
        ),
        related[k].record is AllocatorWarnings && (forall|j: int|
            k < j < related.len() ==> (#[trigger] related[j]).record !is AllocatorWarnings)
            ==> live::latest_record_of(related, LatestKind::AllocatorWarnings) == Some(
            related[k].record,
        ),
        related[k].record is HeapScan && (forall|j: int|
            k < j < related.len() ==> (#[trigger] related[j]).record !is HeapScan)
            ==> live::latest_record_of(related, LatestKind::HeapScan) == Some(related[k].record),
    decreases related.len(),
{
    if k < related.len() - 1 {
        let rest = related.drop_last();
        law_latest_record(rest, k);
        assert(related[related.len() - 1] == related.last());
        assert(forall|j: int| k < j < rest.len() ==> (#[trigger] rest[j]) == related[j]);
    }
}

/// The records of an event are those that came under its number, in the order in which they
/// came.
pub proof fn law_records_of_an_event(
    before: Seq<RelatedRecord>,
    related: RelatedRecord,
    event_id: usize,
)
    ensures
        live::records_of(before.push(related), event_id) == live::records_of(before, event_id) + (
        if related.event_id == event_id {
            seq![related.record]
        } else {
            Seq::empty()
        }),
        live::records_of(Seq::empty(), event_id).len() == 0,
{
    let all = before.push(related);
    assert(all.drop_last() =~= before);
    assert(live::records_of(all, event_id) =~= live::records_of(before, event_id) + (
    if related.event_id == event_id {
        seq![related.record]
    } else {
        Seq::empty()
    }));
}

// ---------------------------------------------------------------------------
// Texts of the panes
// ---------------------------------------------------------------------------

/// A pane without its data says so.
pub proof fn law_missing_data_is_said(app: AppView, height: usize)
    ensures
        app.data.stacks.len() == 0 ==> live_text::stack_tab(app.data)
            == "stack snapshot unavailable"@,
        app.data.maps is None ==> live_text::maps_tab(app.data) == "process maps unavailable"@,
        app.data.contexts.len() == 0 ==> live_text::code_pane(app.data)
            == "code context unavailable"@,
        app.data.registers.len() == 0 ==> live_text::registers_pane(app)
            == "registers unavailable"@,
        app.logs.len() == 0 ==> live_text::logs_pane(app.logs) == "no logs yet"@,
        app.data.layout() is None ==> live_text::heap_layout_pane(app, height)
            == "heap layout unavailable; enable --layout or --allocator-views basic/full"@
            && live_text::inspector_text(app)
            == "heap layout unavailable; enable --layout or --allocator-views basic/full"@,
        app.data.events.len() == 0 ==> live_text::related_pane(
            app,
            (ReplayConfig { events_only: false, show_chunks: true, tui: false }),
        ) == "no related records"@,
{
}

/// The logs are shown line by line, in their order.
pub proof fn law_logs_are_shown(logs: Seq<Seq<char>>, k: int)
    requires
        0 <= k < logs.len(),
    ensures
        shows_line(live_text::logs_pane(logs), logs[k]),
        ends_with_line(live_text::logs_pane(logs), logs.last()),
{
    text::lemma_shows_lines(logs);
    text::lemma_text_ends(logs);
}

/// The console tells the state of the target, whether the latest event is followed, and the most
/// telling message there is: that of a search, else that of the last command, else the status.
pub proof fn law_console_tells_the_state(app: AppView, height: usize)
    ensures
        ({
            let s = text::unlines(live_text::console_lines(app, height));
            &&& shows(
                s,
                seq![
                    "target="@ + live::target_word(app.control.target_status),
                    "follow: "@ + (if app.control.follow_tail { "on"@ } else { "off"@ }),
                ],
            )
            &&& app.search.status is Some ==> shows_line(s, app.search.status->0)
            &&& app.search.status is None && app.control.last_command_message is Some
                ==> shows_line(s, app.control.last_command_message->0)
            &&& app.search.status is None && app.control.last_command_message is None
                ==> shows_line(s, app.control.status_line)
        }),
{
    let lines = live_text::console_lines(app, height);
    let logs = live_text::last_lines(app.logs, if height < 6 { 0 } else { (height - 6) as nat });
    let part = seq![
        "target="@ + live::target_word(app.control.target_status),
        "follow: "@ + (if app.control.follow_tail { "on"@ } else { "off"@ }),
    ];
    text::lemma_shows_at(lines, logs.len() as int, part);
    text::lemma_shows_lines(lines);
    assert(lines[lines.len() - 3] == live_text::console_message(app));
}

/// The heap layout shows its chunks in order, each with its addresses, its size, its state and
/// the free list that holds it; the selected one is marked, and no other.
pub proof fn law_layout_rows_are_shown(app: AppView, max_rows: usize, i: int)
    requires
        app.data.layout() is Some,
        app.data.layout()->0 is HeapLayout,
        0 <= i < app.data.chunks().len(),
        i < max_rows,
    ensures
        ({
            let s = live_text::heap_layout_pane(app, max_rows);
            let chunk = app.data.chunks()[i];
            let selected = app.chunk.index is Some && app.chunk.index->0 == i;
            shows_line(
                s,
                (if selected { ">"@ } else { " "@ }) + " "@ + chunk.chunk_addr@ + " user="@
                    + chunk.user_addr@ + " size="@ + chunk.size@ + " state="@ + chunk.state@ + (
                match chunk.allocator_source {
                    Some(source) => " "@ + source.kind@,
                    None => Seq::empty(),
                }),
            )
        }),
{
    let record = app.data.layout()->0;
    let lines = live_text::layout_lines(
        record->HeapLayout_event_id,
        record->HeapLayout_heap_start@,
        record->HeapLayout_heap_end@,
        record->HeapLayout_chunks@,
        record->HeapLayout_truncated,
        record->HeapLayout_chunks_omitted,
        app.chunk.index,
        max_rows,
    );
    text::lemma_shows_lines(lines);
    assert(lines[1 + i] == live_text::layout_row(
        app.data.chunks()[i],
        app.chunk.index matches Some(k) && k == i,
    ));
}

/// The heap layout begins with its event, the bounds of the heap and the number of its chunks,
/// and says how many chunks the pane and the trace leave out.
pub proof fn law_layout_pane_says_what_is_left_out(app: AppView, max_rows: usize)
    requires
        app.data.layout() is Some,
        app.data.layout()->0 is HeapLayout,
    ensures
        ({
            let s = live_text::heap_layout_pane(app, max_rows);
            let record = app.data.layout()->0;
            let count = record->HeapLayout_chunks@.len();
            &&& begins_with_line(
                s,
                "event #"@ + text::dec(record->HeapLayout_event_id as nat) + " heap "@
                    + record->HeapLayout_heap_start@ + ".."@ + record->HeapLayout_heap_end@
                    + " chunks="@ + text::dec(count),
            )
            &&& count > max_rows ==> shows_line(
                s,
                "... "@ + text::dec((count - max_rows) as nat) + " more chunks hidden in pane"@,
            )
            &&& record->HeapLayout_truncated ==> ends_with_line(
                s,
                "... "@ + text::dec(record->HeapLayout_chunks_omitted as nat)
                    + " chunks omitted by trace limit"@,
            )
        }),
{
    let record = app.data.layout()->0;
    let lines = live_text::layout_lines(
        record->HeapLayout_event_id,
        record->HeapLayout_heap_start@,
        record->HeapLayout_heap_end@,
        record->HeapLayout_chunks@,
        record->HeapLayout_truncated,
        record->HeapLayout_chunks_omitted,
        app.chunk.index,
        max_rows,
    );
    text::lemma_shows_lines(lines);
    text::lemma_text_ends(lines);
    if record->HeapLayout_chunks@.len() > max_rows {
        assert(lines[1 + max_rows] == "... "@ + text::dec(
            (record->HeapLayout_chunks@.len() - max_rows) as nat,
        ) + " more chunks hidden in pane"@);
    }
}

/// The inspector shows the fields of the selected chunk, each that is there on a line of its
/// own.
pub proof fn law_inspector_shows_the_chunk(app: AppView, chunk: JsonLayoutChunk)
    requires
        app.data.layout() is Some,
        app.data.layout()->0 is HeapLayout,
        app.selected_chunk() == Some(chunk),
    ensures
        ({
            let s = live_text::inspector_text(app);
            &&& shows(
                s,
                seq![
                    "chunk addr: "@ + chunk.chunk_addr@,
                    "user addr:  "@ + chunk.user_addr@,
                    "size:       "@ + chunk.size@,
                ],
            )
            &&& chunk.prev_size@.len() > 0 ==> shows_line(s, "prev size:  "@ + chunk.prev_size@)
            &&& chunk.size_raw@.len() > 0 ==> shows_line(s, "size raw:   "@ + chunk.size_raw@)
            &&& shows_line(s, "tracker:    "@ + chunk.state@)
            &&& chunk.allocator_source is Some ==> shows_line(
                s,
                "allocator:  "@ + chunk.allocator_source->0.kind@ + " size="@
                    + chunk.allocator_source->0.chunk_size@ + " index="@ + text::dec(
                    chunk.allocator_source->0.index as nat,
                ),
            )
            &&& shows_line(s, "heap scan findings:"@)
            &&& shows_line(s, "event history:"@)
        }),
{
    let lines = live_text::inspector_lines(app, chunk);
    let fields = live_text::chunk_field_lines(chunk);
    let part = seq![
        "chunk addr: "@ + chunk.chunk_addr@,
        "user addr:  "@ + chunk.user_addr@,
        "size:       "@ + chunk.size@,
    ];
    text::lemma_shows_lines(lines);
    assert(lines.take(fields.len() as int) =~= fields);
    assert forall|k: int| 0 <= k < fields.len() implies lines[k] == #[trigger] fields[k] by {
        assert(lines.take(fields.len() as int)[k] == lines[k]);
    }
    text::lemma_shows_at(lines, 0, part);
    let a: int = 3 + (if chunk.prev_size@.len() > 0 { 1int } else { 0 });
    let b: int = a + (if chunk.size_raw@.len() > 0 { 1int } else { 0 });
    let c: int = b + (if chunk.flags@.len() > 0 { 1int } else { 0 });
    if chunk.prev_size@.len() > 0 {
        assert(fields[3] == "prev size:  "@ + chunk.prev_size@);
        assert(lines[3] == fields[3]);
    }
    if chunk.size_raw@.len() > 0 {
        assert(fields[a] == "size raw:   "@ + chunk.size_raw@);
        assert(lines[a] == fields[a]);
    }
    assert(fields[c] == "tracker:    "@ + chunk.state@);
    assert(lines[c] == fields[c]);
    if chunk.allocator_source is Some {
        assert(fields[c + 1] == "allocator:  "@ + chunk.allocator_source->0.kind@ + " size="@
            + chunk.allocator_source->0.chunk_size@ + " index="@ + text::dec(
            chunk.allocator_source->0.index as nat,
        ));
        assert(lines[c + 1] == fields[c + 1]);
    }
    let n = fields.len() as int;
    assert(lines[n + 1] == "heap scan findings:"@);
    let found = live_text::listed(
        text::up_to(
            live_text::scan_findings(
                live::latest_record_of(app.data.related, LatestKind::HeapScan),
                app.chunk.addr,
                app.chunk.user_addr,
            ),
            5,
        ),
    );
    assert(lines[n + 3 + found.len()] == "event history:"@);
}

/// A call belongs to the history of a pointer that it returned or freed, and a `realloc` also to
/// that of the pointer it was given.
pub proof fn law_history_of_a_pointer(event: JsonHeapEvent, addr: u64)
    ensures
        live_text::event_matches(event, addr) <==> (match event {
            JsonHeapEvent::Malloc { returned_ptr, .. } => number::auto_radix_number(returned_ptr@)
                == Some(addr),
            JsonHeapEvent::Calloc { returned_ptr, .. } => number::auto_radix_number(returned_ptr@)
                == Some(addr),
            JsonHeapEvent::Free { ptr, .. } => number::auto_radix_number(ptr@) == Some(addr),
            JsonHeapEvent::Realloc { old_ptr, returned_ptr, .. } => number::auto_radix_number(
                old_ptr@,
            ) == Some(addr) || number::auto_radix_number(returned_ptr@) == Some(addr),
        }),
{
}

/// The history of a pointer grows by the calls that belong to it, in order, and by no others.
pub proof fn law_history_grows_in_order(
    events: Seq<JsonTraceRecord>,
    event: JsonHeapEvent,
    addr: u64,
)
    ensures
        ({
            let all = events.push(JsonTraceRecord::Event { event });
            let before = live_text::event_history(events, events.len(), addr);
            live_text::event_history(all, all.len(), addr) == (if live_text::event_matches(
                event,
                addr,
            ) {
                before.push(live_text::event_history_line(event))
            } else {
                before
            })
        }),
{
    let all = events.push(JsonTraceRecord::Event { event });
    lemma_history_prefix(events, all, events.len(), addr);
}

proof fn lemma_history_prefix(
    events: Seq<JsonTraceRecord>,
    all: Seq<JsonTraceRecord>,
    n: nat,
    addr: u64,
)
    requires
        n <= events.len() <= all.len(),
        forall|k: int| 0 <= k < events.len() ==> #[trigger] all[k] == events[k],
    ensures
        live_text::event_history(events, n, addr) == live_text::event_history(all, n, addr),
    decreases n,
{
    if n > 0 {
        lemma_history_prefix(events, all, (n - 1) as nat, addr);
        assert(all[n - 1] == events[n - 1]);
    }
}

/// The counts of a summary and the changes of a delta are shown in one line each, under short
/// names.
pub proof fn law_compact_counts(record: JsonTraceRecord)
    ensures
        record is AllocatorSourceSummary ==> live_text::summary_compact(record) == "event #"@
            + text::dec(record->AllocatorSourceSummary_event_id as nat) + " allocator: tc="@
            + text::dec(record->AllocatorSourceSummary_tcache_candidate_chunks as nat) + " fb="@
            + text::dec(record->AllocatorSourceSummary_fastbin_chunks as nat) + " ub="@ + text::dec(
            record->AllocatorSourceSummary_unsorted_chunks as nat,
        ) + " sb="@ + text::dec(record->AllocatorSourceSummary_smallbin_chunks as nat) + " lb="@
            + text::dec(record->AllocatorSourceSummary_largebin_chunks as nat) + " total="@
            + text::dec(record->AllocatorSourceSummary_total_free_list_chunks as nat) + " warn="@
            + text::dec(record->AllocatorSourceSummary_warning_count as nat),
        record is AllocatorWarnings ==> live_text::warnings_compact(record) == "event #"@
            + text::dec(record->AllocatorWarnings_event_id as nat) + " allocator warnings: "@
            + text::dec(record->AllocatorWarnings_warnings@.len()),
{
}

// ---------------------------------------------------------------------------
// Panes
// ---------------------------------------------------------------------------

/// Each pane shows its own text under its own name, from its own offset, and is marked where it
/// has the focus.
pub proof fn law_panes_show_their_own_text(
    app: AppView,
    config: ReplayConfig,
    height: usize,
)
    ensures
        ({
            let focus = app.panes.focused_debugger_pane;
            let r = screen::registers_pane_view(app, height);
            let c = screen::code_pane_view(app, height);
            let o = screen::console_pane_view(app, height);
            let t = screen::tabs_pane_view(app);
            &&& r.body == live_text::registers_pane(app)
            &&& r.focused <==> focus == LiveDebuggerPane::Registers
            &&& r.offset == screen::first_line(r.body, app.panes.register_pane_scroll, height)
            &&& c.body == live_text::code_pane(app.data)
            &&& c.focused <==> focus == LiveDebuggerPane::Code
            &&& c.offset == screen::first_line(c.body, app.panes.code_pane_scroll, height)
            &&& o.body == text::unlines(live_text::console_lines(app, height))
            &&& o.focused <==> focus == LiveDebuggerPane::Console
            &&& o.offset == 0
            &&& o.title == (if o.focused { "Console"@ + " *"@ } else { "Console"@ })
            &&& t.focused <==> focus == LiveDebuggerPane::RightTab
            &&& t.offset == 0
        }),
{
}

/// Each tab of the right column shows its own text from its own offset; below the heap layout
/// stands the inspector where it is open, and else what belongs to the selected event.
pub proof fn law_tabs_show_their_own_text(
    app: AppView,
    config: ReplayConfig,
    height: usize,
)
    ensures
        ({
            let heap = screen::tab_pane(app, LiveRightTab::Heap, height);
            let stack = screen::tab_pane(app, LiveRightTab::Stack, height);
            let logs = screen::tab_pane(app, LiveRightTab::Logs, height);
            let maps = screen::tab_pane(app, LiveRightTab::Maps, height);
            let lower = screen::inspector_pane_view(app, config, height);
            &&& heap.body == live_text::heap_layout_pane(app, usize::MAX)
            &&& heap.offset == screen::first_line(heap.body, app.panes.heap_layout_scroll, height)
            &&& stack.body == live_text::stack_tab(app.data)
            &&& stack.offset == screen::first_line(stack.body, app.panes.stack_tab_scroll, height)
            &&& logs.body == live_text::logs_pane(app.logs)
            &&& logs.offset == screen::first_line(
                logs.body,
                app.panes.related_records_scroll,
                height,
            )
            &&& maps.body == live_text::maps_tab(app.data)
            &&& maps.offset == screen::first_line(maps.body, app.panes.maps_tab_scroll, height)
            &&& app.panes.show_chunk_inspector ==> lower.body == live_text::inspector_text(app)
                && lower.title == "Chunk Inspector"@
            &&& !app.panes.show_chunk_inspector ==> lower.body == live_text::related_pane(
                app,
                config,
            ) && lower.title == "Related"@
        }),
{
}

/// The live screen needs eighty columns and twenty rows, and a border takes two rows of a pane.
pub proof fn law_room_on_the_screen(width: u16, height: u16, area: Area)
    ensures
        screen::fits(width, height) <==> width >= 80 && height >= 20,
        screen::inner_height(area) == (if area.height >= 2 { area.height - 2 } else { 0 }),
{
}

/// The row of tabs names all four with their numbers, and brackets the active one alone.
pub proof fn law_tab_row(active: LiveRightTab)
    ensures
        panes::tab_row(active) == (if active == LiveRightTab::Heap {
            "["@ + text::dec(1) + ":"@ + "Heap"@ + "]"@
        } else {
            " "@ + text::dec(1) + ":"@ + "Heap"@ + " "@
        }) + " "@ + (if active == LiveRightTab::Stack {
            "["@ + text::dec(2) + ":"@ + "Stack"@ + "]"@
        } else {
            " "@ + text::dec(2) + ":"@ + "Stack"@ + " "@
        }) + " "@ + (if active == LiveRightTab::Logs {
            "["@ + text::dec(3) + ":"@ + "Logs"@ + "]"@
        } else {
            " "@ + text::dec(3) + ":"@ + "Logs"@ + " "@
        }) + " "@ + (if active == LiveRightTab::Maps {
            "["@ + text::dec(4) + ":"@ + "Maps"@ + "]"@
        } else {
            " "@ + text::dec(4) + ":"@ + "Maps"@ + " "@
        }),
{
}

/// The mark of a scrolled pane gives the first and the last line in view, counted from one, and
/// the number of lines; a pane that shows everything has none.
pub proof fn law_scroll_mark(scroll: nat, lines: nat, height: nat)
    ensures
        lines <= height ==> panes::scroll_indicator(scroll, lines, height).len() == 0,
        0 < height < lines && scroll + height <= lines ==> panes::scroll_indicator(
            scroll,
            lines,
            height,
        ) == "["@ + text::dec(scroll + 1) + "-"@ + text::dec(scroll + height) + "/"@ + text::dec(
            lines,
        ) + "]"@,
        0 < height < lines && scroll + height > lines ==> panes::scroll_indicator(
            scroll,
            lines,
            height,
        ) == "["@ + text::dec((lines - height + 1) as nat) + "-"@ + text::dec(lines) + "/"@
            + text::dec(lines) + "]"@,
{
}

/// A text has at least one line, and one more for every line that is added to it.
pub proof fn law_lines_are_counted(s: Seq<char>, line: Seq<char>)
    requires
        line.len() > 0,
        !line.contains('\n'),
    ensures
        panes::line_count_of(Seq::empty()) == 1,
        panes::line_count_of(line) == 1,
        s.len() > 0 && s.last() != '\n' ==> panes::line_count_of(s.push('\n') + line)
            == panes::line_count_of(s) + 1,
{
    lemma_line_feeds(s.push('\n'), line);
    lemma_line_feeds(Seq::empty(), line);
    assert(Seq::<char>::empty() + line =~= line);
    assert(s.push('\n').drop_last() =~= s);
    assert(line.contains(line.last()));
    assert((s.push('\n') + line).last() == line.last());
}

proof fn lemma_line_feeds(s: Seq<char>, line: Seq<char>)
    requires
        !line.contains('\n'),
    ensures
        panes::line_feeds(s + line) == panes::line_feeds(s),
    decreases line.len(),
{
    if line.len() == 0 {
        assert(s + line =~= s);
    } else {
        assert(line.contains(line.last()));
        assert((s + line).last() == line.last());
        assert((s + line).drop_last() =~= s + line.drop_last());
        assert(!line.drop_last().contains('\n')) by {
            if line.drop_last().contains('\n') {
                let i = line.drop_last().index_of('\n');
                assert(line[i] == '\n');
            }
        }
        lemma_line_feeds(s, line.drop_last());
    }
}

// ---------------------------------------------------------------------------
// Printed records
// ---------------------------------------------------------------------------

/// A printed layout has a line for every chunk of its record, with its addresses, its size, its
/// flags, its state and the free list that holds it.
pub proof fn law_printed_layout(record: JsonTraceRecord, max_chunks: usize, i: int)
    requires
        record is HeapLayout,
        0 <= i < record->HeapLayout_chunks@.len(),
    ensures
        ({
            let s = print_text::printed(record, max_chunks);
            let x = record->HeapLayout_chunks@[i];
            &&& begins_with_line(s, "heap layout:"@)
            &&& shows_line(
                s,
                "    "@ + x.chunk_addr@ + " user="@ + x.user_addr@ + " size="@ + x.size@
                    + " flags="@ + replay_text::flags_text(x.flags@) + " state="@ + x.state@ + (
                match (x.allocator_source, x.tcache_candidate) {
                    (Some(source), _) => if source.kind@ == "tcache_candidate"@ {
                        " tcache_candidate=size["@ + source.chunk_size@ + "] index="@ + text::dec(
                            source.index as nat,
                        )
                    } else if source.kind@ == "unsorted"@ {
                        " source=unsorted index="@ + text::dec(source.index as nat)
                    } else {
                        " source="@ + source.kind@ + "["@ + source.chunk_size@ + "] index="@
                            + text::dec(source.index as nat)
                    },
                    (None, Some(place)) => " tcache_candidate=size["@ + place.chunk_size@
                        + "] index="@ + text::dec(place.index as nat),
                    (None, None) => Seq::empty(),
                }),
            )
            &&& record->HeapLayout_chunks_omitted > 0 ==> shows_line(
                s,
                "    ... "@ + text::dec(record->HeapLayout_chunks_omitted as nat)
                    + " more chunks not shown"@,
            )
            &&& record->HeapLayout_truncated ==> ends_with_line(s, "    ... heap walk truncated"@)
            &&& max_chunks == 0 ==> shows_line(s, "    0 chunks shown"@)
        }),
{
    let x = record->HeapLayout_chunks@;
    let lines = print_text::layout_printed(
        x,
        record->HeapLayout_truncated,
        record->HeapLayout_chunks_omitted,
        max_chunks,
    );
    let first: int = if max_chunks == 0 { 2 } else { 1 };
    text::lemma_shows_lines(lines);
    text::lemma_text_ends(lines);
    assert(lines[first + i] == print_text::layout_line(x[i]));
    if record->HeapLayout_chunks_omitted > 0 {
        assert(lines[first + x.len()] == "    ... "@ + text::dec(
            record->HeapLayout_chunks_omitted as nat,
        ) + " more chunks not shown"@);
    }
    if max_chunks == 0 {
        assert(lines[1] == "    0 chunks shown"@);
    }
}

/// A printed heap scan has a line for every finding.
pub proof fn law_printed_findings(record: JsonTraceRecord, max_chunks: usize, i: int)
    requires
        record is HeapScan,
        0 <= i < record->HeapScan_report.findings@.len(),
    ensures
        ({
            let s = print_text::printed(record, max_chunks);
            let x = record->HeapScan_report.findings@[i];
            &&& begins_with_line(s, "heap scan:"@)
            &&& shows_line(s, "heap scan findings:"@)
            &&& shows_line(
                s,
                "    ["@ + x.severity@ + "] "@ + x.kind@ + (match x.chunk_addr {
                    Some(a) => " chunk="@ + a@,
                    None => Seq::empty(),
                }) + (match x.user_addr {
                    Some(a) => " user="@ + a@,
                    None => Seq::empty(),
                }) + ": "@ + x.message@,
            )
        }),
{
    let lines = print_text::scan_printed(record->HeapScan_report);
    text::lemma_shows_lines(lines);
    text::lemma_text_ends(lines);
    assert(lines[11] == "heap scan findings:"@);
    assert(lines[12 + i] == record_text::finding_line(record->HeapScan_report.findings@[i]));
}

/// Every other record of an event is printed as a replay that hides nothing shows it.
pub proof fn law_printed_as_replayed(record: JsonTraceRecord, max_chunks: usize)
    requires
        record !is HeapLayout && record !is Smallbins && record !is Largebins && record !is HeapScan,
        record !is SessionStart && record !is SessionEnd,
    ensures
        print_text::printed(record, max_chunks) == replay::record_text_of(
            record,
            (ReplayConfig { events_only: false, show_chunks: true, tui: false }),
        ),
{
}

/// The details of an event are its text, with the registers at it below where they were read.
pub proof fn law_details_carry_registers(app: AppView, config: ReplayConfig)
    requires
        app.control.selected_index < app.data.events.len(),
    ensures
        ({
            let record = app.data.events[app.control.selected_index as int];
            let s = live_text::event_details(app, config);
            match replay::record_event_id(record) {
                Some(id) => match live::stop_of_event(app.data.registers, id) {
                    Some(r) => s == replay::record_text_of(record, config)
                        + "\nregisters:\n    "@ + ("rip="@ + text::hex0x(
                        r.instruction_pointer as nat,
                    ) + " rsp="@ + text::hex0x(r.stack_pointer as nat) + " rbp="@ + text::hex0x(
                        r.frame_pointer as nat,
                    )),
                    None => s == replay::record_text_of(record, config),
                },
                None => s == replay::record_text_of(record, config),
            }
        }),
{
    let record = app.data.events[app.control.selected_index as int];
    assert(live_text::event_details(app, config) =~= replay::record_text_of(record, config) + (
    match replay::record_event_id(record) {
        Some(id) => match live::stop_of_event(app.data.registers, id) {
            Some(r) => "\nregisters:\n    "@ + r.summary(),
            None => Seq::empty(),
        },
        None => Seq::empty(),
    }));
}

/// Each register has its line in the registers pane: a star where it changed, its name in
/// capitals, its value, and the note on it.
pub proof fn law_registers_are_shown(app: AppView, k: int)
    requires
        app.data.registers.len() > 0,
        0 <= k < crate::registers::display_order(
            app.data.registers.last().value.registers@,
        ).len(),
    ensures
        ({
            let snapshot = app.data.registers.last().value;
            let name = crate::registers::display_order(snapshot.registers@)[k];
            let value = crate::registers::register_named(snapshot.registers@, name)->0.value;
            let lower = text::ascii_lower_text(name);
            let changed = crate::registers::snapshot_changes(
                live::previous(app.data.registers),
                snapshot,
            );
            let note = crate::classify::value_note(
                value,
                app.data.maps,
                app.data.layout(),
                app.chunk.user_addr,
                "selected chunk"@,
            );
            shows_line(
                live_text::registers_pane(app),
                (if changed.contains(lower) { "*"@ } else { " "@ }) + " "@ + text::pad_right(
                    crate::registers::display_name(lower),
                    ' ',
                    7,
                ) + " "@ + crate::registers::fixed_hex(value) + (match note {
                    Some(n) => " ; "@ + n,
                    None => Seq::empty(),
                }),
            )
        }),
{
    let snapshot = app.data.registers.last().value;
    let lines = live_text::register_pane_lines(
        snapshot,
        crate::registers::snapshot_changes(live::previous(app.data.registers), snapshot),
        app.data.maps,
        app.data.layout(),
        app.chunk.user_addr,
    );
    text::lemma_shows_lines(lines);
    assert(shows_line(text::unlines(lines), lines[k]));
}

/// The allocator pane shows the latest summary and the latest heap scan, or says how to get them,
/// and the latest changes and warnings in between where there are any.
pub proof fn law_allocator_pane(app: AppView)
    ensures
        ({
            let lines = live_text::allocator_pane_lines(app.data);
            let summary = live::latest_record_of(app.data.related, LatestKind::AllocatorSummary);
            let delta = live::latest_record_of(app.data.related, LatestKind::AllocatorDelta);
            let warnings = live::latest_record_of(app.data.related, LatestKind::AllocatorWarnings);
            let scan = live::latest_record_of(app.data.related, LatestKind::HeapScan);
            &&& lines.len() == 2 + (if delta is Some { 1int } else { 0 }) + (
            if warnings is Some { 1int } else { 0 })
            &&& summary is Some ==> lines[0] == live_text::summary_compact(summary->0)
            &&& summary is None ==> lines[0]
                == "allocator summary unavailable; enable --allocator-views basic/full"@
            &&& delta is Some ==> lines[1] == live_text::delta_compact(delta->0)
            &&& warnings is Some ==> lines[lines.len() - 2] == live_text::warnings_compact(
                warnings->0,
            )
            &&& scan is Some ==> lines.last() == live_text::scan_compact(scan->0)
            &&& scan is None ==> lines.last()
                == "heap scan unavailable; enable --heap-scan or --allocator-views basic/full"@
        }),
{
}

/// The changes of a delta are shown in one line, in the order of the counts.
pub proof fn law_compact_changes(record: JsonTraceRecord)
    requires
        record is AllocatorSourceDelta,
    ensures
        live_text::delta_compact(record) == "delta: tc="@ + record_text::source_delta_text(
            record->AllocatorSourceDelta_tcache_candidate_chunks_delta as int,
        ) + " fb="@ + record_text::source_delta_text(
            record->AllocatorSourceDelta_fastbin_chunks_delta as int,
        ) + " ub="@ + record_text::source_delta_text(
            record->AllocatorSourceDelta_unsorted_chunks_delta as int,
        ) + " sb="@ + record_text::source_delta_text(
            record->AllocatorSourceDelta_smallbin_chunks_delta as int,
        ) + " lb="@ + record_text::source_delta_text(
            record->AllocatorSourceDelta_largebin_chunks_delta as int,
        ) + " total="@ + record_text::source_delta_text(
            record->AllocatorSourceDelta_total_free_list_chunks_delta as int,
        ) + " warn="@ + record_text::source_delta_text(
            record->AllocatorSourceDelta_warning_count_delta as int,
        ),
{
}

proof fn lemma_findings_compact(
    findings: Seq<crate::record::JsonHeapScanFinding>,
    n: nat,
    i: int,
)
    requires
        0 <= i < n <= findings.len(),
    ensures
        live_text::findings_compact(findings, n).contains(
            findings[i].severity@ + " "@ + findings[i].kind@ + ": "@ + findings[i].message@,
        ),
    decreases n,
{
    let line = findings[i].severity@ + " "@ + findings[i].kind@ + ": "@ + findings[i].message@;
    let before = live_text::findings_compact(findings, (n - 1) as nat);
    let all = live_text::findings_compact(findings, n);
    if i == n - 1 {
        assert(all[before.len() as int] == line);
    } else {
        lemma_findings_compact(findings, (n - 1) as nat, i);
        let k = before.index_of(line);
        assert(all[k] == line);
    }
}

/// A heap scan in the allocator pane gives its outcome and its counts, the first three findings,
/// and the number of those left out.
pub proof fn law_compact_scan(record: JsonTraceRecord, i: int)
    requires
        record is HeapScan,
    ensures
        ({
            let s = live_text::scan_compact(record);
            let x = record->HeapScan_report;
            let count = x.findings@.len();
            &&& begins_with_line(
                s,
                "event #"@ + text::dec(record->HeapScan_event_id as nat) + " heap scan: status="@
                    + x.status@ + " chunks="@ + text::dec(x.chunks_walked as nat) + " suspicious="@
                    + text::dec(x.suspicious_count as nat),
            )
            &&& 0 <= i < count && i < 3 ==> shows_line(
                s,
                x.findings@[i].severity@ + " "@ + x.findings@[i].kind@ + ": "@
                    + x.findings@[i].message@,
            )
            &&& count > 3 ==> ends_with_line(
                s,
                "... "@ + text::dec((count - 3) as nat) + " more findings"@,
            )
        }),
{
    let x = record->HeapScan_report;
    let count = x.findings@.len();
    let n: nat = if count <= 3 { count } else { 3 };
    let lines = live_text::scan_compact_lines(record->HeapScan_event_id, x);
    text::lemma_shows_lines(lines);
    text::lemma_text_ends(lines);
    if 0 <= i < count && i < 3 {
        let line = x.findings@[i].severity@ + " "@ + x.findings@[i].kind@ + ": "@
            + x.findings@[i].message@;
        lemma_findings_compact(x.findings@, n, i);
        let k = live_text::findings_compact(x.findings@, n).index_of(line);
        assert(lines[1 + k] == line);
    }
}

/// What belongs to an event is shown under the label of each record.
pub proof fn law_related_records_are_headed(
    records: Seq<JsonTraceRecord>,
    record: JsonTraceRecord,
    config: ReplayConfig,
)
    ensures
        ({
            let body = replay::record_text_of(record, config);
            live_text::headed_texts(records.push(record), config) == live_text::headed_texts(
                records,
                config,
            ) + (if record is Event || body.len() == 0 {
                Seq::empty()
            } else {
                seq!["== "@ + replay::record_label(record) + " ==\n"@ + body]
            })
        }),
        live_text::headed_texts(Seq::empty(), config).len() == 0,
{
    assert(records.push(record).drop_last() =~= records);
    let body = replay::record_text_of(record, config);
    assert(live_text::headed_texts(records.push(record), config) =~= live_text::headed_texts(
        records,
        config,
    ) + (if record is Event || body.len() == 0 {
        Seq::empty()
    } else {
        seq!["== "@ + replay::record_label(record) + " ==\n"@ + body]
    }));
}

/// The rows of the trace pane are the events from the first one in view on, one row each.
pub proof fn law_trace_rows(data: live::DataView, from: int, to: int, event: JsonHeapEvent)
    requires
        0 <= from <= to < data.events.len(),
        data.events[to] == (JsonTraceRecord::Event { event }),
    ensures
        live_text::trace_rows(data, from, to + 1) == live_text::trace_rows(data, from, to).push(
            replay::timeline_summary(
                event,
                live_text::live_state(data, replay::event_id_of(event)),
            ),
        ),
        live_text::trace_rows(data, from, from).len() == 0,
{
}

/// The panes of the replay screen show the timeline, the selected event and what belongs to it,
/// in this order and in their own areas.
pub proof fn law_replay_screen(
    painted: Seq<screen::Painted>,
    session: replay::ReplaySession,
    state: replay::ReplayTuiState,
    config: ReplayConfig,
    areas: screen::ReplayAreas,
)
    requires
        screen::is_replay_screen(painted, session, state, config, areas),
    ensures
        painted.len() == 3,
        painted[0] is Rows && painted[0]->Rows_area == areas.timeline,
        painted[1] is Text && painted[1]->Text_area == areas.details
            && painted[1]->Text_pane.body@ == replay::details_text(
            session,
            state.selected_event_index as int,
            config,
        ) && painted[1]->Text_pane.offset == state.scroll_details,
        painted[2] is Text && painted[2]->Text_area == areas.related
            && painted[2]->Text_pane.body@ == replay::related_panel_text(
            session,
            session.record_at(state.selected_event_index as int),
            config,
        ),
{
}

/// The live screen has the registers, the code, the trace and the console in the left column, the
/// tabs in the right one, and below them the active tab, which for the heap has three parts.
pub proof fn law_live_screen(
    painted: Seq<screen::Painted>,
    app: AppView,
    config: ReplayConfig,
    areas: screen::LiveAreas,
)
    requires
        screen::is_live_screen(painted, app, config, areas),
    ensures
        painted.len() == (if app.panes.active_right_tab == LiveRightTab::Heap { 8int } else { 6 }),
        painted[0] is Text && painted[0]->Text_area == areas.registers
            && painted[0]->Text_pane.body@ == live_text::registers_pane(app),
        painted[1] is Text && painted[1]->Text_area == areas.code && painted[1]->Text_pane.body@
            == live_text::code_pane(app.data),
        painted[2] is Rows && painted[2]->Rows_area == areas.trace,
        painted[3] is Text && painted[3]->Text_area == areas.console,
        painted[4] is Text && painted[4]->Text_area == areas.tabs && painted[4]->Text_pane.body@
            == panes::tab_row(app.panes.active_right_tab),
        painted[5] is Text && painted[5]->Text_area == (if app.panes.active_right_tab
            == LiveRightTab::Heap {
            areas.heap_upper
        } else {
            areas.tab
        }),
        app.panes.active_right_tab == LiveRightTab::Heap ==> painted[5]->Text_pane.body@
            == live_text::heap_layout_pane(app, usize::MAX) && painted[6] is Text
            && painted[6]->Text_area == areas.heap_middle && painted[7] is Text
            && painted[7]->Text_area == areas.heap_lower,
        app.panes.active_right_tab == LiveRightTab::Stack ==> painted[5]->Text_pane.body@
            == live_text::stack_tab(app.data),
        app.panes.active_right_tab == LiveRightTab::Logs ==> painted[5]->Text_pane.body@
            == live_text::logs_pane(app.logs),
        app.panes.active_right_tab == LiveRightTab::Maps ==> painted[5]->Text_pane.body@
            == live_text::maps_tab(app.data),
{
}

/// A pane that is scrolled within its text begins with the line that it is scrolled to; past the
/// end it shows the last full page.
pub proof fn law_first_line_in_view(body: Seq<char>, scroll: usize, height: usize)
    ensures
        ({
            let lines = panes::line_count_of(body);
            let first = screen::first_line(body, scroll, height);
            &&& height == 0 || lines <= height ==> first == 0
            &&& 0 < height < lines && scroll + height <= lines && scroll <= u16::MAX ==> first
                == scroll
            &&& 0 < height < lines && scroll + height > lines && lines - height <= u16::MAX
                ==> first == lines - height
        }),
{
}

} // verus!
