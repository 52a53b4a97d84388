//! What a replay finds in a trace, what it prints of it, and how it is steered.

use crate::keys::KeyCode;
use crate::record::{JsonHeapEvent, JsonTraceRecord};
use crate::replay;
use crate::replay::{ReplayEventAllocatorDelta, ReplayEventAllocatorState, ReplaySession};
use crate::replay_text::ReplayConfig;
use crate::record_text;
use crate::text;
use crate::text::{shows, shows_line};
use vstd::prelude::*;

verus! {

// ---------------------------------------------------------------------------
// Records
// ---------------------------------------------------------------------------

/// Every record but the two of the session itself belongs to an event, by the number that it
/// carries.
pub proof fn law_records_belong_to_their_event(record: JsonTraceRecord)
    ensures
        replay::record_event_id(record) == (match record {
            JsonTraceRecord::SessionStart { .. } | JsonTraceRecord::SessionEnd { .. } => None,
            JsonTraceRecord::Event { event: JsonHeapEvent::Malloc { event_id, .. } }
            | JsonTraceRecord::Event { event: JsonHeapEvent::Free { event_id, .. } }
            | JsonTraceRecord::Event { event: JsonHeapEvent::Calloc { event_id, .. } }
            | JsonTraceRecord::Event { event: JsonHeapEvent::Realloc { event_id, .. } }
            | JsonTraceRecord::HeapLayout { event_id, .. }
            | JsonTraceRecord::ObservedTcacheChains { event_id, .. }
            | JsonTraceRecord::TcacheStructCandidate { event_id, .. }
            | JsonTraceRecord::MainArenaCandidate { event_id, .. }
            | JsonTraceRecord::MainArenaExperiment { event_id, .. }
            | JsonTraceRecord::MainArenaTopCandidate { event_id, .. }
            | JsonTraceRecord::MainArenaView { event_id, .. }
            | JsonTraceRecord::FastbinExperiment { event_id, .. }
            | JsonTraceRecord::UnsortedBinExperiment { event_id, .. }
            | JsonTraceRecord::BinExperiment { event_id, .. }
            | JsonTraceRecord::UnsortedBin { event_id, .. }
            | JsonTraceRecord::UnsortedBinValidation { event_id, .. }
            | JsonTraceRecord::Fastbins { event_id, .. }
            | JsonTraceRecord::RegularBins { event_id, .. }
            | JsonTraceRecord::Smallbins { event_id, .. }
            | JsonTraceRecord::SmallbinValidation { event_id, .. }
            | JsonTraceRecord::Largebins { event_id, .. }
            | JsonTraceRecord::LargebinValidation { event_id, .. }
            | JsonTraceRecord::FastbinValidation { event_id, .. }
            | JsonTraceRecord::TcacheComparison { event_id, .. }
            | JsonTraceRecord::TcacheValidation { event_id, .. }
            | JsonTraceRecord::AllocatorWarnings { event_id, .. }
            | JsonTraceRecord::AllocatorSourceSummary { event_id, .. }
            | JsonTraceRecord::AllocatorSourceDelta { event_id, .. }
            | JsonTraceRecord::HeapScan { event_id, .. } => Some(event_id),
        }),
{
}

/// The session records that a trace is taken to begin and end with are the last of their kind.
pub proof fn law_last_session_records_count(records: Seq<JsonTraceRecord>, n: nat)
    requires
        n <= records.len() <= usize::MAX,
    ensures
        match replay::last_start(records, n) {
            Some(i) => i < n && records[i as int] is SessionStart && forall|k: int|
                i < k < n ==> (#[trigger] records[k]) !is SessionStart,
            None => forall|k: int| 0 <= k < n ==> (#[trigger] records[k]) !is SessionStart,
        },
        match replay::last_end(records, n) {
            Some(i) => i < n && records[i as int] is SessionEnd && forall|k: int|
                i < k < n ==> (#[trigger] records[k]) !is SessionEnd,
            None => forall|k: int| 0 <= k < n ==> (#[trigger] records[k]) !is SessionEnd,
        },
    decreases n,
{
    if n > 0 {
        law_last_session_records_count(records, (n - 1) as nat);
    }
}

/// The counts of an event are those of the last summary that carries its number, each in the
/// field of its own name.
pub proof fn law_last_summary_counts(records: Seq<JsonTraceRecord>, n: nat, k: int)
    requires
        0 <= k < n <= records.len(),
        records[k] is AllocatorSourceSummary,
        forall|j: int|
            k < j < n ==> !((#[trigger] records[j]) is AllocatorSourceSummary
                && records[j]->AllocatorSourceSummary_event_id
                == records[k]->AllocatorSourceSummary_event_id),
    ensures
        ({
            let id = records[k]->AllocatorSourceSummary_event_id;
            let all = replay::states_by_event(records, n);
            &&& all.contains_key(id)
            &&& all[id] == (ReplayEventAllocatorState {
                event_id: id,
                tcache_candidate_chunks: records[k]->AllocatorSourceSummary_tcache_candidate_chunks,
                fastbin_chunks: records[k]->AllocatorSourceSummary_fastbin_chunks,
                unsorted_chunks: records[k]->AllocatorSourceSummary_unsorted_chunks,
                smallbin_chunks: records[k]->AllocatorSourceSummary_smallbin_chunks,
                largebin_chunks: records[k]->AllocatorSourceSummary_largebin_chunks,
                total_free_list_chunks: records[k]->AllocatorSourceSummary_total_free_list_chunks,
                warning_count: records[k]->AllocatorSourceSummary_warning_count,
            })
        }),
    decreases n,
{
    if k < n - 1 {
        law_last_summary_counts(records, (n - 1) as nat, k);
        assert(!(records[n - 1] is AllocatorSourceSummary
            && records[n - 1]->AllocatorSourceSummary_event_id
            == records[k]->AllocatorSourceSummary_event_id));
    }
}

/// The changes at an event are those of the last such record that carries its number.
pub proof fn law_last_delta_counts(records: Seq<JsonTraceRecord>, n: nat, k: int)
    requires
        0 <= k < n <= records.len(),
        records[k] is AllocatorSourceDelta,
        forall|j: int|
            k < j < n ==> !((#[trigger] records[j]) is AllocatorSourceDelta
                && records[j]->AllocatorSourceDelta_event_id
                == records[k]->AllocatorSourceDelta_event_id),
    ensures
        ({
            let id = records[k]->AllocatorSourceDelta_event_id;
            let all = replay::deltas_by_event(records, n);
            &&& all.contains_key(id)
            &&& all[id] == (ReplayEventAllocatorDelta {
                event_id: id,
                tcache_candidate_chunks_delta:
                    records[k]->AllocatorSourceDelta_tcache_candidate_chunks_delta,
                fastbin_chunks_delta: records[k]->AllocatorSourceDelta_fastbin_chunks_delta,
                unsorted_chunks_delta: records[k]->AllocatorSourceDelta_unsorted_chunks_delta,
                smallbin_chunks_delta: records[k]->AllocatorSourceDelta_smallbin_chunks_delta,
                largebin_chunks_delta: records[k]->AllocatorSourceDelta_largebin_chunks_delta,
                total_free_list_chunks_delta:
                    records[k]->AllocatorSourceDelta_total_free_list_chunks_delta,
                warning_count_delta: records[k]->AllocatorSourceDelta_warning_count_delta,
            })
        }),
    decreases n,
{
    if k < n - 1 {
        law_last_delta_counts(records, (n - 1) as nat, k);
        assert(!(records[n - 1] is AllocatorSourceDelta
            && records[n - 1]->AllocatorSourceDelta_event_id
            == records[k]->AllocatorSourceDelta_event_id));
    }
}

// ---------------------------------------------------------------------------
// What is printed
// ---------------------------------------------------------------------------

/// The body of a replay prints its records one after the other: each that has a text once, in
/// the order of the trace, and the two of the session not at all.
pub proof fn law_body_prints_each_record(
    before: Seq<JsonTraceRecord>,
    record: JsonTraceRecord,
    after: Seq<JsonTraceRecord>,
    config: ReplayConfig,
)
    ensures
        replay::body_texts(before + seq![record] + after, config) == replay::body_texts(
            before,
            config,
        ) + (if record is SessionStart || record is SessionEnd || replay::record_text_of(
            record,
            config,
        ).len() == 0 {
            Seq::empty()
        } else {
            seq![replay::record_text_of(record, config)]
        }) + replay::body_texts(after, config),
    decreases after.len(),
{
    let all = before + seq![record] + after;
    let own = if record is SessionStart || record is SessionEnd || replay::record_text_of(
        record,
        config,
    ).len() == 0 {
        Seq::empty()
    } else {
        seq![replay::record_text_of(record, config)]
    };
    let head = replay::body_texts(before, config);
    if after.len() == 0 {
        assert(all.drop_last() =~= before);
        assert(replay::body_texts(all, config) =~= head + own + replay::body_texts(after, config));
    } else {
        law_body_prints_each_record(before, record, after.drop_last(), config);
        assert(all.drop_last() =~= before + seq![record] + after.drop_last());
        assert(all.last() == after.last());
        assert(replay::body_texts(all, config) =~= head + own + replay::body_texts(after, config));
    }
}

/// A replay prints the session's data first and its end last, around the body.
pub proof fn law_session_frames_the_replay(session: ReplaySession, config: ReplayConfig)
    requires
        session.session_start is Some,
        session.session_start->0 < session.records@.len(),
        session.session_end is Some,
        session.session_end->0 < session.records@.len(),
        replay::record_text_of(
            session.records@[session.session_start->0 as int],
            config,
        ).len() > 0,
        replay::record_text_of(session.records@[session.session_end->0 as int], config).len() > 0,
    ensures
        ({
            let all = replay::printed_texts(session, config);
            let body = replay::body_texts(session.records@, config);
            &&& all.len() == body.len() + 2
            &&& all[0] == replay::record_text_of(
                session.records@[session.session_start->0 as int],
                config,
            )
            &&& all.last() == replay::record_text_of(
                session.records@[session.session_end->0 as int],
                config,
            )
            &&& all.subrange(1, all.len() - 1) == body
        }),
{
    let all = replay::printed_texts(session, config);
    assert(all.subrange(1, all.len() - 1) =~= replay::body_texts(session.records@, config));
}

/// What belongs to an event is its records that are no events and have a text, each once and in
/// the order of the trace.
pub proof fn law_related_texts_are_complete(
    before: Seq<JsonTraceRecord>,
    record: JsonTraceRecord,
    after: Seq<JsonTraceRecord>,
    config: ReplayConfig,
)
    ensures
        replay::related_texts(before + seq![record] + after, config) == replay::related_texts(
            before,
            config,
        ) + (if record is Event || replay::record_text_of(record, config).len() == 0 {
            Seq::empty()
        } else {
            seq![replay::record_text_of(record, config)]
        }) + replay::related_texts(after, config),
    decreases after.len(),
{
    let all = before + seq![record] + after;
    let own = if record is Event || replay::record_text_of(record, config).len() == 0 {
        Seq::empty()
    } else {
        seq![replay::record_text_of(record, config)]
    };
    let head = replay::related_texts(before, config);
    if after.len() == 0 {
        assert(all.drop_last() =~= before);
        assert(replay::related_texts(all, config) =~= head + own + replay::related_texts(
            after,
            config,
        ));
    } else {
        law_related_texts_are_complete(before, record, after.drop_last(), config);
        assert(all.drop_last() =~= before + seq![record] + after.drop_last());
        assert(all.last() == after.last());
        assert(replay::related_texts(all, config) =~= head + own + replay::related_texts(
            after,
            config,
        ));
    }
}

/// The panel beside the timeline shows what belongs to the selected event, or says that there is
/// nothing.
pub proof fn law_related_panel(
    session: ReplaySession,
    record: JsonTraceRecord,
    id: usize,
    config: ReplayConfig,
)
    requires
        replay::record_event_id(record) == Some(id),
    ensures
        ({
            let shown = replay::related_panel_text(session, Some(record), config);
            let related = replay::related_text(session.records@, id, config);
            &&& related.len() > 0 ==> shown == related
            &&& related.len() == 0 ==> shown == "no related records"@
        }),
        replay::related_panel_text(session, None, config) == "no related records"@,
{
}

/// The end of a session tells the exit status and the number of events.
pub proof fn law_session_end_is_told(record: JsonTraceRecord, config: ReplayConfig)
    requires
        record is SessionEnd,
    ensures
        replay::record_text_of(record, config) == "session end:\n    exit_status: "@
            + record->SessionEnd_exit_status@ + "\n    event_count: "@ + text::dec(
            record->SessionEnd_event_count as nat,
        ),
{
}

/// The beginning of a session tells its program, its mode and the libc it runs with, or that the
/// libc is not known, whatever else is asked for.
pub proof fn law_session_start_is_told(record: JsonTraceRecord, config: ReplayConfig)
    requires
        record is SessionStart,
    ensures
        ({
            let s = replay::record_text_of(record, config);
            let unknown = "unknown"@;
            let libc = record->SessionStart_libc;
            shows(
                s,
                seq![
                    "session:"@,
                    "    program: "@ + record->SessionStart_program@,
                    "    mode: "@ + record->SessionStart_trace_mode@,
                    "    heapify: "@ + record->SessionStart_heapify_version@,
                    "    libc: "@ + (if libc is Some && libc->0.path is Some {
                        libc->0.path->0@
                    } else {
                        unknown
                    }),
                    "    glibc version: "@ + (if libc is Some && libc->0.version is Some {
                        libc->0.version->0@
                    } else {
                        unknown
                    }),
                    "    glibc profile: "@ + (if record->SessionStart_glibc_profile@.len() > 0 {
                        record->SessionStart_glibc_profile@
                    } else {
                        unknown
                    }),
                ],
            )
        }),
{
    let lines = session_lines(record, config);
    let libc = record->SessionStart_libc;
    let own = record_text::session_head_lines(
        record->SessionStart_heapify_version@,
        record->SessionStart_program@,
        record->SessionStart_trace_mode@,
        record->SessionStart_glibc_profile@,
        libc,
    );
    text::lemma_shows_at(lines, 0, own);
    assert(own =~= seq![
        "session:"@,
        "    program: "@ + record->SessionStart_program@,
        "    mode: "@ + record->SessionStart_trace_mode@,
        "    heapify: "@ + record->SessionStart_heapify_version@,
        "    libc: "@ + (if libc is Some && libc->0.path is Some {
            libc->0.path->0@
        } else {
            "unknown"@
        }),
        "    glibc version: "@ + (if libc is Some && libc->0.version is Some {
            libc->0.version->0@
        } else {
            "unknown"@
        }),
        "    glibc profile: "@ + (if record->SessionStart_glibc_profile@.len() > 0 {
            record->SessionStart_glibc_profile@
        } else {
            "unknown"@
        }),
    ]);
}

/// The lines of a session's first record.
spec fn session_lines(record: JsonTraceRecord, config: ReplayConfig) -> Seq<Seq<char>> {
    record_text::session_start_lines(
        record->SessionStart_heapify_version@,
        record->SessionStart_program@,
        record->SessionStart_trace_mode@,
        record->SessionStart_glibc_profile@,
        record->SessionStart_suggested_glibc_profile,
        record->SessionStart_glibc_profile_selection,
        record->SessionStart_libc,
        record->SessionStart_launch,
        record->SessionStart_allocator_views_preset@,
        record->SessionStart_features,
        !config.events_only,
    )
}

/// A libc that was supplied is told, with a warning where another one was loaded.
pub proof fn law_supplied_libc_is_told(record: JsonTraceRecord, config: ReplayConfig)
    requires
        record is SessionStart,
        record->SessionStart_libc is Some,
    ensures
        ({
            let s = replay::record_text_of(record, config);
            let libc = record->SessionStart_libc->0;
            &&& libc.supplied_path is Some ==> shows_line(
                s,
                "    supplied libc: "@ + libc.supplied_path->0@,
            )
            &&& libc.paths_match == Some(false) ==> shows_line(
                s,
                "    warning: supplied libc differs from loaded libc; symbol offsets may be wrong"@,
            )
        }),
{
    let lines = session_lines(record, config);
    let libc = record->SessionStart_libc->0;
    text::lemma_shows_lines(lines);
    if libc.supplied_path is Some {
        assert(lines[7] == "    supplied libc: "@ + libc.supplied_path->0@);
    }
    if libc.paths_match == Some(false) {
        let at: int = if libc.supplied_path is Some { 8 } else { 7 };
        assert(lines[at]
            == "    warning: supplied libc differs from loaded libc; symbol offsets may be wrong"@);
    }
}

/// How a target was started is told line by line: the mode, and each of working directory,
/// loader, library path and preloaded library that was given.
pub proof fn law_launch_is_told(record: JsonTraceRecord, config: ReplayConfig)
    requires
        record is SessionStart,
        record->SessionStart_launch is Some,
    ensures
        ({
            let s = replay::record_text_of(record, config);
            let launch = record->SessionStart_launch->0;
            &&& shows_line(s, "    launch mode: "@ + launch.mode@)
            &&& launch.cwd is Some ==> shows_line(s, "    cwd: "@ + launch.cwd->0@)
            &&& launch.loader is Some ==> shows_line(s, "    loader: "@ + launch.loader->0@)
            &&& launch.library_path is Some ==> shows_line(
                s,
                "    library path: "@ + launch.library_path->0@,
            )
            &&& launch.preload is Some ==> shows_line(s, "    preload: "@ + launch.preload->0@)
            &&& launch.stdin.kind@ == "file"@ && launch.stdin.path is Some ==> shows_line(
                s,
                "    stdin: file "@ + launch.stdin.path->0@,
            )
        }),
{
    let lines = session_lines(record, config);
    let launch = record->SessionStart_launch->0;
    let own = record_text::launch_lines(record->SessionStart_launch);
    let at = (7 + record_text::supplied_libc_lines(record->SessionStart_libc).len()) as int;
    text::lemma_shows_lines(lines);
    assert(lines.subrange(at, at + own.len()) =~= own);
    assert forall|k: int| 0 <= k < own.len() implies lines[at + k] == #[trigger] own[k] by {
        assert(lines.subrange(at, at + own.len())[k] == lines[at + k]);
    }
    let a: int = 1;
    let b = a + (if launch.cwd is Some { 1int } else { 0 });
    let c = b + (if launch.loader is Some { 1int } else { 0 });
    let d = c + (if launch.library_path is Some { 1int } else { 0 });
    let e = d + (if launch.preload is Some { 1int } else { 0 });
    assert(own[0] == "    launch mode: "@ + launch.mode@);
    assert(lines[at] == own[0]);
    if launch.cwd is Some {
        assert(own[a] == "    cwd: "@ + launch.cwd->0@);
        assert(lines[at + a] == own[a]);
    }
    if launch.loader is Some {
        assert(own[b] == "    loader: "@ + launch.loader->0@);
        assert(lines[at + b] == own[b]);
    }
    if launch.library_path is Some {
        assert(own[c] == "    library path: "@ + launch.library_path->0@);
        assert(lines[at + c] == own[c]);
    }
    if launch.preload is Some {
        assert(own[d] == "    preload: "@ + launch.preload->0@);
        assert(lines[at + d] == own[d]);
    }
    if launch.stdin.kind@ == "file"@ && launch.stdin.path is Some {
        reveal_strlit("file");
        reveal_strlit("inherit");
        assert("file"@.len() == 4);
        assert("inherit"@.len() == 7);
        assert(own[e] == "    stdin: file "@ + launch.stdin.path->0@);
        assert(lines[at + e] == own[e]);
    }
}

/// A session tells its views last: the names of those that are on, or that none is.
pub proof fn law_features_are_told(record: JsonTraceRecord, config: ReplayConfig)
    requires
        record is SessionStart,
    ensures
        ({
            let s = replay::record_text_of(record, config);
            let f = record->SessionStart_features;
            &&& !f.layout && !f.tcache_candidates && !f.tcache_struct && !f.libc_symbols
                ==> text::ends_with_line(s, "    features: "@ + "none"@)
            &&& f.layout && !f.tcache_candidates && !f.tcache_struct && !f.libc_symbols
                ==> text::ends_with_line(s, "    features: "@ + "layout"@)
            &&& !f.layout && f.tcache_candidates && !f.tcache_struct && !f.libc_symbols
                ==> text::ends_with_line(s, "    features: "@ + "tcache_candidates"@)
            &&& !f.layout && !f.tcache_candidates && f.tcache_struct && !f.libc_symbols
                ==> text::ends_with_line(s, "    features: "@ + "tcache_struct"@)
            &&& !f.layout && !f.tcache_candidates && !f.tcache_struct && f.libc_symbols
                ==> text::ends_with_line(s, "    features: "@ + "libc_symbols"@)
            &&& f.layout && f.tcache_candidates && f.tcache_struct && f.libc_symbols
                ==> text::ends_with_line(
                s,
                "    features: "@ + ("layout"@ + ","@ + "tcache_candidates"@ + ","@
                    + "tcache_struct"@ + ","@ + "libc_symbols"@),
            )
            &&& record->SessionStart_allocator_views_preset@ != "none"@ ==> shows_line(
                s,
                "    allocator views preset: "@ + record->SessionStart_allocator_views_preset@,
            )
        }),
{
    let lines = session_lines(record, config);
    let f = record->SessionStart_features;
    text::lemma_text_ends(lines);
    text::lemma_shows_lines(lines);
    let names = record_text::feature_names(f);
    reveal_with_fuel(text::join, 5);
    if f.layout && f.tcache_candidates && f.tcache_struct && f.libc_symbols {
        assert(names =~= seq![
            "layout"@,
            "tcache_candidates"@,
            "tcache_struct"@,
            "libc_symbols"@,
        ]);
        assert(names.drop_last() =~= seq!["layout"@, "tcache_candidates"@, "tcache_struct"@]);
        assert(names.drop_last().drop_last() =~= seq!["layout"@, "tcache_candidates"@]);
        assert(names.drop_last().drop_last().drop_last() =~= seq!["layout"@]);
    }
    if record->SessionStart_allocator_views_preset@ != "none"@ {
        assert(lines[lines.len() - 2] == "    allocator views preset: "@
            + record->SessionStart_allocator_views_preset@);
    }
}

// ---------------------------------------------------------------------------
// Timeline
// ---------------------------------------------------------------------------

/// A row of the timeline is the call of its event and, behind it, the counts at it where they
/// are known.
pub proof fn law_timeline_rows_carry_counts(
    event: JsonHeapEvent,
    state: ReplayEventAllocatorState,
)
    ensures
        replay::timeline_summary(event, None) == crate::replay_text::event_summary(event),
        replay::timeline_summary(event, Some(state)) == crate::replay_text::event_summary(event)
            + "    "@ + ("tc="@ + text::dec(state.tcache_candidate_chunks as nat) + " fb="@
            + text::dec(state.fastbin_chunks as nat) + " ub="@ + text::dec(
            state.unsorted_chunks as nat,
        ) + " sb="@ + text::dec(state.smallbin_chunks as nat) + " lb="@ + text::dec(
            state.largebin_chunks as nat,
        ) + " warn="@ + text::dec(state.warning_count as nat)),
{
}

/// The keys of the timeline move the selection by one or by ten events, or to an end, and no
/// further than the ends; every other key leaves it.
pub proof fn law_timeline_keys(key: KeyCode, selected: int, count: int)
    requires
        0 <= selected,
        0 <= count,
    ensures
        ({
            let next = replay::moved_selection(key, selected, count);
            let last = if count > 0 { count - 1 } else { 0 };
            &&& key == KeyCode::Down || key == KeyCode::Char('j') ==> next == Some(
                if selected < last { selected + 1 } else { last },
            )
            &&& key == KeyCode::Up || key == KeyCode::Char('k') ==> next == Some(
                if selected > 0 { selected - 1 } else { 0 },
            )
            &&& key == KeyCode::PageDown ==> next == Some(
                if selected + 10 < last { selected + 10 } else { last },
            )
            &&& key == KeyCode::PageUp ==> next == Some(
                if selected > 10 { selected - 10 } else { 0 },
            )
            &&& key == KeyCode::Home ==> next == Some(0int)
            &&& key == KeyCode::End ==> next == Some(last)
            &&& next is Some <==> (key == KeyCode::Down || key == KeyCode::Char('j') || key
                == KeyCode::Up || key == KeyCode::Char('k') || key == KeyCode::PageDown || key
                == KeyCode::PageUp || key == KeyCode::Home || key == KeyCode::End)
        }),
{
}

/// The timeline starts at its first row while that keeps the selected one in view, and is full
/// to its last row where there are enough.
pub proof fn law_timeline_wastes_no_row(selected: int, visible: int, count: int)
    requires
        0 <= selected < count,
        0 < visible,
    ensures
        ({
            let first = replay::timeline_offset(selected, visible, count);
            &&& selected < visible ==> first == 0
            &&& count <= visible ==> first == 0
            &&& selected >= visible ==> first == selected - visible + 1
            &&& count >= visible ==> first + visible <= count
        }),
{
}

// ---------------------------------------------------------------------------
// Options
// ---------------------------------------------------------------------------

/// Words in front of the place where reading starts do not matter.
proof fn lemma_replay_args_at(words: Seq<Seq<char>>, i: int, config: ReplayConfig)
    requires
        1 <= i <= words.len(),
    ensures
        replay::replay_args(words, i, config) == replay::replay_args(words.skip(1), i - 1, config),
    decreases words.len() - i,
{
    if i < words.len() {
        assert(words.skip(1)[i - 1] == words[i]);
        if i + 1 < words.len() {
            assert(words.skip(1)[i] == words[i + 1]);
        }
        lemma_replay_args_at(words, i + 1, ReplayConfig { events_only: true, ..config });
        lemma_replay_args_at(words, i + 1, ReplayConfig { show_chunks: false, ..config });
        lemma_replay_args_at(words, i + 1, ReplayConfig { tui: true, ..config });
    }
}

/// Each option of a replay sets one thing and leaves the rest of the command line to be read as
/// it would be without it; one file ends the line.
pub proof fn law_replay_options(rest: Seq<Seq<char>>, file: Seq<char>, config: ReplayConfig)
    ensures
        replay::replay_args(seq!["--events-only"@] + rest, 0, config) == replay::replay_args(
            rest,
            0,
            ReplayConfig { events_only: true, ..config },
        ),
        replay::replay_args(seq!["--no-chunks"@] + rest, 0, config) == replay::replay_args(
            rest,
            0,
            ReplayConfig { show_chunks: false, ..config },
        ),
        replay::replay_args(seq!["--tui"@] + rest, 0, config) == replay::replay_args(
            rest,
            0,
            ReplayConfig { tui: true, ..config },
        ),
        replay::replay_args(Seq::empty(), 0, config) == Err::<(ReplayConfig, Seq<char>), Seq<char>>(
            "missing trace file"@,
        ),
        file.len() == 0 || file[0] != '-' ==> {
            &&& rest.len() == 0 ==> replay::replay_args(seq![file] + rest, 0, config) == Ok::<
                (ReplayConfig, Seq<char>),
                Seq<char>,
            >((config, file))
            &&& rest.len() > 0 ==> replay::replay_args(seq![file] + rest, 0, config) == Err::<
                (ReplayConfig, Seq<char>),
                Seq<char>,
            >("unexpected replay argument: "@ + rest[0])
        },
        file.len() > 0 && file[0] == '-' && file != "--events-only"@ && file != "--no-chunks"@
            && file != "--tui"@ ==> replay::replay_args(seq![file] + rest, 0, config) == Err::<
            (ReplayConfig, Seq<char>),
            Seq<char>,
        >("unknown replay option: "@ + file),
{
    reveal_strlit("--events-only");
    reveal_strlit("--no-chunks");
    reveal_strlit("--tui");
    assert("--events-only"@.len() == 13);
    assert("--no-chunks"@.len() == 11);
    assert("--tui"@.len() == 5);
    assert("--events-only"@[0] == '-');
    assert("--no-chunks"@[0] == '-');
    assert("--tui"@[0] == '-');
    let a = seq!["--events-only"@] + rest;
    let b = seq!["--no-chunks"@] + rest;
    let c = seq!["--tui"@] + rest;
    let d = seq![file] + rest;
    assert(a.skip(1) =~= rest);
    assert(b.skip(1) =~= rest);
    assert(c.skip(1) =~= rest);
    lemma_replay_args_at(a, 1, ReplayConfig { events_only: true, ..config });
    lemma_replay_args_at(b, 1, ReplayConfig { show_chunks: false, ..config });
    lemma_replay_args_at(c, 1, ReplayConfig { tui: true, ..config });
    assert(d[0] == file);
    if rest.len() > 0 {
        assert(d[1] == rest[0]);
    }
}

proof fn lemma_selection_is_shown(
    record: JsonTraceRecord,
    config: ReplayConfig,
    selection: crate::record::GlibcProfileSelection,
)
    requires
        record is SessionStart,
        !config.events_only,
        record->SessionStart_glibc_profile_selection == Some(selection),
    ensures
        ({
            let own = record_text::selection_lines(
                Some(selection),
                record->SessionStart_allocator_views_preset@,
            );
            forall|k: int|
                0 <= k < own.len() ==> shows_line(
                    replay::record_text_of(record, config),
                    #[trigger] own[k],
                )
        }),
{
    let lines = session_lines(record, config);
    let preset = record->SessionStart_allocator_views_preset@;
    let own = record_text::selection_lines(Some(selection), preset);
    let head = record_text::session_head_lines(
        record->SessionStart_heapify_version@,
        record->SessionStart_program@,
        record->SessionStart_trace_mode@,
        record->SessionStart_glibc_profile@,
        record->SessionStart_libc,
    );
    let before = head + record_text::supplied_libc_lines(record->SessionStart_libc)
        + record_text::launch_lines(record->SessionStart_launch) + text::opt_line(
        "    suggested glibc profile: "@,
        text::opt(record->SessionStart_suggested_glibc_profile),
    );
    let after = text::when(preset != "none"@, "    allocator views preset: "@ + preset) + seq![
        "    features: "@ + record_text::features_text(record->SessionStart_features),
    ];
    assert(lines =~= before + own + after);
    text::lemma_shows_lines(lines);
    assert forall|k: int| 0 <= k < own.len() implies shows_line(
        replay::record_text_of(record, config),
        #[trigger] own[k],
    ) by {
        assert(lines[before.len() + k] == own[k]);
    }
}

proof fn lemma_selection_lines(
    selection: crate::record::GlibcProfileSelection,
    preset: Seq<char>,
    k: int,
)
    requires
        0 <= k < selection.warnings@.len(),
    ensures
        ({
            let own = record_text::selection_lines(Some(selection), preset);
            let at = 5 + (if selection.detected_version is Some { 1int } else { 0 }) + (
            if selection.detected_libc_path is Some { 1int } else { 0 }) + (
            if selection.supplied_libc_path is Some { 1int } else { 0 });
            &&& at + k < own.len()
            &&& own[at + k] == "        warning: "@ + selection.warnings@[k]@
        }),
{
}

/// How a session came to its glibc profile is told unless only events are asked for: what was
/// requested and selected, what was detected, how sure that is and why, and every warning.
pub proof fn law_profile_selection_is_told(
    record: JsonTraceRecord,
    config: ReplayConfig,
    selection: crate::record::GlibcProfileSelection,
    k: int,
)
    requires
        record is SessionStart,
        !config.events_only,
        record->SessionStart_glibc_profile_selection == Some(selection),
    ensures
        ({
            let s = replay::record_text_of(record, config);
            &&& shows_line(s, "    glibc profile selection:"@)
            &&& shows_line(s, "        requested: "@ + selection.requested@)
            &&& shows_line(s, "        selected: "@ + selection.selected@)
            &&& selection.detected_version is Some ==> shows_line(
                s,
                "        detected version: "@ + selection.detected_version->0@,
            )
            &&& shows_line(
                s,
                "        confidence: "@ + (if selection.confidence is High {
                    "high"@
                } else if selection.confidence is Medium {
                    "medium"@
                } else {
                    "low"@
                }),
            )
            &&& shows_line(s, "        reason: "@ + selection.reason@)
            &&& 0 <= k < selection.warnings@.len() ==> shows_line(
                s,
                "        warning: "@ + selection.warnings@[k]@,
            )
        }),
{
    let own = record_text::selection_lines(
        Some(selection),
        record->SessionStart_allocator_views_preset@,
    );
    let at = 3 + (if selection.detected_version is Some { 1int } else { 0 }) + (
    if selection.detected_libc_path is Some { 1int } else { 0 }) + (
    if selection.supplied_libc_path is Some { 1int } else { 0 });
    lemma_selection_is_shown(record, config, selection);
    assert(own[0] == "    glibc profile selection:"@);
    assert(own[1] == "        requested: "@ + selection.requested@);
    assert(own[2] == "        selected: "@ + selection.selected@);
    if selection.detected_version is Some {
        assert(own[3] == "        detected version: "@ + selection.detected_version->0@);
    }
    assert(own[at] == "        confidence: "@ + record_text::confidence_word(
        selection.confidence,
    ));
    assert(own[at + 1] == "        reason: "@ + selection.reason@);
    if 0 <= k < selection.warnings@.len() {
        lemma_selection_lines(selection, record->SessionStart_allocator_views_preset@, k);
        assert(shows_line(replay::record_text_of(record, config), own[at + 2 + k]));
    }
}

/// What was done to the environment is told in counts, and nothing where nothing was done.
pub proof fn law_environment_is_told(launch: crate::record::JsonLaunchMetadata)
    ensures
        ({
            let lines = record_text::env_lines(launch);
            let touched = launch.clear_env || launch.set_env@.len() > 0 || launch.unset_env@.len()
                > 0;
            &&& !touched ==> lines.len() == 0
            &&& touched ==> lines.len() > 0 && lines[0] == "    env: clear="@ + (
            if launch.clear_env { "true"@ } else { "false"@ }) + " set="@ + text::dec(
                launch.set_env@.len(),
            ) + " unset="@ + text::dec(launch.unset_env@.len())
            &&& launch.set_env@.len() > 0 ==> lines[1] == "    env set: "@ + text::join(
                text::texts(launch.set_env@),
                ", "@,
            )
            &&& launch.unset_env@.len() > 0 ==> lines.last() == "    env unset: "@ + text::join(
                text::texts(launch.unset_env@),
                ", "@,
            )
        }),
{
}

} // verus!
