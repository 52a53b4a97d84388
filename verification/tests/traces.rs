//! Records, sessions and the views of a trace.

use heapify_cli::arena::{
    MainArenaFieldSource, MainArenaTopCandidate, MainArenaTopStatus, ObservedChunkState,
    RegularBinRole, ValidationStatus, ValidationValue, format_main_arena_field_source,
    format_main_arena_view_status, format_observed_state, format_validation_status,
    format_validation_value, main_arena_view_status_from_top_status, regular_bin_role_label,
};
use heapify_cli::args::parse_trace_heap_args;
use heapify_cli::breaks::{
    evaluate_allocator_break_conditions, suspicious_heap_scan_break_reason,
};
use heapify_cli::config::{
    AllocationTraceMode, AllocatorBreakCondition, RenderConfig, StdinConfig, glibc_2_35_x86_64,
    glibc_x86_64_modern,
};
use heapify_cli::event::{
    GlibcChunkFlags, GlibcChunkHeader, HeapTraceEvent, HeapTrackerExplanation, HeapTrackerNote,
    TcacheEntryCandidate, allocator_event_alloc_size, json_heap_event, print_heap_event,
    print_heap_explanation, symbolize_event_caller,
};
use heapify_cli::keys::KeyCode;
use heapify_cli::live::{LiveCommandStatus, LiveTargetStatus};
use heapify_cli::live_text::collect_event_history_for_user_addr;
use heapify_cli::live_update::{JsonSessionEnd, LiveTraceUpdate};
use heapify_cli::print_text::{
    LayoutReading, TcacheReading, print_heap_layout, print_record,
    print_tcache_snapshot_candidate,
};
use heapify_cli::record::{
    GlibcProfileConfidence, GlibcProfileSelection, JsonAllocatorWarning,
    JsonFastbinBinValidation, JsonHeapEvent, JsonHeapScanReport, JsonLargebinBinValidation,
    JsonLayoutAllocatorSource, JsonLayoutChunk, JsonMainArenaCandidate,
    JsonSmallbinBinValidation, JsonTcacheBin, JsonTcacheBinValidation,
    JsonTcacheSnapshotCandidate, JsonTraceRecord, JsonUnsortedBinValidation,
};
use heapify_cli::record_text::low_confidence_profile_warning;
use heapify_cli::replay::{
    ReplaySession, ReplayTuiState, handle_replay_tui_key, is_event_record, replay_trace,
    visible_timeline_offset,
};
use heapify_cli::replay_text::{
    ReplayConfig, format_replay_event_summary, format_source_location_parts,
};
use heapify_cli::session::{
    AllocatorEventControl, ExecPlan, LibcMetadata, json_launch_metadata, json_stdin_metadata,
    print_low_confidence_profile_warning, user_launch_env_set_keys,
};
use heapify_cli::snapshot::{
    ProcessMapsSnapshot, RegisterArch, RegisterSnapshot, SourceLocation, StackSnapshot,
    SymbolizedAddress,
};
use heapify_cli::stop_text::build_minimal_code_context;
use heapify_cli::views::{
    HeapView, Reply, SourceChanges, SourceCounts, TopReading, ViewReading, ViewState,
    apply_reply, is_printed, is_wanted, next_probe, print_missing_views,
};
use heapify_cli::worker::{Build, SessionInfo, Worker, print_update};

fn s(text: &str) -> String {
    text.to_string()
}

fn config_of(list: &[&str]) -> RenderConfig {
    parse_trace_heap_args(list.iter().map(|word| word.to_string()).collect())
        .unwrap()
        .0
}

fn malloc_event(event_id: usize, size: u64, ptr: u64) -> HeapTraceEvent {
    HeapTraceEvent::Malloc {
        event_id,
        requested_size: size,
        returned_ptr: ptr,
        chunk: None,
        caller_addr: None,
    }
}

fn free_event(event_id: usize, ptr: u64) -> HeapTraceEvent {
    HeapTraceEvent::Free {
        event_id,
        ptr,
        chunk: None,
        tcache_entry: None,
        caller_addr: None,
    }
}

fn chunk() -> GlibcChunkHeader {
    GlibcChunkHeader {
        chunk_addr: 0x1000,
        user_addr: 0x1010,
        prev_size: 0,
        size_raw: 0x31,
        size: 0x30,
        flags: GlibcChunkFlags {
            prev_inuse: true,
            is_mmapped: false,
            non_main_arena: false,
        },
    }
}

fn layout_chunk(state: &str, source: Option<(&str, &str, usize)>) -> JsonLayoutChunk {
    JsonLayoutChunk {
        chunk_addr: s("0x1000"),
        user_addr: s("0x1010"),
        prev_size: s("0x0"),
        size_raw: s("0x31"),
        size: s("0x30"),
        flags: vec![s("PREV_INUSE")],
        state: s(state),
        tcache_candidate: None,
        allocator_source: source.map(|(kind, size, index)| JsonLayoutAllocatorSource {
            kind: s(kind),
            chunk_size: s(size),
            index,
        }),
    }
}

fn layout(event_id: usize, chunks: Vec<JsonLayoutChunk>) -> JsonTraceRecord {
    JsonTraceRecord::HeapLayout {
        event_id,
        heap_start: s("0x1000"),
        heap_end: s("0x2000"),
        chunks,
        truncated: false,
        chunks_omitted: 0,
    }
}

fn event_record(event: HeapTraceEvent) -> JsonTraceRecord {
    JsonTraceRecord::Event {
        event: json_heap_event(
            &event,
            HeapTrackerNote::NewAllocation,
            HeapTrackerExplanation::NoExtraExplanation,
            None,
        ),
    }
}

fn arena_candidate(event_id: usize) -> JsonTraceRecord {
    JsonTraceRecord::MainArenaCandidate {
        event_id,
        candidate: JsonMainArenaCandidate {
            libc_path: s("/lib/libc.so.6"),
            symbol_name: s("main_arena"),
            runtime_addr: s("0x7000"),
            source: s("symbol"),
            offset: None,
        },
    }
}

fn scan(status: &str, suspicious_count: usize) -> JsonTraceRecord {
    JsonTraceRecord::HeapScan {
        event_id: 1,
        report: JsonHeapScanReport {
            chunks_walked: 1,
            allocated_observed: 1,
            freed_observed: 0,
            unknown_observed: 0,
            allocator_source_chunks: 0,
            warning_count: 0,
            suspicious_count,
            top_validated: Some(true),
            heap_snapshot_truncated: true,
            status: s(status),
            findings: vec![],
        },
    }
}

#[test]
fn an_event_prints_its_call_first() {
    let event = HeapTraceEvent::Malloc {
        event_id: 3,
        requested_size: 0x20,
        returned_ptr: 0x1010,
        chunk: Some(chunk()),
        caller_addr: Some(0x4000),
    };
    let all = print_heap_event(
        &event,
        &None,
        HeapTrackerNote::NewAllocation,
        &RenderConfig::default(),
    );
    let lines: Vec<&str> = all.split('\n').collect();
    assert_eq!(lines[0], "#3 malloc(0x20) = 0x1010");
    assert!(lines.contains(&"    caller:     0x4000"));
    assert!(lines.iter().any(|line| line.ends_with("size:       0x30")));
    assert_eq!(lines.last(), Some(&"    state: allocated new chunk"));
    assert_eq!(
        print_heap_event(
            &event,
            &None,
            HeapTrackerNote::NewAllocation,
            &config_of(&["--events-only", "prog"])
        ),
        "#3 malloc(0x20) = 0x1010"
    );
}

#[test]
fn a_recorded_call_reads_as_it_was_printed() {
    for event in [
        malloc_event(1, 0x20, 0x1010),
        free_event(2, 0x1010),
        HeapTraceEvent::Calloc {
            event_id: 3,
            nmemb: 4,
            size: 8,
            returned_ptr: 0x2020,
            chunk: None,
            caller_addr: None,
        },
        HeapTraceEvent::Realloc {
            event_id: 4,
            old_ptr: 0x2020,
            new_size: 0x40,
            returned_ptr: 0x3030,
            old_chunk: None,
            new_chunk: None,
            caller_addr: None,
        },
    ] {
        let JsonTraceRecord::Event { event: json } = event_record(event) else {
            panic!("expected an event");
        };
        let printed = print_heap_event(
            &event,
            &None,
            HeapTrackerNote::NewAllocation,
            &config_of(&["--events-only", "prog"]),
        );
        assert_eq!(format_replay_event_summary(&json), printed);
    }
}

#[test]
fn a_recorded_call_is_in_the_history_of_its_memory() {
    let events = vec![
        event_record(malloc_event(1, 0x20, 0x1010)),
        event_record(malloc_event(2, 0x20, 0x2020)),
        event_record(free_event(3, 0x1010)),
    ];
    let history = collect_event_history_for_user_addr(&events, 0x1010);
    assert_eq!(history.len(), 2);
    assert!(history[0].contains("#1 malloc"));
    assert!(history[1].contains("#3 free"));
}

#[test]
fn recorded_headers_keep_their_flags_and_links() {
    let event = HeapTraceEvent::Free {
        event_id: 9,
        ptr: 0x1010,
        chunk: Some(chunk()),
        tcache_entry: Some(TcacheEntryCandidate {
            storage_addr: 0x1010,
            encoded_next: 0x55,
            decoded_next: 0x66,
        }),
        caller_addr: None,
    };
    let JsonHeapEvent::Free {
        chunk: Some(header),
        tcache_entry: Some(entry),
        tracker_note,
        tracker_explanation,
        ..
    } = json_heap_event(
        &event,
        HeapTrackerNote::DoubleFree,
        HeapTrackerExplanation::LikelyTcacheOrFastbinReuse { chunk_size: 0x30 },
        None,
    )
    else {
        panic!("expected a free with its chunk and link");
    };
    assert_eq!(header.flags, vec![s("PREV_INUSE")]);
    assert_eq!(header.size_raw, "0x31");
    assert_eq!(entry.decoded_next, "0x66");
    assert_eq!(tracker_note, "DoubleFree");
    assert_eq!(
        tracker_explanation.as_deref(),
        Some("chunk size 0x30 is likely tcache/fastbin-sized")
    );
    assert_eq!(
        print_heap_explanation(HeapTrackerExplanation::LikelyTcacheOrFastbinReuse {
            chunk_size: 0x30
        })
        .items,
        vec![s("    note: chunk size 0x30 is likely tcache/fastbin-sized")]
    );
}

#[test]
fn a_source_place_without_a_line_keeps_its_column() {
    assert_eq!(
        format_source_location_parts(&Some(s("a.c")), None, Some(4)).as_deref(),
        Some("a.c:?:4")
    );
    assert_eq!(
        format_source_location_parts(&Some(s("a.c")), Some(3), Some(4)).as_deref(),
        Some("a.c:3:4")
    );
    assert_eq!(format_source_location_parts(&None, Some(3), Some(4)), None);
}

#[test]
fn the_caller_is_symbolized_with_the_mapped_source() {
    let event = HeapTraceEvent::Malloc {
        event_id: 1,
        requested_size: 1,
        returned_ptr: 1,
        chunk: None,
        caller_addr: Some(0x400010),
    };
    let symbol = SymbolizedAddress {
        addr: 0x400010,
        object_name: None,
        symbol: s("main"),
        symbol_addr: 0x400000,
        offset: 0x10,
        source: None,
    };
    let place = SourceLocation {
        file: Some(s("main.c")),
        line: Some(7),
        column: None,
    };
    let found =
        symbolize_event_caller(&event, Some(symbol.clone()), Some(Some(place.clone()))).unwrap();
    assert_eq!(found.source, Some(place));
    assert_eq!(found.symbol, "main");
    assert_eq!(
        symbolize_event_caller(&malloc_event(1, 1, 1), Some(symbol), None),
        None
    );
    assert_eq!(symbolize_event_caller(&event, None, None), None);
}

#[test]
fn the_first_condition_that_is_met_is_reported() {
    let conditions = vec![
        AllocatorBreakCondition::AllocSize(0x99),
        AllocatorBreakCondition::FreePtr(0x1010),
        AllocatorBreakCondition::DoubleFree,
    ];
    let found = evaluate_allocator_break_conditions(
        &conditions,
        &free_event(4, 0x1010),
        HeapTrackerNote::DoubleFree,
        &vec![],
    )
    .unwrap();
    assert_eq!(found.condition, AllocatorBreakCondition::FreePtr(0x1010));
    assert_eq!(found.message, "free pointer 0x1010");
    assert_eq!(
        evaluate_allocator_break_conditions(
            &conditions,
            &malloc_event(4, 0x10, 0x1010),
            HeapTrackerNote::NewAllocation,
            &vec![]
        ),
        None
    );
}

#[test]
fn an_overflowing_calloc_has_no_size() {
    let event = HeapTraceEvent::Calloc {
        event_id: 1,
        nmemb: u64::MAX,
        size: 2,
        returned_ptr: 0,
        chunk: None,
        caller_addr: None,
    };
    assert_eq!(allocator_event_alloc_size(&event), None);
    assert_eq!(allocator_event_alloc_size(&malloc_event(1, 5, 0)), Some(5));
    assert_eq!(allocator_event_alloc_size(&free_event(1, 5)), None);
}

#[test]
fn a_scan_without_findings_is_not_suspicious() {
    assert!(suspicious_heap_scan_break_reason(&vec![scan("clean", 0)]).is_none());
    assert!(suspicious_heap_scan_break_reason(&vec![]).is_none());
    assert!(suspicious_heap_scan_break_reason(&vec![scan("suspicious", 2)]).is_some());
}

#[test]
fn replay_shows_the_records_of_the_file_in_order() {
    let session = ReplaySession::from_records(vec![
        event_record(malloc_event(1, 0x20, 0x1010)),
        layout(1, vec![layout_chunk("allocated", None)]),
        event_record(free_event(2, 0x1010)),
    ]);
    let texts = replay_trace(&session, &ReplayConfig::default());
    assert_eq!(texts.len(), 3);
    assert!(texts[0].starts_with("#1 malloc(0x20) = 0x1010"));
    assert!(texts[1].starts_with("heap layout:"));
    assert!(texts[2].starts_with("#2 free(0x1010)"));
    let quiet = ReplayConfig {
        events_only: true,
        show_chunks: false,
        tui: false,
    };
    let texts = replay_trace(&session, &quiet);
    assert_eq!(texts.len(), 2);
    assert!(texts[1].starts_with("#2 free(0x1010)"));
}

#[test]
fn the_records_of_an_event_are_found_by_its_number() {
    let session = ReplaySession::from_records(vec![
        event_record(malloc_event(1, 0x20, 0x1010)),
        layout(1, vec![]),
        layout(2, vec![]),
    ]);
    assert_eq!(session.records_for_event(1).len(), 2);
    assert_eq!(session.records_for_event(2).len(), 1);
    assert_eq!(session.records_for_event(3).len(), 0);
    assert_eq!(session.event_count(), 1);
    assert!(is_event_record(session.event_record(0).unwrap()));
}

#[test]
fn replay_selection_stays_within_the_events() {
    let session = ReplaySession::from_records(
        (1..=3).map(|id| event_record(malloc_event(id, 1, 1))).collect(),
    );
    let mut state = ReplayTuiState {
        selected_event_index: 0,
        scroll_details: 5,
    };
    assert!(!handle_replay_tui_key(KeyCode::Down, &session, &mut state));
    assert_eq!((state.selected_event_index, state.scroll_details), (1, 0));
    assert!(!handle_replay_tui_key(KeyCode::Up, &session, &mut state));
    assert_eq!(state.selected_event_index, 0);
    handle_replay_tui_key(KeyCode::PageDown, &session, &mut state);
    assert_eq!(state.selected_event_index, 2);
    handle_replay_tui_key(KeyCode::Down, &session, &mut state);
    assert_eq!(state.selected_event_index, 2);
    handle_replay_tui_key(KeyCode::Home, &session, &mut state);
    assert_eq!(state.selected_event_index, 0);
    handle_replay_tui_key(KeyCode::End, &session, &mut state);
    assert_eq!(state.selected_event_index, 2);
    assert!(handle_replay_tui_key(KeyCode::Esc, &session, &mut state));
    assert!(handle_replay_tui_key(KeyCode::Char('q'), &session, &mut state));
}

#[test]
fn the_selected_row_is_in_view() {
    assert_eq!(visible_timeline_offset(0, 4, 10), 0);
    assert_eq!(visible_timeline_offset(3, 4, 10), 0);
    assert_eq!(visible_timeline_offset(4, 4, 10), 1);
    assert_eq!(visible_timeline_offset(9, 4, 10), 6);
    assert_eq!(visible_timeline_offset(9, 0, 10), 0);
    assert_eq!(visible_timeline_offset(2, 20, 10), 0);
}

#[test]
fn each_once_view_is_shown_once() {
    let config = config_of(&["--main-arena", "prog"]);
    let profile = glibc_x86_64_modern();
    let mut state = ViewState::new();
    let (place, probe) = next_probe(&config, profile, &state, 0).unwrap();
    assert_eq!(probe.view, HeapView::ArenaCandidate);
    assert!(probe.resolve_arena);
    assert!(next_probe(&config, profile, &state, place + 1).is_none());
    let reply = Reply::ArenaCandidate {
        record: Some(arena_candidate(1)),
    };
    assert_eq!(
        apply_reply(&config, &mut state, &probe, reply),
        vec![arena_candidate(1)]
    );
    assert!(state.arena_known);
    assert!(next_probe(&config, profile, &state, 0).is_none());
    assert!(print_missing_views(&config, profile, &state, false)
        .items
        .is_empty());
}

#[test]
fn views_that_never_came_are_named_with_a_reason() {
    let config = config_of(&["--fastbins", "--main-arena-top", "prog"]);
    let lines = print_missing_views(&config, glibc_x86_64_modern(), &ViewState::new(), false).items;
    assert_eq!(
        lines,
        vec![
            s("main_arena candidate: unavailable"),
            s("    reason: symbol main_arena not found in loaded libc"),
            s("fastbins: unavailable"),
            s("    reason: active glibc profile does not define fastbin offsets"),
            s("main_arena top candidate: unavailable"),
            s("    reason: active glibc profile does not define main_arena top offset"),
        ]
    );
    assert!(
        print_missing_views(&config, glibc_x86_64_modern(), &ViewState::new(), true)
            .items
            .is_empty()
    );
}

#[test]
fn a_clean_arena_view_replaces_the_candidate() {
    let config = config_of(&["--main-arena-top", "prog"]);
    let profile = glibc_2_35_x86_64();
    let mut state = ViewState::new();
    let (_, probe) = next_probe(&config, profile, &state, 0).unwrap();
    assert_eq!(probe.view, HeapView::ArenaTop);
    assert_eq!(probe.top.as_ref().unwrap().offset, 0x60);
    let top = MainArenaTopCandidate {
        arena_addr: 0x7000,
        field_offset: 0x60,
        top_addr: 0x2000,
        points_into_heap: true,
        matches_heap_chunk: true,
        chunk_size: Some(0x21000),
        status: MainArenaTopStatus::MatchesWalkedChunk,
        source: MainArenaFieldSource::UserOffset,
        profile_name: None,
    };
    let reading = TopReading {
        top,
        view: layout(1, vec![]),
        candidate: layout(2, vec![]),
    };
    let reply = Reply::ArenaTop {
        arena_found: true,
        reading: Some(reading),
    };
    assert_eq!(
        apply_reply(&config, &mut state, &probe, reply),
        vec![layout(1, vec![])]
    );
    assert!(!is_wanted(&config, profile, &state, HeapView::ArenaCandidate));
    assert!(!is_wanted(&config, profile, &state, HeapView::ArenaTop));
}

#[test]
fn small_bins_record_the_regular_bins_on_the_way() {
    let config = config_of(&["--smallbins", "prog"]);
    let profile = glibc_2_35_x86_64();
    let mut state = ViewState::new();
    state.arena_known = true;
    let (place, probe) = next_probe(&config, profile, &state, 2).unwrap();
    assert_eq!(probe.view, HeapView::RegularBins);
    assert!(apply_reply(&config, &mut state, &probe, Reply::Nothing).is_empty());
    let (_, probe) = next_probe(&config, profile, &state, place + 1).unwrap();
    assert_eq!(probe.view, HeapView::Smallbins);
    assert!(probe.read_regular_bins);
    let regular = layout(8, vec![]);
    let small = layout(9, vec![]);
    let reply = Reply::Bins {
        regular_bins: Some(regular.clone()),
        reading: Some(ViewReading {
            record: small.clone(),
            validation: None,
        }),
    };
    assert_eq!(
        apply_reply(&config, &mut state, &probe, reply),
        vec![regular, small]
    );
    assert!(!is_wanted(&config, profile, &state, HeapView::RegularBins));
    assert!(!is_wanted(&config, profile, &state, HeapView::Smallbins));
}

#[test]
fn where_only_events_are_shown_nothing_but_the_arena_is_read() {
    let config = config_of(&["--events-only", "--all-allocator-views", "prog"]);
    let profile = glibc_2_35_x86_64();
    let mut state = ViewState::new();
    state.arena_known = true;
    let mut from = 0;
    while let Some((place, probe)) = next_probe(&config, profile, &state, from) {
        assert!(matches!(
            probe.view,
            HeapView::ArenaTop | HeapView::ArenaCandidate | HeapView::ArenaExperiment
        ));
        assert!(!is_printed(&config, profile, &state, probe.view));
        from = place + 1;
    }
    assert!(from > 0);
}

#[test]
fn a_heap_scan_checks_the_top_chunk_where_it_can() {
    let config = config_of(&["--heap-scan", "--main-arena-top", "prog"]);
    let profile = glibc_2_35_x86_64();
    let mut state = ViewState::new();
    let probe_of = |state: &ViewState| {
        let mut from = 0;
        loop {
            let (place, probe) = next_probe(&config, profile, state, from).unwrap();
            if probe.view == HeapView::HeapScan {
                return probe;
            }
            from = place + 1;
        }
    };
    let probe = probe_of(&state);
    assert!(probe.walk_heap);
    assert_eq!(probe.top, None);
    state.arena_known = true;
    let probe = probe_of(&state);
    assert_eq!(probe.top.unwrap().offset, 0x60);
}

fn plan(preload: Option<&str>, pairs: &[(&str, &str)], stdin: StdinConfig) -> ExecPlan {
    ExecPlan {
        launch_mode: s("direct"),
        loader_path: None,
        effective_library_path: None,
        preload_path: preload.map(s),
        cwd: None,
        clear_env: false,
        env_overrides: pairs.iter().map(|(k, v)| (s(k), s(v))).collect(),
        env_unsets: vec![s("LD_DEBUG")],
        stdin,
    }
}

#[test]
fn a_launch_record_hides_values_and_input() {
    let one = json_launch_metadata(&plan(
        None,
        &[("A", "1")],
        StdinConfig::Text(s("ab\u{e9}")),
    ));
    let two = json_launch_metadata(&plan(
        None,
        &[("A", "2")],
        StdinConfig::Text(s("abcd")),
    ));
    assert_eq!(one, two);
    assert_eq!(one.set_env, vec![s("A")]);
    assert_eq!(one.stdin.bytes, Some(4));
    assert_eq!(one.unset_env, vec![s("LD_DEBUG")]);
}

#[test]
fn a_preloaded_library_is_no_setting_of_the_user() {
    let plan = plan(
        Some("./libc.so.6"),
        &[("A", "1"), ("LD_PRELOAD", "./libc.so.6")],
        StdinConfig::Inherit,
    );
    assert_eq!(user_launch_env_set_keys(&plan), vec![s("A")]);
    let json = json_launch_metadata(&plan);
    assert_eq!(json.preload.as_deref(), Some("./libc.so.6"));
    assert_eq!(json.stdin.kind, "inherit");
    assert_eq!(json.stdin.path, None);
    assert_eq!(
        json_stdin_metadata(&StdinConfig::File(s("in"))).path.as_deref(),
        Some("in")
    );
}

fn selection(confidence: GlibcProfileConfidence) -> GlibcProfileSelection {
    GlibcProfileSelection {
        requested: s("auto"),
        selected: s("glibc-x86_64-modern"),
        detected_version: None,
        detected_libc_path: None,
        supplied_libc_path: None,
        confidence,
        reason: s("r"),
        warnings: vec![],
    }
}

fn info(confidence: GlibcProfileConfidence) -> SessionInfo {
    SessionInfo {
        profile_name: s("glibc-x86_64-modern"),
        profile_selection: selection(confidence),
        libc: Some(LibcMetadata {
            path: s("/lib/libc.so.6"),
            supplied_path: None,
            paths_match: None,
            version: Some(s("2.35")),
        }),
        launch: plan(None, &[], StdinConfig::Inherit),
        maps: None,
        maps_error: Some(s("gone")),
    }
}

fn build() -> Build {
    Build {
        version: s("1.2.3"),
        arch: s("x86_64"),
        os: s("linux"),
    }
}

#[test]
fn a_session_starts_with_its_options() {
    let worker = Worker::new(
        config_of(&["--allocator-views", "basic", "prog"]),
        s("prog"),
        vec![s("a")],
        AllocationTraceMode::LibcSymbols,
    );
    let updates = worker.start(build(), info(GlibcProfileConfidence::High));
    assert_eq!(updates.len(), 1);
    let LiveTraceUpdate::SessionStart(start) = &updates[0] else {
        panic!("expected the session's start");
    };
    match &start.record {
        JsonTraceRecord::SessionStart {
            heapify_version,
            program,
            args,
            trace_mode,
            allocator_views_preset,
            features,
            libc,
            launch,
            ..
        } => {
            assert_eq!(heapify_version, "1.2.3");
            assert_eq!(program, "prog");
            assert_eq!(args, &vec![s("a")]);
            assert_eq!(trace_mode, "libc_symbols");
            assert_eq!(allocator_views_preset, "basic");
            assert!(features.layout && features.tcache_candidates && features.libc_symbols);
            assert!(!features.tcache_struct);
            assert_eq!(libc.as_ref().unwrap().version.as_deref(), Some("2.35"));
            assert_eq!(launch.as_ref().unwrap().mode, "direct");
        }
        _ => panic!("expected a start record"),
    }
}

#[test]
fn a_live_session_is_told_of_the_memory_maps() {
    let worker = Worker::new(
        config_of(&["--live-tui", "prog"]),
        s("prog"),
        vec![],
        AllocationTraceMode::TargetPlt,
    );
    let updates = worker.start(build(), info(GlibcProfileConfidence::High));
    assert_eq!(updates.len(), 2);
    assert_eq!(
        updates[1],
        LiveTraceUpdate::Status {
            message: s("process maps read failed: gone")
        }
    );
    let mut known = info(GlibcProfileConfidence::High);
    known.maps = Some(ProcessMapsSnapshot { entries: vec![] });
    let updates = worker.start(build(), known);
    assert!(matches!(updates[1], LiveTraceUpdate::ProcessMaps { .. }));
}

#[test]
fn a_low_confidence_is_warned_of_where_a_view_rests_on_the_profile() {
    let start = |list: &[&str], confidence| {
        let worker = Worker::new(
            config_of(list),
            s("prog"),
            vec![],
            AllocationTraceMode::TargetPlt,
        );
        let updates = worker.start(build(), info(confidence));
        let LiveTraceUpdate::SessionStart(start) = &updates[0] else {
            panic!("expected the session's start");
        };
        print_low_confidence_profile_warning(&start.record, &worker.config)
    };
    let warning = start(&["--fastbins", "prog"], GlibcProfileConfidence::Low).unwrap();
    assert!(warning.starts_with("[heapify] warning: "));
    assert!(warning.ends_with(low_confidence_profile_warning()));
    assert_eq!(start(&["--fastbins", "prog"], GlibcProfileConfidence::High), None);
    assert_eq!(start(&["--layout", "prog"], GlibcProfileConfidence::Low), None);
    assert_eq!(
        start(&["--json", "--fastbins", "prog"], GlibcProfileConfidence::Low),
        None
    );
}

#[test]
fn a_session_ends_with_the_number_of_its_calls() {
    let mut worker = Worker::new(
        config_of(&["--layout", "prog"]),
        s("prog"),
        vec![],
        AllocationTraceMode::TargetPlt,
    );
    for id in 1..=3 {
        let update = worker.observe(
            malloc_event(id, 8, 0x10),
            HeapTrackerNote::NewAllocation,
            HeapTrackerExplanation::NoExtraExplanation,
            None,
        );
        assert!(matches!(update, LiveTraceUpdate::Event { event_id, .. } if event_id == id));
        let (_, probe) = worker.next_probe(glibc_x86_64_modern(), 0).unwrap();
        assert_eq!(probe.view, HeapView::Layout);
        let reply = Reply::Read {
            reading: ViewReading {
                record: layout(id, vec![]),
                validation: None,
            },
        };
        assert_eq!(worker.reply(&probe, reply), vec![layout(id, vec![])]);
    }
    let (missing, last) = worker.end(glibc_x86_64_modern());
    assert!(missing.items.is_empty());
    assert_eq!(
        last,
        LiveTraceUpdate::SessionEnd(JsonSessionEnd {
            record: JsonTraceRecord::SessionEnd {
                exit_status: s("unknown"),
                event_count: 3
            }
        })
    );
}

#[test]
fn a_matching_call_pauses_the_live_screen_alone() {
    let finish = |list: &[&str]| {
        let worker = Worker::new(
            config_of(list),
            s("prog"),
            vec![],
            AllocationTraceMode::TargetPlt,
        );
        worker.finish_event(
            &malloc_event(1, 0x80, 0x10),
            HeapTrackerNote::NewAllocation,
            &vec![],
        )
    };
    let (update, control) = finish(&["--live-tui", "--break-on-alloc-size", "0x80", "prog"]);
    assert!(matches!(update, Some(LiveTraceUpdate::BreakMatched(_))));
    assert_eq!(control, AllocatorEventControl::Pause);
    let (update, control) = finish(&["--break-on-alloc-size", "0x80", "prog"]);
    assert!(update.is_some());
    assert_eq!(control, AllocatorEventControl::Continue);
    let (update, control) = finish(&["--live-tui", "--break-on-alloc-size", "0x81", "prog"]);
    assert!(update.is_none());
    assert_eq!(control, AllocatorEventControl::Continue);
}

#[test]
fn answers_and_stops_are_for_the_live_screen() {
    let worker = |list: &[&str]| {
        Worker::new(
            config_of(list),
            s("prog"),
            vec![],
            AllocationTraceMode::TargetPlt,
        )
    };
    let registers = RegisterSnapshot {
        arch: RegisterArch::X86_64,
        instruction_pointer: 1,
        stack_pointer: 2,
        frame_pointer: 3,
        registers: vec![],
    };
    let stack = StackSnapshot {
        stack_pointer: 2,
        word_size: 8,
        words: vec![],
        truncated: false,
        read_error: None,
    };
    let live = worker(&["--live-tui", "prog"]);
    let updates = live.stop(
        Some(4),
        registers.clone(),
        stack.clone(),
        build_minimal_code_context(1),
    );
    assert_eq!(updates.len(), 3);
    assert!(matches!(
        updates[2],
        LiveTraceUpdate::CodeContext {
            event_id: Some(4),
            ..
        }
    ));
    let plain = worker(&["prog"]);
    assert!(plain
        .stop(None, registers, stack, build_minimal_code_context(1))
        .is_empty());
    let answer = |worker: &Worker| {
        worker.answer(
            None,
            None,
            LiveCommandStatus::Accepted,
            LiveTargetStatus::Running,
            s("ok"),
        )
    };
    assert!(answer(&live).is_some());
    assert!(answer(&plain).is_none());
}

#[test]
fn a_trace_prints_layouts_with_their_free_lists() {
    assert_eq!(
        print_record(&layout(
            1,
            vec![
                layout_chunk("allocated", None),
                layout_chunk("freed", Some(("tcache_candidate", "0x30", 2))),
                layout_chunk("freed", Some(("unsorted", "0x30", 1))),
                layout_chunk("freed", Some(("fastbin", "0x30", 0))),
            ]
        ), 64),
        "heap layout:\n    0x1000 user=0x1010 size=0x30 flags=PREV_INUSE state=allocated\n    \
         0x1000 user=0x1010 size=0x30 flags=PREV_INUSE state=freed tcache_candidate=size[0x30] index=2\n    \
         0x1000 user=0x1010 size=0x30 flags=PREV_INUSE state=freed source=unsorted index=1\n    \
         0x1000 user=0x1010 size=0x30 flags=PREV_INUSE state=freed source=fastbin[0x30] index=0"
    );
}

#[test]
fn a_layout_is_cut_at_its_limit() {
    let config = config_of(&["--layout", "--max-layout-chunks", "1", "prog"]);
    let reading = LayoutReading::Walked {
        chunks: vec![layout_chunk("allocated", None), layout_chunk("freed", None)],
        truncated: true,
    };
    let text = print_heap_layout(&reading, &config);
    let lines: Vec<&str> = text.split('\n').collect();
    assert_eq!(lines.len(), 4);
    assert_eq!(lines[2], "    ... 1 more chunks not shown");
    assert_eq!(lines[3], "    ... heap walk truncated");
    assert_eq!(
        print_heap_layout(&LayoutReading::NoMapping, &config),
        "heap layout unavailable: heap mapping not found"
    );
    assert_eq!(
        print_heap_layout(&LayoutReading::Failed { error: s("e") }, &config),
        "heap layout unavailable: e"
    );
}

#[test]
fn the_tcache_structure_is_printed_or_excused() {
    assert_eq!(
        print_tcache_snapshot_candidate(&TcacheReading::Failed { error: s("e") }),
        "tcache snapshot candidate: unavailable: e"
    );
    let snapshot = JsonTcacheSnapshotCandidate {
        bins: vec![JsonTcacheBin {
            index: 1,
            chunk_size: s("0x30"),
            count: 2,
            head: s("0x1010"),
        }],
    };
    assert_eq!(
        print_tcache_snapshot_candidate(&TcacheReading::Read { snapshot }),
        "tcache snapshot candidate:\n    bin[1] size=0x30 count=2 head=0x1010"
    );
    assert_eq!(
        print_tcache_snapshot_candidate(&TcacheReading::Read {
            snapshot: JsonTcacheSnapshotCandidate { bins: vec![] }
        }),
        ""
    );
}

#[test]
fn a_scan_says_how_far_it_walked() {
    let text = print_record(&scan("clean", 0), 64);
    assert!(text.contains("    top chunk:              validated"));
    assert!(text.contains("    heap snapshot:          truncated"));
    assert!(!text.contains("heap scan findings:"));
}

#[test]
fn arena_words_have_labels() {
    assert_eq!(
        format_main_arena_view_status(main_arena_view_status_from_top_status(
            MainArenaTopStatus::MatchesWalkedChunk
        )),
        "validated"
    );
    assert_eq!(
        format_main_arena_field_source(MainArenaFieldSource::GlibcProfile),
        "glibc_profile"
    );
    assert_eq!(format_validation_value(ValidationValue::Unknown), "unknown");
    assert_eq!(format_validation_status(ValidationStatus::Plausible), "plausible");
    assert_eq!(format_observed_state(None), "unknown");
    assert_eq!(
        format_observed_state(Some(ObservedChunkState::Freed)),
        "freed"
    );
    assert_eq!(regular_bin_role_label(RegularBinRole::Largebin), "largebin");
}

#[test]
fn an_update_is_printed_as_its_texts() {
    let update = LiveTraceUpdate::Event {
        event_id: 1,
        event: malloc_event(1, 0x20, 0x1010),
        note: HeapTrackerNote::NewAllocation,
        explanation: HeapTrackerExplanation::LikelyTcacheOrFastbinReuse { chunk_size: 0x30 },
        caller_symbol: None,
    };
    let related = LiveTraceUpdate::RelatedRecord {
        event_id: 1,
        record: layout(1, vec![]),
    };
    let config = config_of(&["--layout", "prog"]);
    let texts = print_update(&update, &config).items;
    assert!(texts[0].starts_with("#1 malloc(0x20) = 0x1010"));
    assert_eq!(
        texts[1],
        "    note: chunk size 0x30 is likely tcache/fastbin-sized"
    );
    assert_eq!(print_update(&related, &config).items, vec![s("heap layout:")]);
    let quiet = config_of(&["--events-only", "prog"]);
    assert_eq!(
        print_update(&update, &quiet).items,
        vec![s("#1 malloc(0x20) = 0x1010")]
    );
    assert!(print_update(&related, &quiet).items.is_empty());
    let status = LiveTraceUpdate::Status { message: s("x") };
    assert!(print_update(&status, &config).items.is_empty());
    let preset = config_of(&["--allocator-views", "basic", "prog"]);
    let worker = Worker::new(preset, s("prog"), vec![], AllocationTraceMode::TargetPlt);
    let start = &worker.start(build(), info(GlibcProfileConfidence::High))[0];
    assert_eq!(
        print_update(start, &worker.config).items,
        vec![s("[heapify] allocator views preset: basic")]
    );
}

fn counts(total: usize) -> SourceCounts {
    SourceCounts {
        tcache_candidate_chunks: total,
        fastbin_chunks: 0,
        unsorted_chunks: 0,
        smallbin_chunks: 0,
        largebin_chunks: 0,
        total_free_list_chunks: total,
        warning_count: 0,
    }
}

fn changes(total: isize) -> SourceChanges {
    SourceChanges {
        tcache_candidate_chunks_delta: total,
        fastbin_chunks_delta: 0,
        unsorted_chunks_delta: 0,
        smallbin_chunks_delta: 0,
        largebin_chunks_delta: 0,
        total_free_list_chunks_delta: total,
        warning_count_delta: 0,
    }
}

#[test]
fn each_summary_is_compared_with_the_one_before() {
    let mut worker = Worker::new(
        config_of(&["--tcache-candidates", "prog"]),
        s("prog"),
        vec![],
        AllocationTraceMode::TargetPlt,
    );
    let warnings_probe = |worker: &Worker| {
        let mut from = 0;
        loop {
            let (place, probe) = worker.next_probe(glibc_x86_64_modern(), from).unwrap();
            if probe.view == HeapView::Warnings {
                return probe;
            }
            assert_eq!(probe.previous_summary, None);
            from = place + 1;
        }
    };
    let probe = warnings_probe(&worker);
    assert_eq!(probe.previous_summary, None);
    let records = worker.reply(
        &probe,
        Reply::Warnings {
            event_id: 1,
            summary: counts(2),
            delta: changes(2),
            warnings: vec![],
        },
    );
    assert_eq!(records.len(), 2);
    assert!(matches!(
        records[0],
        JsonTraceRecord::AllocatorSourceSummary {
            event_id: 1,
            total_free_list_chunks: 2,
            ..
        }
    ));
    let probe = warnings_probe(&worker);
    assert_eq!(probe.previous_summary, Some(counts(2)));
    assert!(worker.reply(&probe, Reply::Nothing).is_empty());
    assert_eq!(worker.views.previous_summary, Some(counts(2)));
    let warning = JsonAllocatorWarning {
        kind: s("k"),
        chunk_addr: s("0x1000"),
        user_addr: s("0x1010"),
        sources: vec![],
        message: s("m"),
    };
    let records = worker.reply(
        &probe,
        Reply::Warnings {
            event_id: 2,
            summary: counts(1),
            delta: changes(-1),
            warnings: vec![warning.clone()],
        },
    );
    assert_eq!(records.len(), 3);
    assert!(matches!(
        records[1],
        JsonTraceRecord::AllocatorSourceDelta {
            event_id: 2,
            total_free_list_chunks_delta: -1,
            ..
        }
    ));
    assert_eq!(
        records[2],
        JsonTraceRecord::AllocatorWarnings {
            event_id: 2,
            warnings: vec![warning]
        }
    );
    assert_eq!(warnings_probe(&worker).previous_summary, Some(counts(1)));
}

#[test]
fn without_free_lists_no_summary_is_read() {
    let config = config_of(&["--layout", "prog"]);
    assert!(!is_wanted(
        &config,
        glibc_x86_64_modern(),
        &ViewState::new(),
        HeapView::Warnings
    ));
}

fn fastbin_check(status: &str) -> JsonTraceRecord {
    JsonTraceRecord::FastbinValidation {
        event_id: 1,
        validations: vec![
            fastbin_bin("plausible"),
            fastbin_bin(status),
        ],
    }
}

fn fastbin_bin(status: &str) -> JsonFastbinBinValidation {
    JsonFastbinBinValidation {
        index: 1,
        chunk_size: s("0x30"),
        head: s("0x1000"),
        head_in_heap: s("yes"),
        nodes_same_size: s("yes"),
        nodes_known_freed: s("yes"),
        chain_complete: s("yes"),
        status: s(status),
    }
}

fn suspicion(records: Vec<JsonTraceRecord>) -> Option<String> {
    evaluate_allocator_break_conditions(
        &vec![AllocatorBreakCondition::Suspicious],
        &free_event(1, 0x1010),
        HeapTrackerNote::FreedKnownChunk,
        &records,
    )
    .map(|found| found.message)
}

#[test]
fn suspicious_free_lists_break_without_a_heap_scan() {
    assert_eq!(suspicion(vec![fastbin_check("plausible")]), None);
    assert_eq!(
        suspicion(vec![layout(1, vec![]), fastbin_check("suspicious")]).as_deref(),
        Some("suspicious fastbin validation")
    );
    let unsorted = JsonTraceRecord::UnsortedBinValidation {
        event_id: 1,
        validation: JsonUnsortedBinValidation {
            head_in_heap: s("yes"),
            fd_bk_consistent: s("no"),
            nodes_known_freed: s("yes"),
            chain_complete: s("yes"),
            status: s("suspicious"),
        },
    };
    assert_eq!(
        suspicion(vec![unsorted, fastbin_check("suspicious")]).as_deref(),
        Some("suspicious unsorted bin validation")
    );
    let small = JsonTraceRecord::SmallbinValidation {
        event_id: 1,
        validations: vec![JsonSmallbinBinValidation {
            glibc_bin_index: 2,
            expected_chunk_size: s("0x20"),
            head_in_heap: s("yes"),
            nodes_same_size: s("no"),
            fd_bk_consistent: s("yes"),
            nodes_known_freed: s("yes"),
            chain_complete: s("yes"),
            status: s("suspicious"),
        }],
    };
    assert_eq!(
        suspicion(vec![small]).as_deref(),
        Some("suspicious smallbin validation")
    );
    let large = JsonTraceRecord::LargebinValidation {
        event_id: 1,
        validations: vec![JsonLargebinBinValidation {
            glibc_bin_index: 64,
            head_in_heap: s("yes"),
            fd_bk_consistent: s("no"),
            nodes_known_freed: s("yes"),
            chain_complete: s("yes"),
            status: s("suspicious"),
        }],
    };
    assert_eq!(
        suspicion(vec![large]).as_deref(),
        Some("suspicious largebin validation")
    );
    let tcache = JsonTraceRecord::TcacheValidation {
        event_id: 1,
        validations: vec![JsonTcacheBinValidation {
            chunk_size: s("0x30"),
            head_in_heap: s("no"),
            head_known_freed: s("no"),
            observed_nodes_same_size: s("yes"),
            count_matches_observed: s("no"),
            status: s("suspicious"),
        }],
    };
    assert_eq!(
        suspicion(vec![tcache]).as_deref(),
        Some("suspicious tcache validation")
    );
}

#[test]
fn a_heap_scan_is_the_first_reason_for_suspicion() {
    assert_eq!(
        suspicion(vec![fastbin_check("suspicious"), scan("suspicious", 1)]).as_deref(),
        Some("suspicious heap scan")
    );
    assert_eq!(
        suspicion(vec![fastbin_check("suspicious"), scan("clean", 0)]).as_deref(),
        Some("suspicious fastbin validation")
    );
}

#[test]
fn a_layout_without_room_says_so() {
    let mut record = layout(1, vec![]);
    if let JsonTraceRecord::HeapLayout { chunks_omitted, .. } = &mut record {
        *chunks_omitted = 3;
    }
    assert_eq!(
        print_record(&record, 0),
        "heap layout:\n    0 chunks shown\n    ... 3 more chunks not shown"
    );
    let update = LiveTraceUpdate::RelatedRecord { event_id: 1, record };
    let config = config_of(&["--layout", "--max-layout-chunks", "0", "prog"]);
    assert!(print_update(&update, &config).items[0].contains("0 chunks shown"));
}

#[test]
fn records_in_a_file_leave_the_first_lines() {
    let list = ["--allocator-views", "basic", "--json-out", "t", "prog"];
    let worker = Worker::new(
        config_of(&list),
        s("prog"),
        vec![],
        AllocationTraceMode::TargetPlt,
    );
    let start = &worker.start(build(), info(GlibcProfileConfidence::High))[0];
    assert_eq!(
        print_update(start, &worker.config).items,
        vec![s("[heapify] allocator views preset: basic")]
    );
    let related = LiveTraceUpdate::RelatedRecord {
        event_id: 1,
        record: layout(1, vec![]),
    };
    assert!(print_update(&related, &worker.config).items.is_empty());
    let on_stdout = config_of(&["--allocator-views", "basic", "--json", "prog"]);
    assert!(print_update(start, &on_stdout).items.is_empty());
    let live = config_of(&["--allocator-views", "basic", "--live-tui", "prog"]);
    assert!(print_update(start, &live).items.is_empty());
}
