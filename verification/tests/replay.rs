//! Trace files and what is shown of them.

use heapify_cli::arena::{ObservedTcacheChain, format_observed_tcache_chain};
use heapify_cli::event::format_symbolized_caller;
use heapify_cli::record::{
    GlibcProfileConfidence, GlibcProfileSelection, JsonAllocatorSourceMembership,
    JsonAllocatorWarning, JsonBinPointerCandidate, JsonCallerSymbol, JsonFastbinBinValidation,
    JsonFastbinChain, JsonFastbinHead, JsonFastbinNode, JsonFastbinPointerCandidate,
    JsonHeapEvent, JsonHeapScanFinding, JsonHeapScanReport, JsonLaunchMetadata,
    JsonLibcMetadata, JsonMainArenaCandidate, JsonMainArenaPointerCandidate,
    JsonMainArenaViewArena, JsonMainArenaViewTop, JsonRegularBinHead, JsonSmallbinChain,
    JsonSmallbinNode, JsonSourceLocation, JsonStdinMetadata, JsonTraceFeatures,
    JsonTraceRecord, JsonUnsortedBinPointerCandidate, JsonUnsortedBinValidation,
};
use heapify_cli::record_text::{format_allocator_source_delta, low_confidence_profile_warning};
use heapify_cli::replay::{
    ReplayEventAllocatorState, ReplaySession, format_replay_record,
    format_timeline_allocator_counts, format_timeline_event_summary, replay_record_event_id,
};
use heapify_cli::replay_text::{
    ReplayConfig, format_replay_event_summary, format_replay_regular_bins,
};
use heapify_cli::snapshot::SymbolizedAddress;

#[test]
fn replay_session_extracts_event_records_and_counts_them() {
    let records = vec![
        session_start_record(),
        malloc_record(1),
        layout_record(1),
        free_record(2),
        tcache_record(2),
        session_end_record(2),
    ];

    let session = ReplaySession::from_records(records);

    assert_eq!(session.event_count(), 2);
    assert_eq!(session.events[0].event_id, 1);
    assert_eq!(session.events[0].record_index, 1);
    assert_eq!(session.events[1].event_id, 2);
    assert_eq!(session.events[1].record_index, 3);
    assert!(session.session_start.is_some());
    assert!(session.session_end.is_some());
}

#[test]
fn replay_session_metadata_parses_suggested_glibc_profile() {
    let record: JsonTraceRecord = JsonTraceRecord::SessionStart {
        heapify_version: "0.1.0".to_string(),
        program: "./prog".to_string(),
        args: vec![],
        trace_mode: "target_plt".to_string(),
        arch: "x86_64".to_string(),
        os: "linux".to_string(),
        glibc_profile: "glibc-x86_64-modern".to_string(),
        suggested_glibc_profile: Some("glibc-2.35-x86_64".to_string()),
        glibc_profile_selection: None,
        libc: Some(JsonLibcMetadata {
            path: Some("/lib/libc.so.6".to_string()),
            supplied_path: None,
            paths_match: None,
            version: Some("2.35".to_string()),
        }),
        launch: None,
        allocator_views_preset: "none".to_string(),
        features: JsonTraceFeatures {
            layout: false,
            tcache_candidates: false,
            tcache_struct: false,
            libc_symbols: false,
        },
    };

    let formatted = format_replay_record(&record, &ReplayConfig::default());

    assert!(formatted.contains("    suggested glibc profile: glibc-2.35-x86_64"));
    assert!(!formatted.contains("allocator views preset"));
    match record {
        JsonTraceRecord::SessionStart {
            allocator_views_preset,
            ..
        } => assert_eq!(allocator_views_preset, "none"),
        _ => panic!("expected session_start"),
    }
}

#[test]
fn replay_session_metadata_renders_glibc_profile_selection() {
    let record = glibc_profile_selection_session_start_record("low", "full");

    let formatted = format_replay_record(&record, &ReplayConfig::default());

    assert!(formatted.contains("    glibc profile selection:"));
    assert!(formatted.contains("        requested: auto"));
    assert!(formatted.contains("        selected: glibc-x86_64-modern"));
    assert!(formatted.contains("        confidence: low"));
    assert!(formatted.contains(low_confidence_profile_warning()));
}

#[test]
fn events_only_suppresses_glibc_profile_selection_rendering() {
    let record = glibc_profile_selection_session_start_record("low", "full");
    let config = ReplayConfig {
        events_only: true,
        ..ReplayConfig::default()
    };

    let formatted = format_replay_record(&record, &config);

    assert!(!formatted.contains("glibc profile selection"));
    assert!(!formatted.contains(low_confidence_profile_warning()));
}

#[test]
fn replay_session_metadata_renders_allocator_views_preset_when_present() {
    let record: JsonTraceRecord = JsonTraceRecord::SessionStart {
        heapify_version: "0.1.0".to_string(),
        program: "./prog".to_string(),
        args: vec![],
        trace_mode: "target_plt".to_string(),
        arch: "x86_64".to_string(),
        os: "linux".to_string(),
        glibc_profile: "glibc-x86_64-modern".to_string(),
        suggested_glibc_profile: None,
        glibc_profile_selection: None,
        libc: None,
        launch: None,
        allocator_views_preset: "full".to_string(),
        features: JsonTraceFeatures {
            layout: true,
            tcache_candidates: true,
            tcache_struct: false,
            libc_symbols: false,
        },
    };

    let formatted = format_replay_record(&record, &ReplayConfig::default());

    assert!(formatted.contains("    allocator views preset: full"));
}

#[test]
fn replay_session_metadata_parses_libc_with_and_without_supplied_path() {
    let old_record: JsonTraceRecord = JsonTraceRecord::SessionStart {
        heapify_version: "0.1.0".to_string(),
        program: "./prog".to_string(),
        args: vec![],
        trace_mode: "target_plt".to_string(),
        arch: "x86_64".to_string(),
        os: "linux".to_string(),
        glibc_profile: "glibc-x86_64-modern".to_string(),
        suggested_glibc_profile: None,
        glibc_profile_selection: None,
        libc: Some(JsonLibcMetadata {
            path: Some("/lib/libc.so.6".to_string()),
            supplied_path: None,
            paths_match: None,
            version: Some("2.35".to_string()),
        }),
        launch: None,
        allocator_views_preset: "none".to_string(),
        features: JsonTraceFeatures {
            layout: false,
            tcache_candidates: false,
            tcache_struct: false,
            libc_symbols: false,
        },
    };
    let new_record: JsonTraceRecord = JsonTraceRecord::SessionStart {
        heapify_version: "0.1.0".to_string(),
        program: "./prog".to_string(),
        args: vec![],
        trace_mode: "libc_symbols".to_string(),
        arch: "x86_64".to_string(),
        os: "linux".to_string(),
        glibc_profile: "glibc-x86_64-modern".to_string(),
        suggested_glibc_profile: None,
        glibc_profile_selection: None,
        libc: Some(JsonLibcMetadata {
            path: Some("/usr/lib/libc.so.6".to_string()),
            supplied_path: Some("./libc.so.6".to_string()),
            paths_match: Some(false),
            version: Some("2.35".to_string()),
        }),
        launch: None,
        allocator_views_preset: "none".to_string(),
        features: JsonTraceFeatures {
            layout: false,
            tcache_candidates: false,
            tcache_struct: false,
            libc_symbols: true,
        },
    };

    let old_formatted = format_replay_record(&old_record, &ReplayConfig::default());
    let new_formatted = format_replay_record(&new_record, &ReplayConfig::default());

    assert!(old_formatted.contains("    libc: /lib/libc.so.6"));
    assert!(new_formatted.contains("    supplied libc: ./libc.so.6"));
    assert!(new_formatted.contains(
        "    warning: supplied libc differs from loaded libc; symbol offsets may be wrong"
    ));
}

#[test]
fn replay_session_metadata_parses_launch_metadata() {
    let record: JsonTraceRecord = JsonTraceRecord::SessionStart {
        heapify_version: "0.1.0".to_string(),
        program: "./chall".to_string(),
        args: vec![],
        trace_mode: "libc_symbols".to_string(),
        arch: "x86_64".to_string(),
        os: "linux".to_string(),
        glibc_profile: "glibc-x86_64-modern".to_string(),
        suggested_glibc_profile: None,
        glibc_profile_selection: None,
        libc: None,
        launch: Some(JsonLaunchMetadata {
            mode: "custom_loader_with_preload".to_string(),
            loader: Some("./ld-linux-x86-64.so.2".to_string()),
            library_path: Some(".".to_string()),
            preload: Some("./libc.so.6".to_string()),
            cwd: Some("./challenge".to_string()),
            clear_env: true,
            set_env: vec!["PATH".to_string(), "GLIBC_TUNABLES".to_string()],
            unset_env: vec!["LD_DEBUG".to_string()],
            stdin: JsonStdinMetadata {
                kind: "file".to_string(),
                path: Some("examples/menu_script.txt".to_string()),
                bytes: None,
            },
        }),
        allocator_views_preset: "none".to_string(),
        features: JsonTraceFeatures {
            layout: false,
            tcache_candidates: false,
            tcache_struct: false,
            libc_symbols: true,
        },
    };

    let formatted = format_replay_record(&record, &ReplayConfig::default());

    assert!(formatted.contains("    launch mode: custom_loader_with_preload"));
    assert!(formatted.contains("    loader: ./ld-linux-x86-64.so.2"));
    assert!(formatted.contains("    library path: ."));
    assert!(formatted.contains("    preload: ./libc.so.6"));
    assert!(formatted.contains("    cwd: ./challenge"));
    assert!(formatted.contains("    stdin: file examples/menu_script.txt"));
    assert!(formatted.contains("    env: clear=true set=2 unset=1"));
    assert!(formatted.contains("    env set: PATH, GLIBC_TUNABLES"));
    assert!(formatted.contains("    env unset: LD_DEBUG"));
}

#[test]
fn replay_session_records_for_event_returns_matching_related_records() {
    let session = ReplaySession::from_records(vec![
        session_start_record(),
        malloc_record(1),
        layout_record(1),
        tcache_record(2),
        session_end_record(1),
    ]);

    let records = session.records_for_event(1);

    assert_eq!(records.len(), 2);
    assert!(matches!(
        records[0],
        JsonTraceRecord::Event { .. }
    ));
    assert!(matches!(
        records[1],
        JsonTraceRecord::HeapLayout { .. }
    ));
}

#[test]
fn replay_session_indexes_allocator_source_summary_by_event_id() {
    let session = ReplaySession::from_records(vec![allocator_source_summary_record(9)]);

    assert_eq!(
        session.allocator_states_by_event_id.get(&9),
        Some(&ReplayEventAllocatorState {
            event_id: 9,
            tcache_candidate_chunks: 7,
            fastbin_chunks: 1,
            unsorted_chunks: 0,
            smallbin_chunks: 0,
            largebin_chunks: 0,
            total_free_list_chunks: 8,
            warning_count: 0,
        })
    );
}

#[test]
fn replay_session_indexes_allocator_source_delta_by_event_id() {
    let session = ReplaySession::from_records(vec![allocator_source_delta_record(9)]);
    let delta = session.allocator_deltas_by_event_id.get(&9).unwrap();

    assert_eq!(delta.event_id, 9);
    assert_eq!(delta.tcache_candidate_chunks_delta, 0);
    assert_eq!(delta.fastbin_chunks_delta, 1);
    assert_eq!(delta.unsorted_chunks_delta, 0);
    assert_eq!(delta.smallbin_chunks_delta, 0);
    assert_eq!(delta.largebin_chunks_delta, 0);
    assert_eq!(delta.total_free_list_chunks_delta, 1);
    assert_eq!(delta.warning_count_delta, 0);
}

#[test]
fn timeline_allocator_counts_are_empty_when_summary_is_missing() {
    assert_eq!(format_timeline_allocator_counts(None), "");
}

#[test]
fn timeline_allocator_counts_are_compact() {
    let state = ReplayEventAllocatorState {
        event_id: 9,
        tcache_candidate_chunks: 7,
        fastbin_chunks: 1,
        unsorted_chunks: 0,
        smallbin_chunks: 0,
        largebin_chunks: 0,
        total_free_list_chunks: 8,
        warning_count: 0,
    };

    assert_eq!(
        format_timeline_allocator_counts(Some(&state)),
        "tc=7 fb=1 ub=0 sb=0 lb=0 warn=0"
    );
}

#[test]
fn timeline_event_summary_includes_allocator_counts_when_present() {
    let event = event_from_record(free_record(9));
    let state = ReplayEventAllocatorState {
        event_id: 9,
        tcache_candidate_chunks: 7,
        fastbin_chunks: 1,
        unsorted_chunks: 0,
        smallbin_chunks: 0,
        largebin_chunks: 0,
        total_free_list_chunks: 8,
        warning_count: 0,
    };

    assert_eq!(
        format_timeline_event_summary(&event, Some(&state)),
        "#9 free(0x1000)    tc=7 fb=1 ub=0 sb=0 lb=0 warn=0"
    );
}

#[test]
fn timeline_event_summary_omits_allocator_counts_when_missing() {
    let event = event_from_record(free_record(9));

    assert_eq!(
        format_timeline_event_summary(&event, None),
        "#9 free(0x1000)"
    );
}

#[test]
fn replay_session_event_record_handles_out_of_range_selection() {
    let session = ReplaySession::from_records(vec![malloc_record(1)]);

    assert!(session.event_record(0).is_some());
    assert!(session.event_record(1).is_none());
}

#[test]
fn replay_event_summary_formats_allocator_calls() {
    assert_eq!(
        summary_for_event(JsonHeapEvent::Malloc {
            event_id: 1,
            requested_size: "0x20".to_string(),
            returned_ptr: "0x1000".to_string(),
            chunk: None,
            caller_addr: None,
            caller_symbol: None,
            tracker_note: "NewAllocation".to_string(),
            tracker_explanation: None,
        }),
        "#1 malloc(0x20) = 0x1000"
    );
    assert_eq!(
        summary_for_event(JsonHeapEvent::Free {
            event_id: 2,
            ptr: "0x1000".to_string(),
            chunk: None,
            tcache_entry: None,
            caller_addr: None,
            caller_symbol: None,
            tracker_note: "FreedKnownChunk".to_string(),
            tracker_explanation: None,
        }),
        "#2 free(0x1000)"
    );
    assert_eq!(
        summary_for_event(JsonHeapEvent::Calloc {
            event_id: 3,
            nmemb: "0x4".to_string(),
            size: "0x10".to_string(),
            returned_ptr: "0x2000".to_string(),
            chunk: None,
            caller_addr: None,
            caller_symbol: None,
            tracker_note: "NewAllocation".to_string(),
            tracker_explanation: None,
        }),
        "#3 calloc(0x4, 0x10) = 0x2000"
    );
    assert_eq!(
        summary_for_event(JsonHeapEvent::Realloc {
            event_id: 4,
            old_ptr: "0x2000".to_string(),
            new_size: "0x80".to_string(),
            returned_ptr: "0x3000".to_string(),
            old_chunk: None,
            new_chunk: None,
            caller_addr: None,
            caller_symbol: None,
            tracker_note: "ReallocMovedAllocation".to_string(),
            tracker_explanation: None,
        }),
        "#4 realloc(0x2000, 0x80) = 0x3000"
    );
}

#[test]
fn replay_renders_caller_addr_when_present() {
    let record: JsonTraceRecord = JsonTraceRecord::Event {
        event: JsonHeapEvent::Malloc {
            event_id: 1,
            requested_size: "0x20".to_string(),
            returned_ptr: "0x1000".to_string(),
            chunk: None,
            caller_addr: Some("0x5555555551b4".to_string()),
            caller_symbol: None,
            tracker_note: "NewAllocation".to_string(),
            tracker_explanation: None,
        },
    };

    let formatted = format_replay_record(&record, &ReplayConfig::default());

    assert!(formatted.contains("    caller:     0x5555555551b4"));
}

#[test]
fn symbolized_caller_format_omits_zero_offset() {
    let caller = SymbolizedAddress {
        addr: 0x555555555180,
        object_name: None,
        symbol: "main".to_string(),
        symbol_addr: 0x555555555180,
        offset: 0,
        source: None,
    };

    assert_eq!(format_symbolized_caller(&caller), "main (0x555555555180)");
}

#[test]
fn symbolized_caller_format_includes_nonzero_offset() {
    let caller = SymbolizedAddress {
        addr: 0x5555555551b8,
        object_name: None,
        symbol: "main".to_string(),
        symbol_addr: 0x555555555180,
        offset: 0x38,
        source: None,
    };

    assert_eq!(
        format_symbolized_caller(&caller),
        "main+0x38 (0x5555555551b8)"
    );
}

#[test]
fn symbolized_shared_library_caller_format_includes_object_prefix() {
    let caller = SymbolizedAddress {
        addr: 0x7ffff7e00110,
        object_name: Some("libc.so.6".to_string()),
        symbol: "__libc_malloc".to_string(),
        symbol_addr: 0x7ffff7e00100,
        offset: 0x10,
        source: None,
    };

    assert_eq!(
        format_symbolized_caller(&caller),
        "libc.so.6!__libc_malloc+0x10 (0x7ffff7e00110)"
    );
}

#[test]
fn replay_renders_symbolized_caller_when_present() {
    let record: JsonTraceRecord = JsonTraceRecord::Event {
        event: JsonHeapEvent::Malloc {
            event_id: 1,
            requested_size: "0x20".to_string(),
            returned_ptr: "0x1000".to_string(),
            chunk: None,
            caller_addr: Some("0x5555555551b8".to_string()),
            caller_symbol: Some(JsonCallerSymbol {
                symbol: "allocate_from_main".to_string(),
                symbol_addr: "0x555555555180".to_string(),
                offset: "0x38".to_string(),
                object: None,
                source: None,
            }),
            tracker_note: "NewAllocation".to_string(),
            tracker_explanation: None,
        },
    };

    let formatted = format_replay_record(&record, &ReplayConfig::default());

    assert!(formatted.contains("    caller:     allocate_from_main+0x38 (0x5555555551b8)"));
}

#[test]
fn replay_renders_caller_source_line_when_present() {
    let record: JsonTraceRecord = JsonTraceRecord::Event {
        event: JsonHeapEvent::Malloc {
            event_id: 1,
            requested_size: "0x20".to_string(),
            returned_ptr: "0x1000".to_string(),
            chunk: None,
            caller_addr: Some("0x5555555551b8".to_string()),
            caller_symbol: Some(JsonCallerSymbol {
                symbol: "allocate_from_main".to_string(),
                symbol_addr: "0x555555555180".to_string(),
                offset: "0x38".to_string(),
                object: None,
                source: Some(JsonSourceLocation {
                    file: Some("examples/simple_malloc.c".to_string()),
                    line: Some(12),
                    column: None,
                }),
            }),
            tracker_note: "NewAllocation".to_string(),
            tracker_explanation: None,
        },
    };

    let formatted = format_replay_record(&record, &ReplayConfig::default());

    assert!(formatted.contains("    caller:     allocate_from_main+0x38 (0x5555555551b8)"));
    assert!(formatted.contains("    at          examples/simple_malloc.c:12"));
}

#[test]
fn replay_renders_caller_source_column_when_present() {
    let record: JsonTraceRecord = JsonTraceRecord::Event {
        event: JsonHeapEvent::Malloc {
            event_id: 1,
            requested_size: "0x20".to_string(),
            returned_ptr: "0x1000".to_string(),
            chunk: None,
            caller_addr: Some("0x5555555551b8".to_string()),
            caller_symbol: Some(JsonCallerSymbol {
                symbol: "allocate_from_main".to_string(),
                symbol_addr: "0x555555555180".to_string(),
                offset: "0x38".to_string(),
                object: None,
                source: Some(JsonSourceLocation {
                    file: Some("examples/simple_malloc.c".to_string()),
                    line: Some(12),
                    column: Some(7),
                }),
            }),
            tracker_note: "NewAllocation".to_string(),
            tracker_explanation: None,
        },
    };

    let formatted = format_replay_record(&record, &ReplayConfig::default());

    assert!(formatted.contains("    at          examples/simple_malloc.c:12:7"));
}

#[test]
fn replay_renders_object_aware_caller_symbol_when_present() {
    let record: JsonTraceRecord = JsonTraceRecord::Event {
        event: JsonHeapEvent::Malloc {
            event_id: 1,
            requested_size: "0x20".to_string(),
            returned_ptr: "0x1000".to_string(),
            chunk: None,
            caller_addr: Some("0x7ffff7e00110".to_string()),
            caller_symbol: Some(JsonCallerSymbol {
                symbol: "__libc_malloc".to_string(),
                symbol_addr: "0x7ffff7e00100".to_string(),
                offset: "0x10".to_string(),
                object: Some("libc.so.6".to_string()),
                source: None,
            }),
            tracker_note: "NewAllocation".to_string(),
            tracker_explanation: None,
        },
    };

    let formatted = format_replay_record(&record, &ReplayConfig::default());

    assert!(formatted.contains("    caller:     libc.so.6!__libc_malloc+0x10 (0x7ffff7e00110)"));
}

#[test]
fn replay_events_only_suppresses_caller_addr() {
    let record: JsonTraceRecord = JsonTraceRecord::Event {
        event: JsonHeapEvent::Free {
            event_id: 2,
            ptr: "0x1000".to_string(),
            chunk: None,
            tcache_entry: None,
            caller_addr: Some("0x5555555551f0".to_string()),
            caller_symbol: None,
            tracker_note: "FreedKnownChunk".to_string(),
            tracker_explanation: None,
        },
    };
    let config = ReplayConfig {
        events_only: true,
        show_chunks: false,
        tui: false,
    };

    let formatted = format_replay_record(&record, &config);

    assert!(!formatted.contains("caller:"));
}

#[test]
fn replay_parses_and_formats_main_arena_candidate_record() {
    let record: JsonTraceRecord = JsonTraceRecord::MainArenaCandidate {
        event_id: 1,
        candidate: JsonMainArenaCandidate {
            libc_path: "/lib/libc.so.6".to_string(),
            symbol_name: "main_arena".to_string(),
            runtime_addr: "0x7ffff7dd1b80".to_string(),
            source: "user_offset".to_string(),
            offset: Some("0x1d3c60".to_string()),
        },
    };

    assert_eq!(replay_record_event_id(&record), Some(1));
    let formatted = format_replay_record(&record, &ReplayConfig::default());

    assert!(formatted.contains("main_arena candidate:"));
    assert!(formatted.contains("    symbol: main_arena"));
    assert!(formatted.contains("    addr:   0x7ffff7dd1b80"));
    assert!(formatted.contains("    source: user_offset"));
    assert!(formatted.contains("    offset: 0x1d3c60"));
}

#[test]
fn replay_parses_and_formats_main_arena_experiment_record() {
    let record: JsonTraceRecord = JsonTraceRecord::MainArenaExperiment {
        event_id: 1,
        arena_addr: "0x7ffff7bd3c60".to_string(),
        candidates: vec![
            JsonMainArenaPointerCandidate {
                field_offset: "0x60".to_string(),
                value: "0x55555555a000".to_string(),
                points_into_heap: true,
                matches_heap_chunk: true,
                matched_chunk_size: Some("0x21000".to_string()),
                role_hint: "candidate_top".to_string(),
            },
        ],
    };

    assert_eq!(replay_record_event_id(&record), Some(1));
    let formatted = format_replay_record(&record, &ReplayConfig::default());

    assert!(formatted.contains("main_arena experiment:"));
    assert!(formatted.contains("    arena: 0x7ffff7bd3c60"));
    assert!(formatted.contains(
        "        offset=0x60 value=0x55555555a000 role=candidate_top matched_chunk_size=0x21000"
    ));
}

#[test]
fn replay_parses_and_formats_main_arena_top_candidate_record() {
    let record: JsonTraceRecord = JsonTraceRecord::MainArenaTopCandidate {
        event_id: 1,
        arena_addr: "0x7ffff7bd3c60".to_string(),
        field_offset: "0x60".to_string(),
        top_addr: "0x55555555a000".to_string(),
        points_into_heap: true,
        matches_heap_chunk: true,
        chunk_size: Some("0x21000".to_string()),
        status: "matches_walked_chunk".to_string(),
        source: "glibc_profile".to_string(),
        profile: Some("glibc-test".to_string()),
    };

    assert_eq!(replay_record_event_id(&record), Some(1));
    let formatted = format_replay_record(&record, &ReplayConfig::default());

    assert!(formatted.contains("main_arena top candidate:"));
    assert!(formatted.contains("    arena:       0x7ffff7bd3c60"));
    assert!(formatted.contains("    field:       0x60"));
    assert!(formatted.contains("    top:         0x55555555a000"));
    assert!(formatted.contains("    source:      glibc_profile"));
    assert!(formatted.contains("    profile:     glibc-test"));
    assert!(formatted.contains("    chunk size:  0x21000"));
    assert!(formatted.contains("    status:      points into heap and matches walked chunk"));
}

#[test]
fn replay_parses_and_formats_main_arena_view_record() {
    let record: JsonTraceRecord = JsonTraceRecord::MainArenaView {
        event_id: 1,
        arena: JsonMainArenaViewArena {
            addr: "0x7ffff7bd3c60".to_string(),
            source: "user_offset".to_string(),
            offset: Some("0x1d3c60".to_string()),
            libc_path: "/lib/libc.so.6".to_string(),
        },
        top: Some(JsonMainArenaViewTop {
            field_offset: "0x60".to_string(),
            value: "0x55555555a000".to_string(),
            size: Some("0x21000".to_string()),
            source: "glibc_profile".to_string(),
            profile: Some("glibc-2.35-x86_64".to_string()),
            status: "validated".to_string(),
        }),
    };

    assert_eq!(replay_record_event_id(&record), Some(1));
    let formatted = format_replay_record(&record, &ReplayConfig::default());

    assert!(formatted.contains("main_arena:"));
    assert!(formatted.contains("    addr:        0x7ffff7bd3c60"));
    assert!(formatted.contains("        value:   0x55555555a000"));
    assert!(formatted.contains("        status:  validated"));
}

#[test]
fn replay_parses_and_formats_fastbin_experiment_record() {
    let record: JsonTraceRecord = JsonTraceRecord::FastbinExperiment {
        event_id: 7,
        arena_addr: "0x7ffff7bd3c60".to_string(),
        candidates: vec![
            JsonFastbinPointerCandidate {
                field_offset: "0x20".to_string(),
                value: "0x55555555a000".to_string(),
                possible_chunk_size: Some("0x30".to_string()),
                points_into_heap: true,
                matches_heap_chunk: true,
                known_freed: Some(true),
                role: "fastbin_candidate".to_string(),
            },
        ],
    };

    assert_eq!(replay_record_event_id(&record), Some(7));
    let formatted = format_replay_record(&record, &ReplayConfig::default());

    assert!(formatted.contains("fastbin experiment:"));
    assert!(formatted
        .contains("        offset=0x20 value=0x55555555a000 chunk_size=0x30 known_freed=yes"));
}

#[test]
fn replay_parses_and_formats_unsorted_bin_experiment_record() {
    let record: JsonTraceRecord = JsonTraceRecord::UnsortedBinExperiment {
        event_id: 7,
        arena_addr: "0x7ffff7bd3c60".to_string(),
        candidates: vec![
            JsonUnsortedBinPointerCandidate {
                field_offset: "0x70".to_string(),
                fd: "0x55555555a000".to_string(),
                bk: "0x55555555b000".to_string(),
                fd_points_into_heap: true,
                bk_points_into_heap: true,
                fd_matches_heap_chunk: true,
                bk_matches_heap_chunk: false,
                fd_known_freed: Some(true),
                bk_known_freed: Some(false),
                role: "unsorted_candidate".to_string(),
            },
        ],
    };

    assert_eq!(replay_record_event_id(&record), Some(7));
    let formatted = format_replay_record(&record, &ReplayConfig::default());

    assert!(formatted.contains("unsorted bin experiment:"));
    assert!(formatted.contains("offset=0x70 fd=0x55555555a000 fd_in_heap=yes fd_known_freed=yes bk=0x55555555b000 bk_in_heap=yes bk_known_freed=no role=unsorted_candidate"));
}

#[test]
fn replay_parses_and_formats_bin_experiment_record() {
    let record: JsonTraceRecord = JsonTraceRecord::BinExperiment {
        event_id: 7,
        arena_addr: "0x7ffff7bd3c60".to_string(),
        candidates: vec![
            JsonBinPointerCandidate {
                field_offset: "0x90".to_string(),
                fd: "0x55555555a000".to_string(),
                bk: "0x7ffff7bd3cf0".to_string(),
                fd_points_into_heap: true,
                bk_points_into_heap: false,
                fd_points_into_arena: false,
                bk_points_into_arena: true,
                fd_matches_heap_chunk: true,
                bk_matches_heap_chunk: false,
                fd_known_freed: Some(true),
                bk_known_freed: None,
                role: "bin_sentinel_candidate".to_string(),
            },
        ],
    };

    assert_eq!(replay_record_event_id(&record), Some(7));
    let formatted = format_replay_record(&record, &ReplayConfig::default());

    assert!(formatted.contains("bin experiment:"));
    assert!(formatted.contains("offset=0x90 fd=0x55555555a000 fd_in_heap=yes fd_in_arena=no fd_known_freed=yes bk=0x7ffff7bd3cf0 bk_in_heap=no bk_in_arena=yes bk_known_freed=unknown role=bin_sentinel_candidate"));
}

#[test]
fn replay_parses_and_formats_unsorted_bin_record() {
    let record: JsonTraceRecord = JsonTraceRecord::UnsortedBin {
        event_id: 7,
        arena_addr: "0x7ffff7bd3c60".to_string(),
        field_offset: "0x70".to_string(),
        fd: "0x55555555a000".to_string(),
        bk: "0x55555555b000".to_string(),
        fd_points_into_heap: true,
        bk_points_into_heap: true,
        fd_matches_heap_chunk: true,
        bk_matches_heap_chunk: false,
        fd_known_freed: Some(true),
        bk_known_freed: Some(false),
        chain: None,
    };

    assert_eq!(replay_record_event_id(&record), Some(7));
    let formatted = format_replay_record(&record, &ReplayConfig::default());

    assert!(formatted.contains("unsorted bin:"));
    assert!(formatted.contains("    offset: 0x70"));
    assert!(formatted.contains("    fd_known_freed: yes"));
    assert!(formatted.contains("    bk_known_freed: no"));
}

#[test]
fn replay_parses_and_formats_unsorted_bin_validation_record() {
    let record: JsonTraceRecord = JsonTraceRecord::UnsortedBinValidation {
        event_id: 7,
        validation: JsonUnsortedBinValidation {
            head_in_heap: "yes".to_string(),
            fd_bk_consistent: "yes".to_string(),
            nodes_known_freed: "yes".to_string(),
            chain_complete: "yes".to_string(),
            status: "plausible".to_string(),
        },
    };

    assert_eq!(replay_record_event_id(&record), Some(7));
    let formatted = format_replay_record(&record, &ReplayConfig::default());

    assert!(formatted.contains("unsorted bin validation:"));
    assert!(formatted.contains("    status: plausible"));
}

#[test]
fn replay_parses_and_formats_allocator_warnings_record() {
    let record: JsonTraceRecord = JsonTraceRecord::AllocatorWarnings {
        event_id: 9,
        warnings: vec![
            JsonAllocatorWarning {
                kind: "conflicting_allocator_sources".to_string(),
                chunk_addr: "0x1000".to_string(),
                user_addr: "0x1010".to_string(),
                sources: vec![
                    JsonAllocatorSourceMembership {
                        kind: "tcache_candidate".to_string(),
                        chunk_size: Some("0x30".to_string()),
                        index: Some(7),
                        chunk_addr: "0x1000".to_string(),
                        user_addr: "0x1010".to_string(),
                    },
                    JsonAllocatorSourceMembership {
                        kind: "fastbin".to_string(),
                        chunk_size: Some("0x30".to_string()),
                        index: Some(0),
                        chunk_addr: "0x1000".to_string(),
                        user_addr: "0x1010".to_string(),
                    },
                ],
                message: "chunk appears in multiple allocator sources".to_string(),
            },
        ],
    };

    assert_eq!(replay_record_event_id(&record), Some(9));
    let formatted = format_replay_record(&record, &ReplayConfig::default());

    assert!(formatted.contains("allocator warnings:"));
    assert!(formatted.contains("[conflicting_allocator_sources]"));
    assert!(formatted.contains("sources=tcache_candidate[0x30]#7,fastbin[0x30]#0"));
}

#[test]
fn replay_parses_and_formats_heap_scan_record() {
    let record: JsonTraceRecord = JsonTraceRecord::HeapScan {
        event_id: 9,
        report: JsonHeapScanReport {
            chunks_walked: 2,
            allocated_observed: 1,
            freed_observed: 1,
            unknown_observed: 0,
            allocator_source_chunks: 1,
            warning_count: 1,
            suspicious_count: 1,
            top_validated: Some(false),
            heap_snapshot_truncated: false,
            status: "suspicious".to_string(),
            findings: vec![
                JsonHeapScanFinding {
                    severity: "suspicious".to_string(),
                    kind: "free_list_size_mismatch".to_string(),
                    chunk_addr: Some("0x1000".to_string()),
                    user_addr: Some("0x1010".to_string()),
                    message: "fastbin[0x30] expected size 0x30 but chunk has size 0x40".to_string(),
                },
            ],
        },
    };

    assert_eq!(replay_record_event_id(&record), Some(9));
    let formatted = format_replay_record(&record, &ReplayConfig::default());

    assert!(formatted.contains("heap scan:"));
    assert!(formatted.contains("    chunks walked:          2"));
    assert!(formatted.contains("    top chunk:              not_validated"));
    assert!(formatted.contains("[suspicious] free_list_size_mismatch chunk=0x1000 user=0x1010"));
}

#[test]
fn replay_parses_and_formats_allocator_source_summary_record() {
    let record: JsonTraceRecord = JsonTraceRecord::AllocatorSourceSummary {
        event_id: 9,
        tcache_candidate_chunks: 1,
        fastbin_chunks: 2,
        unsorted_chunks: 3,
        smallbin_chunks: 4,
        largebin_chunks: 0,
        total_free_list_chunks: 4,
        warning_count: 5,
    };

    assert_eq!(replay_record_event_id(&record), Some(9));
    let formatted = format_replay_record(&record, &ReplayConfig::default());

    assert!(formatted.contains("allocator source summary:"));
    assert!(formatted.contains("    tcache candidates: 1 chunks"));
    assert!(formatted.contains("    smallbins:         4 chunks"));
    assert!(formatted.contains("    total free-list:   4 chunks"));
    assert!(formatted.contains("    warnings:          5"));
}

#[test]
fn allocator_source_delta_formatting_renders_positive_negative_and_unchanged() {
    assert_eq!(format_allocator_source_delta(2), "+2");
    assert_eq!(format_allocator_source_delta(-3), "-3");
    assert_eq!(format_allocator_source_delta(0), "unchanged");
}

#[test]
fn replay_parses_and_formats_allocator_source_delta_record() {
    let record: JsonTraceRecord = JsonTraceRecord::AllocatorSourceDelta {
        event_id: 9,
        tcache_candidate_chunks_delta: 1,
        fastbin_chunks_delta: -2,
        unsorted_chunks_delta: 0,
        smallbin_chunks_delta: 2,
        largebin_chunks_delta: 0,
        total_free_list_chunks_delta: 3,
        warning_count_delta: 0,
    };

    assert_eq!(replay_record_event_id(&record), Some(9));
    let formatted = format_replay_record(&record, &ReplayConfig::default());

    assert!(formatted.contains("allocator delta:"));
    assert!(formatted.contains("    tcache candidates: +1"));
    assert!(formatted.contains("    fastbins:          -2"));
    assert!(formatted.contains("    unsorted bin:      unchanged"));
    assert!(formatted.contains("    smallbins:         +2"));
    assert!(formatted.contains("    total free-list:   +3"));
    assert!(formatted.contains("    warnings:          unchanged"));
}

#[test]
fn replay_parses_and_formats_fastbins_record() {
    let record: JsonTraceRecord = JsonTraceRecord::Fastbins {
        event_id: 8,
        arena_addr: "0x7ffff7bd3c60".to_string(),
        heads: vec![
            JsonFastbinHead {
                index: 1,
                chunk_size: "0x30".to_string(),
                field_offset: "0x18".to_string(),
                head: "0x55555555a000".to_string(),
                points_into_heap: true,
                matches_heap_chunk: true,
                known_freed: Some(true),
            },
        ],
        chains: vec![
            JsonFastbinChain {
                index: 1,
                chunk_size: "0x30".to_string(),
                head: "0x55555555a000".to_string(),
                nodes: vec![
                    JsonFastbinNode {
                        chunk_addr: "0x55555555a000".to_string(),
                        user_addr: "0x55555555a010".to_string(),
                        encoded_next: "0x0".to_string(),
                        decoded_next: "0x0".to_string(),
                        chunk_size: Some("0x30".to_string()),
                        matches_heap_chunk: true,
                        known_freed: Some(true),
                    },
                ],
                truncated: false,
                stopped_on_unknown_next: false,
                cycle_detected: false,
            },
        ],
    };

    assert_eq!(replay_record_event_id(&record), Some(8));
    let formatted = format_replay_record(&record, &ReplayConfig::default());

    assert!(formatted.contains("fastbins:"));
    assert!(formatted
        .contains("    bin[1] size=0x30 head=0x55555555a000 in_heap=yes known_freed=yes"));
    assert!(formatted.contains("        chain: 0x55555555a000 -> NULL"));
}

#[test]
fn replay_parses_and_formats_regular_bins_record() {
    let record: JsonTraceRecord = JsonTraceRecord::RegularBins {
        event_id: 8,
        arena_addr: "0x7ffff7bd3c60".to_string(),
        bins_offset: "0x70".to_string(),
        heads: vec![
            JsonRegularBinHead {
                index: 0,
                glibc_bin_index: 1,
                role: "unsorted".to_string(),
                chunk_size: None,
                field_offset: "0x70".to_string(),
                fd: "0x7ffff7bd3cd0".to_string(),
                bk: "0x7ffff7bd3cd0".to_string(),
                empty: true,
                fd_points_into_heap: false,
                bk_points_into_heap: false,
                fd_points_into_arena: true,
                bk_points_into_arena: true,
                fd_matches_heap_chunk: false,
                bk_matches_heap_chunk: false,
                fd_known_freed: None,
                bk_known_freed: None,
            },
        ],
    };

    assert_eq!(replay_record_event_id(&record), Some(8));
    let formatted = format_replay_record(&record, &ReplayConfig::default());

    assert!(formatted.contains("regular bins:"));
    assert!(formatted.contains("    bins_offset: 0x70"));
    assert!(formatted
        .contains("    bin[0] glibc_bin_index=1 role=unsorted fd=0x7ffff7bd3cd0 bk=0x7ffff7bd3cd0 empty=yes"));
    assert_eq!(
        format_replay_regular_bins(
            "0x1",
            "0x70",
            &vec![],
            &ReplayConfig {
                events_only: true,
                show_chunks: false,
                tui: false,
            },
        ),
        ""
    );
}

#[test]
fn replay_parses_and_formats_smallbins_record() {
    let record: JsonTraceRecord = JsonTraceRecord::Smallbins {
        event_id: 8,
        arena_addr: "0x7ffff7bd3c60".to_string(),
        bins_offset: "0x70".to_string(),
        chains: vec![
            JsonSmallbinChain {
                regular_index: 31,
                glibc_bin_index: 32,
                expected_chunk_size: "0x200".to_string(),
                sentinel_addr: "0x7ffff7bd3ec0".to_string(),
                head: "0x55555555a000".to_string(),
                tail: "0x55555555a000".to_string(),
                nodes: vec![
                    JsonSmallbinNode {
                        chunk_addr: "0x55555555a000".to_string(),
                        user_addr: "0x55555555a010".to_string(),
                        fd: "0x7ffff7bd3ec0".to_string(),
                        bk: "0x7ffff7bd3ec0".to_string(),
                        chunk_size: Some("0x200".to_string()),
                        matches_heap_chunk: true,
                        known_freed: Some(true),
                        fd_points_to_sentinel: true,
                        bk_points_to_sentinel: true,
                    },
                ],
                empty: false,
                truncated: false,
                stopped_on_unknown_next: false,
                cycle_detected: false,
                fd_bk_consistent: true,
            },
        ],
    };

    assert_eq!(replay_record_event_id(&record), Some(8));
    let formatted = format_replay_record(&record, &ReplayConfig::default());

    assert!(formatted.contains("smallbins:"));
    assert!(formatted.contains("    bin[32] size=0x200:"));
    assert!(formatted.contains(
        "            0x55555555a000 size=0x200 fd=0x7ffff7bd3ec0 bk=0x7ffff7bd3ec0 known_freed=yes"
    ));
}

#[test]
fn replay_parses_and_formats_fastbin_validation_record() {
    let record: JsonTraceRecord = JsonTraceRecord::FastbinValidation {
        event_id: 8,
        validations: vec![
            JsonFastbinBinValidation {
                index: 1,
                chunk_size: "0x30".to_string(),
                head: "0x55555555a000".to_string(),
                head_in_heap: "yes".to_string(),
                nodes_same_size: "yes".to_string(),
                nodes_known_freed: "yes".to_string(),
                chain_complete: "yes".to_string(),
                status: "plausible".to_string(),
            },
        ],
    };

    assert_eq!(replay_record_event_id(&record), Some(8));
    let formatted = format_replay_record(&record, &ReplayConfig::default());

    assert!(formatted.contains("fastbin validation:"));
    assert!(formatted.contains("    bin[1] size=0x30:"));
    assert!(formatted.contains("        status: plausible"));
}

#[test]
fn formats_observed_tcache_chain() {
    let chain = ObservedTcacheChain {
        chunk_size: 0x30,
        head: Some(0x2000),
        entries: vec![0x2000, 0x1000],
        truncated: false,
        stopped_on_unknown_next: false,
    };

    assert_eq!(
        format_observed_tcache_chain(&chain),
        "size 0x30: 0x2000 -> 0x1000 -> NULL"
    );
}

#[test]
fn formats_unknown_observed_tcache_chain() {
    let chain = ObservedTcacheChain {
        chunk_size: 0x30,
        head: Some(0x2000),
        entries: vec![0x2000, 0x41414141],
        truncated: false,
        stopped_on_unknown_next: true,
    };

    assert_eq!(
        format_observed_tcache_chain(&chain),
        "size 0x30: 0x2000 -> 0x41414141 -> ?"
    );
}

#[test]
fn formats_truncated_observed_tcache_chain() {
    let chain = ObservedTcacheChain {
        chunk_size: 0x30,
        head: Some(0x3000),
        entries: vec![0x3000, 0x2000],
        truncated: true,
        stopped_on_unknown_next: false,
    };

    assert_eq!(
        format_observed_tcache_chain(&chain),
        "size 0x30: 0x3000 -> 0x2000 -> ... truncated"
    );
}

fn session_start_record() -> JsonTraceRecord {
    JsonTraceRecord::SessionStart {
        heapify_version: "0.1.0".to_string(),
        program: "./prog".to_string(),
        args: vec!["arg".to_string()],
        trace_mode: "target_plt".to_string(),
        arch: "x86_64".to_string(),
        os: "linux".to_string(),
        glibc_profile: "glibc-x86_64-modern".to_string(),
        suggested_glibc_profile: None,
        glibc_profile_selection: None,
        libc: Some(JsonLibcMetadata {
            path: Some("/lib/libc.so.6".to_string()),
            supplied_path: None,
            paths_match: None,
            version: Some("2.39".to_string()),
        }),
        launch: None,
        allocator_views_preset: "none".to_string(),
        features: JsonTraceFeatures {
            layout: true,
            tcache_candidates: false,
            tcache_struct: false,
            libc_symbols: false,
        },
    }
}

fn glibc_profile_selection_session_start_record(
    confidence: &str,
    allocator_views_preset: &str,
) -> JsonTraceRecord {
    JsonTraceRecord::SessionStart {
        heapify_version: "0.1.0".to_string(),
        program: "./prog".to_string(),
        args: vec![],
        trace_mode: "target_plt".to_string(),
        arch: "x86_64".to_string(),
        os: "linux".to_string(),
        glibc_profile: "glibc-x86_64-modern".to_string(),
        suggested_glibc_profile: None,
        glibc_profile_selection: Some(GlibcProfileSelection {
            requested: "auto".to_string(),
            selected: "glibc-x86_64-modern".to_string(),
            detected_version: Some("2.39".to_string()),
            detected_libc_path: Some("/lib/libc.so.6".to_string()),
            supplied_libc_path: None,
            confidence: confidence_of(confidence),
            reason: "detected glibc 2.39 has no exact profile; using generic modern profile".to_string(),
            warnings: vec!["no exact glibc profile for detected version 2.39".to_string()],
        }),
        libc: None,
        launch: None,
        allocator_views_preset: allocator_views_preset.to_string(),
        features: JsonTraceFeatures {
            layout: true,
            tcache_candidates: true,
            tcache_struct: false,
            libc_symbols: false,
        },
    }
}

fn session_end_record(event_count: usize) -> JsonTraceRecord {
    JsonTraceRecord::SessionEnd {
        exit_status: "unknown".to_string(),
        event_count: event_count,
    }
}

fn malloc_record(event_id: usize) -> JsonTraceRecord {
    JsonTraceRecord::Event {
        event: JsonHeapEvent::Malloc {
            event_id: event_id,
            requested_size: "0x20".to_string(),
            returned_ptr: "0x1000".to_string(),
            chunk: None,
            caller_addr: None,
            caller_symbol: None,
            tracker_note: "NewAllocation".to_string(),
            tracker_explanation: None,
        },
    }
}

fn free_record(event_id: usize) -> JsonTraceRecord {
    JsonTraceRecord::Event {
        event: JsonHeapEvent::Free {
            event_id: event_id,
            ptr: "0x1000".to_string(),
            chunk: None,
            tcache_entry: None,
            caller_addr: None,
            caller_symbol: None,
            tracker_note: "FreedKnownChunk".to_string(),
            tracker_explanation: None,
        },
    }
}

fn layout_record(event_id: usize) -> JsonTraceRecord {
    JsonTraceRecord::HeapLayout {
        event_id: event_id,
        heap_start: "0x1000".to_string(),
        heap_end: "0x2000".to_string(),
        chunks: vec![],
        truncated: false,
        chunks_omitted: 0,
    }
}

fn tcache_record(event_id: usize) -> JsonTraceRecord {
    JsonTraceRecord::ObservedTcacheChains {
        event_id: event_id,
        chains: vec![],
    }
}

fn allocator_source_summary_record(event_id: usize) -> JsonTraceRecord {
    JsonTraceRecord::AllocatorSourceSummary {
        event_id: event_id,
        tcache_candidate_chunks: 7,
        fastbin_chunks: 1,
        unsorted_chunks: 0,
        smallbin_chunks: 0,
        largebin_chunks: 0,
        total_free_list_chunks: 8,
        warning_count: 0,
    }
}

fn allocator_source_delta_record(event_id: usize) -> JsonTraceRecord {
    JsonTraceRecord::AllocatorSourceDelta {
        event_id: event_id,
        tcache_candidate_chunks_delta: 0,
        fastbin_chunks_delta: 1,
        unsorted_chunks_delta: 0,
        smallbin_chunks_delta: 0,
        largebin_chunks_delta: 0,
        total_free_list_chunks_delta: 1,
        warning_count_delta: 0,
    }
}

fn event_from_record(record: JsonTraceRecord) -> JsonHeapEvent {
    let JsonTraceRecord::Event { event } = record else {
        panic!("expected event record");
    };
    event
}

fn confidence_of(word: &str) -> GlibcProfileConfidence {
    match word {
        "high" => GlibcProfileConfidence::High,
        "medium" => GlibcProfileConfidence::Medium,
        _ => GlibcProfileConfidence::Low,
    }
}

fn summary_for_event(event: JsonHeapEvent) -> String {
    format_replay_event_summary(&event)
}
