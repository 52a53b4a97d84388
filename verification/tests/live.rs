//! The live screen.

use std::sync::mpsc::{channel, Sender};
use heapify_cli::breaks::{AllocatorBreakMatch, evaluate_allocator_break_conditions};
use heapify_cli::classify::{annotate_stack_value, classify_address};
use heapify_cli::config::AllocatorBreakCondition;
use heapify_cli::event::{HeapTraceEvent, HeapTrackerExplanation, HeapTrackerNote};
use heapify_cli::keys::{Key, KeyCode};
use heapify_cli::live::{
    DebuggerStopReason, LatestKind, LiveCommand, LiveCommandId, LiveCommandMessage,
    LiveCommandStatus, LiveTargetStatus, Stop, find_stop_of_event, latest_stop, previous_stop,
    validate_live_command,
};
use heapify_cli::live_app::{LiveTuiApp, LiveTuiPane};
use heapify_cli::live_keys::{
    KeyAction, execute_console_command, finish_live_send, handle_live_tui_key,
};
use heapify_cli::live_text::{
    collect_event_history_for_user_addr, collect_heap_scan_findings_for_chunk,
    format_live_allocator_summary_compact, format_live_code_context,
    format_live_heap_scan_compact, format_live_maps_tab, format_live_registers_pane,
    format_live_related_records_with_headings, format_live_stack_tab,
    live_chunk_inspector_text,
};
use heapify_cli::live_update::{
    JsonSessionEnd, JsonSessionStart, LiveTraceUpdate, trace_record,
};
use heapify_cli::panes::{LiveDebuggerPane, LiveRightTab, clamp_scroll};
use heapify_cli::record::{
    JsonHeapEvent, JsonHeapScanFinding, JsonHeapScanReport, JsonLayoutAllocatorSource,
    JsonLayoutChunk, JsonLibcMetadata, JsonTcacheMembership, JsonTraceFeatures,
    JsonTraceRecord,
};
use heapify_cli::record_text::explain_heap_scan_finding;
use heapify_cli::registers::{NameSet, diff_register_snapshots, render_register_lines};
use heapify_cli::replay::{format_replay_record, live_record_type_label};
use heapify_cli::replay_text::ReplayConfig;
use heapify_cli::search::{
    ConsoleCommand, HeapSearchQuery, parse_console_command, parse_heap_search_query,
};
use heapify_cli::snapshot::{
    AddressRegionKind, CodeContext, DisassemblyFlowControl, DisassemblyLine,
    DisassemblySnapshot, HeapAddressDetail, ProcessMapEntry, ProcessMapsSnapshot, RegisterArch,
    RegisterRole, RegisterSnapshot, RegisterValue, SourceLocation, StackSnapshot, StackWord,
};
use heapify_cli::stop_text::{
    build_code_context, build_minimal_code_context, format_code_context_lines,
    format_process_map_entry, format_stack_snapshot_lines,
};

#[test]
fn code_context_retains_metadata_when_disassembly_capture_fails() {
    let unread = DisassemblySnapshot {
        instruction_pointer: 0x4011a5,
        start_address: 0x4011a5,
        end_address: 0x4011a5,
        lines: vec![],
        truncated_before: false,
        truncated_after: false,
        read_error: Some("no such process".to_string()),
    };
    let context = build_code_context(0x4011a5, None, None, unread, &vec![]);

    assert_eq!(context.instruction_pointer, 0x4011a5);
    assert_eq!(context.symbol, None);
    let disassembly = context.disassembly.unwrap();
    assert!(disassembly.lines.is_empty());
    assert!(disassembly.read_error.is_some());
}

#[test]
fn live_trace_sink_collects_expected_update_order() {
    let event = HeapTraceEvent::Malloc {
        event_id: 1,
        requested_size: 0x20,
        returned_ptr: 0x1000,
        chunk: None,
        caller_addr: None,
    };
    let updates = vec![
        LiveTraceUpdate::SessionStart(JsonSessionStart {
            record: session_start_record(),
        }),
        LiveTraceUpdate::Event {
            event_id: 1,
            event,
            note: HeapTrackerNote::NewAllocation,
            explanation: HeapTrackerExplanation::NoExtraExplanation,
            caller_symbol: None,
        },
        LiveTraceUpdate::RelatedRecord {
            event_id: 1,
            record: layout_record(1),
        },
        LiveTraceUpdate::SessionEnd(JsonSessionEnd {
            record: session_end_record(1),
        }),
    ];

    let kinds: Vec<&str> = updates
        .into_iter()
        .map(|update| live_record_type_label(&trace_record(update).unwrap()))
        .collect();

    assert_eq!(
        kinds,
        vec!["session_start", "event", "heap_layout", "session_end"]
    );
}

#[test]
fn current_output_sink_writes_event_and_related_json_records() {
    let event = HeapTraceEvent::Malloc {
        event_id: 1,
        requested_size: 0x20,
        returned_ptr: 0x1000,
        chunk: None,
        caller_addr: None,
    };

    let first = trace_record(LiveTraceUpdate::Event {
        event_id: 1,
        event,
        note: HeapTrackerNote::NewAllocation,
        explanation: HeapTrackerExplanation::NoExtraExplanation,
        caller_symbol: None,
    });
    let second = trace_record(LiveTraceUpdate::RelatedRecord {
        event_id: 1,
        record: layout_record(1),
    });

    assert_eq!(first, Some(malloc_record(1)));
    assert!(matches!(
        second,
        Some(JsonTraceRecord::HeapLayout { event_id: 1, .. })
    ));
}

#[test]
fn live_tui_sink_does_not_write_command_status_to_json() {
    let update = LiveTraceUpdate::CommandStatus {
        command_id: Some(LiveCommandId(1)),
        command: Some(LiveCommand::Pause),
        status: LiveCommandStatus::Accepted,
        target_status: LiveTargetStatus::Running,
        message: "pause requested...".to_string(),
    };

    assert!(trace_record(update).is_none());
}

#[test]
fn live_tui_sink_does_not_write_process_maps_to_json() {
    let snapshot = test_process_maps();

    assert!(trace_record(LiveTraceUpdate::ProcessMaps { snapshot }).is_none());
}

#[test]
fn live_tui_sink_does_not_write_register_snapshot_to_json() {
    let update = LiveTraceUpdate::RegisterSnapshot {
        event_id: Some(1),
        snapshot: test_register_snapshot(0xd972a0),
    };

    assert!(trace_record(update).is_none());
}

#[test]
fn live_tui_sink_does_not_write_stack_snapshot_to_json() {
    let update = LiveTraceUpdate::StackSnapshot {
        event_id: Some(1),
        snapshot: test_stack_snapshot(&[0x4011a5]),
    };

    assert!(trace_record(update).is_none());
}

#[test]
fn live_tui_sink_does_not_write_code_context_to_json() {
    let update = LiveTraceUpdate::CodeContext {
        event_id: Some(1),
        context: test_code_context(0x4011a5),
    };

    assert!(trace_record(update).is_none());
}

#[test]
fn instruction_step_live_only_updates_are_ignored_by_json_sink() {
    let updates = vec![
        LiveTraceUpdate::CommandStatus {
            command_id: Some(LiveCommandId(1)),
            command: Some(LiveCommand::StepInstruction),
            status: LiveCommandStatus::Completed,
            target_status: LiveTargetStatus::Paused,
            message: "stepped instruction: 0x401000 -> 0x401001".to_string(),
        },
        LiveTraceUpdate::CommandStatus {
            command_id: Some(LiveCommandId(2)),
            command: Some(LiveCommand::StepInstructionOver),
            status: LiveCommandStatus::Completed,
            target_status: LiveTargetStatus::Paused,
            message: "nexti completed: 0x401001 -> 0x401006".to_string(),
        },
        LiveTraceUpdate::RegisterSnapshot {
            event_id: None,
            snapshot: test_register_snapshot(0x1),
        },
        LiveTraceUpdate::StackSnapshot {
            event_id: None,
            snapshot: test_stack_snapshot(&[0x401001]),
        },
        LiveTraceUpdate::CodeContext {
            event_id: None,
            context: test_code_context(0x401001),
        },
    ];

    assert_eq!(updates.len(), 5);
    for update in updates {
        assert!(trace_record(update).is_none());
    }
}

#[test]
fn live_tui_sink_does_not_write_break_matched_to_json() {
    let update = LiveTraceUpdate::BreakMatched(AllocatorBreakMatch {
        condition: AllocatorBreakCondition::Suspicious,
        event_id: 9,
        user_addr: Some(0x1010),
        message: "suspicious heap scan".to_string(),
    });

    assert!(trace_record(update).is_none());
}

#[test]
fn live_tui_app_session_start_stores_metadata() {
    let mut app = LiveTuiApp::default();

    app.apply_update(LiveTraceUpdate::SessionStart(
        JsonSessionStart {
            record: session_start_record(),
        },
    ));

    assert!(app.data.session_start.is_some());
    assert_eq!(app.control.status_line, "tracing...");
}

#[test]
fn live_tui_app_event_appends_and_follow_tail_selects_newest() {
    let mut app = LiveTuiApp::default();

    app.apply_update(malloc_live_update(1));
    app.apply_update(malloc_live_update(2));

    assert_eq!(app.data.events.len(), 2);
    assert_eq!(app.control.selected_index, 1);
    assert!(app.control.follow_tail);
}

#[test]
fn live_tui_app_stores_latest_register_snapshot() {
    let mut app = LiveTuiApp::default();
    let snapshot = test_register_snapshot(0xd972a0);

    app.apply_update(LiveTraceUpdate::RegisterSnapshot {
        event_id: None,
        snapshot: snapshot.clone(),
    });

    assert_eq!(latest_stop(&app.data.registers), Some(&snapshot));
    assert!(app.data.registers.iter().all(|stop| stop.event_id.is_none()));
    assert!(previous_stop(&app.data.registers).is_none());
    assert!(changed_registers(&app).is_empty());
}

#[test]
fn live_tui_app_stores_event_specific_register_snapshot() {
    let mut app = LiveTuiApp::default();
    let snapshot = test_register_snapshot(0xd972a0);

    app.apply_update(LiveTraceUpdate::RegisterSnapshot {
        event_id: Some(7),
        snapshot: snapshot.clone(),
    });

    assert_eq!(latest_stop(&app.data.registers), Some(&snapshot));
    assert_eq!(find_stop_of_event(&app.data.registers, 7), Some(&snapshot));
}

#[test]
fn build_minimal_code_context_sets_rip() {
    let context = build_minimal_code_context(0x4011a5);

    assert_eq!(context.instruction_pointer, 0x4011a5);
    assert_eq!(context.symbol, None);
    assert_eq!(context.object, None);
}

#[test]
fn format_code_context_lines_renders_rip() {
    let context = test_code_context(0x4011a5);

    let rendered = format_code_context_lines(&context).join("\n");

    assert!(rendered.contains("RIP:     0x00000000004011a5"));
}

#[test]
fn format_code_context_lines_renders_unavailable_fields() {
    let context = build_minimal_code_context(0x4011a5);

    let rendered = format_code_context_lines(&context).join("\n");

    assert!(rendered.contains("Symbol:  unavailable"));
    assert!(rendered.contains("Source:  unavailable"));
    assert!(rendered.contains("Object:  unavailable"));
}

#[test]
fn format_code_context_lines_renders_disassembly_placeholder() {
    let context = build_minimal_code_context(0x4011a5);

    let rendered = format_code_context_lines(&context).join("\n");

    assert!(rendered.contains("Disassembly:"));
    assert!(rendered.contains("> 0x00000000004011a5  <disassembly unavailable>"));
}

#[test]
fn live_tui_app_stores_latest_code_context() {
    let mut app = LiveTuiApp::default();
    let context = test_code_context(0x4011a5);

    app.apply_update(LiveTraceUpdate::CodeContext {
        event_id: None,
        context: context.clone(),
    });

    assert_eq!(latest_stop(&app.data.contexts), Some(&context));
    assert!(app.data.contexts.iter().all(|stop| stop.event_id.is_none()));
}

#[test]
fn live_tui_app_stores_event_specific_code_context() {
    let mut app = LiveTuiApp::default();
    let context = test_code_context(0x4011a5);

    app.apply_update(LiveTraceUpdate::CodeContext {
        event_id: Some(7),
        context: context.clone(),
    });

    assert_eq!(latest_stop(&app.data.contexts), Some(&context));
    assert_eq!(find_stop_of_event(&app.data.contexts, 7), Some(&context));
}

#[test]
fn format_stack_snapshot_lines_renders_rsp() {
    let snapshot = test_stack_snapshot(&[0x4011a5]);

    let rendered = format_stack_snapshot_lines(&snapshot).join("\n");

    assert!(rendered.contains("RSP:       0x00007fffffffdc30"));
}

#[test]
fn format_stack_snapshot_lines_renders_stack_rows() {
    let snapshot = test_stack_snapshot(&[0x4011a5, 0xd972a0]);

    let rendered = format_stack_snapshot_lines(&snapshot).join("\n");

    assert!(rendered.contains("+0x000  0x00007fffffffdc30  0x00000000004011a5"));
    assert!(rendered.contains("+0x008  0x00007fffffffdc38  0x0000000000d972a0"));
}

#[test]
fn format_stack_snapshot_lines_renders_truncated_warning() {
    let mut snapshot = test_stack_snapshot(&[0x4011a5]);
    snapshot.truncated = true;
    snapshot.read_error = Some("failed to read word".to_string());

    let rendered = format_stack_snapshot_lines(&snapshot).join("\n");

    assert!(rendered.contains("truncated: failed to read word"));
}

#[test]
fn stack_annotation_marks_heap_user_pointer() {
    let layout = layout_record_with_chunks(1, &[(0x1000, 0x1010)]);

    let annotation = annotate_stack_value(0x1010, None, Some(&layout), None);

    assert_eq!(annotation.as_deref(), Some("heap user"));
}

#[test]
fn stack_annotation_marks_interior_heap_pointer() {
    let layout = layout_record_with_chunks(1, &[(0x1000, 0x1010)]);

    let annotation = annotate_stack_value(0x1020, None, Some(&layout), None);

    assert_eq!(annotation.as_deref(), Some("heap"));
}

#[test]
fn stack_annotation_marks_current_rip() {
    let annotation = annotate_stack_value(0x4011a5, None, None, Some(0x4011a5));

    assert_eq!(annotation.as_deref(), Some("rip"));
}

#[test]
fn stack_annotation_uses_classifier_for_code_and_stack_maps() {
    let maps = test_process_maps();

    let code = annotate_stack_value(0x555555555000, Some(&maps), None, None);
    let stack = annotate_stack_value(0x7fffffffe000, Some(&maps), None, None);

    assert_eq!(code.as_deref(), Some("code"));
    assert_eq!(stack.as_deref(), Some("stack"));
}

#[test]
fn live_tui_app_stores_latest_stack_snapshot() {
    let mut app = LiveTuiApp::default();
    let snapshot = test_stack_snapshot(&[0x4011a5]);

    app.apply_update(LiveTraceUpdate::StackSnapshot {
        event_id: None,
        snapshot: snapshot.clone(),
    });

    assert_eq!(latest_stop(&app.data.stacks), Some(&snapshot));
    assert!(app.data.stacks.iter().all(|stop| stop.event_id.is_none()));
}

#[test]
fn live_tui_app_stores_event_specific_stack_snapshot() {
    let mut app = LiveTuiApp::default();
    let snapshot = test_stack_snapshot(&[0x4011a5]);

    app.apply_update(LiveTraceUpdate::StackSnapshot {
        event_id: Some(7),
        snapshot: snapshot.clone(),
    });

    assert_eq!(latest_stop(&app.data.stacks), Some(&snapshot));
    assert_eq!(find_stop_of_event(&app.data.stacks, 7), Some(&snapshot));
}

#[test]
fn classify_address_finds_heap_user_pointer() {
    let layout = layout_record_with_chunks(1, &[(0x1000, 0x1010)]);

    let classification = classify_address(0x1010, None, Some(&layout));

    assert_eq!(classification.kind, AddressRegionKind::Heap);
    assert_eq!(classification.label, "heap user");
    assert!(matches!(
        classification.heap_detail,
        Some(HeapAddressDetail::UserPointer { .. })
    ));
}

#[test]
fn classify_address_finds_heap_chunk_header() {
    let layout = layout_record_with_chunks(1, &[(0x1000, 0x1010)]);

    let classification = classify_address(0x1000, None, Some(&layout));

    assert_eq!(classification.kind, AddressRegionKind::Heap);
    assert_eq!(classification.label, "heap chunk");
    assert!(matches!(
        classification.heap_detail,
        Some(HeapAddressDetail::ChunkHeader { .. })
    ));
}

#[test]
fn classify_address_finds_heap_interior_pointer() {
    let layout = layout_record_with_chunks(1, &[(0x1000, 0x1010)]);

    let classification = classify_address(0x1020, None, Some(&layout));

    assert_eq!(classification.kind, AddressRegionKind::Heap);
    assert_eq!(classification.label, "heap+0x10");
    assert!(matches!(
        classification.heap_detail,
        Some(HeapAddressDetail::Interior { offset: 0x10, .. })
    ));
}

#[test]
fn classify_address_finds_heap_map() {
    let maps = test_process_maps();

    let classification = classify_address(0x55555555a000, Some(&maps), None);

    assert_eq!(classification.kind, AddressRegionKind::Heap);
    assert_eq!(classification.label, "heap");
}

#[test]
fn classify_address_finds_stack_map() {
    let maps = test_process_maps();

    let classification = classify_address(0x7fffffffe000, Some(&maps), None);

    assert_eq!(classification.kind, AddressRegionKind::Stack);
    assert_eq!(classification.label, "stack");
}

#[test]
fn classify_address_classifies_libc_pathname() {
    let maps = test_process_maps();

    let classification = classify_address(0x7ffff7de0000, Some(&maps), None);

    assert_eq!(classification.kind, AddressRegionKind::Libc);
    assert_eq!(classification.label, "libc");
}

#[test]
fn classify_address_classifies_ld_linux_pathname() {
    let maps = test_process_maps();

    let classification = classify_address(0x7ffff7fc1000, Some(&maps), None);

    assert_eq!(classification.kind, AddressRegionKind::Loader);
    assert_eq!(classification.label, "loader");
}

#[test]
fn classify_address_classifies_vdso_and_vvar() {
    let maps = test_process_maps();

    let vdso = classify_address(0x7ffff7ffe010, Some(&maps), None);
    let vvar = classify_address(0x7ffff7ffc010, Some(&maps), None);

    assert_eq!(vdso.kind, AddressRegionKind::Vdso);
    assert_eq!(vdso.label, "vdso");
    assert_eq!(vvar.kind, AddressRegionKind::Vvar);
    assert_eq!(vvar.label, "vvar");
}

#[test]
fn classify_address_returns_unknown_for_unmapped_address() {
    let maps = test_process_maps();

    let classification = classify_address(0xdeadbeef, Some(&maps), None);

    assert_eq!(classification.kind, AddressRegionKind::Unknown);
    assert_eq!(classification.label, "unmapped");
}

#[test]
fn format_process_map_entry_renders_range_permissions_and_path() {
    let entry = &test_process_maps().entries[0];

    let rendered = format_process_map_entry(entry);

    assert!(rendered.contains("0000555555554000-0000555555556000"));
    assert!(rendered.contains("r-xp"));
    assert!(rendered.contains("/tmp/heapify-target"));
}

#[test]
fn live_tui_app_stores_latest_process_maps() {
    let mut app = LiveTuiApp::default();
    let snapshot = test_process_maps();

    app.apply_update(LiveTraceUpdate::ProcessMaps {
        snapshot: snapshot.clone(),
    });

    assert_eq!(app.data.maps, Some(snapshot));
}

#[test]
fn maps_tab_renders_unavailable_without_maps() {
    let app = LiveTuiApp::default();

    assert_eq!(
        format_live_maps_tab(&app),
        "process maps unavailable"
    );
}

#[test]
fn maps_tab_renders_formatted_map_lines() {
    let mut app = LiveTuiApp::default();
    app.data.maps = Some(test_process_maps());

    let rendered = format_live_maps_tab(&app);

    assert!(rendered.contains("Start-End"));
    assert!(rendered.contains("[stack]"));
    assert!(rendered.contains("libc.so.6"));
}

#[test]
fn live_tui_scrolls_maps_tab() {
    let mut app = LiveTuiApp::default();
    let (sender, receiver) = channel();
    app.panes.focused_debugger_pane = LiveDebuggerPane::RightTab;
    app.panes.active_right_tab = LiveRightTab::Maps;
    app.data.maps = Some(ProcessMapsSnapshot {
        entries: (0..20)
            .map(|index| ProcessMapEntry {
                start: 0x1000 + index * 0x1000,
                end: 0x2000 + index * 0x1000,
                permissions: "r--p".to_string(),
                offset: 0,
                device: Some("00:00".to_string()),
                inode: Some(index),
                pathname: Some(format!("/tmp/map-{index}")),
            })
            .collect(),
    });
    let key = plain_key(KeyCode::PageDown);

    press(key, &mut app, false, &sender);

    assert_eq!(app.panes.maps_tab_scroll, 10);
    assert!(receiver.try_recv().is_err());
}

#[test]
fn live_stack_tab_renders_unavailable_without_snapshot() {
    let app = LiveTuiApp::default();

    assert_eq!(
        format_live_stack_tab(&app),
        "stack snapshot unavailable"
    );
}

#[test]
fn live_stack_tab_renders_rows_with_snapshot() {
    let mut app = LiveTuiApp::default();
    app.data.stacks.push(Stop { event_id: None, value: test_stack_snapshot(&[0x4011a5]) });

    let rendered = format_live_stack_tab(&app);

    assert!(rendered.contains("RSP:       0x00007fffffffdc30"));
    assert!(rendered.contains("+0x000  0x00007fffffffdc30  0x00000000004011a5"));
}

#[test]
fn live_tui_scrolls_stack_tab() {
    let mut app = LiveTuiApp::default();
    let (sender, receiver) = channel();
    app.panes.focused_debugger_pane = LiveDebuggerPane::RightTab;
    app.panes.active_right_tab = LiveRightTab::Stack;
    app.data.stacks.push(Stop { event_id: None, value: test_stack_snapshot(&(0..20).collect::<Vec<_>>()) });
    let key = plain_key(KeyCode::PageDown);

    press(key, &mut app, false, &sender);

    assert_eq!(app.panes.stack_tab_scroll, 10);
    assert!(receiver.try_recv().is_err());
}

#[test]
fn live_code_pane_renders_unavailable_without_context() {
    let app = LiveTuiApp::default();

    assert_eq!(
        format_live_code_context(&app),
        "code context unavailable"
    );
}

#[test]
fn live_code_pane_renders_context_with_rip_symbol_source() {
    let mut app = LiveTuiApp::default();
    app.data.contexts.push(Stop { event_id: None, value: test_code_context(0x4011a5) });

    let rendered = format_live_code_context(&app);

    assert!(rendered.contains("RIP:     0x00000000004011a5"));
    assert!(rendered.contains("Symbol:  main+0x1a5 (target)"));
    assert!(rendered.contains("Source:  src/main.c:42:7"));
}

#[test]
fn live_tui_scrolls_code_pane() {
    let mut app = LiveTuiApp::default();
    let (sender, receiver) = channel();
    app.panes.focused_debugger_pane = LiveDebuggerPane::Code;
    let mut context = test_code_context(0x401000);
    context.disassembly = Some(DisassemblySnapshot {
        instruction_pointer: 0x401000,
        start_address: 0x401000,
        end_address: 0x401014,
        lines: (0..20)
            .map(|index| DisassemblyLine {
                address: 0x401000 + index,
                bytes: vec![0x90],
                mnemonic: "nop".to_string(),
                operands: String::new(),
                text: format!("line {index}"),
                is_current: index == 0,
                flow_control: None,
                target: None,
                target_annotation: None,
            })
            .collect(),
        truncated_before: false,
        truncated_after: false,
        read_error: None,
    });
    app.data.contexts.push(Stop { event_id: None, value: context });
    let key = plain_key(KeyCode::PageDown);

    press(key, &mut app, false, &sender);

    assert_eq!(app.panes.code_pane_scroll, 10);
    assert!(!app.panes.code_follow_rip);
    assert!(receiver.try_recv().is_err());
}

#[test]
fn code_follow_rip_is_enabled_initially() {
    let app = LiveTuiApp::default();

    assert!(app.panes.code_follow_rip);
}

#[test]
fn live_tui_d_recenters_code_pane_and_enables_follow() {
    let mut app = LiveTuiApp::default();
    let (sender, receiver) = channel();
    app.panes.focused_debugger_pane = LiveDebuggerPane::Code;
    app.panes.code_follow_rip = false;
    app.panes.code_pane_scroll = 99;
    app.data.contexts.push(Stop { event_id: None, value: test_code_context(0x4011a5) });
    let key = plain_key(KeyCode::Char('d'));

    press(key, &mut app, false, &sender);

    assert!(app.panes.code_follow_rip);
    assert!(app.panes.code_pane_scroll < 99);
    assert!(receiver.try_recv().is_err());
}

#[test]
fn parse_console_command_disassemble_aliases() {
    for input in ["disas", "disassemble"] {
        assert_eq!(
            parse_console_command(input),
            ConsoleCommand::Disassemble
        );
    }
}

#[test]
fn console_disas_focuses_code_and_recenters() {
    let mut app = LiveTuiApp::default();
    let (sender, receiver) = channel();
    app.panes.code_follow_rip = false;
    app.panes.code_pane_scroll = 42;
    app.data.contexts.push(Stop { event_id: None, value: test_code_context(0x4011a5) });

    let should_exit = run_console(
        &mut app,
        ConsoleCommand::Disassemble,
        "disas",
        false,
        &sender,
    );

    assert!(!should_exit);
    assert_eq!(app.panes.focused_debugger_pane, LiveDebuggerPane::Code);
    assert!(app.panes.code_follow_rip);
    assert!(app.panes.code_pane_scroll < 42);
    assert!(receiver.try_recv().is_err());
}

#[test]
fn format_code_context_lines_renders_bytes_and_target_annotation() {
    let mut context = test_code_context(0x4011a5);
    let disassembly = context.disassembly.as_mut().unwrap();
    disassembly.lines[0].bytes = vec![0xe8, 0x8a, 0xfe, 0xff, 0xff];
    disassembly.lines[0].mnemonic = "call".to_string();
    disassembly.lines[0].operands = "0x401030".to_string();
    disassembly.lines[0].text = "call 0x401030".to_string();
    disassembly.lines[0].flow_control = Some(DisassemblyFlowControl::Call);
    disassembly.lines[0].target = Some(0x401030);
    disassembly.lines[0].target_annotation = Some("malloc@plt".to_string());

    let rendered = format_code_context_lines(&context).join("\n");

    assert!(rendered.contains("e8 8a fe ff ff"));
    assert!(rendered.contains("call"));
    assert!(rendered.contains("0x401030"));
    assert!(rendered.contains("<malloc@plt>"));
}

#[test]
fn diff_register_snapshots_without_previous_returns_empty() {
    let current = test_register_snapshot(0xd972a0);

    assert!(diff_register_snapshots(None, &current).is_empty());
}

#[test]
fn diff_register_snapshots_detects_changed_rax() {
    let previous = test_register_snapshot(0x1);
    let current = test_register_snapshot(0x2);

    let changed = diff_register_snapshots(Some(&previous), &current);

    assert!(changed.contains("rax"));
    assert!(!changed.contains("rip"));
}

#[test]
fn diff_register_snapshots_detects_new_register() {
    let previous = test_register_snapshot(0x1);
    let mut current = test_register_snapshot(0x1);
    current
        .registers
        .push(test_register_value("R10", 0x10, RegisterRole::General));

    let changed = diff_register_snapshots(Some(&previous), &current);

    assert!(changed.contains("r10"));
}

#[test]
fn register_rendering_uses_stable_order() {
    let snapshot = RegisterSnapshot {
        arch: RegisterArch::X86_64,
        instruction_pointer: 0x4011a5,
        stack_pointer: 0x7fffffffdc30,
        frame_pointer: 0x7fffffffdc80,
        registers: vec![
            test_register_value("rax", 0x1, RegisterRole::ReturnValue),
            test_register_value("rip", 0x2, RegisterRole::InstructionPointer),
            test_register_value("r9", 0x3, RegisterRole::Argument),
            test_register_value("rsp", 0x4, RegisterRole::StackPointer),
        ],
    };

    let lines = render_register_lines(&snapshot, &NameSet::new(), None, None, None);
    let names = lines
        .iter()
        .map(|line| line.name.as_str())
        .collect::<Vec<_>>();

    assert_eq!(names, vec!["RIP", "RSP", "RAX", "R9"]);
}

#[test]
fn register_rendering_marks_changed_registers() {
    let snapshot = test_register_snapshot(0xd972a0);
    let changed = names(&["rax"]);

    let lines = render_register_lines(&snapshot, &changed, None, None, None);

    assert!(lines.iter().any(|line| line.name == "RAX" && line.changed));
    assert!(lines.iter().any(|line| line.name == "RIP" && !line.changed));
}

#[test]
fn register_rendering_annotates_exact_heap_user_pointer() {
    let snapshot = test_register_snapshot(0x1010);
    let layout = layout_record_with_chunks(1, &[(0x1000, 0x1010)]);

    let lines =
        render_register_lines(&snapshot, &NameSet::new(), None, Some(&layout), None);

    assert_eq!(
        lines
            .iter()
            .find(|line| line.name == "RAX")
            .and_then(|line| line.annotation.as_deref()),
        Some("heap user")
    );
}

#[test]
fn register_rendering_annotates_interior_heap_pointer() {
    let snapshot = test_register_snapshot(0x1020);
    let layout = layout_record_with_chunks(1, &[(0x1000, 0x1010)]);

    let lines =
        render_register_lines(&snapshot, &NameSet::new(), None, Some(&layout), None);

    assert_eq!(
        lines
            .iter()
            .find(|line| line.name == "RAX")
            .and_then(|line| line.annotation.as_deref()),
        Some("heap")
    );
}

#[test]
fn register_rendering_uses_classifier_for_stack_and_libc_maps() {
    let mut snapshot = test_register_snapshot(0x7fffffffe000);
    snapshot.registers.push(test_register_value(
        "r10",
        0x7ffff7de0000,
        RegisterRole::General,
    ));
    let maps = test_process_maps();

    let lines =
        render_register_lines(&snapshot, &NameSet::new(), Some(&maps), None, None);

    assert_eq!(
        lines
            .iter()
            .find(|line| line.name == "RAX")
            .and_then(|line| line.annotation.as_deref()),
        Some("stack")
    );
    assert_eq!(
        lines
            .iter()
            .find(|line| line.name == "R10")
            .and_then(|line| line.annotation.as_deref()),
        Some("libc")
    );
}

#[test]
fn live_tui_app_register_update_tracks_previous_and_changed() {
    let mut app = LiveTuiApp::default();
    let first = test_register_snapshot(0x1);
    let second = test_register_snapshot(0x2);

    app.apply_update(LiveTraceUpdate::RegisterSnapshot {
        event_id: None,
        snapshot: first.clone(),
    });
    app.apply_update(LiveTraceUpdate::RegisterSnapshot {
        event_id: None,
        snapshot: second.clone(),
    });

    assert_eq!(previous_stop(&app.data.registers), Some(&first));
    assert_eq!(latest_stop(&app.data.registers), Some(&second));
    assert_eq!(changed_registers(&app).names(), &vec!["rax".to_string()]);
}

#[test]
fn live_registers_pane_renders_unavailable_without_snapshot() {
    let app = LiveTuiApp::default();

    assert_eq!(
        format_live_registers_pane(&app),
        "registers unavailable"
    );
}

#[test]
fn live_registers_pane_renders_summary_with_snapshot() {
    let mut app = LiveTuiApp::default();
    app.data.registers.push(Stop { event_id: None, value: test_register_snapshot(0xd972a0) });

    let rendered = format_live_registers_pane(&app);

    assert!(rendered.contains("RIP     0x00000000004011a5"));
    assert!(rendered.contains("RAX     0x0000000000d972a0"));
}

#[test]
fn live_tui_log_buffer_is_bounded() {
    let mut app = LiveTuiApp::default();

    for index in 0..250 {
        app.push_log_line(format!("line {index}"));
    }

    assert_eq!(app.logs.len(), 200);
    assert_eq!(app.logs.front().map(String::as_str), Some("line 50"));
    assert_eq!(app.logs.back().map(String::as_str), Some("line 249"));
}

#[test]
fn live_tui_command_status_appends_log_line() {
    let mut app = LiveTuiApp::default();

    app.apply_update(LiveTraceUpdate::CommandStatus {
        command_id: Some(LiveCommandId(7)),
        command: Some(LiveCommand::Pause),
        status: LiveCommandStatus::Completed,
        target_status: LiveTargetStatus::Paused,
        message: "target paused; inspect panes or resume".to_string(),
    });

    assert!(app
        .logs
        .back()
        .unwrap()
        .contains("pause: target paused; inspect panes or resume (completed)"));
}

#[test]
fn live_tui_break_matched_appends_log_line() {
    let mut app = LiveTuiApp::default();

    app.apply_update(LiveTraceUpdate::BreakMatched(
        AllocatorBreakMatch {
            condition: AllocatorBreakCondition::DoubleFree,
            event_id: 9,
            user_addr: None,
            message: "possible double free".to_string(),
        },
    ));

    assert!(app
        .logs
        .back()
        .unwrap()
        .contains("break condition matched: possible double free after event #9"));
}

#[test]
fn live_tui_focus_next_cycles_debugger_panes() {
    let mut app = LiveTuiApp::default();

    app.focus_next_pane();
    assert_eq!(app.panes.focused_debugger_pane, LiveDebuggerPane::Console);
    app.focus_next_pane();
    assert_eq!(app.panes.focused_debugger_pane, LiveDebuggerPane::RightTab);
    app.focus_next_pane();
    assert_eq!(
        app.panes.focused_debugger_pane,
        LiveDebuggerPane::Registers
    );
    app.focus_next_pane();
    assert_eq!(app.panes.focused_debugger_pane, LiveDebuggerPane::Code);
    app.focus_next_pane();
    assert_eq!(app.panes.focused_debugger_pane, LiveDebuggerPane::Trace);
}

#[test]
fn live_tui_number_keys_switch_right_tabs() {
    let mut app = LiveTuiApp::default();
    let (sender, _) = channel();

    for (key, expected) in [
        ('2', LiveRightTab::Stack),
        ('3', LiveRightTab::Logs),
        ('4', LiveRightTab::Maps),
        ('1', LiveRightTab::Heap),
    ] {
        let key = plain_key(KeyCode::Char(key));
        press(key, &mut app, false, &sender);
        assert_eq!(app.panes.active_right_tab, expected);
        assert_eq!(app.panes.focused_debugger_pane, LiveDebuggerPane::RightTab);
    }
}

#[test]
fn live_tui_brackets_switch_right_tabs() {
    let mut app = LiveTuiApp::default();
    let (sender, _) = channel();
    let next = plain_key(KeyCode::Char(']'));
    let previous = plain_key(KeyCode::Char('['));

    press(next, &mut app, false, &sender);
    assert_eq!(app.panes.active_right_tab, LiveRightTab::Stack);

    press(previous, &mut app, false, &sender);
    assert_eq!(app.panes.active_right_tab, LiveRightTab::Heap);
}

#[test]
fn clamp_scroll_handles_short_content() {
    assert_eq!(clamp_scroll(20, 3, 10), 0);
    assert_eq!(clamp_scroll(20, 30, 10), 20);
    assert_eq!(clamp_scroll(25, 30, 10), 20);
}

#[test]
fn live_tui_app_manual_selection_disables_follow_tail() {
    let mut app = LiveTuiApp::default();
    app.apply_update(malloc_live_update(1));
    app.apply_update(malloc_live_update(2));

    app.select_previous();

    assert_eq!(app.control.selected_index, 0);
    assert!(!app.control.follow_tail);
}

#[test]
fn live_tui_event_navigation_down_keeps_follow_tail_disabled() {
    let mut app = LiveTuiApp::default();
    app.apply_update(malloc_live_update(1));
    app.apply_update(malloc_live_update(2));
    app.select_first();

    app.select_next();

    assert_eq!(app.control.selected_index, 1);
    assert!(!app.control.follow_tail);
}

#[test]
fn live_tui_event_navigation_end_enables_follow_tail() {
    let mut app = LiveTuiApp::default();
    app.apply_update(malloc_live_update(1));
    app.apply_update(malloc_live_update(2));
    app.select_first();

    app.select_latest();

    assert_eq!(app.control.selected_index, 1);
    assert!(app.control.follow_tail);
}

#[test]
fn live_tui_app_related_record_groups_by_event_id() {
    let mut app = LiveTuiApp::default();

    app.apply_update(LiveTraceUpdate::RelatedRecord {
        event_id: 7,
        record: layout_record(7),
    });

    assert_eq!(app.data.related_records(7).len(), 1);
}

#[test]
fn live_tui_app_related_record_stores_latest_heap_layout() {
    let mut app = LiveTuiApp::default();

    app.apply_update(LiveTraceUpdate::RelatedRecord {
        event_id: 7,
        record: layout_record(7),
    });

    assert!(matches!(
        app.data.latest_record(LatestKind::HeapLayout),
        Some(JsonTraceRecord::HeapLayout { event_id: 7, .. })
    ));
}

#[test]
fn live_tui_app_related_record_stores_latest_allocator_summary() {
    let mut app = LiveTuiApp::default();

    app.apply_update(LiveTraceUpdate::RelatedRecord {
        event_id: 7,
        record: allocator_source_summary_record(7),
    });

    assert!(matches!(
        app.data.latest_record(LatestKind::AllocatorSummary),
        Some(JsonTraceRecord::AllocatorSourceSummary { event_id: 7, .. })
    ));
}

#[test]
fn live_tui_app_related_record_stores_latest_allocator_delta() {
    let mut app = LiveTuiApp::default();

    app.apply_update(LiveTraceUpdate::RelatedRecord {
        event_id: 7,
        record: allocator_source_delta_record(7),
    });

    assert!(matches!(
        app.data.latest_record(LatestKind::AllocatorDelta),
        Some(JsonTraceRecord::AllocatorSourceDelta { event_id: 7, .. })
    ));
}

#[test]
fn live_tui_app_related_record_stores_latest_heap_scan() {
    let mut app = LiveTuiApp::default();

    app.apply_update(LiveTraceUpdate::RelatedRecord {
        event_id: 7,
        record: heap_scan_record(7),
    });

    assert!(matches!(
        app.data.latest_record(LatestKind::HeapScan),
        Some(JsonTraceRecord::HeapScan { event_id: 7, .. })
    ));
}

#[test]
fn live_tui_apply_update_clamps_scroll_when_content_changes() {
    let mut app = LiveTuiApp::default();
    app.panes.heap_layout_scroll = 99;

    app.apply_update(LiveTraceUpdate::RelatedRecord {
        event_id: 7,
        record: layout_record(7),
    });

    assert_eq!(app.panes.heap_layout_scroll, 0);
}

#[test]
fn live_tui_app_session_end_stores_status() {
    let mut app = LiveTuiApp::default();

    app.apply_update(LiveTraceUpdate::SessionEnd(JsonSessionEnd {
        record: session_end_record(3),
    }));

    assert!(app.data.session_end.is_some());
    assert!(app
        .control.status_line
        .contains("target exited: unknown; 3 events; press q to quit"));
    assert_eq!(
        app.control.latest_stop_reason,
        Some(DebuggerStopReason::ProcessExit {
            status: "unknown".to_string()
        })
    );
}

#[test]
fn live_tui_app_status_update_sets_message_and_state() {
    let mut app = LiveTuiApp::default();

    app.apply_update(LiveTraceUpdate::Status {
        message: "target paused".to_string(),
    });

    assert_eq!(app.control.status_line, "target paused");
    assert_eq!(app.control.target_status, LiveTargetStatus::Running);
}

#[test]
fn live_tui_command_status_update_sets_state_and_message() {
    let mut app = LiveTuiApp::default();

    app.apply_update(LiveTraceUpdate::CommandStatus {
        command_id: Some(LiveCommandId(7)),
        command: Some(LiveCommand::Pause),
        status: LiveCommandStatus::Completed,
        target_status: LiveTargetStatus::Paused,
        message: "target paused; inspect panes or resume".to_string(),
    });

    assert_eq!(app.control.target_status, LiveTargetStatus::Paused);
    assert!(app.inspection_mode());
    assert_eq!(app.control.last_command, Some(LiveCommand::Pause));
    assert_eq!(
        app.control.last_command_status,
        Some(LiveCommandStatus::Completed)
    );
    assert_eq!(
        app.control.status_line,
        "target paused; inspect panes or resume".to_string()
    );
    assert_eq!(
        app.control.latest_stop_reason,
        Some(DebuggerStopReason::UserPause)
    );
}

#[test]
fn live_command_validation_rules_are_stable() {
    assert!(validate_live_command(
        LiveTargetStatus::Running,
        LiveCommand::Pause
    )
    .is_ok());
    assert!(validate_live_command(
        LiveTargetStatus::Paused,
        LiveCommand::Resume
    )
    .is_ok());
    assert!(validate_live_command(
        LiveTargetStatus::Paused,
        LiveCommand::Continue
    )
    .is_ok());
    assert!(validate_live_command(
        LiveTargetStatus::Paused,
        LiveCommand::StepAllocatorEvent
    )
    .is_ok());
    assert!(validate_live_command(
        LiveTargetStatus::Paused,
        LiveCommand::StepInstruction
    )
    .is_ok());
    assert!(validate_live_command(
        LiveTargetStatus::Paused,
        LiveCommand::StepInstructionOver
    )
    .is_ok());
    for status in [
        LiveTargetStatus::NotStarted,
        LiveTargetStatus::Running,
        LiveTargetStatus::SteppingToNextAllocatorEvent,
        LiveTargetStatus::SteppingInstruction,
        LiveTargetStatus::SteppingInstructionOver,
        LiveTargetStatus::Stopping,
        LiveTargetStatus::Exited,
    ] {
        assert!(
            validate_live_command(status, LiveCommand::StepInstruction).is_err()
        );
        assert!(
            validate_live_command(status, LiveCommand::StepInstructionOver)
                .is_err()
        );
    }
    assert!(validate_live_command(
        LiveTargetStatus::Exited,
        LiveCommand::Stop
    )
    .is_err());
    assert!(validate_live_command(
        LiveTargetStatus::Running,
        LiveCommand::StepAllocatorEvent
    )
    .is_err());
}

#[test]
fn live_tui_prepare_command_assigns_increasing_ids() {
    let mut app = LiveTuiApp::default();

    let first = app.prepare_command(LiveCommand::Pause).unwrap();
    let second = app.prepare_command(LiveCommand::Stop).unwrap();

    assert_eq!(first.id, LiveCommandId(1));
    assert_eq!(second.id, LiveCommandId(2));
    assert_eq!(first.command, LiveCommand::Pause);
    assert_eq!(second.command, LiveCommand::Stop);
}

#[test]
fn live_tui_prepare_command_rejects_step_while_running() {
    let mut app = LiveTuiApp::default();

    let result = app.prepare_command(LiveCommand::StepAllocatorEvent);

    assert!(result.is_err());
    assert_eq!(
        app.control.last_command,
        Some(LiveCommand::StepAllocatorEvent)
    );
    assert_eq!(
        app.control.last_command_status,
        Some(LiveCommandStatus::Rejected)
    );
    assert!(app.control.status_line.contains("not allowed"));
}

#[test]
fn parse_console_command_help_aliases() {
    assert_eq!(
        parse_console_command("help"),
        ConsoleCommand::Help
    );
    assert_eq!(
        parse_console_command("h"),
        ConsoleCommand::Help
    );
    assert_eq!(
        parse_console_command("?"),
        ConsoleCommand::Help
    );
}

#[test]
fn parse_console_command_continue_aliases() {
    assert_eq!(
        parse_console_command("continue"),
        ConsoleCommand::Continue
    );
    assert_eq!(
        parse_console_command("c"),
        ConsoleCommand::Continue
    );
    assert_eq!(
        parse_console_command("run"),
        ConsoleCommand::Continue
    );
}

#[test]
fn parse_console_command_next_allocator_aliases() {
    for input in ["next", "n", "next-alloc", "next_allocator_event"] {
        assert_eq!(
            parse_console_command(input),
            ConsoleCommand::NextAllocatorEvent
        );
    }
}

#[test]
fn parse_console_command_step_instruction_aliases() {
    for input in ["stepi", "si", "step"] {
        assert_eq!(
            parse_console_command(input),
            ConsoleCommand::StepInstruction
        );
    }
}

#[test]
fn parse_console_command_step_instruction_over_aliases() {
    for input in ["nexti", "ni"] {
        assert_eq!(
            parse_console_command(input),
            ConsoleCommand::StepInstructionOver
        );
    }
}

#[test]
fn parse_console_command_heap_and_jump_queries() {
    assert_eq!(
        parse_console_command("heap 0x1010"),
        ConsoleCommand::HeapJump(HeapSearchQuery::AnyAddress(0x1010))
    );
    assert_eq!(
        parse_console_command("jump u 0x1010"),
        ConsoleCommand::HeapJump(HeapSearchQuery::UserAddress(0x1010))
    );
    assert_eq!(
        parse_console_command("jump c 0x1000"),
        ConsoleCommand::HeapJump(HeapSearchQuery::ChunkAddress(0x1000))
    );
    assert_eq!(
        parse_console_command("jump s 0x30"),
        ConsoleCommand::HeapJump(HeapSearchQuery::Size(0x30))
    );
}

#[test]
fn parse_console_command_tabs() {
    assert_eq!(
        parse_console_command("tab heap"),
        ConsoleCommand::SelectRightTab(LiveRightTab::Heap)
    );
    assert_eq!(
        parse_console_command("tab stack"),
        ConsoleCommand::SelectRightTab(LiveRightTab::Stack)
    );
    assert_eq!(
        parse_console_command("tab logs"),
        ConsoleCommand::SelectRightTab(LiveRightTab::Logs)
    );
    assert_eq!(
        parse_console_command("tab maps"),
        ConsoleCommand::SelectRightTab(LiveRightTab::Maps)
    );
}

#[test]
fn parse_console_command_unknown() {
    assert_eq!(
        parse_console_command("wat"),
        ConsoleCommand::Unknown("wat".to_string())
    );
}

#[test]
fn live_tui_colon_starts_console_input() {
    let mut app = LiveTuiApp::default();
    let (sender, receiver) = channel();
    let key = plain_key(KeyCode::Char(':'));

    press(key, &mut app, false, &sender);

    assert!(app.console.input_active);
    assert_eq!(app.panes.focused_debugger_pane, LiveDebuggerPane::Console);
    assert!(receiver.try_recv().is_err());
}

#[test]
fn live_tui_active_console_input_captures_printable_keys() {
    let mut app = LiveTuiApp::default();
    let (sender, receiver) = channel();
    app.console.input_active = true;

    for ch in ['h', 'e', 'l', 'p'] {
        let key = plain_key(KeyCode::Char(ch));
        press(key, &mut app, false, &sender);
    }

    assert_eq!(app.console.input, "help");
    assert!(receiver.try_recv().is_err());
}

#[test]
fn live_tui_esc_cancels_console_input() {
    let mut app = LiveTuiApp::default();
    let (sender, _) = channel();
    app.console.input_active = true;
    app.console.input = "help".to_string();
    let key = plain_key(KeyCode::Esc);

    press(key, &mut app, false, &sender);

    assert!(!app.console.input_active);
    assert!(app.console.input.is_empty());
}

#[test]
fn live_tui_enter_submits_console_input_and_appends_history() {
    let mut app = LiveTuiApp::default();
    let (sender, receiver) = channel();
    app.console.input_active = true;
    app.console.input = "help".to_string();
    let key = plain_key(KeyCode::Enter);

    press(key, &mut app, false, &sender);

    assert!(!app.console.input_active);
    assert_eq!(app.console.history, vec!["help".to_string()]);
    assert!(app.logs.iter().any(|line| line.contains("commands: help")));
    assert!(receiver.try_recv().is_err());
}

#[test]
fn live_tui_console_history_up_down() {
    let mut app = LiveTuiApp::default();
    app.console.input_active = true;
    app.console.history = vec!["help".to_string(), "regs".to_string()];

    app.history_previous();
    assert_eq!(app.console.input, "regs");
    app.history_previous();
    assert_eq!(app.console.input, "help");
    app.history_next();
    assert_eq!(app.console.input, "regs");
    app.history_next();
    assert!(app.console.input.is_empty());
}

#[test]
fn console_help_command_writes_command_list() {
    let mut app = LiveTuiApp::default();
    let (sender, _) = channel();

    run_console(
        &mut app,
        ConsoleCommand::Help,
        "help",
        false,
        &sender,
    );

    assert!(app.logs.iter().any(|line| line.contains("commands: help")));
}

#[test]
fn console_regs_command_focuses_registers() {
    let mut app = LiveTuiApp::default();
    let (sender, _) = channel();

    run_console(
        &mut app,
        ConsoleCommand::Registers,
        "regs",
        false,
        &sender,
    );

    assert_eq!(
        app.panes.focused_debugger_pane,
        LiveDebuggerPane::Registers
    );
}

#[test]
fn console_stack_and_maps_commands_select_tabs() {
    let mut app = LiveTuiApp::default();
    let (sender, _) = channel();

    run_console(
        &mut app,
        ConsoleCommand::Stack,
        "stack",
        false,
        &sender,
    );
    assert_eq!(app.panes.active_right_tab, LiveRightTab::Stack);
    assert_eq!(app.panes.focused_debugger_pane, LiveDebuggerPane::RightTab);

    run_console(
        &mut app,
        ConsoleCommand::Maps,
        "maps",
        false,
        &sender,
    );
    assert_eq!(app.panes.active_right_tab, LiveRightTab::Maps);
}

#[test]
fn console_heap_command_uses_jump_logic_on_success() {
    let mut app = LiveTuiApp::default();
    let (sender, _) = channel();
    app.apply_update(LiveTraceUpdate::RelatedRecord {
        event_id: 1,
        record: layout_record_with_chunks(1, &[(0x1000, 0x1010)]),
    });

    run_console(
        &mut app,
        ConsoleCommand::HeapJump(HeapSearchQuery::UserAddress(0x1010)),
        "jump u 0x1010",
        false,
        &sender,
    );

    assert_eq!(app.panes.active_right_tab, LiveRightTab::Heap);
    assert_eq!(app.panes.focused_debugger_pane, LiveDebuggerPane::RightTab);
    assert!(app.panes.show_chunk_inspector);
    assert_eq!(app.chunk.user_addr, Some(0x1010));
}

#[test]
fn console_live_command_sends_existing_command_message() {
    let mut app = LiveTuiApp::default();
    let (sender, receiver) = channel();

    run_console(
        &mut app,
        ConsoleCommand::Pause,
        "pause",
        false,
        &sender,
    );

    assert_eq!(
        receiver.try_recv().unwrap().command,
        LiveCommand::Pause
    );
    assert_eq!(app.control.status_line, "pause requested...");
}

#[test]
fn live_tui_q_before_session_end_sends_stop_without_exiting() {
    let mut app = LiveTuiApp::default();
    let (sender, receiver) = channel();
    let key = plain_key(KeyCode::Char('q'));

    let should_exit = press(key, &mut app, false, &sender);

    assert!(!should_exit);
    let message = receiver.try_recv().unwrap();
    assert_eq!(message.command, LiveCommand::Stop);
    assert_eq!(message.id, LiveCommandId(1));
    assert_eq!(app.control.target_status, LiveTargetStatus::Stopping);
    assert_eq!(app.control.status_line, "stopping target...");
}

#[test]
fn live_tui_ctrl_c_before_session_end_sends_stop_without_exiting() {
    let mut app = LiveTuiApp::default();
    let (sender, receiver) = channel();
    let key = control_key(KeyCode::Char('c'));

    let should_exit = press(key, &mut app, false, &sender);

    assert!(!should_exit);
    assert_eq!(
        receiver.try_recv().unwrap().command,
        LiveCommand::Stop
    );
}

#[test]
fn live_tui_q_after_session_end_exits() {
    let mut app = LiveTuiApp::default();
    let (sender, receiver) = channel();
    app.apply_update(LiveTraceUpdate::SessionEnd(JsonSessionEnd {
        record: session_end_record(1),
    }));
    let key = plain_key(KeyCode::Char('q'));

    let should_exit = press(key, &mut app, false, &sender);

    assert!(should_exit);
    assert!(receiver.try_recv().is_err());
}

#[test]
fn live_tui_p_sends_pause_when_running() {
    let mut app = LiveTuiApp::default();
    let (sender, receiver) = channel();
    let key = plain_key(KeyCode::Char('p'));

    let should_exit = press(key, &mut app, false, &sender);

    assert!(!should_exit);
    assert_eq!(
        receiver.try_recv().unwrap().command,
        LiveCommand::Pause
    );
    assert_eq!(app.control.target_status, LiveTargetStatus::Running);
    assert_eq!(app.control.follow_tail_before_pause, Some(true));
    assert!(!app.control.follow_tail);
    assert_eq!(app.control.status_line, "pause requested...");
}

#[test]
fn live_tui_r_sends_resume_when_paused() {
    let mut app = LiveTuiApp::default();
    app.control.target_status = LiveTargetStatus::Paused;
    app.control.follow_tail_before_pause = Some(true);
    app.control.follow_tail = false;
    let (sender, receiver) = channel();
    let key = plain_key(KeyCode::Char('r'));

    let should_exit = press(key, &mut app, false, &sender);

    assert!(!should_exit);
    assert_eq!(
        receiver.try_recv().unwrap().command,
        LiveCommand::Resume
    );
    assert_eq!(app.control.status_line, "resume requested...");
    assert_eq!(app.control.target_status, LiveTargetStatus::Paused);
    assert!(app.control.follow_tail);
    assert_eq!(app.control.follow_tail_before_pause, None);
}

#[test]
fn live_tui_resume_keeps_follow_tail_false_when_false_before_pause() {
    let mut app = LiveTuiApp::default();
    app.control.target_status = LiveTargetStatus::Paused;
    app.control.follow_tail_before_pause = Some(false);
    app.control.follow_tail = false;
    let (sender, _receiver) = channel();
    let key = plain_key(KeyCode::Char('r'));

    press(key, &mut app, false, &sender);

    assert_eq!(app.control.target_status, LiveTargetStatus::Paused);
    assert!(!app.control.follow_tail);
    assert_eq!(app.control.follow_tail_before_pause, None);
}

#[test]
fn live_tui_space_toggles_running_to_pause_and_paused_to_resume() {
    let mut app = LiveTuiApp::default();
    let (sender, receiver) = channel();
    let key = plain_key(KeyCode::Char(' '));

    press(key, &mut app, false, &sender);
    assert_eq!(
        receiver.try_recv().unwrap().command,
        LiveCommand::Pause
    );
    assert_eq!(app.control.target_status, LiveTargetStatus::Running);

    app.control.target_status = LiveTargetStatus::Paused;
    press(key, &mut app, false, &sender);
    assert_eq!(
        receiver.try_recv().unwrap().command,
        LiveCommand::Resume
    );
    assert_eq!(app.control.target_status, LiveTargetStatus::Paused);
}

#[test]
fn live_tui_event_updates_do_not_auto_select_newest_while_paused() {
    let mut app = LiveTuiApp::default();
    app.apply_update(malloc_live_update(1));
    app.apply_update(LiveTraceUpdate::CommandStatus {
        command_id: None,
        command: Some(LiveCommand::Pause),
        status: LiveCommandStatus::Completed,
        target_status: LiveTargetStatus::Paused,
        message: "target paused; inspect panes or resume".to_string(),
    });

    app.apply_update(malloc_live_update(2));

    assert_eq!(app.data.events.len(), 2);
    assert_eq!(app.control.selected_index, 0);
    assert!(!app.control.follow_tail);
}

#[test]
fn live_tui_n_while_paused_sends_step_allocator_event() {
    let mut app = LiveTuiApp::default();
    app.control.target_status = LiveTargetStatus::Paused;
    app.control.follow_tail = false;
    let (sender, receiver) = channel();
    let key = plain_key(KeyCode::Char('n'));

    let should_exit = press(key, &mut app, false, &sender);

    assert!(!should_exit);
    assert_eq!(
        receiver.try_recv().unwrap().command,
        LiveCommand::StepAllocatorEvent
    );
    assert_eq!(
        app.control.target_status,
        LiveTargetStatus::SteppingToNextAllocatorEvent
    );
    assert!(app.control.follow_tail);
    assert_eq!(app.control.status_line, "stepping to next allocator event...");
}

#[test]
fn live_tui_n_while_running_does_not_send_step_allocator_event() {
    let mut app = LiveTuiApp::default();
    let (sender, receiver) = channel();
    let key = plain_key(KeyCode::Char('n'));

    let should_exit = press(key, &mut app, false, &sender);

    assert!(!should_exit);
    assert!(receiver.try_recv().is_err());
    assert!(app.control.status_line.contains("not allowed"));
}

#[test]
fn live_tui_dot_while_paused_sends_step_instruction() {
    let mut app = LiveTuiApp::default();
    app.control.target_status = LiveTargetStatus::Paused;
    let (sender, receiver) = channel();
    let key = plain_key(KeyCode::Char('.'));

    let should_exit = press(key, &mut app, false, &sender);

    assert!(!should_exit);
    assert_eq!(
        receiver.try_recv().unwrap().command,
        LiveCommand::StepInstruction
    );
    assert_eq!(
        app.control.target_status,
        LiveTargetStatus::SteppingInstruction
    );
    assert_eq!(app.control.status_line, "waiting for next stop...");
}

#[test]
fn live_tui_dot_while_running_does_not_send_step_instruction() {
    let mut app = LiveTuiApp::default();
    let (sender, receiver) = channel();
    let key = plain_key(KeyCode::Char('.'));

    let should_exit = press(key, &mut app, false, &sender);

    assert!(!should_exit);
    assert!(receiver.try_recv().is_err());
    assert!(app.control.status_line.contains("not allowed"));
}

#[test]
fn live_tui_comma_while_paused_sends_step_instruction_over() {
    let mut app = LiveTuiApp::default();
    app.control.target_status = LiveTargetStatus::Paused;
    let (sender, receiver) = channel();
    let key = plain_key(KeyCode::Char(','));

    let should_exit = press(key, &mut app, false, &sender);

    assert!(!should_exit);
    assert_eq!(
        receiver.try_recv().unwrap().command,
        LiveCommand::StepInstructionOver
    );
    assert_eq!(
        app.control.target_status,
        LiveTargetStatus::SteppingInstructionOver
    );
    assert_eq!(app.control.status_line, "waiting for next stop...");
}

#[test]
fn live_tui_instruction_step_completion_keeps_target_paused() {
    let mut app = LiveTuiApp::default();
    app.control.target_status = LiveTargetStatus::SteppingInstruction;

    app.apply_update(LiveTraceUpdate::CommandStatus {
        command_id: Some(LiveCommandId(1)),
        command: Some(LiveCommand::StepInstruction),
        status: LiveCommandStatus::Completed,
        target_status: LiveTargetStatus::Paused,
        message: "stepped instruction: 0x401000 -> 0x401001".to_string(),
    });

    assert_eq!(app.control.target_status, LiveTargetStatus::Paused);
    assert_eq!(app.data.events.len(), 0);
    assert_eq!(app.control.status_line, "stepped instruction: 0x401000 -> 0x401001");
    assert_eq!(
        app.control.latest_stop_reason,
        Some(DebuggerStopReason::InstructionStep {
            from_rip: 0x401000,
            to_rip: 0x401001
        })
    );
}

#[test]
fn live_tui_nexti_completion_keeps_target_paused_and_stores_stop_reason() {
    let mut app = LiveTuiApp::default();
    app.control.target_status = LiveTargetStatus::SteppingInstructionOver;

    app.apply_update(LiveTraceUpdate::CommandStatus {
        command_id: Some(LiveCommandId(1)),
        command: Some(LiveCommand::StepInstructionOver),
        status: LiveCommandStatus::Completed,
        target_status: LiveTargetStatus::Paused,
        message: "nexti completed: 0x401000 -> 0x401005".to_string(),
    });

    assert_eq!(app.control.target_status, LiveTargetStatus::Paused);
    assert_eq!(app.data.events.len(), 0);
    assert_eq!(
        app.control.latest_stop_reason,
        Some(DebuggerStopReason::InstructionStepOver {
            from_rip: 0x401000,
            to_rip: 0x401005
        })
    );
}

#[test]
fn live_tui_instruction_step_updates_refresh_debugger_context_without_event() {
    let mut app = LiveTuiApp::default();

    app.apply_update(LiveTraceUpdate::RegisterSnapshot {
        event_id: None,
        snapshot: test_register_snapshot(0x1),
    });
    app.apply_update(LiveTraceUpdate::CodeContext {
        event_id: None,
        context: test_code_context(0x401001),
    });
    app.apply_update(LiveTraceUpdate::StackSnapshot {
        event_id: None,
        snapshot: test_stack_snapshot(&[0x401001]),
    });

    assert!(latest_stop(&app.data.registers).is_some());
    assert!(latest_stop(&app.data.contexts).is_some());
    assert!(latest_stop(&app.data.stacks).is_some());
    assert!(app.data.registers.iter().all(|stop| stop.event_id.is_none()));
    assert!(app.data.contexts.iter().all(|stop| stop.event_id.is_none()));
    assert!(app.data.stacks.iter().all(|stop| stop.event_id.is_none()));
    assert!(app.data.events.is_empty());
}

#[test]
fn live_tui_c_while_paused_sends_continue_and_follows_tail() {
    let mut app = LiveTuiApp::default();
    app.control.target_status = LiveTargetStatus::Paused;
    app.control.follow_tail = false;
    app.apply_update(malloc_live_update(1));
    let (sender, receiver) = channel();
    let key = plain_key(KeyCode::Char('c'));

    let should_exit = press(key, &mut app, false, &sender);

    assert!(!should_exit);
    assert_eq!(
        receiver.try_recv().unwrap().command,
        LiveCommand::Continue
    );
    assert_eq!(app.control.target_status, LiveTargetStatus::Running);
    assert!(app.control.follow_tail);
    assert_eq!(app.control.status_line, "running");
}

#[test]
fn live_tui_stepping_mode_selects_next_event_when_it_arrives() {
    let mut app = LiveTuiApp::default();
    app.apply_update(malloc_live_update(1));
    app.apply_update(LiveTraceUpdate::CommandStatus {
        command_id: None,
        command: Some(LiveCommand::StepAllocatorEvent),
        status: LiveCommandStatus::Accepted,
        target_status: LiveTargetStatus::SteppingToNextAllocatorEvent,
        message: "stepping to next allocator event...".to_string(),
    });
    app.control.follow_tail = true;

    app.apply_update(malloc_live_update(2));

    assert_eq!(app.data.events.len(), 2);
    assert_eq!(app.control.selected_index, 1);
}

#[test]
fn live_tui_target_state_paused_after_stepping_disables_follow_tail() {
    let mut app = LiveTuiApp::default();
    app.control.target_status = LiveTargetStatus::SteppingToNextAllocatorEvent;
    app.control.follow_tail = true;

    app.apply_update(LiveTraceUpdate::CommandStatus {
        command_id: None,
        command: Some(LiveCommand::StepAllocatorEvent),
        status: LiveCommandStatus::Completed,
        target_status: LiveTargetStatus::Paused,
        message: "paused after allocator event #2".to_string(),
    });

    assert_eq!(app.control.target_status, LiveTargetStatus::Paused);
    assert!(!app.control.follow_tail);
    assert_eq!(app.control.status_line, "paused after allocator event #2");
}

#[test]
fn live_tui_scrolls_focused_non_event_pane() {
    let mut app = LiveTuiApp::default();
    app.panes.focused_debugger_pane = LiveDebuggerPane::RightTab;
    app.panes.active_right_tab = LiveRightTab::Heap;

    app.scroll_focused(3);

    assert_eq!(app.panes.heap_layout_scroll, 3);
    assert_eq!(app.panes.event_details_scroll, 0);
    assert_eq!(app.panes.allocator_scan_scroll, 0);
    assert_eq!(app.panes.related_records_scroll, 0);
}

#[test]
fn live_tui_h_toggles_heap_pane() {
    let mut app = LiveTuiApp::default();
    let (sender, receiver) = channel();
    let key = plain_key(KeyCode::Char('h'));

    let should_exit = press(key, &mut app, false, &sender);

    assert!(!should_exit);
    assert!(!app.panes.show_heap_pane);
    assert!(receiver.try_recv().is_err());
}

#[test]
fn live_tui_s_toggles_scan_pane() {
    let mut app = LiveTuiApp::default();
    let (sender, receiver) = channel();
    let key = plain_key(KeyCode::Char('s'));

    let should_exit = press(key, &mut app, false, &sender);

    assert!(!should_exit);
    assert!(!app.panes.show_scan_pane);
    assert!(receiver.try_recv().is_err());
}

#[test]
fn live_tui_tab_and_backtab_change_focus() {
    let mut app = LiveTuiApp::default();
    let (sender, _) = channel();
    let tab = plain_key(KeyCode::Tab);
    let backtab = plain_key(KeyCode::BackTab);

    press(tab, &mut app, false, &sender);
    assert_eq!(app.panes.focused_debugger_pane, LiveDebuggerPane::Console);
    press(backtab, &mut app, false, &sender);
    assert_eq!(app.panes.focused_debugger_pane, LiveDebuggerPane::Trace);
}

#[test]
fn live_allocator_summary_compact_line_formats_counts() {
    let formatted =
        format_live_allocator_summary_compact(&allocator_source_summary_record(9));

    assert_eq!(
        formatted,
        "event #9 allocator: tc=7 fb=1 ub=0 sb=0 lb=0 total=8 warn=0"
    );
}

#[test]
fn live_heap_scan_compact_line_formats_status_and_findings() {
    let formatted = format_live_heap_scan_compact(&heap_scan_record(9));

    assert!(formatted.contains("event #9 heap scan: status=suspicious chunks=3 suspicious=1"));
    assert!(formatted.contains("suspicious allocator_source_allocated"));
    assert!(formatted.contains("Allocator metadata references a chunk"));
}

#[test]
fn heap_scan_explanations_cover_stable_finding_kinds() {
    for kind in [
        "heap_snapshot_unavailable",
        "heap_snapshot_truncated",
        "allocator_source_conflict",
        "allocator_source_allocated",
        "free_list_size_mismatch",
        "free_list_node_outside_heap",
        "free_list_cycle",
        "main_arena_top_not_validated",
        "bin_validation_suspicious",
        "bin_validation_incomplete",
    ] {
        let finding = json_heap_scan_finding(kind, "message");
        assert!(
            !explain_heap_scan_finding(&finding).is_empty(),
            "missing explanation for {kind}"
        );
    }
}

#[test]
fn allocator_source_conflict_explanation_mentions_multiple_sources() {
    let finding = json_heap_scan_finding("allocator_source_conflict", "message");
    let explanation = explain_heap_scan_finding(&finding).join(" ");

    assert!(explanation.contains("multiple allocator sources"));
}

#[test]
fn free_list_size_mismatch_explanation_mentions_size_metadata() {
    let finding = json_heap_scan_finding("free_list_size_mismatch", "message");
    let explanation = explain_heap_scan_finding(&finding).join(" ");

    assert!(explanation.contains("chunk size metadata"));
    assert!(explanation.contains("expected bin size"));
}

#[test]
fn free_list_node_outside_heap_explanation_mentions_pointer_outside_heap() {
    let finding = json_heap_scan_finding("free_list_node_outside_heap", "message");
    let explanation = explain_heap_scan_finding(&finding).join(" ");

    assert!(explanation.contains("pointer"));
    assert!(explanation.contains("outside the walked heap"));
}

#[test]
fn human_heap_scan_rendering_includes_explanation_lines() {
    let formatted =
        format_replay_record(&heap_scan_record(9), &ReplayConfig::default());

    assert!(formatted.contains("heap scan findings:"));
    assert!(formatted.contains("Allocator metadata references a chunk"));
}

#[test]
fn live_chunk_finding_rendering_includes_explanation_lines() {
    let findings = collect_heap_scan_findings_for_chunk(
        Some(&heap_scan_record(9)),
        Some(0x1000),
        Some(0x1010),
    );
    let formatted = findings.join("\n");

    assert!(formatted.contains("allocator_source_allocated"));
    assert!(formatted.contains("Allocator metadata references a chunk"));
}

#[test]
fn live_related_records_render_with_headings() {
    let records = vec![layout_record(9), allocator_source_summary_record(9)];

    let formatted = format_live_related_records_with_headings(
        &records.iter().collect(),
        &ReplayConfig::default(),
    );

    assert!(formatted.contains("== heap_layout =="));
    assert!(formatted.contains("== allocator_source_summary =="));
}

#[test]
fn allocator_break_evaluates_alloc_size_for_malloc() {
    let event = HeapTraceEvent::Malloc {
        event_id: 7,
        requested_size: 0x80,
        returned_ptr: 0x2000,
        chunk: None,
        caller_addr: None,
    };

    let matched = evaluate_allocator_break_conditions(
        &vec![AllocatorBreakCondition::AllocSize(0x80)],
        &event,
        HeapTrackerNote::NewAllocation,
        &vec![],
    )
    .unwrap();

    assert_eq!(matched.event_id, 7);
    assert_eq!(matched.user_addr, Some(0x2000));
}

#[test]
fn allocator_break_evaluates_alloc_size_for_calloc_checked_product() {
    let event = HeapTraceEvent::Calloc {
        event_id: 8,
        nmemb: 4,
        size: 0x20,
        returned_ptr: 0x3000,
        chunk: None,
        caller_addr: None,
    };

    let matched = evaluate_allocator_break_conditions(
        &vec![AllocatorBreakCondition::AllocSize(0x80)],
        &event,
        HeapTrackerNote::NewAllocation,
        &vec![],
    )
    .unwrap();

    assert_eq!(matched.event_id, 8);
    assert_eq!(matched.user_addr, Some(0x3000));
}

#[test]
fn allocator_break_evaluates_alloc_size_for_realloc() {
    let event = HeapTraceEvent::Realloc {
        event_id: 9,
        old_ptr: 0x2000,
        new_size: 0x80,
        returned_ptr: 0x4000,
        old_chunk: None,
        new_chunk: None,
        caller_addr: None,
    };

    let matched = evaluate_allocator_break_conditions(
        &vec![AllocatorBreakCondition::AllocSize(0x80)],
        &event,
        HeapTrackerNote::ReallocMovedAllocation,
        &vec![],
    )
    .unwrap();

    assert_eq!(matched.event_id, 9);
    assert_eq!(matched.user_addr, Some(0x4000));
}

#[test]
fn allocator_break_evaluates_free_pointer() {
    let event = HeapTraceEvent::Free {
        event_id: 10,
        ptr: 0xd972a0,
        chunk: None,
        tcache_entry: None,
        caller_addr: None,
    };

    let matched = evaluate_allocator_break_conditions(
        &vec![AllocatorBreakCondition::FreePtr(0xd972a0)],
        &event,
        HeapTrackerNote::FreedKnownChunk,
        &vec![],
    )
    .unwrap();

    assert_eq!(matched.user_addr, Some(0xd972a0));
}

#[test]
fn allocator_break_evaluates_suspicious_heap_scan_record() {
    let event = HeapTraceEvent::Malloc {
        event_id: 9,
        requested_size: 0x20,
        returned_ptr: 0x1010,
        chunk: None,
        caller_addr: None,
    };

    let matched = evaluate_allocator_break_conditions(
        &vec![AllocatorBreakCondition::Suspicious],
        &event,
        HeapTrackerNote::NewAllocation,
        &vec![heap_scan_record(9)],
    )
    .unwrap();

    assert_eq!(
        matched.condition,
        AllocatorBreakCondition::Suspicious
    );
    assert!(matched.message.contains("allocator_source_allocated"));
}

#[test]
fn allocator_break_evaluates_double_free_note() {
    let event = HeapTraceEvent::Free {
        event_id: 11,
        ptr: 0x5000,
        chunk: None,
        tcache_entry: None,
        caller_addr: None,
    };

    let matched = evaluate_allocator_break_conditions(
        &vec![AllocatorBreakCondition::DoubleFree],
        &event,
        HeapTrackerNote::DoubleFree,
        &vec![],
    )
    .unwrap();

    assert_eq!(matched.user_addr, Some(0x5000));
}

#[test]
fn heap_search_parse_empty_input_errors() {
    assert!(parse_heap_search_query("").is_err());
    assert!(parse_heap_search_query("   ").is_err());
}

#[test]
fn heap_search_parse_bare_address_defaults_to_any_address() {
    assert_eq!(
        parse_heap_search_query("0xd972a0").unwrap(),
        HeapSearchQuery::AnyAddress(0xd972a0)
    );
}

#[test]
fn heap_search_parse_user_address_mode() {
    assert_eq!(
        parse_heap_search_query("u 0xd972a0").unwrap(),
        HeapSearchQuery::UserAddress(0xd972a0)
    );
}

#[test]
fn heap_search_parse_chunk_address_mode() {
    assert_eq!(
        parse_heap_search_query("c 0xd97290").unwrap(),
        HeapSearchQuery::ChunkAddress(0xd97290)
    );
}

#[test]
fn heap_search_parse_size_mode() {
    assert_eq!(
        parse_heap_search_query("s 0x30").unwrap(),
        HeapSearchQuery::Size(0x30)
    );
}

#[test]
fn heap_search_parse_bad_mode_errors() {
    let error = parse_heap_search_query("bad 0x30")
        .unwrap_err().to_text();

    assert!(error.contains("bad heap jump mode"));
}

#[test]
fn heap_search_find_any_address_inside_chunk_range() {
    let mut app = LiveTuiApp::default();
    app.apply_update(LiveTraceUpdate::RelatedRecord {
        event_id: 1,
        record: layout_record_with_chunks(1, &[(0x1000, 0x1010), (0x1030, 0x1040)]),
    });

    assert_eq!(
        app.find_chunk_in_latest_layout(HeapSearchQuery::AnyAddress(0x1050)),
        Some(1)
    );
}

#[test]
fn heap_search_find_user_address_exact() {
    let mut app = LiveTuiApp::default();
    app.apply_update(LiveTraceUpdate::RelatedRecord {
        event_id: 1,
        record: layout_record_with_chunks(1, &[(0x1000, 0x1010), (0x1030, 0x1040)]),
    });

    assert_eq!(
        app.find_chunk_in_latest_layout(HeapSearchQuery::UserAddress(0x1040)),
        Some(1)
    );
}

#[test]
fn heap_search_find_chunk_address_exact() {
    let mut app = LiveTuiApp::default();
    app.apply_update(LiveTraceUpdate::RelatedRecord {
        event_id: 1,
        record: layout_record_with_chunks(1, &[(0x1000, 0x1010), (0x1030, 0x1040)]),
    });

    assert_eq!(
        app.find_chunk_in_latest_layout(HeapSearchQuery::ChunkAddress(0x1030)),
        Some(1)
    );
}

#[test]
fn heap_search_find_size_returns_first_match() {
    let mut app = LiveTuiApp::default();
    app.apply_update(LiveTraceUpdate::RelatedRecord {
        event_id: 1,
        record: layout_record_with_chunks(1, &[(0x1000, 0x1010), (0x1030, 0x1040)]),
    });

    assert_eq!(
        app.find_chunk_in_latest_layout(HeapSearchQuery::Size(0x30)),
        Some(0)
    );
}

#[test]
fn heap_search_success_updates_selection_and_enables_inspector() {
    let mut app = LiveTuiApp::default();
    app.apply_update(LiveTraceUpdate::RelatedRecord {
        event_id: 1,
        record: layout_record_with_chunks(1, &[(0x1000, 0x1010), (0x1030, 0x1040)]),
    });
    app.search.prompt_active = true;
    app.search.input = "u 0x1040".to_string();

    app.execute_heap_search();

    assert!(!app.search.prompt_active);
    assert_eq!(app.chunk.index, Some(1));
    assert_eq!(app.chunk.addr, Some(0x1030));
    assert_eq!(app.chunk.user_addr, Some(0x1040));
    assert_eq!(app.panes.focused_pane, LiveTuiPane::HeapLayout);
    assert!(app.panes.show_heap_pane);
    assert!(app.panes.show_chunk_inspector);
    assert_eq!(app.panes.heap_layout_scroll, 0);
    assert!(app
        .search.status
        .as_deref()
        .unwrap()
        .contains("selected chunk 0x1030 user 0x1040"));
}

#[test]
fn heap_search_failure_leaves_selection_unchanged_and_sets_status() {
    let mut app = LiveTuiApp::default();
    app.apply_update(LiveTraceUpdate::RelatedRecord {
        event_id: 1,
        record: layout_record_with_chunks(1, &[(0x1000, 0x1010), (0x1030, 0x1040)]),
    });
    app.select_next_chunk();
    app.search.prompt_active = true;
    app.search.input = "u 0xffff".to_string();

    app.execute_heap_search();

    assert!(!app.search.prompt_active);
    assert_eq!(app.chunk.index, Some(0));
    assert_eq!(app.chunk.addr, Some(0x1000));
    assert!(app
        .search.status
        .as_deref()
        .unwrap()
        .contains("no heap chunk with user address 0xffff"));
}

#[test]
fn heap_search_prompt_input_handles_char_backspace_and_cancel() {
    let mut app = LiveTuiApp::default();
    let (sender, receiver) = channel();
    let g = plain_key(KeyCode::Char('g'));
    let one = plain_key(KeyCode::Char('1'));
    let two = plain_key(KeyCode::Char('2'));
    let backspace = plain_key(KeyCode::Backspace);
    let esc = plain_key(KeyCode::Esc);

    press(g, &mut app, false, &sender);
    press(one, &mut app, false, &sender);
    press(two, &mut app, false, &sender);
    assert_eq!(app.search.input, "12");

    press(backspace, &mut app, false, &sender);
    assert_eq!(app.search.input, "1");

    press(esc, &mut app, false, &sender);
    assert!(!app.search.prompt_active);
    assert!(app.search.input.is_empty());
    assert!(receiver.try_recv().is_err());
}

#[test]
fn live_tui_selecting_next_previous_chunk_updates_selection() {
    let mut app = LiveTuiApp::default();
    app.apply_update(LiveTraceUpdate::RelatedRecord {
        event_id: 1,
        record: layout_record_with_chunks(1, &[(0x1000, 0x1010), (0x1030, 0x1040)]),
    });

    app.select_next_chunk();
    assert_eq!(app.chunk.index, Some(0));
    assert_eq!(app.chunk.addr, Some(0x1000));
    assert_eq!(app.chunk.user_addr, Some(0x1010));

    app.select_next_chunk();
    assert_eq!(app.chunk.index, Some(1));
    assert_eq!(app.chunk.addr, Some(0x1030));
    assert_eq!(app.chunk.user_addr, Some(0x1040));

    app.select_previous_chunk();
    assert_eq!(app.chunk.index, Some(0));
    assert_eq!(app.chunk.addr, Some(0x1000));
    assert_eq!(app.chunk.user_addr, Some(0x1010));
}

#[test]
fn live_tui_chunk_selection_is_preserved_by_user_addr_after_layout_update() {
    let mut app = LiveTuiApp::default();
    app.apply_update(LiveTraceUpdate::RelatedRecord {
        event_id: 1,
        record: layout_record_with_chunks(1, &[(0x1000, 0x1010), (0x1030, 0x1040)]),
    });
    app.select_next_chunk();
    app.select_next_chunk();

    app.apply_update(LiveTraceUpdate::RelatedRecord {
        event_id: 2,
        record: layout_record_with_chunks(2, &[(0x2000, 0x2010), (0x3000, 0x1040)]),
    });

    assert_eq!(app.chunk.index, Some(1));
    assert_eq!(app.chunk.addr, Some(0x3000));
    assert_eq!(app.chunk.user_addr, Some(0x1040));
}

#[test]
fn live_tui_chunk_selection_clamps_when_selected_chunk_disappears() {
    let mut app = LiveTuiApp::default();
    app.apply_update(LiveTraceUpdate::RelatedRecord {
        event_id: 1,
        record: layout_record_with_chunks(
            1,
            &[(0x1000, 0x1010), (0x1030, 0x1040), (0x1060, 0x1070)],
        ),
    });
    app.select_next_chunk();
    app.select_next_chunk();
    app.select_next_chunk();

    app.apply_update(LiveTraceUpdate::RelatedRecord {
        event_id: 2,
        record: layout_record_with_chunks(2, &[(0x1000, 0x1010)]),
    });

    assert_eq!(app.chunk.index, Some(0));
    assert_eq!(app.chunk.addr, Some(0x1000));
    assert_eq!(app.chunk.user_addr, Some(0x1010));
}

#[test]
fn live_tui_i_toggles_chunk_inspector() {
    let mut app = LiveTuiApp::default();
    let (sender, receiver) = channel();
    let key = plain_key(KeyCode::Char('i'));

    press(key, &mut app, false, &sender);
    assert!(app.panes.show_chunk_inspector);
    press(key, &mut app, false, &sender);
    assert!(!app.panes.show_chunk_inspector);
    assert!(receiver.try_recv().is_err());
}

#[test]
fn live_chunk_inspector_renders_no_selection_message() {
    let mut app = LiveTuiApp::default();
    app.apply_update(LiveTraceUpdate::RelatedRecord {
        event_id: 1,
        record: layout_record_with_chunks(1, &[(0x1000, 0x1010)]),
    });

    assert_eq!(live_chunk_inspector_text(&app), "no chunk selected");
}

#[test]
fn live_chunk_inspector_renders_selected_chunk_fields() {
    let mut app = LiveTuiApp::default();
    app.apply_update(LiveTraceUpdate::RelatedRecord {
        event_id: 1,
        record: layout_record_with_annotated_chunk(1),
    });
    app.select_next_chunk();

    let formatted = live_chunk_inspector_text(&app);

    assert!(formatted.contains("chunk addr: 0x1000"));
    assert!(formatted.contains("user addr:  0x1010"));
    assert!(formatted.contains("size:       0x30"));
    assert!(formatted.contains("flags:      PREV_INUSE"));
    assert!(formatted.contains("tracker:    freed"));
    assert!(formatted.contains("allocator:  tcache_candidate size=0x30 index=0"));
}

#[test]
fn live_event_history_matches_allocator_events_by_user_pointer() {
    let events = vec![
        malloc_event_record(1, 0x1010),
        calloc_event_record(2, 0x1010),
        free_event_record(3, 0x1010),
        realloc_event_record(4, 0x1010, 0x2020),
        realloc_event_record(5, 0x3030, 0x1010),
        malloc_event_record(6, 0x4040),
    ];

    let history = collect_event_history_for_user_addr(&events, 0x1010);

    assert_eq!(history.len(), 5);
    assert!(history[0].contains("#1 malloc"));
    assert!(history[1].contains("#2 calloc"));
    assert!(history[2].contains("#3 free"));
    assert!(history[3].contains("#4 realloc"));
    assert!(history[4].contains("#5 realloc"));
}

#[test]
fn live_heap_scan_findings_filter_by_selected_chunk_or_user_addr() {
    let findings = collect_heap_scan_findings_for_chunk(
        Some(&heap_scan_record_with_findings(1)),
        Some(0x1000),
        Some(0x2020),
    );

    assert_eq!(findings.len(), 2);
    assert!(findings[0].contains("chunk=0x1000"));
    assert!(findings[1].contains("user=0x2020"));
}

#[test]
fn live_tui_app_selects_matched_event_on_break_matched() {
    let mut app = LiveTuiApp::default();
    app.apply_update(malloc_live_update(1));
    app.apply_update(malloc_live_update(2));

    app.apply_update(LiveTraceUpdate::BreakMatched(
        AllocatorBreakMatch {
            condition: AllocatorBreakCondition::AllocSize(0x20),
            event_id: 1,
            user_addr: None,
            message: "allocation size 0x20".to_string(),
        },
    ));

    assert_eq!(app.control.target_status, LiveTargetStatus::Paused);
    assert_eq!(app.control.selected_index, 0);
    assert!(!app.control.follow_tail);
    assert!(app
        .control.status_line
        .contains("break condition matched: allocation size 0x20 after event #1"));
}

#[test]
fn live_tui_app_opens_chunk_inspector_for_break_user_addr() {
    let mut app = LiveTuiApp::default();
    app.apply_update(malloc_live_update(1));
    app.apply_update(LiveTraceUpdate::RelatedRecord {
        event_id: 1,
        record: layout_record_with_chunks(1, &[(0x1000, 0x1010), (0x1030, 0x1040)]),
    });

    app.apply_update(LiveTraceUpdate::BreakMatched(
        AllocatorBreakMatch {
            condition: AllocatorBreakCondition::FreePtr(0x1040),
            event_id: 1,
            user_addr: Some(0x1040),
            message: "free pointer 0x1040".to_string(),
        },
    ));

    assert_eq!(app.panes.focused_pane, LiveTuiPane::HeapLayout);
    assert!(app.panes.show_chunk_inspector);
    assert_eq!(app.chunk.index, Some(1));
    assert_eq!(app.chunk.user_addr, Some(0x1040));
}

#[test]
fn live_command_status_labels_are_stable() {
    assert_eq!(LiveCommand::Stop.as_str(), "stop");
    assert_eq!(LiveCommand::Pause.as_str(), "pause");
    assert_eq!(LiveCommand::Resume.as_str(), "resume");
    assert_eq!(LiveCommand::Continue.as_str(), "continue");
    assert_eq!(
        LiveCommand::StepAllocatorEvent.as_str(),
        "step_allocator_event"
    );
    assert_eq!(
        LiveCommand::StepInstruction.as_str(),
        "step_instruction"
    );
    assert_eq!(
        LiveCommand::StepInstructionOver.as_str(),
        "step_instruction_over"
    );
    assert_eq!(LiveTargetStatus::NotStarted.as_str(), "not_started");
    assert_eq!(LiveTargetStatus::Running.as_str(), "running");
    assert_eq!(LiveTargetStatus::Paused.as_str(), "paused");
    assert_eq!(
        LiveTargetStatus::SteppingToNextAllocatorEvent.as_str(),
        "stepping_to_next_allocator_event"
    );
    assert_eq!(
        LiveTargetStatus::SteppingInstruction.as_str(),
        "stepping_instruction"
    );
    assert_eq!(
        LiveTargetStatus::SteppingInstructionOver.as_str(),
        "stepping_instruction_over"
    );
    assert_eq!(LiveTargetStatus::Stopping.as_str(), "stopping");
    assert_eq!(LiveTargetStatus::Exited.as_str(), "exited");
    assert_eq!(LiveCommandStatus::Accepted.as_str(), "accepted");
    assert_eq!(LiveCommandStatus::Rejected.as_str(), "rejected");
    assert_eq!(LiveCommandStatus::Completed.as_str(), "completed");
    assert_eq!(LiveCommandStatus::Failed.as_str(), "failed");
}

fn session_start_record() -> JsonTraceRecord {
    JsonTraceRecord::SessionStart {
        heapify_version: "0.1.0".to_string(),
        program: "./prog".to_string(),
        args: vec!["arg".to_string()],
        trace_mode: "target_plt".to_string(),
        arch: "x86_64".to_string(),
        os: "linux".to_string(),
        glibc_profile: "glibc-x86_64-modern".to_string(),
        suggested_glibc_profile: None,
        glibc_profile_selection: None,
        libc: Some(JsonLibcMetadata {
            path: Some("/lib/libc.so.6".to_string()),
            supplied_path: None,
            paths_match: None,
            version: Some("2.39".to_string()),
        }),
        launch: None,
        allocator_views_preset: "none".to_string(),
        features: JsonTraceFeatures {
            layout: true,
            tcache_candidates: false,
            tcache_struct: false,
            libc_symbols: false,
        },
    }
}

fn session_end_record(event_count: usize) -> JsonTraceRecord {
    JsonTraceRecord::SessionEnd {
        exit_status: "unknown".to_string(),
        event_count: event_count,
    }
}

fn malloc_record(event_id: usize) -> JsonTraceRecord {
    JsonTraceRecord::Event {
        event: JsonHeapEvent::Malloc {
            event_id: event_id,
            requested_size: "0x20".to_string(),
            returned_ptr: "0x1000".to_string(),
            chunk: None,
            caller_addr: None,
            caller_symbol: None,
            tracker_note: "NewAllocation".to_string(),
            tracker_explanation: None,
        },
    }
}

fn malloc_event_record(event_id: usize, returned_ptr: u64) -> JsonTraceRecord {
    JsonTraceRecord::Event {
        event: JsonHeapEvent::Malloc {
            event_id: event_id,
            requested_size: "0x20".to_string(),
            returned_ptr: format!("0x{returned_ptr:x}"),
            chunk: None,
            caller_addr: None,
            caller_symbol: None,
            tracker_note: "NewAllocation".to_string(),
            tracker_explanation: None,
        },
    }
}

fn calloc_event_record(event_id: usize, returned_ptr: u64) -> JsonTraceRecord {
    JsonTraceRecord::Event {
        event: JsonHeapEvent::Calloc {
            event_id: event_id,
            nmemb: "0x2".to_string(),
            size: "0x10".to_string(),
            returned_ptr: format!("0x{returned_ptr:x}"),
            chunk: None,
            caller_addr: None,
            caller_symbol: None,
            tracker_note: "NewAllocation".to_string(),
            tracker_explanation: None,
        },
    }
}

fn free_event_record(event_id: usize, ptr: u64) -> JsonTraceRecord {
    JsonTraceRecord::Event {
        event: JsonHeapEvent::Free {
            event_id: event_id,
            ptr: format!("0x{ptr:x}"),
            chunk: None,
            tcache_entry: None,
            caller_addr: None,
            caller_symbol: None,
            tracker_note: "FreedKnownChunk".to_string(),
            tracker_explanation: None,
        },
    }
}

fn realloc_event_record(
    event_id: usize,
    old_ptr: u64,
    returned_ptr: u64,
) -> JsonTraceRecord {
    JsonTraceRecord::Event {
        event: JsonHeapEvent::Realloc {
            event_id: event_id,
            old_ptr: format!("0x{old_ptr:x}"),
            new_size: "0x40".to_string(),
            returned_ptr: format!("0x{returned_ptr:x}"),
            old_chunk: None,
            new_chunk: None,
            caller_addr: None,
            caller_symbol: None,
            tracker_note: "ReallocMovedKnownAllocation".to_string(),
            tracker_explanation: None,
        },
    }
}

fn layout_record(event_id: usize) -> JsonTraceRecord {
    JsonTraceRecord::HeapLayout {
        event_id: event_id,
        heap_start: "0x1000".to_string(),
        heap_end: "0x2000".to_string(),
        chunks: vec![],
        truncated: false,
        chunks_omitted: 0,
    }
}

fn layout_record_with_chunks(
    event_id: usize,
    chunks: &[(u64, u64)],
) -> JsonTraceRecord {
    let chunks = chunks
        .iter()
        .map(|(chunk_addr, user_addr)| {
            JsonLayoutChunk {
                chunk_addr: format!("0x{chunk_addr:x}"),
                user_addr: format!("0x{user_addr:x}"),
                prev_size: "0x0".to_string(),
                size_raw: "0x31".to_string(),
                size: "0x30".to_string(),
                flags: vec!["PREV_INUSE".to_string()],
                state: "allocated".to_string(),
                tcache_candidate: None,
                allocator_source: None,
            }
        })
        .collect::<Vec<_>>();

    JsonTraceRecord::HeapLayout {
        event_id: event_id,
        heap_start: "0x1000".to_string(),
        heap_end: "0x3000".to_string(),
        chunks: chunks,
        truncated: false,
        chunks_omitted: 0,
    }
}

fn layout_record_with_annotated_chunk(event_id: usize) -> JsonTraceRecord {
    JsonTraceRecord::HeapLayout {
        event_id: event_id,
        heap_start: "0x1000".to_string(),
        heap_end: "0x2000".to_string(),
        chunks: vec![
            JsonLayoutChunk {
                chunk_addr: "0x1000".to_string(),
                user_addr: "0x1010".to_string(),
                prev_size: "0x0".to_string(),
                size_raw: "0x31".to_string(),
                size: "0x30".to_string(),
                flags: vec!["PREV_INUSE".to_string()],
                state: "freed".to_string(),
                tcache_candidate: Some(JsonTcacheMembership {
                    chunk_size: "0x30".to_string(),
                    index: 0,
                }),
                allocator_source: Some(JsonLayoutAllocatorSource {
                    kind: "tcache_candidate".to_string(),
                    chunk_size: "0x30".to_string(),
                    index: 0,
                }),
            },
        ],
        truncated: false,
        chunks_omitted: 0,
    }
}

fn allocator_source_summary_record(event_id: usize) -> JsonTraceRecord {
    JsonTraceRecord::AllocatorSourceSummary {
        event_id: event_id,
        tcache_candidate_chunks: 7,
        fastbin_chunks: 1,
        unsorted_chunks: 0,
        smallbin_chunks: 0,
        largebin_chunks: 0,
        total_free_list_chunks: 8,
        warning_count: 0,
    }
}

fn allocator_source_delta_record(event_id: usize) -> JsonTraceRecord {
    JsonTraceRecord::AllocatorSourceDelta {
        event_id: event_id,
        tcache_candidate_chunks_delta: 0,
        fastbin_chunks_delta: 1,
        unsorted_chunks_delta: 0,
        smallbin_chunks_delta: 0,
        largebin_chunks_delta: 0,
        total_free_list_chunks_delta: 1,
        warning_count_delta: 0,
    }
}

fn heap_scan_record_with_findings(event_id: usize) -> JsonTraceRecord {
    JsonTraceRecord::HeapScan {
        event_id: event_id,
        report: JsonHeapScanReport {
            chunks_walked: 4,
            allocated_observed: 1,
            freed_observed: 1,
            unknown_observed: 2,
            allocator_source_chunks: 2,
            warning_count: 2,
            suspicious_count: 2,
            top_validated: Some(false),
            heap_snapshot_truncated: false,
            status: "suspicious".to_string(),
            findings: vec![
                JsonHeapScanFinding {
                    severity: "suspicious".to_string(),
                    kind: "allocator_source_allocated".to_string(),
                    chunk_addr: Some("0x1000".to_string()),
                    user_addr: Some("0x1010".to_string()),
                    message: "chunk match".to_string(),
                },
                JsonHeapScanFinding {
                    severity: "suspicious".to_string(),
                    kind: "allocator_source_allocated".to_string(),
                    chunk_addr: Some("0x2000".to_string()),
                    user_addr: Some("0x2020".to_string()),
                    message: "user match".to_string(),
                },
                JsonHeapScanFinding {
                    severity: "suspicious".to_string(),
                    kind: "allocator_source_allocated".to_string(),
                    chunk_addr: Some("0x3000".to_string()),
                    user_addr: Some("0x3030".to_string()),
                    message: "unrelated".to_string(),
                },
            ],
        },
    }
}

fn heap_scan_record(event_id: usize) -> JsonTraceRecord {
    JsonTraceRecord::HeapScan {
        event_id: event_id,
        report: JsonHeapScanReport {
            chunks_walked: 3,
            allocated_observed: 1,
            freed_observed: 1,
            unknown_observed: 1,
            allocator_source_chunks: 2,
            warning_count: 1,
            suspicious_count: 1,
            top_validated: Some(false),
            heap_snapshot_truncated: false,
            status: "suspicious".to_string(),
            findings: vec![
                JsonHeapScanFinding {
                    severity: "suspicious".to_string(),
                    kind: "allocator_source_allocated".to_string(),
                    chunk_addr: Some("0x1000".to_string()),
                    user_addr: Some("0x1010".to_string()),
                    message: "allocator source disagrees with tracker".to_string(),
                },
            ],
        },
    }
}

fn json_heap_scan_finding(kind: &str, message: &str) -> JsonHeapScanFinding {
    JsonHeapScanFinding {
        severity: "suspicious".to_string(),
        kind: kind.to_string(),
        chunk_addr: Some("0x1000".to_string()),
        user_addr: Some("0x1010".to_string()),
        message: message.to_string(),
    }
}

fn malloc_live_update(event_id: usize) -> LiveTraceUpdate {
    LiveTraceUpdate::Event {
        event_id,
        event: HeapTraceEvent::Malloc {
            event_id,
            requested_size: 0x20,
            returned_ptr: 0x1000 + event_id as u64,
            chunk: None,
            caller_addr: None,
        },
        note: HeapTrackerNote::NewAllocation,
        explanation: HeapTrackerExplanation::NoExtraExplanation,
        caller_symbol: None,
    }
}

fn test_register_snapshot(rax: u64) -> RegisterSnapshot {
    RegisterSnapshot {
        arch: RegisterArch::X86_64,
        instruction_pointer: 0x4011a5,
        stack_pointer: 0x7fffffffdc30,
        frame_pointer: 0x7fffffffdc80,
        registers: vec![
            RegisterValue {
                name: "rip".to_string(),
                value: 0x4011a5,
                role: Some(RegisterRole::InstructionPointer),
            },
            RegisterValue {
                name: "rsp".to_string(),
                value: 0x7fffffffdc30,
                role: Some(RegisterRole::StackPointer),
            },
            RegisterValue {
                name: "rbp".to_string(),
                value: 0x7fffffffdc80,
                role: Some(RegisterRole::FramePointer),
            },
            RegisterValue {
                name: "rax".to_string(),
                value: rax,
                role: Some(RegisterRole::ReturnValue),
            },
        ],
    }
}

fn test_register_value(name: &str, value: u64, role: RegisterRole) -> RegisterValue {
    RegisterValue {
        name: name.to_string(),
        value,
        role: Some(role),
    }
}

fn test_code_context(rip: u64) -> CodeContext {
    CodeContext {
        instruction_pointer: rip,
        symbol: Some("main".to_string()),
        symbol_addr: Some(0x401000),
        symbol_offset: Some(rip.saturating_sub(0x401000)),
        object: Some("target".to_string()),
        source: Some(SourceLocation {
            file: Some("src/main.c".to_string()),
            line: Some(42),
            column: Some(7),
        }),
        disassembly: Some(DisassemblySnapshot {
            instruction_pointer: rip,
            start_address: rip,
            end_address: rip + 1,
            lines: vec![DisassemblyLine {
                address: rip,
                bytes: vec![0x90],
                mnemonic: "nop".to_string(),
                operands: String::new(),
                text: "nop".to_string(),
                is_current: true,
                flow_control: None,
                target: None,
                target_annotation: None,
            }],
            truncated_before: false,
            truncated_after: false,
            read_error: None,
        }),
    }
}

fn test_stack_snapshot(values: &[u64]) -> StackSnapshot {
    StackSnapshot {
        stack_pointer: 0x7fffffffdc30,
        word_size: 8,
        words: values
            .iter()
            .enumerate()
            .map(|(index, value)| StackWord {
                offset_from_sp: (index as i64) * 8,
                address: 0x7fffffffdc30 + (index as u64) * 8,
                value: *value,
                annotation: None,
            })
            .collect(),
        truncated: false,
        read_error: None,
    }
}

fn test_process_maps() -> ProcessMapsSnapshot {
    ProcessMapsSnapshot {
        entries: vec![
            ProcessMapEntry {
                start: 0x555555554000,
                end: 0x555555556000,
                permissions: "r-xp".to_string(),
                offset: 0,
                device: Some("08:20".to_string()),
                inode: Some(11),
                pathname: Some("/tmp/heapify-target".to_string()),
            },
            ProcessMapEntry {
                start: 0x555555559000,
                end: 0x55555557a000,
                permissions: "rw-p".to_string(),
                offset: 0,
                device: Some("00:00".to_string()),
                inode: Some(0),
                pathname: Some("[heap]".to_string()),
            },
            ProcessMapEntry {
                start: 0x7ffff7dd5000,
                end: 0x7ffff7f9d000,
                permissions: "r-xp".to_string(),
                offset: 0x26000,
                device: Some("08:20".to_string()),
                inode: Some(12),
                pathname: Some("/usr/lib/x86_64-linux-gnu/libc.so.6".to_string()),
            },
            ProcessMapEntry {
                start: 0x7ffff7fc0000,
                end: 0x7ffff7ffb000,
                permissions: "r-xp".to_string(),
                offset: 0,
                device: Some("08:20".to_string()),
                inode: Some(13),
                pathname: Some("/usr/lib64/ld-linux-x86-64.so.2".to_string()),
            },
            ProcessMapEntry {
                start: 0x7ffffffde000,
                end: 0x7ffffffff000,
                permissions: "rw-p".to_string(),
                offset: 0,
                device: Some("00:00".to_string()),
                inode: Some(0),
                pathname: Some("[stack]".to_string()),
            },
            ProcessMapEntry {
                start: 0x7ffff7ffe000,
                end: 0x7ffff7fff000,
                permissions: "r-xp".to_string(),
                offset: 0,
                device: Some("00:00".to_string()),
                inode: Some(0),
                pathname: Some("[vdso]".to_string()),
            },
            ProcessMapEntry {
                start: 0x7ffff7ffc000,
                end: 0x7ffff7ffd000,
                permissions: "r--p".to_string(),
                offset: 0,
                device: Some("00:00".to_string()),
                inode: Some(0),
                pathname: Some("[vvar]".to_string()),
            },
        ],
    }
}

fn plain_key(code: KeyCode) -> Key {
    Key { code, control: false, alt: false }
}

fn control_key(code: KeyCode) -> Key {
    Key { code, control: true, alt: false }
}

/// Does what a step leaves to do; says whether the screen is left.
fn deliver(action: KeyAction, app: &mut LiveTuiApp, sender: &Sender<LiveCommandMessage>) -> bool {
    match action {
        KeyAction::Stay => false,
        KeyAction::Leave => true,
        KeyAction::Send { message, from_console } => {
            let delivered = sender.send(message).is_ok();
            finish_live_send(app, message.command, delivered, from_console);
            false
        }
    }
}

fn press(
    key: Key,
    app: &mut LiveTuiApp,
    input_closed: bool,
    sender: &Sender<LiveCommandMessage>,
) -> bool {
    let action = handle_live_tui_key(key, app, input_closed);
    deliver(action, app, sender)
}

fn run_console(
    app: &mut LiveTuiApp,
    command: ConsoleCommand,
    raw_input: &str,
    input_closed: bool,
    sender: &Sender<LiveCommandMessage>,
) -> bool {
    let action = execute_console_command(app, command, raw_input, input_closed);
    deliver(action, app, sender)
}

fn names(list: &[&str]) -> NameSet {
    let mut set = NameSet::new();
    for name in list {
        set.insert(name.to_string());
    }
    set
}

fn changed_registers(app: &LiveTuiApp) -> NameSet {
    diff_register_snapshots(
        previous_stop(&app.data.registers),
        latest_stop(&app.data.registers).unwrap(),
    )
}
