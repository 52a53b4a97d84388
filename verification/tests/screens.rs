//! The debugger screens and what they show.

use heapify_cli::breaks::evaluate_allocator_break_conditions;
use heapify_cli::classify::{classify_address, classify_map_entry, map_path_label};
use heapify_cli::config::AllocatorBreakCondition;
use heapify_cli::event::{HeapTraceEvent, HeapTrackerExplanation, HeapTrackerNote};
use heapify_cli::keys::{Key, KeyCode};
use heapify_cli::live::{
    LiveCommand, LiveCommandId, LiveTargetStatus, latest_stop, validate_live_command,
};
use heapify_cli::live_app::{LOG_LIMIT, LiveTuiApp, apply_sent_live_command};
use heapify_cli::live_keys::{KeyAction, finish_live_send, handle_live_tui_key};
use heapify_cli::live_text::{format_live_console_pane, format_live_stack_tab};
use heapify_cli::live_update::{JsonSessionEnd, LiveTraceUpdate, trace_record};
use heapify_cli::panes::{
    LiveDebuggerPane, LiveRightTab, clamp_scroll, format_right_tabs, format_scroll_indicator,
    next_live_debugger_pane, next_live_right_tab, scroll_delta, scroll_offset_u16,
    text_line_count,
};
use heapify_cli::record::{JsonLayoutChunk, JsonTraceRecord};
use heapify_cli::registers::{
    NameSet, diff_register_snapshots, format_display_name, format_rendered_register_line,
    render_register_line, render_register_lines,
};
use heapify_cli::replay::{ReplaySession, ReplayTuiState};
use heapify_cli::replay_text::ReplayConfig;
use heapify_cli::screen::{
    Area, Painted, draw_live_screen, draw_replay_screen, fits_live_screen, layout_live_screen,
    layout_replay_screen, live_trace_pane, replay_screen_notice,
};
use heapify_cli::search::HeapSearchQuery;
use heapify_cli::snapshot::{
    AddressRegionKind, DisassemblyFlowControl, DisassemblyLine, DisassemblySnapshot,
    HeapAddressDetail, ProcessMapEntry, ProcessMapsSnapshot, RegisterArch, RegisterSnapshot,
    RegisterValue, SourceLocation, StackSnapshot, StackWord, SymbolizedAddress,
};
use heapify_cli::stop_text::{
    build_code_context, format_code_symbol, format_disassembly_line, format_instruction_bytes,
    format_source_location, format_stack_offset, truncate_text,
};

fn s(text: &str) -> String {
    text.to_string()
}

fn register(name: &str, value: u64) -> RegisterValue {
    RegisterValue {
        name: s(name),
        value,
        role: None,
    }
}

fn registers_of(list: &[(&str, u64)]) -> RegisterSnapshot {
    RegisterSnapshot {
        arch: RegisterArch::X86_64,
        instruction_pointer: 0x4000,
        stack_pointer: 0x7000,
        frame_pointer: 0x7100,
        registers: list.iter().map(|(name, value)| register(name, *value)).collect(),
    }
}

fn map_entry(start: u64, end: u64, permissions: &str, pathname: Option<&str>) -> ProcessMapEntry {
    ProcessMapEntry {
        start,
        end,
        permissions: s(permissions),
        offset: 0,
        device: None,
        inode: None,
        pathname: pathname.map(s),
    }
}

fn plain(code: KeyCode) -> Key {
    Key {
        code,
        control: false,
        alt: false,
    }
}

fn press(app: &mut LiveTuiApp, code: KeyCode) -> KeyAction {
    handle_live_tui_key(plain(code), app, false)
}

fn malloc_update(event_id: usize) -> LiveTraceUpdate {
    LiveTraceUpdate::Event {
        event_id,
        event: HeapTraceEvent::Malloc {
            event_id,
            requested_size: 0x20,
            returned_ptr: 0x1000,
            chunk: None,
            caller_addr: None,
        },
        note: HeapTrackerNote::NewAllocation,
        explanation: HeapTrackerExplanation::NoExtraExplanation,
        caller_symbol: None,
    }
}

fn layout_update(event_id: usize, users: &[u64]) -> LiveTraceUpdate {
    let chunks = users
        .iter()
        .map(|user| JsonLayoutChunk {
            chunk_addr: format!("{:#x}", user - 0x10),
            user_addr: format!("{:#x}", user),
            prev_size: s("0x0"),
            size_raw: s("0x21"),
            size: s("0x20"),
            flags: vec![s("PREV_INUSE")],
            state: s("allocated"),
            tcache_candidate: None,
            allocator_source: None,
        })
        .collect();
    LiveTraceUpdate::RelatedRecord {
        event_id,
        record: JsonTraceRecord::HeapLayout {
            event_id,
            heap_start: s("0x1000"),
            heap_end: s("0x2000"),
            chunks,
            truncated: false,
            chunks_omitted: 0,
        },
    }
}

fn session_end() -> LiveTraceUpdate {
    LiveTraceUpdate::SessionEnd(JsonSessionEnd {
        record: JsonTraceRecord::SessionEnd {
            exit_status: s("unknown"),
            event_count: 0,
        },
    })
}

fn area(width: u16, height: u16) -> Area {
    Area {
        x: 0,
        y: 0,
        width,
        height,
    }
}

fn replay_config() -> ReplayConfig {
    ReplayConfig {
        events_only: false,
        show_chunks: true,
        tui: true,
    }
}

#[test]
fn register_names_are_shown_in_capitals() {
    assert_eq!(format_display_name("rax"), "RAX");
    assert_eq!(format_display_name("st0"), "ST0");
    assert_eq!(format_display_name("r\u{e9}"), "R\u{c9}");
    assert_eq!(format_display_name("\u{df}"), "SS");
}

#[test]
fn registers_have_an_order_of_their_own() {
    let lines = render_register_lines(
        &registers_of(&[("zmm", 1), ("RAX", 2), ("rip", 3), ("aux", 4), ("rsp", 5)]),
        &NameSet::new(),
        None,
        None,
        None,
    );
    let names: Vec<&str> = lines.iter().map(|line| line.name.as_str()).collect();
    assert_eq!(names.len(), 5);
    assert_eq!(&names[3..], &["AUX", "ZMM"]);
    let rip = names.iter().position(|name| *name == "RIP").unwrap();
    let rax = names.iter().position(|name| *name == "RAX").unwrap();
    assert!(rip < 3 && rax < 3);
    assert_eq!(lines[rip].value, "0x0000000000000003");
}

#[test]
fn equal_registers_did_not_change() {
    let one = registers_of(&[("rax", 1), ("rbx", 2)]);
    let two = registers_of(&[("RAX", 1), ("rbx", 3)]);
    assert!(diff_register_snapshots(Some(&one), &one).is_empty());
    assert!(diff_register_snapshots(None, &one).is_empty());
    assert_eq!(
        diff_register_snapshots(Some(&one), &two).names(),
        &vec![s("rbx")]
    );
}

#[test]
fn the_instruction_pointer_line_has_a_note() {
    let maps = ProcessMapsSnapshot {
        entries: vec![map_entry(0x4000, 0x5000, "r-xp", Some("/bin/prog"))],
    };
    let mut changed = NameSet::new();
    changed.insert(s("rip"));
    let line = render_register_line("RIP", 0x4010, None, &changed, Some(&maps), None, None);
    assert!(line.changed);
    assert_eq!(line.annotation.as_deref(), Some("code"));
    assert!(format_rendered_register_line(&line).contains("0x0000000000004010"));
}

#[test]
fn mapped_memory_is_named_after_its_path() {
    let kind = |permissions: &str, path: Option<&str>| {
        classify_map_entry(&map_entry(0, 1, permissions, path)).0
    };
    assert_eq!(kind("rw-p", Some("[heap]")), AddressRegionKind::Heap);
    assert_eq!(kind("rw-p", Some("[stack]")), AddressRegionKind::Stack);
    assert_eq!(kind("r-xp", Some("[vdso]")), AddressRegionKind::Vdso);
    assert_eq!(kind("r-xp", Some("/lib/libc.so.6")), AddressRegionKind::Libc);
    assert_eq!(
        kind("r-xp", Some("/lib64/ld-linux-x86-64.so.2")),
        AddressRegionKind::Loader
    );
    assert_eq!(kind("r-xp", Some("/bin/prog")), AddressRegionKind::Code);
    assert_eq!(kind("rw-p", Some("/bin/prog")), AddressRegionKind::MappedFile);
    assert_eq!(kind("rw-p", None), AddressRegionKind::Anonymous);
    assert_eq!(map_path_label("/usr/bin/prog"), "prog");
}

#[test]
fn a_mapping_ends_before_its_end() {
    let maps = ProcessMapsSnapshot {
        entries: vec![map_entry(0x1000, 0x2000, "rw-p", Some("[heap]"))],
    };
    let kind = |address| classify_address(address, Some(&maps), None).kind;
    assert_eq!(kind(0x1000), AddressRegionKind::Heap);
    assert_eq!(kind(0x1fff), AddressRegionKind::Heap);
    assert_eq!(kind(0x2000), AddressRegionKind::Unknown);
    assert_eq!(classify_address(0x1000, None, None).kind, AddressRegionKind::Unknown);
}

#[test]
fn the_heap_layout_says_more_than_the_map() {
    let LiveTraceUpdate::RelatedRecord { record, .. } = layout_update(1, &[0x1010]) else {
        panic!("expected a record");
    };
    let maps = ProcessMapsSnapshot {
        entries: vec![map_entry(0x1000, 0x2000, "rw-p", Some("[heap]"))],
    };
    let found = classify_address(0x1010, Some(&maps), Some(&record));
    assert_eq!(
        found.heap_detail,
        Some(HeapAddressDetail::UserPointer {
            chunk_addr: 0x1000,
            user_addr: 0x1010
        })
    );
    let inside = classify_address(0x1014, Some(&maps), Some(&record));
    assert_eq!(
        inside.heap_detail,
        Some(HeapAddressDetail::Interior {
            chunk_addr: 0x1000,
            user_addr: 0x1010,
            offset: 4
        })
    );
    assert_eq!(classify_address(0x1f00, Some(&maps), Some(&record)).heap_detail, None);
}

#[test]
fn stack_offsets_have_a_sign_and_three_digits() {
    assert_eq!(format_stack_offset(0), "+0x000");
    assert_eq!(format_stack_offset(0x18), "+0x018");
    assert_eq!(format_stack_offset(-8), "-0x008");
    assert_eq!(format_stack_offset(0x12345), "+0x12345");
    assert_eq!(format_stack_offset(i64::MIN), "-0x8000000000000000");
}

#[test]
fn long_texts_end_in_a_tilde() {
    assert_eq!(truncate_text("abcdef", 6), "abcdef");
    assert_eq!(truncate_text("abcdef", 5), "abcd~");
    assert_eq!(truncate_text("\u{e9}\u{e9}\u{e9}", 2), "\u{e9}~");
    assert_eq!(truncate_text("abcdef", 1), "~");
    assert_eq!(truncate_text("abcdef", 0), "");
}

#[test]
fn an_instruction_shows_where_it_leads() {
    let mut line = DisassemblyLine {
        address: 0x401000,
        bytes: vec![0xe8, 0x0b, 0, 0, 0],
        mnemonic: s("call"),
        operands: s("0x401010"),
        text: s("call 0x401010"),
        is_current: true,
        flow_control: Some(DisassemblyFlowControl::Call),
        target: Some(0x401010),
        target_annotation: None,
    };
    assert_eq!(
        format_disassembly_line(&line),
        "> 0x0000000000401000  e8 0b 00 00 00           call    0x401010 <0x0000000000401010>"
    );
    line.target_annotation = Some(s("main+0x10"));
    line.is_current = false;
    assert_eq!(
        format_disassembly_line(&line),
        "  0x0000000000401000  e8 0b 00 00 00           call    0x401010 <main+0x10>"
    );
    assert_eq!(format_instruction_bytes(&line.bytes), "e8 0b 00 00 00");
}

#[test]
fn a_code_symbol_has_its_offset_and_object() {
    assert_eq!(
        format_code_symbol(Some("main"), Some(0x10), Some("prog")),
        "main+0x10 (prog)"
    );
    assert_eq!(format_code_symbol(Some("main"), Some(0), None), "main");
    assert_eq!(format_code_symbol(None, None, None), "unavailable");
    assert_eq!(format_source_location(None), "unavailable");
}

#[test]
fn a_scrolled_pane_stays_full() {
    assert_eq!(clamp_scroll(3, 10, 4), 3);
    assert_eq!(clamp_scroll(9, 10, 4), 6);
    assert_eq!(clamp_scroll(9, 4, 4), 0);
    assert_eq!(clamp_scroll(9, 10, 0), 0);
    assert_eq!(clamp_scroll(clamp_scroll(9, 10, 4), 10, 4), 6);
    assert_eq!(scroll_delta(3, -5), 0);
    assert_eq!(scroll_delta(3, 5), 8);
    assert_eq!(scroll_delta(usize::MAX, 1), usize::MAX);
    assert_eq!(scroll_delta(usize::MAX, isize::MIN), isize::MAX as usize);
    assert_eq!(format_scroll_indicator(9, 10, 4), "[7-10/10]");
    assert_eq!(format_scroll_indicator(0, 4, 4), "");
    assert_eq!(scroll_offset_u16(70000), u16::MAX);
    assert_eq!(text_line_count(""), 1);
    assert_eq!(text_line_count("a\nb\n"), 2);
    assert_eq!(text_line_count("a\nb"), 2);
}

#[test]
fn panes_and_tabs_go_round() {
    let mut pane = LiveDebuggerPane::Registers;
    let mut seen = vec![];
    loop {
        seen.push(pane);
        assert_eq!(
            next_live_debugger_pane(next_live_debugger_pane(pane, 1), -1),
            pane
        );
        pane = next_live_debugger_pane(pane, 1);
        if pane == LiveDebuggerPane::Registers {
            break;
        }
    }
    assert_eq!(seen.len(), 5);
    let mut tab = LiveRightTab::Heap;
    let mut labels = vec![];
    loop {
        labels.push(tab.label());
        tab = next_live_right_tab(tab, 1);
        if tab == LiveRightTab::Heap {
            break;
        }
    }
    let row = format_right_tabs(LiveRightTab::Heap);
    for label in labels {
        assert!(row.contains(label));
    }
}

#[test]
fn a_small_terminal_gets_one_pane() {
    let app = LiveTuiApp::default();
    for (width, height) in [(79, 40), (120, 19)] {
        assert!(!fits_live_screen(width, height));
        let painted = draw_live_screen(&app, &replay_config(), area(width, height));
        assert_eq!(painted.len(), 1);
        let Painted::Text { area: at, pane } = &painted[0] else {
            panic!("expected a text");
        };
        assert_eq!(*at, area(width, height));
        assert_eq!(pane.title, "Heapify");
        assert_eq!(pane.body, "terminal too small for debugger layout");
    }
    assert!(fits_live_screen(80, 20));
}

#[test]
fn the_live_screen_is_laid_out_in_two_columns() {
    let areas = layout_live_screen(area(100, 50));
    assert_eq!((areas.registers.x, areas.registers.width), (0, 60));
    assert_eq!((areas.tabs.x, areas.tabs.width), (60, 40));
    assert_eq!((areas.tabs.y, areas.tabs.height), (0, 3));
    assert_eq!((areas.tab.y, areas.tab.height), (3, 47));
    assert_eq!(areas.code.y, areas.registers.height);
    assert_eq!(areas.trace.y, areas.code.y + areas.code.height);
    assert_eq!(areas.code.height, 12);
    assert_eq!(areas.trace.height, 19);
    assert_eq!(areas.console.y + areas.console.height, 50);
    assert_eq!(areas.heap_lower.y + areas.heap_lower.height, 50);
    assert_eq!(areas.heap_upper.y, 3);
}

#[test]
fn the_live_screen_paints_its_panes() {
    let mut app = LiveTuiApp::default();
    app.set_active_right_tab(LiveRightTab::Heap);
    let painted = draw_live_screen(&app, &replay_config(), area(120, 40));
    assert_eq!(painted.len(), 8);
    app.set_active_right_tab(LiveRightTab::Stack);
    let painted = draw_live_screen(&app, &replay_config(), area(120, 40));
    assert_eq!(painted.len(), 6);
    let Painted::Text { area: at, pane } = &painted[0] else {
        panic!("expected a text");
    };
    assert!(pane.title.contains("Registers"));
    assert!(at.width < 120 && at.height < 40);
    assert!(matches!(painted[2], Painted::Rows { .. }));
}

#[test]
fn the_replay_screen_has_three_panes() {
    let areas = layout_replay_screen(area(80, 50));
    assert_eq!((areas.timeline.y, areas.timeline.height), (0, 20));
    assert_eq!((areas.details.y, areas.details.height), (20, 15));
    assert_eq!((areas.related.y, areas.related.height), (35, 15));
    let session = ReplaySession::from_records(vec![trace_record(malloc_update(7)).unwrap()]);
    let state = ReplayTuiState {
        selected_event_index: 0,
        scroll_details: 2,
    };
    let painted = draw_replay_screen(&session, &state, &replay_config(), area(80, 50));
    assert_eq!(painted.len(), 3);
    let Painted::Rows { pane, .. } = &painted[0] else {
        panic!("expected rows");
    };
    assert_eq!(pane.rows.len(), 1);
    assert_eq!(pane.selected, Some(0));
    let Painted::Text { pane, .. } = &painted[1] else {
        panic!("expected a text");
    };
    assert_eq!(pane.title, "Selected Event Details");
    assert_eq!(pane.offset, 2);
    assert!(pane.body.contains("#7 malloc(0x20) = 0x1000"));
    assert!(replay_screen_notice(&session).is_none());
    assert!(replay_screen_notice(&ReplaySession::from_records(vec![])).is_some());
}

#[test]
fn the_selected_event_is_among_the_rows_in_view() {
    let mut app = LiveTuiApp::default();
    for id in 1..=30 {
        app.apply_update(malloc_update(id));
    }
    for (selected, place) in [(0, 0), (29, 4), (12, 4)] {
        app.control.selected_index = selected;
        let pane = live_trace_pane(&app, 5);
        assert_eq!(pane.rows.len(), 5);
        assert_eq!(pane.selected, Some(place));
        assert!(pane.rows[place].contains(&format!("#{} ", selected + 1)));
    }
    assert_eq!(live_trace_pane(&LiveTuiApp::default(), 5).selected, None);
}

#[test]
fn resuming_follows_again_where_it_did_before() {
    for follow in [true, false] {
        let mut app = LiveTuiApp::default();
        app.control.follow_tail = follow;
        app.control.target_status = LiveTargetStatus::Running;
        apply_sent_live_command(&mut app, LiveCommand::Pause);
        assert!(!app.control.follow_tail);
        apply_sent_live_command(&mut app, LiveCommand::Resume);
        assert_eq!(app.control.follow_tail, follow);
    }
}

#[test]
fn the_log_keeps_its_last_lines() {
    let mut app = LiveTuiApp::default();
    for line in 0..LOG_LIMIT + 5 {
        app.push_log_line(format!("line {}", line));
    }
    assert_eq!(app.logs.len(), LOG_LIMIT);
    assert_eq!(app.logs.front().unwrap(), "line 5");
    assert_eq!(app.logs.back().unwrap(), &format!("line {}", LOG_LIMIT + 4));
}

#[test]
fn a_new_event_is_selected_where_the_tail_is_followed() {
    let mut app = LiveTuiApp::default();
    app.control.follow_tail = true;
    app.apply_update(malloc_update(1));
    app.apply_update(malloc_update(2));
    assert_eq!(app.selected_event_id(), Some(2));
    app.control.follow_tail = false;
    app.apply_update(malloc_update(3));
    assert_eq!(app.selected_event_id(), Some(2));
    assert_eq!(app.find_event_index(3), Some(2));
}

#[test]
fn a_matched_condition_pauses_the_screen() {
    let mut app = LiveTuiApp::default();
    app.control.follow_tail = true;
    app.apply_update(malloc_update(1));
    let found = evaluate_allocator_break_conditions(
        &vec![AllocatorBreakCondition::AllocSize(0x20)],
        &HeapTraceEvent::Malloc {
            event_id: 1,
            requested_size: 0x20,
            returned_ptr: 0x1010,
            chunk: None,
            caller_addr: None,
        },
        HeapTrackerNote::NewAllocation,
        &vec![],
    )
    .unwrap();
    app.apply_update(LiveTraceUpdate::BreakMatched(found));
    assert_eq!(app.control.target_status, LiveTargetStatus::Paused);
    assert!(!app.control.follow_tail);
    assert_eq!(
        app.control.status_line,
        "break condition matched: allocation size 0x20 after event #1"
    );
}

#[test]
fn a_selected_chunk_stays_selected_in_the_next_layout() {
    let mut app = LiveTuiApp::default();
    app.apply_update(layout_update(1, &[0x1010, 0x1030, 0x1050]));
    app.execute_heap_search_query(HeapSearchQuery::UserAddress(0x1050));
    assert_eq!(app.chunk.index, Some(2));
    assert!(app.panes.show_chunk_inspector);
    app.apply_update(layout_update(2, &[0x1050, 0x1070]));
    assert_eq!(app.chunk.index, Some(0));
    assert_eq!(app.chunk.user_addr, Some(0x1050));
    let chunk = app.chunk;
    app.execute_heap_search_query(HeapSearchQuery::UserAddress(0x9999));
    assert_eq!(app.chunk, chunk);
    assert!(app.search.status.is_some());
}

#[test]
fn only_allowed_commands_are_sent_and_numbered() {
    let mut app = LiveTuiApp::default();
    app.control.target_status = LiveTargetStatus::Running;
    app.control.next_command_id = 4;
    let message = app.prepare_command(LiveCommand::Pause).unwrap();
    assert_eq!(message.id, LiveCommandId(4));
    assert_eq!(app.control.next_command_id, 5);
    assert!(app.prepare_command(LiveCommand::StepInstruction).is_err());
    assert_eq!(app.control.next_command_id, 5);
    assert!(validate_live_command(LiveTargetStatus::Exited, LiveCommand::Pause).is_err());
    assert!(validate_live_command(LiveTargetStatus::Paused, LiveCommand::Resume).is_ok());
}

#[test]
fn an_unsent_command_is_reported() {
    let mut app = LiveTuiApp::default();
    app.control.target_status = LiveTargetStatus::Running;
    finish_live_send(&mut app, LiveCommand::Pause, false, true);
    assert_eq!(app.control.target_status, LiveTargetStatus::Running);
    assert!(app
        .logs
        .iter()
        .any(|line| line.contains("failed to send command to trace worker")));
}

#[test]
fn a_prompt_takes_the_keys() {
    let mut app = LiveTuiApp::default();
    app.control.target_status = LiveTargetStatus::Running;
    app.start_heap_search_prompt();
    assert_eq!(press(&mut app, KeyCode::Char('q')), KeyAction::Stay);
    assert_eq!(app.search.input, "q");
    press(&mut app, KeyCode::Backspace);
    assert_eq!(app.search.input, "");
    press(&mut app, KeyCode::Esc);
    assert!(!app.search.prompt_active);
    app.start_console_input();
    assert_eq!(press(&mut app, KeyCode::Char('q')), KeyAction::Stay);
    assert_eq!(app.console.input, "q");
}

#[test]
fn the_screen_is_left_once_the_session_has_ended() {
    let mut app = LiveTuiApp::default();
    app.control.target_status = LiveTargetStatus::Running;
    assert_ne!(press(&mut app, KeyCode::Char('q')), KeyAction::Leave);
    app.apply_update(session_end());
    assert_eq!(press(&mut app, KeyCode::Char('q')), KeyAction::Leave);
    let mut app = LiveTuiApp::default();
    assert_eq!(
        handle_live_tui_key(plain(KeyCode::Char('q')), &mut app, true),
        KeyAction::Leave
    );
}

#[test]
fn the_inspector_is_switched() {
    let mut app = LiveTuiApp::default();
    let shown = app.panes.show_chunk_inspector;
    press(&mut app, KeyCode::Char('i'));
    assert_eq!(app.panes.show_chunk_inspector, !shown);
    press(&mut app, KeyCode::Char('i'));
    assert_eq!(app.panes.show_chunk_inspector, shown);
}

#[test]
fn console_history_goes_back_and_forth() {
    let mut app = LiveTuiApp::default();
    for command in ["one", "two", "three"] {
        app.remember_console_command(command);
    }
    app.start_console_input();
    app.history_previous();
    app.history_previous();
    assert_eq!(app.console.input, "two");
    app.history_previous();
    assert_eq!(app.console.input, "one");
    app.history_next();
    assert_eq!(app.console.input, "two");
}

#[test]
fn a_lost_trace_is_said() {
    let mut app = LiveTuiApp::default();
    app.control.target_status = LiveTargetStatus::Running;
    app.input_lost();
    assert_ne!(app.control.status_line, "");
}

#[test]
fn the_console_ends_with_its_prompt() {
    let mut app = LiveTuiApp::default();
    for line in 0..20 {
        app.push_console_output(&format!("out {}", line));
    }
    app.start_console_input();
    app.push_console_char('x');
    let text = format_live_console_pane(&app, 6);
    let lines: Vec<&str> = text.split('\n').collect();
    assert!(lines.len() <= 6);
    assert!(lines.last().unwrap().contains('x'));
}

#[test]
fn branch_targets_are_named_in_the_code_context() {
    let line = |address: u64, target: Option<u64>| DisassemblyLine {
        address,
        bytes: vec![0x90],
        mnemonic: s("jmp"),
        operands: String::new(),
        text: s("jmp"),
        is_current: false,
        flow_control: Some(DisassemblyFlowControl::UnconditionalBranch),
        target,
        target_annotation: None,
    };
    let snapshot = DisassemblySnapshot {
        instruction_pointer: 0x4000,
        start_address: 0x4000,
        end_address: 0x4003,
        lines: vec![line(0x4000, Some(0x5000)), line(0x4001, None), line(0x4002, Some(0x6000))],
        truncated_before: false,
        truncated_after: true,
        read_error: None,
    };
    let symbol = SymbolizedAddress {
        addr: 0x5000,
        object_name: Some(s("libx.so")),
        symbol: s("f"),
        symbol_addr: 0x4ff0,
        offset: 0x10,
        source: None,
    };
    let place = SourceLocation {
        file: Some(s("f.c")),
        line: Some(3),
        column: None,
    };
    let context = build_code_context(
        0x4000,
        Some(symbol.clone()),
        Some(place.clone()),
        snapshot,
        &vec![Some(symbol)],
    );
    assert_eq!(context.symbol.as_deref(), Some("f"));
    assert_eq!(context.symbol_offset, Some(0x10));
    assert_eq!(context.source, Some(place));
    let code = context.disassembly.unwrap();
    assert!(code.truncated_after);
    let notes: Vec<Option<&str>> = code
        .lines
        .iter()
        .map(|line| line.target_annotation.as_deref())
        .collect();
    assert_eq!(notes, vec![Some("libx.so!f+0x10"), None, None]);
}

#[test]
fn stack_words_say_what_they_point_to() {
    let mut app = LiveTuiApp::default();
    app.apply_update(LiveTraceUpdate::ProcessMaps {
        snapshot: ProcessMapsSnapshot {
            entries: vec![
                map_entry(0x4000, 0x5000, "r-xp", Some("/bin/prog")),
                map_entry(0x1000, 0x2000, "rw-p", Some("[heap]")),
            ],
        },
    });
    app.apply_update(layout_update(1, &[0x1010]));
    app.apply_update(LiveTraceUpdate::RegisterSnapshot {
        event_id: None,
        snapshot: registers_of(&[("rip", 0x4000)]),
    });
    let word = |offset: i64, value: u64| StackWord {
        offset_from_sp: offset,
        address: 0x7000 + offset as u64,
        value,
        annotation: None,
    };
    app.apply_update(LiveTraceUpdate::StackSnapshot {
        event_id: None,
        snapshot: StackSnapshot {
            stack_pointer: 0x7000,
            word_size: 8,
            words: vec![word(0, 0x4000), word(8, 0x1010), word(16, 0x4001), word(24, 0)],
            truncated: false,
            read_error: None,
        },
    });
    let notes: Vec<Option<&str>> = latest_stop(&app.data.stacks)
        .unwrap()
        .words
        .iter()
        .map(|word| word.annotation.as_deref())
        .collect();
    assert_eq!(
        notes,
        vec![Some("rip"), Some("heap user"), Some("code"), None]
    );
    assert!(format_live_stack_tab(&app).contains("heap user"));
}

#[test]
fn stepping_needs_a_paused_target() {
    for key in ['n', '.', ',', 'c', 'r'] {
        let mut app = LiveTuiApp::default();
        app.control.target_status = LiveTargetStatus::Running;
        assert_eq!(press(&mut app, KeyCode::Char(key)), KeyAction::Stay);
        app.control.target_status = LiveTargetStatus::Paused;
        assert!(matches!(
            press(&mut app, KeyCode::Char(key)),
            KeyAction::Send { .. }
        ));
    }
}

#[test]
fn the_code_pane_is_recentered() {
    let mut app = LiveTuiApp::default();
    app.panes.focused_debugger_pane = LiveDebuggerPane::Code;
    press(&mut app, KeyCode::PageDown);
    assert!(!app.panes.code_follow_rip);
    assert_eq!(app.panes.code_pane_scroll, 10);
    press(&mut app, KeyCode::Char('d'));
    assert!(app.panes.code_follow_rip);
    assert_eq!(app.panes.code_pane_scroll, 0);
}

#[test]
fn the_code_pane_is_recentered_from_any_pane() {
    for pane in [
        LiveDebuggerPane::Registers,
        LiveDebuggerPane::Code,
        LiveDebuggerPane::Trace,
        LiveDebuggerPane::Console,
        LiveDebuggerPane::RightTab,
    ] {
        let mut app = LiveTuiApp::default();
        app.control.target_status = LiveTargetStatus::Paused;
        app.panes.code_follow_rip = false;
        app.panes.code_pane_scroll = 7;
        app.panes.focused_debugger_pane = pane;
        assert_eq!(press(&mut app, KeyCode::Char('d')), KeyAction::Stay);
        assert!(app.panes.code_follow_rip);
        assert_eq!(app.panes.code_pane_scroll, 0);
        assert_eq!(app.panes.focused_debugger_pane, LiveDebuggerPane::Code);
    }
}

#[test]
fn a_set_of_names_is_sorted_and_holds_each_once() {
    let mut set = NameSet::new();
    for name in ["rsp", "rax", "rsp", "r10", "rax"] {
        set.insert(s(name));
    }
    assert_eq!(set.names(), &vec![s("r10"), s("rax"), s("rsp")]);
    assert!(set.contains("rax") && !set.contains("rbx"));
}
