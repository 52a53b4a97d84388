//! Words, numbers and command lines.

use heapify_cli::args::{parse_env_assignment, parse_trace_heap_args};
use heapify_cli::config::{
    AllocationTraceMode, AllocatorViewsPreset, RenderConfig, Switch, TraceModeArg,
};
use heapify_cli::number::{NumberError, parse_search_number, parse_u64_auto_radix};
use heapify_cli::search::{
    ConsoleCommand, HeapSearchQuery, format_heap_search_failure, parse_console_command,
    parse_heap_search_number, parse_heap_search_query, split_words, trim_text,
};
use heapify_cli::session::{
    Command, JsonTarget, open_failure, parse_command_line, parse_failure, plan_output,
    print_allocator_views_preset_status, read_failure, record_on_line,
    replay_config_from_render_config, usage, wants_usage,
};
use heapify_cli::text::{
    format_ascii_lower, format_dec, format_dec_signed, format_hex0x, format_pad_left,
    format_pad_right,
};

fn words(list: &[&str]) -> Vec<String> {
    list.iter().map(|word| word.to_string()).collect()
}

fn parse(list: &[&str]) -> (RenderConfig, String, Vec<String>) {
    parse_trace_heap_args(words(list)).unwrap()
}

fn refusal(list: &[&str]) -> String {
    parse_trace_heap_args(words(list)).unwrap_err().to_text()
}

#[test]
fn numbers_read_back_in_both_radixes() {
    for n in [0u64, 1, 9, 10, 15, 16, 255, 4096, u64::MAX - 1, u64::MAX] {
        assert_eq!(parse_u64_auto_radix(&format_hex0x(n)), Ok(n));
        assert_eq!(parse_u64_auto_radix(&format_dec(n)), Ok(n));
        assert_eq!(parse_search_number(&format_hex0x(n)), Some(n));
        assert_eq!(format_hex0x(n), format!("0x{n:x}"));
        assert_eq!(format_dec(n), n.to_string());
    }
}

#[test]
fn numbers_that_do_not_fit_are_refused() {
    assert_eq!(parse_u64_auto_radix("18446744073709551616"), Err(NumberError::InvalidDecimal));
    assert_eq!(parse_u64_auto_radix("0x10000000000000000"), Err(NumberError::InvalidHex));
    assert_eq!(parse_u64_auto_radix(""), Err(NumberError::Empty));
    assert_eq!(parse_u64_auto_radix("0x"), Err(NumberError::EmptyHex));
    assert_eq!(parse_u64_auto_radix("-1"), Err(NumberError::InvalidDecimal));
    assert_eq!(parse_u64_auto_radix("+7"), Ok(7));
}

#[test]
fn number_errors_have_texts() {
    assert_eq!(NumberError::Empty.to_text(), "empty integer");
    assert_eq!(NumberError::EmptyHex.to_text(), "empty hex integer");
    assert_eq!(NumberError::InvalidHex.to_text(), "invalid hex integer");
    assert_eq!(NumberError::InvalidDecimal.to_text(), "invalid decimal integer");
}

#[test]
fn search_numbers_take_bare_hex_where_a_letter_shows_it() {
    assert_eq!(parse_search_number("10"), Some(10));
    assert_eq!(parse_search_number("1a"), Some(0x1a));
    assert_eq!(parse_search_number("FF"), Some(255));
    assert_eq!(parse_search_number("0x10"), Some(16));
    assert_eq!(parse_search_number("0x"), None);
    assert_eq!(parse_search_number("xyz"), None);
    assert_eq!(parse_search_number(""), None);
}

#[test]
fn an_assignment_splits_at_its_first_equals() {
    assert_eq!(
        parse_env_assignment("A=b=c").unwrap(),
        ("A".to_string(), "b=c".to_string())
    );
    assert_eq!(
        parse_env_assignment("A").unwrap_err().to_text(),
        "invalid environment assignment 'A': expected KEY=VALUE"
    );
    assert_eq!(
        parse_env_assignment("=b").unwrap_err().to_text(),
        "invalid environment assignment '=b': key must not be empty"
    );
}

#[test]
fn every_basic_view_is_a_full_view() {
    let (basic, _, _) = parse(&["--allocator-views", "basic", "prog"]);
    let (full, _, _) = parse(&["--allocator-views", "full", "prog"]);
    for switch in [Switch::Layout, Switch::TcacheCandidates, Switch::HeapScan] {
        assert!(basic.shows(switch));
        assert!(full.shows(switch));
    }
    assert!(full.shows(Switch::MainArenaTopCandidate));
    assert!(!basic.shows(Switch::MainArenaCandidate));
}

#[test]
fn preset_words_ignore_case() {
    let (config, _, _) = parse(&["--allocator-views", "FULL", "prog"]);
    assert_eq!(config.allocator_views_preset, AllocatorViewsPreset::Full);
    let (config, _, _) = parse(&["--trace-mode", "PLT", "prog"]);
    assert_eq!(config.trace_mode, Some(TraceModeArg::Plt));
}

#[test]
fn small_bins_bring_the_regular_bins_and_the_arena() {
    let (config, _, _) = parse(&["--smallbins", "prog"]);
    assert!(config.shows(Switch::Smallbins));
    assert!(config.shows(Switch::RegularBins));
    assert!(config.shows(Switch::MainArenaCandidate));
}

#[test]
fn a_session_without_event_text_has_no_layout_and_no_scan() {
    let (config, _, _) = parse(&["--events-only", "--all-allocator-views", "prog"]);
    assert!(config.events_only());
    assert!(!config.shows(Switch::Layout));
    assert!(!config.shows(Switch::HeapScan));
    assert!(config.shows(Switch::Fastbins));
}

#[test]
fn the_arguments_of_the_program_are_not_options() {
    let (config, program, args) = parse(&["prog", "--json", "--events-only"]);
    assert_eq!(program, "prog");
    assert_eq!(args, words(&["--json", "--events-only"]));
    assert!(!config.json_enabled());
    assert!(!config.events_only());
}

#[test]
fn options_without_their_value_are_refused() {
    for flag in [
        "--max-layout-chunks",
        "--break-on",
        "--break-on-free",
        "--break-on-alloc-size",
        "--allocator-views",
        "--main-arena-offset",
        "--main-arena-top-offset",
        "--max-tcache-chain",
        "--max-fastbin-chain",
        "--max-unsorted-chain",
        "--max-regular-bins",
        "--max-smallbin-chain",
        "--max-largebin-chain",
        "--trace-mode",
        "--libc",
        "--ld",
        "--library-path",
        "--preload",
        "--cwd",
        "--set-env",
        "--unset-env",
        "--stdin-file",
        "--stdin-text",
        "--glibc-profile",
        "--json-out",
    ] {
        assert_eq!(refusal(&[flag]), format!("missing value for {flag}"));
    }
}

#[test]
fn values_that_cannot_be_read_are_refused() {
    for flag in [
        "--max-layout-chunks",
        "--break-on-free",
        "--break-on-alloc-size",
        "--allocator-views",
        "--main-arena-offset",
        "--main-arena-top-offset",
        "--max-tcache-chain",
        "--trace-mode",
    ] {
        assert_eq!(
            refusal(&[flag, "x-x", "prog"]),
            format!("invalid {flag} value: x-x")
        );
    }
    assert_eq!(
        refusal(&["--unset-env", "", "prog"]),
        "invalid --unset-env value: key must not be empty"
    );
    assert_eq!(
        refusal(&["--break-on", "x", "prog"]),
        "invalid --break-on value: x; expected suspicious or double-free"
    );
    assert_eq!(
        refusal(&["--stdin-text", "a", "--stdin-text", "b", "prog"]),
        "--stdin-file and --stdin-text are mutually exclusive"
    );
    assert_eq!(refusal(&["--layout"]), "missing program");
}

#[test]
fn a_live_session_keeps_records_off_standard_output() {
    assert_eq!(
        refusal(&["--live-tui", "--json", "prog"]),
        "--live-tui conflicts with --json stdout mode; use --json-out PATH to save a trace"
    );
    let (config, _, _) = parse(&["--live-tui", "--json-out", "t.ndjson", "prog"]);
    let plan = plan_output(&config);
    assert_eq!(plan.json, JsonTarget::File("t.ndjson".to_string()));
    assert!(!plan.show_status);
    assert!(plan.suppress_human);
}

#[test]
fn records_on_standard_output_keep_it_to_themselves() {
    let (config, _, _) = parse(&["--json", "--allocator-views", "full", "prog"]);
    let plan = plan_output(&config);
    assert_eq!(plan.json, JsonTarget::Stdout);
    assert!(!plan.show_status);
    assert!(plan.suppress_human);
    assert_eq!(print_allocator_views_preset_status(&config), None);
}

#[test]
fn a_plain_session_tells_its_progress_and_its_preset() {
    let (config, _, _) = parse(&["--allocator-views", "basic", "prog"]);
    let plan = plan_output(&config);
    assert_eq!(plan.json, JsonTarget::Off);
    assert!(plan.show_status);
    assert!(!plan.suppress_human);
    assert_eq!(
        print_allocator_views_preset_status(&config).as_deref(),
        Some("[heapify] allocator views preset: basic")
    );
    let (config, _, _) = parse(&["prog"]);
    assert_eq!(print_allocator_views_preset_status(&config), None);
    let shown = replay_config_from_render_config(&config);
    assert!(!shown.events_only && shown.show_chunks && !shown.tui);
}

#[test]
fn commands_are_told_apart_by_their_first_word() {
    match parse_command_line(words(&["run", "prog", "a", "b"])).unwrap() {
        Command::Run { program, args } => {
            assert_eq!(program, "prog");
            assert_eq!(args, words(&["a", "b"]));
        }
        _ => panic!("expected run"),
    }
    match parse_command_line(words(&["break", "prog", "0x40", "a"])).unwrap() {
        Command::Break { program, addr, args } => {
            assert_eq!(program, "prog");
            assert_eq!(addr, 0x40);
            assert_eq!(args, words(&["a"]));
        }
        _ => panic!("expected break"),
    }
    match parse_command_line(words(&["break-symbol", "prog", "main"])).unwrap() {
        Command::BreakSymbol { symbol, args, .. } => {
            assert_eq!(symbol, "main");
            assert!(args.is_empty());
        }
        _ => panic!("expected break-symbol"),
    }
    match parse_command_line(words(&["trace-heap", "--libc-symbols", "prog"])).unwrap() {
        Command::TraceHeap { program, mode, .. } => {
            assert_eq!(program, "prog");
            assert_eq!(mode, AllocationTraceMode::LibcSymbols);
        }
        _ => panic!("expected trace-heap"),
    }
    match parse_command_line(words(&["replay", "--tui", "t.ndjson"])).unwrap() {
        Command::Replay { config, trace_file } => {
            assert!(config.tui);
            assert_eq!(trace_file, "t.ndjson");
        }
        _ => panic!("expected replay"),
    }
    for word in ["help", "-h", "--help"] {
        assert!(matches!(
            parse_command_line(words(&[word])),
            Ok(Command::Help)
        ));
    }
}

#[test]
fn incomplete_commands_come_with_the_usage() {
    for (list, message) in [
        (vec![], "unknown or missing command"),
        (vec!["walk"], "unknown or missing command"),
        (vec!["run"], "missing program"),
        (vec!["break"], "missing program"),
        (vec!["break", "prog"], "missing breakpoint address"),
        (vec!["break-symbol", "prog"], "missing symbol"),
        (vec!["trace-heap"], "missing program"),
        (vec!["replay"], "missing trace file"),
    ] {
        let error = parse_command_line(words(&list)).err().unwrap();
        assert_eq!(error.to_text(), message);
        assert!(wants_usage(&error));
    }
    for (list, message) in [
        (vec!["break", "prog", "zz"], "invalid address: zz"),
        (vec!["replay", "--x"], "unknown replay option: --x"),
        (vec!["replay", "a", "b"], "unexpected replay argument: b"),
        (
            vec!["trace-heap", "--trace-mode", "plt", "--libc-symbols", "prog"],
            "--trace-mode plt conflicts with --libc-symbols; use --trace-mode libc or remove --libc-symbols",
        ),
    ] {
        let error = parse_command_line(words(&list)).err().unwrap();
        assert_eq!(error.to_text(), message);
        assert!(!wants_usage(&error));
    }
}

#[test]
fn the_usage_names_every_command() {
    let lines = usage().items;
    assert_eq!(lines[0], "Usage:");
    for word in ["run", "break", "break-symbol", "trace-heap", "replay"] {
        assert!(lines.iter().any(|line| line.starts_with(&format!("  heapify {word} "))));
    }
}

#[test]
fn trace_lines_are_trimmed_and_blank_ones_skipped() {
    assert_eq!(record_on_line(""), None);
    assert_eq!(record_on_line(" \t "), None);
    assert_eq!(record_on_line("  {} \r").as_deref(), Some("{}"));
    assert_eq!(open_failure("t"), "failed to open trace file t");
    assert_eq!(read_failure("t", 3), "failed to read trace file t line 3");
    assert_eq!(
        parse_failure("t", 3),
        "failed to parse JSON trace record at t:3"
    );
}

#[test]
fn words_do_not_depend_on_outer_space() {
    assert_eq!(split_words("  jump \t u  0x10 "), words(&["jump", "u", "0x10"]));
    assert_eq!(split_words("   "), words(&[]));
    assert_eq!(
        parse_console_command("  heap   0x10  "),
        ConsoleCommand::HeapJump(HeapSearchQuery::AnyAddress(0x10))
    );
    assert_eq!(trim_text("\u{a0} a b \n"), "a b");
}

#[test]
fn heap_queries_say_what_is_wrong_with_them() {
    let message = |input: &str| parse_heap_search_query(input).unwrap_err().to_text();
    assert_eq!(message("x 0x10"), "bad heap jump mode: x");
    assert_eq!(message("u zz"), "bad heap jump number: zz");
    assert_eq!(
        parse_heap_search_number("").unwrap_err().to_text(),
        "bad heap jump number: empty"
    );
    assert_eq!(
        parse_heap_search_query("any 16"),
        Ok(HeapSearchQuery::AnyAddress(16))
    );
    assert_eq!(
        parse_heap_search_query("size 0x20"),
        Ok(HeapSearchQuery::Size(0x20))
    );
}

#[test]
fn failed_queries_name_what_was_looked_for() {
    assert_eq!(
        format_heap_search_failure(HeapSearchQuery::AnyAddress(0x10)),
        "no heap chunk contains 0x10"
    );
    assert_eq!(
        format_heap_search_failure(HeapSearchQuery::UserAddress(0x10)),
        "no heap chunk with user address 0x10"
    );
    assert_eq!(
        format_heap_search_failure(HeapSearchQuery::ChunkAddress(0x10)),
        "no heap chunk with chunk address 0x10"
    );
    assert_eq!(
        format_heap_search_failure(HeapSearchQuery::Size(0x10)),
        "no heap chunk with size 0x10"
    );
}

#[test]
fn padding_and_signs() {
    assert_eq!(format_pad_left("7", '0', 3), "007");
    assert_eq!(format_pad_left("1234", '0', 3), "1234");
    assert_eq!(format_pad_right("ab", ' ', 4), "ab  ");
    assert_eq!(format_dec_signed(i64::MIN), "-9223372036854775808");
    assert_eq!(format_dec_signed(42), "42");
    assert_eq!(format_ascii_lower("RAX\u{c9}"), "rax\u{c9}");
}

#[test]
fn options_do_not_depend_on_the_programs_arguments() {
    let read = |rest: &[&str]| {
        let mut list = vec!["--fastbins", "--max-layout-chunks", "3", "prog"];
        list.extend_from_slice(rest);
        parse_trace_heap_args(list.iter().map(|word| word.to_string()).collect()).unwrap()
    };
    let (one, program, rest) = read(&[]);
    assert_eq!(program, "prog");
    assert!(rest.is_empty());
    let (two, program, rest) = read(&["--json", "--max-layout-chunks"]);
    assert_eq!(program, "prog");
    assert_eq!(
        rest,
        vec!["--json".to_string(), "--max-layout-chunks".to_string()]
    );
    assert_eq!(one.max_layout_chunks, 3);
    assert_eq!(two.max_layout_chunks, 3);
    assert!(two.shows(Switch::Fastbins) && !two.shows(Switch::Json));
}

#[test]
fn the_words_of_a_query_mode_agree() {
    let read = |text: &str| parse_heap_search_query(text);
    for number in ["0x10", "16", "zz"] {
        let bare = read(number);
        for mode in ["a", "any"] {
            assert_eq!(read(&format!("{} {}", mode, number)), bare);
        }
        for (short, long) in [("u", "user"), ("c", "chunk"), ("s", "size")] {
            let moded = read(&format!("{} {}", short, number));
            assert_eq!(read(&format!("{} {}", long, number)), moded);
            assert_eq!(moded.is_ok(), bare.is_ok());
        }
    }
    assert_eq!(read("u 0x10"), Ok(HeapSearchQuery::UserAddress(0x10)));
}
