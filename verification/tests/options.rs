//! The command line.

use heapify_cli::arena::{
    MainArenaFieldSource, MainArenaTopCandidate, MainArenaTopStatus, is_clean_main_arena_view,
};
use heapify_cli::args::{
    format_available_glibc_profiles, parse_env_assignment, parse_trace_heap_args,
    resolve_allocator_views_preset, resolve_glibc_profile, resolve_trace_mode,
    select_main_arena_top_offset,
};
use heapify_cli::config::{
    AllocationTraceMode, AllocatorBreakCondition, AllocatorViewsPreset,
    AllocatorViewsPresetArg, GlibcProfile, SelectedMainArenaTopOffset, StdinConfig, Switch,
    TraceModeArg, glibc_2_35_x86_64, glibc_x86_64_modern,
};
use heapify_cli::number::parse_u64_auto_radix;
use heapify_cli::replay::parse_replay_args;
use heapify_cli::replay_text::format_fastbin_chain_entries;
use heapify_cli::session::{ExecPlan, json_launch_metadata};

#[test]
fn default_trace_config_preserves_verbose_output() {
    let (config, program, target_args) =
        parse_trace_heap_args(vec!["./target".into(), "arg".into()]).unwrap();

    assert_eq!(program, "./target");
    assert_eq!(target_args, vec!["arg"]);
    assert!(config.shows(Switch::Chunks));
    assert!(config.shows(Switch::TrackerNotes));
    assert!(config.shows(Switch::Explanations));
    assert!(!config.shows(Switch::Layout));
    assert_eq!(config.max_layout_chunks, 32);
    assert!(!config.shows(Switch::TcacheCandidates));
    assert_eq!(config.max_tcache_chain, 32);
    assert_eq!(config.max_fastbin_chain, 32);
    assert_eq!(config.max_unsorted_chain, 32);
    assert!(!config.shows(Switch::TcacheStructCandidate));
    assert!(!config.shows(Switch::MainArenaCandidate));
    assert_eq!(config.main_arena_offset, None);
    assert!(!config.shows(Switch::ArenaExperiment));
    assert!(!config.shows(Switch::FastbinExperiment));
    assert!(!config.shows(Switch::UnsortedExperiment));
    assert!(!config.shows(Switch::BinExperiment));
    assert!(!config.shows(Switch::UnsortedBin));
    assert!(!config.shows(Switch::Fastbins));
    assert!(!config.shows(Switch::HeapScan));
    assert_eq!(config.main_arena_top_offset, None);
    assert_eq!(config.trace_mode, None);
    assert!(!config.shows(Switch::LibcSymbols));
    assert!(config.supplied_libc_path.is_none());
    assert_eq!(config.glibc_profile, glibc_x86_64_modern());
    assert_eq!(config.allocator_views_preset, AllocatorViewsPreset::NoViews);
    assert!(!config.shows(Switch::Json));
    assert!(config.json_out.is_none());
    assert!(!config.json_enabled());
}

#[test]
fn parse_env_assignment_accepts_value() {
    assert_eq!(
        parse_env_assignment("FOO=bar").unwrap(),
        ("FOO".to_string(), "bar".to_string())
    );
}

#[test]
fn parse_env_assignment_accepts_empty_value() {
    assert_eq!(
        parse_env_assignment("EMPTY=").unwrap(),
        ("EMPTY".to_string(), "".to_string())
    );
}

#[test]
fn parse_env_assignment_rejects_missing_equals() {
    assert!(parse_env_assignment("FOO").is_err());
}

#[test]
fn parse_env_assignment_rejects_empty_key() {
    assert!(parse_env_assignment("=bar").is_err());
}

#[test]
fn trace_config_parses_cwd_and_env_controls() {
    let (config, program, args) = parse_trace_heap_args(vec![
        "--cwd".into(),
        "./challenge".into(),
        "--clear-env".into(),
        "--set-env".into(),
        "FOO=bar".into(),
        "--set-env".into(),
        "EMPTY=".into(),
        "--unset-env".into(),
        "LD_DEBUG".into(),
        "./chall".into(),
        "arg".into(),
    ])
    .unwrap();

    assert_eq!(program, "./chall");
    assert_eq!(args, vec!["arg"]);
    assert_eq!(config.cwd, Some("./challenge".to_string()));
    assert!(config.shows(Switch::ClearEnv));
    assert_eq!(
        config.set_env,
        vec![
            ("FOO".to_string(), "bar".to_string()),
            ("EMPTY".to_string(), "".to_string())
        ]
    );
    assert_eq!(config.unset_env, vec!["LD_DEBUG".to_string()]);
}

#[test]
fn trace_config_parses_stdin_file() {
    let (config, program, _) = parse_trace_heap_args(vec![
        "--stdin-file".into(),
        "script.txt".into(),
        "./chall".into(),
    ])
    .unwrap();

    assert_eq!(program, "./chall");
    assert_eq!(config.stdin, StdinConfig::File("script.txt".to_string()));
}

#[test]
fn trace_config_parses_stdin_text() {
    let (config, program, _) = parse_trace_heap_args(vec![
        "--stdin-text".into(),
        "1\n2\n".into(),
        "./chall".into(),
    ])
    .unwrap();

    assert_eq!(program, "./chall");
    assert_eq!(config.stdin, StdinConfig::Text("1\n2\n".to_string()));
}

#[test]
fn trace_config_rejects_multiple_stdin_sources() {
    assert!(parse_trace_heap_args(vec![
        "--stdin-file".into(),
        "script.txt".into(),
        "--stdin-text".into(),
        "1\n".into(),
        "./chall".into(),
    ])
    .is_err());
}

#[test]
fn allocator_views_preset_resolves_default_to_none() {
    assert_eq!(
        resolve_allocator_views_preset(None, false).unwrap(),
        AllocatorViewsPreset::NoViews
    );
    assert_eq!(
        resolve_allocator_views_preset(Some(AllocatorViewsPresetArg::Basic), false).unwrap(),
        AllocatorViewsPreset::Basic
    );
}

#[test]
fn allocator_views_basic_enables_expected_views() {
    let (config, _, _) = parse_trace_heap_args(vec![
        "--allocator-views".into(),
        "basic".into(),
        "./target".into(),
    ])
    .unwrap();

    assert_eq!(config.allocator_views_preset, AllocatorViewsPreset::Basic);
    assert!(config.shows(Switch::Layout));
    assert!(config.shows(Switch::TcacheCandidates));
    assert!(config.shows(Switch::HeapScan));
    assert!(!config.shows(Switch::Fastbins));
}

#[test]
fn allocator_views_full_enables_expected_views() {
    let (config, _, _) = parse_trace_heap_args(vec![
        "--allocator-views".into(),
        "full".into(),
        "./target".into(),
    ])
    .unwrap();

    assert_eq!(config.allocator_views_preset, AllocatorViewsPreset::Full);
    assert!(config.shows(Switch::Layout));
    assert!(config.shows(Switch::TcacheCandidates));
    assert!(config.shows(Switch::MainArenaCandidate));
    assert!(config.shows(Switch::MainArenaTopCandidate));
    assert!(config.shows(Switch::Fastbins));
    assert!(config.shows(Switch::UnsortedBin));
    assert!(config.shows(Switch::RegularBins));
    assert!(config.shows(Switch::Smallbins));
    assert!(config.shows(Switch::Largebins));
    assert!(config.shows(Switch::HeapScan));
}

#[test]
fn all_allocator_views_resolves_to_full() {
    let (config, _, _) =
        parse_trace_heap_args(vec!["--all-allocator-views".into(), "./target".into()]).unwrap();

    assert_eq!(config.allocator_views_preset, AllocatorViewsPreset::Full);
    assert!(config.shows(Switch::Largebins));
    assert_eq!(
        resolve_allocator_views_preset(None, true).unwrap(),
        AllocatorViewsPreset::Full
    );
}

#[test]
fn allocator_views_flags_conflict() {
    let err = parse_trace_heap_args(vec![
        "--allocator-views".into(),
        "full".into(),
        "--all-allocator-views".into(),
        "./target".into(),
    ])
    .unwrap_err();

    assert!(err.to_text()
        .contains("--all-allocator-views conflicts with --allocator-views"));
}

#[test]
fn allocator_views_preset_is_additive_with_explicit_flags() {
    let (config, _, _) = parse_trace_heap_args(vec![
        "--allocator-views".into(),
        "basic".into(),
        "--fastbins".into(),
        "./target".into(),
    ])
    .unwrap();

    assert_eq!(config.allocator_views_preset, AllocatorViewsPreset::Basic);
    assert!(config.shows(Switch::Layout));
    assert!(config.shows(Switch::TcacheCandidates));
    assert!(config.shows(Switch::HeapScan));
    assert!(config.shows(Switch::Fastbins));
    assert!(config.shows(Switch::MainArenaCandidate));
}

#[test]
fn json_launch_metadata_records_env_keys_not_values() {
    let plan = ExecPlan {
        launch_mode: "direct".to_string(),
        loader_path: None,
        effective_library_path: None,
        preload_path: None,
        cwd: Some("./challenge".to_string()),
        clear_env: true,
        env_overrides: vec![("SECRET".to_string(), "hidden-value".to_string())],
        env_unsets: vec!["LD_DEBUG".to_string()],
        stdin: StdinConfig::Inherit,
    };

    let value = json_launch_metadata(&plan);

    assert_eq!(value.cwd.as_deref(), Some("./challenge"));
    assert!(value.clear_env);
    assert_eq!(value.set_env, vec!["SECRET"]);
    assert_eq!(value.unset_env, vec!["LD_DEBUG"]);
    assert!(!format!("{value:?}").contains("hidden-value"));
}

#[test]
fn json_launch_metadata_text_stdin_records_byte_count_not_contents() {
    let plan = ExecPlan {
        launch_mode: "direct".to_string(),
        loader_path: None,
        effective_library_path: None,
        preload_path: None,
        cwd: None,
        clear_env: false,
        env_overrides: Vec::new(),
        env_unsets: Vec::new(),
        stdin: StdinConfig::Text("secret menu input\n".to_string()),
    };

    let value = json_launch_metadata(&plan);

    assert_eq!(value.stdin.kind, "text");
    assert_eq!(value.stdin.bytes, Some(18));
    assert!(!format!("{value:?}").contains("secret menu input"));
}

#[test]
fn json_launch_metadata_file_stdin_records_path() {
    let plan = ExecPlan {
        launch_mode: "direct".to_string(),
        loader_path: None,
        effective_library_path: None,
        preload_path: None,
        cwd: None,
        clear_env: false,
        env_overrides: Vec::new(),
        env_unsets: Vec::new(),
        stdin: StdinConfig::File("script.txt".to_string()),
    };

    let value = json_launch_metadata(&plan);

    assert_eq!(value.stdin.kind, "file");
    assert_eq!(value.stdin.path.as_deref(), Some("script.txt"));
}

#[test]
fn events_only_hides_extra_rendering_and_layout() {
    let (config, program, _) = parse_trace_heap_args(vec![
        "--events-only".into(),
        "--layout".into(),
        "./target".into(),
    ])
    .unwrap();

    assert_eq!(program, "./target");
    assert!(!config.shows(Switch::Chunks));
    assert!(!config.shows(Switch::TrackerNotes));
    assert!(!config.shows(Switch::Explanations));
    assert!(!config.shows(Switch::Layout));
    assert!(!config.shows(Switch::TcacheCandidates));
    assert!(!config.shows(Switch::TcacheStructCandidate));
    assert!(!config.shows(Switch::MainArenaCandidate));
    assert!(!config.shows(Switch::ArenaExperiment));
    assert!(!config.shows(Switch::FastbinExperiment));
    assert!(!config.shows(Switch::UnsortedExperiment));
    assert!(!config.shows(Switch::UnsortedBin));
    assert!(!config.shows(Switch::Fastbins));
    assert!(!config.shows(Switch::HeapScan));
    assert!(!config.shows(Switch::RegularBins));
}

#[test]
fn max_layout_chunks_is_configurable() {
    let (config, _, _) = parse_trace_heap_args(vec![
        "--layout".into(),
        "--max-layout-chunks".into(),
        "8".into(),
        "./target".into(),
    ])
    .unwrap();

    assert!(config.shows(Switch::Layout));
    assert_eq!(config.max_layout_chunks, 8);
}

#[test]
fn heap_scan_is_configurable_and_events_only_suppresses_it() {
    let (config, _, _) =
        parse_trace_heap_args(vec!["--heap-scan".into(), "./target".into()]).unwrap();
    assert!(config.shows(Switch::HeapScan));

    let (config, _, _) = parse_trace_heap_args(vec![
        "--events-only".into(),
        "--heap-scan".into(),
        "./target".into(),
    ])
    .unwrap();
    assert!(!config.shows(Switch::HeapScan));
}

#[test]
fn tcache_candidates_are_configurable() {
    let (config, program, args) = parse_trace_heap_args(vec![
        "--tcache-candidates".into(),
        "--max-tcache-chain".into(),
        "4".into(),
        "prog".into(),
    ])
    .unwrap();

    assert_eq!(program, "prog");
    assert!(args.is_empty());
    assert!(config.shows(Switch::TcacheCandidates));
    assert_eq!(config.max_tcache_chain, 4);
}

#[test]
fn max_fastbin_chain_is_configurable() {
    let (config, program, args) = parse_trace_heap_args(vec![
        "--max-fastbin-chain".into(),
        "4".into(),
        "prog".into(),
    ])
    .unwrap();

    assert_eq!(program, "prog");
    assert!(args.is_empty());
    assert_eq!(config.max_fastbin_chain, 4);
}

#[test]
fn max_unsorted_chain_is_configurable() {
    let (config, program, args) = parse_trace_heap_args(vec![
        "--max-unsorted-chain".into(),
        "4".into(),
        "prog".into(),
    ])
    .unwrap();

    assert_eq!(program, "prog");
    assert!(args.is_empty());
    assert_eq!(config.max_unsorted_chain, 4);
}

#[test]
fn regular_bins_are_configurable_and_imply_main_arena() {
    let (config, program, args) = parse_trace_heap_args(vec![
        "--regular-bins".into(),
        "--max-regular-bins".into(),
        "126".into(),
        "prog".into(),
    ])
    .unwrap();

    assert_eq!(program, "prog");
    assert!(args.is_empty());
    assert!(config.shows(Switch::RegularBins));
    assert!(config.shows(Switch::MainArenaCandidate));
    assert_eq!(config.max_regular_bins, 126);
}

#[test]
fn libc_symbols_mode_is_configurable() {
    let (config, program, args) =
        parse_trace_heap_args(vec!["--libc-symbols".into(), "prog".into()]).unwrap();

    assert_eq!(program, "prog");
    assert!(args.is_empty());
    assert_eq!(config.trace_mode, None);
    assert!(config.shows(Switch::LibcSymbols));
}

#[test]
fn supplied_libc_path_is_configurable() {
    let (config, program, args) =
        parse_trace_heap_args(vec!["--libc".into(), "./libc.so.6".into(), "prog".into()])
            .unwrap();

    assert_eq!(program, "prog");
    assert!(args.is_empty());
    assert_eq!(
        config.supplied_libc_path.as_deref(),
        Some("./libc.so.6")
    );
}

#[test]
fn custom_loader_launch_options_are_configurable() {
    let (config, program, args) = parse_trace_heap_args(vec![
        "--ld".into(),
        "./ld-linux-x86-64.so.2".into(),
        "--library-path".into(),
        ".".into(),
        "--preload".into(),
        "./libc.so.6".into(),
        "prog".into(),
        "arg".into(),
    ])
    .unwrap();

    assert_eq!(program, "prog");
    assert_eq!(args, vec!["arg"]);
    assert_eq!(
        config.loader_path.as_deref(),
        Some("./ld-linux-x86-64.so.2")
    );
    assert_eq!(
        config.library_path.as_deref(),
        Some(".")
    );
    assert_eq!(
        config.preload_path.as_deref(),
        Some("./libc.so.6")
    );
}

#[test]
fn trace_mode_is_configurable() {
    let (config, program, args) =
        parse_trace_heap_args(vec!["--trace-mode".into(), "libc".into(), "prog".into()])
            .unwrap();

    assert_eq!(program, "prog");
    assert!(args.is_empty());
    assert_eq!(config.trace_mode, Some(TraceModeArg::Libc));
    assert!(!config.shows(Switch::LibcSymbols));
}

#[test]
fn glibc_profile_is_configurable() {
    let (config, program, args) = parse_trace_heap_args(vec![
        "--glibc-profile".into(),
        "glibc-2.35-x86_64".into(),
        "prog".into(),
    ])
    .unwrap();

    assert_eq!(program, "prog");
    assert!(args.is_empty());
    assert_eq!(config.glibc_profile, glibc_2_35_x86_64());
}

#[test]
fn glibc_profile_auto_is_configurable() {
    let (config, program, args) =
        parse_trace_heap_args(vec!["--glibc-profile".into(), "auto".into(), "prog".into()])
            .unwrap();

    assert_eq!(program, "prog");
    assert!(args.is_empty());
    assert_eq!(config.glibc_profile_request, "auto");
    assert_eq!(config.glibc_profile, glibc_x86_64_modern());
}

#[test]
fn resolves_known_glibc_profile_name() {
    assert_eq!(
        resolve_glibc_profile("glibc-2.35-x86_64").unwrap(),
        glibc_2_35_x86_64()
    );
}

#[test]
fn unknown_glibc_profile_error_lists_available_profiles() {
    let err = resolve_glibc_profile("does-not-exist").unwrap_err();
    let message = err.to_text();

    assert!(message.contains("unknown glibc profile `does-not-exist`"));
    assert!(message.contains("available profiles:"));
    assert!(message.contains("  auto"));
    assert!(message.contains("  glibc-x86_64-modern"));
    assert!(message.contains("  glibc-2.35-x86_64"));
    assert!(format_available_glibc_profiles().contains("glibc-2.35-x86_64"));
}

#[test]
fn resolve_trace_mode_defaults_to_target_plt() {
    assert_eq!(
        resolve_trace_mode(None, false).unwrap(),
        AllocationTraceMode::TargetPlt
    );
}

#[test]
fn resolve_trace_mode_accepts_legacy_libc_symbols() {
    assert_eq!(
        resolve_trace_mode(None, true).unwrap(),
        AllocationTraceMode::LibcSymbols
    );
}

#[test]
fn resolve_trace_mode_accepts_explicit_plt() {
    assert_eq!(
        resolve_trace_mode(Some(TraceModeArg::Plt), false).unwrap(),
        AllocationTraceMode::TargetPlt
    );
}

#[test]
fn resolve_trace_mode_accepts_explicit_libc() {
    assert_eq!(
        resolve_trace_mode(Some(TraceModeArg::Libc), false).unwrap(),
        AllocationTraceMode::LibcSymbols
    );
}

#[test]
fn resolve_trace_mode_allows_libc_with_legacy_alias() {
    assert_eq!(
        resolve_trace_mode(Some(TraceModeArg::Libc), true).unwrap(),
        AllocationTraceMode::LibcSymbols
    );
}

#[test]
fn resolve_trace_mode_rejects_plt_with_legacy_alias() {
    assert!(resolve_trace_mode(Some(TraceModeArg::Plt), true).is_err());
}

#[test]
fn parse_u64_auto_radix_accepts_decimal() {
    assert_eq!(parse_u64_auto_radix("123").unwrap(), 123);
}

#[test]
fn parse_u64_auto_radix_accepts_lowercase_hex() {
    assert_eq!(parse_u64_auto_radix("0x10").unwrap(), 16);
}

#[test]
fn parse_u64_auto_radix_accepts_uppercase_hex() {
    assert_eq!(parse_u64_auto_radix("0X10").unwrap(), 16);
}

#[test]
fn parse_u64_auto_radix_rejects_invalid_string() {
    assert!(parse_u64_auto_radix("not-a-number").is_err());
    assert!(parse_u64_auto_radix("").is_err());
    assert!(parse_u64_auto_radix("0x").is_err());
}

#[test]
fn tcache_struct_candidate_is_configurable() {
    let (config, program, args) =
        parse_trace_heap_args(vec!["--tcache-struct".into(), "prog".into()]).unwrap();

    assert_eq!(program, "prog");
    assert!(args.is_empty());
    assert!(config.shows(Switch::TcacheStructCandidate));
}

#[test]
fn main_arena_candidate_is_configurable() {
    let (config, program, args) =
        parse_trace_heap_args(vec!["--main-arena".into(), "prog".into()]).unwrap();

    assert_eq!(program, "prog");
    assert!(args.is_empty());
    assert!(config.shows(Switch::MainArenaCandidate));
}

#[test]
fn main_arena_offset_implies_main_arena_candidate() {
    let (config, program, args) = parse_trace_heap_args(vec![
        "--main-arena-offset".into(),
        "0x1d3c60".into(),
        "prog".into(),
    ])
    .unwrap();

    assert_eq!(program, "prog");
    assert!(args.is_empty());
    assert!(config.shows(Switch::MainArenaCandidate));
    assert_eq!(config.main_arena_offset, Some(0x1d3c60));
}

#[test]
fn arena_experiment_implies_main_arena_candidate() {
    let (config, program, args) =
        parse_trace_heap_args(vec!["--arena-experiment".into(), "prog".into()]).unwrap();

    assert_eq!(program, "prog");
    assert!(args.is_empty());
    assert!(config.shows(Switch::MainArenaCandidate));
    assert!(config.shows(Switch::ArenaExperiment));
}

#[test]
fn fastbin_experiment_implies_main_arena_candidate() {
    let (config, program, args) =
        parse_trace_heap_args(vec!["--fastbin-experiment".into(), "prog".into()]).unwrap();

    assert_eq!(program, "prog");
    assert!(args.is_empty());
    assert!(config.shows(Switch::MainArenaCandidate));
    assert!(config.shows(Switch::FastbinExperiment));
}

#[test]
fn unsorted_experiment_implies_main_arena_candidate() {
    let (config, program, args) =
        parse_trace_heap_args(vec!["--unsorted-experiment".into(), "prog".into()]).unwrap();

    assert_eq!(program, "prog");
    assert!(args.is_empty());
    assert!(config.shows(Switch::MainArenaCandidate));
    assert!(config.shows(Switch::UnsortedExperiment));
}

#[test]
fn bin_experiment_implies_main_arena_candidate() {
    let (config, program, args) =
        parse_trace_heap_args(vec!["--bin-experiment".into(), "prog".into()]).unwrap();

    assert_eq!(program, "prog");
    assert!(args.is_empty());
    assert!(config.shows(Switch::MainArenaCandidate));
    assert!(config.shows(Switch::BinExperiment));
}

#[test]
fn unsorted_bin_implies_main_arena_candidate() {
    let (config, program, args) =
        parse_trace_heap_args(vec!["--unsorted-bin".into(), "prog".into()]).unwrap();

    assert_eq!(program, "prog");
    assert!(args.is_empty());
    assert!(config.shows(Switch::MainArenaCandidate));
    assert!(config.shows(Switch::UnsortedBin));
}

#[test]
fn fastbins_implies_main_arena_candidate() {
    let (config, program, args) =
        parse_trace_heap_args(vec!["--fastbins".into(), "prog".into()]).unwrap();

    assert_eq!(program, "prog");
    assert!(args.is_empty());
    assert!(config.shows(Switch::MainArenaCandidate));
    assert!(config.shows(Switch::Fastbins));
}

#[test]
fn largebins_are_configurable_and_imply_regular_bins_and_main_arena() {
    let (config, program, args) = parse_trace_heap_args(vec![
        "--largebins".into(),
        "--max-largebin-chain".into(),
        "4".into(),
        "prog".into(),
    ])
    .unwrap();

    assert_eq!(program, "prog");
    assert!(args.is_empty());
    assert!(config.shows(Switch::Largebins));
    assert!(config.shows(Switch::RegularBins));
    assert!(config.shows(Switch::MainArenaCandidate));
    assert_eq!(config.max_largebin_chain, 4);
}

#[test]
fn fastbin_chain_formatting_ends_with_null() {
    assert_eq!(
        format_fastbin_chain_entries(&vec!["0x1000".to_string(), "0x2000".to_string()], false, false, false),
        "0x1000 -> 0x2000 -> NULL"
    );
}

#[test]
fn fastbin_chain_formatting_ends_with_unknown_next() {
    assert_eq!(
        format_fastbin_chain_entries(&vec!["0x1000".to_string()], false, true, false),
        "0x1000 -> ?"
    );
}

#[test]
fn fastbin_chain_formatting_ends_with_truncated() {
    assert_eq!(
        format_fastbin_chain_entries(&vec!["0x1000".to_string()], true, false, false),
        "0x1000 -> ... truncated"
    );
}

#[test]
fn fastbin_chain_formatting_ends_with_cycle() {
    assert_eq!(
        format_fastbin_chain_entries(&vec!["0x1000".to_string()], true, false, true),
        "0x1000 -> ... cycle"
    );
}

#[test]
fn main_arena_top_offset_implies_main_arena_candidate() {
    let (config, program, args) = parse_trace_heap_args(vec![
        "--main-arena-top-offset".into(),
        "0x60".into(),
        "prog".into(),
    ])
    .unwrap();

    assert_eq!(program, "prog");
    assert!(args.is_empty());
    assert!(config.shows(Switch::MainArenaCandidate));
    assert_eq!(config.main_arena_top_offset, Some(0x60));
}

#[test]
fn main_arena_top_implies_main_arena_candidate() {
    let (config, program, args) =
        parse_trace_heap_args(vec!["--main-arena-top".into(), "prog".into()]).unwrap();

    assert_eq!(program, "prog");
    assert!(args.is_empty());
    assert!(config.shows(Switch::MainArenaCandidate));
    assert!(config.shows(Switch::MainArenaTopCandidate));
    assert_eq!(config.main_arena_top_offset, None);
}

#[test]
fn main_arena_top_with_glibc_2_35_uses_profile_offset() {
    let (config, _, _) = parse_trace_heap_args(vec![
        "--glibc-profile".into(),
        "glibc-2.35-x86_64".into(),
        "--main-arena-top".into(),
        "prog".into(),
    ])
    .unwrap();

    assert_eq!(
        select_main_arena_top_offset(
            config.main_arena_top_offset,
            config.shows(Switch::MainArenaTopCandidate),
            config.glibc_profile,
        ),
        SelectedMainArenaTopOffset::Profile {
            offset: 0x60,
            profile_name: "glibc-2.35-x86_64".to_string()
        }
    );
}

#[test]
fn explicit_main_arena_top_offset_overrides_selected_profile_offset() {
    let (config, _, _) = parse_trace_heap_args(vec![
        "--glibc-profile".into(),
        "glibc-2.35-x86_64".into(),
        "--main-arena-top-offset".into(),
        "0x70".into(),
        "prog".into(),
    ])
    .unwrap();

    assert_eq!(
        select_main_arena_top_offset(
            config.main_arena_top_offset,
            config.shows(Switch::MainArenaTopCandidate),
            config.glibc_profile,
        ),
        SelectedMainArenaTopOffset::User { offset: 0x70 }
    );
}

#[test]
fn main_arena_top_uses_profile_offset_when_available() {
    let profile = GlibcProfile {
        main_arena_top_offset: Some(0x60),
        ..glibc_x86_64_modern()
    };

    assert_eq!(
        select_main_arena_top_offset(None, true, profile),
        SelectedMainArenaTopOffset::Profile {
            offset: 0x60,
            profile_name: "glibc-x86_64-modern".to_string()
        }
    );
}

#[test]
fn main_arena_top_offset_overrides_profile_offset() {
    let profile = GlibcProfile {
        main_arena_top_offset: Some(0x60),
        ..glibc_x86_64_modern()
    };

    assert_eq!(
        select_main_arena_top_offset(Some(0x70), true, profile),
        SelectedMainArenaTopOffset::User { offset: 0x70 }
    );
}

#[test]
fn clean_main_arena_view_requires_profile_validated_top() {
    let top = MainArenaTopCandidate {
        arena_addr: 0x7000,
        field_offset: 0x60,
        top_addr: 0x2000,
        points_into_heap: true,
        matches_heap_chunk: true,
        chunk_size: Some(0x21000),
        status: MainArenaTopStatus::MatchesWalkedChunk,
        source: MainArenaFieldSource::GlibcProfile,
        profile_name: Some("glibc-2.35-x86_64".to_string()),
    };

    assert!(is_clean_main_arena_view(&top));
}

#[test]
fn candidate_rendering_remains_for_user_offset_top_source() {
    let top = MainArenaTopCandidate {
        arena_addr: 0x7000,
        field_offset: 0x60,
        top_addr: 0x2000,
        points_into_heap: true,
        matches_heap_chunk: true,
        chunk_size: Some(0x21000),
        status: MainArenaTopStatus::MatchesWalkedChunk,
        source: MainArenaFieldSource::UserOffset,
        profile_name: None,
    };

    assert!(!is_clean_main_arena_view(&top));
}

#[test]
fn main_arena_top_without_profile_offset_is_unavailable() {
    assert_eq!(
        select_main_arena_top_offset(None, true, glibc_x86_64_modern()),
        SelectedMainArenaTopOffset::Unavailable
    );
}

#[test]
fn json_mode_is_configurable() {
    let (config, program, args) =
        parse_trace_heap_args(vec!["--json".into(), "prog".into()]).unwrap();

    assert_eq!(program, "prog");
    assert!(args.is_empty());
    assert!(config.shows(Switch::Json));
    assert!(config.json_enabled());
}

#[test]
fn json_out_sets_output_path_and_enables_json() {
    let (config, program, args) = parse_trace_heap_args(vec![
        "--json-out".into(),
        "trace.ndjson".into(),
        "prog".into(),
    ])
    .unwrap();

    assert_eq!(program, "prog");
    assert!(args.is_empty());
    assert_eq!(
        config.json_out.as_deref(),
        Some("trace.ndjson")
    );
    assert!(config.json_enabled());
}

#[test]
fn live_tui_is_configurable() {
    let (config, program, args) =
        parse_trace_heap_args(vec!["--live-tui".into(), "prog".into()]).unwrap();

    assert_eq!(program, "prog");
    assert!(args.is_empty());
    assert!(config.shows(Switch::LiveTui));
}

#[test]
fn live_tui_conflicts_with_json_stdout_mode() {
    let err = parse_trace_heap_args(vec!["--live-tui".into(), "--json".into(), "prog".into()])
        .unwrap_err();

    assert!(err.to_text().contains("--live-tui conflicts with --json"));
}

#[test]
fn live_tui_conflicts_with_events_only() {
    let err = parse_trace_heap_args(vec![
        "--live-tui".into(),
        "--events-only".into(),
        "prog".into(),
    ])
    .unwrap_err();

    assert!(err.to_text()
        .contains("--live-tui conflicts with --events-only"));
}

#[test]
fn live_tui_accepts_json_out() {
    let (config, program, args) = parse_trace_heap_args(vec![
        "--live-tui".into(),
        "--json-out".into(),
        "trace.ndjson".into(),
        "prog".into(),
    ])
    .unwrap();

    assert_eq!(program, "prog");
    assert!(args.is_empty());
    assert!(config.shows(Switch::LiveTui));
    assert_eq!(
        config.json_out.as_deref(),
        Some("trace.ndjson")
    );
}

#[test]
fn replay_config_parses_events_only_and_no_chunks() {
    let (config, path) = parse_replay_args(vec![
        "--events-only".into(),
        "--no-chunks".into(),
        "trace.ndjson".into(),
    ])
    .unwrap();

    assert!(config.events_only);
    assert!(!config.show_chunks);
    assert!(!config.tui);
    assert_eq!(path, "trace.ndjson");
}

#[test]
fn replay_config_parses_tui() {
    let (config, path) =
        parse_replay_args(vec!["--tui".into(), "trace.ndjson".into()]).unwrap();

    assert!(config.tui);
    assert_eq!(path, "trace.ndjson");
}


#[test]
fn trace_config_parses_break_on_suspicious() {
    let (config, _, _) = parse_trace_heap_args(vec![
        "--break-on".into(),
        "suspicious".into(),
        "prog".into(),
    ])
    .unwrap();

    assert_eq!(
        config.break_conditions,
        vec![AllocatorBreakCondition::Suspicious]
    );
}

#[test]
fn trace_config_parses_break_on_double_free() {
    let (config, _, _) = parse_trace_heap_args(vec![
        "--break-on".into(),
        "double-free".into(),
        "prog".into(),
    ])
    .unwrap();

    assert_eq!(
        config.break_conditions,
        vec![AllocatorBreakCondition::DoubleFree]
    );
}

#[test]
fn trace_config_parses_break_on_free_pointer() {
    let (config, _, _) = parse_trace_heap_args(vec![
        "--break-on-free".into(),
        "0xd972a0".into(),
        "prog".into(),
    ])
    .unwrap();

    assert_eq!(
        config.break_conditions,
        vec![AllocatorBreakCondition::FreePtr(0xd972a0)]
    );
}

#[test]
fn trace_config_parses_break_on_alloc_size() {
    let (config, _, _) = parse_trace_heap_args(vec![
        "--break-on-alloc-size".into(),
        "0x80".into(),
        "prog".into(),
    ])
    .unwrap();

    assert_eq!(
        config.break_conditions,
        vec![AllocatorBreakCondition::AllocSize(0x80)]
    );
}

#[test]
fn trace_config_rejects_unknown_break_on_value() {
    let error =
        parse_trace_heap_args(vec!["--break-on".into(), "unknown".into(), "prog".into()])
            .unwrap_err().to_text();

    assert!(error.contains("invalid --break-on value"));
}
