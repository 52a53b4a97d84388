//! A tracing session from its command line to its last record.

use crate::args;
use crate::args::{parse_trace_heap_args, resolve_trace_mode, CliError};
use crate::breaks;
use crate::breaks::{evaluate_allocator_break_conditions, AllocatorBreakMatch};
use crate::config::{
    AllocationTraceMode, AllocatorBreakCondition, AllocatorViewsPreset, RenderConfig,
    RenderConfigView, StdinConfig, StdinView, Switch,
};
use crate::event::{HeapTraceEvent, HeapTrackerNote};
use crate::number;
use crate::number::parse_json_addr;
use crate::record::{
    GlibcProfileConfidence, JsonLaunchMetadata, JsonLibcMetadata, JsonStdinMetadata,
    JsonTraceFeatures, JsonTraceRecord,
};
use crate::record_text;
use crate::record_text::low_confidence_profile_warning;
use crate::replay;
use crate::replay::parse_replay_args;
use crate::replay_text::ReplayConfig;
use crate::search;
use crate::search::trim_text;
use crate::text;
use crate::text::{cat2, cat4, owned, same, Lines};
use vstd::prelude::*;

verus! {

// ---------------------------------------------------------------------------
// The command line
// ---------------------------------------------------------------------------

pub open spec fn usage_lines() -> Seq<Seq<char>> {
    seq![
        "Usage:"@,
        "  heapify run <program> [args...]"@,
        "  heapify break <program> <addr> [args...]"@,
        "  heapify break-symbol <program> <symbol> [args...]"@,
        "  heapify trace-heap [options] <program> [args...]"@,
        "  heapify replay [--tui] [--events-only] [--no-chunks] <trace_file>"@,
        ""@,
        "Common trace-heap options:"@,
        "  --allocator-views none|basic|full   Enable grouped heap/allocator views"@,
        "  --live-tui                          Inspect the trace while the target runs"@,
        "  --glibc-profile auto|NAME           Select glibc metadata assumptions"@,
        "  --json-out PATH                     Write replayable NDJSON trace to a file"@,
        "  --events-only                       Print only allocator event lines"@,
        "  --no-chunks                         Hide per-event chunk header details"@,
        "  --break-on suspicious|double-free   Pause live TUI on allocator diagnostics"@,
        "  --break-on-free PTR                 Pause live TUI when free(PTR) is observed"@,
        "  --break-on-alloc-size SIZE          Pause live TUI on allocation request size"@,
        ""@,
        "Launch scripting options:"@,
        "  --stdin-file PATH                   Feed target stdin from a file"@,
        "  --stdin-text TEXT                   Feed target stdin from a literal string"@,
        "  --cwd PATH                          Run target from PATH"@,
        "  --set-env KEY=VALUE                 Set a target environment variable"@,
        "  --unset-env KEY                     Remove a target environment variable"@,
        "  --clear-env                         Start target with an empty environment"@,
        "  --ld PATH                           Run target through a custom dynamic loader"@,
        "  --library-path PATH                 Library search path for the custom loader"@,
        "  --preload PATH                      Set LD_PRELOAD for the target"@,
        "  --libc PATH                         Use libc ELF metadata for symbols/profile hints"@,
    ]
}

pub fn usage() -> (r: Lines)
    ensures
        r@ == usage_lines(),
{
    let mut l = Lines::new();
    l.push(owned("Usage:"));
    l.push(owned("  heapify run <program> [args...]"));
    l.push(owned("  heapify break <program> <addr> [args...]"));
    l.push(owned("  heapify break-symbol <program> <symbol> [args...]"));
    l.push(owned("  heapify trace-heap [options] <program> [args...]"));
    l.push(owned("  heapify replay [--tui] [--events-only] [--no-chunks] <trace_file>"));
    l.push(owned(""));
    l.push(owned("Common trace-heap options:"));
    l.push(owned("  --allocator-views none|basic|full   Enable grouped heap/allocator views"));
    l.push(owned("  --live-tui                          Inspect the trace while the target runs"));
    l.push(owned("  --glibc-profile auto|NAME           Select glibc metadata assumptions"));
    l.push(owned("  --json-out PATH                     Write replayable NDJSON trace to a file"));
    l.push(owned("  --events-only                       Print only allocator event lines"));
    l.push(owned("  --no-chunks                         Hide per-event chunk header details"));
    l.push(owned("  --break-on suspicious|double-free   Pause live TUI on allocator diagnostics"));
    l.push(owned("  --break-on-free PTR                 Pause live TUI when free(PTR) is observed"));
    l.push(owned("  --break-on-alloc-size SIZE          Pause live TUI on allocation request size"));
    l.push(owned(""));
    l.push(owned("Launch scripting options:"));
    l.push(owned("  --stdin-file PATH                   Feed target stdin from a file"));
    l.push(owned("  --stdin-text TEXT                   Feed target stdin from a literal string"));
    l.push(owned("  --cwd PATH                          Run target from PATH"));
    l.push(owned("  --set-env KEY=VALUE                 Set a target environment variable"));
    l.push(owned("  --unset-env KEY                     Remove a target environment variable"));
    l.push(owned("  --clear-env                         Start target with an empty environment"));
    l.push(owned("  --ld PATH                           Run target through a custom dynamic loader"));
    l.push(owned("  --library-path PATH                 Library search path for the custom loader"));
    l.push(owned("  --preload PATH                      Set LD_PRELOAD for the target"));
    l.push(
        owned(
            "  --libc PATH                         Use libc ELF metadata for symbols/profile hints",
        ),
    );
    assert(l@ =~= usage_lines());
    l
}

/// What the command line asks for.
pub enum Command {
    Run { program: String, args: Vec<String> },
    Break { program: String, addr: u64, args: Vec<String> },
    BreakSymbol { program: String, symbol: String, args: Vec<String> },
    TraceHeap {
        config: RenderConfig,
        program: String,
        args: Vec<String>,
        mode: AllocationTraceMode,
    },
    Replay { config: ReplayConfig, trace_file: String },
    Help,
}

/// The model of a [`Command`].
pub enum CommandModel {
    Run { program: Seq<char>, args: Seq<Seq<char>> },
    Break { program: Seq<char>, addr: u64, args: Seq<Seq<char>> },
    BreakSymbol { program: Seq<char>, symbol: Seq<char>, args: Seq<Seq<char>> },
    TraceHeap {
        config: RenderConfigView,
        program: Seq<char>,
        args: Seq<Seq<char>>,
        mode: AllocationTraceMode,
    },
    Replay { config: ReplayConfig, trace_file: Seq<char> },
    Help,
}

impl View for Command {
    type V = CommandModel;

    open spec fn view(&self) -> CommandModel {
        match *self {
            Command::Run { program, args } => CommandModel::Run {
                program: program@,
                args: text::texts(args@),
            },
            Command::Break { program, addr, args } => CommandModel::Break {
                program: program@,
                addr,
                args: text::texts(args@),
            },
            Command::BreakSymbol { program, symbol, args } => CommandModel::BreakSymbol {
                program: program@,
                symbol: symbol@,
                args: text::texts(args@),
            },
            Command::TraceHeap { config, program, args, mode } => CommandModel::TraceHeap {
                config: config@,
                program: program@,
                args: text::texts(args@),
                mode,
            },
            Command::Replay { config, trace_file } => CommandModel::Replay {
                config,
                trace_file: trace_file@,
            },
            Command::Help => CommandModel::Help,
        }
    }
}

pub fn parse_addr(addr: &str) -> (r: Result<u64, CliError>)
    ensures
        match (r, number::auto_radix_number(addr@)) {
            (Ok(n), Some(m)) => n == m,
            (Err(e), None) => e.message@ == "invalid address: "@ + addr@,
            _ => false,
        },
{
    match parse_json_addr(addr) {
        Some(n) => Ok(n),
        None => Err(CliError { message: cat2("invalid address: ", addr) }),
    }
}

/// The command that the words behind the tool's name stand for.
pub open spec fn command_line(words: Seq<Seq<char>>) -> Result<CommandModel, Seq<char>> {
    if words.len() == 0 {
        Err("unknown or missing command"@)
    } else if words[0] == "run"@ {
        if words.len() < 2 {
            Err("missing program"@)
        } else {
            Ok(CommandModel::Run { program: words[1], args: words.skip(2) })
        }
    } else if words[0] == "break"@ {
        if words.len() < 2 {
            Err("missing program"@)
        } else if words.len() < 3 {
            Err("missing breakpoint address"@)
        } else {
            match number::auto_radix_number(words[2]) {
                Some(addr) => Ok(
                    CommandModel::Break { program: words[1], addr, args: words.skip(3) },
                ),
                None => Err("invalid address: "@ + words[2]),
            }
        }
    } else if words[0] == "break-symbol"@ {
        if words.len() < 2 {
            Err("missing program"@)
        } else if words.len() < 3 {
            Err("missing symbol"@)
        } else {
            Ok(
                CommandModel::BreakSymbol {
                    program: words[1],
                    symbol: words[2],
                    args: words.skip(3),
                },
            )
        }
    } else if words[0] == "trace-heap"@ {
        match args::trace_args(words.skip(1)) {
            Err(message) => Err(message),
            Ok((config, program, target_args)) => match args::resolved_trace_mode(
                config.trace_mode,
                config.on.contains(Switch::LibcSymbols),
            ) {
                Err(message) => Err(message),
                Ok(mode) => Ok(
                    CommandModel::TraceHeap { config, program, args: target_args, mode },
                ),
            },
        }
    } else if words[0] == "replay"@ {
        match replay::replay_args(
            words.skip(1),
            0,
            ReplayConfig { events_only: false, show_chunks: true, tui: false },
        ) {
            Err(message) => Err(message),
            Ok((config, trace_file)) => Ok(CommandModel::Replay { config, trace_file }),
        }
    } else if words[0] == "-h"@ || words[0] == "--help"@ || words[0] == "help"@ {
        Ok(CommandModel::Help)
    } else {
        Err("unknown or missing command"@)
    }
}

/// Whether `r` is what `command_line` says.
pub open spec fn is_command(
    r: Result<Command, CliError>,
    m: Result<CommandModel, Seq<char>>,
) -> bool {
    match (r, m) {
        (Ok(c), Ok(k)) => c@ == k,
        (Err(e), Err(message)) => e.message@ == message,
        _ => false,
    }
}

/// The words from `from` on, owned.
pub(crate) fn words_from(words: &Vec<String>, from: usize) -> (r: Vec<String>)
    requires
        from <= words.len(),
    ensures
        text::texts(r@) == text::texts(words@).skip(from as int),
{
    let mut r: Vec<String> = Vec::new();
    let mut i: usize = from;
    let ghost all = text::texts(words@);
    assert(text::texts(r@) =~= all.subrange(from as int, from as int));
    while i < words.len()
        invariant
            from <= i <= words.len(),
            all == text::texts(words@),
            text::texts(r@) == all.subrange(from as int, i as int),
        decreases words.len() - i,
    {
        let word = words[i].clone();
        proof {
            text::lemma_texts_push(r@, word);
            assert(all.subrange(from as int, i + 1) =~= all.subrange(from as int, i as int).push(
                all[i as int],
            ));
        }
        r.push(word);
        i = i + 1;
    }
    assert(all.subrange(from as int, words.len() as int) =~= all.skip(from as int));
    r
}

fn parse_trace_command(words: &Vec<String>) -> (r: Result<Command, CliError>)
    requires
        words.len() > 0,
        words@[0]@ == "trace-heap"@,
    ensures
        is_command(r, command_line(text::texts(words@))),
{
    proof {
        lemma_command_words();
    }
    match parse_trace_heap_args(words_from(words, 1)) {
        Err(e) => Err(e),
        Ok((config, program, target_args)) => {
            let libc_symbols = config.shows(Switch::LibcSymbols);
            match resolve_trace_mode(config.trace_mode, libc_symbols) {
                Err(e) => Err(e),
                Ok(mode) => Ok(
                    Command::TraceHeap { config, program, args: target_args, mode },
                ),
            }
        },
    }
}

/// The command words differ from each other.
proof fn lemma_command_words()
    ensures
        "trace-heap"@ != "run"@,
        "trace-heap"@ != "break"@,
        "trace-heap"@ != "break-symbol"@,
{
    reveal_strlit("trace-heap");
    reveal_strlit("run");
    reveal_strlit("break");
    reveal_strlit("break-symbol");
    assert("trace-heap"@[0] == 't');
    assert("run"@[0] == 'r');
    assert("break"@[0] == 'b');
    assert("break-symbol"@[0] == 'b');
}

/// Reads the words behind the tool's name.
pub fn parse_command_line(words: Vec<String>) -> (r: Result<Command, CliError>)
    ensures
        is_command(r, command_line(text::texts(words@))),
{
    let count: usize = words.len();
    if count == 0 {
        return Err(args::error("unknown or missing command"));
    }
    assert(text::texts(words@)[0] == words@[0]@);
    let first = words[0].as_str();
    if same(first, "run") {
        if count < 2 {
            return Err(args::error("missing program"));
        }
        let args = words_from(&words, 2);
        return Ok(Command::Run { program: words[1].clone(), args });
    }
    if same(first, "break") {
        if count < 2 {
            return Err(args::error("missing program"));
        }
        if count < 3 {
            return Err(args::error("missing breakpoint address"));
        }
        let addr: u64 = match parse_addr(words[2].as_str()) {
            Ok(a) => a,
            Err(e) => {
                return Err(e);
            },
        };
        let args = words_from(&words, 3);
        return Ok(Command::Break { program: words[1].clone(), addr, args });
    }
    if same(first, "break-symbol") {
        if count < 2 {
            return Err(args::error("missing program"));
        }
        if count < 3 {
            return Err(args::error("missing symbol"));
        }
        let args = words_from(&words, 3);
        return Ok(
            Command::BreakSymbol { program: words[1].clone(), symbol: words[2].clone(), args },
        );
    }
    if same(first, "trace-heap") {
        return parse_trace_command(&words);
    }
    if same(first, "replay") {
        return match parse_replay_args(words_from(&words, 1)) {
            Err(e) => Err(e),
            Ok((config, trace_file)) => Ok(Command::Replay { config, trace_file }),
        };
    }
    if same(first, "-h") || same(first, "--help") || same(first, "help") {
        return Ok(Command::Help);
    }
    Err(args::error("unknown or missing command"))
}

/// The errors that come with the usage text: those of a command line with a part missing.
pub open spec fn is_usage_error(message: Seq<char>) -> bool {
    message == "missing program"@ || message == "missing breakpoint address"@ || message
        == "missing symbol"@ || message == "missing trace file"@ || message
        == "unknown or missing command"@
}

pub fn wants_usage(error: &CliError) -> (r: bool)
    ensures
        r == is_usage_error(error.message@),
{
    let message = error.message.as_str();
    same(message, "missing program") || same(message, "missing breakpoint address") || same(
        message,
        "missing symbol",
    ) || same(message, "missing trace file") || same(message, "unknown or missing command")
}

// ---------------------------------------------------------------------------
// What is written and printed
// ---------------------------------------------------------------------------

/// Where the records of a session go.
#[derive(Debug, Clone, PartialEq, Eq)]
pub enum JsonTarget {
    Off,
    Stdout,
    File(String),
}

/// What a session writes, and what it says to people: its progress, and what it could not
/// read.
pub struct OutputPlan {
    pub json: JsonTarget,
    pub show_status: bool,
    pub suppress_human: bool,
}

/// Whether `plan` is the output of a session with a configuration.
pub open spec fn is_output_plan(plan: OutputPlan, config: RenderConfigView) -> bool {
    &&& match plan.json {
        JsonTarget::Off => !config.json_enabled(),
        JsonTarget::Stdout => config.json_enabled() && config.json_out is None,
        JsonTarget::File(path) => config.json_out == Some(path@),
    }
    &&& plan.show_status == (!config.events_only() && !config.json_enabled()
        && !config.on.contains(Switch::LiveTui))
    &&& plan.suppress_human == (config.json_enabled() || config.on.contains(Switch::LiveTui))
}

pub fn plan_output(config: &RenderConfig) -> (r: OutputPlan)
    ensures
        is_output_plan(r, config@),
{
    let json_enabled = config.json_enabled();
    let live = config.shows(Switch::LiveTui);
    OutputPlan {
        json: match &config.json_out {
            Some(path) => JsonTarget::File(path.clone()),
            None => if json_enabled {
                JsonTarget::Stdout
            } else {
                JsonTarget::Off
            },
        },
        show_status: !config.events_only() && !json_enabled && !live,
        suppress_human: json_enabled || live,
    }
}

/// How records are shown under a configuration.
pub open spec fn replay_config_of(config: RenderConfigView) -> ReplayConfig {
    ReplayConfig {
        events_only: config.events_only(),
        show_chunks: config.on.contains(Switch::Chunks),
        tui: false,
    }
}

pub fn replay_config_from_render_config(config: &RenderConfig) -> (r: ReplayConfig)
    ensures
        r == replay_config_of(config@),
{
    ReplayConfig {
        events_only: config.events_only(),
        show_chunks: config.shows(Switch::Chunks),
        tui: false,
    }
}

/// Whether a preset of views is worth a word: there is one, more than events are shown, and
/// standard output is not taken by records.
pub open spec fn announces_preset(config: RenderConfigView) -> bool {
    config.allocator_views_preset !is NoViews && !config.events_only() && !config.json_on_stdout()
}

/// The line that names the preset of views.
pub open spec fn preset_status(config: RenderConfigView) -> Option<Seq<char>> {
    if announces_preset(config) {
        Some("[heapify] allocator views preset: "@ + config.allocator_views_preset.label())
    } else {
        None
    }
}

pub fn print_allocator_views_preset_status(config: &RenderConfig) -> (r: Option<String>)
    ensures
        text::opt(r) == preset_status(config@),
{
    let quiet = match config.allocator_views_preset {
        AllocatorViewsPreset::NoViews => true,
        _ => false,
    };
    if quiet || config.events_only() || config.json_on_stdout() {
        None
    } else {
        Some(
            cat2(
                "[heapify] allocator views preset: ",
                config.allocator_views_preset.as_str(),
            ),
        )
    }
}

/// Whether a view is on that rests on the glibc profile.
pub open spec fn profile_backed(config: RenderConfigView) -> bool {
    config.on.contains(Switch::MainArenaCandidate) || config.on.contains(
        Switch::MainArenaTopCandidate,
    ) || config.on.contains(Switch::FastbinExperiment) || config.on.contains(
        Switch::UnsortedExperiment,
    ) || config.on.contains(Switch::BinExperiment) || config.on.contains(Switch::UnsortedBin)
        || config.on.contains(Switch::Fastbins) || config.on.contains(Switch::RegularBins)
        || config.on.contains(Switch::Smallbins) || config.on.contains(Switch::Largebins)
        || config.allocator_views_preset is Full
}

pub fn profile_backed_views_enabled(config: &RenderConfig) -> (r: bool)
    ensures
        r == profile_backed(config@),
{
    let full = match config.allocator_views_preset {
        AllocatorViewsPreset::Full => true,
        _ => false,
    };
    config.shows(Switch::MainArenaCandidate) || config.shows(Switch::MainArenaTopCandidate)
        || config.shows(Switch::FastbinExperiment) || config.shows(Switch::UnsortedExperiment)
        || config.shows(Switch::BinExperiment) || config.shows(Switch::UnsortedBin)
        || config.shows(Switch::Fastbins) || config.shows(Switch::RegularBins) || config.shows(
        Switch::Smallbins,
    ) || config.shows(Switch::Largebins) || full
}

/// Whether a session starts with a profile that is little more than a guess.
pub open spec fn has_low_confidence(record: JsonTraceRecord) -> bool {
    match record {
        JsonTraceRecord::SessionStart { glibc_profile_selection: Some(selection), .. } =>
            selection.confidence is Low,
        _ => false,
    }
}

/// The warning about such a profile, where a view rests on it and people see it.
pub open spec fn low_confidence_warning(record: JsonTraceRecord, config: RenderConfigView) -> Option<
    Seq<char>,
> {
    if has_low_confidence(record) && profile_backed(config) && !config.events_only()
        && !config.json_on_stdout() {
        Some("[heapify] warning: "@ + record_text::low_confidence_text())
    } else {
        None
    }
}

pub fn print_low_confidence_profile_warning(record: &JsonTraceRecord, config: &RenderConfig) -> (r:
    Option<String>)
    ensures
        text::opt(r) == low_confidence_warning(*record, config@),
{
    if config.events_only() || config.json_on_stdout() || !profile_backed_views_enabled(config) {
        return None;
    }
    match record {
        JsonTraceRecord::SessionStart { glibc_profile_selection: Some(selection), .. } => {
            match selection.confidence {
                GlibcProfileConfidence::Low => Some(
                    cat2("[heapify] warning: ", low_confidence_profile_warning()),
                ),
                _ => None,
            }
        },
        _ => None,
    }
}

// ---------------------------------------------------------------------------
// Session records
// ---------------------------------------------------------------------------

/// The libc that a session's target has loaded.
#[derive(Debug, Clone, PartialEq, Eq)]
pub struct LibcMetadata {
    pub path: String,
    pub supplied_path: Option<String>,
    pub paths_match: Option<bool>,
    pub version: Option<String>,
}

/// How a session's target is started.
#[derive(Debug, Clone, PartialEq, Eq)]
pub struct ExecPlan {
    pub launch_mode: String,
    pub loader_path: Option<String>,
    pub effective_library_path: Option<String>,
    pub preload_path: Option<String>,
    pub cwd: Option<String>,
    pub clear_env: bool,
    pub env_overrides: Vec<(String, String)>,
    pub env_unsets: Vec<String>,
    pub stdin: StdinConfig,
}

pub open spec fn trace_mode_word(mode: AllocationTraceMode) -> Seq<char> {
    match mode {
        AllocationTraceMode::TargetPlt => "target_plt"@,
        AllocationTraceMode::LibcSymbols => "libc_symbols"@,
    }
}

impl AllocationTraceMode {
    pub fn as_str(self) -> (r: &'static str)
        ensures
            r@ == trace_mode_word(self),
    {
        match self {
            AllocationTraceMode::TargetPlt => "target_plt",
            AllocationTraceMode::LibcSymbols => "libc_symbols",
        }
    }
}

/// What a session traces beside the calls.
pub open spec fn trace_features(
    config: RenderConfigView,
    mode: AllocationTraceMode,
) -> JsonTraceFeatures {
    JsonTraceFeatures {
        layout: config.on.contains(Switch::Layout),
        tcache_candidates: config.on.contains(Switch::TcacheCandidates),
        tcache_struct: config.on.contains(Switch::TcacheStructCandidate),
        libc_symbols: mode is LibcSymbols,
    }
}

pub fn json_trace_features(config: &RenderConfig, trace_mode: AllocationTraceMode) -> (r:
    JsonTraceFeatures)
    ensures
        r == trace_features(config@, trace_mode),
{
    JsonTraceFeatures {
        layout: config.shows(Switch::Layout),
        tcache_candidates: config.shows(Switch::TcacheCandidates),
        tcache_struct: config.shows(Switch::TcacheStructCandidate),
        libc_symbols: match trace_mode {
            AllocationTraceMode::LibcSymbols => true,
            AllocationTraceMode::TargetPlt => false,
        },
    }
}

/// How a libc is recorded.
pub open spec fn libc_metadata(metadata: LibcMetadata) -> JsonLibcMetadata {
    JsonLibcMetadata {
        path: Some(metadata.path),
        supplied_path: metadata.supplied_path,
        paths_match: metadata.paths_match,
        version: metadata.version,
    }
}

pub fn json_libc_metadata(metadata: LibcMetadata) -> (r: JsonLibcMetadata)
    ensures
        r == libc_metadata(metadata),
{
    JsonLibcMetadata {
        path: Some(metadata.path),
        supplied_path: metadata.supplied_path,
        paths_match: metadata.paths_match,
        version: metadata.version,
    }
}

/// Whether `json` describes where standard input comes from: a file by its path, a text by
/// its length in bytes.
pub open spec fn is_json_stdin(json: JsonStdinMetadata, stdin: StdinView) -> bool {
    match stdin {
        StdinView::Inherit => json.kind@ == "inherit"@ && json.path is None && json.bytes is None,
        StdinView::File(path) => json.kind@ == "file"@ && text::opt(json.path) == Some(path)
            && json.bytes is None,
        StdinView::Text(content) => json.kind@ == "text"@ && json.path is None && (match json.bytes {
            Some(n) => n == vstd::utf8::encode_utf8(content).len() as usize,
            None => false,
        }),
    }
}

pub fn json_stdin_metadata(stdin: &StdinConfig) -> (r: JsonStdinMetadata)
    ensures
        is_json_stdin(r, stdin@),
{
    match stdin {
        StdinConfig::Inherit => JsonStdinMetadata {
            kind: owned("inherit"),
            path: None,
            bytes: None,
        },
        StdinConfig::File(path) => JsonStdinMetadata {
            kind: owned("file"),
            path: Some(path.clone()),
            bytes: None,
        },
        StdinConfig::Text(content) => JsonStdinMetadata {
            kind: owned("text"),
            path: None,
            bytes: Some(content.as_str().len()),
        },
    }
}

/// The keys of the first `n` pairs.
pub open spec fn keys(pairs: Seq<(String, String)>, n: nat) -> Seq<Seq<char>> {
    Seq::new(n, |i: int| pairs[i].0@)
}

/// How many environment settings came from the user: all but the one that a preloaded
/// library adds at the end.
pub open spec fn user_set_count(count: nat, preload: bool) -> nat {
    if preload && count > 0 {
        (count - 1) as nat
    } else {
        count
    }
}

pub fn user_launch_env_set_keys(plan: &ExecPlan) -> (r: Vec<String>)
    ensures
        text::texts(r@) == keys(
            plan.env_overrides@,
            user_set_count(plan.env_overrides@.len(), plan.preload_path is Some),
        ),
{
    let count: usize = plan.env_overrides.len();
    let user: usize = if plan.preload_path.is_some() && count > 0 {
        count - 1
    } else {
        count
    };
    let mut r: Vec<String> = Vec::new();
    let mut i: usize = 0;
    let ghost want = keys(plan.env_overrides@, user as nat);
    assert(text::texts(r@) =~= want.take(0));
    while i < user
        invariant
            i <= user <= plan.env_overrides.len(),
            want == keys(plan.env_overrides@, user as nat),
            text::texts(r@) == want.take(i as int),
        decreases user - i,
    {
        let key = plan.env_overrides[i].0.clone();
        proof {
            text::lemma_texts_push(r@, key);
            assert(want.take(i + 1) =~= want.take(i as int).push(want[i as int]));
        }
        r.push(key);
        i = i + 1;
    }
    assert(want.take(user as int) =~= want);
    r
}

/// Whether `json` describes how a target is started.
pub open spec fn is_json_launch(json: JsonLaunchMetadata, plan: ExecPlan) -> bool {
    &&& json.mode@ == plan.launch_mode@
    &&& text::opt(json.loader) == text::opt(plan.loader_path)
    &&& text::opt(json.library_path) == text::opt(plan.effective_library_path)
    &&& text::opt(json.preload) == text::opt(plan.preload_path)
    &&& text::opt(json.cwd) == text::opt(plan.cwd)
    &&& json.clear_env == plan.clear_env
    &&& text::texts(json.set_env@) == keys(
        plan.env_overrides@,
        user_set_count(plan.env_overrides@.len(), plan.preload_path is Some),
    )
    &&& text::texts(json.unset_env@) == text::texts(plan.env_unsets@)
    &&& is_json_stdin(json.stdin, plan.stdin@)
}

fn opt_clone(value: &Option<String>) -> (r: Option<String>)
    ensures
        text::opt(r) == text::opt(*value),
{
    match value {
        Some(v) => Some(v.clone()),
        None => None,
    }
}

pub fn json_launch_metadata(plan: &ExecPlan) -> (r: JsonLaunchMetadata)
    ensures
        is_json_launch(r, *plan),
{
    let unset_env = words_from(&plan.env_unsets, 0);
    assert(text::texts(plan.env_unsets@).skip(0) =~= text::texts(plan.env_unsets@));
    JsonLaunchMetadata {
        mode: plan.launch_mode.clone(),
        loader: opt_clone(&plan.loader_path),
        library_path: opt_clone(&plan.effective_library_path),
        preload: opt_clone(&plan.preload_path),
        cwd: opt_clone(&plan.cwd),
        clear_env: plan.clear_env,
        set_env: user_launch_env_set_keys(plan),
        unset_env,
        stdin: json_stdin_metadata(&plan.stdin),
    }
}

/// The record that a session ends with.
pub fn session_end_record(exit_status: String, event_count: usize) -> (r: JsonTraceRecord)
    ensures
        r == (JsonTraceRecord::SessionEnd { exit_status, event_count }),
{
    JsonTraceRecord::SessionEnd { exit_status, event_count }
}

// ---------------------------------------------------------------------------
// Events
// ---------------------------------------------------------------------------

/// Whether the target goes on after an allocator call.
#[derive(Debug, Clone, Copy, PartialEq, Eq, Structural)]
pub enum AllocatorEventControl {
    Continue,
    Pause,
}

/// What follows an allocator call: the condition it met, if any, is reported, and on the live
/// screen it pauses the target.
pub fn after_allocator_event(
    conditions: &Vec<AllocatorBreakCondition>,
    event: &HeapTraceEvent,
    note: HeapTrackerNote,
    related_records: &Vec<JsonTraceRecord>,
    live: bool,
) -> (r: (Option<AllocatorBreakMatch>, AllocatorEventControl))
    ensures
        breaks::opt_break(r.0) == breaks::first_match(
            conditions@,
            0,
            *event,
            note,
            related_records@,
        ),
        r.1 == (if live && r.0 is Some {
            AllocatorEventControl::Pause
        } else {
            AllocatorEventControl::Continue
        }),
{
    let found = evaluate_allocator_break_conditions(conditions, event, note, related_records);
    let control = if live && found.is_some() {
        AllocatorEventControl::Pause
    } else {
        AllocatorEventControl::Continue
    };
    (found, control)
}

/// What is said of memory maps that could not be read.
pub fn maps_failure(error: &str) -> (r: String)
    ensures
        r@ == "process maps read failed: "@ + error@,
{
    cat2("process maps read failed: ", error)
}

// ---------------------------------------------------------------------------
// Trace files
// ---------------------------------------------------------------------------

/// The record text on a line of a trace file; none on a blank line.
pub fn record_on_line(line: &str) -> (r: Option<String>)
    ensures
        text::opt(r) == (if search::trimmed(line@).len() == 0 {
            None
        } else {
            Some(search::trimmed(line@))
        }),
{
    let trimmed = trim_text(line);
    if trimmed.as_str().is_empty() {
        None
    } else {
        Some(trimmed)
    }
}

/// What is said of a trace file that cannot be opened.
pub fn open_failure(path: &str) -> (r: String)
    ensures
        r@ == "failed to open trace file "@ + path@,
{
    cat2("failed to open trace file ", path)
}

/// What is said of a line that cannot be read.
pub fn read_failure(path: &str, line_number: usize) -> (r: String)
    ensures
        r@ == "failed to read trace file "@ + path@ + " line "@ + text::dec(line_number as nat),
{
    cat4(
        "failed to read trace file ",
        path,
        " line ",
        text::format_dec_usize(line_number).as_str(),
    )
}

/// What is said of a line that holds no record.
pub fn parse_failure(path: &str, line_number: usize) -> (r: String)
    ensures
        r@ == "failed to parse JSON trace record at "@ + path@ + ":"@ + text::dec(
            line_number as nat,
        ),
{
    cat4(
        "failed to parse JSON trace record at ",
        path,
        ":",
        text::format_dec_usize(line_number).as_str(),
    )
}

// ---------------------------------------------------------------------------
// Laws
// ---------------------------------------------------------------------------

/// Records on standard output keep it to themselves: no progress, no absent views, no
/// preset line and no warning are printed beside them.
pub proof fn law_json_keeps_stdout(config: RenderConfigView, plan: OutputPlan)
    requires
        config.json_on_stdout(),
        is_output_plan(plan, config),
    ensures
        !plan.show_status,
        plan.suppress_human,
        plan.json is Stdout,
        !announces_preset(config),
{
}

/// The live screen keeps the terminal: nothing is printed for people beside it.
pub proof fn law_live_tui_is_quiet(config: RenderConfigView, plan: OutputPlan)
    requires
        config.on.contains(Switch::LiveTui),
        is_output_plan(plan, config),
    ensures
        !plan.show_status,
        plan.suppress_human,
{
}

/// The record of a launch names the variables that were set and keeps their values to
/// itself: launches that differ in values alone have the same record.
pub proof fn law_launch_hides_values(json: JsonLaunchMetadata, a: ExecPlan, b: ExecPlan)
    requires
        a.launch_mode == b.launch_mode,
        a.loader_path == b.loader_path,
        a.effective_library_path == b.effective_library_path,
        a.preload_path == b.preload_path,
        a.cwd == b.cwd,
        a.clear_env == b.clear_env,
        a.env_unsets == b.env_unsets,
        a.stdin == b.stdin,
        keys(a.env_overrides@, a.env_overrides@.len()) == keys(
            b.env_overrides@,
            b.env_overrides@.len(),
        ),
    ensures
        is_json_launch(json, a) == is_json_launch(json, b),
{
    let all_a = keys(a.env_overrides@, a.env_overrides@.len());
    let all_b = keys(b.env_overrides@, b.env_overrides@.len());
    assert(all_a.len() == all_b.len());
    let n = user_set_count(a.env_overrides@.len(), a.preload_path is Some);
    assert(keys(a.env_overrides@, n) =~= all_a.take(n as int));
    assert(keys(b.env_overrides@, n) =~= all_b.take(n as int));
}

/// The record of a launch keeps a scripted input to itself: of two texts of the same size it
/// says the same.
pub proof fn law_launch_hides_input(json: JsonStdinMetadata, a: Seq<char>, b: Seq<char>)
    requires
        vstd::utf8::encode_utf8(a).len() == vstd::utf8::encode_utf8(b).len(),
    ensures
        is_json_stdin(json, StdinView::Text(a)) == is_json_stdin(json, StdinView::Text(b)),
{
}

} // verus!
