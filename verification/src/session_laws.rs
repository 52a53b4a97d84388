//! What the words of a command line stand for, what a session writes, and what is printed of it.

use crate::args;
use crate::config;
use crate::config::{
    AllocationTraceMode, AllocatorViewsPreset, RenderConfigView, Switch, TraceModeArg,
};
use crate::event;
use crate::event::{
    GlibcChunkHeader, HeapTraceEvent, HeapTrackerExplanation, HeapTrackerNote,
};
use crate::live_update::LiveTraceUpdate;
use crate::number;
use crate::record::JsonTraceRecord;
use crate::replay;
use crate::replay_text::ReplayConfig;
use crate::session;
use crate::session::{command_line, CommandModel, JsonTarget, OutputPlan};
use crate::snapshot::{CodeContext, RegisterSnapshot, StackSnapshot, SymbolizedAddress};
use crate::text;
use crate::text::{begins_with_line, ends_with_line, shows, shows_line};
use crate::worker;
use crate::worker::{Build, SessionInfo, WorkerView};
use vstd::prelude::*;

verus! {

// ---------------------------------------------------------------------------
// Commands
// ---------------------------------------------------------------------------

proof fn lemma_command_words()
    ensures
        "run"@ != "break"@ && "run"@ != "break-symbol"@ && "run"@ != "trace-heap"@ && "run"@
            != "replay"@ && "run"@ != "-h"@ && "run"@ != "--help"@ && "run"@ != "help"@,
        "break"@ != "break-symbol"@ && "break"@ != "trace-heap"@ && "break"@ != "replay"@
            && "break"@ != "-h"@ && "break"@ != "--help"@ && "break"@ != "help"@,
        "break-symbol"@ != "trace-heap"@ && "break-symbol"@ != "replay"@ && "break-symbol"@
            != "-h"@ && "break-symbol"@ != "--help"@ && "break-symbol"@ != "help"@,
        "trace-heap"@ != "replay"@ && "trace-heap"@ != "-h"@ && "trace-heap"@ != "--help"@
            && "trace-heap"@ != "help"@,
        "replay"@ != "-h"@ && "replay"@ != "--help"@ && "replay"@ != "help"@,
{
    reveal_strlit("run");
    reveal_strlit("break");
    reveal_strlit("break-symbol");
    reveal_strlit("trace-heap");
    reveal_strlit("replay");
    reveal_strlit("-h");
    reveal_strlit("--help");
    reveal_strlit("help");
    assert("run"@.len() == 3);
    assert("break"@.len() == 5);
    assert("break-symbol"@.len() == 12);
    assert("trace-heap"@.len() == 10);
    assert("replay"@.len() == 6);
    assert("-h"@.len() == 2);
    assert("--help"@.len() == 6);
    assert("help"@.len() == 4);
    assert("replay"@[0] == 'r');
    assert("--help"@[0] == '-');
}

/// `run` starts a program with the words behind it, and `break` and `break-symbol` take one word
/// more in between: an address that can be read, or any symbol.
pub proof fn law_program_commands(
    program: Seq<char>,
    place: Seq<char>,
    rest: Seq<Seq<char>>,
)
    ensures
        command_line(seq!["run"@, program] + rest) == Ok::<CommandModel, Seq<char>>(
            CommandModel::Run { program, args: rest },
        ),
        command_line(seq!["break-symbol"@, program, place] + rest) == Ok::<
            CommandModel,
            Seq<char>,
        >(CommandModel::BreakSymbol { program, symbol: place, args: rest }),
        match number::auto_radix_number(place) {
            Some(addr) => command_line(seq!["break"@, program, place] + rest) == Ok::<
                CommandModel,
                Seq<char>,
            >(CommandModel::Break { program, addr, args: rest }),
            None => command_line(seq!["break"@, program, place] + rest) == Err::<
                CommandModel,
                Seq<char>,
            >("invalid address: "@ + place),
        },
        command_line(seq!["run"@]) == Err::<CommandModel, Seq<char>>("missing program"@),
        command_line(seq!["break"@]) == Err::<CommandModel, Seq<char>>("missing program"@),
        command_line(seq!["break-symbol"@]) == Err::<CommandModel, Seq<char>>("missing program"@),
        command_line(seq!["break"@, program]) == Err::<CommandModel, Seq<char>>(
            "missing breakpoint address"@,
        ),
        command_line(seq!["break-symbol"@, program]) == Err::<CommandModel, Seq<char>>(
            "missing symbol"@,
        ),
{
    lemma_command_words();
    let a = seq!["run"@, program] + rest;
    let b = seq!["break-symbol"@, program, place] + rest;
    let c = seq!["break"@, program, place] + rest;
    assert(a.skip(2) =~= rest);
    assert(b.skip(3) =~= rest);
    assert(c.skip(3) =~= rest);
    assert(a[0] == "run"@ && a[1] == program);
    assert(b[0] == "break-symbol"@ && b[1] == program && b[2] == place);
    assert(c[0] == "break"@ && c[1] == program && c[2] == place);
}

/// `trace-heap` reads the words behind it as options, program and arguments, and is turned down
/// where they or the two mode options do not go together.
pub proof fn law_trace_heap_command(
    words: Seq<Seq<char>>,
    config: RenderConfigView,
    program: Seq<char>,
    rest: Seq<Seq<char>>,
    message: Seq<char>,
)
    ensures
        args::trace_args(words) == Err::<(RenderConfigView, Seq<char>, Seq<Seq<char>>), Seq<char>>(
            message,
        ) ==> command_line(seq!["trace-heap"@] + words) == Err::<CommandModel, Seq<char>>(message),
        args::trace_args(words) == Ok::<(RenderConfigView, Seq<char>, Seq<Seq<char>>), Seq<char>>(
            (config, program, rest),
        ) ==> {
            let plt = config.trace_mode == Some(TraceModeArg::Plt);
            let libc = config.trace_mode == Some(TraceModeArg::Libc) || config.on.contains(
                Switch::LibcSymbols,
            );
            &&& plt && config.on.contains(Switch::LibcSymbols) ==> command_line(
                seq!["trace-heap"@] + words,
            ) == Err::<CommandModel, Seq<char>>(
                "--trace-mode plt conflicts with --libc-symbols; use --trace-mode libc or remove --libc-symbols"@,
            )
            &&& !(plt && config.on.contains(Switch::LibcSymbols)) ==> command_line(
                seq!["trace-heap"@] + words,
            ) == Ok::<CommandModel, Seq<char>>(
                CommandModel::TraceHeap {
                    config,
                    program,
                    args: rest,
                    mode: if libc {
                        AllocationTraceMode::LibcSymbols
                    } else {
                        AllocationTraceMode::TargetPlt
                    },
                },
            )
        },
{
    lemma_command_words();
    let all = seq!["trace-heap"@] + words;
    assert(all[0] == "trace-heap"@);
    assert(all.skip(1) =~= words);
}

/// `replay` reads the words behind it as options and a file, and shows everything as text unless
/// they say otherwise.
pub proof fn law_replay_command(words: Seq<Seq<char>>)
    ensures
        match replay::replay_args(
            words,
            0,
            (ReplayConfig { events_only: false, show_chunks: true, tui: false }),
        ) {
            Ok((config, trace_file)) => command_line(seq!["replay"@] + words) == Ok::<
                CommandModel,
                Seq<char>,
            >(CommandModel::Replay { config, trace_file }),
            Err(message) => command_line(seq!["replay"@] + words) == Err::<
                CommandModel,
                Seq<char>,
            >(message),
        },
{
    lemma_command_words();
    let all = seq!["replay"@] + words;
    assert(all[0] == "replay"@);
    assert(all.skip(1) =~= words);
}

/// Help is asked for by three words, whatever follows them; no words at all and every other first
/// word are no command.
pub proof fn law_other_commands(word: Seq<char>, rest: Seq<Seq<char>>)
    ensures
        word == "-h"@ || word == "--help"@ || word == "help"@ ==> command_line(seq![word] + rest)
            == Ok::<CommandModel, Seq<char>>(CommandModel::Help),
        word != "run"@ && word != "break"@ && word != "break-symbol"@ && word != "trace-heap"@
            && word != "replay"@ && word != "-h"@ && word != "--help"@ && word != "help"@
            ==> command_line(seq![word] + rest) == Err::<CommandModel, Seq<char>>(
            "unknown or missing command"@,
        ),
        command_line(Seq::empty()) == Err::<CommandModel, Seq<char>>("unknown or missing command"@),
{
    lemma_command_words();
    let all = seq![word] + rest;
    assert(all[0] == word);
}

/// The two profiles are known by their names: the generic one has no arena fields, the other one
/// the layout of its version.
pub proof fn law_profiles_by_name(name: Seq<char>)
    ensures
        config::profile_named(name) is Some <==> name == "glibc-x86_64-modern"@ || name
            == "glibc-2.35-x86_64"@,
        config::profile_named(name) is Some ==> config::profile_named(name)->0.name@ == name,
        name == "glibc-x86_64-modern"@ ==> {
            let p = config::profile_named(name)->0;
            p.main_arena_top_offset is None && p.main_arena_fastbins_offset is None
                && p.main_arena_unsorted_bin_offset is None && p.main_arena_bins_offset is None
                && p.main_arena_fastbin_count is None && p.main_arena_bin_count is None
        },
        name == "glibc-2.35-x86_64"@ ==> {
            let p = config::profile_named(name)->0;
            p.main_arena_top_offset == Some(0x60u64) && p.main_arena_fastbins_offset == Some(
                0x10u64,
            ) && p.main_arena_unsorted_bin_offset == Some(0x70u64) && p.main_arena_bins_offset
                == Some(0x70u64) && p.main_arena_fastbin_count == Some(10usize)
                && p.main_arena_bin_count == Some(127usize)
        },
{
    reveal_strlit("glibc-x86_64-modern");
    reveal_strlit("glibc-2.35-x86_64");
    assert("glibc-x86_64-modern"@.len() == 19);
    assert("glibc-2.35-x86_64"@.len() == 17);
}

// ---------------------------------------------------------------------------
// Output
// ---------------------------------------------------------------------------

/// Records go to the file that was named, else to standard output where they were asked for. The
/// progress of a session is told only where neither records nor a screen are asked for and more
/// than events is shown.
pub proof fn law_output_goes_where_it_was_asked(config: RenderConfigView, plan: OutputPlan)
    requires
        session::is_output_plan(plan, config),
    ensures
        ({
            let json = config.on.contains(Switch::Json);
            let live = config.on.contains(Switch::LiveTui);
            let events_only = !config.on.contains(Switch::Chunks) && !config.on.contains(
                Switch::TrackerNotes,
            ) && !config.on.contains(Switch::Explanations) && !config.on.contains(Switch::Layout);
            &&& config.json_out is Some ==> (plan.json matches JsonTarget::File(path) && path@
                == config.json_out->0)
            &&& config.json_out is None && json ==> plan.json == JsonTarget::Stdout
            &&& config.json_out is None && !json ==> plan.json == JsonTarget::Off
            &&& plan.suppress_human <==> json || config.json_out is Some || live
            &&& plan.show_status <==> !json && config.json_out is None && !live && !events_only
        }),
{
}

/// Records are shown as the options of the session say, and never on a replay screen.
pub proof fn law_records_are_shown_as_asked(config: RenderConfigView)
    ensures
        ({
            let r = session::replay_config_of(config);
            &&& r.show_chunks <==> config.on.contains(Switch::Chunks)
            &&& r.events_only <==> !config.on.contains(Switch::Chunks) && !config.on.contains(
                Switch::TrackerNotes,
            ) && !config.on.contains(Switch::Explanations) && !config.on.contains(Switch::Layout)
            &&& !r.tui
        }),
{
}

/// A preset is told by its name where there is one, more than events is shown, and standard
/// output is free.
pub proof fn law_preset_is_told(config: RenderConfigView)
    ensures
        ({
            let told = session::preset_status(config);
            let free = !config.on.contains(Switch::Json) || config.json_out is Some;
            let more = config.on.contains(Switch::Chunks) || config.on.contains(
                Switch::TrackerNotes,
            ) || config.on.contains(Switch::Explanations) || config.on.contains(Switch::Layout);
            &&& told is Some <==> config.allocator_views_preset != AllocatorViewsPreset::NoViews
                && free && more
            &&& told is Some && config.allocator_views_preset == AllocatorViewsPreset::Basic
                ==> told->0 == "[heapify] allocator views preset: "@ + "basic"@
            &&& told is Some && config.allocator_views_preset == AllocatorViewsPreset::Full
                ==> told->0 == "[heapify] allocator views preset: "@ + "full"@
        }),
{
}

/// What the first record of a session says of it is what the session has: the version, the
/// program with its arguments, the mode, the libc and its profile, and which views are on.
pub proof fn law_session_start_is_recorded(
    record: JsonTraceRecord,
    worker: WorkerView,
    build: Build,
    info: SessionInfo,
)
    requires
        worker::is_session_start(record, worker, build, info),
    ensures
        record is SessionStart,
        record->SessionStart_heapify_version@ == build.version@,
        record->SessionStart_arch@ == build.arch@,
        record->SessionStart_os@ == build.os@,
        record->SessionStart_program@ == worker.program,
        text::texts(record->SessionStart_args@) == worker.args,
        record->SessionStart_trace_mode@ == (if worker.mode == AllocationTraceMode::LibcSymbols {
            "libc_symbols"@
        } else {
            "target_plt"@
        }),
        record->SessionStart_glibc_profile@ == info.profile_name@,
        record->SessionStart_glibc_profile_selection == Some(info.profile_selection),
        record->SessionStart_features.layout <==> worker.config.on.contains(Switch::Layout),
        record->SessionStart_features.tcache_candidates <==> worker.config.on.contains(
            Switch::TcacheCandidates,
        ),
        record->SessionStart_features.tcache_struct <==> worker.config.on.contains(
            Switch::TcacheStructCandidate,
        ),
        record->SessionStart_features.libc_symbols <==> worker.mode
            == AllocationTraceMode::LibcSymbols,
        info.libc is Some ==> {
            &&& record->SessionStart_libc is Some
            &&& record->SessionStart_libc->0.path == Some(info.libc->0.path)
            &&& record->SessionStart_libc->0.supplied_path == info.libc->0.supplied_path
            &&& record->SessionStart_libc->0.paths_match == info.libc->0.paths_match
            &&& record->SessionStart_libc->0.version == info.libc->0.version
        },
        record->SessionStart_launch is Some,
        record->SessionStart_launch->0.mode@ == info.launch.launch_mode@,
        record->SessionStart_launch->0.clear_env == info.launch.clear_env,
        text::texts(record->SessionStart_launch->0.unset_env@) == text::texts(
            info.launch.env_unsets@,
        ),
{
}

/// The live screen learns of a stop in a fixed order: registers, stack, code; without one
/// nothing is told.
pub proof fn law_stops_are_told_in_order(
    live: bool,
    event_id: Option<usize>,
    registers: RegisterSnapshot,
    stack: StackSnapshot,
    code: CodeContext,
)
    ensures
        ({
            let told = worker::stop_updates(live, event_id, registers, stack, code);
            &&& !live ==> told.len() == 0
            &&& live ==> told.len() == 3 && told[0] == (LiveTraceUpdate::RegisterSnapshot {
                event_id,
                snapshot: registers,
            }) && told[1] == (LiveTraceUpdate::StackSnapshot { event_id, snapshot: stack })
                && told[2] == (LiveTraceUpdate::CodeContext { event_id, context: code })
        }),
{
}

// ---------------------------------------------------------------------------
// Printed events
// ---------------------------------------------------------------------------

/// The text that a call is printed with under the options of a session.
pub open spec fn printed_call(
    event: HeapTraceEvent,
    caller_symbol: Option<SymbolizedAddress>,
    note: HeapTrackerNote,
    config: RenderConfigView,
) -> Seq<char> {
    text::unlines(
        event::event_lines(
            event,
            caller_symbol,
            note,
            config.on.contains(Switch::TrackerNotes),
            config.on.contains(Switch::Chunks),
        ),
    )
}

/// A call is printed where no screen and no records take its place: its own text, and the
/// explanation below it where explanations are on and there is one.
pub proof fn law_calls_are_printed(
    event_id: usize,
    event: HeapTraceEvent,
    note: HeapTrackerNote,
    explanation: HeapTrackerExplanation,
    caller_symbol: Option<SymbolizedAddress>,
    config: RenderConfigView,
)
    requires
        !config.on.contains(Switch::LiveTui),
        !config.on.contains(Switch::Json),
        config.json_out is None,
    ensures
        ({
            let told = worker::update_texts(
                LiveTraceUpdate::Event { event_id, event, note, explanation, caller_symbol },
                config,
            );
            let explained = config.on.contains(Switch::Explanations) && explanation
                !is NoExtraExplanation;
            &&& told.len() == (if explained { 2int } else { 1 })
            &&& told[0] == printed_call(event, caller_symbol, note, config)
            &&& explanation matches HeapTrackerExplanation::LikelyTcacheOrFastbinReuse {
                chunk_size,
            } ==> explained ==> told[1] == "    note: "@ + ("chunk size "@ + text::hex0x(
                chunk_size as nat,
            ) + " is likely tcache/fastbin-sized"@)
        }),
{
}

/// The text of a call begins with its number, its arguments and what it returned.
pub proof fn law_printed_call_begins_with_itself(
    event: HeapTraceEvent,
    caller_symbol: Option<SymbolizedAddress>,
    note: HeapTrackerNote,
    config: RenderConfigView,
)
    ensures
        ({
            let s = printed_call(event, caller_symbol, note, config);
            match event {
                HeapTraceEvent::Malloc { event_id, requested_size, returned_ptr, .. } =>
                    begins_with_line(
                    s,
                    "#"@ + text::dec(event_id as nat) + " malloc("@ + text::hex0x(
                        requested_size as nat,
                    ) + ") = "@ + text::hex0x(returned_ptr as nat),
                ),
                HeapTraceEvent::Free { event_id, ptr, .. } => begins_with_line(
                    s,
                    "#"@ + text::dec(event_id as nat) + " free("@ + text::hex0x(ptr as nat) + ")"@,
                ),
                HeapTraceEvent::Calloc { event_id, nmemb, size, returned_ptr, .. } =>
                    begins_with_line(
                    s,
                    "#"@ + text::dec(event_id as nat) + " calloc("@ + text::hex0x(nmemb as nat)
                        + ", "@ + text::hex0x(size as nat) + ") = "@ + text::hex0x(
                        returned_ptr as nat,
                    ),
                ),
                HeapTraceEvent::Realloc { event_id, old_ptr, new_size, returned_ptr, .. } =>
                    begins_with_line(
                    s,
                    "#"@ + text::dec(event_id as nat) + " realloc("@ + text::hex0x(old_ptr as nat)
                        + ", "@ + text::hex0x(new_size as nat) + ") = "@ + text::hex0x(
                        returned_ptr as nat,
                    ),
                ),
            }
        }),
{
    text::lemma_text_ends(
        event::event_lines(
            event,
            caller_symbol,
            note,
            config.on.contains(Switch::TrackerNotes),
            config.on.contains(Switch::Chunks),
        ),
    );
}

/// Where notes are on a call ends with what it meant, as a warning for a double free, for an
/// unknown pointer and for a pointer that was not free, and as a state otherwise.
pub proof fn law_printed_call_ends_with_its_note(
    event: HeapTraceEvent,
    caller_symbol: Option<SymbolizedAddress>,
    note: HeapTrackerNote,
    config: RenderConfigView,
)
    requires
        config.on.contains(Switch::TrackerNotes),
    ensures
        ends_with_line(
            printed_call(event, caller_symbol, note, config),
            "    "@ + event::note_text(note),
        ),
        ({
            let t = event::note_text(note);
            let warns = note == HeapTrackerNote::DoubleFree || note
                == HeapTrackerNote::FreeUnknownPointer || note
                == HeapTrackerNote::AllocatedPointerReturnedAgain || note
                == HeapTrackerNote::ReallocUnknownOldPointer;
            &&& t.len() > 9
            &&& warns <==> t[0] == 'w' && t[1] == 'a' && t[2] == 'r' && t[3] == 'n'
            &&& !warns <==> t[0] == 's' && t[1] == 't' && t[2] == 'a' && t[3] == 't'
        }),
{
    text::lemma_text_ends(
        event::event_lines(
            event,
            caller_symbol,
            note,
            true,
            config.on.contains(Switch::Chunks),
        ),
    );
    reveal_strlit("state: allocated new chunk");
    reveal_strlit("state: reused previously freed chunk");
    reveal_strlit("state: freed known chunk");
    reveal_strlit("warning: possible double free");
    reveal_strlit("warning: freeing pointer not seen by Heapify");
    reveal_strlit("state: malloc returned NULL");
    reveal_strlit("state: free(NULL)");
    reveal_strlit("warning: malloc returned pointer already marked allocated");
    reveal_strlit("state: calloc returned NULL");
    reveal_strlit("state: realloc(NULL, size) allocated chunk");
    reveal_strlit("state: realloc kept allocation in place");
    reveal_strlit("state: realloc moved allocation");
    reveal_strlit("state: realloc failed; old pointer remains allocated");
    reveal_strlit("state: realloc(ptr, 0) freed old pointer");
    reveal_strlit("warning: realloc old pointer not seen by Heapify");
}

/// Where notes are on a call tells its caller below itself: by symbol, with its object, its offset
/// unless that is zero, and the address; or by the address alone.
pub proof fn law_printed_call_tells_its_caller(
    event: HeapTraceEvent,
    caller_symbol: Option<SymbolizedAddress>,
    note: HeapTrackerNote,
    config: RenderConfigView,
    addr: u64,
)
    requires
        config.on.contains(Switch::TrackerNotes),
        match event {
            HeapTraceEvent::Malloc { caller_addr, .. } => caller_addr == Some(addr),
            HeapTraceEvent::Free { caller_addr, .. } => caller_addr == Some(addr),
            HeapTraceEvent::Calloc { caller_addr, .. } => caller_addr == Some(addr),
            HeapTraceEvent::Realloc { caller_addr, .. } => caller_addr == Some(addr),
        },
    ensures
        ({
            let s = printed_call(event, caller_symbol, note, config);
            match caller_symbol {
                Some(symbol) => shows_line(
                    s,
                    "    caller:     "@ + (match symbol.object_name {
                        Some(object) => object@ + "!"@,
                        None => Seq::empty(),
                    }) + symbol.symbol@ + (if symbol.offset == 0 {
                        Seq::empty()
                    } else {
                        "+"@ + text::hex0x(symbol.offset as nat)
                    }) + " ("@ + text::hex0x(symbol.addr as nat) + ")"@,
                ),
                None => shows_line(s, "    caller:     "@ + text::hex0x(addr as nat)),
            }
        }),
{
    let lines = event::event_lines(
        event,
        caller_symbol,
        note,
        true,
        config.on.contains(Switch::Chunks),
    );
    text::lemma_shows_lines(lines);
    match caller_symbol {
        Some(symbol) => {
            assert(lines[1] == "    caller:     "@ + event::symbolized_caller(symbol));
            assert(lines[1] =~= "    caller:     "@ + (match symbol.object_name {
                Some(object) => object@ + "!"@,
                None => Seq::empty(),
            }) + symbol.symbol@ + (if symbol.offset == 0 {
                Seq::empty()
            } else {
                "+"@ + text::hex0x(symbol.offset as nat)
            }) + " ("@ + text::hex0x(symbol.addr as nat) + ")"@);
        },
        None => {
            assert(lines[1] == "    caller:     "@ + text::hex0x(addr as nat));
        },
    }
}

/// The lines of a chunk header, each behind some columns.
pub open spec fn printed_header(
    columns: Seq<char>,
    chunk: GlibcChunkHeader,
    flags: Seq<char>,
) -> Seq<Seq<char>> {
    seq![
        columns + "chunk:      "@ + text::hex0x(chunk.chunk_addr as nat),
        columns + "user:       "@ + text::hex0x(chunk.user_addr as nat),
        columns + "prev_size:  "@ + text::hex0x(chunk.prev_size as nat),
        columns + "size_raw:   "@ + text::hex0x(chunk.size_raw as nat),
        columns + "size:       "@ + text::hex0x(chunk.size as nat),
        columns + "flags:      "@ + flags,
    ]
}

/// The flags of a chunk as they are printed: the names of those that are set, with bars between
/// them, or the word that none is.
pub open spec fn flag_words(chunk: GlibcChunkHeader, s: Seq<char>) -> bool {
    let f = chunk.flags;
    &&& !f.prev_inuse && !f.is_mmapped && !f.non_main_arena ==> s == "none"@
    &&& f.prev_inuse && !f.is_mmapped && !f.non_main_arena ==> s == "PREV_INUSE"@
    &&& !f.prev_inuse && f.is_mmapped && !f.non_main_arena ==> s == "IS_MMAPPED"@
    &&& !f.prev_inuse && !f.is_mmapped && f.non_main_arena ==> s == "NON_MAIN_ARENA"@
    &&& f.prev_inuse && f.is_mmapped && !f.non_main_arena ==> s == "PREV_INUSE"@ + " | "@
        + "IS_MMAPPED"@
    &&& f.prev_inuse && !f.is_mmapped && f.non_main_arena ==> s == "PREV_INUSE"@ + " | "@
        + "NON_MAIN_ARENA"@
}

/// Whether a text shows a chunk header behind some columns.
pub open spec fn shows_header(s: Seq<char>, columns: Seq<char>, chunk: GlibcChunkHeader) -> bool {
    exists|flags: Seq<char>|
        flag_words(chunk, flags) && #[trigger] shows(s, printed_header(columns, chunk, flags))
}

proof fn lemma_flag_words(chunk: GlibcChunkHeader)
    ensures
        flag_words(chunk, event::flags_text(chunk.flags)),
{
    let labels = event::flag_labels(chunk.flags);
    reveal_with_fuel(text::join, 3);
    if labels.len() == 2 {
        assert(labels.drop_last()[0] == labels[0]);
    }
}

/// Where chunks are on a call prints the header of its chunk, or that it has none that could be
/// read, unless its pointer is null; `realloc` prints the old chunk before the new one.
pub proof fn law_printed_call_shows_its_chunk(
    event: HeapTraceEvent,
    caller_symbol: Option<SymbolizedAddress>,
    note: HeapTrackerNote,
    config: RenderConfigView,
    chunk: Option<GlibcChunkHeader>,
    ptr: u64,
)
    requires
        config.on.contains(Switch::Chunks),
        match event {
            HeapTraceEvent::Malloc { chunk: c, returned_ptr, .. } => c == chunk && returned_ptr
                == ptr,
            HeapTraceEvent::Calloc { chunk: c, returned_ptr, .. } => c == chunk && returned_ptr
                == ptr,
            HeapTraceEvent::Free { chunk: c, ptr: p, .. } => c == chunk && p == ptr,
            HeapTraceEvent::Realloc { new_chunk, returned_ptr, .. } => new_chunk == chunk
                && returned_ptr == ptr,
        },
    ensures
        ({
            let s = printed_call(event, caller_symbol, note, config);
            let columns = if event is Realloc { "        "@ } else { "    "@ };
            let label = if event is Realloc { "    new chunk"@ } else { "    chunk"@ };
            match chunk {
                Some(c) => shows_header(s, columns, c),
                None => ptr != 0 ==> shows_line(s, label + ": unavailable"@),
            }
        }),
{
    reveal_strlit("    chunk: unavailable");
    reveal_strlit("    new chunk: unavailable");
    reveal_strlit("    chunk");
    reveal_strlit("    new chunk");
    reveal_strlit(": unavailable");
    assert("    chunk: unavailable"@ =~= "    chunk"@ + ": unavailable"@);
    assert("    new chunk: unavailable"@ =~= "    new chunk"@ + ": unavailable"@);
    let notes = config.on.contains(Switch::TrackerNotes);
    let lines = event::event_lines(event, caller_symbol, note, notes, true);
    let head = seq![event::call_line(event)] + (if notes {
        event::caller_addr_lines(event.caller(), caller_symbol)
    } else {
        Seq::empty()
    });
    let tail = text::when(notes, "    "@ + event::note_text(note));
    let columns = if event is Realloc { "        "@ } else { "    "@ };
    let own = match chunk {
        Some(c) => event::chunk_lines(columns, c),
        None => text::when(
            ptr != 0,
            if event is Realloc { "    new chunk: unavailable"@ } else { "    chunk: unavailable"@ },
        ),
    };
    let between = match event {
        HeapTraceEvent::Realloc { old_chunk, .. } => (match old_chunk {
            Some(c) => seq!["    old chunk:"@] + event::chunk_lines("        "@, c),
            None => Seq::empty(),
        }) + text::when(chunk is Some, "    new chunk:"@),
        _ => Seq::empty(),
    };
    let after = (match event {
        HeapTraceEvent::Free { tcache_entry, .. } => event::tcache_entry_lines(tcache_entry),
        _ => Seq::empty(),
    }) + tail;
    assert(lines =~= (head + between) + own + after);
    if own.len() > 0 {
        text::lemma_shows(lines, head + between, own, after);
    }
    match chunk {
        Some(c) => {
            let flags = event::flags_text(c.flags);
            lemma_flag_words(c);
            assert(own =~= printed_header(columns, c, flags));
            assert(own.len() == 6);
            assert(shows(
                printed_call(event, caller_symbol, note, config),
                printed_header(columns, c, flags),
            ));
            assert(shows_header(printed_call(event, caller_symbol, note, config), columns, c));
        },
        None => if ptr != 0 {
            let label = if event is Realloc { "    new chunk"@ } else { "    chunk"@ };
            assert(own =~= seq![label + ": unavailable"@]);
        },
    }
}

/// Where chunks are on, a `free` prints the link that the freed chunk holds, and a `realloc` the
/// old chunk where it is known.
pub proof fn law_printed_links_and_old_chunks(
    event: HeapTraceEvent,
    caller_symbol: Option<SymbolizedAddress>,
    note: HeapTrackerNote,
    config: RenderConfigView,
)
    requires
        config.on.contains(Switch::Chunks),
    ensures
        ({
            let s = printed_call(event, caller_symbol, note, config);
            match event {
                HeapTraceEvent::Free { tcache_entry: Some(e), .. } => shows(
                    s,
                    seq![
                        "    tcache candidate:"@,
                        "        storage:      "@ + text::hex0x(e.storage_addr as nat),
                        "        encoded_next: "@ + text::hex0x(e.encoded_next as nat),
                        "        decoded_next: "@ + text::hex0x(e.decoded_next as nat),
                    ],
                ),
                HeapTraceEvent::Realloc { old_chunk: Some(c), .. } => shows_line(
                    s,
                    "    old chunk:"@,
                ) && shows_header(s, "        "@, c),
                _ => true,
            }
        }),
{
    let notes = config.on.contains(Switch::TrackerNotes);
    let lines = event::event_lines(event, caller_symbol, note, notes, true);
    let head = seq![event::call_line(event)] + (if notes {
        event::caller_addr_lines(event.caller(), caller_symbol)
    } else {
        Seq::empty()
    });
    let tail = text::when(notes, "    "@ + event::note_text(note));
    assert(printed_call(event, caller_symbol, note, config) == text::unlines(lines));
    match event {
        HeapTraceEvent::Free { ptr, chunk, tcache_entry: Some(e), .. } => {
            let before = head + event::event_chunk_lines(chunk, ptr);
            let own = event::tcache_entry_lines(Some(e));
            assert(lines =~= before + own + tail);
            text::lemma_shows(lines, before, own, tail);
        },
        HeapTraceEvent::Realloc { old_chunk: Some(c), new_chunk, returned_ptr, .. } => {
            let title = seq!["    old chunk:"@];
            let own = event::chunk_lines("        "@, c);
            let flags = event::flags_text(c.flags);
            let rest = (match new_chunk {
                Some(n) => seq!["    new chunk:"@] + event::chunk_lines("        "@, n),
                None => text::when(returned_ptr != 0, "    new chunk: unavailable"@),
            }) + tail;
            lemma_flag_words(c);
            assert(lines =~= (head + title) + own + rest);
            text::lemma_shows(lines, head + title, own, rest);
            assert(lines =~= head + title + (own + rest));
            text::lemma_shows(lines, head, title, own + rest);
            assert(own =~= printed_header("        "@, c, flags));
            assert(shows(text::unlines(lines), printed_header("        "@, c, flags)));
        },
        _ => {},
    }
}

/// Where notes are on and the source file of the caller is known, a line below the caller gives
/// the place.
pub proof fn law_printed_call_tells_its_source(
    event: HeapTraceEvent,
    symbol: SymbolizedAddress,
    note: HeapTrackerNote,
    config: RenderConfigView,
)
    requires
        config.on.contains(Switch::TrackerNotes),
        symbol.source is Some,
        symbol.source->0.file is Some,
    ensures
        ({
            let source = symbol.source->0;
            shows_line(
                printed_call(event, Some(symbol), note, config),
                "    at          "@ + source.file->0@ + (match (source.line, source.column) {
                    (Some(l), Some(c)) => ":"@ + text::dec(l as nat) + ":"@ + text::dec(c as nat),
                    (Some(l), None) => ":"@ + text::dec(l as nat),
                    (None, Some(c)) => ":?:"@ + text::dec(c as nat),
                    (None, None) => Seq::empty(),
                }),
            )
        }),
{
    let lines = event::event_lines(
        event,
        Some(symbol),
        note,
        true,
        config.on.contains(Switch::Chunks),
    );
    let source = symbol.source->0;
    text::lemma_shows_lines(lines);
    assert(lines[2] == "    at          "@ + event::symbol_place(symbol)->0);
    assert(lines[2] =~= "    at          "@ + source.file->0@ + (match (
        source.line,
        source.column,
    ) {
        (Some(l), Some(c)) => ":"@ + text::dec(l as nat) + ":"@ + text::dec(c as nat),
        (Some(l), None) => ":"@ + text::dec(l as nat),
        (None, Some(c)) => ":?:"@ + text::dec(c as nat),
        (None, None) => Seq::empty(),
    }));
}

/// A record of an event is printed where more than events is shown and neither a screen nor
/// records take its place; a record without a text is not.
pub proof fn law_records_are_printed(
    event_id: usize,
    record: JsonTraceRecord,
    config: RenderConfigView,
)
    requires
        !config.on.contains(Switch::LiveTui),
        !config.on.contains(Switch::Json),
        config.json_out is None,
        config.on.contains(Switch::Chunks) || config.on.contains(Switch::TrackerNotes)
            || config.on.contains(Switch::Explanations) || config.on.contains(Switch::Layout),
    ensures
        ({
            let told = worker::update_texts(
                LiveTraceUpdate::RelatedRecord { event_id, record },
                config,
            );
            let s = crate::print_text::printed(record, config.max_layout_chunks);
            &&& s.len() > 0 ==> told == seq![s]
            &&& s.len() == 0 ==> told.len() == 0
        }),
{
}

/// A profile that is little more than a guess is warned of where a view rests on it, more than
/// events is shown, and standard output is free.
pub proof fn law_guessed_profiles_are_warned_of(record: JsonTraceRecord, config: RenderConfigView)
    ensures
        ({
            let told = session::low_confidence_warning(record, config);
            let guessed = record is SessionStart && record->SessionStart_glibc_profile_selection
                is Some && record->SessionStart_glibc_profile_selection->0.confidence is Low;
            let rests = config.on.contains(Switch::MainArenaCandidate) || config.on.contains(
                Switch::MainArenaTopCandidate,
            ) || config.on.contains(Switch::FastbinExperiment) || config.on.contains(
                Switch::UnsortedExperiment,
            ) || config.on.contains(Switch::BinExperiment) || config.on.contains(
                Switch::UnsortedBin,
            ) || config.on.contains(Switch::Fastbins) || config.on.contains(Switch::RegularBins)
                || config.on.contains(Switch::Smallbins) || config.on.contains(Switch::Largebins)
                || config.allocator_views_preset == AllocatorViewsPreset::Full;
            let more = config.on.contains(Switch::Chunks) || config.on.contains(
                Switch::TrackerNotes,
            ) || config.on.contains(Switch::Explanations) || config.on.contains(Switch::Layout);
            let free = !config.on.contains(Switch::Json) || config.json_out is Some;
            &&& told is Some <==> guessed && rests && more && free
            &&& told is Some ==> told->0 == "[heapify] warning: "@
                + "glibc profile confidence is low; profile-backed arena/bin views may be inaccurate"@
        }),
{
}

/// The record of a launch tells where input comes from: nothing of what is inherited, the path of
/// a file, and of a text only its size.
pub proof fn law_input_is_recorded(
    json: crate::record::JsonLaunchMetadata,
    plan: session::ExecPlan,
)
    requires
        session::is_json_launch(json, plan),
    ensures
        match plan.stdin {
            config::StdinConfig::Inherit => json.stdin.kind@ == "inherit"@ && json.stdin.path
                is None && json.stdin.bytes is None,
            config::StdinConfig::File(path) => json.stdin.kind@ == "file"@ && json.stdin.path
                is Some && json.stdin.path->0@ == path@ && json.stdin.bytes is None,
            config::StdinConfig::Text(content) => json.stdin.kind@ == "text"@ && json.stdin.path
                is None && json.stdin.bytes is Some,
        },
        plan.cwd is Some ==> json.cwd is Some && json.cwd->0@ == plan.cwd->0@,
        plan.loader_path is Some ==> json.loader is Some && json.loader->0@ == plan.loader_path->0@,
        plan.preload_path is Some ==> json.preload is Some && json.preload->0@
            == plan.preload_path->0@,
        plan.effective_library_path is Some ==> json.library_path is Some && json.library_path->0@
            == plan.effective_library_path->0@,
        json.set_env@.len() == (if plan.preload_path is Some && plan.env_overrides@.len() > 0 {
            plan.env_overrides@.len() - 1
        } else {
            plan.env_overrides@.len() as int
        }),
{
    let n = session::user_set_count(plan.env_overrides@.len(), plan.preload_path is Some);
    assert(text::texts(json.set_env@).len() == session::keys(plan.env_overrides@, n).len());
}

/// A started session reports its first record; the live screen then learns the memory maps, or
/// why there are none.
pub proof fn law_start_is_reported(
    updates: Seq<LiveTraceUpdate>,
    worker: WorkerView,
    build: Build,
    info: SessionInfo,
)
    requires
        worker::are_start_updates(updates, worker, build, info),
    ensures
        updates.len() > 0,
        updates[0] is SessionStart,
        worker::is_session_start(updates[0]->SessionStart_0.record, worker, build, info),
        !worker.config.on.contains(Switch::LiveTui) ==> updates.len() == 1,
        worker.config.on.contains(Switch::LiveTui) && info.maps is Some ==> updates.len() == 2
            && updates[1] == (LiveTraceUpdate::ProcessMaps { snapshot: info.maps->0 }),
        worker.config.on.contains(Switch::LiveTui) && info.maps is None && info.maps_error is Some
            ==> updates.len() == 2 && updates[1] is Status && updates[1]->Status_message@
            == "process maps read failed: "@ + info.maps_error->0@,
{
}

} // verus!
