//! What each option of a trace command line changes, and what it leaves alone.

use crate::args;
use crate::args::{ScanView, trace_args};
use crate::config;
use crate::config::{
    AllocatorBreakCondition, AllocatorViewsPreset, RenderConfigView, StdinView, Switch,
    TraceModeArg,
};
use crate::number;
use crate::text;
use vstd::prelude::*;

verus! {

/// Whether a command line of options, a program and its arguments is taken, for a session with
/// the given options.
pub open spec fn accepted(
    options: Seq<Seq<char>>,
    program: Seq<char>,
    rest: Seq<Seq<char>>,
    config: RenderConfigView,
) -> bool {
    trace_args(options + seq![program] + rest) == Ok::<
        (RenderConfigView, Seq<char>, Seq<Seq<char>>),
        Seq<char>,
    >((config, program, rest))
}

/// Whether a command line of options, a program and its arguments is turned down.
pub open spec fn refused(
    options: Seq<Seq<char>>,
    program: Seq<char>,
    rest: Seq<Seq<char>>,
    message: Seq<char>,
) -> bool {
    trace_args(options + seq![program] + rest) == Err::<
        (RenderConfigView, Seq<char>, Seq<Seq<char>>),
        Seq<char>,
    >(message)
}

// ---------------------------------------------------------------------------
// Words
// ---------------------------------------------------------------------------

/// The options without a value.
pub open spec fn is_switch_word(word: Seq<char>) -> bool {
    ||| word == "--events-only"@
    ||| word == "--no-chunks"@
    ||| word == "--layout"@
    ||| word == "--all-allocator-views"@
    ||| word == "--heap-scan"@
    ||| word == "--json"@
    ||| word == "--live-tui"@
    ||| word == "--tcache-candidates"@
    ||| word == "--tcache-struct"@
    ||| word == "--main-arena"@
    ||| word == "--arena-experiment"@
    ||| word == "--fastbin-experiment"@
    ||| word == "--unsorted-experiment"@
    ||| word == "--bin-experiment"@
    ||| word == "--unsorted-bin"@
    ||| word == "--fastbins"@
    ||| word == "--regular-bins"@
    ||| word == "--smallbins"@
    ||| word == "--largebins"@
    ||| word == "--main-arena-top"@
    ||| word == "--libc-symbols"@
    ||| word == "--clear-env"@
}

/// The options with a value.
pub open spec fn is_value_word(word: Seq<char>) -> bool {
    ||| word == "--max-layout-chunks"@
    ||| word == "--max-tcache-chain"@
    ||| word == "--max-fastbin-chain"@
    ||| word == "--max-unsorted-chain"@
    ||| word == "--max-regular-bins"@
    ||| word == "--max-smallbin-chain"@
    ||| word == "--max-largebin-chain"@
    ||| word == "--libc"@
    ||| word == "--ld"@
    ||| word == "--library-path"@
    ||| word == "--preload"@
    ||| word == "--cwd"@
    ||| word == "--json-out"@
    ||| word == "--break-on"@
    ||| word == "--break-on-free"@
    ||| word == "--break-on-alloc-size"@
    ||| word == "--allocator-views"@
    ||| word == "--main-arena-offset"@
    ||| word == "--main-arena-top-offset"@
    ||| word == "--trace-mode"@
    ||| word == "--set-env"@
    ||| word == "--unset-env"@
    ||| word == "--stdin-file"@
    ||| word == "--stdin-text"@
    ||| word == "--glibc-profile"@
}

/// No other word is an option, and no option without a value takes one.
pub proof fn law_these_are_the_options(st: ScanView, word: Seq<char>)
    ensures
        args::switch_step(st, word) is Some <==> is_switch_word(word),
        args::takes_value(word) <==> is_value_word(word),
        !(is_switch_word(word) && is_value_word(word)),
        is_switch_word(word) || is_value_word(word) ==> word.len() >= 2 && word[0] == '-' && word[1]
            == '-',
{
    reveal_strlit("--events-only");
    reveal_strlit("--no-chunks");
    reveal_strlit("--layout");
    reveal_strlit("--all-allocator-views");
    reveal_strlit("--heap-scan");
    reveal_strlit("--json");
    reveal_strlit("--live-tui");
    reveal_strlit("--tcache-candidates");
    reveal_strlit("--tcache-struct");
    reveal_strlit("--main-arena");
    reveal_strlit("--arena-experiment");
    reveal_strlit("--fastbin-experiment");
    reveal_strlit("--unsorted-experiment");
    reveal_strlit("--bin-experiment");
    reveal_strlit("--unsorted-bin");
    reveal_strlit("--fastbins");
    reveal_strlit("--regular-bins");
    reveal_strlit("--smallbins");
    reveal_strlit("--largebins");
    reveal_strlit("--main-arena-top");
    reveal_strlit("--libc-symbols");
    reveal_strlit("--clear-env");
    reveal_strlit("--max-layout-chunks");
    reveal_strlit("--max-tcache-chain");
    reveal_strlit("--max-fastbin-chain");
    reveal_strlit("--max-unsorted-chain");
    reveal_strlit("--max-regular-bins");
    reveal_strlit("--max-smallbin-chain");
    reveal_strlit("--max-largebin-chain");
    reveal_strlit("--libc");
    reveal_strlit("--ld");
    reveal_strlit("--library-path");
    reveal_strlit("--preload");
    reveal_strlit("--cwd");
    reveal_strlit("--json-out");
    reveal_strlit("--break-on");
    reveal_strlit("--break-on-free");
    reveal_strlit("--break-on-alloc-size");
    reveal_strlit("--allocator-views");
    reveal_strlit("--main-arena-offset");
    reveal_strlit("--main-arena-top-offset");
    reveal_strlit("--trace-mode");
    reveal_strlit("--set-env");
    reveal_strlit("--unset-env");
    reveal_strlit("--stdin-file");
    reveal_strlit("--stdin-text");
    reveal_strlit("--glibc-profile");
    assert("--events-only"@.len() == 13);
    assert("--no-chunks"@.len() == 11);
    assert("--layout"@.len() == 8);
    assert("--all-allocator-views"@.len() == 21);
    assert("--heap-scan"@.len() == 11);
    assert("--json"@.len() == 6);
    assert("--live-tui"@.len() == 10);
    assert("--tcache-candidates"@.len() == 19);
    assert("--tcache-struct"@.len() == 15);
    assert("--main-arena"@.len() == 12);
    assert("--arena-experiment"@.len() == 18);
    assert("--fastbin-experiment"@.len() == 20);
    assert("--unsorted-experiment"@.len() == 21);
    assert("--bin-experiment"@.len() == 16);
    assert("--unsorted-bin"@.len() == 14);
    assert("--fastbins"@.len() == 10);
    assert("--regular-bins"@.len() == 14);
    assert("--smallbins"@.len() == 11);
    assert("--largebins"@.len() == 11);
    assert("--main-arena-top"@.len() == 16);
    assert("--libc-symbols"@.len() == 14);
    assert("--clear-env"@.len() == 11);
    assert("--max-layout-chunks"@.len() == 19);
    assert("--max-tcache-chain"@.len() == 18);
    assert("--max-fastbin-chain"@.len() == 19);
    assert("--max-unsorted-chain"@.len() == 20);
    assert("--max-regular-bins"@.len() == 18);
    assert("--max-smallbin-chain"@.len() == 20);
    assert("--max-largebin-chain"@.len() == 20);
    assert("--libc"@.len() == 6);
    assert("--ld"@.len() == 4);
    assert("--library-path"@.len() == 14);
    assert("--preload"@.len() == 9);
    assert("--cwd"@.len() == 5);
    assert("--json-out"@.len() == 10);
    assert("--break-on"@.len() == 10);
    assert("--break-on-free"@.len() == 15);
    assert("--break-on-alloc-size"@.len() == 21);
    assert("--allocator-views"@.len() == 17);
    assert("--main-arena-offset"@.len() == 19);
    assert("--main-arena-top-offset"@.len() == 23);
    assert("--trace-mode"@.len() == 12);
    assert("--set-env"@.len() == 9);
    assert("--unset-env"@.len() == 11);
    assert("--stdin-file"@.len() == 12);
    assert("--stdin-text"@.len() == 12);
    assert("--glibc-profile"@.len() == 15);
    assert("--heap-scan"@[2] == 'h');
    assert("--no-chunks"@[2] == 'n');
    assert("--unsorted-experiment"@[2] == 'u');
    assert("--all-allocator-views"@[2] == 'a');
    assert("--fastbins"@[2] == 'f');
    assert("--live-tui"@[2] == 'l');
    assert("--regular-bins"@[2] == 'r');
    assert("--unsorted-bin"@[2] == 'u');
    assert("--smallbins"@[2] == 's');
    assert("--largebins"@[2] == 'l');
    assert("--main-arena-top"@[2] == 'm');
    assert("--bin-experiment"@[2] == 'b');
    assert("--libc-symbols"@[2] == 'l');
    assert("--clear-env"@[2] == 'c');
    assert("--max-layout-chunks"@[2] == 'm');
    assert("--tcache-candidates"@[2] == 't');
    assert("--max-tcache-chain"@[2] == 'm');
    assert("--arena-experiment"@[2] == 'a');
    assert("--max-fastbin-chain"@[2] == 'm');
    assert("--max-fastbin-chain"@[6] == 'f');
    assert("--max-layout-chunks"@[6] == 'l');
    assert("--max-unsorted-chain"@[2] == 'm');
    assert("--fastbin-experiment"@[2] == 'f');
    assert("--max-regular-bins"@[2] == 'm');
    assert("--max-regular-bins"@[6] == 'r');
    assert("--max-tcache-chain"@[6] == 't');
    assert("--max-smallbin-chain"@[2] == 'm');
    assert("--max-smallbin-chain"@[6] == 's');
    assert("--max-unsorted-chain"@[6] == 'u');
    assert("--max-largebin-chain"@[2] == 'm');
    assert("--max-largebin-chain"@[6] == 'l');
    assert("--libc"@[2] == 'l');
    assert("--json"@[2] == 'j');
    assert("--library-path"@[2] == 'l');
    assert("--library-path"@[5] == 'r');
    assert("--libc-symbols"@[5] == 'c');
    assert("--json-out"@[2] == 'j');
    assert("--break-on"@[2] == 'b');
    assert("--break-on-free"@[2] == 'b');
    assert("--tcache-struct"@[2] == 't');
    assert("--break-on-alloc-size"@[2] == 'b');
    assert("--main-arena-offset"@[2] == 'm');
    assert("--main-arena-offset"@[6] == '-');
    assert("--trace-mode"@[2] == 't');
    assert("--main-arena"@[2] == 'm');
    assert("--set-env"@[2] == 's');
    assert("--preload"@[2] == 'p');
    assert("--unset-env"@[2] == 'u');
    assert("--stdin-file"@[2] == 's');
    assert("--stdin-text"@[2] == 's');
    assert("--stdin-text"@[8] == 't');
    assert("--stdin-file"@[8] == 'f');
    assert("--glibc-profile"@[2] == 'g');
    assert("--events-only"@[0] == '-');
    assert("--events-only"@[1] == '-');
    assert("--no-chunks"@[0] == '-');
    assert("--no-chunks"@[1] == '-');
    assert("--layout"@[0] == '-');
    assert("--layout"@[1] == '-');
    assert("--all-allocator-views"@[0] == '-');
    assert("--all-allocator-views"@[1] == '-');
    assert("--heap-scan"@[0] == '-');
    assert("--heap-scan"@[1] == '-');
    assert("--json"@[0] == '-');
    assert("--json"@[1] == '-');
    assert("--live-tui"@[0] == '-');
    assert("--live-tui"@[1] == '-');
    assert("--tcache-candidates"@[0] == '-');
    assert("--tcache-candidates"@[1] == '-');
    assert("--tcache-struct"@[0] == '-');
    assert("--tcache-struct"@[1] == '-');
    assert("--main-arena"@[0] == '-');
    assert("--main-arena"@[1] == '-');
    assert("--arena-experiment"@[0] == '-');
    assert("--arena-experiment"@[1] == '-');
    assert("--fastbin-experiment"@[0] == '-');
    assert("--fastbin-experiment"@[1] == '-');
    assert("--unsorted-experiment"@[0] == '-');
    assert("--unsorted-experiment"@[1] == '-');
    assert("--bin-experiment"@[0] == '-');
    assert("--bin-experiment"@[1] == '-');
    assert("--unsorted-bin"@[0] == '-');
    assert("--unsorted-bin"@[1] == '-');
    assert("--fastbins"@[0] == '-');
    assert("--fastbins"@[1] == '-');
    assert("--regular-bins"@[0] == '-');
    assert("--regular-bins"@[1] == '-');
    assert("--smallbins"@[0] == '-');
    assert("--smallbins"@[1] == '-');
    assert("--largebins"@[0] == '-');
    assert("--largebins"@[1] == '-');
    assert("--main-arena-top"@[0] == '-');
    assert("--main-arena-top"@[1] == '-');
    assert("--libc-symbols"@[0] == '-');
    assert("--libc-symbols"@[1] == '-');
    assert("--clear-env"@[0] == '-');
    assert("--clear-env"@[1] == '-');
    assert("--max-layout-chunks"@[0] == '-');
    assert("--max-layout-chunks"@[1] == '-');
    assert("--max-tcache-chain"@[0] == '-');
    assert("--max-tcache-chain"@[1] == '-');
    assert("--max-fastbin-chain"@[0] == '-');
    assert("--max-fastbin-chain"@[1] == '-');
    assert("--max-unsorted-chain"@[0] == '-');
    assert("--max-unsorted-chain"@[1] == '-');
    assert("--max-regular-bins"@[0] == '-');
    assert("--max-regular-bins"@[1] == '-');
    assert("--max-smallbin-chain"@[0] == '-');
    assert("--max-smallbin-chain"@[1] == '-');
    assert("--max-largebin-chain"@[0] == '-');
    assert("--max-largebin-chain"@[1] == '-');
    assert("--libc"@[0] == '-');
    assert("--libc"@[1] == '-');
    assert("--ld"@[0] == '-');
    assert("--ld"@[1] == '-');
    assert("--library-path"@[0] == '-');
    assert("--library-path"@[1] == '-');
    assert("--preload"@[0] == '-');
    assert("--preload"@[1] == '-');
    assert("--cwd"@[0] == '-');
    assert("--cwd"@[1] == '-');
    assert("--json-out"@[0] == '-');
    assert("--json-out"@[1] == '-');
    assert("--break-on"@[0] == '-');
    assert("--break-on"@[1] == '-');
    assert("--break-on-free"@[0] == '-');
    assert("--break-on-free"@[1] == '-');
    assert("--break-on-alloc-size"@[0] == '-');
    assert("--break-on-alloc-size"@[1] == '-');
    assert("--allocator-views"@[0] == '-');
    assert("--allocator-views"@[1] == '-');
    assert("--main-arena-offset"@[0] == '-');
    assert("--main-arena-offset"@[1] == '-');
    assert("--main-arena-top-offset"@[0] == '-');
    assert("--main-arena-top-offset"@[1] == '-');
    assert("--trace-mode"@[0] == '-');
    assert("--trace-mode"@[1] == '-');
    assert("--set-env"@[0] == '-');
    assert("--set-env"@[1] == '-');
    assert("--unset-env"@[0] == '-');
    assert("--unset-env"@[1] == '-');
    assert("--stdin-file"@[0] == '-');
    assert("--stdin-file"@[1] == '-');
    assert("--stdin-text"@[0] == '-');
    assert("--stdin-text"@[1] == '-');
    assert("--glibc-profile"@[0] == '-');
    assert("--glibc-profile"@[1] == '-');
}

/// What a word adds, told apart from the other words.
proof fn lemma_plain_words()
    ensures
        args::added_switches("--tcache-candidates"@) == Some(set![Switch::TcacheCandidates]),
        args::added_switches("--tcache-struct"@) == Some(set![Switch::TcacheStructCandidate]),
        args::added_switches("--main-arena"@) == Some(set![Switch::MainArenaCandidate]),
        args::added_switches("--arena-experiment"@) == Some(set![Switch::ArenaExperiment, Switch::MainArenaCandidate]),
        args::added_switches("--fastbin-experiment"@) == Some(set![Switch::FastbinExperiment, Switch::MainArenaCandidate]),
        args::added_switches("--unsorted-experiment"@) == Some(set![Switch::UnsortedExperiment, Switch::MainArenaCandidate]),
        args::added_switches("--bin-experiment"@) == Some(set![Switch::BinExperiment, Switch::MainArenaCandidate]),
        args::added_switches("--unsorted-bin"@) == Some(set![Switch::UnsortedBin, Switch::MainArenaCandidate]),
        args::added_switches("--fastbins"@) == Some(set![Switch::Fastbins, Switch::MainArenaCandidate]),
        args::added_switches("--regular-bins"@) == Some(set![Switch::RegularBins, Switch::MainArenaCandidate]),
        args::added_switches("--smallbins"@) == Some(set![Switch::Smallbins, Switch::RegularBins, Switch::MainArenaCandidate]),
        args::added_switches("--largebins"@) == Some(set![Switch::Largebins, Switch::RegularBins, Switch::MainArenaCandidate]),
        args::added_switches("--main-arena-top"@) == Some(set![Switch::MainArenaTopCandidate, Switch::MainArenaCandidate]),
        args::added_switches("--libc-symbols"@) == Some(set![Switch::LibcSymbols]),
        args::added_switches("--clear-env"@) == Some(set![Switch::ClearEnv]),
        args::added_switches("--heap-scan"@) == Some(set![Switch::HeapScan]),
        args::added_switches("--json"@) == Some(set![Switch::Json]),
        args::added_switches("--live-tui"@) == Some(set![Switch::LiveTui]),
{
    reveal_strlit("--events-only");
    reveal_strlit("--no-chunks");
    reveal_strlit("--layout");
    reveal_strlit("--all-allocator-views");
    reveal_strlit("--heap-scan");
    reveal_strlit("--json");
    reveal_strlit("--live-tui");
    reveal_strlit("--tcache-candidates");
    reveal_strlit("--tcache-struct");
    reveal_strlit("--main-arena");
    reveal_strlit("--arena-experiment");
    reveal_strlit("--fastbin-experiment");
    reveal_strlit("--unsorted-experiment");
    reveal_strlit("--bin-experiment");
    reveal_strlit("--unsorted-bin");
    reveal_strlit("--fastbins");
    reveal_strlit("--regular-bins");
    reveal_strlit("--smallbins");
    reveal_strlit("--largebins");
    reveal_strlit("--main-arena-top");
    reveal_strlit("--libc-symbols");
    reveal_strlit("--clear-env");
    assert("--events-only"@.len() == 13);
    assert("--no-chunks"@.len() == 11);
    assert("--layout"@.len() == 8);
    assert("--all-allocator-views"@.len() == 21);
    assert("--heap-scan"@.len() == 11);
    assert("--json"@.len() == 6);
    assert("--live-tui"@.len() == 10);
    assert("--tcache-candidates"@.len() == 19);
    assert("--tcache-struct"@.len() == 15);
    assert("--main-arena"@.len() == 12);
    assert("--arena-experiment"@.len() == 18);
    assert("--fastbin-experiment"@.len() == 20);
    assert("--unsorted-experiment"@.len() == 21);
    assert("--bin-experiment"@.len() == 16);
    assert("--unsorted-bin"@.len() == 14);
    assert("--fastbins"@.len() == 10);
    assert("--regular-bins"@.len() == 14);
    assert("--smallbins"@.len() == 11);
    assert("--largebins"@.len() == 11);
    assert("--main-arena-top"@.len() == 16);
    assert("--libc-symbols"@.len() == 14);
    assert("--clear-env"@.len() == 11);
    assert("--heap-scan"@[2] == 'h');
    assert("--no-chunks"@[2] == 'n');
    assert("--unsorted-experiment"@[2] == 'u');
    assert("--all-allocator-views"@[2] == 'a');
    assert("--fastbins"@[2] == 'f');
    assert("--live-tui"@[2] == 'l');
    assert("--regular-bins"@[2] == 'r');
    assert("--unsorted-bin"@[2] == 'u');
    assert("--smallbins"@[2] == 's');
    assert("--largebins"@[2] == 'l');
    assert("--main-arena-top"@[2] == 'm');
    assert("--bin-experiment"@[2] == 'b');
    assert("--libc-symbols"@[2] == 'l');
    assert("--clear-env"@[2] == 'c');
}

proof fn lemma_limit_words(c: RenderConfigView, n: usize)
    ensures
        args::with_limit(c, "--max-layout-chunks"@, n) == Some(RenderConfigView { max_layout_chunks: n, ..c }),
        args::with_limit(c, "--max-tcache-chain"@, n) == Some(RenderConfigView { max_tcache_chain: n, ..c }),
        args::with_limit(c, "--max-fastbin-chain"@, n) == Some(RenderConfigView { max_fastbin_chain: n, ..c }),
        args::with_limit(c, "--max-unsorted-chain"@, n) == Some(RenderConfigView { max_unsorted_chain: n, ..c }),
        args::with_limit(c, "--max-regular-bins"@, n) == Some(RenderConfigView { max_regular_bins: n, ..c }),
        args::with_limit(c, "--max-smallbin-chain"@, n) == Some(RenderConfigView { max_smallbin_chain: n, ..c }),
        args::with_limit(c, "--max-largebin-chain"@, n) == Some(RenderConfigView { max_largebin_chain: n, ..c }),
{
    reveal_strlit("--max-layout-chunks");
    reveal_strlit("--max-tcache-chain");
    reveal_strlit("--max-fastbin-chain");
    reveal_strlit("--max-unsorted-chain");
    reveal_strlit("--max-regular-bins");
    reveal_strlit("--max-smallbin-chain");
    reveal_strlit("--max-largebin-chain");
    assert("--max-layout-chunks"@.len() == 19);
    assert("--max-tcache-chain"@.len() == 18);
    assert("--max-fastbin-chain"@.len() == 19);
    assert("--max-unsorted-chain"@.len() == 20);
    assert("--max-regular-bins"@.len() == 18);
    assert("--max-smallbin-chain"@.len() == 20);
    assert("--max-largebin-chain"@.len() == 20);
    assert("--max-fastbin-chain"@[6] == 'f');
    assert("--max-layout-chunks"@[6] == 'l');
    assert("--max-regular-bins"@[6] == 'r');
    assert("--max-tcache-chain"@[6] == 't');
    assert("--max-smallbin-chain"@[6] == 's');
    assert("--max-unsorted-chain"@[6] == 'u');
    assert("--max-largebin-chain"@[6] == 'l');
}

proof fn lemma_path_words(c: RenderConfigView, path: Seq<char>)
    ensures
        args::with_path(c, "--libc"@, path) == Some(RenderConfigView { supplied_libc_path: Some(path), ..c }),
        args::with_path(c, "--ld"@, path) == Some(RenderConfigView { loader_path: Some(path), ..c }),
        args::with_path(c, "--library-path"@, path) == Some(RenderConfigView { library_path: Some(path), ..c }),
        args::with_path(c, "--preload"@, path) == Some(RenderConfigView { preload_path: Some(path), ..c }),
        args::with_path(c, "--cwd"@, path) == Some(RenderConfigView { cwd: Some(path), ..c }),
        args::with_path(c, "--json-out"@, path) == Some(RenderConfigView { json_out: Some(path), ..c }),
{
    reveal_strlit("--libc");
    reveal_strlit("--ld");
    reveal_strlit("--library-path");
    reveal_strlit("--preload");
    reveal_strlit("--cwd");
    reveal_strlit("--json-out");
    assert("--libc"@.len() == 6);
    assert("--ld"@.len() == 4);
    assert("--library-path"@.len() == 14);
    assert("--preload"@.len() == 9);
    assert("--cwd"@.len() == 5);
    assert("--json-out"@.len() == 10);
}

/// The words with rules of their own are none of the plain ones, nor one of the others.
proof fn lemma_single_words()
    ensures
        "--events-only"@ != "--no-chunks"@ && "--events-only"@ != "--layout"@ && "--events-only"@ != "--all-allocator-views"@,
        args::added_switches("--events-only"@) is None,
        "--no-chunks"@ != "--events-only"@ && "--no-chunks"@ != "--layout"@ && "--no-chunks"@ != "--all-allocator-views"@,
        args::added_switches("--no-chunks"@) is None,
        "--layout"@ != "--events-only"@ && "--layout"@ != "--no-chunks"@ && "--layout"@ != "--all-allocator-views"@,
        args::added_switches("--layout"@) is None,
        "--all-allocator-views"@ != "--events-only"@ && "--all-allocator-views"@ != "--no-chunks"@ && "--all-allocator-views"@ != "--layout"@,
        args::added_switches("--all-allocator-views"@) is None,
        "--tcache-candidates"@ != "--events-only"@ && "--tcache-candidates"@ != "--no-chunks"@ && "--tcache-candidates"@ != "--layout"@ && "--tcache-candidates"@ != "--all-allocator-views"@,
        "--tcache-struct"@ != "--events-only"@ && "--tcache-struct"@ != "--no-chunks"@ && "--tcache-struct"@ != "--layout"@ && "--tcache-struct"@ != "--all-allocator-views"@,
        "--main-arena"@ != "--events-only"@ && "--main-arena"@ != "--no-chunks"@ && "--main-arena"@ != "--layout"@ && "--main-arena"@ != "--all-allocator-views"@,
        "--arena-experiment"@ != "--events-only"@ && "--arena-experiment"@ != "--no-chunks"@ && "--arena-experiment"@ != "--layout"@ && "--arena-experiment"@ != "--all-allocator-views"@,
        "--fastbin-experiment"@ != "--events-only"@ && "--fastbin-experiment"@ != "--no-chunks"@ && "--fastbin-experiment"@ != "--layout"@ && "--fastbin-experiment"@ != "--all-allocator-views"@,
        "--unsorted-experiment"@ != "--events-only"@ && "--unsorted-experiment"@ != "--no-chunks"@ && "--unsorted-experiment"@ != "--layout"@ && "--unsorted-experiment"@ != "--all-allocator-views"@,
        "--bin-experiment"@ != "--events-only"@ && "--bin-experiment"@ != "--no-chunks"@ && "--bin-experiment"@ != "--layout"@ && "--bin-experiment"@ != "--all-allocator-views"@,
        "--unsorted-bin"@ != "--events-only"@ && "--unsorted-bin"@ != "--no-chunks"@ && "--unsorted-bin"@ != "--layout"@ && "--unsorted-bin"@ != "--all-allocator-views"@,
        "--fastbins"@ != "--events-only"@ && "--fastbins"@ != "--no-chunks"@ && "--fastbins"@ != "--layout"@ && "--fastbins"@ != "--all-allocator-views"@,
        "--regular-bins"@ != "--events-only"@ && "--regular-bins"@ != "--no-chunks"@ && "--regular-bins"@ != "--layout"@ && "--regular-bins"@ != "--all-allocator-views"@,
        "--smallbins"@ != "--events-only"@ && "--smallbins"@ != "--no-chunks"@ && "--smallbins"@ != "--layout"@ && "--smallbins"@ != "--all-allocator-views"@,
        "--largebins"@ != "--events-only"@ && "--largebins"@ != "--no-chunks"@ && "--largebins"@ != "--layout"@ && "--largebins"@ != "--all-allocator-views"@,
        "--main-arena-top"@ != "--events-only"@ && "--main-arena-top"@ != "--no-chunks"@ && "--main-arena-top"@ != "--layout"@ && "--main-arena-top"@ != "--all-allocator-views"@,
        "--libc-symbols"@ != "--events-only"@ && "--libc-symbols"@ != "--no-chunks"@ && "--libc-symbols"@ != "--layout"@ && "--libc-symbols"@ != "--all-allocator-views"@,
        "--clear-env"@ != "--events-only"@ && "--clear-env"@ != "--no-chunks"@ && "--clear-env"@ != "--layout"@ && "--clear-env"@ != "--all-allocator-views"@,
        "--heap-scan"@ != "--events-only"@ && "--heap-scan"@ != "--no-chunks"@ && "--heap-scan"@ != "--layout"@ && "--heap-scan"@ != "--all-allocator-views"@,
        "--json"@ != "--events-only"@ && "--json"@ != "--no-chunks"@ && "--json"@ != "--layout"@ && "--json"@ != "--all-allocator-views"@,
        "--live-tui"@ != "--events-only"@ && "--live-tui"@ != "--no-chunks"@ && "--live-tui"@ != "--layout"@ && "--live-tui"@ != "--all-allocator-views"@,
{
    reveal_strlit("--events-only");
    reveal_strlit("--no-chunks");
    reveal_strlit("--layout");
    reveal_strlit("--all-allocator-views");
    reveal_strlit("--heap-scan");
    reveal_strlit("--json");
    reveal_strlit("--live-tui");
    reveal_strlit("--tcache-candidates");
    reveal_strlit("--tcache-struct");
    reveal_strlit("--main-arena");
    reveal_strlit("--arena-experiment");
    reveal_strlit("--fastbin-experiment");
    reveal_strlit("--unsorted-experiment");
    reveal_strlit("--bin-experiment");
    reveal_strlit("--unsorted-bin");
    reveal_strlit("--fastbins");
    reveal_strlit("--regular-bins");
    reveal_strlit("--smallbins");
    reveal_strlit("--largebins");
    reveal_strlit("--main-arena-top");
    reveal_strlit("--libc-symbols");
    reveal_strlit("--clear-env");
    assert("--events-only"@.len() == 13);
    assert("--no-chunks"@.len() == 11);
    assert("--layout"@.len() == 8);
    assert("--all-allocator-views"@.len() == 21);
    assert("--heap-scan"@.len() == 11);
    assert("--json"@.len() == 6);
    assert("--live-tui"@.len() == 10);
    assert("--tcache-candidates"@.len() == 19);
    assert("--tcache-struct"@.len() == 15);
    assert("--main-arena"@.len() == 12);
    assert("--arena-experiment"@.len() == 18);
    assert("--fastbin-experiment"@.len() == 20);
    assert("--unsorted-experiment"@.len() == 21);
    assert("--bin-experiment"@.len() == 16);
    assert("--unsorted-bin"@.len() == 14);
    assert("--fastbins"@.len() == 10);
    assert("--regular-bins"@.len() == 14);
    assert("--smallbins"@.len() == 11);
    assert("--largebins"@.len() == 11);
    assert("--main-arena-top"@.len() == 16);
    assert("--libc-symbols"@.len() == 14);
    assert("--clear-env"@.len() == 11);
    assert("--heap-scan"@[2] == 'h');
    assert("--no-chunks"@[2] == 'n');
    assert("--unsorted-experiment"@[2] == 'u');
    assert("--all-allocator-views"@[2] == 'a');
    assert("--fastbins"@[2] == 'f');
    assert("--live-tui"@[2] == 'l');
    assert("--regular-bins"@[2] == 'r');
    assert("--unsorted-bin"@[2] == 'u');
    assert("--smallbins"@[2] == 's');
    assert("--largebins"@[2] == 'l');
    assert("--main-arena-top"@[2] == 'm');
    assert("--bin-experiment"@[2] == 'b');
    assert("--libc-symbols"@[2] == 'l');
    assert("--clear-env"@[2] == 'c');
}

proof fn lemma_value_words()
    ensures
        !args::is_limit_option("--break-on"@),
        !args::is_path_option("--break-on"@),
        !args::is_limit_option("--break-on-free"@),
        !args::is_path_option("--break-on-free"@),
        "--break-on-free"@ != "--break-on"@,
        !args::is_limit_option("--break-on-alloc-size"@),
        !args::is_path_option("--break-on-alloc-size"@),
        "--break-on-alloc-size"@ != "--break-on"@ && "--break-on-alloc-size"@ != "--break-on-free"@,
        !args::is_limit_option("--allocator-views"@),
        !args::is_path_option("--allocator-views"@),
        "--allocator-views"@ != "--break-on"@ && "--allocator-views"@ != "--break-on-free"@ && "--allocator-views"@ != "--break-on-alloc-size"@,
        !args::is_limit_option("--main-arena-offset"@),
        !args::is_path_option("--main-arena-offset"@),
        "--main-arena-offset"@ != "--break-on"@ && "--main-arena-offset"@ != "--break-on-free"@ && "--main-arena-offset"@ != "--break-on-alloc-size"@ && "--main-arena-offset"@ != "--allocator-views"@,
        !args::is_limit_option("--main-arena-top-offset"@),
        !args::is_path_option("--main-arena-top-offset"@),
        "--main-arena-top-offset"@ != "--break-on"@ && "--main-arena-top-offset"@ != "--break-on-free"@ && "--main-arena-top-offset"@ != "--break-on-alloc-size"@ && "--main-arena-top-offset"@ != "--allocator-views"@ && "--main-arena-top-offset"@ != "--main-arena-offset"@,
        !args::is_limit_option("--trace-mode"@),
        !args::is_path_option("--trace-mode"@),
        "--trace-mode"@ != "--break-on"@ && "--trace-mode"@ != "--break-on-free"@ && "--trace-mode"@ != "--break-on-alloc-size"@ && "--trace-mode"@ != "--allocator-views"@ && "--trace-mode"@ != "--main-arena-offset"@ && "--trace-mode"@ != "--main-arena-top-offset"@,
        !args::is_limit_option("--set-env"@),
        !args::is_path_option("--set-env"@),
        "--set-env"@ != "--break-on"@ && "--set-env"@ != "--break-on-free"@ && "--set-env"@ != "--break-on-alloc-size"@ && "--set-env"@ != "--allocator-views"@ && "--set-env"@ != "--main-arena-offset"@ && "--set-env"@ != "--main-arena-top-offset"@ && "--set-env"@ != "--trace-mode"@,
        !args::is_limit_option("--unset-env"@),
        !args::is_path_option("--unset-env"@),
        "--unset-env"@ != "--break-on"@ && "--unset-env"@ != "--break-on-free"@ && "--unset-env"@ != "--break-on-alloc-size"@ && "--unset-env"@ != "--allocator-views"@ && "--unset-env"@ != "--main-arena-offset"@ && "--unset-env"@ != "--main-arena-top-offset"@ && "--unset-env"@ != "--trace-mode"@ && "--unset-env"@ != "--set-env"@,
        !args::is_limit_option("--stdin-file"@),
        !args::is_path_option("--stdin-file"@),
        "--stdin-file"@ != "--break-on"@ && "--stdin-file"@ != "--break-on-free"@ && "--stdin-file"@ != "--break-on-alloc-size"@ && "--stdin-file"@ != "--allocator-views"@ && "--stdin-file"@ != "--main-arena-offset"@ && "--stdin-file"@ != "--main-arena-top-offset"@ && "--stdin-file"@ != "--trace-mode"@ && "--stdin-file"@ != "--set-env"@ && "--stdin-file"@ != "--unset-env"@,
        !args::is_limit_option("--stdin-text"@),
        !args::is_path_option("--stdin-text"@),
        "--stdin-text"@ != "--break-on"@ && "--stdin-text"@ != "--break-on-free"@ && "--stdin-text"@ != "--break-on-alloc-size"@ && "--stdin-text"@ != "--allocator-views"@ && "--stdin-text"@ != "--main-arena-offset"@ && "--stdin-text"@ != "--main-arena-top-offset"@ && "--stdin-text"@ != "--trace-mode"@ && "--stdin-text"@ != "--set-env"@ && "--stdin-text"@ != "--unset-env"@ && "--stdin-text"@ != "--stdin-file"@,
        !args::is_limit_option("--glibc-profile"@),
        !args::is_path_option("--glibc-profile"@),
        "--glibc-profile"@ != "--break-on"@ && "--glibc-profile"@ != "--break-on-free"@ && "--glibc-profile"@ != "--break-on-alloc-size"@ && "--glibc-profile"@ != "--allocator-views"@ && "--glibc-profile"@ != "--main-arena-offset"@ && "--glibc-profile"@ != "--main-arena-top-offset"@ && "--glibc-profile"@ != "--trace-mode"@ && "--glibc-profile"@ != "--set-env"@ && "--glibc-profile"@ != "--unset-env"@ && "--glibc-profile"@ != "--stdin-file"@ && "--glibc-profile"@ != "--stdin-text"@,
        args::is_limit_option("--max-layout-chunks"@),
        "--max-layout-chunks"@ != "--allocator-views"@,
        args::is_limit_option("--max-tcache-chain"@),
        "--max-tcache-chain"@ != "--allocator-views"@,
        args::is_limit_option("--max-fastbin-chain"@),
        "--max-fastbin-chain"@ != "--allocator-views"@,
        args::is_limit_option("--max-unsorted-chain"@),
        "--max-unsorted-chain"@ != "--allocator-views"@,
        args::is_limit_option("--max-regular-bins"@),
        "--max-regular-bins"@ != "--allocator-views"@,
        args::is_limit_option("--max-smallbin-chain"@),
        "--max-smallbin-chain"@ != "--allocator-views"@,
        args::is_limit_option("--max-largebin-chain"@),
        "--max-largebin-chain"@ != "--allocator-views"@,
        !args::is_limit_option("--libc"@),
        args::is_path_option("--libc"@),
        "--libc"@ != "--allocator-views"@,
        !args::is_limit_option("--ld"@),
        args::is_path_option("--ld"@),
        "--ld"@ != "--allocator-views"@,
        !args::is_limit_option("--library-path"@),
        args::is_path_option("--library-path"@),
        "--library-path"@ != "--allocator-views"@,
        !args::is_limit_option("--preload"@),
        args::is_path_option("--preload"@),
        "--preload"@ != "--allocator-views"@,
        !args::is_limit_option("--cwd"@),
        args::is_path_option("--cwd"@),
        "--cwd"@ != "--allocator-views"@,
        !args::is_limit_option("--json-out"@),
        args::is_path_option("--json-out"@),
        "--json-out"@ != "--allocator-views"@,
{
    reveal_strlit("--max-layout-chunks");
    reveal_strlit("--max-tcache-chain");
    reveal_strlit("--max-fastbin-chain");
    reveal_strlit("--max-unsorted-chain");
    reveal_strlit("--max-regular-bins");
    reveal_strlit("--max-smallbin-chain");
    reveal_strlit("--max-largebin-chain");
    reveal_strlit("--libc");
    reveal_strlit("--ld");
    reveal_strlit("--library-path");
    reveal_strlit("--preload");
    reveal_strlit("--cwd");
    reveal_strlit("--json-out");
    reveal_strlit("--break-on");
    reveal_strlit("--break-on-free");
    reveal_strlit("--break-on-alloc-size");
    reveal_strlit("--allocator-views");
    reveal_strlit("--main-arena-offset");
    reveal_strlit("--main-arena-top-offset");
    reveal_strlit("--trace-mode");
    reveal_strlit("--set-env");
    reveal_strlit("--unset-env");
    reveal_strlit("--stdin-file");
    reveal_strlit("--stdin-text");
    reveal_strlit("--glibc-profile");
    assert("--max-layout-chunks"@.len() == 19);
    assert("--max-tcache-chain"@.len() == 18);
    assert("--max-fastbin-chain"@.len() == 19);
    assert("--max-unsorted-chain"@.len() == 20);
    assert("--max-regular-bins"@.len() == 18);
    assert("--max-smallbin-chain"@.len() == 20);
    assert("--max-largebin-chain"@.len() == 20);
    assert("--libc"@.len() == 6);
    assert("--ld"@.len() == 4);
    assert("--library-path"@.len() == 14);
    assert("--preload"@.len() == 9);
    assert("--cwd"@.len() == 5);
    assert("--json-out"@.len() == 10);
    assert("--break-on"@.len() == 10);
    assert("--break-on-free"@.len() == 15);
    assert("--break-on-alloc-size"@.len() == 21);
    assert("--allocator-views"@.len() == 17);
    assert("--main-arena-offset"@.len() == 19);
    assert("--main-arena-top-offset"@.len() == 23);
    assert("--trace-mode"@.len() == 12);
    assert("--set-env"@.len() == 9);
    assert("--unset-env"@.len() == 11);
    assert("--stdin-file"@.len() == 12);
    assert("--stdin-text"@.len() == 12);
    assert("--glibc-profile"@.len() == 15);
    assert("--max-fastbin-chain"@[6] == 'f');
    assert("--max-layout-chunks"@[6] == 'l');
    assert("--max-regular-bins"@[6] == 'r');
    assert("--max-tcache-chain"@[6] == 't');
    assert("--max-smallbin-chain"@[6] == 's');
    assert("--max-unsorted-chain"@[6] == 'u');
    assert("--max-largebin-chain"@[6] == 'l');
    assert("--break-on"@[2] == 'b');
    assert("--json-out"@[2] == 'j');
    assert("--main-arena-offset"@[6] == '-');
    assert("--set-env"@[2] == 's');
    assert("--preload"@[2] == 'p');
    assert("--stdin-file"@[2] == 's');
    assert("--trace-mode"@[2] == 't');
    assert("--stdin-text"@[2] == 's');
    assert("--stdin-text"@[8] == 't');
    assert("--stdin-file"@[8] == 'f');
    assert("--glibc-profile"@[2] == 'g');
    assert("--break-on-free"@[2] == 'b');
}

// ---------------------------------------------------------------------------
// One more option
// ---------------------------------------------------------------------------

/// What holds of the switches for per-event text: notes and explanations go together, and where
/// they are off so are chunks and, up to the presets, the layout.
pub open spec fn text_switches_agree(st: ScanView) -> bool {
    &&& st.config.on.contains(Switch::TrackerNotes) <==> !st.events_only
    &&& st.config.on.contains(Switch::Explanations) <==> !st.events_only
    &&& st.config.on.contains(Switch::Chunks) ==> !st.events_only
    &&& st.config.on.contains(Switch::Layout) ==> !st.events_only
}

proof fn lemma_text_switches(words: Seq<Seq<char>>, i: int, st: ScanView)
    requires
        0 <= i,
        text_switches_agree(st),
        args::scan(words, i, st) is Ok,
    ensures
        text_switches_agree(args::scan(words, i, st)->Ok_0.0),
    decreases words.len() - i,
{
    if i < words.len() {
        match args::switch_step(st, words[i]) {
            Some(next) => {
                assert(text_switches_agree(next));
                lemma_text_switches(words, i + 1, next);
            },
            None => if args::takes_value(words[i]) && i + 1 < words.len() {
                let next = args::value_step(st, words[i], words[i + 1])->Ok_0;
                assert(text_switches_agree(next));
                lemma_text_switches(words, i + 2, next);
            },
        }
    }
}

/// The session that the state behind the options stands for.
pub open spec fn outcome(st: ScanView) -> Result<RenderConfigView, Seq<char>> {
    match args::resolved_preset(st.views_arg, st.all_views) {
        Err(m) => Err(m),
        Ok(preset) => {
            let c = args::without_orphan_views(args::with_preset(st.config, preset));
            if c.on.contains(Switch::LiveTui) && c.on.contains(Switch::Json) {
                Err(
                    "--live-tui conflicts with --json stdout mode; use --json-out PATH to save a trace"@,
                )
            } else if c.on.contains(Switch::LiveTui) && st.events_only {
                Err("--live-tui conflicts with --events-only"@)
            } else {
                Ok(c)
            }
        },
    }
}

/// Where a command line is taken, its options were read up to the program.
proof fn lemma_options_end(
    options: Seq<Seq<char>>,
    program: Seq<char>,
    rest: Seq<Seq<char>>,
    config: RenderConfigView,
) -> (st: ScanView)
    requires
        accepted(options, program, rest, config),
    ensures
        args::scan(options + seq![program] + rest, 0, args::scan_start()) == Ok::<
            (ScanView, int),
            Seq<char>,
        >((st, options.len() as int)),
        !is_switch_word(program),
        !is_value_word(program),
        text_switches_agree(st),
        outcome(st) == Ok::<RenderConfigView, Seq<char>>(config),
{
    let words = options + seq![program] + rest;
    let (st, at) = args::scan(words, 0, args::scan_start())->Ok_0;
    args::lemma_scan_goes_on(words, 0, args::scan_start());
    assert(words.skip(at + 1).len() == rest.len());
    assert(at == options.len());
    assert(words[at] == program);
    lemma_scan_end(words, 0, args::scan_start());
    law_these_are_the_options(st, program);
    lemma_text_switches(words, 0, args::scan_start());
    st
}

/// The word at which the options end is none.
proof fn lemma_scan_end(words: Seq<Seq<char>>, i: int, st: ScanView)
    requires
        0 <= i <= words.len(),
        args::scan(words, i, st) is Ok,
        args::scan(words, i, st)->Ok_0.1 < words.len(),
    ensures
        ({
            let (last, at) = args::scan(words, i, st)->Ok_0;
            args::switch_step(last, words[at]) is None && !args::takes_value(words[at])
        }),
    decreases words.len() - i,
{
    if i < words.len() {
        match args::switch_step(st, words[i]) {
            Some(next) => {
                lemma_scan_end(words, i + 1, next);
            },
            None => if args::takes_value(words[i]) && i + 1 < words.len() {
                lemma_scan_end(words, i + 2, args::value_step(st, words[i], words[i + 1])->Ok_0);
            },
        }
    }
}

/// Reading goes on where the same words ended before.
proof fn lemma_scan_joins(
    words: Seq<Seq<char>>,
    longer: Seq<Seq<char>>,
    i: int,
    st: ScanView,
    last: ScanView,
    at: int,
)
    requires
        0 <= i <= at < words.len(),
        at <= longer.len(),
        args::scan(words, i, st) == Ok::<(ScanView, int), Seq<char>>((last, at)),
        forall|k: int| 0 <= k < at ==> #[trigger] longer[k] == words[k],
    ensures
        args::scan(longer, i, st) == args::scan(longer, at, last),
    decreases at - i,
{
    if i < at {
        assert(longer[i] == words[i]);
        match args::switch_step(st, words[i]) {
            Some(next) => {
                lemma_scan_joins(words, longer, i + 1, next, last, at);
            },
            None => {
                let next = args::value_step(st, words[i], words[i + 1])->Ok_0;
                args::lemma_scan_goes_on(words, i + 2, next);
                assert(longer[i + 1] == words[i + 1]);
                lemma_scan_joins(words, longer, i + 2, next, last, at);
            },
        }
    } else {
        match args::switch_step(st, words[i]) {
            Some(next) => {
                args::lemma_scan_goes_on(words, i + 1, next);
            },
            None => if args::takes_value(words[i]) && i + 1 < words.len() {
                args::lemma_scan_goes_on(
                    words,
                    i + 2,
                    args::value_step(st, words[i], words[i + 1])->Ok_0,
                );
            },
        }
    }
}

/// One more option without a value is read after the others.
proof fn lemma_switch_option(
    options: Seq<Seq<char>>,
    word: Seq<char>,
    program: Seq<char>,
    rest: Seq<Seq<char>>,
    config: RenderConfigView,
    st: ScanView,
)
    requires
        accepted(options, program, rest, config),
        args::scan(options + seq![program] + rest, 0, args::scan_start()) == Ok::<
            (ScanView, int),
            Seq<char>,
        >((st, options.len() as int)),
        !is_switch_word(program),
        !is_value_word(program),
        args::switch_step(st, word) is Some,
    ensures
        match outcome(args::switch_step(st, word)->0) {
            Ok(c) => accepted(options.push(word), program, rest, c),
            Err(m) => refused(options.push(word), program, rest, m),
        },
{
    let words = options + seq![program] + rest;
    let longer = options.push(word) + seq![program] + rest;
    let n = options.len() as int;
    let next = args::switch_step(st, word)->0;
    lemma_scan_joins(words, longer, 0, args::scan_start(), st, n);
    assert(longer[n] == word);
    assert(longer[n + 1] == program);
    law_these_are_the_options(next, program);
    assert(args::scan(longer, n + 1, next) == Ok::<(ScanView, int), Seq<char>>((next, n + 1)));
    assert(longer.skip(n + 2) =~= rest);
}

/// One more option with a value is read after the others.
proof fn lemma_value_option(
    options: Seq<Seq<char>>,
    word: Seq<char>,
    value: Seq<char>,
    program: Seq<char>,
    rest: Seq<Seq<char>>,
    config: RenderConfigView,
    st: ScanView,
)
    requires
        accepted(options, program, rest, config),
        args::scan(options + seq![program] + rest, 0, args::scan_start()) == Ok::<
            (ScanView, int),
            Seq<char>,
        >((st, options.len() as int)),
        !is_switch_word(program),
        !is_value_word(program),
        is_value_word(word),
    ensures
        match args::value_step(st, word, value) {
            Ok(next) => match outcome(next) {
                Ok(c) => accepted(options.push(word).push(value), program, rest, c),
                Err(m) => refused(options.push(word).push(value), program, rest, m),
            },
            Err(m) => refused(options.push(word).push(value), program, rest, m),
        },
{
    let words = options + seq![program] + rest;
    let longer = options.push(word).push(value) + seq![program] + rest;
    let n = options.len() as int;
    lemma_scan_joins(words, longer, 0, args::scan_start(), st, n);
    law_these_are_the_options(st, word);
    assert(longer[n] == word);
    assert(longer[n + 1] == value);
    assert(longer[n + 2] == program);
    if args::value_step(st, word, value) is Ok {
        let next = args::value_step(st, word, value)->Ok_0;
        law_these_are_the_options(next, program);
        assert(args::scan(longer, n + 2, next) == Ok::<(ScanView, int), Seq<char>>((next, n + 2)));
        assert(longer.skip(n + 3) =~= rest);
    }
}

/// One more plain option adds its switches.
proof fn lemma_plain_option(
    options: Seq<Seq<char>>,
    word: Seq<char>,
    program: Seq<char>,
    rest: Seq<Seq<char>>,
    config: RenderConfigView,
    switches: Set<Switch>,
)
    requires
        accepted(options, program, rest, config),
        args::added_switches(word) == Some(switches),
        word != "--events-only"@ && word != "--no-chunks"@ && word != "--layout"@ && word
            != "--all-allocator-views"@,
        !switches.contains(Switch::Chunks),
        !switches.contains(Switch::TrackerNotes),
        !switches.contains(Switch::Explanations),
        !switches.contains(Switch::Layout),
        !switches.contains(Switch::HeapScan),
        !switches.contains(Switch::Json),
        !switches.contains(Switch::LiveTui),
    ensures
        turns_on(options, word, program, rest, config, switches),
{
    let st = lemma_options_end(options, program, rest, config);
    lemma_switch_option(options, word, program, rest, config, st);
    let next = args::switch_step(st, word)->0;
    assert(outcome(next)->Ok_0.on =~= config.on.union(switches));
}

/// Whether one more option only turns these switches on.
pub open spec fn turns_on(
    options: Seq<Seq<char>>,
    word: Seq<char>,
    program: Seq<char>,
    rest: Seq<Seq<char>>,
    config: RenderConfigView,
    switches: Set<Switch>,
) -> bool {
    accepted(
        options.push(word),
        program,
        rest,
        RenderConfigView { on: config.on.union(switches), ..config },
    )
}

/// An option for a view, for libc symbols or for an empty environment turns on its own switch
/// and those of the views that it needs, and changes nothing else.
pub proof fn law_plain_options(
    options: Seq<Seq<char>>,
    program: Seq<char>,
    rest: Seq<Seq<char>>,
    config: RenderConfigView,
)
    requires
        accepted(options, program, rest, config),
    ensures
        turns_on(
            options,
            "--tcache-candidates"@,
            program,
            rest,
            config,
            set![Switch::TcacheCandidates],
        ),
        turns_on(
            options,
            "--tcache-struct"@,
            program,
            rest,
            config,
            set![Switch::TcacheStructCandidate],
        ),
        turns_on(
            options,
            "--main-arena"@,
            program,
            rest,
            config,
            set![Switch::MainArenaCandidate],
        ),
        turns_on(
            options,
            "--arena-experiment"@,
            program,
            rest,
            config,
            set![Switch::ArenaExperiment, Switch::MainArenaCandidate],
        ),
        turns_on(
            options,
            "--fastbin-experiment"@,
            program,
            rest,
            config,
            set![Switch::FastbinExperiment, Switch::MainArenaCandidate],
        ),
        turns_on(
            options,
            "--unsorted-experiment"@,
            program,
            rest,
            config,
            set![Switch::UnsortedExperiment, Switch::MainArenaCandidate],
        ),
        turns_on(
            options,
            "--bin-experiment"@,
            program,
            rest,
            config,
            set![Switch::BinExperiment, Switch::MainArenaCandidate],
        ),
        turns_on(
            options,
            "--unsorted-bin"@,
            program,
            rest,
            config,
            set![Switch::UnsortedBin, Switch::MainArenaCandidate],
        ),
        turns_on(
            options,
            "--fastbins"@,
            program,
            rest,
            config,
            set![Switch::Fastbins, Switch::MainArenaCandidate],
        ),
        turns_on(
            options,
            "--regular-bins"@,
            program,
            rest,
            config,
            set![Switch::RegularBins, Switch::MainArenaCandidate],
        ),
        turns_on(
            options,
            "--smallbins"@,
            program,
            rest,
            config,
            set![Switch::Smallbins, Switch::RegularBins, Switch::MainArenaCandidate],
        ),
        turns_on(
            options,
            "--largebins"@,
            program,
            rest,
            config,
            set![Switch::Largebins, Switch::RegularBins, Switch::MainArenaCandidate],
        ),
        turns_on(
            options,
            "--main-arena-top"@,
            program,
            rest,
            config,
            set![Switch::MainArenaTopCandidate, Switch::MainArenaCandidate],
        ),
        turns_on(
            options,
            "--libc-symbols"@,
            program,
            rest,
            config,
            set![Switch::LibcSymbols],
        ),
        turns_on(
            options,
            "--clear-env"@,
            program,
            rest,
            config,
            set![Switch::ClearEnv],
        ),
{
    lemma_plain_words();
    lemma_single_words();
    lemma_plain_option(
        options,
        "--tcache-candidates"@,
        program,
        rest,
        config,
        set![Switch::TcacheCandidates],
    );
    lemma_plain_option(
        options,
        "--tcache-struct"@,
        program,
        rest,
        config,
        set![Switch::TcacheStructCandidate],
    );
    lemma_plain_option(
        options,
        "--main-arena"@,
        program,
        rest,
        config,
        set![Switch::MainArenaCandidate],
    );
    lemma_plain_option(
        options,
        "--arena-experiment"@,
        program,
        rest,
        config,
        set![Switch::ArenaExperiment, Switch::MainArenaCandidate],
    );
    lemma_plain_option(
        options,
        "--fastbin-experiment"@,
        program,
        rest,
        config,
        set![Switch::FastbinExperiment, Switch::MainArenaCandidate],
    );
    lemma_plain_option(
        options,
        "--unsorted-experiment"@,
        program,
        rest,
        config,
        set![Switch::UnsortedExperiment, Switch::MainArenaCandidate],
    );
    lemma_plain_option(
        options,
        "--bin-experiment"@,
        program,
        rest,
        config,
        set![Switch::BinExperiment, Switch::MainArenaCandidate],
    );
    lemma_plain_option(
        options,
        "--unsorted-bin"@,
        program,
        rest,
        config,
        set![Switch::UnsortedBin, Switch::MainArenaCandidate],
    );
    lemma_plain_option(
        options,
        "--fastbins"@,
        program,
        rest,
        config,
        set![Switch::Fastbins, Switch::MainArenaCandidate],
    );
    lemma_plain_option(
        options,
        "--regular-bins"@,
        program,
        rest,
        config,
        set![Switch::RegularBins, Switch::MainArenaCandidate],
    );
    lemma_plain_option(
        options,
        "--smallbins"@,
        program,
        rest,
        config,
        set![Switch::Smallbins, Switch::RegularBins, Switch::MainArenaCandidate],
    );
    lemma_plain_option(
        options,
        "--largebins"@,
        program,
        rest,
        config,
        set![Switch::Largebins, Switch::RegularBins, Switch::MainArenaCandidate],
    );
    lemma_plain_option(
        options,
        "--main-arena-top"@,
        program,
        rest,
        config,
        set![Switch::MainArenaTopCandidate, Switch::MainArenaCandidate],
    );
    lemma_plain_option(
        options,
        "--libc-symbols"@,
        program,
        rest,
        config,
        set![Switch::LibcSymbols],
    );
    lemma_plain_option(
        options,
        "--clear-env"@,
        program,
        rest,
        config,
        set![Switch::ClearEnv],
    );
}

/// An option for a size limit sets that limit and no other. A value that is no such number is
/// turned down, with the option and the value in the message.
pub proof fn law_limit_options(
    options: Seq<Seq<char>>,
    program: Seq<char>,
    rest: Seq<Seq<char>>,
    config: RenderConfigView,
    value: Seq<char>,
    n: usize,
)
    requires
        accepted(options, program, rest, config),
    ensures
        number::usize_number(value) == Some(n) ==> {
            &&& accepted(
                options.push("--max-layout-chunks"@).push(value),
                program,
                rest,
                RenderConfigView { max_layout_chunks: n, ..config },
            )
            &&& accepted(
                options.push("--max-tcache-chain"@).push(value),
                program,
                rest,
                RenderConfigView { max_tcache_chain: n, ..config },
            )
            &&& accepted(
                options.push("--max-fastbin-chain"@).push(value),
                program,
                rest,
                RenderConfigView { max_fastbin_chain: n, ..config },
            )
            &&& accepted(
                options.push("--max-unsorted-chain"@).push(value),
                program,
                rest,
                RenderConfigView { max_unsorted_chain: n, ..config },
            )
            &&& accepted(
                options.push("--max-regular-bins"@).push(value),
                program,
                rest,
                RenderConfigView { max_regular_bins: n, ..config },
            )
            &&& accepted(
                options.push("--max-smallbin-chain"@).push(value),
                program,
                rest,
                RenderConfigView { max_smallbin_chain: n, ..config },
            )
            &&& accepted(
                options.push("--max-largebin-chain"@).push(value),
                program,
                rest,
                RenderConfigView { max_largebin_chain: n, ..config },
            )
        },
        number::usize_number(value) is None ==> {
            &&& refused(
                options.push("--max-layout-chunks"@).push(value),
                program,
                rest,
                "invalid "@ + "--max-layout-chunks"@ + " value: "@ + value,
            )
            &&& refused(
                options.push("--max-tcache-chain"@).push(value),
                program,
                rest,
                "invalid "@ + "--max-tcache-chain"@ + " value: "@ + value,
            )
            &&& refused(
                options.push("--max-fastbin-chain"@).push(value),
                program,
                rest,
                "invalid "@ + "--max-fastbin-chain"@ + " value: "@ + value,
            )
            &&& refused(
                options.push("--max-unsorted-chain"@).push(value),
                program,
                rest,
                "invalid "@ + "--max-unsorted-chain"@ + " value: "@ + value,
            )
            &&& refused(
                options.push("--max-regular-bins"@).push(value),
                program,
                rest,
                "invalid "@ + "--max-regular-bins"@ + " value: "@ + value,
            )
            &&& refused(
                options.push("--max-smallbin-chain"@).push(value),
                program,
                rest,
                "invalid "@ + "--max-smallbin-chain"@ + " value: "@ + value,
            )
            &&& refused(
                options.push("--max-largebin-chain"@).push(value),
                program,
                rest,
                "invalid "@ + "--max-largebin-chain"@ + " value: "@ + value,
            )
        },
{
    let st = lemma_options_end(options, program, rest, config);
    lemma_value_words();
    lemma_limit_words(st.config, n);
    lemma_value_option(options, "--max-layout-chunks"@, value, program, rest, config, st);
    lemma_value_option(options, "--max-tcache-chain"@, value, program, rest, config, st);
    lemma_value_option(options, "--max-fastbin-chain"@, value, program, rest, config, st);
    lemma_value_option(options, "--max-unsorted-chain"@, value, program, rest, config, st);
    lemma_value_option(options, "--max-regular-bins"@, value, program, rest, config, st);
    lemma_value_option(options, "--max-smallbin-chain"@, value, program, rest, config, st);
    lemma_value_option(options, "--max-largebin-chain"@, value, program, rest, config, st);
}

/// An option for a path sets that path and no other.
pub proof fn law_path_options(
    options: Seq<Seq<char>>,
    program: Seq<char>,
    rest: Seq<Seq<char>>,
    config: RenderConfigView,
    path: Seq<char>,
)
    requires
        accepted(options, program, rest, config),
    ensures
        accepted(
            options.push("--libc"@).push(path),
            program,
            rest,
            RenderConfigView { supplied_libc_path: Some(path), ..config },
        ),
        accepted(
            options.push("--ld"@).push(path),
            program,
            rest,
            RenderConfigView { loader_path: Some(path), ..config },
        ),
        accepted(
            options.push("--library-path"@).push(path),
            program,
            rest,
            RenderConfigView { library_path: Some(path), ..config },
        ),
        accepted(
            options.push("--preload"@).push(path),
            program,
            rest,
            RenderConfigView { preload_path: Some(path), ..config },
        ),
        accepted(
            options.push("--cwd"@).push(path),
            program,
            rest,
            RenderConfigView { cwd: Some(path), ..config },
        ),
        accepted(
            options.push("--json-out"@).push(path),
            program,
            rest,
            RenderConfigView { json_out: Some(path), ..config },
        ),
{
    let st = lemma_options_end(options, program, rest, config);
    lemma_value_words();
    lemma_path_words(st.config, path);
    lemma_value_option(options, "--libc"@, path, program, rest, config, st);
    lemma_value_option(options, "--ld"@, path, program, rest, config, st);
    lemma_value_option(options, "--library-path"@, path, program, rest, config, st);
    lemma_value_option(options, "--preload"@, path, program, rest, config, st);
    lemma_value_option(options, "--cwd"@, path, program, rest, config, st);
    lemma_value_option(options, "--json-out"@, path, program, rest, config, st);
}

/// `--no-chunks` takes the chunks away and leaves every other switch and option alone.
pub proof fn law_no_chunks_option(
    options: Seq<Seq<char>>,
    program: Seq<char>,
    rest: Seq<Seq<char>>,
    config: RenderConfigView,
)
    requires
        accepted(options, program, rest, config),
    ensures
        accepted(
            options.push("--no-chunks"@),
            program,
            rest,
            RenderConfigView { on: config.on.remove(Switch::Chunks), ..config },
        ),
{
    lemma_single_words();
    let st = lemma_options_end(options, program, rest, config);
    lemma_switch_option(options, "--no-chunks"@, program, rest, config, st);
    let next = args::switch_step(st, "--no-chunks"@)->0;
    assert(outcome(next)->Ok_0.on =~= config.on.remove(Switch::Chunks));
}

/// `--events-only` takes chunks, notes, explanations, layout and heap scan away and leaves the
/// other options alone; the live screen has no use for it.
pub proof fn law_events_only_option(
    options: Seq<Seq<char>>,
    program: Seq<char>,
    rest: Seq<Seq<char>>,
    config: RenderConfigView,
)
    requires
        accepted(options, program, rest, config),
    ensures
        config.on.contains(Switch::LiveTui) ==> refused(
            options.push("--events-only"@),
            program,
            rest,
            "--live-tui conflicts with --events-only"@,
        ),
        !config.on.contains(Switch::LiveTui) ==> accepted(
            options.push("--events-only"@),
            program,
            rest,
            RenderConfigView {
                on: config.on.difference(
                    set![
                        Switch::Chunks,
                        Switch::TrackerNotes,
                        Switch::Explanations,
                        Switch::Layout,
                        Switch::HeapScan,
                    ],
                ),
                ..config
            },
        ),
{
    let st = lemma_options_end(options, program, rest, config);
    lemma_switch_option(options, "--events-only"@, program, rest, config, st);
    let next = args::switch_step(st, "--events-only"@)->0;
    if !config.on.contains(Switch::LiveTui) {
        assert(outcome(next)->Ok_0.on =~= config.on.difference(
            set![
                Switch::Chunks,
                Switch::TrackerNotes,
                Switch::Explanations,
                Switch::Layout,
                Switch::HeapScan,
            ],
        ));
    }
}

/// `--layout` and `--heap-scan` turn on their views, unless only events are shown: they then
/// change nothing.
pub proof fn law_layout_and_scan_options(
    options: Seq<Seq<char>>,
    program: Seq<char>,
    rest: Seq<Seq<char>>,
    config: RenderConfigView,
)
    requires
        accepted(options, program, rest, config),
    ensures
        config.on.contains(Switch::TrackerNotes) ==> accepted(
            options.push("--layout"@),
            program,
            rest,
            RenderConfigView { on: config.on.insert(Switch::Layout), ..config },
        ),
        config.on.contains(Switch::TrackerNotes) ==> accepted(
            options.push("--heap-scan"@),
            program,
            rest,
            RenderConfigView { on: config.on.insert(Switch::HeapScan), ..config },
        ),
        !config.on.contains(Switch::TrackerNotes) ==> accepted(
            options.push("--layout"@),
            program,
            rest,
            config,
        ) && accepted(options.push("--heap-scan"@), program, rest, config),
{
    lemma_plain_words();
    lemma_single_words();
    let st = lemma_options_end(options, program, rest, config);
    lemma_switch_option(options, "--layout"@, program, rest, config, st);
    lemma_switch_option(options, "--heap-scan"@, program, rest, config, st);
    let layout = args::switch_step(st, "--layout"@)->0;
    let scan = args::switch_step(st, "--heap-scan"@)->0;
    if config.on.contains(Switch::TrackerNotes) {
        assert(outcome(layout)->Ok_0.on =~= config.on.insert(Switch::Layout));
        assert(outcome(scan)->Ok_0.on =~= config.on.insert(Switch::HeapScan));
    } else {
        assert(outcome(scan)->Ok_0.on =~= config.on);
    }
}

/// `--json` and `--live-tui` turn on their switches and rule each other out; the live screen also
/// rules out `--events-only`.
pub proof fn law_output_options(
    options: Seq<Seq<char>>,
    program: Seq<char>,
    rest: Seq<Seq<char>>,
    config: RenderConfigView,
)
    requires
        accepted(options, program, rest, config),
    ensures
        !config.on.contains(Switch::LiveTui) ==> accepted(
            options.push("--json"@),
            program,
            rest,
            RenderConfigView { on: config.on.insert(Switch::Json), ..config },
        ),
        config.on.contains(Switch::LiveTui) ==> refused(
            options.push("--json"@),
            program,
            rest,
            "--live-tui conflicts with --json stdout mode; use --json-out PATH to save a trace"@,
        ),
        !config.on.contains(Switch::Json) && config.on.contains(Switch::TrackerNotes) ==> accepted(
            options.push("--live-tui"@),
            program,
            rest,
            RenderConfigView { on: config.on.insert(Switch::LiveTui), ..config },
        ),
        config.on.contains(Switch::Json) ==> refused(
            options.push("--live-tui"@),
            program,
            rest,
            "--live-tui conflicts with --json stdout mode; use --json-out PATH to save a trace"@,
        ),
        !config.on.contains(Switch::Json) && !config.on.contains(Switch::TrackerNotes) ==> refused(
            options.push("--live-tui"@),
            program,
            rest,
            "--live-tui conflicts with --events-only"@,
        ),
{
    lemma_plain_words();
    lemma_single_words();
    let st = lemma_options_end(options, program, rest, config);
    lemma_switch_option(options, "--json"@, program, rest, config, st);
    lemma_switch_option(options, "--live-tui"@, program, rest, config, st);
    let json = args::switch_step(st, "--json"@)->0;
    let live = args::switch_step(st, "--live-tui"@)->0;
    if !config.on.contains(Switch::LiveTui) {
        assert(outcome(json)->Ok_0.on =~= config.on.insert(Switch::Json));
    }
    if !config.on.contains(Switch::Json) && config.on.contains(Switch::TrackerNotes) {
        assert(outcome(live)->Ok_0.on =~= config.on.insert(Switch::LiveTui));
    }
}

/// An offset of the arena or of its top turns on the view that it is for, and a number that
/// cannot be read is turned down.
pub proof fn law_offset_options(
    options: Seq<Seq<char>>,
    program: Seq<char>,
    rest: Seq<Seq<char>>,
    config: RenderConfigView,
    value: Seq<char>,
    n: u64,
)
    requires
        accepted(options, program, rest, config),
    ensures
        number::auto_radix_number(value) == Some(n) ==> accepted(
            options.push("--main-arena-offset"@).push(value),
            program,
            rest,
            RenderConfigView {
                main_arena_offset: Some(n),
                on: config.on.insert(Switch::MainArenaCandidate),
                ..config
            },
        ),
        number::auto_radix_number(value) == Some(n) ==> accepted(
            options.push("--main-arena-top-offset"@).push(value),
            program,
            rest,
            RenderConfigView {
                main_arena_top_offset: Some(n),
                on: config.on.insert(Switch::MainArenaTopCandidate).insert(
                    Switch::MainArenaCandidate,
                ),
                ..config
            },
        ),
        number::auto_radix_number(value) is None ==> refused(
            options.push("--main-arena-offset"@).push(value),
            program,
            rest,
            "invalid "@ + "--main-arena-offset"@ + " value: "@ + value,
        ) && refused(
            options.push("--main-arena-top-offset"@).push(value),
            program,
            rest,
            "invalid "@ + "--main-arena-top-offset"@ + " value: "@ + value,
        ),
{
    let st = lemma_options_end(options, program, rest, config);
    lemma_value_words();
    lemma_value_option(options, "--main-arena-offset"@, value, program, rest, config, st);
    lemma_value_option(options, "--main-arena-top-offset"@, value, program, rest, config, st);
    if number::auto_radix_number(value) == Some(n) {
        let arena = args::value_step(st, "--main-arena-offset"@, value)->Ok_0;
        let top = args::value_step(st, "--main-arena-top-offset"@, value)->Ok_0;
        assert(outcome(arena)->Ok_0.on =~= config.on.insert(Switch::MainArenaCandidate));
        assert(outcome(top)->Ok_0.on =~= config.on.insert(Switch::MainArenaTopCandidate).insert(
            Switch::MainArenaCandidate,
        ));
    }
}

/// Each break option adds one condition behind those that were asked for before: the two that
/// `--break-on` names, a freed pointer, or an allocation size.
pub proof fn law_break_options(
    options: Seq<Seq<char>>,
    program: Seq<char>,
    rest: Seq<Seq<char>>,
    config: RenderConfigView,
    value: Seq<char>,
    n: u64,
)
    requires
        accepted(options, program, rest, config),
    ensures
        accepted(
            options.push("--break-on"@).push("suspicious"@),
            program,
            rest,
            RenderConfigView {
                break_conditions: config.break_conditions.push(AllocatorBreakCondition::Suspicious),
                ..config
            },
        ),
        accepted(
            options.push("--break-on"@).push("double-free"@),
            program,
            rest,
            RenderConfigView {
                break_conditions: config.break_conditions.push(AllocatorBreakCondition::DoubleFree),
                ..config
            },
        ),
        value != "suspicious"@ && value != "double-free"@ ==> refused(
            options.push("--break-on"@).push(value),
            program,
            rest,
            "invalid --break-on value: "@ + value + "; expected suspicious or double-free"@,
        ),
        number::search_number(value) == Some(n) ==> accepted(
            options.push("--break-on-free"@).push(value),
            program,
            rest,
            RenderConfigView {
                break_conditions: config.break_conditions.push(AllocatorBreakCondition::FreePtr(n)),
                ..config
            },
        ) && accepted(
            options.push("--break-on-alloc-size"@).push(value),
            program,
            rest,
            RenderConfigView {
                break_conditions: config.break_conditions.push(
                    AllocatorBreakCondition::AllocSize(n),
                ),
                ..config
            },
        ),
        number::search_number(value) is None ==> refused(
            options.push("--break-on-free"@).push(value),
            program,
            rest,
            "invalid "@ + "--break-on-free"@ + " value: "@ + value,
        ) && refused(
            options.push("--break-on-alloc-size"@).push(value),
            program,
            rest,
            "invalid "@ + "--break-on-alloc-size"@ + " value: "@ + value,
        ),
{
    reveal_strlit("suspicious");
    assert("suspicious"@.len() == 10);
    reveal_strlit("double-free");
    assert("double-free"@.len() == 11);
    let st = lemma_options_end(options, program, rest, config);
    lemma_value_words();
    lemma_value_option(options, "--break-on"@, "suspicious"@, program, rest, config, st);
    lemma_value_option(options, "--break-on"@, "double-free"@, program, rest, config, st);
    lemma_value_option(options, "--break-on"@, value, program, rest, config, st);
    lemma_value_option(options, "--break-on-free"@, value, program, rest, config, st);
    lemma_value_option(options, "--break-on-alloc-size"@, value, program, rest, config, st);
}

/// The environment options add to what was asked for before, one entry each: a name and a value,
/// parted at the first equals sign, or a name to remove.
pub proof fn law_environment_options(
    options: Seq<Seq<char>>,
    program: Seq<char>,
    rest: Seq<Seq<char>>,
    config: RenderConfigView,
    key: Seq<char>,
    value: Seq<char>,
)
    requires
        accepted(options, program, rest, config),
        key.len() > 0,
    ensures
        !key.contains('=') ==> accepted(
            options.push("--set-env"@).push(key.push('=') + value),
            program,
            rest,
            RenderConfigView { set_env: config.set_env.push((key, value)), ..config },
        ),
        accepted(
            options.push("--unset-env"@).push(key),
            program,
            rest,
            RenderConfigView { unset_env: config.unset_env.push(key), ..config },
        ),
        refused(
            options.push("--unset-env"@).push(Seq::empty()),
            program,
            rest,
            "invalid --unset-env value: key must not be empty"@,
        ),
{
    let st = lemma_options_end(options, program, rest, config);
    lemma_value_words();
    lemma_value_option(options, "--unset-env"@, key, program, rest, config, st);
    lemma_value_option(options, "--unset-env"@, Seq::empty(), program, rest, config, st);
    if !key.contains('=') {
        args::law_env_assignment_reads_back(key, value);
        lemma_value_option(
            options,
            "--set-env"@,
            key.push('=') + value,
            program,
            rest,
            config,
            st,
        );
    }
}

/// The target reads a file or a text where one was asked for; a second source is turned down,
/// whichever it is.
pub proof fn law_stdin_options(
    options: Seq<Seq<char>>,
    program: Seq<char>,
    rest: Seq<Seq<char>>,
    config: RenderConfigView,
    value: Seq<char>,
)
    requires
        accepted(options, program, rest, config),
    ensures
        config.stdin == StdinView::Inherit ==> accepted(
            options.push("--stdin-file"@).push(value),
            program,
            rest,
            RenderConfigView { stdin: StdinView::File(value), ..config },
        ) && accepted(
            options.push("--stdin-text"@).push(value),
            program,
            rest,
            RenderConfigView { stdin: StdinView::Text(value), ..config },
        ),
        config.stdin != StdinView::Inherit ==> refused(
            options.push("--stdin-file"@).push(value),
            program,
            rest,
            "--stdin-file and --stdin-text are mutually exclusive"@,
        ) && refused(
            options.push("--stdin-text"@).push(value),
            program,
            rest,
            "--stdin-file and --stdin-text are mutually exclusive"@,
        ),
{
    let st = lemma_options_end(options, program, rest, config);
    lemma_value_words();
    lemma_value_option(options, "--stdin-file"@, value, program, rest, config, st);
    lemma_value_option(options, "--stdin-text"@, value, program, rest, config, st);
}

/// Whether a value is a word, letter case aside.
pub open spec fn reads(value: Seq<char>, word: Seq<char>) -> bool {
    value.len() == word.len() && forall|i: int|
        0 <= i < word.len() ==> #[trigger] value[i] == word[i] || 'A' <= value[i] <= 'Z' && (
        value[i] as int) + 32 == word[i] as int
}

proof fn lemma_reads(value: Seq<char>, word: Seq<char>)
    requires
        forall|i: int| 0 <= i < word.len() ==> 'a' <= #[trigger] word[i] <= 'z',
    ensures
        reads(value, word) <==> text::ascii_lower_text(value) == word,
{
    if reads(value, word) {
        assert forall|i: int| 0 <= i < word.len() implies #[trigger] text::ascii_lower(value[i])
            == word[i] by {
            assert(value[i] == word[i] || 'A' <= value[i] <= 'Z');
        }
        assert(text::ascii_lower_text(value) =~= word);
    }
    if text::ascii_lower_text(value) == word {
        assert forall|i: int| 0 <= i < word.len() implies #[trigger] value[i] == word[i] || 'A'
            <= value[i] <= 'Z' && (value[i] as int) + 32 == word[i] as int by {
            assert(text::ascii_lower_text(value)[i] == text::ascii_lower(value[i]));
        }
    }
}

/// The trace mode is `plt` or `libc` in letters of either case, and nothing else.
pub proof fn law_trace_mode_option(
    options: Seq<Seq<char>>,
    program: Seq<char>,
    rest: Seq<Seq<char>>,
    config: RenderConfigView,
    value: Seq<char>,
)
    requires
        accepted(options, program, rest, config),
    ensures
        reads(value, "plt"@) ==> accepted(
            options.push("--trace-mode"@).push(value),
            program,
            rest,
            RenderConfigView { trace_mode: Some(TraceModeArg::Plt), ..config },
        ),
        reads(value, "libc"@) ==> accepted(
            options.push("--trace-mode"@).push(value),
            program,
            rest,
            RenderConfigView { trace_mode: Some(TraceModeArg::Libc), ..config },
        ),
        !reads(value, "plt"@) && !reads(value, "libc"@) ==> refused(
            options.push("--trace-mode"@).push(value),
            program,
            rest,
            "invalid "@ + "--trace-mode"@ + " value: "@ + value,
        ),
{
    reveal_strlit("plt");
    assert("plt"@.len() == 3);
    assert("plt"@[0] == 'p');
    assert("plt"@[1] == 'l');
    assert("plt"@[2] == 't');
    reveal_strlit("libc");
    assert("libc"@.len() == 4);
    assert("libc"@[0] == 'l');
    assert("libc"@[1] == 'i');
    assert("libc"@[2] == 'b');
    assert("libc"@[3] == 'c');
    lemma_reads(value, "plt"@);
    lemma_reads(value, "libc"@);
    let st = lemma_options_end(options, program, rest, config);
    lemma_value_words();
    lemma_value_option(options, "--trace-mode"@, value, program, rest, config, st);
}

/// A glibc profile is asked for by one of two names, or left to be found: the request is kept as
/// it was given, and until a libc is known `auto` stands for the generic profile.
pub proof fn law_profile_option(
    options: Seq<Seq<char>>,
    program: Seq<char>,
    rest: Seq<Seq<char>>,
    config: RenderConfigView,
    value: Seq<char>,
)
    requires
        accepted(options, program, rest, config),
    ensures
        accepted(
            options.push("--glibc-profile"@).push("auto"@),
            program,
            rest,
            RenderConfigView {
                glibc_profile_request: "auto"@,
                glibc_profile: config::modern_profile(),
                ..config
            },
        ),
        accepted(
            options.push("--glibc-profile"@).push("glibc-x86_64-modern"@),
            program,
            rest,
            RenderConfigView {
                glibc_profile_request: "glibc-x86_64-modern"@,
                glibc_profile: config::modern_profile(),
                ..config
            },
        ),
        accepted(
            options.push("--glibc-profile"@).push("glibc-2.35-x86_64"@),
            program,
            rest,
            RenderConfigView {
                glibc_profile_request: "glibc-2.35-x86_64"@,
                glibc_profile: config::glibc_2_35_profile(),
                ..config
            },
        ),
        value != "auto"@ && value != "glibc-x86_64-modern"@ && value != "glibc-2.35-x86_64"@
            ==> refused(
            options.push("--glibc-profile"@).push(value),
            program,
            rest,
            "unknown glibc profile `"@ + value + "`\n\navailable profiles:\n"@ + ("  auto"@ + "\n"@
                + ("  "@ + "glibc-x86_64-modern"@) + "\n"@ + ("  "@ + "glibc-2.35-x86_64"@)),
        ),
{
    reveal_strlit("auto");
    assert("auto"@.len() == 4);
    reveal_strlit("glibc-x86_64-modern");
    assert("glibc-x86_64-modern"@.len() == 19);
    reveal_strlit("glibc-2.35-x86_64");
    assert("glibc-2.35-x86_64"@.len() == 17);
    let st = lemma_options_end(options, program, rest, config);
    lemma_value_words();
    lemma_value_option(options, "--glibc-profile"@, "auto"@, program, rest, config, st);
    lemma_value_option(
        options,
        "--glibc-profile"@,
        "glibc-x86_64-modern"@,
        program,
        rest,
        config,
        st,
    );
    lemma_value_option(
        options,
        "--glibc-profile"@,
        "glibc-2.35-x86_64"@,
        program,
        rest,
        config,
        st,
    );
    lemma_value_option(options, "--glibc-profile"@, value, program, rest, config, st);
    let names = seq![
        "  auto"@,
        "  "@ + "glibc-x86_64-modern"@,
        "  "@ + "glibc-2.35-x86_64"@,
    ];
    reveal_with_fuel(text::join, 3);
    assert(names.drop_last().drop_last()[0] == names[0]);
    assert(args::available_profiles_text() == "  auto"@ + "\n"@ + ("  "@ + "glibc-x86_64-modern"@)
        + "\n"@ + ("  "@ + "glibc-2.35-x86_64"@));
}

// ---------------------------------------------------------------------------
// Presets
// ---------------------------------------------------------------------------

proof fn lemma_presets_unasked(words: Seq<Seq<char>>, i: int, st: ScanView, end: int)
    requires
        0 <= i <= end <= words.len(),
        args::scan(words, i, st) is Ok,
        args::scan(words, i, st)->Ok_0.1 == end,
    ensures
        st.views_arg is None && (forall|k: int|
            i <= k < end ==> #[trigger] words[k] != "--allocator-views"@) ==> args::scan(
            words,
            i,
            st,
        )->Ok_0.0.views_arg is None,
        !st.all_views && (forall|k: int|
            i <= k < end ==> #[trigger] words[k] != "--all-allocator-views"@) ==> !args::scan(
            words,
            i,
            st,
        )->Ok_0.0.all_views,
    decreases words.len() - i,
{
    if i < words.len() {
        match args::switch_step(st, words[i]) {
            Some(next) => {
                args::lemma_scan_goes_on(words, i + 1, next);
                lemma_presets_unasked(words, i + 1, next, end);
            },
            None => if args::takes_value(words[i]) && i + 1 < words.len() {
                let next = args::value_step(st, words[i], words[i + 1])->Ok_0;
                args::lemma_scan_goes_on(words, i + 2, next);
                lemma_presets_unasked(words, i + 2, next, end);
            },
        }
    }
}

/// The switches of all allocator views.
pub open spec fn all_view_switches() -> Set<Switch> {
    set![
        Switch::Layout,
        Switch::TcacheCandidates,
        Switch::HeapScan,
        Switch::MainArenaCandidate,
        Switch::MainArenaTopCandidate,
        Switch::Fastbins,
        Switch::UnsortedBin,
        Switch::RegularBins,
        Switch::Smallbins,
        Switch::Largebins,
    ]
}

/// A preset turns on its views beside what was asked for, and is remembered; layout and heap scan
/// stay off where only events are shown. `--all-allocator-views` is the full preset by another
/// name.
pub proof fn law_preset_options(
    options: Seq<Seq<char>>,
    program: Seq<char>,
    rest: Seq<Seq<char>>,
    config: RenderConfigView,
    value: Seq<char>,
)
    requires
        accepted(options, program, rest, config),
        !options.contains("--allocator-views"@),
        !options.contains("--all-allocator-views"@),
    ensures
        ({
            let hidden = if config.on.contains(Switch::TrackerNotes) {
                Set::empty()
            } else {
                set![Switch::Layout, Switch::HeapScan]
            };
            let full = RenderConfigView {
                allocator_views_preset: AllocatorViewsPreset::Full,
                on: config.on.union(all_view_switches().difference(hidden)),
                ..config
            };
            &&& reads(value, "none"@) ==> accepted(
                options.push("--allocator-views"@).push(value),
                program,
                rest,
                config,
            )
            &&& reads(value, "basic"@) ==> accepted(
                options.push("--allocator-views"@).push(value),
                program,
                rest,
                RenderConfigView {
                    allocator_views_preset: AllocatorViewsPreset::Basic,
                    on: config.on.union(
                        set![
                            Switch::Layout,
                            Switch::TcacheCandidates,
                            Switch::HeapScan,
                        ].difference(hidden),
                    ),
                    ..config
                },
            )
            &&& reads(value, "full"@) ==> accepted(
                options.push("--allocator-views"@).push(value),
                program,
                rest,
                full,
            )
            &&& accepted(options.push("--all-allocator-views"@), program, rest, full)
            &&& !reads(value, "none"@) && !reads(value, "basic"@) && !reads(value, "full"@)
                ==> refused(
                options.push("--allocator-views"@).push(value),
                program,
                rest,
                "invalid "@ + "--allocator-views"@ + " value: "@ + value,
            )
        }),
{
    reveal_strlit("none");
    assert("none"@.len() == 4);
    assert("none"@[0] == 'n');
    assert("none"@[1] == 'o');
    assert("none"@[2] == 'n');
    assert("none"@[3] == 'e');
    reveal_strlit("basic");
    assert("basic"@.len() == 5);
    assert("basic"@[0] == 'b');
    assert("basic"@[1] == 'a');
    assert("basic"@[2] == 's');
    assert("basic"@[3] == 'i');
    assert("basic"@[4] == 'c');
    reveal_strlit("full");
    assert("full"@.len() == 4);
    assert("full"@[0] == 'f');
    assert("full"@[1] == 'u');
    assert("full"@[2] == 'l');
    assert("full"@[3] == 'l');
    lemma_reads(value, "none"@);
    lemma_reads(value, "basic"@);
    lemma_reads(value, "full"@);
    let st = lemma_options_end(options, program, rest, config);
    let words = options + seq![program] + rest;
    assert forall|k: int| 0 <= k < options.len() implies #[trigger] words[k]
        != "--allocator-views"@ && words[k] != "--all-allocator-views"@ by {
        assert(words[k] == options[k]);
        assert(options.contains(options[k]));
    }
    lemma_presets_unasked(words, 0, args::scan_start(), options.len() as int);
    lemma_value_words();
    lemma_single_words();
    lemma_value_option(options, "--allocator-views"@, value, program, rest, config, st);
    lemma_switch_option(options, "--all-allocator-views"@, program, rest, config, st);
    let hidden = if config.on.contains(Switch::TrackerNotes) {
        Set::empty()
    } else {
        set![Switch::Layout, Switch::HeapScan]
    };
    let all = args::switch_step(st, "--all-allocator-views"@)->0;
    assert(outcome(all)->Ok_0.on =~= config.on.union(all_view_switches().difference(hidden)));
    if reads(value, "none"@) {
        let next = args::value_step(st, "--allocator-views"@, value)->Ok_0;
        assert(outcome(next)->Ok_0.on =~= config.on);
    }
    if reads(value, "basic"@) {
        let next = args::value_step(st, "--allocator-views"@, value)->Ok_0;
        assert(outcome(next)->Ok_0.on =~= config.on.union(
            set![
                Switch::Layout,
                Switch::TcacheCandidates,
                Switch::HeapScan,
            ].difference(hidden),
        ));
    }
    if reads(value, "full"@) {
        let next = args::value_step(st, "--allocator-views"@, value)->Ok_0;
        assert(outcome(next)->Ok_0.on =~= config.on.union(
            all_view_switches().difference(hidden),
        ));
    }
}

/// A preset and `--all-allocator-views` rule each other out.
pub proof fn law_two_presets_conflict(
    options: Seq<Seq<char>>,
    program: Seq<char>,
    rest: Seq<Seq<char>>,
    early: RenderConfigView,
    config: RenderConfigView,
    value: Seq<char>,
)
    requires
        accepted(
            options.push("--allocator-views"@).push(value),
            program,
            rest,
            config,
        ),
        accepted(options, program, rest, early),
    ensures
        refused(
            options.push("--allocator-views"@).push(value).push("--all-allocator-views"@),
            program,
            rest,
            "--all-allocator-views conflicts with --allocator-views"@,
        ),
{
    let first = lemma_options_end(options, program, rest, early);
    let both = options.push("--allocator-views"@).push(value);
    let st = lemma_options_end(both, program, rest, config);
    let words = options + seq![program] + rest;
    let longer = both + seq![program] + rest;
    let n = options.len() as int;
    lemma_value_words();
    lemma_single_words();
    lemma_scan_joins(words, longer, 0, args::scan_start(), first, n);
    law_these_are_the_options(first, "--allocator-views"@);
    assert(longer[n] == "--allocator-views"@);
    assert(longer[n + 1] == value);
    assert(longer[n + 2] == program);
    let next = args::value_step(first, "--allocator-views"@, value)->Ok_0;
    law_these_are_the_options(next, program);
    assert(args::scan(longer, n + 2, next) == Ok::<(ScanView, int), Seq<char>>((next, n + 2)));
    assert(st == next);
    lemma_switch_option(both, "--all-allocator-views"@, program, rest, config, st);
}

// ---------------------------------------------------------------------------
// Whole command lines
// ---------------------------------------------------------------------------

/// Without options the session shows chunks, notes and explanations and nothing else, with every
/// limit, path and condition at its default.
pub proof fn law_default_session(program: Seq<char>, rest: Seq<Seq<char>>)
    requires
        program.len() < 2 || program[0] != '-' || program[1] != '-',
    ensures
        accepted(
            Seq::empty(),
            program,
            rest,
            RenderConfigView {
                on: set![Switch::Chunks, Switch::TrackerNotes, Switch::Explanations],
                max_layout_chunks: 32,
                max_tcache_chain: 32,
                max_fastbin_chain: 32,
                max_unsorted_chain: 32,
                max_regular_bins: 16,
                max_smallbin_chain: 32,
                max_largebin_chain: 32,
                main_arena_offset: None,
                main_arena_top_offset: None,
                trace_mode: None,
                supplied_libc_path: None,
                loader_path: None,
                library_path: None,
                preload_path: None,
                cwd: None,
                set_env: Seq::empty(),
                unset_env: Seq::empty(),
                stdin: StdinView::Inherit,
                glibc_profile_request: "glibc-x86_64-modern"@,
                glibc_profile: config::modern_profile(),
                allocator_views_preset: AllocatorViewsPreset::NoViews,
                json_out: None,
                break_conditions: Seq::empty(),
            },
        ),
{
    let words = Seq::<Seq<char>>::empty() + seq![program] + rest;
    law_these_are_the_options(args::scan_start(), program);
    assert(words[0] == program);
    assert(words.skip(1) =~= rest);
    assert(args::scan(words, 0, args::scan_start()) == Ok::<(ScanView, int), Seq<char>>(
        (args::scan_start(), 0),
    ));
    assert(outcome(args::scan_start())->Ok_0.on =~= set![
        Switch::Chunks,
        Switch::TrackerNotes,
        Switch::Explanations,
    ]);
}

/// Options alone make no session: there must be a program; and an option that takes a value must
/// have one.
pub proof fn law_incomplete_command_lines(
    options: Seq<Seq<char>>,
    word: Seq<char>,
    program: Seq<char>,
    rest: Seq<Seq<char>>,
    config: RenderConfigView,
)
    requires
        accepted(options, program, rest, config),
        is_value_word(word),
    ensures
        trace_args(options) == Err::<(RenderConfigView, Seq<char>, Seq<Seq<char>>), Seq<char>>(
            "missing program"@,
        ),
        trace_args(options.push(word)) == Err::<
            (RenderConfigView, Seq<char>, Seq<Seq<char>>),
            Seq<char>,
        >("missing value for "@ + word),
{
    let st = lemma_options_end(options, program, rest, config);
    let words = options + seq![program] + rest;
    let n = options.len() as int;
    lemma_scan_joins(words, options, 0, args::scan_start(), st, n);
    lemma_scan_joins(words, options.push(word), 0, args::scan_start(), st, n);
    law_these_are_the_options(st, word);
    assert(options.push(word)[n] == word);
}

proof fn lemma_switches_later(words: Seq<Seq<char>>, i: int, st: ScanView)
    requires
        0 <= i,
        args::scan(words, i, st) is Ok,
    ensures
        !st.config.on.contains(Switch::Chunks) ==> !args::scan(
            words,
            i,
            st,
        )->Ok_0.0.config.on.contains(Switch::Chunks),
        st.events_only ==> args::scan(words, i, st)->Ok_0.0.events_only,
        forall|s: Switch|
            s !is Chunks && s !is TrackerNotes && s !is Explanations && s !is Layout
                && #[trigger] st.config.on.contains(s) ==> args::scan(
                words,
                i,
                st,
            )->Ok_0.0.config.on.contains(s),
    decreases words.len() - i,
{
    if i < words.len() {
        match args::switch_step(st, words[i]) {
            Some(next) => {
                lemma_switches_later(words, i + 1, next);
                assert(forall|s: Switch|
                    s !is Chunks && s !is TrackerNotes && s !is Explanations && s !is Layout
                        && #[trigger] st.config.on.contains(s) ==> next.config.on.contains(s));
            },
            None => if args::takes_value(words[i]) && i + 1 < words.len() {
                let next = args::value_step(st, words[i], words[i + 1])->Ok_0;
                lemma_switches_later(words, i + 2, next);
                assert(forall|s: Switch| #[trigger]
                    st.config.on.contains(s) ==> next.config.on.contains(s));
            },
        }
    }
}

/// The state right behind some of the options of a command line.
proof fn lemma_halfway(
    before: Seq<Seq<char>>,
    word: Seq<char>,
    after: Seq<Seq<char>>,
    program: Seq<char>,
    rest: Seq<Seq<char>>,
    early: RenderConfigView,
    config: RenderConfigView,
) -> (st: ScanView)
    requires
        accepted(before, program, rest, early),
        accepted(before.push(word) + after, program, rest, config),
        is_switch_word(word),
    ensures
        outcome(st) == Ok::<RenderConfigView, Seq<char>>(early),
        args::switch_step(st, word) is Some,
        args::scan(
            before.push(word) + after + seq![program] + rest,
            before.len() as int + 1,
            args::switch_step(st, word)->0,
        ) == args::scan(before.push(word) + after + seq![program] + rest, 0, args::scan_start()),
{
    let st = lemma_options_end(before, program, rest, early);
    let words = before + seq![program] + rest;
    let longer = before.push(word) + after + seq![program] + rest;
    let n = before.len() as int;
    assert forall|k: int| 0 <= k < n implies #[trigger] longer[k] == words[k] by {
        assert(longer[k] == before[k]);
        assert(words[k] == before[k]);
    }
    lemma_scan_joins(words, longer, 0, args::scan_start(), st, n);
    assert(longer[n] == word);
    law_these_are_the_options(st, word);
    st
}

/// A session with `--no-chunks` anywhere among its options shows no chunks, whatever options come
/// before and after it.
pub proof fn law_no_chunks_anywhere(
    before: Seq<Seq<char>>,
    after: Seq<Seq<char>>,
    program: Seq<char>,
    rest: Seq<Seq<char>>,
    early: RenderConfigView,
    config: RenderConfigView,
)
    requires
        accepted(before, program, rest, early),
        accepted(before.push("--no-chunks"@) + after, program, rest, config),
    ensures
        !config.on.contains(Switch::Chunks),
{
    let words = before.push("--no-chunks"@) + after + seq![program] + rest;
    lemma_single_words();
    let st = lemma_halfway(before, "--no-chunks"@, after, program, rest, early, config);
    lemma_switches_later(words, before.len() as int + 1, args::switch_step(st, "--no-chunks"@)->0);
    lemma_options_end(before.push("--no-chunks"@) + after, program, rest, config);
}

/// `--no-chunks` alone takes the chunks from the default session and leaves everything else of it
/// as it was.
pub proof fn law_no_chunks_alone(
    program: Seq<char>,
    rest: Seq<Seq<char>>,
    defaults: RenderConfigView,
    config: RenderConfigView,
)
    requires
        program.len() < 2 || program[0] != '-' || program[1] != '-',
        accepted(Seq::empty(), program, rest, defaults),
        accepted(seq!["--no-chunks"@], program, rest, config),
    ensures
        config.on =~= set![Switch::TrackerNotes, Switch::Explanations],
        config == (RenderConfigView { on: config.on, ..defaults }),
{
    law_default_session(program, rest);
    law_no_chunks_option(Seq::empty(), program, rest, defaults);
    assert(Seq::<Seq<char>>::empty().push("--no-chunks"@) =~= seq!["--no-chunks"@]);
}

/// A session with `--events-only` anywhere among its options shows nothing but event lines,
/// whatever views and presets come before and after it.
pub proof fn law_events_only_anywhere(
    before: Seq<Seq<char>>,
    after: Seq<Seq<char>>,
    program: Seq<char>,
    rest: Seq<Seq<char>>,
    early: RenderConfigView,
    config: RenderConfigView,
)
    requires
        accepted(before, program, rest, early),
        accepted(before.push("--events-only"@) + after, program, rest, config),
    ensures
        !config.on.contains(Switch::Chunks),
        !config.on.contains(Switch::TrackerNotes),
        !config.on.contains(Switch::Explanations),
        !config.on.contains(Switch::Layout),
        !config.on.contains(Switch::HeapScan),
{
    let words = before.push("--events-only"@) + after + seq![program] + rest;
    let st = lemma_halfway(before, "--events-only"@, after, program, rest, early, config);
    lemma_switches_later(words, before.len() as int + 1, args::switch_step(st, "--events-only"@)->0);
    lemma_options_end(before.push("--events-only"@) + after, program, rest, config);
}

/// A view that some options ask for stays asked for, whatever options follow, unless it is one
/// that goes with per-event text.
pub proof fn law_later_options_keep_views(
    before: Seq<Seq<char>>,
    word: Seq<char>,
    after: Seq<Seq<char>>,
    program: Seq<char>,
    rest: Seq<Seq<char>>,
    early: RenderConfigView,
    config: RenderConfigView,
    switch: Switch,
)
    requires
        accepted(before, program, rest, early),
        accepted(before.push(word) + after, program, rest, config),
        is_switch_word(word),
        switch !is Chunks && switch !is TrackerNotes && switch !is Explanations && switch !is Layout
            && switch !is HeapScan,
        early.allocator_views_preset is NoViews,
        early.on.contains(switch),
    ensures
        config.on.contains(switch),
{
    let words = before.push(word) + after + seq![program] + rest;
    let st = lemma_halfway(before, word, after, program, rest, early, config);
    assert(st.config.on.contains(switch));
    let next = args::switch_step(st, word)->0;
    assert(next.config.on.contains(switch));
    lemma_switches_later(words, before.len() as int + 1, next);
    lemma_options_end(before.push(word) + after, program, rest, config);
}

} // verus!
