//! Command line arguments.

use vstd::prelude::*;
use crate::config;
use crate::config::{
    glibc_profile_by_name, glibc_x86_64_modern, AllocationTraceMode, AllocatorBreakCondition,
    AllocatorViewsPreset, AllocatorViewsPresetArg, GlibcProfile, RenderConfig, RenderConfigView,
    SelectedMainArenaTopOffset, StdinConfig, StdinView, Switch, SwitchSet, TraceModeArg,
};
use crate::number;
use crate::number::{char_vec, parse_json_addr, parse_search_number, parse_usize};
use crate::text;
use crate::text::{cat2, cat3, cat4, owned, same};

verus! {

/// What is wrong with a command line or a query.
#[derive(Debug, Clone, PartialEq, Eq)]
pub struct CliError {
    pub message: String,
}

impl CliError {
    /// The text of the error.
    pub fn to_text(&self) -> (r: String)
        ensures
            r@ == self.message@,
    {
        self.message.clone()
    }
}

pub fn error(message: &str) -> (e: CliError)
    ensures
        e.message@ == message@,
{
    CliError { message: owned(message) }
}

// ---------------------------------------------------------------------------
// Single values
// ---------------------------------------------------------------------------

/// The index of the first `=` in `s`, or the length of `s`.
pub open spec fn first_equals(s: Seq<char>) -> nat
    decreases s.len(),
{
    if s.len() == 0 || s[0] == '=' { 0 } else { 1 + first_equals(s.skip(1)) }
}

/// `KEY=VALUE` split at the first `=`.
pub open spec fn env_assignment(s: Seq<char>) -> Result<(Seq<char>, Seq<char>), Seq<char>> {
    let at = first_equals(s) as int;
    if at >= s.len() {
        Err("invalid environment assignment '"@ + s + "': expected KEY=VALUE"@)
    } else if at == 0 {
        Err("invalid environment assignment '"@ + s + "': key must not be empty"@)
    } else {
        Ok((s.take(at), s.skip(at + 1)))
    }
}

proof fn lemma_first_equals(s: Seq<char>, at: int)
    requires
        0 <= at <= s.len(),
        forall|i: int| 0 <= i < at ==> s[i] != '=',
        at < s.len() ==> s[at] == '=',
    ensures
        first_equals(s) == at,
    decreases s.len(),
{
    if at > 0 {
        assert forall|i: int| 0 <= i < at - 1 implies s.skip(1)[i] != '=' by {
            assert(s[i + 1] != '=');
        }
        lemma_first_equals(s.skip(1), at - 1);
    }
}

/// Splits `KEY=VALUE` at the first `=`; the key must not be empty.
pub fn parse_env_assignment(s: &str) -> (r: Result<(String, String), CliError>)
    ensures
        match (r, env_assignment(s@)) {
            (Ok(p), Ok(m)) => p.0@ == m.0 && p.1@ == m.1,
            (Err(e), Err(message)) => e.message@ == message,
            _ => false,
        },
{
    let v = char_vec(s);
    let mut at: usize = 0;
    while at < v.len() && v[at] != '='
        invariant
            at <= v.len(),
            v@ == s@,
            forall|i: int| 0 <= i < at ==> v@[i] != '=',
        decreases v.len() - at,
    {
        at = at + 1;
    }
    proof {
        lemma_first_equals(s@, at as int);
    }
    if at == v.len() {
        return Err(
            CliError {
                message: cat3("invalid environment assignment '", s, "': expected KEY=VALUE"),
            },
        );
    }
    if at == 0 {
        return Err(
            CliError {
                message: cat3("invalid environment assignment '", s, "': key must not be empty"),
            },
        );
    }
    let key = owned(s.substring_char(0, at));
    let value = owned(s.substring_char(at + 1, v.len()));
    assert(s@.subrange(0, at as int) =~= s@.take(at as int));
    assert(s@.subrange(at + 1, s@.len() as int) =~= s@.skip(at + 1));
    Ok((key, value))
}

/// The trace mode of an argument value, letter case aside.
pub open spec fn trace_mode_value(value: Seq<char>) -> Option<TraceModeArg> {
    let v = text::ascii_lower_text(value);
    if v == "plt"@ {
        Some(TraceModeArg::Plt)
    } else if v == "libc"@ {
        Some(TraceModeArg::Libc)
    } else {
        None
    }
}

pub fn parse_trace_mode_value(value: &str) -> (r: Option<TraceModeArg>)
    ensures
        r == trace_mode_value(value@),
{
    let v = text::format_ascii_lower(value);
    if same(v.as_str(), "plt") {
        Some(TraceModeArg::Plt)
    } else if same(v.as_str(), "libc") {
        Some(TraceModeArg::Libc)
    } else {
        None
    }
}

/// The preset of an argument value, letter case aside.
pub open spec fn views_preset_value(value: Seq<char>) -> Option<AllocatorViewsPresetArg> {
    let v = text::ascii_lower_text(value);
    if v == "none"@ {
        Some(AllocatorViewsPresetArg::NoViews)
    } else if v == "basic"@ {
        Some(AllocatorViewsPresetArg::Basic)
    } else if v == "full"@ {
        Some(AllocatorViewsPresetArg::Full)
    } else {
        None
    }
}

pub fn parse_views_preset_value(value: &str) -> (r: Option<AllocatorViewsPresetArg>)
    ensures
        r == views_preset_value(value@),
{
    let v = text::format_ascii_lower(value);
    if same(v.as_str(), "none") {
        Some(AllocatorViewsPresetArg::NoViews)
    } else if same(v.as_str(), "basic") {
        Some(AllocatorViewsPresetArg::Basic)
    } else if same(v.as_str(), "full") {
        Some(AllocatorViewsPresetArg::Full)
    } else {
        None
    }
}

/// The condition that `--break-on` names.
pub open spec fn break_on_value(value: Seq<char>) -> Result<AllocatorBreakCondition, Seq<char>> {
    if value == "suspicious"@ {
        Ok(AllocatorBreakCondition::Suspicious)
    } else if value == "double-free"@ {
        Ok(AllocatorBreakCondition::DoubleFree)
    } else {
        Err("invalid --break-on value: "@ + value + "; expected suspicious or double-free"@)
    }
}

pub fn parse_allocator_break_on_condition(value: &str) -> (r: Result<
    AllocatorBreakCondition,
    CliError,
>)
    ensures
        match (r, break_on_value(value@)) {
            (Ok(c), Ok(m)) => c == m,
            (Err(e), Err(message)) => e.message@ == message,
            _ => false,
        },
{
    if same(value, "suspicious") {
        Ok(AllocatorBreakCondition::Suspicious)
    } else if same(value, "double-free") {
        Ok(AllocatorBreakCondition::DoubleFree)
    } else {
        Err(
            CliError {
                message: cat3(
                    "invalid --break-on value: ",
                    value,
                    "; expected suspicious or double-free",
                ),
            },
        )
    }
}

/// The profile names that `--glibc-profile` takes, one per line.
pub open spec fn available_profiles_text() -> Seq<char> {
    text::join(
        seq!["  auto"@, "  "@ + modern_name(), "  "@ + glibc_2_35_name()],
        "\n"@,
    )
}

pub open spec fn modern_name() -> Seq<char> {
    config::modern_profile().name@
}

pub open spec fn glibc_2_35_name() -> Seq<char> {
    config::glibc_2_35_profile().name@
}

pub fn format_available_glibc_profiles() -> (r: String)
    ensures
        r@ == available_profiles_text(),
{
    let mut lines: Vec<String> = Vec::new();
    lines.push(owned("  auto"));
    lines.push(cat2("  ", glibc_x86_64_modern().name));
    lines.push(cat2("  ", config::glibc_2_35_x86_64().name));
    assert(text::texts(lines@) =~= seq![
        "  auto"@,
        "  "@ + modern_name(),
        "  "@ + glibc_2_35_name(),
    ]);
    text::format_join(&lines, "\n")
}

/// The profile of a name, or the error that lists the known names.
pub open spec fn resolved_profile(name: Seq<char>) -> Result<GlibcProfile, Seq<char>> {
    match config::profile_named(name) {
        Some(p) => Ok(p),
        None => Err(
            "unknown glibc profile `"@ + name + "`\n\navailable profiles:\n"@
                + available_profiles_text(),
        ),
    }
}

pub fn resolve_glibc_profile(name: &str) -> (r: Result<GlibcProfile, CliError>)
    ensures
        match (r, resolved_profile(name@)) {
            (Ok(p), Ok(m)) => p == m,
            (Err(e), Err(message)) => e.message@ == message,
            _ => false,
        },
{
    match glibc_profile_by_name(name) {
        Some(p) => Ok(p),
        None => Err(
            CliError {
                message: cat4(
                    "unknown glibc profile `",
                    name,
                    "`\n\navailable profiles:\n",
                    format_available_glibc_profiles().as_str(),
                ),
            },
        ),
    }
}

/// The interception point that the mode options ask for.
pub open spec fn resolved_trace_mode(
    trace_mode: Option<TraceModeArg>,
    libc_symbols: bool,
) -> Result<AllocationTraceMode, Seq<char>> {
    if trace_mode == Some(TraceModeArg::Plt) && libc_symbols {
        Err(
            "--trace-mode plt conflicts with --libc-symbols; use --trace-mode libc or remove --libc-symbols"@,
        )
    } else if trace_mode == Some(TraceModeArg::Libc) || libc_symbols {
        Ok(AllocationTraceMode::LibcSymbols)
    } else {
        Ok(AllocationTraceMode::TargetPlt)
    }
}

pub fn resolve_trace_mode(trace_mode: Option<TraceModeArg>, libc_symbols: bool) -> (r: Result<
    AllocationTraceMode,
    CliError,
>)
    ensures
        match (r, resolved_trace_mode(trace_mode, libc_symbols)) {
            (Ok(p), Ok(m)) => p == m,
            (Err(e), Err(message)) => e.message@ == message,
            _ => false,
        },
{
    match trace_mode {
        None => if libc_symbols {
            Ok(AllocationTraceMode::LibcSymbols)
        } else {
            Ok(AllocationTraceMode::TargetPlt)
        },
        Some(TraceModeArg::Libc) => Ok(AllocationTraceMode::LibcSymbols),
        Some(TraceModeArg::Plt) => if libc_symbols {
            Err(
                error(
                    "--trace-mode plt conflicts with --libc-symbols; use --trace-mode libc or remove --libc-symbols",
                ),
            )
        } else {
            Ok(AllocationTraceMode::TargetPlt)
        },
    }
}

/// An explicit offset wins; the profile's offset counts only where it was
/// asked for and the profile has one.
pub fn select_main_arena_top_offset(
    explicit_offset: Option<u64>,
    requested_profile_offset: bool,
    profile: GlibcProfile,
) -> (r: SelectedMainArenaTopOffset)
    ensures
        match r {
            SelectedMainArenaTopOffset::User { offset } => explicit_offset == Some(offset),
            SelectedMainArenaTopOffset::Profile { offset, profile_name } => {
                &&& explicit_offset is None
                &&& requested_profile_offset
                &&& profile.main_arena_top_offset == Some(offset)
                &&& profile_name@ == profile.name@
            },
            SelectedMainArenaTopOffset::Unavailable => {
                &&& explicit_offset is None
                &&& !requested_profile_offset || profile.main_arena_top_offset is None
            },
        },
{
    if let Some(offset) = explicit_offset {
        return SelectedMainArenaTopOffset::User { offset };
    }
    if requested_profile_offset {
        if let Some(offset) = profile.main_arena_top_offset {
            return SelectedMainArenaTopOffset::Profile {
                offset,
                profile_name: owned(profile.name),
            };
        }
    }
    SelectedMainArenaTopOffset::Unavailable
}

// ---------------------------------------------------------------------------
// Allocator view presets
// ---------------------------------------------------------------------------

pub open spec fn resolved_preset(
    arg: Option<AllocatorViewsPresetArg>,
    all_allocator_views: bool,
) -> Result<AllocatorViewsPreset, Seq<char>> {
    if arg is Some && all_allocator_views {
        Err("--all-allocator-views conflicts with --allocator-views"@)
    } else if all_allocator_views {
        Ok(AllocatorViewsPreset::Full)
    } else {
        match arg {
            Some(a) => Ok(AllocatorViewsPreset::of_arg(a)),
            None => Ok(AllocatorViewsPreset::NoViews),
        }
    }
}

pub fn resolve_allocator_views_preset(
    allocator_views_arg: Option<AllocatorViewsPresetArg>,
    all_allocator_views: bool,
) -> (r: Result<AllocatorViewsPreset, CliError>)
    ensures
        match (r, resolved_preset(allocator_views_arg, all_allocator_views)) {
            (Ok(p), Ok(m)) => p == m,
            (Err(e), Err(message)) => e.message@ == message,
            _ => false,
        },
{
    if allocator_views_arg.is_some() && all_allocator_views {
        return Err(error("--all-allocator-views conflicts with --allocator-views"));
    }
    if all_allocator_views {
        return Ok(AllocatorViewsPreset::Full);
    }
    match allocator_views_arg {
        Some(arg) => Ok(AllocatorViewsPreset::from(arg)),
        None => Ok(AllocatorViewsPreset::NoViews),
    }
}

/// The switches that a preset turns on.
pub open spec fn preset_switches(preset: AllocatorViewsPreset) -> Set<Switch> {
    match preset {
        AllocatorViewsPreset::NoViews => Set::empty(),
        AllocatorViewsPreset::Basic => set![
            Switch::Layout,
            Switch::TcacheCandidates,
            Switch::HeapScan,
        ],
        AllocatorViewsPreset::Full => set![
            Switch::Layout,
            Switch::TcacheCandidates,
            Switch::HeapScan,
            Switch::MainArenaCandidate,
            Switch::MainArenaTopCandidate,
            Switch::Fastbins,
            Switch::UnsortedBin,
            Switch::RegularBins,
            Switch::Smallbins,
            Switch::Largebins,
        ],
    }
}

/// The options with the views of a preset switched on.
pub open spec fn with_preset(
    c: RenderConfigView,
    preset: AllocatorViewsPreset,
) -> RenderConfigView {
    RenderConfigView {
        allocator_views_preset: preset,
        on: c.on.union(preset_switches(preset)),
        ..c
    }
}

pub fn apply_allocator_views_preset(config: &mut RenderConfig, preset: AllocatorViewsPreset)
    ensures
        final(config)@ == with_preset(old(config)@, preset),
{
    config.allocator_views_preset = preset;
    match preset {
        AllocatorViewsPreset::NoViews => {},
        AllocatorViewsPreset::Basic => {
            config.on.insert(Switch::Layout);
            config.on.insert(Switch::TcacheCandidates);
            config.on.insert(Switch::HeapScan);
        },
        AllocatorViewsPreset::Full => {
            config.on.insert(Switch::Layout);
            config.on.insert(Switch::TcacheCandidates);
            config.on.insert(Switch::MainArenaCandidate);
            config.on.insert(Switch::MainArenaTopCandidate);
            config.on.insert(Switch::Fastbins);
            config.on.insert(Switch::UnsortedBin);
            config.on.insert(Switch::RegularBins);
            config.on.insert(Switch::Smallbins);
            config.on.insert(Switch::Largebins);
            config.on.insert(Switch::HeapScan);
        },
    }
    assert(config@.on =~= old(config)@.on.union(preset_switches(preset)));
}

// ---------------------------------------------------------------------------
// Option scanning
// ---------------------------------------------------------------------------

/// The switches that a plain option turns on.
pub open spec fn added_switches(flag: Seq<char>) -> Option<Set<Switch>> {
    if flag == "--tcache-candidates"@ {
        Some(set![Switch::TcacheCandidates])
    } else if flag == "--tcache-struct"@ {
        Some(set![Switch::TcacheStructCandidate])
    } else if flag == "--main-arena"@ {
        Some(set![Switch::MainArenaCandidate])
    } else if flag == "--arena-experiment"@ {
        Some(set![Switch::ArenaExperiment, Switch::MainArenaCandidate])
    } else if flag == "--fastbin-experiment"@ {
        Some(set![Switch::FastbinExperiment, Switch::MainArenaCandidate])
    } else if flag == "--unsorted-experiment"@ {
        Some(set![Switch::UnsortedExperiment, Switch::MainArenaCandidate])
    } else if flag == "--bin-experiment"@ {
        Some(set![Switch::BinExperiment, Switch::MainArenaCandidate])
    } else if flag == "--unsorted-bin"@ {
        Some(set![Switch::UnsortedBin, Switch::MainArenaCandidate])
    } else if flag == "--fastbins"@ {
        Some(set![Switch::Fastbins, Switch::MainArenaCandidate])
    } else if flag == "--regular-bins"@ {
        Some(set![Switch::RegularBins, Switch::MainArenaCandidate])
    } else if flag == "--smallbins"@ {
        Some(set![Switch::Smallbins, Switch::RegularBins, Switch::MainArenaCandidate])
    } else if flag == "--largebins"@ {
        Some(set![Switch::Largebins, Switch::RegularBins, Switch::MainArenaCandidate])
    } else if flag == "--heap-scan"@ {
        Some(set![Switch::HeapScan])
    } else if flag == "--main-arena-top"@ {
        Some(set![Switch::MainArenaTopCandidate, Switch::MainArenaCandidate])
    } else if flag == "--libc-symbols"@ {
        Some(set![Switch::LibcSymbols])
    } else if flag == "--clear-env"@ {
        Some(set![Switch::ClearEnv])
    } else if flag == "--json"@ {
        Some(set![Switch::Json])
    } else if flag == "--live-tui"@ {
        Some(set![Switch::LiveTui])
    } else {
        None
    }
}

fn add_switches(on: &mut SwitchSet, flag: &str) -> (known: bool)
    ensures
        match added_switches(flag@) {
            Some(s) => known && final(on)@ == old(on)@.union(s),
            None => !known && final(on)@ == old(on)@,
        },
{
    if same(flag, "--tcache-candidates") {
        on.insert(Switch::TcacheCandidates);
    } else if same(flag, "--tcache-struct") {
        on.insert(Switch::TcacheStructCandidate);
    } else if same(flag, "--main-arena") {
        on.insert(Switch::MainArenaCandidate);
    } else if same(flag, "--arena-experiment") {
        on.insert(Switch::ArenaExperiment);
        on.insert(Switch::MainArenaCandidate);
    } else if same(flag, "--fastbin-experiment") {
        on.insert(Switch::FastbinExperiment);
        on.insert(Switch::MainArenaCandidate);
    } else if same(flag, "--unsorted-experiment") {
        on.insert(Switch::UnsortedExperiment);
        on.insert(Switch::MainArenaCandidate);
    } else if same(flag, "--bin-experiment") {
        on.insert(Switch::BinExperiment);
        on.insert(Switch::MainArenaCandidate);
    } else if same(flag, "--unsorted-bin") {
        on.insert(Switch::UnsortedBin);
        on.insert(Switch::MainArenaCandidate);
    } else if same(flag, "--fastbins") {
        on.insert(Switch::Fastbins);
        on.insert(Switch::MainArenaCandidate);
    } else if same(flag, "--regular-bins") {
        on.insert(Switch::RegularBins);
        on.insert(Switch::MainArenaCandidate);
    } else if same(flag, "--smallbins") {
        on.insert(Switch::Smallbins);
        on.insert(Switch::RegularBins);
        on.insert(Switch::MainArenaCandidate);
    } else if same(flag, "--largebins") {
        on.insert(Switch::Largebins);
        on.insert(Switch::RegularBins);
        on.insert(Switch::MainArenaCandidate);
    } else if same(flag, "--heap-scan") {
        on.insert(Switch::HeapScan);
    } else if same(flag, "--main-arena-top") {
        on.insert(Switch::MainArenaTopCandidate);
        on.insert(Switch::MainArenaCandidate);
    } else if same(flag, "--libc-symbols") {
        on.insert(Switch::LibcSymbols);
    } else if same(flag, "--clear-env") {
        on.insert(Switch::ClearEnv);
    } else if same(flag, "--json") {
        on.insert(Switch::Json);
    } else if same(flag, "--live-tui") {
        on.insert(Switch::LiveTui);
    } else {
        return false;
    }
    assert(on@ =~= old(on)@.union(added_switches(flag@)->0));
    true
}

/// What has been read from the options so far.
pub struct ScanState {
    pub config: RenderConfig,
    pub views_arg: Option<AllocatorViewsPresetArg>,
    pub all_views: bool,
    pub events_only: bool,
}

/// The model of a [`ScanState`].
pub struct ScanView {
    pub config: RenderConfigView,
    pub views_arg: Option<AllocatorViewsPresetArg>,
    pub all_views: bool,
    pub events_only: bool,
}

impl View for ScanState {
    type V = ScanView;

    open spec fn view(&self) -> ScanView {
        ScanView {
            config: self.config@,
            views_arg: self.views_arg,
            all_views: self.all_views,
            events_only: self.events_only,
        }
    }
}

pub open spec fn with_on(c: RenderConfigView, on: Set<Switch>) -> RenderConfigView {
    RenderConfigView { on, ..c }
}

/// What an option without a value does.
pub open spec fn switch_step(st: ScanView, flag: Seq<char>) -> Option<ScanView> {
    let on = st.config.on;
    if flag == "--events-only"@ {
        Some(
            ScanView {
                events_only: true,
                config: with_on(
                    st.config,
                    on.remove(Switch::Chunks).remove(Switch::TrackerNotes).remove(
                        Switch::Explanations,
                    ).remove(Switch::Layout),
                ),
                ..st
            },
        )
    } else if flag == "--no-chunks"@ {
        Some(ScanView { config: with_on(st.config, on.remove(Switch::Chunks)), ..st })
    } else if flag == "--layout"@ {
        if on.contains(Switch::TrackerNotes) || on.contains(Switch::Chunks) || on.contains(
            Switch::Explanations,
        ) {
            Some(ScanView { config: with_on(st.config, on.insert(Switch::Layout)), ..st })
        } else {
            Some(st)
        }
    } else if flag == "--all-allocator-views"@ {
        Some(ScanView { all_views: true, ..st })
    } else {
        match added_switches(flag) {
            Some(s) => Some(ScanView { config: with_on(st.config, on.union(s)), ..st }),
            None => None,
        }
    }
}

fn apply_switch(st: &mut ScanState, flag: &str) -> (known: bool)
    ensures
        match switch_step(old(st)@, flag@) {
            Some(s) => known && final(st)@ == s,
            None => !known && final(st)@ == old(st)@,
        },
{
    if same(flag, "--events-only") {
        st.events_only = true;
        st.config.on.remove(Switch::Chunks);
        st.config.on.remove(Switch::TrackerNotes);
        st.config.on.remove(Switch::Explanations);
        st.config.on.remove(Switch::Layout);
        true
    } else if same(flag, "--no-chunks") {
        st.config.on.remove(Switch::Chunks);
        true
    } else if same(flag, "--layout") {
        if st.config.shows(Switch::TrackerNotes) || st.config.shows(Switch::Chunks)
            || st.config.shows(Switch::Explanations) {
            st.config.on.insert(Switch::Layout);
        }
        true
    } else if same(flag, "--all-allocator-views") {
        st.all_views = true;
        true
    } else {
        add_switches(&mut st.config.on, flag)
    }
}

/// The options with one size limit set.
pub open spec fn with_limit(c: RenderConfigView, flag: Seq<char>, n: usize) -> Option<
    RenderConfigView,
> {
    if flag == "--max-layout-chunks"@ {
        Some(RenderConfigView { max_layout_chunks: n, ..c })
    } else if flag == "--max-tcache-chain"@ {
        Some(RenderConfigView { max_tcache_chain: n, ..c })
    } else if flag == "--max-fastbin-chain"@ {
        Some(RenderConfigView { max_fastbin_chain: n, ..c })
    } else if flag == "--max-unsorted-chain"@ {
        Some(RenderConfigView { max_unsorted_chain: n, ..c })
    } else if flag == "--max-regular-bins"@ {
        Some(RenderConfigView { max_regular_bins: n, ..c })
    } else if flag == "--max-smallbin-chain"@ {
        Some(RenderConfigView { max_smallbin_chain: n, ..c })
    } else if flag == "--max-largebin-chain"@ {
        Some(RenderConfigView { max_largebin_chain: n, ..c })
    } else {
        None
    }
}

/// The options with one path set.
pub open spec fn with_path(c: RenderConfigView, flag: Seq<char>, path: Seq<char>) -> Option<
    RenderConfigView,
> {
    if flag == "--libc"@ {
        Some(RenderConfigView { supplied_libc_path: Some(path), ..c })
    } else if flag == "--ld"@ {
        Some(RenderConfigView { loader_path: Some(path), ..c })
    } else if flag == "--library-path"@ {
        Some(RenderConfigView { library_path: Some(path), ..c })
    } else if flag == "--preload"@ {
        Some(RenderConfigView { preload_path: Some(path), ..c })
    } else if flag == "--cwd"@ {
        Some(RenderConfigView { cwd: Some(path), ..c })
    } else if flag == "--json-out"@ {
        Some(RenderConfigView { json_out: Some(path), ..c })
    } else {
        None
    }
}

pub open spec fn is_limit_option(flag: Seq<char>) -> bool {
    ||| flag == "--max-layout-chunks"@
    ||| flag == "--max-tcache-chain"@
    ||| flag == "--max-fastbin-chain"@
    ||| flag == "--max-unsorted-chain"@
    ||| flag == "--max-regular-bins"@
    ||| flag == "--max-smallbin-chain"@
    ||| flag == "--max-largebin-chain"@
}

pub open spec fn is_path_option(flag: Seq<char>) -> bool {
    ||| flag == "--libc"@
    ||| flag == "--ld"@
    ||| flag == "--library-path"@
    ||| flag == "--preload"@
    ||| flag == "--cwd"@
    ||| flag == "--json-out"@
}

/// The options that take a value.
pub open spec fn takes_value(flag: Seq<char>) -> bool {
    ||| is_limit_option(flag)
    ||| is_path_option(flag)
    ||| flag == "--break-on"@
    ||| flag == "--break-on-free"@
    ||| flag == "--break-on-alloc-size"@
    ||| flag == "--allocator-views"@
    ||| flag == "--main-arena-offset"@
    ||| flag == "--main-arena-top-offset"@
    ||| flag == "--trace-mode"@
    ||| flag == "--set-env"@
    ||| flag == "--unset-env"@
    ||| flag == "--stdin-file"@
    ||| flag == "--stdin-text"@
    ||| flag == "--glibc-profile"@
}

pub open spec fn invalid_value(flag: Seq<char>, value: Seq<char>) -> Seq<char> {
    "invalid "@ + flag + " value: "@ + value
}

pub open spec fn with_break(c: RenderConfigView, b: AllocatorBreakCondition) -> RenderConfigView {
    RenderConfigView { break_conditions: c.break_conditions.push(b), ..c }
}

/// What an option with a value does to the options.
pub open spec fn config_value_step(
    c: RenderConfigView,
    flag: Seq<char>,
    value: Seq<char>,
) -> Result<RenderConfigView, Seq<char>> {
    if is_limit_option(flag) {
        match number::usize_number(value) {
            Some(n) => Ok(with_limit(c, flag, n)->0),
            None => Err(invalid_value(flag, value)),
        }
    } else if is_path_option(flag) {
        Ok(with_path(c, flag, value)->0)
    } else if flag == "--break-on"@ {
        match break_on_value(value) {
            Ok(b) => Ok(with_break(c, b)),
            Err(m) => Err(m),
        }
    } else if flag == "--break-on-free"@ {
        match number::search_number(value) {
            Some(n) => Ok(with_break(c, AllocatorBreakCondition::FreePtr(n))),
            None => Err(invalid_value(flag, value)),
        }
    } else if flag == "--break-on-alloc-size"@ {
        match number::search_number(value) {
            Some(n) => Ok(with_break(c, AllocatorBreakCondition::AllocSize(n))),
            None => Err(invalid_value(flag, value)),
        }
    } else if flag == "--main-arena-offset"@ {
        match number::auto_radix_number(value) {
            Some(n) => Ok(
                RenderConfigView {
                    main_arena_offset: Some(n),
                    on: c.on.insert(Switch::MainArenaCandidate),
                    ..c
                },
            ),
            None => Err(invalid_value(flag, value)),
        }
    } else if flag == "--main-arena-top-offset"@ {
        match number::auto_radix_number(value) {
            Some(n) => Ok(
                RenderConfigView {
                    main_arena_top_offset: Some(n),
                    on: c.on.insert(Switch::MainArenaTopCandidate).insert(
                        Switch::MainArenaCandidate,
                    ),
                    ..c
                },
            ),
            None => Err(invalid_value(flag, value)),
        }
    } else if flag == "--trace-mode"@ {
        match trace_mode_value(value) {
            Some(m) => Ok(RenderConfigView { trace_mode: Some(m), ..c }),
            None => Err(invalid_value(flag, value)),
        }
    } else if flag == "--set-env"@ {
        match env_assignment(value) {
            Ok(p) => Ok(RenderConfigView { set_env: c.set_env.push(p), ..c }),
            Err(m) => Err(m),
        }
    } else if flag == "--unset-env"@ {
        if value.len() == 0 {
            Err("invalid --unset-env value: key must not be empty"@)
        } else {
            Ok(RenderConfigView { unset_env: c.unset_env.push(value), ..c })
        }
    } else if flag == "--stdin-file"@ {
        if c.stdin is Inherit {
            Ok(RenderConfigView { stdin: StdinView::File(value), ..c })
        } else {
            Err("--stdin-file and --stdin-text are mutually exclusive"@)
        }
    } else if flag == "--stdin-text"@ {
        if c.stdin is Inherit {
            Ok(RenderConfigView { stdin: StdinView::Text(value), ..c })
        } else {
            Err("--stdin-file and --stdin-text are mutually exclusive"@)
        }
    } else {
        let profile = if value == "auto"@ {
            Ok(config::modern_profile())
        } else {
            resolved_profile(value)
        };
        match profile {
            Ok(p) => Ok(
                RenderConfigView { glibc_profile_request: value, glibc_profile: p, ..c },
            ),
            Err(m) => Err(m),
        }
    }
}

/// What an option with a value does.
pub open spec fn value_step(st: ScanView, flag: Seq<char>, value: Seq<char>) -> Result<
    ScanView,
    Seq<char>,
> {
    if flag == "--allocator-views"@ {
        match views_preset_value(value) {
            Some(v) => Ok(ScanView { views_arg: Some(v), ..st }),
            None => Err(invalid_value(flag, value)),
        }
    } else {
        match config_value_step(st.config, flag, value) {
            Ok(c) => Ok(ScanView { config: c, ..st }),
            Err(m) => Err(m),
        }
    }
}

fn set_limit(c: &mut RenderConfig, flag: &str, n: usize)
    requires
        is_limit_option(flag@),
    ensures
        Some(final(c)@) == with_limit(old(c)@, flag@, n),
{
    if same(flag, "--max-layout-chunks") {
        c.max_layout_chunks = n;
    } else if same(flag, "--max-tcache-chain") {
        c.max_tcache_chain = n;
    } else if same(flag, "--max-fastbin-chain") {
        c.max_fastbin_chain = n;
    } else if same(flag, "--max-unsorted-chain") {
        c.max_unsorted_chain = n;
    } else if same(flag, "--max-regular-bins") {
        c.max_regular_bins = n;
    } else if same(flag, "--max-smallbin-chain") {
        c.max_smallbin_chain = n;
    } else {
        c.max_largebin_chain = n;
    }
}

fn set_path(c: &mut RenderConfig, flag: &str, path: &str)
    requires
        is_path_option(flag@),
    ensures
        Some(final(c)@) == with_path(old(c)@, flag@, path@),
{
    if same(flag, "--libc") {
        c.supplied_libc_path = Some(owned(path));
    } else if same(flag, "--ld") {
        c.loader_path = Some(owned(path));
    } else if same(flag, "--library-path") {
        c.library_path = Some(owned(path));
    } else if same(flag, "--preload") {
        c.preload_path = Some(owned(path));
    } else if same(flag, "--cwd") {
        c.cwd = Some(owned(path));
    } else {
        c.json_out = Some(owned(path));
    }
}

fn is_limit(flag: &str) -> (r: bool)
    ensures
        r == is_limit_option(flag@),
{
    same(flag, "--max-layout-chunks") || same(flag, "--max-tcache-chain")
        || same(flag, "--max-fastbin-chain") || same(flag, "--max-unsorted-chain")
        || same(flag, "--max-regular-bins") || same(flag, "--max-smallbin-chain")
        || same(flag, "--max-largebin-chain")
}

fn is_path(flag: &str) -> (r: bool)
    ensures
        r == is_path_option(flag@),
{
    same(flag, "--libc") || same(flag, "--ld") || same(flag, "--library-path")
        || same(flag, "--preload") || same(flag, "--cwd") || same(flag, "--json-out")
}

fn wants_value(flag: &str) -> (r: bool)
    ensures
        r == takes_value(flag@),
{
    is_limit(flag) || is_path(flag) || same(flag, "--break-on") || same(flag, "--break-on-free")
        || same(flag, "--break-on-alloc-size") || same(flag, "--allocator-views")
        || same(flag, "--main-arena-offset") || same(flag, "--main-arena-top-offset")
        || same(flag, "--trace-mode") || same(flag, "--set-env") || same(flag, "--unset-env")
        || same(flag, "--stdin-file") || same(flag, "--stdin-text") || same(flag, "--glibc-profile")
}

fn invalid(flag: &str, value: &str) -> (e: CliError)
    ensures
        e.message@ == invalid_value(flag@, value@),
{
    CliError { message: cat4("invalid ", flag, " value: ", value) }
}

fn apply_config_value(c: &mut RenderConfig, flag: &str, value: &str) -> (r: Result<(), CliError>)
    requires
        takes_value(flag@),
        flag@ != "--allocator-views"@,
    ensures
        match (r, config_value_step(old(c)@, flag@, value@)) {
            (Ok(_), Ok(m)) => final(c)@ == m,
            (Err(e), Err(m)) => e.message@ == m,
            _ => false,
        },
{
    if is_limit(flag) {
        match parse_usize(value) {
            Some(n) => {
                set_limit(c, flag, n);
            },
            None => {
                return Err(invalid(flag, value));
            },
        }
    } else if is_path(flag) {
        set_path(c, flag, value);
    } else if same(flag, "--break-on") {
        match parse_allocator_break_on_condition(value) {
            Ok(b) => {
                c.break_conditions.push(b);
            },
            Err(e) => {
                return Err(e);
            },
        }
    } else if same(flag, "--break-on-free") {
        match parse_search_number(value) {
            Some(n) => {
                c.break_conditions.push(AllocatorBreakCondition::FreePtr(n));
            },
            None => {
                return Err(invalid(flag, value));
            },
        }
    } else if same(flag, "--break-on-alloc-size") {
        match parse_search_number(value) {
            Some(n) => {
                c.break_conditions.push(AllocatorBreakCondition::AllocSize(n));
            },
            None => {
                return Err(invalid(flag, value));
            },
        }
    } else if same(flag, "--main-arena-offset") {
        match parse_json_addr(value) {
            Some(n) => {
                c.main_arena_offset = Some(n);
                c.on.insert(Switch::MainArenaCandidate);
            },
            None => {
                return Err(invalid(flag, value));
            },
        }
    } else if same(flag, "--main-arena-top-offset") {
        match parse_json_addr(value) {
            Some(n) => {
                c.main_arena_top_offset = Some(n);
                c.on.insert(Switch::MainArenaTopCandidate);
                c.on.insert(Switch::MainArenaCandidate);
            },
            None => {
                return Err(invalid(flag, value));
            },
        }
    } else if same(flag, "--trace-mode") {
        match parse_trace_mode_value(value) {
            Some(m) => {
                c.trace_mode = Some(m);
            },
            None => {
                return Err(invalid(flag, value));
            },
        }
    } else if same(flag, "--set-env") {
        match parse_env_assignment(value) {
            Ok(p) => {
                c.set_env.push(p);
                assert(config::pair_texts(c.set_env@) =~= config::pair_texts(
                    old(c).set_env@,
                ).push((p.0@, p.1@)));
            },
            Err(e) => {
                return Err(e);
            },
        }
    } else if same(flag, "--unset-env") {
        if value.is_empty() {
            return Err(error("invalid --unset-env value: key must not be empty"));
        }
        c.unset_env.push(owned(value));
        assert(text::texts(c.unset_env@) =~= text::texts(old(c).unset_env@).push(value@));
    } else if same(flag, "--stdin-file") {
        match c.stdin {
            StdinConfig::Inherit => {
                c.stdin = StdinConfig::File(owned(value));
            },
            _ => {
                return Err(error("--stdin-file and --stdin-text are mutually exclusive"));
            },
        }
    } else if same(flag, "--stdin-text") {
        match c.stdin {
            StdinConfig::Inherit => {
                c.stdin = StdinConfig::Text(owned(value));
            },
            _ => {
                return Err(error("--stdin-file and --stdin-text are mutually exclusive"));
            },
        }
    } else {
        if same(value, "auto") {
            c.glibc_profile = glibc_x86_64_modern();
        } else {
            match resolve_glibc_profile(value) {
                Ok(p) => {
                    c.glibc_profile = p;
                },
                Err(e) => {
                    return Err(e);
                },
            }
        }
        c.glibc_profile_request = owned(value);
    }
    Ok(())
}

fn apply_value(st: &mut ScanState, flag: &str, value: &str) -> (r: Result<(), CliError>)
    requires
        takes_value(flag@),
    ensures
        match (r, value_step(old(st)@, flag@, value@)) {
            (Ok(_), Ok(m)) => final(st)@ == m,
            (Err(e), Err(m)) => e.message@ == m,
            _ => false,
        },
{
    if same(flag, "--allocator-views") {
        match parse_views_preset_value(value) {
            Some(v) => {
                st.views_arg = Some(v);
                Ok(())
            },
            None => Err(invalid(flag, value)),
        }
    } else {
        apply_config_value(&mut st.config, flag, value)
    }
}

/// Reads options from position `i` on. The result is the state behind the
/// options and the position of the first argument that is none, or the message
/// of the first option that is wrong.
pub open spec fn scan(args: Seq<Seq<char>>, i: int, st: ScanView) -> Result<
    (ScanView, int),
    Seq<char>,
>
    decreases args.len() - i,
{
    if i < 0 || i >= args.len() {
        Ok((st, args.len() as int))
    } else {
        match switch_step(st, args[i]) {
            Some(next) => scan(args, i + 1, next),
            None => if !takes_value(args[i]) {
                Ok((st, i))
            } else if i + 1 >= args.len() {
                Err("missing value for "@ + args[i])
            } else {
                match value_step(st, args[i], args[i + 1]) {
                    Ok(next) => scan(args, i + 2, next),
                    Err(m) => Err(m),
                }
            },
        }
    }
}

/// The state before any option.
pub open spec fn scan_start() -> ScanView {
    ScanView {
        config: config::default_config(),
        views_arg: None,
        all_views: false,
        events_only: false,
    }
}

/// Layout and heap scan need some per-event text beside the event line.
pub open spec fn without_orphan_views(c: RenderConfigView) -> RenderConfigView {
    if c.on.contains(Switch::Chunks) || c.on.contains(Switch::TrackerNotes) || c.on.contains(
        Switch::Explanations,
    ) {
        c
    } else {
        with_on(c, c.on.remove(Switch::Layout).remove(Switch::HeapScan))
    }
}

/// The session that a `trace-heap` command line asks for: options, program and
/// program arguments, or the message of what is wrong.
pub open spec fn trace_args(args: Seq<Seq<char>>) -> Result<
    (RenderConfigView, Seq<char>, Seq<Seq<char>>),
    Seq<char>,
> {
    match scan(args, 0, scan_start()) {
        Err(m) => Err(m),
        Ok((st, at)) => match resolved_preset(st.views_arg, st.all_views) {
            Err(m) => Err(m),
            Ok(preset) => {
                let c = without_orphan_views(with_preset(st.config, preset));
                if c.on.contains(Switch::LiveTui) && c.on.contains(Switch::Json) {
                    Err(
                        "--live-tui conflicts with --json stdout mode; use --json-out PATH to save a trace"@,
                    )
                } else if c.on.contains(Switch::LiveTui) && st.events_only {
                    Err("--live-tui conflicts with --events-only"@)
                } else if at >= args.len() {
                    Err("missing program"@)
                } else {
                    Ok((c, args[at], args.skip(at + 1)))
                }
            },
        },
    }
}

fn scan_options(args: &Vec<String>) -> (r: Result<(ScanState, usize), CliError>)
    ensures
        match (r, scan(text::texts(args@), 0, scan_start())) {
            (Ok(p), Ok(m)) => p.0@ == m.0 && p.1 == m.1,
            (Err(e), Err(m)) => e.message@ == m,
            _ => false,
        },
{
    let mut st = ScanState {
        config: RenderConfig::default(),
        views_arg: None,
        all_views: false,
        events_only: false,
    };
    let mut i: usize = 0;
    let ghost t = text::texts(args@);
    while i < args.len()
        invariant
            i <= args.len(),
            t == text::texts(args@),
            scan(t, 0, scan_start()) == scan(t, i as int, st@),
        decreases args.len() - i,
    {
        let ghost before = st@;
        assert(t[i as int] == args@[i as int]@);
        if apply_switch(&mut st, args[i].as_str()) {
            i = i + 1;
        } else if !wants_value(args[i].as_str()) {
            return Ok((st, i));
        } else if args.len() - i <= 1 {
            return Err(CliError { message: cat2("missing value for ", args[i].as_str()) });
        } else {
            assert(t[i + 1] == args@[i + 1]@);
            match apply_value(&mut st, args[i].as_str(), args[i + 1].as_str()) {
                Ok(_) => {
                    i = i + 2;
                },
                Err(e) => {
                    return Err(e);
                },
            }
        }
    }
    Ok((st, i))
}

fn strings_from(args: &Vec<String>, from: usize) -> (r: Vec<String>)
    requires
        from <= args.len(),
    ensures
        text::texts(r@) == text::texts(args@).skip(from as int),
{
    let mut out: Vec<String> = Vec::new();
    let mut i: usize = from;
    while i < args.len()
        invariant
            from <= i <= args.len(),
            out.len() == i - from,
            forall|k: int| 0 <= k < out.len() ==> (#[trigger] out@[k])@ == args@[from + k]@,
        decreases args.len() - i,
    {
        out.push(args[i].clone());
        i = i + 1;
    }
    assert(text::texts(out@) =~= text::texts(args@).skip(from as int));
    out
}

/// Reads the arguments of `trace-heap`.
pub fn parse_trace_heap_args(args: Vec<String>) -> (r: Result<
    (RenderConfig, String, Vec<String>),
    CliError,
>)
    ensures
        match (r, trace_args(text::texts(args@))) {
            (Ok(p), Ok(m)) => p.0@ == m.0 && p.1@ == m.1 && text::texts(p.2@) == m.2,
            (Err(e), Err(m)) => e.message@ == m,
            _ => false,
        },
{
    let (st, at) = match scan_options(&args) {
        Ok(p) => p,
        Err(e) => {
            return Err(e);
        },
    };
    let preset = match resolve_allocator_views_preset(st.views_arg, st.all_views) {
        Ok(p) => p,
        Err(e) => {
            return Err(e);
        },
    };
    let events_only = st.events_only;
    let mut config = st.config;
    apply_allocator_views_preset(&mut config, preset);
    if !config.shows(Switch::Chunks) && !config.shows(Switch::TrackerNotes) && !config.shows(
        Switch::Explanations,
    ) {
        config.on.remove(Switch::Layout);
        config.on.remove(Switch::HeapScan);
    }
    if config.shows(Switch::LiveTui) && config.shows(Switch::Json) {
        return Err(
            error(
                "--live-tui conflicts with --json stdout mode; use --json-out PATH to save a trace",
            ),
        );
    }
    if config.shows(Switch::LiveTui) && events_only {
        return Err(error("--live-tui conflicts with --events-only"));
    }
    if at >= args.len() {
        return Err(error("missing program"));
    }
    let program = args[at].clone();
    let target_args = strings_from(&args, at + 1);
    Ok((config, program, target_args))
}

// ---------------------------------------------------------------------------
// Laws
// ---------------------------------------------------------------------------

proof fn lemma_first_equals_at(s: Seq<char>)
    ensures
        first_equals(s) <= s.len(),
        forall|i: int| 0 <= i < first_equals(s) ==> s[i] != '=',
        first_equals(s) < s.len() ==> s[first_equals(s) as int] == '=',
    decreases s.len(),
{
    if s.len() > 0 && s[0] != '=' {
        lemma_first_equals_at(s.skip(1));
        let n = first_equals(s.skip(1));
        assert forall|i: int| 0 <= i < first_equals(s) implies s[i] != '=' by {
            if i > 0 {
                assert(s.skip(1)[i - 1] == s[i]);
            }
        }
        if n < s.skip(1).len() {
            assert(s.skip(1)[n as int] == s[(n + 1) as int]);
        }
    }
}

/// An accepted environment assignment is its key, an `=` and its value, and
/// the key holds no `=`.
pub proof fn law_env_assignment_parts(s: Seq<char>)
    requires
        env_assignment(s) is Ok,
    ensures
        env_assignment(s)->Ok_0.0.push('=') + env_assignment(s)->Ok_0.1 == s,
        env_assignment(s)->Ok_0.0.len() > 0,
        !env_assignment(s)->Ok_0.0.contains('='),
{
    lemma_first_equals_at(s);
    let at = first_equals(s) as int;
    assert(s.take(at).push('=') + s.skip(at + 1) =~= s);
}

/// A key without `=`, an `=` and any value are read back as that key and value.
pub proof fn law_env_assignment_reads_back(key: Seq<char>, value: Seq<char>)
    requires
        key.len() > 0,
        !key.contains('='),
    ensures
        env_assignment(key.push('=') + value) == Ok::<(Seq<char>, Seq<char>), Seq<char>>(
            (key, value),
        ),
{
    let s = key.push('=') + value;
    assert forall|i: int| 0 <= i < key.len() implies s[i] != '=' by {
        assert(key.contains(key[i]));
    }
    lemma_first_equals(s, key.len() as int);
    assert(s.take(key.len() as int) =~= key);
    assert(s.skip((key.len() + 1) as int) =~= value);
}

/// A preset never switches a view off.
pub proof fn law_preset_is_additive(c: RenderConfigView, preset: AllocatorViewsPreset)
    ensures
        c.on.subset_of(with_preset(c, preset).on),
{
}

/// Every view of the basic preset is one of the full preset.
pub proof fn law_full_preset_covers_basic()
    ensures
        preset_switches(AllocatorViewsPreset::Basic).subset_of(
            preset_switches(AllocatorViewsPreset::Full),
        ),
{
}

/// Every view that reads the main arena has the main arena view with it, and
/// the small and large bin views have the regular bin view with them.
pub open spec fn implied_views_on(c: RenderConfigView) -> bool {
    &&& forall|s: Switch| #[trigger] c.on.contains(s) && needs_main_arena(s) ==> c.on.contains(
        Switch::MainArenaCandidate,
    )
    &&& c.on.contains(Switch::Smallbins) ==> c.on.contains(Switch::RegularBins)
    &&& c.on.contains(Switch::Largebins) ==> c.on.contains(Switch::RegularBins)
    &&& c.main_arena_offset is Some ==> c.on.contains(Switch::MainArenaCandidate)
    &&& c.main_arena_top_offset is Some ==> c.on.contains(Switch::MainArenaTopCandidate)
}

pub open spec fn needs_main_arena(s: Switch) -> bool {
    match s {
        Switch::ArenaExperiment => true,
        Switch::FastbinExperiment => true,
        Switch::UnsortedExperiment => true,
        Switch::BinExperiment => true,
        Switch::UnsortedBin => true,
        Switch::Fastbins => true,
        Switch::RegularBins => true,
        Switch::Smallbins => true,
        Switch::Largebins => true,
        Switch::MainArenaTopCandidate => true,
        _ => false,
    }
}

proof fn lemma_switch_step_keeps(st: ScanView, flag: Seq<char>)
    requires
        implied_views_on(st.config),
        switch_step(st, flag) is Some,
    ensures
        implied_views_on(switch_step(st, flag)->0.config),
{
}

proof fn lemma_value_step_keeps(st: ScanView, flag: Seq<char>, value: Seq<char>)
    requires
        implied_views_on(st.config),
        value_step(st, flag, value) is Ok,
    ensures
        implied_views_on(value_step(st, flag, value)->Ok_0.config),
{
}

proof fn lemma_scan_keeps(args: Seq<Seq<char>>, i: int, st: ScanView)
    requires
        implied_views_on(st.config),
        scan(args, i, st) is Ok,
    ensures
        implied_views_on(scan(args, i, st)->Ok_0.0.config),
    decreases args.len() - i,
{
    if 0 <= i < args.len() {
        match switch_step(st, args[i]) {
            Some(next) => {
                lemma_switch_step_keeps(st, args[i]);
                lemma_scan_keeps(args, i + 1, next);
            },
            None => if takes_value(args[i]) && i + 1 < args.len() {
                lemma_value_step_keeps(st, args[i], args[i + 1]);
                lemma_scan_keeps(args, i + 2, value_step(st, args[i], args[i + 1])->Ok_0);
            },
        }
    }
}

/// Whatever options are given, a session that starts has every view that its
/// views depend on.
pub proof fn law_implied_views(args: Seq<Seq<char>>)
    requires
        trace_args(args) is Ok,
    ensures
        implied_views_on(trace_args(args)->Ok_0.0),
{
    lemma_scan_keeps(args, 0, scan_start());
}

/// A session without per-event text shows neither layout nor heap scan, and so
/// prints event lines only.
pub proof fn law_no_orphan_views(args: Seq<Seq<char>>)
    requires
        trace_args(args) is Ok,
        !trace_args(args)->Ok_0.0.on.contains(Switch::Chunks),
        !trace_args(args)->Ok_0.0.on.contains(Switch::TrackerNotes),
        !trace_args(args)->Ok_0.0.on.contains(Switch::Explanations),
    ensures
        trace_args(args)->Ok_0.0.events_only(),
        !trace_args(args)->Ok_0.0.on.contains(Switch::HeapScan),
{
}

/// A live session never writes JSON records to standard output.
pub proof fn law_live_tui_keeps_stdout(args: Seq<Seq<char>>)
    requires
        trace_args(args) is Ok,
        trace_args(args)->Ok_0.0.on.contains(Switch::LiveTui),
    ensures
        !trace_args(args)->Ok_0.0.json_on_stdout(),
{
}

/// The first word that is no option lies at or behind the place where the search began.
pub proof fn lemma_scan_goes_on(args: Seq<Seq<char>>, i: int, st: ScanView)
    requires
        0 <= i <= args.len(),
        scan(args, i, st) is Ok,
    ensures
        i <= scan(args, i, st)->Ok_0.1 <= args.len(),
    decreases args.len() - i,
{
    if i < args.len() {
        match switch_step(st, args[i]) {
            Some(next) => {
                lemma_scan_goes_on(args, i + 1, next);
            },
            None => if takes_value(args[i]) && i + 1 < args.len() {
                lemma_scan_goes_on(args, i + 2, value_step(st, args[i], args[i + 1])->Ok_0);
            },
        }
    }
}

/// What lies behind the first word that is no option does not matter to the options.
proof fn lemma_scan_stops(args: Seq<Seq<char>>, others: Seq<Seq<char>>, i: int, st: ScanView)
    requires
        0 <= i <= args.len(),
        scan(args, i, st) is Ok,
        scan(args, i, st)->Ok_0.1 < args.len(),
        scan(args, i, st)->Ok_0.1 < others.len(),
        forall|k: int| 0 <= k <= scan(args, i, st)->Ok_0.1 ==> #[trigger] others[k] == args[k],
    ensures
        scan(others, i, st) == scan(args, i, st),
    decreases args.len() - i,
{
    lemma_scan_goes_on(args, i, st);
    assert(others[i] == args[i]);
    match switch_step(st, args[i]) {
        Some(next) => {
            lemma_scan_stops(args, others, i + 1, next);
        },
        None => if takes_value(args[i]) {
            let next = value_step(st, args[i], args[i + 1])->Ok_0;
            lemma_scan_goes_on(args, i + 2, next);
            assert(others[i + 1] == args[i + 1]);
            lemma_scan_stops(args, others, i + 2, next);
        },
    }
}

/// What follows the program on the command line is handed to it unread, whatever options come
/// before it: other words there change neither the options nor the program.
pub proof fn law_program_arguments_are_unread(
    options: Seq<Seq<char>>,
    program: Seq<char>,
    rest: Seq<Seq<char>>,
    other_rest: Seq<Seq<char>>,
    config: RenderConfigView,
)
    requires
        trace_args(options + seq![program] + rest) == Ok::<
            (RenderConfigView, Seq<char>, Seq<Seq<char>>),
            Seq<char>,
        >((config, program, rest)),
    ensures
        trace_args(options + seq![program] + other_rest) == Ok::<
            (RenderConfigView, Seq<char>, Seq<Seq<char>>),
            Seq<char>,
        >((config, program, other_rest)),
{
    let args = options + seq![program] + rest;
    let others = options + seq![program] + other_rest;
    let at = scan(args, 0, scan_start())->Ok_0.1;
    lemma_scan_goes_on(args, 0, scan_start());
    assert(args.skip(at + 1).len() == rest.len());
    assert(at == options.len());
    lemma_scan_stops(args, others, 0, scan_start());
    assert(others.skip(at + 1) =~= other_rest);
}

/// A word that is no option is the program where no option comes before it, and the session has
/// the default options.
pub proof fn law_no_options_means_defaults(program: Seq<char>, rest: Seq<Seq<char>>)
    requires
        !takes_value(program),
        switch_step(scan_start(), program) is None,
    ensures
        trace_args(seq![program] + rest) == Ok::<
            (RenderConfigView, Seq<char>, Seq<Seq<char>>),
            Seq<char>,
        >(
            (
                with_preset(config::default_config(), AllocatorViewsPreset::NoViews),
                program,
                rest,
            ),
        ),
{
    let args = seq![program] + rest;
    assert(args[0] == program);
    assert(args.skip(1) =~= rest);
}

} // verus!
