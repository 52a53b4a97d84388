//! Options of a trace session and what they default to.

use vstd::prelude::*;
use crate::text;
use crate::text::owned;

verus! {

#[derive(Debug, Clone, Copy, PartialEq, Eq, Structural)]
pub enum TraceModeArg {
    Plt,
    Libc,
}

#[derive(Debug, Clone, Copy, PartialEq, Eq, Structural)]
pub enum AllocatorViewsPresetArg {
    NoViews,
    Basic,
    Full,
}

#[derive(Debug, Clone, Copy, PartialEq, Eq, Structural)]
pub enum AllocatorViewsPreset {
    NoViews,
    Basic,
    Full,
}

impl AllocatorViewsPreset {
    pub open spec fn label(self) -> Seq<char> {
        match self {
            AllocatorViewsPreset::NoViews => "none"@,
            AllocatorViewsPreset::Basic => "basic"@,
            AllocatorViewsPreset::Full => "full"@,
        }
    }

    pub fn as_str(self) -> (r: &'static str)
        ensures
            r@ == self.label(),
    {
        match self {
            AllocatorViewsPreset::NoViews => "none",
            AllocatorViewsPreset::Basic => "basic",
            AllocatorViewsPreset::Full => "full",
        }
    }

    /// The preset that an argument value asks for.
    pub open spec fn of_arg(value: AllocatorViewsPresetArg) -> AllocatorViewsPreset {
        match value {
            AllocatorViewsPresetArg::NoViews => AllocatorViewsPreset::NoViews,
            AllocatorViewsPresetArg::Basic => AllocatorViewsPreset::Basic,
            AllocatorViewsPresetArg::Full => AllocatorViewsPreset::Full,
        }
    }
}

impl vstd::std_specs::convert::FromSpecImpl<AllocatorViewsPresetArg> for AllocatorViewsPreset {
    open spec fn obeys_from_spec() -> bool {
        true
    }

    open spec fn from_spec(value: AllocatorViewsPresetArg) -> AllocatorViewsPreset {
        AllocatorViewsPreset::of_arg(value)
    }
}

impl From<AllocatorViewsPresetArg> for AllocatorViewsPreset {
    fn from(value: AllocatorViewsPresetArg) -> (r: AllocatorViewsPreset) {
        match value {
            AllocatorViewsPresetArg::NoViews => AllocatorViewsPreset::NoViews,
            AllocatorViewsPresetArg::Basic => AllocatorViewsPreset::Basic,
            AllocatorViewsPresetArg::Full => AllocatorViewsPreset::Full,
        }
    }
}

/// Where allocator calls are intercepted.
#[derive(Debug, Clone, Copy, PartialEq, Eq, Structural)]
pub enum AllocationTraceMode {
    TargetPlt,
    LibcSymbols,
}

/// A condition on which a live session pauses.
#[derive(Debug, Clone, Copy, PartialEq, Eq, Structural)]
pub enum AllocatorBreakCondition {
    Suspicious,
    DoubleFree,
    FreePtr(u64),
    AllocSize(u64),
}

/// Where the target reads its standard input from.
#[derive(Debug, Clone, PartialEq, Eq)]
pub enum StdinConfig {
    Inherit,
    File(String),
    Text(String),
}

/// The model of a [`StdinConfig`].
pub enum StdinView {
    Inherit,
    File(Seq<char>),
    Text(Seq<char>),
}

impl View for StdinConfig {
    type V = StdinView;

    open spec fn view(&self) -> StdinView {
        match self {
            StdinConfig::Inherit => StdinView::Inherit,
            StdinConfig::File(path) => StdinView::File(path@),
            StdinConfig::Text(text) => StdinView::Text(text@),
        }
    }
}

/// Layout facts about one glibc build.
#[derive(Debug, Clone, Copy, PartialEq, Eq)]
pub struct GlibcProfile {
    pub name: &'static str,
    pub main_arena_top_offset: Option<u64>,
    pub main_arena_fastbins_offset: Option<u64>,
    pub main_arena_unsorted_bin_offset: Option<u64>,
    pub main_arena_bins_offset: Option<u64>,
    pub main_arena_fastbin_count: Option<usize>,
    pub main_arena_bin_count: Option<usize>,
}

/// The generic profile: chunk headers only, no arena fields.
pub open spec fn modern_profile() -> GlibcProfile {
    GlibcProfile {
        name: "glibc-x86_64-modern",
        main_arena_top_offset: None,
        main_arena_fastbins_offset: None,
        main_arena_unsorted_bin_offset: None,
        main_arena_bins_offset: None,
        main_arena_fastbin_count: None,
        main_arena_bin_count: None,
    }
}

/// The profile of glibc 2.35 with its `malloc_state` field offsets.
pub open spec fn glibc_2_35_profile() -> GlibcProfile {
    GlibcProfile {
        name: "glibc-2.35-x86_64",
        main_arena_top_offset: Some(0x60),
        main_arena_fastbins_offset: Some(0x10),
        main_arena_unsorted_bin_offset: Some(0x70),
        main_arena_bins_offset: Some(0x70),
        main_arena_fastbin_count: Some(10),
        main_arena_bin_count: Some(127),
    }
}

pub fn glibc_x86_64_modern() -> (r: GlibcProfile)
    ensures
        r == modern_profile(),
{
    GlibcProfile {
        name: "glibc-x86_64-modern",
        main_arena_top_offset: None,
        main_arena_fastbins_offset: None,
        main_arena_unsorted_bin_offset: None,
        main_arena_bins_offset: None,
        main_arena_fastbin_count: None,
        main_arena_bin_count: None,
    }
}

pub fn glibc_2_35_x86_64() -> (r: GlibcProfile)
    ensures
        r == glibc_2_35_profile(),
{
    GlibcProfile {
        name: "glibc-2.35-x86_64",
        main_arena_top_offset: Some(0x60),
        main_arena_fastbins_offset: Some(0x10),
        main_arena_unsorted_bin_offset: Some(0x70),
        main_arena_bins_offset: Some(0x70),
        main_arena_fastbin_count: Some(10),
        main_arena_bin_count: Some(127),
    }
}

/// The profile of the given name.
pub open spec fn profile_named(name: Seq<char>) -> Option<GlibcProfile> {
    if name == "glibc-x86_64-modern"@ {
        Some(modern_profile())
    } else if name == "glibc-2.35-x86_64"@ {
        Some(glibc_2_35_profile())
    } else {
        None
    }
}

pub fn glibc_profile_by_name(name: &str) -> (r: Option<GlibcProfile>)
    ensures
        r == profile_named(name@),
{
    if text::same(name, "glibc-x86_64-modern") {
        Some(glibc_x86_64_modern())
    } else if text::same(name, "glibc-2.35-x86_64") {
        Some(glibc_2_35_x86_64())
    } else {
        None
    }
}

/// The top field offset that a session uses.
#[derive(Debug, Clone, PartialEq, Eq)]
pub enum SelectedMainArenaTopOffset {
    User { offset: u64 },
    Profile { offset: u64, profile_name: String },
    Unavailable,
}

/// The on/off options of a session.
#[derive(Debug, Clone, Copy, PartialEq, Eq, Structural)]
pub enum Switch {
    Chunks,
    TrackerNotes,
    Explanations,
    Layout,
    TcacheCandidates,
    TcacheStructCandidate,
    MainArenaCandidate,
    ArenaExperiment,
    FastbinExperiment,
    UnsortedExperiment,
    BinExperiment,
    UnsortedBin,
    Fastbins,
    RegularBins,
    Smallbins,
    Largebins,
    HeapScan,
    MainArenaTopCandidate,
    LibcSymbols,
    ClearEnv,
    Json,
    LiveTui,
}

/// A set of switches.
#[derive(Debug, Clone)]
pub struct SwitchSet {
    items: Vec<Switch>,
}

impl View for SwitchSet {
    type V = Set<Switch>;

    closed spec fn view(&self) -> Set<Switch> {
        Set::new(|s: Switch| self.items@.contains(s))
    }
}

impl SwitchSet {
    pub fn new() -> (r: SwitchSet)
        ensures
            r@ == Set::<Switch>::empty(),
    {
        let r = SwitchSet { items: Vec::new() };
        assert(r@ =~= Set::empty());
        r
    }

    pub fn contains(&self, s: Switch) -> (r: bool)
        ensures
            r == self@.contains(s),
    {
        let mut i: usize = 0;
        while i < self.items.len()
            invariant
                i <= self.items.len(),
                forall|k: int| 0 <= k < i ==> self.items@[k] != s,
            decreases self.items.len() - i,
        {
            if self.items[i] == s {
                assert(self.items@.contains(s));
                return true;
            }
            i = i + 1;
        }
        false
    }

    pub fn insert(&mut self, s: Switch)
        ensures
            final(self)@ == old(self)@.insert(s),
    {
        let ghost before = self.items@;
        self.items.push(s);
        assert forall|x: Switch| self@.contains(x) == old(self)@.insert(s).contains(x) by {
            assert(self.items@ == before.push(s));
            if before.contains(x) {
                let k = choose|k: int| 0 <= k < before.len() && before[k] == x;
                assert(self.items@[k] == x);
            }
            assert(self.items@[before.len() as int] == s);
        }
        assert(self@ =~= old(self)@.insert(s));
    }

    pub fn remove(&mut self, s: Switch)
        ensures
            final(self)@ == old(self)@.remove(s),
    {
        let mut kept: Vec<Switch> = Vec::new();
        let mut i: usize = 0;
        while i < self.items.len()
            invariant
                i <= self.items.len(),
                forall|x: Switch| #[trigger] kept@.contains(x) <==> (x != s
                    && self.items@.take(i as int).contains(x)),
            decreases self.items.len() - i,
        {
            let item: Switch = self.items[i];
            let ghost before = kept@;
            if item != s {
                kept.push(item);
            }
            proof {
                let now = self.items@.take(i + 1);
                let past = self.items@.take(i as int);
                assert(now =~= past.push(item));
                assert forall|x: Switch| #[trigger] kept@.contains(x) <==> (x != s
                    && now.contains(x)) by {
                    assert(past.push(item)[past.len() as int] == item);
                    if past.contains(x) {
                        let k = choose|k: int| 0 <= k < past.len() && past[k] == x;
                        assert(now[k] == x);
                    }
                    if item != s {
                        assert(kept@[before.len() as int] == item);
                        if before.contains(x) {
                            let k = choose|k: int| 0 <= k < before.len() && before[k] == x;
                            assert(kept@[k] == x);
                        }
                        if kept@.contains(x) {
                            let k = choose|k: int| 0 <= k < kept@.len() && kept@[k] == x;
                            if k < before.len() {
                                assert(before[k] == x);
                            }
                        }
                    }
                }
            }
            i = i + 1;
        }
        assert(self.items@.take(self.items.len() as int) =~= self.items@);
        self.items = kept;
        assert(self@ =~= old(self)@.remove(s));
    }
}

#[derive(Debug, Clone)]
pub struct RenderConfig {
    pub on: SwitchSet,
    pub max_layout_chunks: usize,
    pub max_tcache_chain: usize,
    pub max_fastbin_chain: usize,
    pub max_unsorted_chain: usize,
    pub max_regular_bins: usize,
    pub max_smallbin_chain: usize,
    pub max_largebin_chain: usize,
    pub main_arena_offset: Option<u64>,
    pub main_arena_top_offset: Option<u64>,
    pub trace_mode: Option<TraceModeArg>,
    pub supplied_libc_path: Option<String>,
    pub loader_path: Option<String>,
    pub library_path: Option<String>,
    pub preload_path: Option<String>,
    pub cwd: Option<String>,
    pub set_env: Vec<(String, String)>,
    pub unset_env: Vec<String>,
    pub stdin: StdinConfig,
    pub glibc_profile_request: String,
    pub glibc_profile: GlibcProfile,
    pub allocator_views_preset: AllocatorViewsPreset,
    pub json_out: Option<String>,
    pub break_conditions: Vec<AllocatorBreakCondition>,
}

/// The model of a [`RenderConfig`]: the set of its
/// switches that are on, and its other fields with text as characters.
pub struct RenderConfigView {
    pub on: Set<Switch>,
    pub max_layout_chunks: usize,
    pub max_tcache_chain: usize,
    pub max_fastbin_chain: usize,
    pub max_unsorted_chain: usize,
    pub max_regular_bins: usize,
    pub max_smallbin_chain: usize,
    pub max_largebin_chain: usize,
    pub main_arena_offset: Option<u64>,
    pub main_arena_top_offset: Option<u64>,
    pub trace_mode: Option<TraceModeArg>,
    pub supplied_libc_path: Option<Seq<char>>,
    pub loader_path: Option<Seq<char>>,
    pub library_path: Option<Seq<char>>,
    pub preload_path: Option<Seq<char>>,
    pub cwd: Option<Seq<char>>,
    pub set_env: Seq<(Seq<char>, Seq<char>)>,
    pub unset_env: Seq<Seq<char>>,
    pub stdin: StdinView,
    pub glibc_profile_request: Seq<char>,
    pub glibc_profile: GlibcProfile,
    pub allocator_views_preset: AllocatorViewsPreset,
    pub json_out: Option<Seq<char>>,
    pub break_conditions: Seq<AllocatorBreakCondition>,
}

/// The texts of a sequence of pairs.
pub open spec fn pair_texts(s: Seq<(String, String)>) -> Seq<(Seq<char>, Seq<char>)> {
    Seq::new(s.len(), |i: int| (s[i].0@, s[i].1@))
}

impl View for RenderConfig {
    type V = RenderConfigView;

    open spec fn view(&self) -> RenderConfigView {
        RenderConfigView {
            on: self.on@,
            max_layout_chunks: self.max_layout_chunks,
            max_tcache_chain: self.max_tcache_chain,
            max_fastbin_chain: self.max_fastbin_chain,
            max_unsorted_chain: self.max_unsorted_chain,
            max_regular_bins: self.max_regular_bins,
            max_smallbin_chain: self.max_smallbin_chain,
            max_largebin_chain: self.max_largebin_chain,
            main_arena_offset: self.main_arena_offset,
            main_arena_top_offset: self.main_arena_top_offset,
            trace_mode: self.trace_mode,
            supplied_libc_path: text::opt(self.supplied_libc_path),
            loader_path: text::opt(self.loader_path),
            library_path: text::opt(self.library_path),
            preload_path: text::opt(self.preload_path),
            cwd: text::opt(self.cwd),
            set_env: pair_texts(self.set_env@),
            unset_env: text::texts(self.unset_env@),
            stdin: self.stdin@,
            glibc_profile_request: self.glibc_profile_request@,
            glibc_profile: self.glibc_profile,
            allocator_views_preset: self.allocator_views_preset,
            json_out: text::opt(self.json_out),
            break_conditions: self.break_conditions@,
        }
    }
}

/// The options of a session for which nothing was asked.
pub open spec fn default_config() -> RenderConfigView {
    RenderConfigView {
        on: set![Switch::Chunks, Switch::TrackerNotes, Switch::Explanations],
        max_layout_chunks: 32,
        max_tcache_chain: 32,
        max_fastbin_chain: 32,
        max_unsorted_chain: 32,
        max_regular_bins: 16,
        max_smallbin_chain: 32,
        max_largebin_chain: 32,
        main_arena_offset: None,
        main_arena_top_offset: None,
        trace_mode: None,
        supplied_libc_path: None,
        loader_path: None,
        library_path: None,
        preload_path: None,
        cwd: None,
        set_env: Seq::empty(),
        unset_env: Seq::empty(),
        stdin: StdinView::Inherit,
        glibc_profile_request: "glibc-x86_64-modern"@,
        glibc_profile: modern_profile(),
        allocator_views_preset: AllocatorViewsPreset::NoViews,
        json_out: None,
        break_conditions: Seq::empty(),
    }
}

impl RenderConfigView {
    /// Nothing but event lines is shown.
    pub open spec fn events_only(self) -> bool {
        &&& !self.on.contains(Switch::Chunks)
        &&& !self.on.contains(Switch::TrackerNotes)
        &&& !self.on.contains(Switch::Explanations)
        &&& !self.on.contains(Switch::Layout)
    }

    /// JSON records are written, to standard output or to a file.
    pub open spec fn json_enabled(self) -> bool {
        self.on.contains(Switch::Json) || self.json_out is Some
    }

    /// Standard output carries JSON records, so no text may be printed there.
    pub open spec fn json_on_stdout(self) -> bool {
        self.on.contains(Switch::Json) && self.json_out is None
    }
}

impl Default for RenderConfig {
    fn default() -> (r: RenderConfig)
        ensures
            r@ == default_config(),
    {
        let mut on = SwitchSet::new();
        on.insert(Switch::Chunks);
        on.insert(Switch::TrackerNotes);
        on.insert(Switch::Explanations);
        let r = RenderConfig {
            on,
            max_layout_chunks: 32,
            max_tcache_chain: 32,
            max_fastbin_chain: 32,
            max_unsorted_chain: 32,
            max_regular_bins: 16,
            max_smallbin_chain: 32,
            max_largebin_chain: 32,
            main_arena_offset: None,
            main_arena_top_offset: None,
            trace_mode: None,
            supplied_libc_path: None,
            loader_path: None,
            library_path: None,
            preload_path: None,
            cwd: None,
            set_env: Vec::new(),
            unset_env: Vec::new(),
            stdin: StdinConfig::Inherit,
            glibc_profile_request: owned("glibc-x86_64-modern"),
            glibc_profile: glibc_x86_64_modern(),
            allocator_views_preset: AllocatorViewsPreset::NoViews,
            json_out: None,
            break_conditions: Vec::new(),
        };
        assert(r@.on =~= default_config().on);
        assert(r@.set_env =~= Seq::empty());
        assert(r@.unset_env =~= Seq::empty());
        assert(r@.break_conditions =~= Seq::empty());
        r
    }
}

impl RenderConfig {
    /// Whether a switch is on.
    pub fn shows(&self, s: Switch) -> (r: bool)
        ensures
            r == self@.on.contains(s),
    {
        self.on.contains(s)
    }

    pub fn events_only(&self) -> (r: bool)
        ensures
            r == self@.events_only(),
    {
        !self.shows(Switch::Chunks) && !self.shows(Switch::TrackerNotes) && !self.shows(
            Switch::Explanations,
        ) && !self.shows(Switch::Layout)
    }

    pub fn json_enabled(&self) -> (r: bool)
        ensures
            r == self@.json_enabled(),
    {
        self.shows(Switch::Json) || self.json_out.is_some()
    }

    pub fn json_on_stdout(&self) -> (r: bool)
        ensures
            r == self@.json_on_stdout(),
    {
        self.shows(Switch::Json) && self.json_out.is_none()
    }
}

} // verus!
