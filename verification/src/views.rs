//! Which views of the allocator a trace records at an event, what has to be read for each,
//! and what is recorded of what was read.

use crate::arena;
use crate::arena::{is_clean_main_arena_view, MainArenaFieldSource, MainArenaTopCandidate};
use crate::args::select_main_arena_top_offset;
use crate::config::{
    GlibcProfile, RenderConfig, RenderConfigView, SelectedMainArenaTopOffset, Switch,
};
use crate::record::{JsonAllocatorWarning, JsonTraceRecord};
use crate::text;
use crate::text::{owned, Lines};
use vstd::prelude::*;

verus! {

/// The views, in the order in which they are read at an event.
#[derive(Debug, Clone, Copy, PartialEq, Eq, Structural)]
pub enum HeapView {
    ArenaTop,
    ArenaCandidate,
    ArenaExperiment,
    FastbinExperiment,
    Fastbins,
    UnsortedBin,
    RegularBins,
    Smallbins,
    Largebins,
    UnsortedExperiment,
    BinExperiment,
    Layout,
    ObservedTcache,
    Warnings,
    HeapScan,
    TcacheStruct,
}

/// The number of views.
pub const VIEW_COUNT: usize = 16;

/// How many views are named where they are absent.
pub const MISSING_COUNT: usize = 11;

pub open spec fn view_order() -> Seq<HeapView> {
    seq![
        HeapView::ArenaTop,
        HeapView::ArenaCandidate,
        HeapView::ArenaExperiment,
        HeapView::FastbinExperiment,
        HeapView::Fastbins,
        HeapView::UnsortedBin,
        HeapView::RegularBins,
        HeapView::Smallbins,
        HeapView::Largebins,
        HeapView::UnsortedExperiment,
        HeapView::BinExperiment,
        HeapView::Layout,
        HeapView::ObservedTcache,
        HeapView::Warnings,
        HeapView::HeapScan,
        HeapView::TcacheStruct,
    ]
}

fn view_at(i: usize) -> (r: HeapView)
    requires
        i < VIEW_COUNT,
    ensures
        r == view_order()[i as int],
{
    if i == 0 {
        HeapView::ArenaTop
    } else if i == 1 {
        HeapView::ArenaCandidate
    } else if i == 2 {
        HeapView::ArenaExperiment
    } else if i == 3 {
        HeapView::FastbinExperiment
    } else if i == 4 {
        HeapView::Fastbins
    } else if i == 5 {
        HeapView::UnsortedBin
    } else if i == 6 {
        HeapView::RegularBins
    } else if i == 7 {
        HeapView::Smallbins
    } else if i == 8 {
        HeapView::Largebins
    } else if i == 9 {
        HeapView::UnsortedExperiment
    } else if i == 10 {
        HeapView::BinExperiment
    } else if i == 11 {
        HeapView::Layout
    } else if i == 12 {
        HeapView::ObservedTcache
    } else if i == 13 {
        HeapView::Warnings
    } else if i == 14 {
        HeapView::HeapScan
    } else {
        HeapView::TcacheStruct
    }
}

// ---------------------------------------------------------------------------
// What a session has shown so far
// ---------------------------------------------------------------------------

/// A set of views.
#[derive(Debug, Clone)]
pub struct ViewSet {
    items: Vec<HeapView>,
}

impl View for ViewSet {
    type V = Set<HeapView>;

    closed spec fn view(&self) -> Set<HeapView> {
        Set::new(|v: HeapView| self.items@.contains(v))
    }
}

impl ViewSet {
    pub fn new() -> (r: ViewSet)
        ensures
            r@ == Set::<HeapView>::empty(),
    {
        let r = ViewSet { items: Vec::new() };
        assert(r@ =~= Set::empty());
        r
    }

    pub fn contains(&self, v: HeapView) -> (r: bool)
        ensures
            r == self@.contains(v),
    {
        let mut i: usize = 0;
        while i < self.items.len()
            invariant
                i <= self.items.len(),
                forall|k: int| 0 <= k < i ==> self.items@[k] != v,
            decreases self.items.len() - i,
        {
            if self.items[i] == v {
                assert(self.items@.contains(v));
                return true;
            }
            i = i + 1;
        }
        false
    }

    pub fn insert(&mut self, v: HeapView)
        ensures
            final(self)@ == old(self)@.insert(v),
    {
        if self.contains(v) {
            assert(self@ =~= old(self)@.insert(v));
            return;
        }
        let ghost before = self.items@;
        self.items.push(v);
        proof {
            assert forall|x: HeapView| self@.contains(x) == old(self)@.insert(v).contains(x) by {
                let now = self.items@;
                assert(now == before.push(v));
                assert(now[before.len() as int] == v);
                if before.contains(x) {
                    let k = choose|k: int| 0 <= k < before.len() && before[k] == x;
                    assert(now[k] == x);
                }
                if now.contains(x) {
                    let k = choose|k: int| 0 <= k < now.len() && now[k] == x;
                    if k < before.len() {
                        assert(before[k] == x);
                    }
                }
            }
        }
        assert(self@ =~= old(self)@.insert(v));
    }
}

/// How many chunks each free list held at an event, and how many warnings there were.
#[derive(Debug, Clone, Copy, PartialEq, Eq, Structural)]
pub struct SourceCounts {
    pub tcache_candidate_chunks: usize,
    pub fastbin_chunks: usize,
    pub unsorted_chunks: usize,
    pub smallbin_chunks: usize,
    pub largebin_chunks: usize,
    pub total_free_list_chunks: usize,
    pub warning_count: usize,
}

/// How [`SourceCounts`] differ from those of an earlier event.
#[derive(Debug, Clone, Copy, PartialEq, Eq, Structural)]
pub struct SourceChanges {
    pub tcache_candidate_chunks_delta: isize,
    pub fastbin_chunks_delta: isize,
    pub unsorted_chunks_delta: isize,
    pub smallbin_chunks_delta: isize,
    pub largebin_chunks_delta: isize,
    pub total_free_list_chunks_delta: isize,
    pub warning_count_delta: isize,
}

/// What a session knows and has shown. The counts of the latest summary are kept: those of the
/// next one are compared with them.
#[derive(Debug, Clone)]
pub struct ViewState {
    pub arena_known: bool,
    pub regular_bins_known: bool,
    pub tcache_struct_known: bool,
    pub previous_summary: Option<SourceCounts>,
    pub shown: ViewSet,
}

/// The model of [`ViewState`].
pub struct ViewStateView {
    pub arena_known: bool,
    pub regular_bins_known: bool,
    pub tcache_struct_known: bool,
    pub previous_summary: Option<SourceCounts>,
    pub shown: Set<HeapView>,
}

impl View for ViewState {
    type V = ViewStateView;

    open spec fn view(&self) -> ViewStateView {
        ViewStateView {
            arena_known: self.arena_known,
            regular_bins_known: self.regular_bins_known,
            tcache_struct_known: self.tcache_struct_known,
            previous_summary: self.previous_summary,
            shown: self.shown@,
        }
    }
}

/// Nothing is known of a heap yet.
pub open spec fn no_views() -> ViewStateView {
    ViewStateView {
        arena_known: false,
        regular_bins_known: false,
        tcache_struct_known: false,
        previous_summary: None,
        shown: Set::empty(),
    }
}

impl ViewState {
    pub fn new() -> (r: ViewState)
        ensures
            r@ == no_views(),
    {
        ViewState {
            arena_known: false,
            regular_bins_known: false,
            tcache_struct_known: false,
            previous_summary: None,
            shown: ViewSet::new(),
        }
    }
}

impl ViewStateView {
    pub open spec fn show(self, view: HeapView) -> ViewStateView {
        ViewStateView { shown: self.shown.insert(view), ..self }
    }
}

// ---------------------------------------------------------------------------
// Which views are wanted
// ---------------------------------------------------------------------------

/// The switch that asks for a view; for the warnings there is no single one.
pub open spec fn switch_of(view: HeapView) -> Option<Switch> {
    match view {
        HeapView::ArenaTop => Some(Switch::MainArenaTopCandidate),
        HeapView::ArenaCandidate => Some(Switch::MainArenaCandidate),
        HeapView::ArenaExperiment => Some(Switch::ArenaExperiment),
        HeapView::FastbinExperiment => Some(Switch::FastbinExperiment),
        HeapView::Fastbins => Some(Switch::Fastbins),
        HeapView::UnsortedBin => Some(Switch::UnsortedBin),
        HeapView::RegularBins => Some(Switch::RegularBins),
        HeapView::Smallbins => Some(Switch::Smallbins),
        HeapView::Largebins => Some(Switch::Largebins),
        HeapView::UnsortedExperiment => Some(Switch::UnsortedExperiment),
        HeapView::BinExperiment => Some(Switch::BinExperiment),
        HeapView::Layout => Some(Switch::Layout),
        HeapView::ObservedTcache => Some(Switch::TcacheCandidates),
        HeapView::Warnings => None,
        HeapView::HeapScan => Some(Switch::HeapScan),
        HeapView::TcacheStruct => Some(Switch::TcacheStructCandidate),
    }
}

/// The views that are shown once in a session.
pub open spec fn is_once(view: HeapView) -> bool {
    match view {
        HeapView::Layout => false,
        HeapView::ObservedTcache => false,
        HeapView::Warnings => false,
        HeapView::HeapScan => false,
        HeapView::TcacheStruct => false,
        _ => true,
    }
}

/// The views that need the arena to be known.
pub open spec fn needs_arena(view: HeapView) -> bool {
    is_once(view) && view !is ArenaTop && view !is ArenaCandidate
}

/// The views that are left out where chunks are not shown.
pub open spec fn needs_chunks(view: HeapView) -> bool {
    match view {
        HeapView::ArenaTop => false,
        HeapView::ArenaCandidate => false,
        HeapView::ArenaExperiment => false,
        HeapView::Warnings => false,
        HeapView::HeapScan => false,
        _ => true,
    }
}

/// The views that only describe the arena.
pub open spec fn is_arena_view(view: HeapView) -> bool {
    view is ArenaTop || view is ArenaCandidate || view is ArenaExperiment
}

/// Whether free lists are read, so that they can be checked against each other.
pub open spec fn warnings_on(config: RenderConfigView) -> bool {
    !config.events_only() && (config.on.contains(Switch::TcacheCandidates) || config.on.contains(
        Switch::Fastbins,
    ) || config.on.contains(Switch::UnsortedBin) || config.on.contains(Switch::Smallbins)
        || config.on.contains(Switch::Largebins))
}

pub fn allocator_warnings_enabled(config: &RenderConfig) -> (r: bool)
    ensures
        r == warnings_on(config@),
{
    !config.events_only() && (config.shows(Switch::TcacheCandidates) || config.shows(
        Switch::Fastbins,
    ) || config.shows(Switch::UnsortedBin) || config.shows(Switch::Smallbins) || config.shows(
        Switch::Largebins,
    ))
}

/// Whether a view is asked for and not held back by what else is shown.
pub open spec fn enabled(config: RenderConfigView, view: HeapView) -> bool {
    &&& match switch_of(view) {
        Some(switch) => config.on.contains(switch),
        None => warnings_on(config),
    }
    &&& is_arena_view(view) || !config.events_only()
    &&& needs_chunks(view) ==> config.on.contains(Switch::Chunks)
}

/// The field of the arena that holds the address of the top chunk.
#[derive(Debug, Clone, PartialEq, Eq)]
pub struct TopField {
    pub offset: u64,
    pub source: MainArenaFieldSource,
    pub profile_name: Option<String>,
}

/// The model of a [`TopField`].
pub struct TopFieldView {
    pub offset: u64,
    pub source: MainArenaFieldSource,
    pub profile_name: Option<Seq<char>>,
}

impl View for TopField {
    type V = TopFieldView;

    open spec fn view(&self) -> TopFieldView {
        TopFieldView {
            offset: self.offset,
            source: self.source,
            profile_name: text::opt(self.profile_name),
        }
    }
}

/// The offset given on the command line, or else the profile's.
pub open spec fn top_field(config: RenderConfigView, profile: GlibcProfile) -> Option<TopFieldView> {
    match config.main_arena_top_offset {
        Some(offset) => Some(
            TopFieldView { offset, source: MainArenaFieldSource::UserOffset, profile_name: None },
        ),
        None => match profile.main_arena_top_offset {
            Some(offset) => Some(
                TopFieldView {
                    offset,
                    source: MainArenaFieldSource::GlibcProfile,
                    profile_name: Some(profile.name@),
                },
            ),
            None => None,
        },
    }
}

pub open spec fn opt_field(field: Option<TopField>) -> Option<TopFieldView> {
    match field {
        Some(f) => Some(f@),
        None => None,
    }
}

fn find_top_field(config: &RenderConfig, profile: GlibcProfile) -> (r: Option<TopField>)
    ensures
        opt_field(r) == top_field(config@, profile),
{
    match select_main_arena_top_offset(config.main_arena_top_offset, true, profile) {
        SelectedMainArenaTopOffset::User { offset } => Some(
            TopField { offset, source: MainArenaFieldSource::UserOffset, profile_name: None },
        ),
        SelectedMainArenaTopOffset::Profile { offset, profile_name } => Some(
            TopField {
                offset,
                source: MainArenaFieldSource::GlibcProfile,
                profile_name: Some(profile_name),
            },
        ),
        SelectedMainArenaTopOffset::Unavailable => None,
    }
}

/// Whether a view is read at an event.
pub open spec fn wanted(
    config: RenderConfigView,
    profile: GlibcProfile,
    state: ViewStateView,
    view: HeapView,
) -> bool {
    &&& enabled(config, view)
    &&& is_once(view) ==> !state.shown.contains(view)
    &&& needs_arena(view) ==> state.arena_known
    &&& view is ArenaTop ==> top_field(config, profile) is Some
}

fn is_enabled(config: &RenderConfig, view: HeapView) -> (r: bool)
    ensures
        r == enabled(config@, view),
{
    let on = match view {
        HeapView::ArenaTop => config.shows(Switch::MainArenaTopCandidate),
        HeapView::ArenaCandidate => config.shows(Switch::MainArenaCandidate),
        HeapView::ArenaExperiment => config.shows(Switch::ArenaExperiment),
        HeapView::FastbinExperiment => config.shows(Switch::FastbinExperiment),
        HeapView::Fastbins => config.shows(Switch::Fastbins),
        HeapView::UnsortedBin => config.shows(Switch::UnsortedBin),
        HeapView::RegularBins => config.shows(Switch::RegularBins),
        HeapView::Smallbins => config.shows(Switch::Smallbins),
        HeapView::Largebins => config.shows(Switch::Largebins),
        HeapView::UnsortedExperiment => config.shows(Switch::UnsortedExperiment),
        HeapView::BinExperiment => config.shows(Switch::BinExperiment),
        HeapView::Layout => config.shows(Switch::Layout),
        HeapView::ObservedTcache => config.shows(Switch::TcacheCandidates),
        HeapView::Warnings => allocator_warnings_enabled(config),
        HeapView::HeapScan => config.shows(Switch::HeapScan),
        HeapView::TcacheStruct => config.shows(Switch::TcacheStructCandidate),
    };
    let arena_view = match view {
        HeapView::ArenaTop | HeapView::ArenaCandidate | HeapView::ArenaExperiment => true,
        _ => false,
    };
    let chunkless = match view {
        HeapView::ArenaTop
        | HeapView::ArenaCandidate
        | HeapView::ArenaExperiment
        | HeapView::Warnings
        | HeapView::HeapScan => true,
        _ => false,
    };
    on && (arena_view || !config.events_only()) && (chunkless || config.shows(Switch::Chunks))
}

pub fn is_wanted(
    config: &RenderConfig,
    profile: GlibcProfile,
    state: &ViewState,
    view: HeapView,
) -> (r: bool)
    ensures
        r == wanted(config@, profile, state@, view),
{
    if !is_enabled(config, view) {
        return false;
    }
    match view {
        HeapView::Layout | HeapView::ObservedTcache | HeapView::Warnings | HeapView::HeapScan
        | HeapView::TcacheStruct => true,
        HeapView::ArenaTop => !state.shown.contains(view) && find_top_field(config, profile).is_some(),
        HeapView::ArenaCandidate => !state.shown.contains(view),
        _ => !state.shown.contains(view) && state.arena_known,
    }
}

/// Whether a view is printed while the target runs: as it is recorded, and never where only
/// events are shown.
pub fn is_printed(
    config: &RenderConfig,
    profile: GlibcProfile,
    state: &ViewState,
    view: HeapView,
) -> (r: bool)
    ensures
        r == (wanted(config@, profile, state@, view) && !config@.events_only()),
{
    is_wanted(config, profile, state, view) && !config.events_only()
}

// ---------------------------------------------------------------------------
// What is read
// ---------------------------------------------------------------------------

/// What has to be read for a view: the arena's address first, or the regular bins, or the
/// chunk of the tcache structure, where they are not known yet; for a heap scan, whether the
/// heap is walked, and the top field to check; whether the frees that were seen count; and for
/// the warnings, the earlier counts that the new ones are compared with.
#[derive(Debug, Clone, PartialEq, Eq)]
pub struct Probe {
    pub view: HeapView,
    pub resolve_arena: bool,
    pub read_regular_bins: bool,
    pub find_tcache_struct: bool,
    pub walk_heap: bool,
    pub with_tcache: bool,
    pub top: Option<TopField>,
    pub previous_summary: Option<SourceCounts>,
}

/// The model of a [`Probe`].
pub struct ProbeView {
    pub view: HeapView,
    pub resolve_arena: bool,
    pub read_regular_bins: bool,
    pub find_tcache_struct: bool,
    pub walk_heap: bool,
    pub with_tcache: bool,
    pub top: Option<TopFieldView>,
    pub previous_summary: Option<SourceCounts>,
}

impl View for Probe {
    type V = ProbeView;

    open spec fn view(&self) -> ProbeView {
        ProbeView {
            view: self.view,
            resolve_arena: self.resolve_arena,
            read_regular_bins: self.read_regular_bins,
            find_tcache_struct: self.find_tcache_struct,
            walk_heap: self.walk_heap,
            with_tcache: self.with_tcache,
            top: opt_field(self.top),
            previous_summary: self.previous_summary,
        }
    }
}

pub open spec fn probe_for(
    config: RenderConfigView,
    profile: GlibcProfile,
    state: ViewStateView,
    view: HeapView,
) -> ProbeView {
    let chunks = config.on.contains(Switch::Chunks);
    let checks_top = view is HeapScan && chunks && state.arena_known && config.on.contains(
        Switch::MainArenaTopCandidate,
    );
    ProbeView {
        view,
        resolve_arena: (view is ArenaTop || view is ArenaCandidate) && !state.arena_known,
        read_regular_bins: (view is Smallbins || view is Largebins) && !state.regular_bins_known,
        find_tcache_struct: view is TcacheStruct && !state.tcache_struct_known,
        walk_heap: view is HeapScan && chunks,
        with_tcache: config.on.contains(Switch::TcacheCandidates),
        top: if view is ArenaTop || checks_top {
            top_field(config, profile)
        } else {
            None
        },
        previous_summary: if view is Warnings {
            state.previous_summary
        } else {
            None
        },
    }
}

fn make_probe(
    config: &RenderConfig,
    profile: GlibcProfile,
    state: &ViewState,
    view: HeapView,
) -> (r: Probe)
    ensures
        r@ == probe_for(config@, profile, state@, view),
{
    let chunks = config.shows(Switch::Chunks);
    let scan = view == HeapView::HeapScan;
    let arena_top = view == HeapView::ArenaTop;
    let checks_top = scan && chunks && state.arena_known && config.shows(
        Switch::MainArenaTopCandidate,
    );
    Probe {
        view,
        resolve_arena: (arena_top || view == HeapView::ArenaCandidate) && !state.arena_known,
        read_regular_bins: (view == HeapView::Smallbins || view == HeapView::Largebins)
            && !state.regular_bins_known,
        find_tcache_struct: view == HeapView::TcacheStruct && !state.tcache_struct_known,
        walk_heap: scan && chunks,
        with_tcache: config.shows(Switch::TcacheCandidates),
        top: if arena_top || checks_top {
            find_top_field(config, profile)
        } else {
            None
        },
        previous_summary: if view == HeapView::Warnings {
            state.previous_summary
        } else {
            None
        },
    }
}

/// The place of the first view from `i` on that is wanted.
pub open spec fn next_place(
    config: RenderConfigView,
    profile: GlibcProfile,
    state: ViewStateView,
    i: int,
) -> Option<int>
    decreases VIEW_COUNT - i,
{
    if i < 0 || i >= VIEW_COUNT {
        None
    } else if wanted(config, profile, state, view_order()[i]) {
        Some(i)
    } else {
        next_place(config, profile, state, i + 1)
    }
}

/// The next view to read at an event, after those before place `from` are done: its place,
/// and what has to be read for it.
pub fn next_probe(
    config: &RenderConfig,
    profile: GlibcProfile,
    state: &ViewState,
    from: usize,
) -> (r: Option<(usize, Probe)>)
    ensures
        match (r, next_place(config@, profile, state@, from as int)) {
            (Some((place, probe)), Some(i)) => place == i && probe@ == probe_for(
                config@,
                profile,
                state@,
                view_order()[i],
            ),
            (None, None) => true,
            _ => false,
        },
{
    let mut i: usize = from;
    while i < VIEW_COUNT
        invariant
            from <= i,
            next_place(config@, profile, state@, from as int) == next_place(
                config@,
                profile,
                state@,
                i as int,
            ),
        decreases VIEW_COUNT - i,
    {
        let view = view_at(i);
        if is_wanted(config, profile, state, view) {
            return Some((i, make_probe(config, profile, state, view)));
        }
        i = i + 1;
    }
    None
}

// ---------------------------------------------------------------------------
// What is recorded
// ---------------------------------------------------------------------------

/// The arena's top word, and the two records that can be made of it.
#[derive(Debug, Clone, PartialEq, Eq)]
pub struct TopReading {
    pub top: MainArenaTopCandidate,
    pub view: JsonTraceRecord,
    pub candidate: JsonTraceRecord,
}

/// A view that was read, and the outcome of its consistency checks where it has any.
#[derive(Debug, Clone, PartialEq, Eq)]
pub struct ViewReading {
    pub record: JsonTraceRecord,
    pub validation: Option<JsonTraceRecord>,
}

/// What came of a probe. The changes of a reply to the warnings' probe are against the counts
/// that the probe hands over; how they are computed is the debugger's matter.
#[derive(Debug, Clone, PartialEq, Eq)]
pub enum Reply {
    Nothing,
    ArenaTop { arena_found: bool, reading: Option<TopReading> },
    ArenaCandidate { record: Option<JsonTraceRecord> },
    Read { reading: ViewReading },
    Bins { regular_bins: Option<JsonTraceRecord>, reading: Option<ViewReading> },
    Warnings {
        event_id: usize,
        summary: SourceCounts,
        delta: SourceChanges,
        warnings: Vec<JsonAllocatorWarning>,
    },
    TcacheStruct {
        candidate: Option<JsonTraceRecord>,
        comparison: Option<JsonTraceRecord>,
        validation: Option<JsonTraceRecord>,
    },
}

/// The state after a probe, and what is recorded.
pub struct Recorded {
    pub state: ViewStateView,
    pub records: Seq<JsonTraceRecord>,
}

pub open spec fn nothing(state: ViewStateView) -> Recorded {
    Recorded { state, records: Seq::empty() }
}

pub open spec fn opt_record(record: Option<JsonTraceRecord>) -> Seq<JsonTraceRecord> {
    match record {
        Some(r) => seq![r],
        None => Seq::empty(),
    }
}

pub open spec fn summary_record(event_id: usize, counts: SourceCounts) -> JsonTraceRecord {
    JsonTraceRecord::AllocatorSourceSummary {
        event_id,
        tcache_candidate_chunks: counts.tcache_candidate_chunks,
        fastbin_chunks: counts.fastbin_chunks,
        unsorted_chunks: counts.unsorted_chunks,
        smallbin_chunks: counts.smallbin_chunks,
        largebin_chunks: counts.largebin_chunks,
        total_free_list_chunks: counts.total_free_list_chunks,
        warning_count: counts.warning_count,
    }
}

pub open spec fn delta_record(event_id: usize, changes: SourceChanges) -> JsonTraceRecord {
    JsonTraceRecord::AllocatorSourceDelta {
        event_id,
        tcache_candidate_chunks_delta: changes.tcache_candidate_chunks_delta,
        fastbin_chunks_delta: changes.fastbin_chunks_delta,
        unsorted_chunks_delta: changes.unsorted_chunks_delta,
        smallbin_chunks_delta: changes.smallbin_chunks_delta,
        largebin_chunks_delta: changes.largebin_chunks_delta,
        total_free_list_chunks_delta: changes.total_free_list_chunks_delta,
        warning_count_delta: changes.warning_count_delta,
    }
}

/// The counts and their changes are recorded, and the warnings where there are any; the counts
/// are then those that the next ones are compared with.
pub open spec fn warnings_recorded(
    state: ViewStateView,
    event_id: usize,
    summary: SourceCounts,
    delta: SourceChanges,
    warnings: Vec<JsonAllocatorWarning>,
) -> Recorded {
    Recorded {
        state: ViewStateView { previous_summary: Some(summary), ..state },
        records: seq![summary_record(event_id, summary), delta_record(event_id, delta)] + (
        if warnings@.len() > 0 {
            seq![JsonTraceRecord::AllocatorWarnings { event_id, warnings }]
        } else {
            seq![]
        }),
    }
}

/// A view that was read is recorded with its checks, and counts as shown.
pub open spec fn reading_recorded(
    state: ViewStateView,
    view: HeapView,
    reading: ViewReading,
) -> Recorded {
    Recorded {
        state: if is_once(view) {
            ViewStateView {
                regular_bins_known: state.regular_bins_known || view is RegularBins,
                ..state.show(view)
            }
        } else {
            state
        },
        records: seq![reading.record] + opt_record(reading.validation),
    }
}

/// Small and large bins hang on the regular bins: those are recorded on the way where they
/// were read first and are asked for.
pub open spec fn bins_recorded(
    config: RenderConfigView,
    state: ViewStateView,
    probe: ProbeView,
    regular_bins: Option<JsonTraceRecord>,
    reading: Option<ViewReading>,
) -> Recorded {
    if probe.read_regular_bins && regular_bins is None {
        nothing(state)
    } else {
        let records_regular = probe.read_regular_bins && config.on.contains(Switch::RegularBins)
            && !state.shown.contains(HeapView::RegularBins);
        let known = ViewStateView { regular_bins_known: true, ..state };
        let next = if records_regular {
            known.show(HeapView::RegularBins)
        } else {
            known
        };
        let before = if records_regular {
            opt_record(regular_bins)
        } else {
            Seq::empty()
        };
        match reading {
            Some(r) => {
                let last = reading_recorded(next, probe.view, r);
                Recorded { state: last.state, records: before + last.records }
            },
            None => Recorded { state: next, records: before },
        }
    }
}

/// The state and the records after a reply to a probe. A reply of another kind than the
/// probe counts as none.
pub open spec fn recorded(
    config: RenderConfigView,
    state: ViewStateView,
    probe: ProbeView,
    reply: Reply,
) -> Recorded {
    match (reply, probe.view) {
        (Reply::ArenaTop { arena_found, reading }, HeapView::ArenaTop) => {
            let known = ViewStateView {
                arena_known: state.arena_known || arena_found,
                ..state
            };
            match (reading, probe.top) {
                (Some(r), Some(field)) => if !known.arena_known {
                    nothing(known)
                } else if arena::is_clean(field.source, r.top.status) {
                    Recorded {
                        state: known.show(HeapView::ArenaCandidate).show(HeapView::ArenaTop),
                        records: seq![r.view],
                    }
                } else {
                    Recorded { state: known.show(HeapView::ArenaTop), records: seq![r.candidate] }
                },
                _ => nothing(known),
            }
        },
        (Reply::ArenaCandidate { record: Some(r) }, HeapView::ArenaCandidate) => Recorded {
            state: (ViewStateView { arena_known: true, ..state }).show(HeapView::ArenaCandidate),
            records: seq![r],
        },
        (Reply::Bins { regular_bins, reading }, HeapView::Smallbins) => bins_recorded(
            config,
            state,
            probe,
            regular_bins,
            reading,
        ),
        (Reply::Bins { regular_bins, reading }, HeapView::Largebins) => bins_recorded(
            config,
            state,
            probe,
            regular_bins,
            reading,
        ),
        (
            Reply::Warnings { event_id, summary, delta, warnings },
            HeapView::Warnings,
        ) => warnings_recorded(state, event_id, summary, delta, warnings),
        (
            Reply::TcacheStruct { candidate: Some(c), comparison, validation },
            HeapView::TcacheStruct,
        ) => {
            let first = !state.shown.contains(HeapView::TcacheStruct);
            Recorded {
                state: (ViewStateView { tcache_struct_known: true, ..state }).show(
                    HeapView::TcacheStruct,
                ),
                records: (if first {
                    seq![c]
                } else {
                    Seq::empty()
                }) + (if probe.with_tcache {
                    opt_record(comparison) + opt_record(validation)
                } else {
                    Seq::empty()
                }),
            }
        },
        (Reply::Read { reading }, HeapView::ArenaExperiment) => reading_recorded(
            state,
            probe.view,
            reading,
        ),
        (Reply::Read { reading }, HeapView::FastbinExperiment) => reading_recorded(
            state,
            probe.view,
            reading,
        ),
        (Reply::Read { reading }, HeapView::Fastbins) => reading_recorded(state, probe.view, reading),
        (Reply::Read { reading }, HeapView::UnsortedBin) =>
            reading_recorded(state, probe.view, reading),
        (Reply::Read { reading }, HeapView::RegularBins) =>
            reading_recorded(state, probe.view, reading),
        (Reply::Read { reading }, HeapView::UnsortedExperiment) => reading_recorded(
            state,
            probe.view,
            reading,
        ),
        (Reply::Read { reading }, HeapView::BinExperiment) => reading_recorded(
            state,
            probe.view,
            reading,
        ),
        (Reply::Read { reading }, HeapView::Layout) => reading_recorded(state, probe.view, reading),
        (Reply::Read { reading }, HeapView::ObservedTcache) => reading_recorded(
            state,
            probe.view,
            reading,
        ),
        (Reply::Read { reading }, HeapView::HeapScan) => reading_recorded(state, probe.view, reading),
        _ => nothing(state),
    }
}

fn add_opt(records: &mut Vec<JsonTraceRecord>, record: Option<JsonTraceRecord>)
    ensures
        final(records)@ == old(records)@ + opt_record(record),
{
    if let Some(r) = record {
        records.push(r);
    }
    assert(records@ =~= old(records)@ + opt_record(record));
}

fn record_reading(
    state: &mut ViewState,
    view: HeapView,
    reading: ViewReading,
    records: &mut Vec<JsonTraceRecord>,
)
    ensures
        final(state)@ == reading_recorded(old(state)@, view, reading).state,
        final(records)@ == old(records)@ + reading_recorded(old(state)@, view, reading).records,
{
    let once = match view {
        HeapView::Layout | HeapView::ObservedTcache | HeapView::Warnings | HeapView::HeapScan
        | HeapView::TcacheStruct => false,
        _ => true,
    };
    if once {
        state.shown.insert(view);
        if view == HeapView::RegularBins {
            state.regular_bins_known = true;
        }
    }
    records.push(reading.record);
    add_opt(records, reading.validation);
    assert(records@ =~= old(records)@ + reading_recorded(old(state)@, view, reading).records);
}

fn record_bins(
    config: &RenderConfig,
    state: &mut ViewState,
    probe: &Probe,
    regular_bins: Option<JsonTraceRecord>,
    reading: Option<ViewReading>,
) -> (r: Vec<JsonTraceRecord>)
    ensures
        final(state)@ == bins_recorded(config@, old(state)@, probe@, regular_bins, reading).state,
        r@ == bins_recorded(config@, old(state)@, probe@, regular_bins, reading).records,
{
    let mut records: Vec<JsonTraceRecord> = Vec::new();
    if probe.read_regular_bins && regular_bins.is_none() {
        return records;
    }
    let records_regular = probe.read_regular_bins && config.shows(Switch::RegularBins)
        && !state.shown.contains(HeapView::RegularBins);
    state.regular_bins_known = true;
    if records_regular {
        state.shown.insert(HeapView::RegularBins);
        add_opt(&mut records, regular_bins);
    }
    let ghost before = records@;
    assert(before =~= if records_regular {
        opt_record(regular_bins)
    } else {
        Seq::empty()
    });
    if let Some(reading) = reading {
        record_reading(state, probe.view, reading, &mut records);
    }
    records
}

fn record_top(
    state: &mut ViewState,
    probe: &Probe,
    arena_found: bool,
    reading: Option<TopReading>,
    config: &RenderConfig,
) -> (r: Vec<JsonTraceRecord>)
    requires
        probe.view is ArenaTop,
    ensures
        final(state)@ == recorded(
            config@,
            old(state)@,
            probe@,
            (Reply::ArenaTop { arena_found, reading }),
        ).state,
        r@ == recorded(
            config@,
            old(state)@,
            probe@,
            (Reply::ArenaTop { arena_found, reading }),
        ).records,
{
    let mut records: Vec<JsonTraceRecord> = Vec::new();
    if arena_found {
        state.arena_known = true;
    }
    if let Some(r) = reading {
        if let Some(field) = &probe.top {
            if state.arena_known {
                let mut top = r.top;
                top.source = field.source;
                if is_clean_main_arena_view(&top) {
                    state.shown.insert(HeapView::ArenaCandidate);
                    records.push(r.view);
                } else {
                    records.push(r.candidate);
                }
                state.shown.insert(HeapView::ArenaTop);
            }
        }
    }
    records
}

fn json_summary(event_id: usize, counts: SourceCounts) -> (r: JsonTraceRecord)
    ensures
        r == summary_record(event_id, counts),
{
    JsonTraceRecord::AllocatorSourceSummary {
        event_id,
        tcache_candidate_chunks: counts.tcache_candidate_chunks,
        fastbin_chunks: counts.fastbin_chunks,
        unsorted_chunks: counts.unsorted_chunks,
        smallbin_chunks: counts.smallbin_chunks,
        largebin_chunks: counts.largebin_chunks,
        total_free_list_chunks: counts.total_free_list_chunks,
        warning_count: counts.warning_count,
    }
}

fn json_delta(event_id: usize, changes: SourceChanges) -> (r: JsonTraceRecord)
    ensures
        r == delta_record(event_id, changes),
{
    JsonTraceRecord::AllocatorSourceDelta {
        event_id,
        tcache_candidate_chunks_delta: changes.tcache_candidate_chunks_delta,
        fastbin_chunks_delta: changes.fastbin_chunks_delta,
        unsorted_chunks_delta: changes.unsorted_chunks_delta,
        smallbin_chunks_delta: changes.smallbin_chunks_delta,
        largebin_chunks_delta: changes.largebin_chunks_delta,
        total_free_list_chunks_delta: changes.total_free_list_chunks_delta,
        warning_count_delta: changes.warning_count_delta,
    }
}

fn record_warnings(
    state: &mut ViewState,
    event_id: usize,
    summary: SourceCounts,
    delta: SourceChanges,
    warnings: Vec<JsonAllocatorWarning>,
) -> (r: Vec<JsonTraceRecord>)
    ensures
        final(state)@ == warnings_recorded(old(state)@, event_id, summary, delta, warnings).state,
        r@ == warnings_recorded(old(state)@, event_id, summary, delta, warnings).records,
{
    let ghost want = warnings_recorded(old(state)@, event_id, summary, delta, warnings).records;
    let mut records: Vec<JsonTraceRecord> = Vec::new();
    records.push(json_summary(event_id, summary));
    records.push(json_delta(event_id, delta));
    if warnings.len() > 0 {
        records.push(JsonTraceRecord::AllocatorWarnings { event_id, warnings });
    }
    state.previous_summary = Some(summary);
    assert(records@ =~= want);
    records
}

/// Takes note of what came of a probe, and gives what is recorded of it, in order.
pub fn apply_reply(
    config: &RenderConfig,
    state: &mut ViewState,
    probe: &Probe,
    reply: Reply,
) -> (r: Vec<JsonTraceRecord>)
    ensures
        final(state)@ == recorded(config@, old(state)@, probe@, reply).state,
        r@ == recorded(config@, old(state)@, probe@, reply).records,
{
    match reply {
        Reply::ArenaTop { arena_found, reading } => match probe.view {
            HeapView::ArenaTop => record_top(state, probe, arena_found, reading, config),
            _ => Vec::new(),
        },
        Reply::ArenaCandidate { record } => {
            let mut records: Vec<JsonTraceRecord> = Vec::new();
            if let Some(r) = record {
                if let HeapView::ArenaCandidate = probe.view {
                    state.arena_known = true;
                    state.shown.insert(HeapView::ArenaCandidate);
                    records.push(r);
                }
            }
            records
        },
        Reply::Read { reading } => {
            let mut records: Vec<JsonTraceRecord> = Vec::new();
            match probe.view {
                HeapView::ArenaTop | HeapView::ArenaCandidate | HeapView::Smallbins | HeapView::Largebins
                | HeapView::Warnings | HeapView::TcacheStruct => {},
                _ => {
                    record_reading(state, probe.view, reading, &mut records);
                    assert(records@ =~= reading_recorded(old(state)@, probe.view, reading).records);
                },
            }
            records
        },
        Reply::Bins { regular_bins, reading } => match probe.view {
            HeapView::Smallbins | HeapView::Largebins => record_bins(
                config,
                state,
                probe,
                regular_bins,
                reading,
            ),
            _ => Vec::new(),
        },
        Reply::Warnings { event_id, summary, delta, warnings } => match probe.view {
            HeapView::Warnings => record_warnings(state, event_id, summary, delta, warnings),
            _ => Vec::new(),
        },
        Reply::TcacheStruct { candidate, comparison, validation } => {
            let mut records: Vec<JsonTraceRecord> = Vec::new();
            if let Some(c) = candidate {
                if let HeapView::TcacheStruct = probe.view {
                    let first = !state.shown.contains(HeapView::TcacheStruct);
                    state.tcache_struct_known = true;
                    state.shown.insert(HeapView::TcacheStruct);
                    if first {
                        records.push(c);
                    }
                    if probe.with_tcache {
                        add_opt(&mut records, comparison);
                        add_opt(&mut records, validation);
                    }
                    assert(records@ =~= (if first {
                        seq![c]
                    } else {
                        Seq::empty()
                    }) + (if probe.with_tcache {
                        opt_record(comparison) + opt_record(validation)
                    } else {
                        Seq::empty()
                    }));
                }
            }
            records
        },
        Reply::Nothing => Vec::new(),
    }
}

// ---------------------------------------------------------------------------
// Views that never came
// ---------------------------------------------------------------------------

/// The title of a view that was asked for and could not be read.
pub open spec fn missing_title(view: HeapView) -> Seq<char> {
    match view {
        HeapView::ArenaTop => "main_arena top candidate: unavailable"@,
        HeapView::ArenaCandidate => "main_arena candidate: unavailable"@,
        HeapView::ArenaExperiment => "main_arena experiment: unavailable"@,
        HeapView::FastbinExperiment => "fastbin experiment: unavailable"@,
        HeapView::Fastbins => "fastbins: unavailable"@,
        HeapView::UnsortedBin => "unsorted bin: unavailable"@,
        HeapView::RegularBins => "regular bins: unavailable"@,
        HeapView::Smallbins => "smallbins: unavailable"@,
        HeapView::Largebins => "largebins: unavailable"@,
        HeapView::UnsortedExperiment => "unsorted bin experiment: unavailable"@,
        HeapView::BinExperiment => "bin experiment: unavailable"@,
        _ => Seq::empty(),
    }
}

/// Why a view could not be read.
pub open spec fn missing_reason(
    profile: GlibcProfile,
    state: ViewStateView,
    view: HeapView,
) -> Seq<char> {
    if view is ArenaTop {
        "    reason: active glibc profile does not define main_arena top offset"@
    } else if view is ArenaCandidate {
        "    reason: symbol main_arena not found in loaded libc"@
    } else if view is UnsortedBin && profile.main_arena_unsorted_bin_offset is None {
        "    reason: active glibc profile does not define unsorted bin offset"@
    } else if view is Fastbins && (profile.main_arena_fastbins_offset is None
        || profile.main_arena_fastbin_count is None) {
        "    reason: active glibc profile does not define fastbin offsets"@
    } else if (view is RegularBins || view is Smallbins || view is Largebins) && (
    profile.main_arena_bins_offset is None || profile.main_arena_bin_count is None) {
        "    reason: active glibc profile does not define regular bin metadata"@
    } else if !state.arena_known {
        "    reason: main_arena candidate unavailable"@
    } else {
        "    reason: heap snapshot unavailable"@
    }
}

/// Whether the absence of a view is worth a word: it was asked for and not shown; an arena
/// that is known needs none, and a top field only where there is no offset for it.
pub open spec fn is_missing(
    config: RenderConfigView,
    profile: GlibcProfile,
    state: ViewStateView,
    view: HeapView,
) -> bool {
    &&& is_once(view)
    &&& enabled(config, view)
    &&& !config.events_only()
    &&& !state.shown.contains(view)
    &&& view is ArenaCandidate ==> !state.arena_known
    &&& view is ArenaTop ==> top_field(config, profile) is None
}

pub open spec fn missing_lines(
    config: RenderConfigView,
    profile: GlibcProfile,
    state: ViewStateView,
    view: HeapView,
) -> Seq<Seq<char>> {
    if is_missing(config, profile, state, view) {
        seq![missing_title(view), missing_reason(profile, state, view)]
    } else {
        Seq::empty()
    }
}

/// The order in which absent views are named.
pub open spec fn missing_order() -> Seq<HeapView> {
    seq![
        HeapView::ArenaCandidate,
        HeapView::ArenaExperiment,
        HeapView::FastbinExperiment,
        HeapView::Fastbins,
        HeapView::UnsortedBin,
        HeapView::RegularBins,
        HeapView::Smallbins,
        HeapView::Largebins,
        HeapView::UnsortedExperiment,
        HeapView::BinExperiment,
        HeapView::ArenaTop,
    ]
}

/// The lines for the first `n` views of that order.
pub open spec fn all_missing(
    config: RenderConfigView,
    profile: GlibcProfile,
    state: ViewStateView,
    n: nat,
) -> Seq<Seq<char>>
    decreases n,
{
    if n == 0 || n > missing_order().len() {
        Seq::empty()
    } else {
        all_missing(config, profile, state, (n - 1) as nat) + missing_lines(
            config,
            profile,
            state,
            missing_order()[n - 1],
        )
    }
}

fn format_missing_title(view: HeapView) -> (r: &'static str)
    requires
        is_once(view),
    ensures
        r@ == missing_title(view),
{
    match view {
        HeapView::ArenaTop => "main_arena top candidate: unavailable",
        HeapView::ArenaCandidate => "main_arena candidate: unavailable",
        HeapView::ArenaExperiment => "main_arena experiment: unavailable",
        HeapView::FastbinExperiment => "fastbin experiment: unavailable",
        HeapView::Fastbins => "fastbins: unavailable",
        HeapView::UnsortedBin => "unsorted bin: unavailable",
        HeapView::RegularBins => "regular bins: unavailable",
        HeapView::Smallbins => "smallbins: unavailable",
        HeapView::Largebins => "largebins: unavailable",
        HeapView::UnsortedExperiment => "unsorted bin experiment: unavailable",
        HeapView::BinExperiment => "bin experiment: unavailable",
        _ => "",
    }
}

fn format_missing_reason(profile: GlibcProfile, state: &ViewState, view: HeapView) -> (r: &'static str)
    ensures
        r@ == missing_reason(profile, state@, view),
{
    let no_bins = profile.main_arena_bins_offset.is_none()
        || profile.main_arena_bin_count.is_none();
    let general = if !state.arena_known {
        "    reason: main_arena candidate unavailable"
    } else {
        "    reason: heap snapshot unavailable"
    };
    match view {
        HeapView::ArenaTop => "    reason: active glibc profile does not define main_arena top offset",
        HeapView::ArenaCandidate => "    reason: symbol main_arena not found in loaded libc",
        HeapView::UnsortedBin => if profile.main_arena_unsorted_bin_offset.is_none() {
            "    reason: active glibc profile does not define unsorted bin offset"
        } else {
            general
        },
        HeapView::Fastbins => if profile.main_arena_fastbins_offset.is_none()
            || profile.main_arena_fastbin_count.is_none() {
            "    reason: active glibc profile does not define fastbin offsets"
        } else {
            general
        },
        HeapView::RegularBins | HeapView::Smallbins | HeapView::Largebins => if no_bins {
            "    reason: active glibc profile does not define regular bin metadata"
        } else {
            general
        },
        _ => general,
    }
}

/// The lines for a view that was asked for and never came.
pub fn print_missing_view(
    config: &RenderConfig,
    profile: GlibcProfile,
    state: &ViewState,
    view: HeapView,
) -> (r: Lines)
    ensures
        r@ == missing_lines(config@, profile, state@, view),
{
    let once = match view {
        HeapView::Layout | HeapView::ObservedTcache | HeapView::Warnings | HeapView::HeapScan
        | HeapView::TcacheStruct => false,
        _ => true,
    };
    let mut l = Lines::new();
    if once && is_enabled(config, view) && !config.events_only() && !state.shown.contains(view) {
        let worth = match view {
            HeapView::ArenaCandidate => !state.arena_known,
            HeapView::ArenaTop => find_top_field(config, profile).is_none(),
            _ => true,
        };
        if worth {
            l.push(owned(format_missing_title(view)));
            l.push(owned(format_missing_reason(profile, state, view)));
        }
    }
    l
}

fn missing_at(i: usize) -> (r: HeapView)
    requires
        i < MISSING_COUNT,
    ensures
        r == missing_order()[i as int],
{
    if i == 0 {
        HeapView::ArenaCandidate
    } else if i == 1 {
        HeapView::ArenaExperiment
    } else if i == 2 {
        HeapView::FastbinExperiment
    } else if i == 3 {
        HeapView::Fastbins
    } else if i == 4 {
        HeapView::UnsortedBin
    } else if i == 5 {
        HeapView::RegularBins
    } else if i == 6 {
        HeapView::Smallbins
    } else if i == 7 {
        HeapView::Largebins
    } else if i == 8 {
        HeapView::UnsortedExperiment
    } else if i == 9 {
        HeapView::BinExperiment
    } else {
        HeapView::ArenaTop
    }
}

/// The lines that a trace ends with: one pair for each view that was asked for and never
/// came, and none where output for people is suppressed.
pub fn print_missing_views(
    config: &RenderConfig,
    profile: GlibcProfile,
    state: &ViewState,
    suppressed: bool,
) -> (r: Lines)
    ensures
        r@ == (if suppressed {
            Seq::empty()
        } else {
            all_missing(config@, profile, state@, MISSING_COUNT as nat)
        }),
{
    let mut l = Lines::new();
    if suppressed {
        return l;
    }
    let mut i: usize = 0;
    while i < MISSING_COUNT
        invariant
            i <= MISSING_COUNT,
            l@ == all_missing(config@, profile, state@, i as nat),
        decreases MISSING_COUNT - i,
    {
        l.add(print_missing_view(config, profile, state, missing_at(i)));
        i = i + 1;
    }
    l
}

// ---------------------------------------------------------------------------
// Laws
// ---------------------------------------------------------------------------

/// A view that is shown once is not wanted again after it was recorded, whatever else is
/// recorded later.
pub proof fn law_shown_once(
    config: RenderConfigView,
    profile: GlibcProfile,
    state: ViewStateView,
    probe: ProbeView,
    reply: Reply,
    view: HeapView,
)
    requires
        is_once(view),
        state.shown.contains(view),
    ensures
        !wanted(config, profile, state, view),
        recorded(config, state, probe, reply).state.shown.contains(view),
{
}

/// What was known stays known: the arena, the regular bins and the tcache structure.
pub proof fn law_knowledge_grows(
    config: RenderConfigView,
    state: ViewStateView,
    probe: ProbeView,
    reply: Reply,
)
    ensures
        state.arena_known ==> recorded(config, state, probe, reply).state.arena_known,
        state.regular_bins_known ==> recorded(config, state, probe, reply).state.regular_bins_known,
        state.tcache_struct_known ==> recorded(
            config,
            state,
            probe,
            reply,
        ).state.tcache_struct_known,
        state.shown.subset_of(recorded(config, state, probe, reply).state.shown),
{
}

/// Each summary is compared with the one before: the counts that a reply brings are handed over
/// by the next probe for the warnings, whatever other views are read in between.
pub proof fn law_summaries_are_chained(
    config: RenderConfigView,
    profile: GlibcProfile,
    state: ViewStateView,
    probe: ProbeView,
    event_id: usize,
    summary: SourceCounts,
    delta: SourceChanges,
    warnings: Vec<JsonAllocatorWarning>,
    other: ProbeView,
    reply: Reply,
)
    requires
        probe.view is Warnings,
        other.view !is Warnings,
    ensures
        ({
            let next = recorded(
                config,
                state,
                probe,
                Reply::Warnings { event_id, summary, delta, warnings },
            ).state;
            let later = recorded(config, next, other, reply).state;
            probe_for(config, profile, next, HeapView::Warnings).previous_summary == Some(summary)
                && probe_for(config, profile, later, HeapView::Warnings).previous_summary == Some(
                summary,
            )
        }),
{
}

/// Where no free list is shown, or only events are, the counts are not read.
pub proof fn law_no_free_list_no_summary(
    config: RenderConfigView,
    profile: GlibcProfile,
    state: ViewStateView,
)
    requires
        !warnings_on(config),
    ensures
        !wanted(config, profile, state, HeapView::Warnings),
{
}

/// Where only events are shown, nothing but the arena is ever read, and no absence is
/// named.
pub proof fn law_events_only_reads_the_arena_alone(
    config: RenderConfigView,
    profile: GlibcProfile,
    state: ViewStateView,
    view: HeapView,
)
    requires
        config.events_only(),
    ensures
        wanted(config, profile, state, view) ==> is_arena_view(view),
        missing_lines(config, profile, state, view) == Seq::<Seq<char>>::empty(),
{
}

/// The absence of a view is never named once it has been shown.
pub proof fn law_shown_views_are_not_missing(
    config: RenderConfigView,
    profile: GlibcProfile,
    state: ViewStateView,
    view: HeapView,
)
    requires
        state.shown.contains(view),
    ensures
        missing_lines(config, profile, state, view) == Seq::<Seq<char>>::empty(),
{
}

/// A clean arena view stands for the arena's candidate: once it was recorded, the candidate
/// is not recorded.
pub proof fn law_clean_view_replaces_candidate(
    config: RenderConfigView,
    profile: GlibcProfile,
    state: ViewStateView,
    probe: ProbeView,
    reading: TopReading,
)
    requires
        probe.view is ArenaTop,
        probe.top is Some,
        arena::is_clean(probe.top->0.source, reading.top.status),
    ensures
        ({
            let next = recorded(
                config,
                state,
                probe,
                Reply::ArenaTop { arena_found: true, reading: Some(reading) },
            );
            next.records == seq![reading.view] && !wanted(
                config,
                profile,
                next.state,
                HeapView::ArenaCandidate,
            ) && !wanted(config, profile, next.state, HeapView::ArenaTop)
        }),
{
}

} // verus!
