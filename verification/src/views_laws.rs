//! What the views of the allocator owe to the options and to what was read for them.

use crate::arena::{MainArenaFieldSource, MainArenaTopStatus};
use crate::config::{GlibcProfile, RenderConfigView, Switch};
use crate::record::{JsonAllocatorWarning, JsonTraceRecord};
use crate::text;
use crate::views::{
    HeapView, ProbeView, Reply, SourceChanges, SourceCounts, TopReading, ViewReading,
    ViewStateView, MISSING_COUNT, VIEW_COUNT,
};
use vstd::prelude::*;

verus! {

broadcast use vstd::seq_lib::group_seq_properties;

// ---------------------------------------------------------------------------
// What is recorded
// ---------------------------------------------------------------------------

/// The views that are answered with a plain reading.
pub open spec fn answers_with_reading(view: HeapView) -> bool {
    view !is ArenaTop && view !is ArenaCandidate && view !is Smallbins && view !is Largebins
        && view !is Warnings && view !is TcacheStruct
}

/// A reading is never lost: its record is recorded, followed by its checks where it has them,
/// and nothing else. An arena or bin view is then shown; the layout, the observed tcache and the
/// heap scan leave what is known as it was.
pub proof fn law_reading_is_recorded(
    config: RenderConfigView,
    state: ViewStateView,
    probe: ProbeView,
    reading: ViewReading,
)
    requires
        answers_with_reading(probe.view),
    ensures
        ({
            let next = crate::views::recorded(config, state, probe, Reply::Read { reading });
            &&& next.records.len() == (if reading.validation is Some { 2int } else { 1 })
            &&& next.records[0] == reading.record
            &&& reading.validation is Some ==> next.records[1] == reading.validation->0
            &&& probe.view is Layout || probe.view is ObservedTcache || probe.view is HeapScan
                ==> next.state == state
            &&& !(probe.view is Layout || probe.view is ObservedTcache || probe.view is HeapScan)
                ==> next.state.shown =~= state.shown.insert(probe.view)
            &&& next.state.arena_known == state.arena_known
            &&& next.state.tcache_struct_known == state.tcache_struct_known
            &&& next.state.previous_summary == state.previous_summary
            &&& next.state.regular_bins_known == (state.regular_bins_known || probe.view
                is RegularBins)
        }),
{
}

/// The bins of one size class are recorded with their checks. Where the regular bins had to be
/// read first they come before them, unless they were recorded earlier or nobody asked for them;
/// where they could not be read there is nothing to record.
pub proof fn law_bins_are_recorded(
    config: RenderConfigView,
    state: ViewStateView,
    probe: ProbeView,
    regular_bins: Option<JsonTraceRecord>,
    reading: ViewReading,
)
    requires
        probe.view is Smallbins || probe.view is Largebins,
    ensures
        ({
            let next = crate::views::recorded(
                config,
                state,
                probe,
                Reply::Bins { regular_bins, reading: Some(reading) },
            );
            let unread = probe.read_regular_bins && regular_bins is None;
            let first = probe.read_regular_bins && regular_bins is Some && config.on.contains(
                Switch::RegularBins,
            ) && !state.shown.contains(HeapView::RegularBins);
            let at: int = if first { 1 } else { 0 };
            &&& unread ==> next.records.len() == 0 && next.state == state
            &&& !unread ==> {
                &&& next.records.len() == at + (if reading.validation is Some { 2int } else { 1 })
                &&& first ==> next.records[0] == regular_bins->0
                &&& next.records[at] == reading.record
                &&& reading.validation is Some ==> next.records[at + 1] == reading.validation->0
                &&& next.state.regular_bins_known
                &&& next.state.shown.contains(probe.view)
                &&& first ==> next.state.shown.contains(HeapView::RegularBins)
            }
        }),
{
}

/// Where the bins of a size class could not be read, the regular bins that were read on the way
/// are still recorded where they are asked for and new, and the size class is not taken for
/// shown.
pub proof fn law_regular_bins_are_kept(
    config: RenderConfigView,
    state: ViewStateView,
    probe: ProbeView,
    record: JsonTraceRecord,
)
    requires
        probe.view is Smallbins || probe.view is Largebins,
        probe.read_regular_bins,
        config.on.contains(Switch::RegularBins),
        !state.shown.contains(HeapView::RegularBins),
    ensures
        ({
            let next = crate::views::recorded(
                config,
                state,
                probe,
                Reply::Bins { regular_bins: Some(record), reading: None },
            );
            &&& next.records == seq![record]
            &&& next.state.regular_bins_known
            &&& next.state.shown =~= state.shown.insert(HeapView::RegularBins)
        }),
{
}

/// The top of the arena is recorded in one of two ways: as a view of the arena where the offset
/// of the field comes from the profile and a walked chunk lies there, else as a candidate. It
/// takes an arena, a field and a reading; an arena that was found stays found in any case.
pub proof fn law_arena_top_is_recorded(
    config: RenderConfigView,
    state: ViewStateView,
    probe: ProbeView,
    arena_found: bool,
    reading: Option<TopReading>,
)
    requires
        probe.view is ArenaTop,
    ensures
        ({
            let next = crate::views::recorded(
                config,
                state,
                probe,
                Reply::ArenaTop { arena_found, reading },
            );
            let readable = reading is Some && probe.top is Some && (state.arena_known
                || arena_found);
            &&& next.state.arena_known == (state.arena_known || arena_found)
            &&& !readable ==> next.records.len() == 0 && next.state.shown == state.shown
            &&& readable ==> {
                let clean = probe.top->0.source == MainArenaFieldSource::GlibcProfile
                    && reading->0.top.status == MainArenaTopStatus::MatchesWalkedChunk;
                &&& next.records == seq![
                    if clean { reading->0.view } else { reading->0.candidate },
                ]
                &&& next.state.shown.contains(HeapView::ArenaTop)
                &&& next.state.shown.contains(HeapView::ArenaCandidate) == (clean
                    || state.shown.contains(HeapView::ArenaCandidate))
            }
        }),
{
}

/// An arena that was found is recorded and known from then on; one that was not leaves
/// everything as it was.
pub proof fn law_arena_candidate_is_recorded(
    config: RenderConfigView,
    state: ViewStateView,
    probe: ProbeView,
    record: Option<JsonTraceRecord>,
)
    requires
        probe.view is ArenaCandidate,
    ensures
        ({
            let next = crate::views::recorded(
                config,
                state,
                probe,
                Reply::ArenaCandidate { record },
            );
            &&& record is None ==> next.records.len() == 0 && next.state == state
            &&& record is Some ==> {
                &&& next.records == seq![record->0]
                &&& next.state.arena_known
                &&& next.state.shown =~= state.shown.insert(HeapView::ArenaCandidate)
            }
        }),
{
}

/// A tcache structure is recorded when it is first found; its comparison with the observed
/// frees and the checks on it are recorded at every event that asks for both.
pub proof fn law_tcache_struct_is_recorded(
    config: RenderConfigView,
    state: ViewStateView,
    probe: ProbeView,
    candidate: JsonTraceRecord,
    comparison: JsonTraceRecord,
    validation: JsonTraceRecord,
)
    requires
        probe.view is TcacheStruct,
    ensures
        ({
            let next = crate::views::recorded(
                config,
                state,
                probe,
                Reply::TcacheStruct {
                    candidate: Some(candidate),
                    comparison: Some(comparison),
                    validation: Some(validation),
                },
            );
            let first = !state.shown.contains(HeapView::TcacheStruct);
            &&& first && probe.with_tcache ==> next.records == seq![
                candidate,
                comparison,
                validation,
            ]
            &&& first && !probe.with_tcache ==> next.records == seq![candidate]
            &&& !first && probe.with_tcache ==> next.records == seq![comparison, validation]
            &&& !first && !probe.with_tcache ==> next.records.len() == 0
            &&& next.state.tcache_struct_known
            &&& next.state.shown =~= state.shown.insert(HeapView::TcacheStruct)
        }),
{
}

/// The counts, their changes and the warnings of an event are recorded in that order under the
/// number of the event, each count in the field of its own name.
pub proof fn law_counts_are_recorded(
    config: RenderConfigView,
    state: ViewStateView,
    probe: ProbeView,
    event_id: usize,
    summary: SourceCounts,
    delta: SourceChanges,
    warnings: Vec<JsonAllocatorWarning>,
)
    requires
        probe.view is Warnings,
    ensures
        ({
            let next = crate::views::recorded(
                config,
                state,
                probe,
                Reply::Warnings { event_id, summary, delta, warnings },
            );
            &&& next.records.len() == (if warnings@.len() > 0 { 3int } else { 2 })
            &&& next.state.previous_summary == Some(summary)
            &&& next.state.shown == state.shown
            &&& warnings@.len() > 0 ==> next.records[2] == (JsonTraceRecord::AllocatorWarnings {
                event_id,
                warnings,
            })
            &&& match next.records[0] {
                JsonTraceRecord::AllocatorSourceSummary {
                    event_id: id,
                    tcache_candidate_chunks,
                    fastbin_chunks,
                    unsorted_chunks,
                    smallbin_chunks,
                    largebin_chunks,
                    total_free_list_chunks,
                    warning_count,
                } => id == event_id && tcache_candidate_chunks == summary.tcache_candidate_chunks
                    && fastbin_chunks == summary.fastbin_chunks && unsorted_chunks
                    == summary.unsorted_chunks && smallbin_chunks == summary.smallbin_chunks
                    && largebin_chunks == summary.largebin_chunks && total_free_list_chunks
                    == summary.total_free_list_chunks && warning_count == summary.warning_count,
                _ => false,
            }
            &&& match next.records[1] {
                JsonTraceRecord::AllocatorSourceDelta {
                    event_id: id,
                    tcache_candidate_chunks_delta,
                    fastbin_chunks_delta,
                    unsorted_chunks_delta,
                    smallbin_chunks_delta,
                    largebin_chunks_delta,
                    total_free_list_chunks_delta,
                    warning_count_delta,
                } => id == event_id && tcache_candidate_chunks_delta
                    == delta.tcache_candidate_chunks_delta && fastbin_chunks_delta
                    == delta.fastbin_chunks_delta && unsorted_chunks_delta
                    == delta.unsorted_chunks_delta && smallbin_chunks_delta
                    == delta.smallbin_chunks_delta && largebin_chunks_delta
                    == delta.largebin_chunks_delta && total_free_list_chunks_delta
                    == delta.total_free_list_chunks_delta && warning_count_delta
                    == delta.warning_count_delta,
                _ => false,
            }
        }),
{
}

/// A view that could not be read leaves no record and changes nothing.
pub proof fn law_no_reply_no_record(
    config: RenderConfigView,
    state: ViewStateView,
    probe: ProbeView,
)
    ensures
        crate::views::recorded(config, state, probe, Reply::Nothing).records.len() == 0,
        crate::views::recorded(config, state, probe, Reply::Nothing).state == state,
{
}

// ---------------------------------------------------------------------------
// What is read
// ---------------------------------------------------------------------------

/// Whether anything is shown beside the lines of the events.
pub open spec fn shows_more_than_events(config: RenderConfigView) -> bool {
    config.on.contains(Switch::Chunks) || config.on.contains(Switch::TrackerNotes)
        || config.on.contains(Switch::Explanations) || config.on.contains(Switch::Layout)
}

/// The arena views are read while they are asked for and have not been shown: the top where an
/// option or the profile gives its offset, the experiment where the arena is known.
pub proof fn law_arena_views_are_read(
    config: RenderConfigView,
    profile: GlibcProfile,
    state: ViewStateView,
)
    ensures
        crate::views::wanted(config, profile, state, HeapView::ArenaTop) <==> config.on.contains(
            Switch::MainArenaTopCandidate,
        ) && !state.shown.contains(HeapView::ArenaTop) && (config.main_arena_top_offset is Some
            || profile.main_arena_top_offset is Some),
        crate::views::wanted(config, profile, state, HeapView::ArenaCandidate)
            <==> config.on.contains(Switch::MainArenaCandidate) && !state.shown.contains(
            HeapView::ArenaCandidate,
        ),
        crate::views::wanted(config, profile, state, HeapView::ArenaExperiment)
            <==> config.on.contains(Switch::ArenaExperiment) && !state.shown.contains(
            HeapView::ArenaExperiment,
        ) && state.arena_known,
{
}

/// The bin views and the experiments on them are read once each, in a known arena, where both
/// they and chunks are asked for.
pub proof fn law_bin_views_are_read(
    config: RenderConfigView,
    profile: GlibcProfile,
    state: ViewStateView,
)
    ensures
        forall|view: HeapView, switch: Switch|
            (view == HeapView::FastbinExperiment && switch == Switch::FastbinExperiment || view
                == HeapView::Fastbins && switch == Switch::Fastbins || view
                == HeapView::UnsortedBin && switch == Switch::UnsortedBin || view
                == HeapView::RegularBins && switch == Switch::RegularBins || view
                == HeapView::Smallbins && switch == Switch::Smallbins || view
                == HeapView::Largebins && switch == Switch::Largebins || view
                == HeapView::UnsortedExperiment && switch == Switch::UnsortedExperiment || view
                == HeapView::BinExperiment && switch == Switch::BinExperiment) ==> (
            #[trigger] crate::views::wanted(config, profile, state, view)
                <==> #[trigger] config.on.contains(switch) && config.on.contains(Switch::Chunks)
                && state.arena_known && !state.shown.contains(view)),
{
}

/// The views of the heap itself are read at every event that they are asked for at: the layout,
/// the observed tcache and the tcache structure where chunks are shown, the heap scan where
/// anything beside events is, and the warnings where besides a free list is read.
pub proof fn law_heap_views_are_read(
    config: RenderConfigView,
    profile: GlibcProfile,
    state: ViewStateView,
)
    ensures
        crate::views::wanted(config, profile, state, HeapView::Layout) <==> config.on.contains(
            Switch::Layout,
        ) && config.on.contains(Switch::Chunks),
        crate::views::wanted(config, profile, state, HeapView::ObservedTcache)
            <==> config.on.contains(Switch::TcacheCandidates) && config.on.contains(Switch::Chunks),
        crate::views::wanted(config, profile, state, HeapView::TcacheStruct)
            <==> config.on.contains(Switch::TcacheStructCandidate) && config.on.contains(
            Switch::Chunks,
        ),
        crate::views::wanted(config, profile, state, HeapView::HeapScan) <==> config.on.contains(
            Switch::HeapScan,
        ) && shows_more_than_events(config),
        crate::views::wanted(config, profile, state, HeapView::Warnings)
            <==> shows_more_than_events(config) && (config.on.contains(Switch::TcacheCandidates)
            || config.on.contains(Switch::Fastbins) || config.on.contains(Switch::UnsortedBin)
            || config.on.contains(Switch::Smallbins) || config.on.contains(Switch::Largebins)),
{
}

/// Every view has its place in the order, and no view has two.
pub proof fn law_every_view_has_one_place(view: HeapView)
    ensures
        crate::views::view_order().len() == VIEW_COUNT,
        exists|i: int| 0 <= i < VIEW_COUNT && #[trigger] crate::views::view_order()[i] == view,
        forall|i: int, j: int|
            0 <= i < j < VIEW_COUNT ==> #[trigger] crate::views::view_order()[i]
                != #[trigger] crate::views::view_order()[j],
{
    let order = crate::views::view_order();
    assert(order.len() == 16);
    assert(order[0] is ArenaTop && order[1] is ArenaCandidate && order[2] is ArenaExperiment);
    assert(order[3] is FastbinExperiment && order[4] is Fastbins && order[5] is UnsortedBin);
    assert(order[6] is RegularBins && order[7] is Smallbins && order[8] is Largebins);
    assert(order[9] is UnsortedExperiment && order[10] is BinExperiment && order[11] is Layout);
    assert(order[12] is ObservedTcache && order[13] is Warnings && order[14] is HeapScan);
    assert(order[15] is TcacheStruct);
}

/// What a view rests on is read before it: the arena before what lies in it, the regular bins
/// before the small and the large ones, and the free lists before the warnings on them.
pub proof fn law_views_come_after_what_they_need(i: int, j: int)
    requires
        0 <= i < VIEW_COUNT,
        0 <= j < VIEW_COUNT,
        i <= j,
    ensures
        ({
            let before = crate::views::view_order()[i];
            let after = crate::views::view_order()[j];
            &&& after is ArenaTop || after is ArenaCandidate ==> before is ArenaTop || before
                is ArenaCandidate
            &&& before is Smallbins || before is Largebins ==> after !is RegularBins
            &&& before is Warnings ==> after !is Fastbins && after !is UnsortedBin && after
                !is Smallbins && after !is Largebins && after !is ObservedTcache
        }),
{
    let order = crate::views::view_order();
    assert(order[0] is ArenaTop && order[1] is ArenaCandidate && order[2] is ArenaExperiment);
    assert(order[3] is FastbinExperiment && order[4] is Fastbins && order[5] is UnsortedBin);
    assert(order[6] is RegularBins && order[7] is Smallbins && order[8] is Largebins);
    assert(order[9] is UnsortedExperiment && order[10] is BinExperiment && order[11] is Layout);
    assert(order[12] is ObservedTcache && order[13] is Warnings && order[14] is HeapScan);
    assert(order[15] is TcacheStruct);
}

/// The next view to read is the first one from a place on that is wanted: none that is wanted
/// is passed over, and there is no next one only where none is left.
pub proof fn law_no_wanted_view_is_passed_over(
    config: RenderConfigView,
    profile: GlibcProfile,
    state: ViewStateView,
    from: int,
)
    requires
        0 <= from <= VIEW_COUNT,
    ensures
        match crate::views::next_place(config, profile, state, from) {
            Some(at) => {
                &&& from <= at < VIEW_COUNT
                &&& crate::views::wanted(config, profile, state, crate::views::view_order()[at])
                &&& forall|k: int|
                    from <= k < at ==> !crate::views::wanted(
                        config,
                        profile,
                        state,
                        #[trigger] crate::views::view_order()[k],
                    )
            },
            None => forall|k: int|
                from <= k < VIEW_COUNT ==> !crate::views::wanted(
                    config,
                    profile,
                    state,
                    #[trigger] crate::views::view_order()[k],
                ),
        },
    decreases VIEW_COUNT - from,
{
    if from < VIEW_COUNT && !crate::views::wanted(
        config,
        profile,
        state,
        crate::views::view_order()[from],
    ) {
        law_no_wanted_view_is_passed_over(config, profile, state, from + 1);
    }
}

/// A probe asks for what is not known yet and for nothing else: for the arena with the two
/// views that start from it, for the regular bins with the two that hang on them, for the
/// tcache structure with its own view.
pub proof fn law_only_the_unknown_is_looked_for(
    config: RenderConfigView,
    profile: GlibcProfile,
    state: ViewStateView,
    view: HeapView,
)
    ensures
        ({
            let probe = crate::views::probe_for(config, profile, state, view);
            &&& probe.view == view
            &&& probe.resolve_arena <==> !state.arena_known && (view == HeapView::ArenaTop || view
                == HeapView::ArenaCandidate)
            &&& probe.read_regular_bins <==> !state.regular_bins_known && (view
                == HeapView::Smallbins || view == HeapView::Largebins)
            &&& probe.find_tcache_struct <==> !state.tcache_struct_known && view
                == HeapView::TcacheStruct
            &&& probe.walk_heap <==> view == HeapView::HeapScan && config.on.contains(
                Switch::Chunks,
            )
            &&& probe.with_tcache <==> config.on.contains(Switch::TcacheCandidates)
            &&& probe.previous_summary == (if view == HeapView::Warnings {
                state.previous_summary
            } else {
                None
            })
        }),
{
}

/// The offset of the top field is the one given on the command line, and else the profile's. It
/// goes with the top view, and with the heap scan of a known arena where the top and chunks are
/// asked for.
pub proof fn law_given_offset_comes_before_the_profile(
    config: RenderConfigView,
    profile: GlibcProfile,
    state: ViewStateView,
    view: HeapView,
)
    ensures
        ({
            let probe = crate::views::probe_for(config, profile, state, view);
            let reads_top = view == HeapView::ArenaTop || (view == HeapView::HeapScan
                && state.arena_known && config.on.contains(Switch::Chunks) && config.on.contains(
                Switch::MainArenaTopCandidate,
            ));
            &&& !reads_top ==> probe.top is None
            &&& reads_top ==> match (config.main_arena_top_offset, profile.main_arena_top_offset) {
                (Some(given), _) => {
                    &&& probe.top is Some
                    &&& probe.top->0.offset == given
                    &&& probe.top->0.source == MainArenaFieldSource::UserOffset
                    &&& probe.top->0.profile_name is None
                },
                (None, Some(offset)) => {
                    &&& probe.top is Some
                    &&& probe.top->0.offset == offset
                    &&& probe.top->0.source == MainArenaFieldSource::GlibcProfile
                    &&& probe.top->0.profile_name == Some(profile.name@)
                },
                (None, None) => probe.top is None,
            }
        }),
{
}

// ---------------------------------------------------------------------------
// What is missing
// ---------------------------------------------------------------------------

/// The lines on absent views hold those of each view.
proof fn lemma_missing_among(
    config: RenderConfigView,
    profile: GlibcProfile,
    state: ViewStateView,
    n: nat,
    k: int,
)
    requires
        0 <= k < n <= crate::views::missing_order().len(),
    ensures
        exists|before: Seq<Seq<char>>, after: Seq<Seq<char>>|
            crate::views::all_missing(config, profile, state, n) == #[trigger] (before
                + crate::views::missing_lines(
                config,
                profile,
                state,
                crate::views::missing_order()[k],
            ) + after),
    decreases n,
{
    let own = crate::views::missing_lines(config, profile, state, crate::views::missing_order()[k]);
    let last = crate::views::missing_lines(
        config,
        profile,
        state,
        crate::views::missing_order()[n - 1],
    );
    let all = crate::views::all_missing(config, profile, state, n);
    let rest = crate::views::all_missing(config, profile, state, (n - 1) as nat);
    assert(all == rest + last);
    if k == n - 1 {
        assert(all =~= rest + own + Seq::<Seq<char>>::empty());
    } else {
        lemma_missing_among(config, profile, state, (n - 1) as nat, k);
        let (before, after) = choose|before: Seq<Seq<char>>, after: Seq<Seq<char>>|
            rest == #[trigger] (before + own + after);
        assert(all =~= before + own + (after + last));
    }
}

/// A view shown once that was asked for and never came is named at the end of the trace with
/// the reason, in a line each; so is an arena that was not found, and a top without an offset.
pub proof fn law_absent_view_is_named(
    config: RenderConfigView,
    profile: GlibcProfile,
    state: ViewStateView,
)
    requires
        shows_more_than_events(config),
    ensures
        ({
            let s = text::unlines(
                crate::views::all_missing(config, profile, state, MISSING_COUNT as nat),
            );
            let bins = config.on.contains(Switch::Chunks);
            let why = if state.arena_known {
                "    reason: heap snapshot unavailable"@
            } else {
                "    reason: main_arena candidate unavailable"@
            };
            let why_bins = if profile.main_arena_bins_offset is Some
                && profile.main_arena_bin_count is Some {
                why
            } else {
                "    reason: active glibc profile does not define regular bin metadata"@
            };
            &&& config.on.contains(Switch::MainArenaCandidate) && !state.arena_known
                && !state.shown.contains(HeapView::ArenaCandidate) ==> text::shows(
                s,
                seq![
                    "main_arena candidate: unavailable"@,
                    "    reason: symbol main_arena not found in loaded libc"@,
                ],
            )
            &&& config.on.contains(Switch::MainArenaTopCandidate) && !state.shown.contains(
                HeapView::ArenaTop,
            ) && config.main_arena_top_offset is None && profile.main_arena_top_offset is None
                ==> text::shows(
                s,
                seq![
                    "main_arena top candidate: unavailable"@,
                    "    reason: active glibc profile does not define main_arena top offset"@,
                ],
            )
            &&& config.on.contains(Switch::ArenaExperiment) && !state.shown.contains(
                HeapView::ArenaExperiment,
            ) ==> text::shows(s, seq!["main_arena experiment: unavailable"@, why])
            &&& bins && config.on.contains(Switch::FastbinExperiment) && !state.shown.contains(
                HeapView::FastbinExperiment,
            ) ==> text::shows(s, seq!["fastbin experiment: unavailable"@, why])
            &&& bins && config.on.contains(Switch::UnsortedExperiment) && !state.shown.contains(
                HeapView::UnsortedExperiment,
            ) ==> text::shows(s, seq!["unsorted bin experiment: unavailable"@, why])
            &&& bins && config.on.contains(Switch::BinExperiment) && !state.shown.contains(
                HeapView::BinExperiment,
            ) ==> text::shows(s, seq!["bin experiment: unavailable"@, why])
            &&& bins && config.on.contains(Switch::Fastbins) && !state.shown.contains(
                HeapView::Fastbins,
            ) ==> text::shows(
                s,
                seq![
                    "fastbins: unavailable"@,
                    if profile.main_arena_fastbins_offset is Some
                        && profile.main_arena_fastbin_count is Some {
                        why
                    } else {
                        "    reason: active glibc profile does not define fastbin offsets"@
                    },
                ],
            )
            &&& bins && config.on.contains(Switch::UnsortedBin) && !state.shown.contains(
                HeapView::UnsortedBin,
            ) ==> text::shows(
                s,
                seq![
                    "unsorted bin: unavailable"@,
                    if profile.main_arena_unsorted_bin_offset is Some {
                        why
                    } else {
                        "    reason: active glibc profile does not define unsorted bin offset"@
                    },
                ],
            )
            &&& bins && config.on.contains(Switch::RegularBins) && !state.shown.contains(
                HeapView::RegularBins,
            ) ==> text::shows(s, seq!["regular bins: unavailable"@, why_bins])
            &&& bins && config.on.contains(Switch::Smallbins) && !state.shown.contains(
                HeapView::Smallbins,
            ) ==> text::shows(s, seq!["smallbins: unavailable"@, why_bins])
            &&& bins && config.on.contains(Switch::Largebins) && !state.shown.contains(
                HeapView::Largebins,
            ) ==> text::shows(s, seq!["largebins: unavailable"@, why_bins])
        }),
{
    let order = crate::views::missing_order();
    let all = crate::views::all_missing(config, profile, state, MISSING_COUNT as nat);
    assert(order[0] is ArenaCandidate && order[1] is ArenaExperiment);
    assert(order[2] is FastbinExperiment && order[3] is Fastbins && order[4] is UnsortedBin);
    assert(order[5] is RegularBins && order[6] is Smallbins && order[7] is Largebins);
    assert(order[8] is UnsortedExperiment && order[9] is BinExperiment && order[10] is ArenaTop);
    assert forall|k: int|
        0 <= k < 11 && crate::views::is_missing(
            config,
            profile,
            state,
            #[trigger] order[k],
        ) implies text::shows(
        text::unlines(all),
        seq![
            crate::views::missing_title(order[k]),
            crate::views::missing_reason(profile, state, order[k]),
        ],
    ) by {
        lemma_missing_among(config, profile, state, 11, k);
        let own = crate::views::missing_lines(config, profile, state, order[k]);
        let (before, after) = choose|before: Seq<Seq<char>>, after: Seq<Seq<char>>|
            all == #[trigger] (before + own + after);
        text::lemma_shows(all, before, own, after);
    }
}

/// A view is named as absent only where it was asked for and has not been shown, and where more
/// than events is shown.
pub proof fn law_only_asked_views_are_named(
    config: RenderConfigView,
    profile: GlibcProfile,
    state: ViewStateView,
    view: HeapView,
)
    requires
        crate::views::missing_lines(config, profile, state, view).len() > 0,
    ensures
        shows_more_than_events(config),
        !state.shown.contains(view),
        view == HeapView::ArenaCandidate ==> config.on.contains(Switch::MainArenaCandidate)
            && !state.arena_known,
        view == HeapView::ArenaTop ==> config.on.contains(Switch::MainArenaTopCandidate)
            && config.main_arena_top_offset is None && profile.main_arena_top_offset is None,
        view == HeapView::ArenaExperiment ==> config.on.contains(Switch::ArenaExperiment),
        view == HeapView::Fastbins ==> config.on.contains(Switch::Fastbins),
        view == HeapView::UnsortedBin ==> config.on.contains(Switch::UnsortedBin),
        view == HeapView::RegularBins ==> config.on.contains(Switch::RegularBins),
        view == HeapView::Smallbins ==> config.on.contains(Switch::Smallbins),
        view == HeapView::Largebins ==> config.on.contains(Switch::Largebins),
        view == HeapView::FastbinExperiment ==> config.on.contains(Switch::FastbinExperiment),
        view == HeapView::UnsortedExperiment ==> config.on.contains(Switch::UnsortedExperiment),
        view == HeapView::BinExperiment ==> config.on.contains(Switch::BinExperiment),
        view != HeapView::Layout && view != HeapView::ObservedTcache && view != HeapView::Warnings
            && view != HeapView::HeapScan && view != HeapView::TcacheStruct,
        !(view == HeapView::ArenaCandidate || view == HeapView::ArenaTop || view
            == HeapView::ArenaExperiment) ==> config.on.contains(Switch::Chunks),
{
}

} // verus!
