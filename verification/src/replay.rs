//! Replaying a recorded trace: records, sessions, the event timeline and the
//! keys of the replay screen.

use vstd::prelude::*;
use std::collections::BTreeMap;
use crate::args::CliError;
use crate::keys::KeyCode;
use crate::record::{JsonHeapEvent, JsonTraceRecord};
use crate::record_text;
use crate::replay_text;
use crate::replay_text::{format_replay_event_summary, ReplayConfig};
use crate::text;
use crate::text::{cat2, cat3, cat7, owned, same, Block, Lines};

verus! {

// ---------------------------------------------------------------------------
// Records
// ---------------------------------------------------------------------------

/// The number of an event.
pub open spec fn event_id_of(event: JsonHeapEvent) -> usize {
    match event {
        JsonHeapEvent::Malloc { event_id, .. } => event_id,
        JsonHeapEvent::Free { event_id, .. } => event_id,
        JsonHeapEvent::Calloc { event_id, .. } => event_id,
        JsonHeapEvent::Realloc { event_id, .. } => event_id,
    }
}

pub fn replay_event_id(event: &JsonHeapEvent) -> (r: usize)
    ensures
        r == event_id_of(*event),
{
    match event {
        JsonHeapEvent::Malloc { event_id, .. } => *event_id,
        JsonHeapEvent::Free { event_id, .. } => *event_id,
        JsonHeapEvent::Calloc { event_id, .. } => *event_id,
        JsonHeapEvent::Realloc { event_id, .. } => *event_id,
    }
}

/// The event that a record belongs to; the two session records belong to none.
pub open spec fn record_event_id(record: JsonTraceRecord) -> Option<usize> {
    match record {
        JsonTraceRecord::SessionStart { .. } => None,
        JsonTraceRecord::SessionEnd { .. } => None,
        JsonTraceRecord::Event { event } => Some(event_id_of(event)),
        JsonTraceRecord::HeapLayout { event_id, .. } => Some(event_id),
        JsonTraceRecord::ObservedTcacheChains { event_id, .. } => Some(event_id),
        JsonTraceRecord::TcacheStructCandidate { event_id, .. } => Some(event_id),
        JsonTraceRecord::MainArenaCandidate { event_id, .. } => Some(event_id),
        JsonTraceRecord::MainArenaExperiment { event_id, .. } => Some(event_id),
        JsonTraceRecord::MainArenaTopCandidate { event_id, .. } => Some(event_id),
        JsonTraceRecord::MainArenaView { event_id, .. } => Some(event_id),
        JsonTraceRecord::FastbinExperiment { event_id, .. } => Some(event_id),
        JsonTraceRecord::UnsortedBinExperiment { event_id, .. } => Some(event_id),
        JsonTraceRecord::BinExperiment { event_id, .. } => Some(event_id),
        JsonTraceRecord::UnsortedBin { event_id, .. } => Some(event_id),
        JsonTraceRecord::UnsortedBinValidation { event_id, .. } => Some(event_id),
        JsonTraceRecord::Fastbins { event_id, .. } => Some(event_id),
        JsonTraceRecord::RegularBins { event_id, .. } => Some(event_id),
        JsonTraceRecord::Smallbins { event_id, .. } => Some(event_id),
        JsonTraceRecord::SmallbinValidation { event_id, .. } => Some(event_id),
        JsonTraceRecord::Largebins { event_id, .. } => Some(event_id),
        JsonTraceRecord::LargebinValidation { event_id, .. } => Some(event_id),
        JsonTraceRecord::FastbinValidation { event_id, .. } => Some(event_id),
        JsonTraceRecord::TcacheComparison { event_id, .. } => Some(event_id),
        JsonTraceRecord::TcacheValidation { event_id, .. } => Some(event_id),
        JsonTraceRecord::AllocatorWarnings { event_id, .. } => Some(event_id),
        JsonTraceRecord::AllocatorSourceSummary { event_id, .. } => Some(event_id),
        JsonTraceRecord::AllocatorSourceDelta { event_id, .. } => Some(event_id),
        JsonTraceRecord::HeapScan { event_id, .. } => Some(event_id),
    }
}

pub fn replay_record_event_id(record: &JsonTraceRecord) -> (r: Option<usize>)
    ensures
        r == record_event_id(*record),
{
    match record {
        JsonTraceRecord::SessionStart { .. } => None,
        JsonTraceRecord::SessionEnd { .. } => None,
        JsonTraceRecord::Event { event } => Some(replay_event_id(event)),
        JsonTraceRecord::HeapLayout { event_id, .. } => Some(*event_id),
        JsonTraceRecord::ObservedTcacheChains { event_id, .. } => Some(*event_id),
        JsonTraceRecord::TcacheStructCandidate { event_id, .. } => Some(*event_id),
        JsonTraceRecord::MainArenaCandidate { event_id, .. } => Some(*event_id),
        JsonTraceRecord::MainArenaExperiment { event_id, .. } => Some(*event_id),
        JsonTraceRecord::MainArenaTopCandidate { event_id, .. } => Some(*event_id),
        JsonTraceRecord::MainArenaView { event_id, .. } => Some(*event_id),
        JsonTraceRecord::FastbinExperiment { event_id, .. } => Some(*event_id),
        JsonTraceRecord::UnsortedBinExperiment { event_id, .. } => Some(*event_id),
        JsonTraceRecord::BinExperiment { event_id, .. } => Some(*event_id),
        JsonTraceRecord::UnsortedBin { event_id, .. } => Some(*event_id),
        JsonTraceRecord::UnsortedBinValidation { event_id, .. } => Some(*event_id),
        JsonTraceRecord::Fastbins { event_id, .. } => Some(*event_id),
        JsonTraceRecord::RegularBins { event_id, .. } => Some(*event_id),
        JsonTraceRecord::Smallbins { event_id, .. } => Some(*event_id),
        JsonTraceRecord::SmallbinValidation { event_id, .. } => Some(*event_id),
        JsonTraceRecord::Largebins { event_id, .. } => Some(*event_id),
        JsonTraceRecord::LargebinValidation { event_id, .. } => Some(*event_id),
        JsonTraceRecord::FastbinValidation { event_id, .. } => Some(*event_id),
        JsonTraceRecord::TcacheComparison { event_id, .. } => Some(*event_id),
        JsonTraceRecord::TcacheValidation { event_id, .. } => Some(*event_id),
        JsonTraceRecord::AllocatorWarnings { event_id, .. } => Some(*event_id),
        JsonTraceRecord::AllocatorSourceSummary { event_id, .. } => Some(*event_id),
        JsonTraceRecord::AllocatorSourceDelta { event_id, .. } => Some(*event_id),
        JsonTraceRecord::HeapScan { event_id, .. } => Some(*event_id),
    }
}

/// The type name of a record.
pub open spec fn record_label(record: JsonTraceRecord) -> Seq<char> {
    match record {
        JsonTraceRecord::SessionStart { .. } => "session_start"@,
        JsonTraceRecord::SessionEnd { .. } => "session_end"@,
        JsonTraceRecord::Event { .. } => "event"@,
        JsonTraceRecord::HeapLayout { .. } => "heap_layout"@,
        JsonTraceRecord::ObservedTcacheChains { .. } => "observed_tcache_chains"@,
        JsonTraceRecord::TcacheStructCandidate { .. } => "tcache_struct_candidate"@,
        JsonTraceRecord::MainArenaCandidate { .. } => "main_arena_candidate"@,
        JsonTraceRecord::MainArenaExperiment { .. } => "main_arena_experiment"@,
        JsonTraceRecord::MainArenaTopCandidate { .. } => "main_arena_top_candidate"@,
        JsonTraceRecord::MainArenaView { .. } => "main_arena_view"@,
        JsonTraceRecord::FastbinExperiment { .. } => "fastbin_experiment"@,
        JsonTraceRecord::UnsortedBinExperiment { .. } => "unsorted_bin_experiment"@,
        JsonTraceRecord::BinExperiment { .. } => "bin_experiment"@,
        JsonTraceRecord::UnsortedBin { .. } => "unsorted_bin"@,
        JsonTraceRecord::UnsortedBinValidation { .. } => "unsorted_bin_validation"@,
        JsonTraceRecord::Fastbins { .. } => "fastbins"@,
        JsonTraceRecord::RegularBins { .. } => "regular_bins"@,
        JsonTraceRecord::Smallbins { .. } => "smallbins"@,
        JsonTraceRecord::SmallbinValidation { .. } => "smallbin_validation"@,
        JsonTraceRecord::Largebins { .. } => "largebins"@,
        JsonTraceRecord::LargebinValidation { .. } => "largebin_validation"@,
        JsonTraceRecord::FastbinValidation { .. } => "fastbin_validation"@,
        JsonTraceRecord::TcacheComparison { .. } => "tcache_comparison"@,
        JsonTraceRecord::TcacheValidation { .. } => "tcache_validation"@,
        JsonTraceRecord::AllocatorWarnings { .. } => "allocator_warnings"@,
        JsonTraceRecord::AllocatorSourceSummary { .. } => "allocator_source_summary"@,
        JsonTraceRecord::AllocatorSourceDelta { .. } => "allocator_source_delta"@,
        JsonTraceRecord::HeapScan { .. } => "heap_scan"@,
    }
}

pub fn live_record_type_label(record: &JsonTraceRecord) -> (r: &'static str)
    ensures
        r@ == record_label(*record),
{
    match record {
        JsonTraceRecord::SessionStart { .. } => "session_start",
        JsonTraceRecord::SessionEnd { .. } => "session_end",
        JsonTraceRecord::Event { .. } => "event",
        JsonTraceRecord::HeapLayout { .. } => "heap_layout",
        JsonTraceRecord::ObservedTcacheChains { .. } => "observed_tcache_chains",
        JsonTraceRecord::TcacheStructCandidate { .. } => "tcache_struct_candidate",
        JsonTraceRecord::MainArenaCandidate { .. } => "main_arena_candidate",
        JsonTraceRecord::MainArenaExperiment { .. } => "main_arena_experiment",
        JsonTraceRecord::MainArenaTopCandidate { .. } => "main_arena_top_candidate",
        JsonTraceRecord::MainArenaView { .. } => "main_arena_view",
        JsonTraceRecord::FastbinExperiment { .. } => "fastbin_experiment",
        JsonTraceRecord::UnsortedBinExperiment { .. } => "unsorted_bin_experiment",
        JsonTraceRecord::BinExperiment { .. } => "bin_experiment",
        JsonTraceRecord::UnsortedBin { .. } => "unsorted_bin",
        JsonTraceRecord::UnsortedBinValidation { .. } => "unsorted_bin_validation",
        JsonTraceRecord::Fastbins { .. } => "fastbins",
        JsonTraceRecord::RegularBins { .. } => "regular_bins",
        JsonTraceRecord::Smallbins { .. } => "smallbins",
        JsonTraceRecord::SmallbinValidation { .. } => "smallbin_validation",
        JsonTraceRecord::Largebins { .. } => "largebins",
        JsonTraceRecord::LargebinValidation { .. } => "largebin_validation",
        JsonTraceRecord::FastbinValidation { .. } => "fastbin_validation",
        JsonTraceRecord::TcacheComparison { .. } => "tcache_comparison",
        JsonTraceRecord::TcacheValidation { .. } => "tcache_validation",
        JsonTraceRecord::AllocatorWarnings { .. } => "allocator_warnings",
        JsonTraceRecord::AllocatorSourceSummary { .. } => "allocator_source_summary",
        JsonTraceRecord::AllocatorSourceDelta { .. } => "allocator_source_delta",
        JsonTraceRecord::HeapScan { .. } => "heap_scan",
    }
}

/// The text of a record.
pub open spec fn record_text_of(record: JsonTraceRecord, config: ReplayConfig) -> Seq<char> {
    match record {
        JsonTraceRecord::SessionStart {
            heapify_version,
            program,
            trace_mode,
            glibc_profile,
            suggested_glibc_profile,
            glibc_profile_selection,
            libc,
            launch,
            allocator_views_preset,
            features,
            ..
        } => text::unlines(
            record_text::session_start_lines(
                heapify_version@,
                program@,
                trace_mode@,
                glibc_profile@,
                suggested_glibc_profile,
                glibc_profile_selection,
                libc,
                launch,
                allocator_views_preset@,
                features,
                !config.events_only,
            ),
        ),
        JsonTraceRecord::SessionEnd { exit_status, event_count } =>
            record_text::session_end_text(exit_status@, event_count),
        JsonTraceRecord::Event { event } => text::unlines(replay_text::event_lines(event, config)),
        JsonTraceRecord::HeapLayout { chunks, truncated, chunks_omitted, .. } => replay_text::unless(
            config.hides_state(),
            replay_text::heap_layout_lines(chunks@, truncated, chunks_omitted),
        ),
        JsonTraceRecord::ObservedTcacheChains { chains, .. } =>
            replay_text::observed_chains_text(chains@, config),
        JsonTraceRecord::TcacheStructCandidate { candidate, snapshot, .. } => replay_text::unless(
            config.hides_state(),
            candidate.lines() + replay_text::tcache_snapshot_lines(snapshot),
        ),
        JsonTraceRecord::MainArenaCandidate { candidate, .. } => replay_text::unless(
            config.events_only,
            replay_text::main_arena_candidate_lines(candidate),
        ),
        JsonTraceRecord::MainArenaExperiment { arena_addr, candidates, .. } => replay_text::unless(
            config.events_only,
            replay_text::experiment_lines(
                "main_arena experiment:"@,
                arena_addr@,
                "heap pointer candidates"@,
                candidates@,
            ),
        ),
        JsonTraceRecord::MainArenaTopCandidate {
            arena_addr,
            field_offset,
            top_addr,
            chunk_size,
            status,
            source,
            profile,
            ..
        } => replay_text::unless(
            config.events_only,
            replay_text::top_candidate_lines(
                arena_addr@,
                field_offset@,
                top_addr@,
                chunk_size,
                status@,
                source@,
                profile,
            ),
        ),
        JsonTraceRecord::MainArenaView { arena, top, .. } =>
            replay_text::unless(config.events_only, replay_text::arena_view_lines(arena, top)),
        JsonTraceRecord::FastbinExperiment { arena_addr, candidates, .. } => replay_text::unless(
            config.hides_state(),
            replay_text::experiment_lines(
                "fastbin experiment:"@,
                arena_addr@,
                "candidates"@,
                candidates@,
            ),
        ),
        JsonTraceRecord::UnsortedBinExperiment { arena_addr, candidates, .. } => replay_text::unless(
            config.hides_state(),
            replay_text::experiment_lines(
                "unsorted bin experiment:"@,
                arena_addr@,
                "candidates"@,
                candidates@,
            ),
        ),
        JsonTraceRecord::BinExperiment { arena_addr, candidates, .. } => replay_text::unless(
            config.hides_state(),
            replay_text::experiment_lines(
                "bin experiment:"@,
                arena_addr@,
                "candidates"@,
                candidates@,
            ),
        ),
        JsonTraceRecord::UnsortedBin {
            arena_addr,
            field_offset,
            fd,
            bk,
            fd_points_into_heap,
            bk_points_into_heap,
            fd_known_freed,
            bk_known_freed,
            chain,
            ..
        } => replay_text::unless(
            config.hides_state(),
            replay_text::unsorted_bin_lines(
                arena_addr@,
                field_offset@,
                fd@,
                bk@,
                fd_points_into_heap,
                bk_points_into_heap,
                fd_known_freed,
                bk_known_freed,
                chain,
            ),
        ),
        JsonTraceRecord::UnsortedBinValidation { validation, .. } =>
            replay_text::unless(config.hides_state(), validation.lines()),
        JsonTraceRecord::Fastbins { arena_addr, heads, chains, .. } => replay_text::unless(
            config.hides_state(),
            replay_text::fastbins_lines(arena_addr@, heads@, chains@),
        ),
        JsonTraceRecord::RegularBins { arena_addr, bins_offset, heads, .. } => replay_text::unless(
            config.hides_state(),
            replay_text::bins_heading(
                "regular bins:"@,
                arena_addr@,
                bins_offset@) + text::blocks(heads@,
            ),
        ),
        JsonTraceRecord::Smallbins { arena_addr, bins_offset, chains, .. } => replay_text::unless(
            config.hides_state(),
            replay_text::smallbins_lines(arena_addr@, bins_offset@, chains@),
        ),
        JsonTraceRecord::SmallbinValidation { validations, .. } =>
            replay_text::titled("smallbin validation:"@, validations@, config.hides_state()),
        JsonTraceRecord::Largebins { arena_addr, bins_offset, chains, .. } => replay_text::unless(
            config.hides_state(),
            replay_text::largebins_lines(arena_addr@, bins_offset@, chains@),
        ),
        JsonTraceRecord::LargebinValidation { validations, .. } =>
            replay_text::titled("largebin validation:"@, validations@, config.hides_state()),
        JsonTraceRecord::FastbinValidation { validations, .. } => replay_text::unless(
            config.hides_state(),
            seq!["fastbin validation:"@] + text::blocks(validations@),
        ),
        JsonTraceRecord::TcacheComparison { comparisons, .. } =>
            replay_text::titled(
                "tcache comparison candidate:"@,
                comparisons@,
                config.hides_state(),
            ),
        JsonTraceRecord::TcacheValidation { validations, .. } =>
            replay_text::titled(
                "tcache validation candidate:"@,
                validations@,
                config.hides_state(),
            ),
        JsonTraceRecord::AllocatorWarnings { warnings, .. } =>
            replay_text::titled("allocator warnings:"@, warnings@, config.hides_state()),
        JsonTraceRecord::AllocatorSourceSummary {
            tcache_candidate_chunks,
            fastbin_chunks,
            unsorted_chunks,
            smallbin_chunks,
            largebin_chunks,
            total_free_list_chunks,
            warning_count,
            ..
        } => if config.hides_state() {
            Seq::empty()
        } else {
            record_text::source_summary_text(
                tcache_candidate_chunks,
                fastbin_chunks,
                unsorted_chunks,
                smallbin_chunks,
                largebin_chunks,
                total_free_list_chunks,
                warning_count,
            )
        },
        JsonTraceRecord::AllocatorSourceDelta {
            tcache_candidate_chunks_delta,
            fastbin_chunks_delta,
            unsorted_chunks_delta,
            smallbin_chunks_delta,
            largebin_chunks_delta,
            total_free_list_chunks_delta,
            warning_count_delta,
            ..
        } => if config.hides_state() {
            Seq::empty()
        } else {
            record_text::source_delta_lines(
                tcache_candidate_chunks_delta,
                fastbin_chunks_delta,
                unsorted_chunks_delta,
                smallbin_chunks_delta,
                largebin_chunks_delta,
                total_free_list_chunks_delta,
                warning_count_delta,
            )
        },
        JsonTraceRecord::HeapScan { report, .. } =>
            replay_text::unless(config.events_only, record_text::heap_scan_lines(report)),
    }
}

/// Renders a record.
pub fn format_replay_record(record: &JsonTraceRecord, config: &ReplayConfig) -> (r: String)
    ensures
        r@ == record_text_of(*record, *config),
{
    match record {
        JsonTraceRecord::SessionStart {
            heapify_version,
            program,
            trace_mode,
            glibc_profile,
            suggested_glibc_profile,
            glibc_profile_selection,
            libc,
            launch,
            allocator_views_preset,
            features,
            ..
        } => record_text::format_replay_session_start(
            heapify_version.as_str(),
            program.as_str(),
            trace_mode.as_str(),
            glibc_profile.as_str(),
            suggested_glibc_profile,
            glibc_profile_selection,
            libc,
            launch,
            allocator_views_preset.as_str(),
            features,
            !config.events_only,
        ),
        JsonTraceRecord::SessionEnd { exit_status, event_count } =>
            record_text::format_replay_session_end(exit_status.as_str(), *event_count),
        JsonTraceRecord::Event { event } => replay_text::format_replay_event(event, config),
        JsonTraceRecord::HeapLayout { chunks, truncated, chunks_omitted, .. } =>
            replay_text::format_replay_heap_layout(chunks, *truncated, *chunks_omitted, config),
        JsonTraceRecord::ObservedTcacheChains { chains, .. } =>
            replay_text::format_replay_observed_tcache_chains(chains, config),
        JsonTraceRecord::TcacheStructCandidate { candidate, snapshot, .. } =>
            replay_text::format_replay_tcache_struct_candidate(candidate, snapshot, config),
        JsonTraceRecord::MainArenaCandidate { candidate, .. } =>
            replay_text::format_replay_main_arena_candidate(candidate, config),
        JsonTraceRecord::MainArenaExperiment {
            arena_addr,
            candidates,
            ..
        } => replay_text::format_replay_main_arena_experiment(
            arena_addr.as_str(),
            candidates,
            config,
        ),
        JsonTraceRecord::MainArenaTopCandidate {
            arena_addr,
            field_offset,
            top_addr,
            chunk_size,
            status,
            source,
            profile,
            ..
        } => replay_text::format_replay_main_arena_top_candidate(
            arena_addr.as_str(),
            field_offset.as_str(),
            top_addr.as_str(),
            chunk_size,
            status.as_str(),
            source.as_str(),
            profile,
            config,
        ),
        JsonTraceRecord::MainArenaView { arena, top, .. } =>
            replay_text::format_replay_main_arena_view(arena, top, config),
        JsonTraceRecord::FastbinExperiment { arena_addr, candidates, .. } =>
            replay_text::format_replay_fastbin_experiment(arena_addr.as_str(), candidates, config),
        JsonTraceRecord::UnsortedBinExperiment {
            arena_addr,
            candidates,
            ..
        } => replay_text::format_replay_unsorted_bin_experiment(
            arena_addr.as_str(),
            candidates,
            config,
        ),
        JsonTraceRecord::BinExperiment { arena_addr, candidates, .. } =>
            replay_text::format_replay_bin_experiment(arena_addr.as_str(), candidates, config),
        JsonTraceRecord::UnsortedBin {
            arena_addr,
            field_offset,
            fd,
            bk,
            fd_points_into_heap,
            bk_points_into_heap,
            fd_known_freed,
            bk_known_freed,
            chain,
            ..
        } => replay_text::format_replay_unsorted_bin(
            arena_addr.as_str(),
            field_offset.as_str(),
            fd.as_str(),
            bk.as_str(),
            *fd_points_into_heap,
            *bk_points_into_heap,
            *fd_known_freed,
            *bk_known_freed,
            chain,
            config,
        ),
        JsonTraceRecord::UnsortedBinValidation { validation, .. } =>
            replay_text::format_replay_unsorted_bin_validation(validation, config),
        JsonTraceRecord::Fastbins { arena_addr, heads, chains, .. } =>
            replay_text::format_replay_fastbins(arena_addr.as_str(), heads, chains, config),
        JsonTraceRecord::RegularBins {
            arena_addr,
            bins_offset,
            heads,
            ..
        } => replay_text::format_replay_regular_bins(
            arena_addr.as_str(),
            bins_offset.as_str(),
            heads,
            config,
        ),
        JsonTraceRecord::Smallbins {
            arena_addr,
            bins_offset,
            chains,
            ..
        } => replay_text::format_replay_smallbins(
            arena_addr.as_str(),
            bins_offset.as_str(),
            chains,
            config,
        ),
        JsonTraceRecord::SmallbinValidation { validations, .. } =>
            replay_text::format_replay_smallbin_validation(validations, config),
        JsonTraceRecord::Largebins {
            arena_addr,
            bins_offset,
            chains,
            ..
        } => replay_text::format_replay_largebins(
            arena_addr.as_str(),
            bins_offset.as_str(),
            chains,
            config,
        ),
        JsonTraceRecord::LargebinValidation { validations, .. } =>
            replay_text::format_replay_largebin_validation(validations, config),
        JsonTraceRecord::FastbinValidation { validations, .. } =>
            replay_text::format_replay_fastbin_validation(validations, config),
        JsonTraceRecord::TcacheComparison { comparisons, .. } =>
            replay_text::format_replay_tcache_comparison(comparisons, config),
        JsonTraceRecord::TcacheValidation { validations, .. } =>
            replay_text::format_replay_tcache_validation(validations, config),
        JsonTraceRecord::AllocatorWarnings { warnings, .. } =>
            record_text::format_replay_allocator_warnings(warnings, config),
        JsonTraceRecord::AllocatorSourceSummary {
            tcache_candidate_chunks,
            fastbin_chunks,
            unsorted_chunks,
            smallbin_chunks,
            largebin_chunks,
            total_free_list_chunks,
            warning_count,
            ..
        } => record_text::format_replay_allocator_source_summary(
            *tcache_candidate_chunks,
            *fastbin_chunks,
            *unsorted_chunks,
            *smallbin_chunks,
            *largebin_chunks,
            *total_free_list_chunks,
            *warning_count,
            config,
        ),
        JsonTraceRecord::AllocatorSourceDelta {
            tcache_candidate_chunks_delta,
            fastbin_chunks_delta,
            unsorted_chunks_delta,
            smallbin_chunks_delta,
            largebin_chunks_delta,
            total_free_list_chunks_delta,
            warning_count_delta,
            ..
        } => record_text::format_replay_allocator_source_delta(
            *tcache_candidate_chunks_delta,
            *fastbin_chunks_delta,
            *unsorted_chunks_delta,
            *smallbin_chunks_delta,
            *largebin_chunks_delta,
            *total_free_list_chunks_delta,
            *warning_count_delta,
            config,
        ),
        JsonTraceRecord::HeapScan { report, .. } =>
            record_text::format_replay_heap_scan(report, config),
    }
}

/// What the replay prints for a record of the body of a trace: the session
/// records are printed elsewhere.
pub open spec fn body_text(record: JsonTraceRecord, config: ReplayConfig) -> Seq<char> {
    match record {
        JsonTraceRecord::SessionStart { .. } => Seq::empty(),
        JsonTraceRecord::SessionEnd { .. } => Seq::empty(),
        _ => record_text_of(record, config),
    }
}

pub fn render_replay_record(record: &JsonTraceRecord, config: &ReplayConfig) -> (r: String)
    ensures
        r@ == body_text(*record, *config),
{
    match record {
        JsonTraceRecord::SessionStart { .. } => String::new(),
        JsonTraceRecord::SessionEnd { .. } => String::new(),
        _ => format_replay_record(record, config),
    }
}

// ---------------------------------------------------------------------------
// Sessions
// ---------------------------------------------------------------------------

/// Where an event stands in a trace.
#[derive(Debug, Clone, Copy, PartialEq, Eq, Structural)]
pub struct ReplayEventEntry {
    pub event_id: usize,
    pub record_index: usize,
}

/// The free-list counts at an event.
#[derive(Debug, Clone, Copy, PartialEq, Eq, Structural)]
pub struct ReplayEventAllocatorState {
    pub event_id: usize,
    pub tcache_candidate_chunks: usize,
    pub fastbin_chunks: usize,
    pub unsorted_chunks: usize,
    pub smallbin_chunks: usize,
    pub largebin_chunks: usize,
    pub total_free_list_chunks: usize,
    pub warning_count: usize,
}

/// The change of the free-list counts at an event.
#[derive(Debug, Clone, Copy, PartialEq, Eq, Structural)]
pub struct ReplayEventAllocatorDelta {
    pub event_id: usize,
    pub tcache_candidate_chunks_delta: isize,
    pub fastbin_chunks_delta: isize,
    pub unsorted_chunks_delta: isize,
    pub smallbin_chunks_delta: isize,
    pub largebin_chunks_delta: isize,
    pub total_free_list_chunks_delta: isize,
    pub warning_count_delta: isize,
}

/// The counts that a record carries.
pub open spec fn state_of(record: JsonTraceRecord) -> Option<ReplayEventAllocatorState> {
    match record {
        JsonTraceRecord::AllocatorSourceSummary {
            event_id,
            tcache_candidate_chunks,
            fastbin_chunks,
            unsorted_chunks,
            smallbin_chunks,
            largebin_chunks,
            total_free_list_chunks,
            warning_count,
        } => Some(
            ReplayEventAllocatorState {
                event_id,
                tcache_candidate_chunks,
                fastbin_chunks,
                unsorted_chunks,
                smallbin_chunks,
                largebin_chunks,
                total_free_list_chunks,
                warning_count,
            },
        ),
        _ => None,
    }
}

pub fn allocator_state_of(record: &JsonTraceRecord) -> (r: Option<ReplayEventAllocatorState>)
    ensures
        r == state_of(*record),
{
    match record {
        JsonTraceRecord::AllocatorSourceSummary {
            event_id,
            tcache_candidate_chunks,
            fastbin_chunks,
            unsorted_chunks,
            smallbin_chunks,
            largebin_chunks,
            total_free_list_chunks,
            warning_count,
        } => Some(
            ReplayEventAllocatorState {
                event_id: *event_id,
                tcache_candidate_chunks: *tcache_candidate_chunks,
                fastbin_chunks: *fastbin_chunks,
                unsorted_chunks: *unsorted_chunks,
                smallbin_chunks: *smallbin_chunks,
                largebin_chunks: *largebin_chunks,
                total_free_list_chunks: *total_free_list_chunks,
                warning_count: *warning_count,
            },
        ),
        _ => None,
    }
}

/// The changes that a record carries.
pub open spec fn delta_of(record: JsonTraceRecord) -> Option<ReplayEventAllocatorDelta> {
    match record {
        JsonTraceRecord::AllocatorSourceDelta {
            event_id,
            tcache_candidate_chunks_delta,
            fastbin_chunks_delta,
            unsorted_chunks_delta,
            smallbin_chunks_delta,
            largebin_chunks_delta,
            total_free_list_chunks_delta,
            warning_count_delta,
        } => Some(
            ReplayEventAllocatorDelta {
                event_id,
                tcache_candidate_chunks_delta,
                fastbin_chunks_delta,
                unsorted_chunks_delta,
                smallbin_chunks_delta,
                largebin_chunks_delta,
                total_free_list_chunks_delta,
                warning_count_delta,
            },
        ),
        _ => None,
    }
}

fn allocator_delta_of(record: &JsonTraceRecord) -> (r: Option<ReplayEventAllocatorDelta>)
    ensures
        r == delta_of(*record),
{
    match record {
        JsonTraceRecord::AllocatorSourceDelta {
            event_id,
            tcache_candidate_chunks_delta,
            fastbin_chunks_delta,
            unsorted_chunks_delta,
            smallbin_chunks_delta,
            largebin_chunks_delta,
            total_free_list_chunks_delta,
            warning_count_delta,
        } => Some(
            ReplayEventAllocatorDelta {
                event_id: *event_id,
                tcache_candidate_chunks_delta: *tcache_candidate_chunks_delta,
                fastbin_chunks_delta: *fastbin_chunks_delta,
                unsorted_chunks_delta: *unsorted_chunks_delta,
                smallbin_chunks_delta: *smallbin_chunks_delta,
                largebin_chunks_delta: *largebin_chunks_delta,
                total_free_list_chunks_delta: *total_free_list_chunks_delta,
                warning_count_delta: *warning_count_delta,
            },
        ),
        _ => None,
    }
}

/// The events of the first `n` records, with their places.
pub open spec fn event_entries(records: Seq<JsonTraceRecord>, n: nat) -> Seq<ReplayEventEntry>
    decreases n,
{
    if n == 0 {
        Seq::empty()
    } else {
        let before = event_entries(records, (n - 1) as nat);
        match records[n - 1] {
            JsonTraceRecord::Event { event } => before.push(
                ReplayEventEntry { event_id: event_id_of(event), record_index: (n - 1) as usize },
            ),
            _ => before,
        }
    }
}

/// The counts by event over the first `n` records; a later record replaces an
/// earlier one.
pub open spec fn states_by_event(records: Seq<JsonTraceRecord>, n: nat) -> Map<
    usize,
    ReplayEventAllocatorState,
>
    decreases n,
{
    if n == 0 {
        Map::empty()
    } else {
        let before = states_by_event(records, (n - 1) as nat);
        match state_of(records[n - 1]) {
            Some(s) => before.insert(s.event_id, s),
            None => before,
        }
    }
}

/// The changes by event over the first `n` records.
pub open spec fn deltas_by_event(records: Seq<JsonTraceRecord>, n: nat) -> Map<
    usize,
    ReplayEventAllocatorDelta,
>
    decreases n,
{
    if n == 0 {
        Map::empty()
    } else {
        let before = deltas_by_event(records, (n - 1) as nat);
        match delta_of(records[n - 1]) {
            Some(d) => before.insert(d.event_id, d),
            None => before,
        }
    }
}

/// The place of the last session start among the first `n` records.
pub open spec fn last_start(records: Seq<JsonTraceRecord>, n: nat) -> Option<usize>
    decreases n,
{
    if n == 0 {
        None
    } else if records[n - 1] is SessionStart {
        Some((n - 1) as usize)
    } else {
        last_start(records, (n - 1) as nat)
    }
}

/// The place of the last session end among the first `n` records.
pub open spec fn last_end(records: Seq<JsonTraceRecord>, n: nat) -> Option<usize>
    decreases n,
{
    if n == 0 {
        None
    } else if records[n - 1] is SessionEnd {
        Some((n - 1) as usize)
    } else {
        last_end(records, (n - 1) as nat)
    }
}

/// A trace with its events and counts found.
pub struct ReplaySession {
    pub records: Vec<JsonTraceRecord>,
    pub events: Vec<ReplayEventEntry>,
    pub session_start: Option<usize>,
    pub session_end: Option<usize>,
    pub allocator_states_by_event_id: BTreeMap<usize, ReplayEventAllocatorState>,
    pub allocator_deltas_by_event_id: BTreeMap<usize, ReplayEventAllocatorDelta>,
}

impl ReplaySession {
    /// Everything that was found agrees with the records.
    pub open spec fn well_formed(self) -> bool {
        &&& self.events@ == event_entries(self.records@, self.records@.len())
        &&& self.session_start == last_start(self.records@, self.records@.len())
        &&& self.session_end == last_end(self.records@, self.records@.len())
        &&& self.allocator_states_by_event_id@ == states_by_event(
            self.records@,
            self.records@.len(),
        )
        &&& self.allocator_deltas_by_event_id@ == deltas_by_event(
            self.records@,
            self.records@.len(),
        )
    }

    pub fn from_records(records: Vec<JsonTraceRecord>) -> (r: ReplaySession)
        ensures
            r.records@ == records@,
            r.well_formed(),
    {
        let mut events: Vec<ReplayEventEntry> = Vec::new();
        let mut session_start: Option<usize> = None;
        let mut session_end: Option<usize> = None;
        let mut states: BTreeMap<usize, ReplayEventAllocatorState> = BTreeMap::new();
        let mut deltas: BTreeMap<usize, ReplayEventAllocatorDelta> = BTreeMap::new();
        let mut i: usize = 0;
        while i < records.len()
            invariant
                i <= records.len(),
                events@ == event_entries(records@, i as nat),
                session_start == last_start(records@, i as nat),
                session_end == last_end(records@, i as nat),
                states@ == states_by_event(records@, i as nat),
                deltas@ == deltas_by_event(records@, i as nat),
            decreases records.len() - i,
        {
            match &records[i] {
                JsonTraceRecord::SessionStart { .. } => {
                    session_start = Some(i);
                },
                JsonTraceRecord::SessionEnd { .. } => {
                    session_end = Some(i);
                },
                JsonTraceRecord::Event { event } => {
                    events.push(
                        ReplayEventEntry { event_id: replay_event_id(event), record_index: i },
                    );
                },
                _ => {},
            }
            if let Some(s) = allocator_state_of(&records[i]) {
                states.insert(s.event_id, s);
            }
            if let Some(d) = allocator_delta_of(&records[i]) {
                deltas.insert(d.event_id, d);
            }
            i = i + 1;
        }
        ReplaySession {
            records,
            events,
            session_start,
            session_end,
            allocator_states_by_event_id: states,
            allocator_deltas_by_event_id: deltas,
        }
    }

    pub fn event_count(&self) -> (r: usize)
        ensures
            r == self.events@.len(),
    {
        self.events.len()
    }

    /// The record of the event at a place of the timeline.
    pub open spec fn record_at(self, index: int) -> Option<JsonTraceRecord> {
        if 0 <= index < self.events@.len() && self.events@[index].record_index
            < self.records@.len() {
            Some(self.records@[self.events@[index].record_index as int])
        } else {
            None
        }
    }

    pub fn event_record(&self, index: usize) -> (r: Option<&JsonTraceRecord>)
        ensures
            match (r, self.record_at(index as int)) {
                (Some(x), Some(m)) => *x == m,
                (None, None) => true,
                _ => false,
            },
    {
        if index < self.events.len() && self.events[index].record_index < self.records.len() {
            Some(&self.records[self.events[index].record_index])
        } else {
            None
        }
    }

    /// The records of an event, in the order of the trace.
    pub fn records_for_event(&self, event_id: usize) -> (r: Vec<&JsonTraceRecord>)
        ensures
            r@.len() == records_of_event(self.records@, event_id).len(),
            forall|i: int|
                0 <= i < r@.len() ==> *(#[trigger] r@[i]) == records_of_event(
                    self.records@,
                    event_id,
                )[i],
    {
        let mut out: Vec<&JsonTraceRecord> = Vec::new();
        let mut i: usize = 0;
        assert(self.records@.take(0) =~= Seq::empty());
        while i < self.records.len()
            invariant
                i <= self.records.len(),
                out@.len() == records_of_event(self.records@.take(i as int), event_id).len(),
                forall|k: int|
                    0 <= k < out@.len() ==> *(#[trigger] out@[k]) == records_of_event(
                        self.records@.take(i as int),
                        event_id,
                    )[k],
            decreases self.records.len() - i,
        {
            proof {
                assert(self.records@.take(i + 1).drop_last() =~= self.records@.take(i as int));
                assert(self.records@.take(i + 1).last() == self.records@[i as int]);
            }
            let id: Option<usize> = replay_record_event_id(&self.records[i]);
            match id {
                Some(n) => {
                    if n == event_id {
                        out.push(&self.records[i]);
                    }
                },
                None => {},
            }
            i = i + 1;
        }
        assert(self.records@.take(self.records.len() as int) =~= self.records@);
        out
    }
}

/// The records that belong to an event.
pub open spec fn records_of_event(records: Seq<JsonTraceRecord>, event_id: usize) -> Seq<
    JsonTraceRecord,
>
    decreases records.len(),
{
    if records.len() == 0 {
        Seq::empty()
    } else {
        let before = records_of_event(records.drop_last(), event_id);
        if record_event_id(records.last()) == Some(event_id) {
            before.push(records.last())
        } else {
            before
        }
    }
}

/// The non-empty texts of the records that are no events.
pub open spec fn related_texts(records: Seq<JsonTraceRecord>, config: ReplayConfig) -> Seq<
    Seq<char>,
>
    decreases records.len(),
{
    if records.len() == 0 {
        Seq::empty()
    } else {
        let before = related_texts(records.drop_last(), config);
        if records.last() is Event || record_text_of(records.last(), config).len() == 0 {
            before
        } else {
            before.push(record_text_of(records.last(), config))
        }
    }
}

pub fn is_event_record(record: &JsonTraceRecord) -> (r: bool)
    ensures
        r == (*record is Event),
{
    match record {
        JsonTraceRecord::Event { .. } => true,
        _ => false,
    }
}

/// The texts of what else was recorded at an event.
pub open spec fn related_text(
    records: Seq<JsonTraceRecord>,
    event_id: usize,
    config: ReplayConfig,
) -> Seq<char> {
    text::join(related_texts(records_of_event(records, event_id), config), "\n\n"@)
}

pub fn format_related_replay_records(
    session: &ReplaySession,
    event_id: usize,
    config: &ReplayConfig,
) -> (r: String)
    ensures
        r@ == related_text(session.records@, event_id, *config),
{
    let found = session.records_for_event(event_id);
    let ghost all = records_of_event(session.records@, event_id);
    let mut l = Lines::new();
    let mut i: usize = 0;
    assert(all.take(0) =~= Seq::empty());
    while i < found.len()
        invariant
            i <= found.len(),
            found@.len() == all.len(),
            forall|k: int| 0 <= k < found@.len() ==> *(#[trigger] found@[k]) == all[k],
            l@ == related_texts(all.take(i as int), *config),
        decreases found.len() - i,
    {
        proof {
            assert(all.take(i + 1).drop_last() =~= all.take(i as int));
            assert(all.take(i + 1).last() == all[i as int]);
            assert(*found@[i as int] == all[i as int]);
        }
        let record = found[i];
        if !is_event_record(record) {
            let body = format_replay_record(record, config);
            if !body.as_str().is_empty() {
                l.push(body);
            }
        }
        i = i + 1;
    }
    assert(all.take(all.len() as int) =~= all);
    l.join("\n\n")
}

/// What a replay prints, in order: the session data, the body and the end of
/// the session, without the parts that have no text.
pub open spec fn printed_texts(session: ReplaySession, config: ReplayConfig) -> Seq<Seq<char>> {
    session_record_texts(session, session.session_start, config) + body_texts(
        session.records@,
        config,
    ) + session_record_texts(session, session.session_end, config)
}

pub open spec fn session_record_texts(
    session: ReplaySession,
    index: Option<usize>,
    config: ReplayConfig,
) -> Seq<Seq<char>> {
    match index {
        Some(i) => if i < session.records@.len() && record_text_of(
            session.records@[i as int],
            config,
        ).len() > 0 {
            seq![record_text_of(session.records@[i as int], config)]
        } else {
            Seq::empty()
        },
        None => Seq::empty(),
    }
}

pub open spec fn body_texts(records: Seq<JsonTraceRecord>, config: ReplayConfig) -> Seq<Seq<char>>
    decreases records.len(),
{
    if records.len() == 0 {
        Seq::empty()
    } else {
        let before = body_texts(records.drop_last(), config);
        if body_text(records.last(), config).len() == 0 {
            before
        } else {
            before.push(body_text(records.last(), config))
        }
    }
}

fn session_record_lines(session: &ReplaySession, index: Option<usize>, config: &ReplayConfig) -> (r:
    Lines)
    ensures
        r@ == session_record_texts(*session, index, *config),
{
    if let Some(i) = index {
        if i < session.records.len() {
            let body = format_replay_record(&session.records[i], config);
            if !body.as_str().is_empty() {
                return Lines::one(body.as_str());
            }
        }
    }
    Lines::new()
}

/// The texts that a replay prints, one after the other.
pub fn replay_trace(session: &ReplaySession, config: &ReplayConfig) -> (r: Vec<String>)
    ensures
        text::texts(r@) == printed_texts(*session, *config),
{
    let mut l = session_record_lines(session, session.session_start, config);
    let mut body = Lines::new();
    let mut i: usize = 0;
    assert(session.records@.take(0) =~= Seq::empty());
    while i < session.records.len()
        invariant
            i <= session.records.len(),
            body@ == body_texts(session.records@.take(i as int), *config),
        decreases session.records.len() - i,
    {
        proof {
            assert(session.records@.take(i + 1).drop_last() =~= session.records@.take(i as int));
            assert(session.records@.take(i + 1).last() == session.records@[i as int]);
        }
        let shown = render_replay_record(&session.records[i], config);
        if !shown.as_str().is_empty() {
            body.push(shown);
        }
        i = i + 1;
    }
    assert(session.records@.take(session.records.len() as int) =~= session.records@);
    l.add(body);
    l.add(session_record_lines(session, session.session_end, config));
    l.items
}

// ---------------------------------------------------------------------------
// Timeline
// ---------------------------------------------------------------------------

pub open spec fn counts_text(state: Option<ReplayEventAllocatorState>) -> Seq<char> {
    match state {
        Some(s) =>
            "tc="@ + text::dec(s.tcache_candidate_chunks as nat) + " fb="@
                + text::dec(s.fastbin_chunks as nat) + " ub="@ + text::dec(s.unsorted_chunks as nat)
                + " sb="@ + text::dec(s.smallbin_chunks as nat) + " lb="@
                + text::dec(s.largebin_chunks as nat) + " warn="@
                + text::dec(s.warning_count as nat),
        None => Seq::empty(),
    }
}

pub fn format_timeline_allocator_counts(state: Option<&ReplayEventAllocatorState>) -> (r: String)
    ensures
        r@ == counts_text(opt_state(state)),
{
    match state {
        Some(s) =>
            cat7(
                "tc=",
                text::format_dec_usize(s.tcache_candidate_chunks).as_str(),
                " fb=",
                text::format_dec_usize(s.fastbin_chunks).as_str(),
                " ub=",
                text::format_dec_usize(s.unsorted_chunks).as_str(),
                " sb=",
            )
                .concat(text::format_dec_usize(s.smallbin_chunks).as_str())
                .concat(" lb=")
                .concat(text::format_dec_usize(s.largebin_chunks).as_str())
                .concat(" warn=")
                .concat(text::format_dec_usize(s.warning_count).as_str()),
        None => String::new(),
    }
}

pub open spec fn opt_state(state: Option<&ReplayEventAllocatorState>) -> Option<
    ReplayEventAllocatorState,
> {
    match state {
        Some(s) => Some(*s),
        None => None,
    }
}

/// An event in the timeline: its call, and the counts at it where they are
/// known.
pub open spec fn timeline_summary(
    event: JsonHeapEvent,
    state: Option<ReplayEventAllocatorState>,
) -> Seq<char> {
    match state {
        Some(_) => replay_text::event_summary(event) + "    "@ + counts_text(state),
        None => replay_text::event_summary(event),
    }
}

pub fn format_timeline_event_summary(
    event: &JsonHeapEvent,
    state: Option<&ReplayEventAllocatorState>,
) -> (r: String)
    ensures
        r@ == timeline_summary(*event, opt_state(state)),
{
    match state {
        Some(_) => cat3(
            format_replay_event_summary(event).as_str(),
            "    ",
            format_timeline_allocator_counts(state).as_str(),
        ),
        None => format_replay_event_summary(event),
    }
}

/// The first row of a list that shows the selected row, with no row wasted.
pub open spec fn timeline_offset(selected: int, visible: int, count: int) -> int {
    if visible == 0 || count <= visible {
        0
    } else if selected < visible {
        0
    } else if selected - (visible - 1) <= count - visible {
        selected - (visible - 1)
    } else {
        count - visible
    }
}

pub fn visible_timeline_offset(
    selected_event_index: usize,
    visible_rows: usize,
    event_count: usize,
) -> (r: usize)
    ensures
        r == timeline_offset(
            selected_event_index as int,
            visible_rows as int,
            event_count as int,
        ),
{
    if visible_rows == 0 || event_count <= visible_rows {
        return 0;
    }
    let max_offset: usize = event_count - visible_rows;
    let wanted: usize = if selected_event_index < visible_rows {
        0
    } else {
        selected_event_index - (visible_rows - 1)
    };
    if wanted <= max_offset {
        wanted
    } else {
        max_offset
    }
}

/// The timeline rows of the entries from `from` up to `to`.
pub open spec fn timeline_rows(session: ReplaySession, from: int, to: int) -> Seq<Seq<char>>
    decreases to - from,
{
    if from >= to || to > session.events@.len() || from < 0 {
        Seq::empty()
    } else {
        let before = timeline_rows(session, from, to - 1);
        let entry = session.events@[to - 1];
        match session.record_at(to - 1) {
            Some(JsonTraceRecord::Event { event }) => before.push(
                timeline_summary(
                    event,
                    if session.allocator_states_by_event_id@.contains_key(entry.event_id) {
                        Some(session.allocator_states_by_event_id@[entry.event_id])
                    } else {
                        None
                    },
                ),
            ),
            _ => before,
        }
    }
}

/// The rows that a timeline of the given height shows from an offset on; at
/// least one row is asked for.
pub open spec fn timeline_view(session: ReplaySession, from: int, height: int) -> Seq<Seq<char>> {
    let to = from + if height == 0 { 1 } else { height };
    let count = session.events@.len() as int;
    timeline_rows(session, from, if to <= count { to } else { count })
}

pub fn replay_timeline_rows(session: &ReplaySession, offset: usize, height: usize) -> (r: Vec<
    String,
>)
    ensures
        text::texts(r@) == timeline_view(*session, offset as int, height as int),
{
    let rows: usize = if height == 0 { 1 } else { height };
    let count: usize = session.events.len();
    let end: usize = if offset < count && rows <= count - offset { offset + rows } else { count };
    let mut l = Lines::new();
    let mut i: usize = offset;
    while i < end
        invariant
            offset <= i,
            i <= end || i == offset,
            end <= session.events.len(),
            l@ == timeline_rows(*session, offset as int, i as int),
        decreases end - i,
    {
        if let Some(record) = session.event_record(i) {
            if let JsonTraceRecord::Event { event } = record {
                let id: usize = session.events[i].event_id;
                l.push(
                    format_timeline_event_summary(
                        event,
                        session.allocator_states_by_event_id.get(&id),
                    ),
                );
            }
        }
        i = i + 1;
    }
    assert(text::texts(l.items@) == l@);
    l.items
}

/// The details of the selected event.
/// The text of the event at a place of the timeline.
pub open spec fn details_text(session: ReplaySession, index: int, config: ReplayConfig) -> Seq<char> {
    match session.record_at(index) {
        Some(record) => record_text_of(record, config),
        None => "no event selected"@,
    }
}

pub fn replay_details_text(session: &ReplaySession, index: usize, config: &ReplayConfig) -> (r:
    String)
    ensures
        r@ == details_text(*session, index as int, *config),
{
    match session.event_record(index) {
        Some(record) => format_replay_record(record, config),
        None => owned("no event selected"),
    }
}

/// What else was recorded at the event of a record.
pub open spec fn related_panel_text(
    session: ReplaySession,
    record: Option<JsonTraceRecord>,
    config: ReplayConfig,
) -> Seq<char> {
    match record {
        Some(r) => match record_event_id(r) {
            Some(id) => if related_text(session.records@, id, config).len() == 0 {
                "no related records"@
            } else {
                related_text(session.records@, id, config)
            },
            None => "no related records"@,
        },
        None => "no related records"@,
    }
}

pub fn replay_related_panel(session: &ReplaySession, index: usize, config: &ReplayConfig) -> (r:
    String)
    ensures
        r@ == related_panel_text(*session, session.record_at(index as int), *config),
{
    if let Some(record) = session.event_record(index) {
        if let Some(id) = replay_record_event_id(record) {
            let shown = format_related_replay_records(session, id, config);
            if !shown.as_str().is_empty() {
                return shown;
            }
        }
    }
    owned("no related records")
}

/// What is selected on the replay screen.
#[derive(Debug, Clone, Copy, PartialEq, Eq, Structural)]
pub struct ReplayTuiState {
    pub selected_event_index: usize,
    pub scroll_details: u16,
}

/// The selection after a key, or nothing where the key selects nothing.
pub open spec fn moved_selection(key: KeyCode, selected: int, count: int) -> Option<int> {
    let last = if count == 0 { 0 } else { count - 1 };
    if key is Down || key == KeyCode::Char('j') {
        Some(if selected + 1 <= last { selected + 1 } else { last })
    } else if key is Up || key == KeyCode::Char('k') {
        Some(if selected >= 1 { selected - 1 } else { 0 })
    } else if key is PageDown {
        Some(if selected + 10 <= last { selected + 10 } else { last })
    } else if key is PageUp {
        Some(if selected >= 10 { selected - 10 } else { 0 })
    } else if key is Home {
        Some(0)
    } else if key is End {
        Some(last)
    } else {
        None
    }
}

/// Handles a key of the replay screen; says whether to leave it.
pub fn handle_replay_tui_key(
    key: KeyCode,
    session: &ReplaySession,
    state: &mut ReplayTuiState,
) -> (leave: bool)
    ensures
        leave == (key == KeyCode::Char('q') || key is Esc),
        match moved_selection(
            key,
            old(state).selected_event_index as int,
            session.events@.len() as int,
        ) {
            Some(index) => final(state).selected_event_index == index
                && final(state).scroll_details == 0,
            None => *final(state) == *old(state),
        },
{
    let count: usize = session.event_count();
    let last: usize = if count == 0 { 0 } else { count - 1 };
    let selected: usize = state.selected_event_index;
    let moved: Option<usize> = match key {
        KeyCode::Char('q') | KeyCode::Esc => {
            return true;
        },
        KeyCode::Down | KeyCode::Char('j') => Some(
            if selected < last { selected + 1 } else { last },
        ),
        KeyCode::Up | KeyCode::Char('k') => Some(if selected >= 1 { selected - 1 } else { 0 }),
        KeyCode::PageDown => Some(
            if selected <= last && last - selected >= 10 { selected + 10 } else { last },
        ),
        KeyCode::PageUp => Some(if selected >= 10 { selected - 10 } else { 0 }),
        KeyCode::Home => Some(0),
        KeyCode::End => Some(last),
        _ => None,
    };
    if let Some(index) = moved {
        state.selected_event_index = index;
        state.scroll_details = 0;
    }
    false
}

// ---------------------------------------------------------------------------
// Arguments
// ---------------------------------------------------------------------------

/// The replay options from argument `i` on and the trace file, or the message
/// of what is wrong.
pub open spec fn replay_args(args: Seq<Seq<char>>, i: int, config: ReplayConfig) -> Result<
    (ReplayConfig, Seq<char>),
    Seq<char>,
>
    decreases args.len() - i,
{
    if i < 0 || i >= args.len() {
        Err("missing trace file"@)
    } else if args[i] == "--events-only"@ {
        replay_args(args, i + 1, ReplayConfig { events_only: true, ..config })
    } else if args[i] == "--no-chunks"@ {
        replay_args(args, i + 1, ReplayConfig { show_chunks: false, ..config })
    } else if args[i] == "--tui"@ {
        replay_args(args, i + 1, ReplayConfig { tui: true, ..config })
    } else if args[i].len() > 0 && args[i][0] == '-' {
        Err("unknown replay option: "@ + args[i])
    } else if i + 1 < args.len() {
        Err("unexpected replay argument: "@ + args[i + 1])
    } else {
        Ok((config, args[i]))
    }
}

/// Reads the arguments of `replay`.
pub fn parse_replay_args(args: Vec<String>) -> (r: Result<(ReplayConfig, String), CliError>)
    ensures
        match (
            r,
            replay_args(
                text::texts(args@),
                0,
                ReplayConfig { events_only: false, show_chunks: true, tui: false },
            ),
        ) {
            (Ok(p), Ok(m)) => p.0 == m.0 && p.1@ == m.1,
            (Err(e), Err(m)) => e.message@ == m,
            _ => false,
        },
{
    let mut config = ReplayConfig { events_only: false, show_chunks: true, tui: false };
    let ghost start = config;
    let ghost t = text::texts(args@);
    let mut i: usize = 0;
    while i < args.len()
        invariant
            i <= args.len(),
            t == text::texts(args@),
            start == (ReplayConfig { events_only: false, show_chunks: true, tui: false }),
            replay_args(t, 0, start) == replay_args(t, i as int, config),
        decreases args.len() - i,
    {
        let arg = args[i].as_str();
        assert(t[i as int] == arg@);
        if same(arg, "--events-only") {
            config.events_only = true;
        } else if same(arg, "--no-chunks") {
            config.show_chunks = false;
        } else if same(arg, "--tui") {
            config.tui = true;
        } else if !arg.is_empty() && arg.get_char(0) == '-' {
            return Err(CliError { message: cat2("unknown replay option: ", arg) });
        } else if args.len() - i > 1 {
            assert(t[i + 1] == args@[i + 1]@);
            return Err(
                CliError { message: cat2("unexpected replay argument: ", args[i + 1].as_str()) },
            );
        } else {
            return Ok((config, args[i].clone()));
        }
        i = i + 1;
    }
    Err(CliError { message: owned("missing trace file") })
}

// ---------------------------------------------------------------------------
// Laws
// ---------------------------------------------------------------------------

/// With only events asked for, every record that is neither an event nor
/// session data has no text.
pub proof fn law_events_only_is_silent(record: JsonTraceRecord, config: ReplayConfig)
    requires
        config.events_only,
        !(record is Event),
        !(record is SessionStart),
        !(record is SessionEnd),
    ensures
        record_text_of(record, config) == Seq::<char>::empty(),
{
}

/// An event's own text does not change with what else is recorded at it: its
/// first line is its call.
pub proof fn law_event_starts_with_its_call(event: JsonHeapEvent, config: ReplayConfig)
    ensures
        replay_text::event_lines(event, config).len() > 0,
        replay_text::event_lines(event, config)[0] == replay_text::event_summary(event),
{
}

/// What is found for an event are records of the trace that belong to it, and
/// all of them.
pub proof fn law_records_of_event(records: Seq<JsonTraceRecord>, event_id: usize)
    ensures
        forall|i: int|
            0 <= i < records_of_event(records, event_id).len() ==> record_event_id(
                #[trigger] records_of_event(records, event_id)[i],
            ) == Some(event_id),
        forall|i: int|
            0 <= i < records.len() && record_event_id(#[trigger] records[i]) == Some(event_id)
                ==> records_of_event(records, event_id).contains(records[i]),
    decreases records.len(),
{
    if records.len() > 0 {
        let rest = records.drop_last();
        law_records_of_event(rest, event_id);
        let found = records_of_event(records, event_id);
        let before = records_of_event(rest, event_id);
        assert forall|i: int|
            0 <= i < records.len() && record_event_id(#[trigger] records[i]) == Some(
                event_id,
            ) implies found.contains(records[i]) by {
            if i < rest.len() {
                assert(rest[i] == records[i]);
                assert(before.contains(rest[i]));
                let k = choose|k: int| 0 <= k < before.len() && before[k] == rest[i];
                assert(found[k] == records[i]);
            } else {
                assert(found[before.len() as int] == records[i]);
            }
        }
    }
}

proof fn lemma_event_entries(records: Seq<JsonTraceRecord>, n: nat)
    requires
        n <= records.len() <= usize::MAX,
    ensures
        forall|i: int|
            0 <= i < event_entries(records, n).len() ==> {
                let e = #[trigger] event_entries(records, n)[i];
                &&& e.record_index < n
                &&& records[e.record_index as int] is Event
                &&& event_id_of(records[e.record_index as int]->Event_event) == e.event_id
            },
    decreases n,
{
    if n > 0 {
        lemma_event_entries(records, (n - 1) as nat);
    }
}

/// Every place of the timeline has an event record, and it carries the number
/// that the timeline gives it.
pub proof fn law_timeline_entries_are_events(session: ReplaySession, index: int)
    requires
        session.well_formed(),
        session.records@.len() <= usize::MAX,
        0 <= index < session.events@.len(),
    ensures
        session.record_at(index) is Some,
        session.record_at(index)->0 is Event,
        record_event_id(session.record_at(index)->0) == Some(session.events@[index].event_id),
{
    lemma_event_entries(session.records@, session.records@.len());
}

/// The selected row is among the rows that the timeline shows.
pub proof fn law_selected_row_is_visible(selected: int, visible: int, count: int)
    requires
        0 <= selected < count,
        0 < visible,
    ensures
        timeline_offset(selected, visible, count) <= selected,
        selected < timeline_offset(selected, visible, count) + visible,
        0 <= timeline_offset(selected, visible, count),
        count > visible ==> timeline_offset(selected, visible, count) + visible <= count,
{
}

/// No key moves the selection out of the timeline.
pub proof fn law_selection_stays_in_range(key: KeyCode, selected: int, count: int)
    requires
        0 <= selected < count,
        moved_selection(key, selected, count) is Some,
    ensures
        0 <= moved_selection(key, selected, count)->0 < count,
{
}

/// A step down and a step up again lead back, unless the selection was already
/// at the end.
pub proof fn law_down_then_up(selected: int, count: int)
    requires
        0 <= selected < count - 1,
    ensures
        moved_selection(
            KeyCode::Up,
            moved_selection(KeyCode::Down, selected, count)->0,
            count,
        ) == Some(selected),
{
}

} // verus!
