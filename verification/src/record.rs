//! The records of a trace.

use vstd::prelude::*;

verus! {

/// How well a glibc profile fits the libc that was found.
#[derive(Debug, Clone, Copy, PartialEq, Eq, Structural)]
pub enum GlibcProfileConfidence {
    High,
    Medium,
    Low,
}

/// One place in a source file.
#[derive(Debug, Clone, PartialEq, Eq)]
pub struct JsonSourceLocation {
    pub file: Option<String>,
    pub line: Option<u32>,
    pub column: Option<u32>,
}

/// The symbol that an allocator call came from.
#[derive(Debug, Clone, PartialEq, Eq)]
pub struct JsonCallerSymbol {
    pub symbol: String,
    pub symbol_addr: String,
    pub offset: String,
    pub object: Option<String>,
    pub source: Option<JsonSourceLocation>,
}

/// A chunk header read at an event.
#[derive(Debug, Clone, PartialEq, Eq)]
pub struct JsonChunk {
    pub chunk_addr: String,
    pub user_addr: String,
    pub prev_size: String,
    pub size_raw: String,
    pub size: String,
    pub flags: Vec<String>,
}

/// The list link stored in a freed chunk.
#[derive(Debug, Clone, PartialEq, Eq)]
pub struct JsonTcacheEntry {
    pub storage_addr: String,
    pub encoded_next: String,
    pub decoded_next: String,
}

/// A place in an observed tcache list.
#[derive(Debug, Clone, PartialEq, Eq)]
pub struct JsonTcacheMembership {
    pub chunk_size: String,
    pub index: usize,
}

/// The free list that holds a chunk.
#[derive(Debug, Clone, PartialEq, Eq)]
pub struct JsonLayoutAllocatorSource {
    pub kind: String,
    pub chunk_size: String,
    pub index: usize,
}

/// One chunk of a heap walk.
#[derive(Debug, Clone, PartialEq, Eq)]
pub struct JsonLayoutChunk {
    pub chunk_addr: String,
    pub user_addr: String,
    pub prev_size: String,
    pub size_raw: String,
    pub size: String,
    pub flags: Vec<String>,
    pub state: String,
    pub tcache_candidate: Option<JsonTcacheMembership>,
    pub allocator_source: Option<JsonLayoutAllocatorSource>,
}

/// A tcache list followed from the frees that were seen.
#[derive(Debug, Clone, PartialEq, Eq)]
pub struct JsonObservedTcacheChain {
    pub chunk_size: String,
    pub entries: Vec<String>,
    pub truncated: bool,
    pub stopped_on_unknown_next: bool,
}

/// A chunk that may be the tcache structure.
#[derive(Debug, Clone, PartialEq, Eq)]
pub struct JsonTcacheStructCandidate {
    pub chunk_addr: String,
    pub user_addr: String,
    pub size: String,
    pub reason: String,
}

/// One bin of the tcache structure.
#[derive(Debug, Clone, PartialEq, Eq)]
pub struct JsonTcacheBin {
    pub index: usize,
    pub chunk_size: String,
    pub count: u64,
    pub head: String,
}

/// The bins of the tcache structure.
#[derive(Debug, Clone, PartialEq, Eq)]
pub struct JsonTcacheSnapshotCandidate {
    pub bins: Vec<JsonTcacheBin>,
}

/// Where the main arena may be.
#[derive(Debug, Clone, PartialEq, Eq)]
pub struct JsonMainArenaCandidate {
    pub libc_path: String,
    pub symbol_name: String,
    pub runtime_addr: String,
    pub source: String,
    pub offset: Option<String>,
}

/// An arena word that points into the heap.
#[derive(Debug, Clone, PartialEq, Eq)]
pub struct JsonMainArenaPointerCandidate {
    pub field_offset: String,
    pub value: String,
    pub points_into_heap: bool,
    pub matches_heap_chunk: bool,
    pub matched_chunk_size: Option<String>,
    pub role_hint: String,
}

/// The arena of a validated view.
#[derive(Debug, Clone, PartialEq, Eq)]
pub struct JsonMainArenaViewArena {
    pub addr: String,
    pub source: String,
    pub offset: Option<String>,
    pub libc_path: String,
}

/// The top chunk of a validated view.
#[derive(Debug, Clone, PartialEq, Eq)]
pub struct JsonMainArenaViewTop {
    pub field_offset: String,
    pub value: String,
    pub size: Option<String>,
    pub source: String,
    pub profile: Option<String>,
    pub status: String,
}

/// An arena word that may be a fastbin head.
#[derive(Debug, Clone, PartialEq, Eq)]
pub struct JsonFastbinPointerCandidate {
    pub field_offset: String,
    pub value: String,
    pub possible_chunk_size: Option<String>,
    pub points_into_heap: bool,
    pub matches_heap_chunk: bool,
    pub known_freed: Option<bool>,
    pub role: String,
}

/// An arena word pair that may be the unsorted bin.
#[derive(Debug, Clone, PartialEq, Eq)]
pub struct JsonUnsortedBinPointerCandidate {
    pub field_offset: String,
    pub fd: String,
    pub bk: String,
    pub fd_points_into_heap: bool,
    pub bk_points_into_heap: bool,
    pub fd_matches_heap_chunk: bool,
    pub bk_matches_heap_chunk: bool,
    pub fd_known_freed: Option<bool>,
    pub bk_known_freed: Option<bool>,
    pub role: String,
}

/// An arena word pair that may be a bin.
#[derive(Debug, Clone, PartialEq, Eq)]
pub struct JsonBinPointerCandidate {
    pub field_offset: String,
    pub fd: String,
    pub bk: String,
    pub fd_points_into_heap: bool,
    pub bk_points_into_heap: bool,
    pub fd_points_into_arena: bool,
    pub bk_points_into_arena: bool,
    pub fd_matches_heap_chunk: bool,
    pub bk_matches_heap_chunk: bool,
    pub fd_known_freed: Option<bool>,
    pub bk_known_freed: Option<bool>,
    pub role: String,
}

/// One chunk of the unsorted bin.
#[derive(Debug, Clone, PartialEq, Eq)]
pub struct JsonUnsortedBinNode {
    pub chunk_addr: String,
    pub user_addr: String,
    pub fd: String,
    pub bk: String,
    pub chunk_size: Option<String>,
    pub matches_heap_chunk: bool,
    pub known_freed: Option<bool>,
}

/// The list of the unsorted bin.
#[derive(Debug, Clone, PartialEq, Eq)]
pub struct JsonUnsortedBinChain {
    pub nodes: Vec<JsonUnsortedBinNode>,
    pub empty: bool,
    pub truncated: bool,
    pub stopped_on_unknown_next: bool,
    pub cycle_detected: bool,
}

/// What the list of the unsorted bin was checked for.
#[derive(Debug, Clone, PartialEq, Eq)]
pub struct JsonUnsortedBinValidation {
    pub head_in_heap: String,
    pub fd_bk_consistent: String,
    pub nodes_known_freed: String,
    pub chain_complete: String,
    pub status: String,
}

/// The head word of a fastbin.
#[derive(Debug, Clone, PartialEq, Eq)]
pub struct JsonFastbinHead {
    pub index: usize,
    pub chunk_size: String,
    pub field_offset: String,
    pub head: String,
    pub points_into_heap: bool,
    pub matches_heap_chunk: bool,
    pub known_freed: Option<bool>,
}

/// One chunk of a fastbin.
#[derive(Debug, Clone, PartialEq, Eq)]
pub struct JsonFastbinNode {
    pub chunk_addr: String,
    pub user_addr: String,
    pub encoded_next: String,
    pub decoded_next: String,
    pub chunk_size: Option<String>,
    pub matches_heap_chunk: bool,
    pub known_freed: Option<bool>,
}

/// The list of a fastbin.
#[derive(Debug, Clone, PartialEq, Eq)]
pub struct JsonFastbinChain {
    pub index: usize,
    pub chunk_size: String,
    pub head: String,
    pub nodes: Vec<JsonFastbinNode>,
    pub truncated: bool,
    pub stopped_on_unknown_next: bool,
    pub cycle_detected: bool,
}

/// The head words of a regular bin.
#[derive(Debug, Clone, PartialEq, Eq)]
pub struct JsonRegularBinHead {
    pub index: usize,
    pub glibc_bin_index: usize,
    pub role: String,
    pub chunk_size: Option<String>,
    pub field_offset: String,
    pub fd: String,
    pub bk: String,
    pub empty: bool,
    pub fd_points_into_heap: bool,
    pub bk_points_into_heap: bool,
    pub fd_points_into_arena: bool,
    pub bk_points_into_arena: bool,
    pub fd_matches_heap_chunk: bool,
    pub bk_matches_heap_chunk: bool,
    pub fd_known_freed: Option<bool>,
    pub bk_known_freed: Option<bool>,
}

/// One chunk of a small bin.
#[derive(Debug, Clone, PartialEq, Eq)]
pub struct JsonSmallbinNode {
    pub chunk_addr: String,
    pub user_addr: String,
    pub fd: String,
    pub bk: String,
    pub chunk_size: Option<String>,
    pub matches_heap_chunk: bool,
    pub known_freed: Option<bool>,
    pub fd_points_to_sentinel: bool,
    pub bk_points_to_sentinel: bool,
}

/// The list of a small bin.
#[derive(Debug, Clone, PartialEq, Eq)]
pub struct JsonSmallbinChain {
    pub regular_index: usize,
    pub glibc_bin_index: usize,
    pub expected_chunk_size: String,
    pub sentinel_addr: String,
    pub head: String,
    pub tail: String,
    pub nodes: Vec<JsonSmallbinNode>,
    pub empty: bool,
    pub truncated: bool,
    pub stopped_on_unknown_next: bool,
    pub cycle_detected: bool,
    pub fd_bk_consistent: bool,
}

/// What the list of a small bin was checked for.
#[derive(Debug, Clone, PartialEq, Eq)]
pub struct JsonSmallbinBinValidation {
    pub glibc_bin_index: usize,
    pub expected_chunk_size: String,
    pub head_in_heap: String,
    pub nodes_same_size: String,
    pub fd_bk_consistent: String,
    pub nodes_known_freed: String,
    pub chain_complete: String,
    pub status: String,
}

/// One chunk of a large bin.
#[derive(Debug, Clone, PartialEq, Eq)]
pub struct JsonLargebinNode {
    pub chunk_addr: String,
    pub user_addr: String,
    pub fd: String,
    pub bk: String,
    pub fd_nextsize: String,
    pub bk_nextsize: String,
    pub chunk_size: Option<String>,
    pub matches_heap_chunk: bool,
    pub known_freed: Option<bool>,
}

/// The list of a large bin.
#[derive(Debug, Clone, PartialEq, Eq)]
pub struct JsonLargebinChain {
    pub regular_index: usize,
    pub glibc_bin_index: usize,
    pub sentinel_addr: String,
    pub head: String,
    pub tail: String,
    pub nodes: Vec<JsonLargebinNode>,
    pub empty: bool,
    pub truncated: bool,
    pub stopped_on_unknown_next: bool,
    pub cycle_detected: bool,
    pub fd_bk_consistent: bool,
}

/// What the list of a large bin was checked for.
#[derive(Debug, Clone, PartialEq, Eq)]
pub struct JsonLargebinBinValidation {
    pub glibc_bin_index: usize,
    pub head_in_heap: String,
    pub fd_bk_consistent: String,
    pub nodes_known_freed: String,
    pub chain_complete: String,
    pub status: String,
}

/// What the list of a fastbin was checked for.
#[derive(Debug, Clone, PartialEq, Eq)]
pub struct JsonFastbinBinValidation {
    pub index: usize,
    pub chunk_size: String,
    pub head: String,
    pub head_in_heap: String,
    pub nodes_same_size: String,
    pub nodes_known_freed: String,
    pub chain_complete: String,
    pub status: String,
}

/// A tcache bin beside the frees that were seen.
#[derive(Debug, Clone, PartialEq, Eq)]
pub struct JsonTcacheBinComparison {
    pub chunk_size: String,
    pub struct_count: u64,
    pub struct_head: String,
    pub observed_entries: Vec<String>,
    pub observed_truncated: bool,
    pub observed_stopped_on_unknown_next: bool,
    pub status: String,
}

/// What a tcache bin was checked for.
#[derive(Debug, Clone, PartialEq, Eq)]
pub struct JsonTcacheBinValidation {
    pub chunk_size: String,
    pub head_in_heap: String,
    pub head_known_freed: String,
    pub observed_nodes_same_size: String,
    pub count_matches_observed: String,
    pub status: String,
}

/// A free list that names a chunk.
#[derive(Debug, Clone, PartialEq, Eq)]
pub struct JsonAllocatorSourceMembership {
    pub kind: String,
    pub chunk_size: Option<String>,
    pub index: Option<usize>,
    pub chunk_addr: String,
    pub user_addr: String,
}

/// A disagreement between allocator sources.
#[derive(Debug, Clone, PartialEq, Eq)]
pub struct JsonAllocatorWarning {
    pub kind: String,
    pub chunk_addr: String,
    pub user_addr: String,
    pub sources: Vec<JsonAllocatorSourceMembership>,
    pub message: String,
}

/// One finding of a heap scan.
#[derive(Debug, Clone, PartialEq, Eq)]
pub struct JsonHeapScanFinding {
    pub severity: String,
    pub kind: String,
    pub chunk_addr: Option<String>,
    pub user_addr: Option<String>,
    pub message: String,
}

/// The outcome of a heap scan.
#[derive(Debug, Clone, PartialEq, Eq)]
pub struct JsonHeapScanReport {
    pub chunks_walked: usize,
    pub allocated_observed: usize,
    pub freed_observed: usize,
    pub unknown_observed: usize,
    pub allocator_source_chunks: usize,
    pub warning_count: usize,
    pub suspicious_count: usize,
    pub top_validated: Option<bool>,
    pub heap_snapshot_truncated: bool,
    pub status: String,
    pub findings: Vec<JsonHeapScanFinding>,
}

/// The libc of a session.
#[derive(Debug, Clone, PartialEq, Eq)]
pub struct JsonLibcMetadata {
    pub path: Option<String>,
    pub supplied_path: Option<String>,
    pub paths_match: Option<bool>,
    pub version: Option<String>,
}

/// Where a session's target reads its input from.
#[derive(Debug, Clone, PartialEq, Eq)]
pub struct JsonStdinMetadata {
    pub kind: String,
    pub path: Option<String>,
    pub bytes: Option<usize>,
}

/// How a session's target was started.
#[derive(Debug, Clone, PartialEq, Eq)]
pub struct JsonLaunchMetadata {
    pub mode: String,
    pub loader: Option<String>,
    pub library_path: Option<String>,
    pub preload: Option<String>,
    pub cwd: Option<String>,
    pub clear_env: bool,
    pub set_env: Vec<String>,
    pub unset_env: Vec<String>,
    pub stdin: JsonStdinMetadata,
}

/// The views of a session.
#[derive(Debug, Clone, PartialEq, Eq)]
pub struct JsonTraceFeatures {
    pub layout: bool,
    pub tcache_candidates: bool,
    pub tcache_struct: bool,
    pub libc_symbols: bool,
}

/// How a session came to its glibc profile.
#[derive(Debug, Clone, PartialEq, Eq)]
pub struct GlibcProfileSelection {
    pub requested: String,
    pub selected: String,
    pub detected_version: Option<String>,
    pub detected_libc_path: Option<String>,
    pub supplied_libc_path: Option<String>,
    pub confidence: GlibcProfileConfidence,
    pub reason: String,
    pub warnings: Vec<String>,
}

/// An allocator call of a trace.
#[derive(Debug, Clone, PartialEq, Eq)]
pub enum JsonHeapEvent {
    Malloc {
        event_id: usize,
        requested_size: String,
        returned_ptr: String,
        chunk: Option<JsonChunk>,
        caller_addr: Option<String>,
        caller_symbol: Option<JsonCallerSymbol>,
        tracker_note: String,
        tracker_explanation: Option<String>,
    },
    Free {
        event_id: usize,
        ptr: String,
        chunk: Option<JsonChunk>,
        tcache_entry: Option<JsonTcacheEntry>,
        caller_addr: Option<String>,
        caller_symbol: Option<JsonCallerSymbol>,
        tracker_note: String,
        tracker_explanation: Option<String>,
    },
    Calloc {
        event_id: usize,
        nmemb: String,
        size: String,
        returned_ptr: String,
        chunk: Option<JsonChunk>,
        caller_addr: Option<String>,
        caller_symbol: Option<JsonCallerSymbol>,
        tracker_note: String,
        tracker_explanation: Option<String>,
    },
    Realloc {
        event_id: usize,
        old_ptr: String,
        new_size: String,
        returned_ptr: String,
        old_chunk: Option<JsonChunk>,
        new_chunk: Option<JsonChunk>,
        caller_addr: Option<String>,
        caller_symbol: Option<JsonCallerSymbol>,
        tracker_note: String,
        tracker_explanation: Option<String>,
    },
}

/// One record of a trace file.
#[derive(Debug, Clone, PartialEq, Eq)]
pub enum JsonTraceRecord {
    SessionStart {
        heapify_version: String,
        program: String,
        args: Vec<String>,
        trace_mode: String,
        arch: String,
        os: String,
        glibc_profile: String,
        suggested_glibc_profile: Option<String>,
        glibc_profile_selection: Option<GlibcProfileSelection>,
        libc: Option<JsonLibcMetadata>,
        launch: Option<JsonLaunchMetadata>,
        allocator_views_preset: String,
        features: JsonTraceFeatures,
    },
    SessionEnd { exit_status: String, event_count: usize },
    Event { event: JsonHeapEvent },
    HeapLayout {
        event_id: usize,
        heap_start: String,
        heap_end: String,
        chunks: Vec<JsonLayoutChunk>,
        truncated: bool,
        chunks_omitted: usize,
    },
    ObservedTcacheChains { event_id: usize, chains: Vec<JsonObservedTcacheChain> },
    TcacheStructCandidate {
        event_id: usize,
        candidate: JsonTcacheStructCandidate,
        snapshot: Option<JsonTcacheSnapshotCandidate>,
    },
    MainArenaCandidate { event_id: usize, candidate: JsonMainArenaCandidate },
    MainArenaExperiment {
        event_id: usize,
        arena_addr: String,
        candidates: Vec<JsonMainArenaPointerCandidate>,
    },
    MainArenaTopCandidate {
        event_id: usize,
        arena_addr: String,
        field_offset: String,
        top_addr: String,
        points_into_heap: bool,
        matches_heap_chunk: bool,
        chunk_size: Option<String>,
        status: String,
        source: String,
        profile: Option<String>,
    },
    MainArenaView { event_id: usize, arena: JsonMainArenaViewArena, top: Option<JsonMainArenaViewTop> },
    FastbinExperiment {
        event_id: usize,
        arena_addr: String,
        candidates: Vec<JsonFastbinPointerCandidate>,
    },
    UnsortedBinExperiment {
        event_id: usize,
        arena_addr: String,
        candidates: Vec<JsonUnsortedBinPointerCandidate>,
    },
    BinExperiment { event_id: usize, arena_addr: String, candidates: Vec<JsonBinPointerCandidate> },
    UnsortedBin {
        event_id: usize,
        arena_addr: String,
        field_offset: String,
        fd: String,
        bk: String,
        fd_points_into_heap: bool,
        bk_points_into_heap: bool,
        fd_matches_heap_chunk: bool,
        bk_matches_heap_chunk: bool,
        fd_known_freed: Option<bool>,
        bk_known_freed: Option<bool>,
        chain: Option<JsonUnsortedBinChain>,
    },
    UnsortedBinValidation { event_id: usize, validation: JsonUnsortedBinValidation },
    Fastbins {
        event_id: usize,
        arena_addr: String,
        heads: Vec<JsonFastbinHead>,
        chains: Vec<JsonFastbinChain>,
    },
    RegularBins {
        event_id: usize,
        arena_addr: String,
        bins_offset: String,
        heads: Vec<JsonRegularBinHead>,
    },
    Smallbins {
        event_id: usize,
        arena_addr: String,
        bins_offset: String,
        chains: Vec<JsonSmallbinChain>,
    },
    SmallbinValidation { event_id: usize, validations: Vec<JsonSmallbinBinValidation> },
    Largebins {
        event_id: usize,
        arena_addr: String,
        bins_offset: String,
        chains: Vec<JsonLargebinChain>,
    },
    LargebinValidation { event_id: usize, validations: Vec<JsonLargebinBinValidation> },
    FastbinValidation { event_id: usize, validations: Vec<JsonFastbinBinValidation> },
    TcacheComparison { event_id: usize, comparisons: Vec<JsonTcacheBinComparison> },
    TcacheValidation { event_id: usize, validations: Vec<JsonTcacheBinValidation> },
    AllocatorWarnings { event_id: usize, warnings: Vec<JsonAllocatorWarning> },
    AllocatorSourceSummary {
        event_id: usize,
        tcache_candidate_chunks: usize,
        fastbin_chunks: usize,
        unsorted_chunks: usize,
        smallbin_chunks: usize,
        largebin_chunks: usize,
        total_free_list_chunks: usize,
        warning_count: usize,
    },
    AllocatorSourceDelta {
        event_id: usize,
        tcache_candidate_chunks_delta: isize,
        fastbin_chunks_delta: isize,
        unsorted_chunks_delta: isize,
        smallbin_chunks_delta: isize,
        largebin_chunks_delta: isize,
        total_free_list_chunks_delta: isize,
        warning_count_delta: isize,
    },
    HeapScan { event_id: usize, report: JsonHeapScanReport },
}

} // verus!
