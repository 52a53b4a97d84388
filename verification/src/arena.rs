//! The words for what was found out about an arena, its bins and its chunks.

use crate::replay_text;
use crate::text;
use crate::text::{cat4, Lines};
use vstd::prelude::*;

verus! {

/// Where the word at the top field points.
#[derive(Debug, Clone, Copy, PartialEq, Eq, Structural)]
pub enum MainArenaTopStatus {
    MatchesWalkedChunk,
    PointsIntoHeap,
    OutsideHeap,
    Unavailable,
}

pub open spec fn top_status_label(value: MainArenaTopStatus) -> Seq<char> {
    match value {
        MainArenaTopStatus::MatchesWalkedChunk => "points into heap and matches walked chunk"@,
        MainArenaTopStatus::PointsIntoHeap => "points into heap but does not match walked chunk"@,
        MainArenaTopStatus::OutsideHeap => "outside heap"@,
        MainArenaTopStatus::Unavailable => "unavailable"@,
    }
}

pub fn format_main_arena_top_status(value: MainArenaTopStatus) -> (r: &'static str)
    ensures
        r@ == top_status_label(value),
{
    match value {
        MainArenaTopStatus::MatchesWalkedChunk => "points into heap and matches walked chunk",
        MainArenaTopStatus::PointsIntoHeap => "points into heap but does not match walked chunk",
        MainArenaTopStatus::OutsideHeap => "outside heap",
        MainArenaTopStatus::Unavailable => "unavailable",
    }
}

/// What gave the offset of an arena field.
#[derive(Debug, Clone, Copy, PartialEq, Eq, Structural)]
pub enum MainArenaFieldSource {
    UserOffset,
    GlibcProfile,
}

pub open spec fn field_source_label(value: MainArenaFieldSource) -> Seq<char> {
    match value {
        MainArenaFieldSource::UserOffset => "user_offset"@,
        MainArenaFieldSource::GlibcProfile => "glibc_profile"@,
    }
}

pub fn format_main_arena_field_source(value: MainArenaFieldSource) -> (r: &'static str)
    ensures
        r@ == field_source_label(value),
{
    match value {
        MainArenaFieldSource::UserOffset => "user_offset",
        MainArenaFieldSource::GlibcProfile => "glibc_profile",
    }
}

/// What gave the address of the arena.
#[derive(Debug, Clone, Copy, PartialEq, Eq, Structural)]
pub enum MainArenaSource {
    LibcSymbol,
    UserOffset,
}

pub open spec fn arena_source_label(value: MainArenaSource) -> Seq<char> {
    match value {
        MainArenaSource::LibcSymbol => "libc_symbol"@,
        MainArenaSource::UserOffset => "user_offset"@,
    }
}

pub fn format_main_arena_source(value: MainArenaSource) -> (r: &'static str)
    ensures
        r@ == arena_source_label(value),
{
    match value {
        MainArenaSource::LibcSymbol => "libc_symbol",
        MainArenaSource::UserOffset => "user_offset",
    }
}

/// How far the top field of an arena view was confirmed.
#[derive(Debug, Clone, Copy, PartialEq, Eq, Structural)]
pub enum MainArenaViewStatus {
    Validated,
    PointsIntoHeap,
    OutsideHeap,
    Unavailable,
}

pub open spec fn view_status_label(value: MainArenaViewStatus) -> Seq<char> {
    match value {
        MainArenaViewStatus::Validated => "validated"@,
        MainArenaViewStatus::PointsIntoHeap => "points_into_heap"@,
        MainArenaViewStatus::OutsideHeap => "outside_heap"@,
        MainArenaViewStatus::Unavailable => "unavailable"@,
    }
}

pub fn format_main_arena_view_status(value: MainArenaViewStatus) -> (r: &'static str)
    ensures
        r@ == view_status_label(value),
{
    match value {
        MainArenaViewStatus::Validated => "validated",
        MainArenaViewStatus::PointsIntoHeap => "points_into_heap",
        MainArenaViewStatus::OutsideHeap => "outside_heap",
        MainArenaViewStatus::Unavailable => "unavailable",
    }
}

/// What an arena word that points into the heap may be.
#[derive(Debug, Clone, Copy, PartialEq, Eq, Structural)]
pub enum MainArenaRoleHint {
    CandidateTop,
    HeapPointer,
}

pub open spec fn role_hint_label(value: MainArenaRoleHint) -> Seq<char> {
    match value {
        MainArenaRoleHint::CandidateTop => "candidate_top"@,
        MainArenaRoleHint::HeapPointer => "heap_pointer"@,
    }
}

pub fn format_main_arena_role_hint(value: MainArenaRoleHint) -> (r: &'static str)
    ensures
        r@ == role_hint_label(value),
{
    match value {
        MainArenaRoleHint::CandidateTop => "candidate_top",
        MainArenaRoleHint::HeapPointer => "heap_pointer",
    }
}

/// The kind of a regular bin.
#[derive(Debug, Clone, Copy, PartialEq, Eq, Structural)]
pub enum RegularBinRole {
    Unsorted,
    Smallbin,
    Largebin,
}

pub open spec fn bin_role_label(value: RegularBinRole) -> Seq<char> {
    match value {
        RegularBinRole::Unsorted => "unsorted"@,
        RegularBinRole::Smallbin => "smallbin"@,
        RegularBinRole::Largebin => "largebin"@,
    }
}

pub fn regular_bin_role_label(value: RegularBinRole) -> (r: &'static str)
    ensures
        r@ == bin_role_label(value),
{
    match value {
        RegularBinRole::Unsorted => "unsorted",
        RegularBinRole::Smallbin => "smallbin",
        RegularBinRole::Largebin => "largebin",
    }
}

/// The outcome of one consistency check of a list.
#[derive(Debug, Clone, Copy, PartialEq, Eq, Structural)]
pub enum ValidationValue {
    Yes,
    No,
    Unknown,
}

pub open spec fn validation_value_label(value: ValidationValue) -> Seq<char> {
    match value {
        ValidationValue::Yes => "yes"@,
        ValidationValue::No => "no"@,
        ValidationValue::Unknown => "unknown"@,
    }
}

pub fn format_validation_value(value: ValidationValue) -> (r: &'static str)
    ensures
        r@ == validation_value_label(value),
{
    match value {
        ValidationValue::Yes => "yes",
        ValidationValue::No => "no",
        ValidationValue::Unknown => "unknown",
    }
}

/// The outcome of all consistency checks of a list.
#[derive(Debug, Clone, Copy, PartialEq, Eq, Structural)]
pub enum ValidationStatus {
    Plausible,
    Incomplete,
    Suspicious,
}

pub open spec fn validation_status_label(value: ValidationStatus) -> Seq<char> {
    match value {
        ValidationStatus::Plausible => "plausible"@,
        ValidationStatus::Incomplete => "incomplete"@,
        ValidationStatus::Suspicious => "suspicious"@,
    }
}

pub fn format_validation_status(value: ValidationStatus) -> (r: &'static str)
    ensures
        r@ == validation_status_label(value),
{
    match value {
        ValidationStatus::Plausible => "plausible",
        ValidationStatus::Incomplete => "incomplete",
        ValidationStatus::Suspicious => "suspicious",
    }
}

/// How a tcache bin agrees with the frees that were seen.
#[derive(Debug, Clone, Copy, PartialEq, Eq, Structural)]
pub enum TcacheComparisonStatus {
    MatchesObservedHeadAndCount,
    HeadMatchesCountDiffers,
    HeadMatchesObservedChainIncomplete,
    HeadDiffers,
    MissingObservedChain,
}

pub open spec fn comparison_label(value: TcacheComparisonStatus) -> Seq<char> {
    match value {
        TcacheComparisonStatus::MatchesObservedHeadAndCount => "matches observed head and count"@,
        TcacheComparisonStatus::HeadMatchesCountDiffers => "head matches, count differs"@,
        TcacheComparisonStatus::HeadMatchesObservedChainIncomplete =>
            "head matches, observed chain incomplete"@,
        TcacheComparisonStatus::HeadDiffers => "struct head differs from observed head"@,
        TcacheComparisonStatus::MissingObservedChain => "no observed chain for this size"@,
    }
}

pub fn format_tcache_comparison_status(value: TcacheComparisonStatus) -> (r: &'static str)
    ensures
        r@ == comparison_label(value),
{
    match value {
        TcacheComparisonStatus::MatchesObservedHeadAndCount => "matches observed head and count",
        TcacheComparisonStatus::HeadMatchesCountDiffers => "head matches, count differs",
        TcacheComparisonStatus::HeadMatchesObservedChainIncomplete =>
            "head matches, observed chain incomplete",
        TcacheComparisonStatus::HeadDiffers => "struct head differs from observed head",
        TcacheComparisonStatus::MissingObservedChain => "no observed chain for this size",
    }
}

/// What the calls seen so far say of a chunk.
#[derive(Debug, Clone, Copy, PartialEq, Eq, Structural)]
pub enum ObservedChunkState {
    Allocated,
    Freed,
}

pub open spec fn chunk_state_label(value: ObservedChunkState) -> Seq<char> {
    match value {
        ObservedChunkState::Allocated => "allocated"@,
        ObservedChunkState::Freed => "freed"@,
    }
}

pub fn format_chunk_state(value: ObservedChunkState) -> (r: &'static str)
    ensures
        r@ == chunk_state_label(value),
{
    match value {
        ObservedChunkState::Allocated => "allocated",
        ObservedChunkState::Freed => "freed",
    }
}

/// The state of a chunk, where the calls seen so far say anything of it.
pub open spec fn observed_state_label(state: Option<ObservedChunkState>) -> Seq<char> {
    match state {
        Some(s) => chunk_state_label(s),
        None => "unknown"@,
    }
}

pub fn format_observed_state(state: Option<ObservedChunkState>) -> (r: &'static str)
    ensures
        r@ == observed_state_label(state),
{
    match state {
        Some(s) => format_chunk_state(s),
        None => "unknown",
    }
}

/// A top word confirms an arena view as far as it points to what a heap walk saw.
pub open spec fn view_status_of(status: MainArenaTopStatus) -> MainArenaViewStatus {
    match status {
        MainArenaTopStatus::MatchesWalkedChunk => MainArenaViewStatus::Validated,
        MainArenaTopStatus::PointsIntoHeap => MainArenaViewStatus::PointsIntoHeap,
        MainArenaTopStatus::OutsideHeap => MainArenaViewStatus::OutsideHeap,
        MainArenaTopStatus::Unavailable => MainArenaViewStatus::Unavailable,
    }
}

pub fn main_arena_view_status_from_top_status(status: MainArenaTopStatus) -> (r:
    MainArenaViewStatus)
    ensures
        r == view_status_of(status),
{
    match status {
        MainArenaTopStatus::MatchesWalkedChunk => MainArenaViewStatus::Validated,
        MainArenaTopStatus::PointsIntoHeap => MainArenaViewStatus::PointsIntoHeap,
        MainArenaTopStatus::OutsideHeap => MainArenaViewStatus::OutsideHeap,
        MainArenaTopStatus::Unavailable => MainArenaViewStatus::Unavailable,
    }
}

/// The arena's top word: where it is, where it came from and where it points.
#[derive(Debug, Clone, PartialEq, Eq)]
pub struct MainArenaTopCandidate {
    pub arena_addr: u64,
    pub field_offset: u64,
    pub top_addr: u64,
    pub points_into_heap: bool,
    pub matches_heap_chunk: bool,
    pub chunk_size: Option<u64>,
    pub status: MainArenaTopStatus,
    pub source: MainArenaFieldSource,
    pub profile_name: Option<String>,
}

/// An arena view is clean when its top field comes from the profile and points to a chunk
/// that the heap walk saw.
pub open spec fn is_clean(source: MainArenaFieldSource, status: MainArenaTopStatus) -> bool {
    source is GlibcProfile && status is MatchesWalkedChunk
}

pub fn is_clean_main_arena_view(top: &MainArenaTopCandidate) -> (r: bool)
    ensures
        r == is_clean(top.source, top.status),
{
    top.source == MainArenaFieldSource::GlibcProfile && top.status
        == MainArenaTopStatus::MatchesWalkedChunk
}

/// A tcache list followed from the frees that were seen.
#[derive(Debug, Clone, PartialEq, Eq)]
pub struct ObservedTcacheChain {
    pub chunk_size: u64,
    pub head: Option<u64>,
    pub entries: Vec<u64>,
    pub truncated: bool,
    pub stopped_on_unknown_next: bool,
}

/// Addresses in hexadecimal.
pub open spec fn hex_texts(entries: Seq<u64>) -> Seq<Seq<char>> {
    Seq::new(entries.len(), |i: int| text::hex0x(entries[i] as nat))
}

fn format_hex_texts(entries: &Vec<u64>) -> (r: Lines)
    ensures
        r@ == hex_texts(entries@),
{
    let mut l = Lines::new();
    let mut i: usize = 0;
    while i < entries.len()
        invariant
            i <= entries.len(),
            l@ =~= hex_texts(entries@).take(i as int),
        decreases entries.len() - i,
    {
        l.push(text::format_hex0x(entries[i]));
        i = i + 1;
    }
    assert(l@ =~= hex_texts(entries@));
    l
}

/// The addresses of a list and how it ends.
pub open spec fn address_chain(
    entries: Seq<u64>,
    truncated: bool,
    stopped_on_unknown_next: bool,
) -> Seq<char> {
    replay_text::chain_text(
        hex_texts(entries),
        replay_text::chain_end(truncated, stopped_on_unknown_next),
    )
}

fn format_address_chain(
    entries: &Vec<u64>,
    truncated: bool,
    stopped_on_unknown_next: bool,
) -> (r: String)
    ensures
        r@ == address_chain(entries@, truncated, stopped_on_unknown_next),
{
    let l = format_hex_texts(entries);
    let end = if truncated {
        "... truncated"
    } else if stopped_on_unknown_next {
        "?"
    } else {
        "NULL"
    };
    replay_text::format_chain(&l.items, end)
}

pub fn format_observed_tcache_chain(chain: &ObservedTcacheChain) -> (r: String)
    ensures
        r@ == "size "@ + text::hex0x(chain.chunk_size as nat) + ": "@ + address_chain(
            chain.entries@,
            chain.truncated,
            chain.stopped_on_unknown_next,
        ),
{
    cat4(
        "size ",
        text::format_hex0x(chain.chunk_size).as_str(),
        ": ",
        format_address_chain(
            &chain.entries,
            chain.truncated,
            chain.stopped_on_unknown_next,
        ).as_str(),
    )
}

} // verus!
