//! Allocator calls as they are observed, and the lines they are printed as.

use crate::config::{RenderConfig, Switch};
use crate::record::{
    JsonCallerSymbol, JsonChunk, JsonHeapEvent, JsonSourceLocation, JsonTcacheEntry,
};
use crate::replay;
use crate::replay_text;
use crate::replay_text::format_source_location_parts;
use crate::snapshot::{SourceLocation, SymbolizedAddress};
use crate::text;
use crate::text::{cat2, cat3, cat4, cat5, cat6, cat7, owned, Lines};
use vstd::prelude::*;

verus! {

/// The flag bits of a chunk's size word.
#[derive(Debug, Clone, Copy, PartialEq, Eq, Structural)]
pub struct GlibcChunkFlags {
    pub prev_inuse: bool,
    pub is_mmapped: bool,
    pub non_main_arena: bool,
}

/// A chunk header read from the heap.
#[derive(Debug, Clone, Copy, PartialEq, Eq, Structural)]
pub struct GlibcChunkHeader {
    pub chunk_addr: u64,
    pub user_addr: u64,
    pub prev_size: u64,
    pub size_raw: u64,
    pub size: u64,
    pub flags: GlibcChunkFlags,
}

/// The list link read from a freed chunk.
#[derive(Debug, Clone, Copy, PartialEq, Eq, Structural)]
pub struct TcacheEntryCandidate {
    pub storage_addr: u64,
    pub encoded_next: u64,
    pub decoded_next: u64,
}

/// An allocator call with its arguments, its result and the chunk it was about.
#[derive(Debug, Clone, Copy, PartialEq, Eq, Structural)]
pub enum HeapTraceEvent {
    Malloc {
        event_id: usize,
        requested_size: u64,
        returned_ptr: u64,
        chunk: Option<GlibcChunkHeader>,
        caller_addr: Option<u64>,
    },
    Free {
        event_id: usize,
        ptr: u64,
        chunk: Option<GlibcChunkHeader>,
        tcache_entry: Option<TcacheEntryCandidate>,
        caller_addr: Option<u64>,
    },
    Calloc {
        event_id: usize,
        nmemb: u64,
        size: u64,
        returned_ptr: u64,
        chunk: Option<GlibcChunkHeader>,
        caller_addr: Option<u64>,
    },
    Realloc {
        event_id: usize,
        old_ptr: u64,
        new_size: u64,
        returned_ptr: u64,
        old_chunk: Option<GlibcChunkHeader>,
        new_chunk: Option<GlibcChunkHeader>,
        caller_addr: Option<u64>,
    },
}

/// What an allocator call meant for the chunks seen before it.
#[derive(Debug, Clone, Copy, PartialEq, Eq, Structural)]
pub enum HeapTrackerNote {
    NewAllocation,
    ReusedFreedChunk,
    FreedKnownChunk,
    DoubleFree,
    FreeUnknownPointer,
    NullMalloc,
    NullFree,
    AllocatedPointerReturnedAgain,
    NullCalloc,
    ReallocNullActsLikeMalloc,
    ReallocInPlace,
    ReallocMovedAllocation,
    ReallocFailedKeepsOldPointer,
    ReallocPtrZeroFreedOldPointer,
    ReallocUnknownOldPointer,
}

/// A guess at why an allocator call went the way it did.
#[derive(Debug, Clone, Copy, PartialEq, Eq, Structural)]
pub enum HeapTrackerExplanation {
    LikelyTcacheOrFastbinReuse { chunk_size: u64 },
    NoExtraExplanation,
}

// ---------------------------------------------------------------------------
// Parts of an event
// ---------------------------------------------------------------------------

impl HeapTraceEvent {
    /// The number of the event in its trace.
    pub open spec fn id(self) -> usize {
        match self {
            HeapTraceEvent::Malloc { event_id, .. } => event_id,
            HeapTraceEvent::Free { event_id, .. } => event_id,
            HeapTraceEvent::Calloc { event_id, .. } => event_id,
            HeapTraceEvent::Realloc { event_id, .. } => event_id,
        }
    }

    /// The address that the call returns to.
    pub open spec fn caller(self) -> Option<u64> {
        match self {
            HeapTraceEvent::Malloc { caller_addr, .. } => caller_addr,
            HeapTraceEvent::Free { caller_addr, .. } => caller_addr,
            HeapTraceEvent::Calloc { caller_addr, .. } => caller_addr,
            HeapTraceEvent::Realloc { caller_addr, .. } => caller_addr,
        }
    }

    /// The pointer that the call handed out or took back.
    pub open spec fn user_addr(self) -> u64 {
        match self {
            HeapTraceEvent::Malloc { returned_ptr, .. } => returned_ptr,
            HeapTraceEvent::Free { ptr, .. } => ptr,
            HeapTraceEvent::Calloc { returned_ptr, .. } => returned_ptr,
            HeapTraceEvent::Realloc { returned_ptr, .. } => returned_ptr,
        }
    }

    /// The number of bytes asked for: none for `free`, nor for a product past 64 bits.
    pub open spec fn alloc_size(self) -> Option<u64> {
        match self {
            HeapTraceEvent::Malloc { requested_size, .. } => Some(requested_size),
            HeapTraceEvent::Free { .. } => None,
            HeapTraceEvent::Calloc { nmemb, size, .. } => if nmemb * size <= u64::MAX {
                Some((nmemb * size) as u64)
            } else {
                None
            },
            HeapTraceEvent::Realloc { new_size, .. } => Some(new_size),
        }
    }
}

pub fn heap_event_id(event: &HeapTraceEvent) -> (r: usize)
    ensures
        r == event.id(),
{
    match event {
        HeapTraceEvent::Malloc { event_id, .. } => *event_id,
        HeapTraceEvent::Free { event_id, .. } => *event_id,
        HeapTraceEvent::Calloc { event_id, .. } => *event_id,
        HeapTraceEvent::Realloc { event_id, .. } => *event_id,
    }
}

pub fn heap_event_caller_addr(event: &HeapTraceEvent) -> (r: Option<u64>)
    ensures
        r == event.caller(),
{
    match event {
        HeapTraceEvent::Malloc { caller_addr, .. } => *caller_addr,
        HeapTraceEvent::Free { caller_addr, .. } => *caller_addr,
        HeapTraceEvent::Calloc { caller_addr, .. } => *caller_addr,
        HeapTraceEvent::Realloc { caller_addr, .. } => *caller_addr,
    }
}

pub fn allocator_event_user_addr(event: &HeapTraceEvent) -> (r: Option<u64>)
    ensures
        r == Some(event.user_addr()),
{
    match event {
        HeapTraceEvent::Malloc { returned_ptr, .. } => Some(*returned_ptr),
        HeapTraceEvent::Free { ptr, .. } => Some(*ptr),
        HeapTraceEvent::Calloc { returned_ptr, .. } => Some(*returned_ptr),
        HeapTraceEvent::Realloc { returned_ptr, .. } => Some(*returned_ptr),
    }
}

pub fn allocator_event_alloc_size(event: &HeapTraceEvent) -> (r: Option<u64>)
    ensures
        r == event.alloc_size(),
{
    match event {
        HeapTraceEvent::Malloc { requested_size, .. } => Some(*requested_size),
        HeapTraceEvent::Free { .. } => None,
        HeapTraceEvent::Calloc { nmemb, size, .. } => nmemb.checked_mul(*size),
        HeapTraceEvent::Realloc { new_size, .. } => Some(*new_size),
    }
}

/// The caller's symbol, where both the caller and a symbol for it are known: what
/// `symbolized` found, placed in the source file by `source` when there is a source map.
pub fn symbolize_event_caller(
    event: &HeapTraceEvent,
    symbolized: Option<SymbolizedAddress>,
    source: Option<Option<SourceLocation>>,
) -> (r: Option<SymbolizedAddress>)
    ensures
        r == match (event.caller(), symbolized) {
            (Some(_), Some(symbol)) => match source {
                Some(place) => Some(SymbolizedAddress { source: place, ..symbol }),
                None => Some(symbol),
            },
            _ => None,
        },
{
    match heap_event_caller_addr(event) {
        None => None,
        Some(_) => match symbolized {
            None => None,
            Some(symbol) => match source {
                None => Some(symbol),
                Some(place) => {
                    let mut symbol = symbol;
                    symbol.source = place;
                    Some(symbol)
                },
            },
        },
    }
}

// ---------------------------------------------------------------------------
// Printed lines
// ---------------------------------------------------------------------------

/// The names of the flags that are set.
pub open spec fn flag_labels(flags: GlibcChunkFlags) -> Seq<Seq<char>> {
    text::when(flags.prev_inuse, "PREV_INUSE"@) + text::when(flags.is_mmapped, "IS_MMAPPED"@)
        + text::when(flags.non_main_arena, "NON_MAIN_ARENA"@)
}

impl GlibcChunkFlags {
    pub fn labels(self) -> (r: Lines)
        ensures
            r@ == flag_labels(self),
    {
        let mut l = Lines::new();
        l.add_when(self.prev_inuse, "PREV_INUSE");
        l.add_when(self.is_mmapped, "IS_MMAPPED");
        l.add_when(self.non_main_arena, "NON_MAIN_ARENA");
        l
    }
}

/// The set flags, or `none`.
pub open spec fn flags_text(flags: GlibcChunkFlags) -> Seq<char> {
    if flag_labels(flags).len() == 0 {
        "none"@
    } else {
        text::join(flag_labels(flags), " | "@)
    }
}

pub fn format_chunk_flags(chunk: &GlibcChunkHeader) -> (r: String)
    ensures
        r@ == flags_text(chunk.flags),
{
    let labels = chunk.flags.labels();
    if labels.items.len() == 0 {
        owned("none")
    } else {
        labels.join(" | ")
    }
}

/// The six lines of a chunk header, each after `indent`.
pub open spec fn chunk_lines(indent: Seq<char>, chunk: GlibcChunkHeader) -> Seq<Seq<char>> {
    seq![
        indent + "chunk:      "@ + text::hex0x(chunk.chunk_addr as nat),
        indent + "user:       "@ + text::hex0x(chunk.user_addr as nat),
        indent + "prev_size:  "@ + text::hex0x(chunk.prev_size as nat),
        indent + "size_raw:   "@ + text::hex0x(chunk.size_raw as nat),
        indent + "size:       "@ + text::hex0x(chunk.size as nat),
        indent + "flags:      "@ + flags_text(chunk.flags),
    ]
}

pub fn print_indented_chunk_header(chunk: &GlibcChunkHeader, indent: &str) -> (r: Lines)
    ensures
        r@ == chunk_lines(indent@, *chunk),
{
    let mut l = Lines::new();
    l.push(cat3(indent, "chunk:      ", text::format_hex0x(chunk.chunk_addr).as_str()));
    l.push(cat3(indent, "user:       ", text::format_hex0x(chunk.user_addr).as_str()));
    l.push(cat3(indent, "prev_size:  ", text::format_hex0x(chunk.prev_size).as_str()));
    l.push(cat3(indent, "size_raw:   ", text::format_hex0x(chunk.size_raw).as_str()));
    l.push(cat3(indent, "size:       ", text::format_hex0x(chunk.size).as_str()));
    l.push(cat3(indent, "flags:      ", format_chunk_flags(chunk).as_str()));
    l
}

/// The chunk of an allocator call: its header, or that a pointer which is not null has none
/// that could be read.
pub open spec fn event_chunk_lines(chunk: Option<GlibcChunkHeader>, ptr: u64) -> Seq<Seq<char>> {
    match chunk {
        Some(c) => chunk_lines("    "@, c),
        None => text::when(ptr != 0, "    chunk: unavailable"@),
    }
}

fn print_event_chunk(chunk: &Option<GlibcChunkHeader>, ptr: u64) -> (r: Lines)
    ensures
        r@ == event_chunk_lines(*chunk, ptr),
{
    match chunk {
        Some(c) => print_indented_chunk_header(c, "    "),
        None => {
            let mut l = Lines::new();
            l.add_when(ptr != 0, "    chunk: unavailable");
            assert(l@ =~= text::when(ptr != 0, "    chunk: unavailable"@));
            l
        },
    }
}

pub open spec fn tcache_entry_lines(entry: Option<TcacheEntryCandidate>) -> Seq<Seq<char>> {
    match entry {
        Some(e) => seq![
            "    tcache candidate:"@,
            "        storage:      "@ + text::hex0x(e.storage_addr as nat),
            "        encoded_next: "@ + text::hex0x(e.encoded_next as nat),
            "        decoded_next: "@ + text::hex0x(e.decoded_next as nat),
        ],
        None => Seq::empty(),
    }
}

pub fn print_tcache_entry_candidate(entry: &Option<TcacheEntryCandidate>) -> (r: Lines)
    ensures
        r@ == tcache_entry_lines(*entry),
{
    let mut l = Lines::new();
    if let Some(e) = entry {
        l.push(owned("    tcache candidate:"));
        l.push(cat2("        storage:      ", text::format_hex0x(e.storage_addr).as_str()));
        l.push(cat2("        encoded_next: ", text::format_hex0x(e.encoded_next).as_str()));
        l.push(cat2("        decoded_next: ", text::format_hex0x(e.decoded_next).as_str()));
    }
    l
}

/// The old and the new chunk of a `realloc`.
pub open spec fn realloc_chunk_lines(
    old_chunk: Option<GlibcChunkHeader>,
    new_chunk: Option<GlibcChunkHeader>,
    ptr: u64,
) -> Seq<Seq<char>> {
    (match old_chunk {
        Some(c) => seq!["    old chunk:"@] + chunk_lines("        "@, c),
        None => Seq::empty(),
    }) + match new_chunk {
        Some(c) => seq!["    new chunk:"@] + chunk_lines("        "@, c),
        None => text::when(ptr != 0, "    new chunk: unavailable"@),
    }
}

fn print_realloc_chunks(
    old_chunk: &Option<GlibcChunkHeader>,
    new_chunk: &Option<GlibcChunkHeader>,
    ptr: u64,
) -> (r: Lines)
    ensures
        r@ == realloc_chunk_lines(*old_chunk, *new_chunk, ptr),
{
    let mut l = Lines::new();
    if let Some(c) = old_chunk {
        l.push(owned("    old chunk:"));
        l.add(print_indented_chunk_header(c, "        "));
    }
    match new_chunk {
        Some(c) => {
            l.push(owned("    new chunk:"));
            l.add(print_indented_chunk_header(c, "        "));
        },
        None => {
            l.add_when(ptr != 0, "    new chunk: unavailable");
        },
    }
    l
}

/// `object!symbol+0xoffset (0xaddr)`.
pub open spec fn symbolized_caller(symbol: SymbolizedAddress) -> Seq<char> {
    let name = match symbol.object_name {
        Some(object) => object@ + "!"@ + symbol.symbol@,
        None => symbol.symbol@,
    };
    if symbol.offset == 0 {
        name + " ("@ + text::hex0x(symbol.addr as nat) + ")"@
    } else {
        name + "+"@ + text::hex0x(symbol.offset as nat) + " ("@ + text::hex0x(symbol.addr as nat)
            + ")"@
    }
}

pub fn format_symbolized_caller(caller_symbol: &SymbolizedAddress) -> (r: String)
    ensures
        r@ == symbolized_caller(*caller_symbol),
{
    let name = match &caller_symbol.object_name {
        Some(object) => cat3(object.as_str(), "!", caller_symbol.symbol.as_str()),
        None => caller_symbol.symbol.clone(),
    };
    if caller_symbol.offset == 0 {
        cat4(name.as_str(), " (", text::format_hex0x(caller_symbol.addr).as_str(), ")")
    } else {
        cat6(
            name.as_str(),
            "+",
            text::format_hex0x(caller_symbol.offset).as_str(),
            " (",
            text::format_hex0x(caller_symbol.addr).as_str(),
            ")",
        )
    }
}

/// Where a symbol stands in its source file, as far as that is known.
pub open spec fn symbol_place(symbol: SymbolizedAddress) -> Option<Seq<char>> {
    match symbol.source {
        Some(place) => replay_text::source_location_text(place.file, place.line, place.column),
        None => None,
    }
}

pub fn format_printable_source_location(source: &SourceLocation) -> (r: Option<String>)
    ensures
        text::opt(r) == replay_text::source_location_text(source.file, source.line, source.column),
{
    format_source_location_parts(&source.file, source.line, source.column)
}

pub open spec fn caller_addr_lines(
    caller_addr: Option<u64>,
    caller_symbol: Option<SymbolizedAddress>,
) -> Seq<Seq<char>> {
    match caller_symbol {
        Some(symbol) => seq!["    caller:     "@ + symbolized_caller(symbol)] + text::opt_line(
            "    at          "@,
            symbol_place(symbol),
        ),
        None => match caller_addr {
            Some(addr) => seq!["    caller:     "@ + text::hex0x(addr as nat)],
            None => Seq::empty(),
        },
    }
}

pub fn print_caller_addr(caller_addr: Option<u64>, caller_symbol: &Option<SymbolizedAddress>) -> (r:
    Lines)
    ensures
        r@ == caller_addr_lines(caller_addr, *caller_symbol),
{
    let mut l = Lines::new();
    match caller_symbol {
        Some(symbol) => {
            l.push(cat2("    caller:     ", format_symbolized_caller(symbol).as_str()));
            let place = match &symbol.source {
                Some(place) => format_printable_source_location(place),
                None => None,
            };
            l.add_opt("    at          ", &place);
        },
        None => {
            if let Some(addr) = caller_addr {
                l.push(cat2("    caller:     ", text::format_hex0x(addr).as_str()));
            }
        },
    }
    l
}

pub open spec fn note_text(note: HeapTrackerNote) -> Seq<char> {
    match note {
        HeapTrackerNote::NewAllocation => "state: allocated new chunk"@,
        HeapTrackerNote::ReusedFreedChunk => "state: reused previously freed chunk"@,
        HeapTrackerNote::FreedKnownChunk => "state: freed known chunk"@,
        HeapTrackerNote::DoubleFree => "warning: possible double free"@,
        HeapTrackerNote::FreeUnknownPointer => "warning: freeing pointer not seen by Heapify"@,
        HeapTrackerNote::NullMalloc => "state: malloc returned NULL"@,
        HeapTrackerNote::NullFree => "state: free(NULL)"@,
        HeapTrackerNote::AllocatedPointerReturnedAgain =>
            "warning: malloc returned pointer already marked allocated"@,
        HeapTrackerNote::NullCalloc => "state: calloc returned NULL"@,
        HeapTrackerNote::ReallocNullActsLikeMalloc => "state: realloc(NULL, size) allocated chunk"@,
        HeapTrackerNote::ReallocInPlace => "state: realloc kept allocation in place"@,
        HeapTrackerNote::ReallocMovedAllocation => "state: realloc moved allocation"@,
        HeapTrackerNote::ReallocFailedKeepsOldPointer =>
            "state: realloc failed; old pointer remains allocated"@,
        HeapTrackerNote::ReallocPtrZeroFreedOldPointer => "state: realloc(ptr, 0) freed old pointer"@,
        HeapTrackerNote::ReallocUnknownOldPointer =>
            "warning: realloc old pointer not seen by Heapify"@,
    }
}

pub fn format_tracker_note(note: HeapTrackerNote) -> (r: &'static str)
    ensures
        r@ == note_text(note),
{
    match note {
        HeapTrackerNote::NewAllocation => "state: allocated new chunk",
        HeapTrackerNote::ReusedFreedChunk => "state: reused previously freed chunk",
        HeapTrackerNote::FreedKnownChunk => "state: freed known chunk",
        HeapTrackerNote::DoubleFree => "warning: possible double free",
        HeapTrackerNote::FreeUnknownPointer => "warning: freeing pointer not seen by Heapify",
        HeapTrackerNote::NullMalloc => "state: malloc returned NULL",
        HeapTrackerNote::NullFree => "state: free(NULL)",
        HeapTrackerNote::AllocatedPointerReturnedAgain =>
            "warning: malloc returned pointer already marked allocated",
        HeapTrackerNote::NullCalloc => "state: calloc returned NULL",
        HeapTrackerNote::ReallocNullActsLikeMalloc => "state: realloc(NULL, size) allocated chunk",
        HeapTrackerNote::ReallocInPlace => "state: realloc kept allocation in place",
        HeapTrackerNote::ReallocMovedAllocation => "state: realloc moved allocation",
        HeapTrackerNote::ReallocFailedKeepsOldPointer =>
            "state: realloc failed; old pointer remains allocated",
        HeapTrackerNote::ReallocPtrZeroFreedOldPointer => "state: realloc(ptr, 0) freed old pointer",
        HeapTrackerNote::ReallocUnknownOldPointer =>
            "warning: realloc old pointer not seen by Heapify",
    }
}

/// The explanation as a trace file holds it.
pub open spec fn explanation_text(explanation: HeapTrackerExplanation) -> Option<Seq<char>> {
    match explanation {
        HeapTrackerExplanation::LikelyTcacheOrFastbinReuse { chunk_size } => Some(
            "chunk size "@ + text::hex0x(chunk_size as nat) + " is likely tcache/fastbin-sized"@,
        ),
        HeapTrackerExplanation::NoExtraExplanation => None,
    }
}

pub fn format_explanation(explanation: HeapTrackerExplanation) -> (r: Option<String>)
    ensures
        text::opt(r) == explanation_text(explanation),
{
    match explanation {
        HeapTrackerExplanation::LikelyTcacheOrFastbinReuse { chunk_size } => Some(
            cat3(
                "chunk size ",
                text::format_hex0x(chunk_size).as_str(),
                " is likely tcache/fastbin-sized",
            ),
        ),
        HeapTrackerExplanation::NoExtraExplanation => None,
    }
}

/// The explanation as it is printed below its event.
pub fn print_heap_explanation(explanation: HeapTrackerExplanation) -> (r: Lines)
    ensures
        r@ == text::opt_line("    note: "@, explanation_text(explanation)),
{
    let mut l = Lines::new();
    l.add_opt("    note: ", &format_explanation(explanation));
    l
}

/// The line that shows the call itself.
pub open spec fn call_line(event: HeapTraceEvent) -> Seq<char> {
    match event {
        HeapTraceEvent::Malloc { event_id, requested_size, returned_ptr, .. } =>
            "#"@ + text::dec(event_id as nat) + " malloc("@ + text::hex0x(requested_size as nat)
                + ") = "@ + text::hex0x(returned_ptr as nat),
        HeapTraceEvent::Free { event_id, ptr, .. } =>
            "#"@ + text::dec(event_id as nat) + " free("@ + text::hex0x(ptr as nat) + ")"@,
        HeapTraceEvent::Calloc { event_id, nmemb, size, returned_ptr, .. } =>
            "#"@ + text::dec(event_id as nat) + " calloc("@ + text::hex0x(nmemb as nat) + ", "@
                + text::hex0x(size as nat) + ") = "@ + text::hex0x(returned_ptr as nat),
        HeapTraceEvent::Realloc { event_id, old_ptr, new_size, returned_ptr, .. } =>
            "#"@ + text::dec(event_id as nat) + " realloc("@ + text::hex0x(old_ptr as nat) + ", "@
                + text::hex0x(new_size as nat) + ") = "@ + text::hex0x(returned_ptr as nat),
    }
}

fn format_call_line(event: &HeapTraceEvent) -> (r: String)
    ensures
        r@ == call_line(*event),
{
    match *event {
        HeapTraceEvent::Malloc { event_id, requested_size, returned_ptr, .. } =>
            cat6(
                "#",
                text::format_dec_usize(event_id).as_str(),
                " malloc(",
                text::format_hex0x(requested_size).as_str(),
                ") = ",
                text::format_hex0x(returned_ptr).as_str(),
            ),
        HeapTraceEvent::Free { event_id, ptr, .. } =>
            cat5(
                "#",
                text::format_dec_usize(event_id).as_str(),
                " free(",
                text::format_hex0x(ptr).as_str(),
                ")",
            ),
        HeapTraceEvent::Calloc { event_id, nmemb, size, returned_ptr, .. } =>
            cat7(
                "#",
                text::format_dec_usize(event_id).as_str(),
                " calloc(",
                text::format_hex0x(nmemb).as_str(),
                ", ",
                text::format_hex0x(size).as_str(),
                ") = ",
            ).concat(text::format_hex0x(returned_ptr).as_str()),
        HeapTraceEvent::Realloc { event_id, old_ptr, new_size, returned_ptr, .. } =>
            cat7(
                "#",
                text::format_dec_usize(event_id).as_str(),
                " realloc(",
                text::format_hex0x(old_ptr).as_str(),
                ", ",
                text::format_hex0x(new_size).as_str(),
                ") = ",
            ).concat(text::format_hex0x(returned_ptr).as_str()),
    }
}

/// The chunks that the call was about.
pub open spec fn chunks_of_event(event: HeapTraceEvent) -> Seq<Seq<char>> {
    match event {
        HeapTraceEvent::Malloc { returned_ptr, chunk, .. } => event_chunk_lines(chunk, returned_ptr),
        HeapTraceEvent::Free { ptr, chunk, tcache_entry, .. } => event_chunk_lines(chunk, ptr)
            + tcache_entry_lines(tcache_entry),
        HeapTraceEvent::Calloc { returned_ptr, chunk, .. } => event_chunk_lines(chunk, returned_ptr),
        HeapTraceEvent::Realloc { returned_ptr, old_chunk, new_chunk, .. } => realloc_chunk_lines(
            old_chunk,
            new_chunk,
            returned_ptr,
        ),
    }
}

fn print_chunks_of_event(event: &HeapTraceEvent) -> (r: Lines)
    ensures
        r@ == chunks_of_event(*event),
{
    match event {
        HeapTraceEvent::Malloc { returned_ptr, chunk, .. } => print_event_chunk(
            chunk,
            *returned_ptr,
        ),
        HeapTraceEvent::Free { ptr, chunk, tcache_entry, .. } => {
            let mut l = print_event_chunk(chunk, *ptr);
            l.add(print_tcache_entry_candidate(tcache_entry));
            l
        },
        HeapTraceEvent::Calloc { returned_ptr, chunk, .. } => print_event_chunk(
            chunk,
            *returned_ptr,
        ),
        HeapTraceEvent::Realloc { returned_ptr, old_chunk, new_chunk, .. } => print_realloc_chunks(
            old_chunk,
            new_chunk,
            *returned_ptr,
        ),
    }
}

/// The lines of an event: the call, then its caller, its chunks and what it meant, as far as
/// `notes` and `chunks` ask for them.
pub open spec fn event_lines(
    event: HeapTraceEvent,
    caller_symbol: Option<SymbolizedAddress>,
    note: HeapTrackerNote,
    notes: bool,
    chunks: bool,
) -> Seq<Seq<char>> {
    seq![call_line(event)] + (if notes {
        caller_addr_lines(event.caller(), caller_symbol)
    } else {
        Seq::empty()
    }) + (if chunks {
        chunks_of_event(event)
    } else {
        Seq::empty()
    }) + text::when(notes, "    "@ + note_text(note))
}

/// The text that an event is printed as.
pub fn print_heap_event(
    event: &HeapTraceEvent,
    caller_symbol: &Option<SymbolizedAddress>,
    note: HeapTrackerNote,
    config: &RenderConfig,
) -> (r: String)
    ensures
        r@ == text::unlines(
            event_lines(
                *event,
                *caller_symbol,
                note,
                config@.on.contains(Switch::TrackerNotes),
                config@.on.contains(Switch::Chunks),
            ),
        ),
{
    let notes = config.shows(Switch::TrackerNotes);
    let chunks = config.shows(Switch::Chunks);
    let mut l = Lines::one(format_call_line(event).as_str());
    if notes {
        l.add(print_caller_addr(heap_event_caller_addr(event), caller_symbol));
    }
    if chunks {
        l.add(print_chunks_of_event(event));
    }
    if notes {
        l.push(cat2("    ", format_tracker_note(note)));
    }
    assert(l@ =~= event_lines(*event, *caller_symbol, note, notes, chunks));
    l.unlines()
}

/// Without notes and chunks an event is its call line alone, and whatever is shown, that
/// line comes first.
pub proof fn law_event_line_comes_first(
    event: HeapTraceEvent,
    caller_symbol: Option<SymbolizedAddress>,
    note: HeapTrackerNote,
    notes: bool,
    chunks: bool,
)
    ensures
        event_lines(event, caller_symbol, note, notes, chunks)[0] == call_line(event),
        event_lines(event, caller_symbol, note, false, false) == seq![call_line(event)],
{
}

// ---------------------------------------------------------------------------
// Trace file form
// ---------------------------------------------------------------------------

/// The name of a note in a trace file.
pub open spec fn note_name(note: HeapTrackerNote) -> Seq<char> {
    match note {
        HeapTrackerNote::NewAllocation => "NewAllocation"@,
        HeapTrackerNote::ReusedFreedChunk => "ReusedFreedChunk"@,
        HeapTrackerNote::FreedKnownChunk => "FreedKnownChunk"@,
        HeapTrackerNote::DoubleFree => "DoubleFree"@,
        HeapTrackerNote::FreeUnknownPointer => "FreeUnknownPointer"@,
        HeapTrackerNote::NullMalloc => "NullMalloc"@,
        HeapTrackerNote::NullFree => "NullFree"@,
        HeapTrackerNote::AllocatedPointerReturnedAgain => "AllocatedPointerReturnedAgain"@,
        HeapTrackerNote::NullCalloc => "NullCalloc"@,
        HeapTrackerNote::ReallocNullActsLikeMalloc => "ReallocNullActsLikeMalloc"@,
        HeapTrackerNote::ReallocInPlace => "ReallocInPlace"@,
        HeapTrackerNote::ReallocMovedAllocation => "ReallocMovedAllocation"@,
        HeapTrackerNote::ReallocFailedKeepsOldPointer => "ReallocFailedKeepsOldPointer"@,
        HeapTrackerNote::ReallocPtrZeroFreedOldPointer => "ReallocPtrZeroFreedOldPointer"@,
        HeapTrackerNote::ReallocUnknownOldPointer => "ReallocUnknownOldPointer"@,
    }
}

pub fn tracker_note_name(note: HeapTrackerNote) -> (r: &'static str)
    ensures
        r@ == note_name(note),
{
    match note {
        HeapTrackerNote::NewAllocation => "NewAllocation",
        HeapTrackerNote::ReusedFreedChunk => "ReusedFreedChunk",
        HeapTrackerNote::FreedKnownChunk => "FreedKnownChunk",
        HeapTrackerNote::DoubleFree => "DoubleFree",
        HeapTrackerNote::FreeUnknownPointer => "FreeUnknownPointer",
        HeapTrackerNote::NullMalloc => "NullMalloc",
        HeapTrackerNote::NullFree => "NullFree",
        HeapTrackerNote::AllocatedPointerReturnedAgain => "AllocatedPointerReturnedAgain",
        HeapTrackerNote::NullCalloc => "NullCalloc",
        HeapTrackerNote::ReallocNullActsLikeMalloc => "ReallocNullActsLikeMalloc",
        HeapTrackerNote::ReallocInPlace => "ReallocInPlace",
        HeapTrackerNote::ReallocMovedAllocation => "ReallocMovedAllocation",
        HeapTrackerNote::ReallocFailedKeepsOldPointer => "ReallocFailedKeepsOldPointer",
        HeapTrackerNote::ReallocPtrZeroFreedOldPointer => "ReallocPtrZeroFreedOldPointer",
        HeapTrackerNote::ReallocUnknownOldPointer => "ReallocUnknownOldPointer",
    }
}

/// `0x` and the digits of an address, where there is one.
pub open spec fn opt_hex(value: Option<u64>) -> Option<Seq<char>> {
    match value {
        Some(v) => Some(text::hex0x(v as nat)),
        None => None,
    }
}

fn format_opt_hex(value: Option<u64>) -> (r: Option<String>)
    ensures
        text::opt(r) == opt_hex(value),
{
    match value {
        Some(v) => Some(text::format_hex0x(v)),
        None => None,
    }
}

/// Whether `json` is the trace file form of a chunk header.
pub open spec fn is_json_chunk(json: Option<JsonChunk>, chunk: Option<GlibcChunkHeader>) -> bool {
    match (json, chunk) {
        (Some(j), Some(c)) => {
            &&& j.chunk_addr@ == text::hex0x(c.chunk_addr as nat)
            &&& j.user_addr@ == text::hex0x(c.user_addr as nat)
            &&& j.prev_size@ == text::hex0x(c.prev_size as nat)
            &&& j.size_raw@ == text::hex0x(c.size_raw as nat)
            &&& j.size@ == text::hex0x(c.size as nat)
            &&& text::texts(j.flags@) == flag_labels(c.flags)
        },
        (None, None) => true,
        _ => false,
    }
}

pub fn json_chunk(chunk: &Option<GlibcChunkHeader>) -> (r: Option<JsonChunk>)
    ensures
        is_json_chunk(r, *chunk),
{
    match chunk {
        Some(c) => Some(
            JsonChunk {
                chunk_addr: text::format_hex0x(c.chunk_addr),
                user_addr: text::format_hex0x(c.user_addr),
                prev_size: text::format_hex0x(c.prev_size),
                size_raw: text::format_hex0x(c.size_raw),
                size: text::format_hex0x(c.size),
                flags: c.flags.labels().items,
            },
        ),
        None => None,
    }
}

/// Whether `json` is the trace file form of a tcache entry.
pub open spec fn is_json_tcache_entry(
    json: Option<JsonTcacheEntry>,
    entry: Option<TcacheEntryCandidate>,
) -> bool {
    match (json, entry) {
        (Some(j), Some(e)) => {
            &&& j.storage_addr@ == text::hex0x(e.storage_addr as nat)
            &&& j.encoded_next@ == text::hex0x(e.encoded_next as nat)
            &&& j.decoded_next@ == text::hex0x(e.decoded_next as nat)
        },
        (None, None) => true,
        _ => false,
    }
}

pub fn json_tcache_entry(entry: &Option<TcacheEntryCandidate>) -> (r: Option<JsonTcacheEntry>)
    ensures
        is_json_tcache_entry(r, *entry),
{
    match entry {
        Some(e) => Some(
            JsonTcacheEntry {
                storage_addr: text::format_hex0x(e.storage_addr),
                encoded_next: text::format_hex0x(e.encoded_next),
                decoded_next: text::format_hex0x(e.decoded_next),
            },
        ),
        None => None,
    }
}

/// Whether `json` is the trace file form of a caller's symbol.
pub open spec fn is_json_symbol(
    json: Option<JsonCallerSymbol>,
    symbol: Option<SymbolizedAddress>,
) -> bool {
    match (json, symbol) {
        (Some(j), Some(s)) => {
            &&& j.symbol@ == s.symbol@
            &&& j.symbol_addr@ == text::hex0x(s.symbol_addr as nat)
            &&& j.offset@ == text::hex0x(s.offset as nat)
            &&& j.object == s.object_name
            &&& match (j.source, s.source) {
                (Some(a), Some(b)) => a.file == b.file && a.line == b.line && a.column == b.column,
                (None, None) => true,
                _ => false,
            }
        },
        (None, None) => true,
        _ => false,
    }
}

pub fn json_caller_symbol(symbol: Option<SymbolizedAddress>) -> (r: Option<JsonCallerSymbol>)
    ensures
        is_json_symbol(r, symbol),
{
    match symbol {
        Some(s) => Some(
            JsonCallerSymbol {
                symbol: s.symbol,
                symbol_addr: text::format_hex0x(s.symbol_addr),
                offset: text::format_hex0x(s.offset),
                object: s.object_name,
                source: match s.source {
                    Some(place) => Some(
                        JsonSourceLocation {
                            file: place.file,
                            line: place.line,
                            column: place.column,
                        },
                    ),
                    None => None,
                },
            },
        ),
        None => None,
    }
}

/// Whether `json` is the trace file form of an event.
pub open spec fn is_json_event(
    json: JsonHeapEvent,
    event: HeapTraceEvent,
    note: HeapTrackerNote,
    explanation: HeapTrackerExplanation,
    symbol: Option<SymbolizedAddress>,
) -> bool {
    match (json, event) {
        (
            JsonHeapEvent::Malloc {
                event_id,
                requested_size,
                returned_ptr,
                chunk,
                caller_addr,
                caller_symbol,
                tracker_note,
                tracker_explanation,
            },
            HeapTraceEvent::Malloc {
                event_id: id,
                requested_size: size,
                returned_ptr: ptr,
                chunk: header,
                caller_addr: caller,
            },
        ) => {
            &&& event_id == id
            &&& requested_size@ == text::hex0x(size as nat)
            &&& returned_ptr@ == text::hex0x(ptr as nat)
            &&& is_json_chunk(chunk, header)
            &&& text::opt(caller_addr) == opt_hex(caller)
            &&& is_json_symbol(caller_symbol, symbol)
            &&& tracker_note@ == note_name(note)
            &&& text::opt(tracker_explanation) == explanation_text(explanation)
        },
        (
            JsonHeapEvent::Free {
                event_id,
                ptr,
                chunk,
                tcache_entry,
                caller_addr,
                caller_symbol,
                tracker_note,
                tracker_explanation,
            },
            HeapTraceEvent::Free {
                event_id: id,
                ptr: freed,
                chunk: header,
                tcache_entry: entry,
                caller_addr: caller,
            },
        ) => {
            &&& event_id == id
            &&& ptr@ == text::hex0x(freed as nat)
            &&& is_json_chunk(chunk, header)
            &&& is_json_tcache_entry(tcache_entry, entry)
            &&& text::opt(caller_addr) == opt_hex(caller)
            &&& is_json_symbol(caller_symbol, symbol)
            &&& tracker_note@ == note_name(note)
            &&& text::opt(tracker_explanation) == explanation_text(explanation)
        },
        (
            JsonHeapEvent::Calloc {
                event_id,
                nmemb,
                size,
                returned_ptr,
                chunk,
                caller_addr,
                caller_symbol,
                tracker_note,
                tracker_explanation,
            },
            HeapTraceEvent::Calloc {
                event_id: id,
                nmemb: count,
                size: each,
                returned_ptr: ptr,
                chunk: header,
                caller_addr: caller,
            },
        ) => {
            &&& event_id == id
            &&& nmemb@ == text::hex0x(count as nat)
            &&& size@ == text::hex0x(each as nat)
            &&& returned_ptr@ == text::hex0x(ptr as nat)
            &&& is_json_chunk(chunk, header)
            &&& text::opt(caller_addr) == opt_hex(caller)
            &&& is_json_symbol(caller_symbol, symbol)
            &&& tracker_note@ == note_name(note)
            &&& text::opt(tracker_explanation) == explanation_text(explanation)
        },
        (
            JsonHeapEvent::Realloc {
                event_id,
                old_ptr,
                new_size,
                returned_ptr,
                old_chunk,
                new_chunk,
                caller_addr,
                caller_symbol,
                tracker_note,
                tracker_explanation,
            },
            HeapTraceEvent::Realloc {
                event_id: id,
                old_ptr: old_address,
                new_size: size,
                returned_ptr: ptr,
                old_chunk: old_header,
                new_chunk: new_header,
                caller_addr: caller,
            },
        ) => {
            &&& event_id == id
            &&& old_ptr@ == text::hex0x(old_address as nat)
            &&& new_size@ == text::hex0x(size as nat)
            &&& returned_ptr@ == text::hex0x(ptr as nat)
            &&& is_json_chunk(old_chunk, old_header)
            &&& is_json_chunk(new_chunk, new_header)
            &&& text::opt(caller_addr) == opt_hex(caller)
            &&& is_json_symbol(caller_symbol, symbol)
            &&& tracker_note@ == note_name(note)
            &&& text::opt(tracker_explanation) == explanation_text(explanation)
        },
        _ => false,
    }
}

pub fn json_heap_event(
    event: &HeapTraceEvent,
    note: HeapTrackerNote,
    explanation: HeapTrackerExplanation,
    symbol: Option<SymbolizedAddress>,
) -> (r: JsonHeapEvent)
    ensures
        is_json_event(r, *event, note, explanation, symbol),
{
    let caller_symbol = json_caller_symbol(symbol);
    let caller_addr = format_opt_hex(heap_event_caller_addr(event));
    let tracker_note = owned(tracker_note_name(note));
    let tracker_explanation = format_explanation(explanation);
    match event {
        HeapTraceEvent::Malloc { event_id, requested_size, returned_ptr, chunk, .. } => {
            JsonHeapEvent::Malloc {
                event_id: *event_id,
                requested_size: text::format_hex0x(*requested_size),
                returned_ptr: text::format_hex0x(*returned_ptr),
                chunk: json_chunk(chunk),
                caller_addr,
                caller_symbol,
                tracker_note,
                tracker_explanation,
            }
        },
        HeapTraceEvent::Free { event_id, ptr, chunk, tcache_entry, .. } => {
            JsonHeapEvent::Free {
                event_id: *event_id,
                ptr: text::format_hex0x(*ptr),
                chunk: json_chunk(chunk),
                tcache_entry: json_tcache_entry(tcache_entry),
                caller_addr,
                caller_symbol,
                tracker_note,
                tracker_explanation,
            }
        },
        HeapTraceEvent::Calloc { event_id, nmemb, size, returned_ptr, chunk, .. } => {
            JsonHeapEvent::Calloc {
                event_id: *event_id,
                nmemb: text::format_hex0x(*nmemb),
                size: text::format_hex0x(*size),
                returned_ptr: text::format_hex0x(*returned_ptr),
                chunk: json_chunk(chunk),
                caller_addr,
                caller_symbol,
                tracker_note,
                tracker_explanation,
            }
        },
        HeapTraceEvent::Realloc {
            event_id,
            old_ptr,
            new_size,
            returned_ptr,
            old_chunk,
            new_chunk,
            ..
        } => {
            JsonHeapEvent::Realloc {
                event_id: *event_id,
                old_ptr: text::format_hex0x(*old_ptr),
                new_size: text::format_hex0x(*new_size),
                returned_ptr: text::format_hex0x(*returned_ptr),
                old_chunk: json_chunk(old_chunk),
                new_chunk: json_chunk(new_chunk),
                caller_addr,
                caller_symbol,
                tracker_note,
                tracker_explanation,
            }
        },
    }
}

/// A recorded call reads as it was printed, and keeps its number.
pub proof fn law_recorded_call_reads_as_printed(
    json: JsonHeapEvent,
    event: HeapTraceEvent,
    note: HeapTrackerNote,
    explanation: HeapTrackerExplanation,
    symbol: Option<SymbolizedAddress>,
)
    requires
        is_json_event(json, event, note, explanation, symbol),
    ensures
        replay_text::event_summary(json) == call_line(event),
        replay::event_id_of(json) == event.id(),
{
}

} // verus!
