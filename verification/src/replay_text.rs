//! Text of trace records.

use vstd::prelude::*;
use crate::record::{
    JsonBinPointerCandidate, JsonCallerSymbol, JsonChunk, JsonFastbinBinValidation,
    JsonFastbinChain, JsonFastbinHead, JsonFastbinNode, JsonFastbinPointerCandidate,
    JsonHeapEvent, JsonLargebinBinValidation, JsonLargebinChain, JsonLargebinNode,
    JsonLayoutChunk, JsonMainArenaCandidate, JsonMainArenaPointerCandidate,
    JsonMainArenaViewArena, JsonMainArenaViewTop, JsonObservedTcacheChain, JsonRegularBinHead,
    JsonSmallbinBinValidation, JsonSmallbinChain, JsonSmallbinNode, JsonTcacheBin,
    JsonTcacheBinComparison, JsonTcacheBinValidation, JsonTcacheEntry,
    JsonTcacheSnapshotCandidate, JsonTcacheStructCandidate, JsonUnsortedBinChain,
    JsonUnsortedBinNode, JsonUnsortedBinPointerCandidate, JsonUnsortedBinValidation,
};
use crate::text;
use crate::text::{cat2, cat3, cat4, cat5, cat6, cat7, owned, same, Block, Lines};

verus! {

/// How a trace is replayed.
#[derive(Debug, Clone, Copy, PartialEq, Eq, Structural)]
pub struct ReplayConfig {
    pub events_only: bool,
    pub show_chunks: bool,
    pub tui: bool,
}

impl Default for ReplayConfig {
    fn default() -> (r: ReplayConfig)
        ensures
            r == (ReplayConfig { events_only: false, show_chunks: true, tui: false }),
    {
        ReplayConfig { events_only: false, show_chunks: true, tui: false }
    }
}

impl ReplayConfig {
    /// Allocator state is not shown.
    pub open spec fn hides_state(self) -> bool {
        self.events_only || !self.show_chunks
    }

    pub fn is_hiding_state(&self) -> (r: bool)
        ensures
            r == self.hides_state(),
    {
        self.events_only || !self.show_chunks
    }
}

/// The text of a list of lines, or no text at all.
pub open spec fn unless(hidden: bool, lines: Seq<Seq<char>>) -> Seq<char> {
    if hidden { Seq::empty() } else { text::unlines(lines) }
}

// ---------------------------------------------------------------------------
// Events
// ---------------------------------------------------------------------------

/// `file:line:column`, as far as it is known; nothing without a file.
pub open spec fn source_location_text(
    file: Option<String>,
    line: Option<u32>,
    column: Option<u32>,
) -> Option<Seq<char>> {
    match file {
        None => None,
        Some(f) => match (line, column) {
            (Some(l), Some(c)) => Some(f@ + ":"@ + text::dec(l as nat) + ":"@ + text::dec(c as nat)),
            (Some(l), None) => Some(f@ + ":"@ + text::dec(l as nat)),
            (None, Some(c)) => Some(f@ + ":?:"@ + text::dec(c as nat)),
            (None, None) => Some(f@),
        },
    }
}

pub fn format_source_location_parts(
    file: &Option<String>,
    line: Option<u32>,
    column: Option<u32>,
) -> (r: Option<String>)
    ensures
        text::opt(r) == source_location_text(*file, line, column),
{
    match file {
        None => None,
        Some(f) => match (line, column) {
            (Some(l), Some(c)) =>
                Some(
                    cat5(
                        f.as_str(),
                        ":",
                        text::format_dec(l as u64).as_str(),
                        ":",
                        text::format_dec(c as u64).as_str(),
                    ),
                ),
            (Some(l), None) => Some(cat3(f.as_str(), ":", text::format_dec(l as u64).as_str())),
            (None, Some(c)) => Some(cat3(f.as_str(), ":?:", text::format_dec(c as u64).as_str())),
            (None, None) => Some(f.clone()),
        },
    }
}

/// `object!symbol+offset (addr)`.
pub open spec fn caller_symbol_text(symbol: JsonCallerSymbol, caller_addr: Option<String>) -> Seq<
    char,
> {
    let addr = text::or_word(caller_addr, symbol.symbol_addr@);
    let name = match symbol.object {
        Some(object) => object@ + "!"@ + symbol.symbol@,
        None => symbol.symbol@,
    };
    if symbol.offset@ == "0x0"@ {
        name + " ("@ + addr + ")"@
    } else {
        name + "+"@ + symbol.offset@ + " ("@ + addr + ")"@
    }
}

pub fn format_json_caller_symbol(symbol: &JsonCallerSymbol, caller_addr: &Option<String>) -> (r:
    String)
    ensures
        r@ == caller_symbol_text(*symbol, *caller_addr),
{
    let addr = text::str_or(caller_addr, symbol.symbol_addr.as_str());
    let name = match &symbol.object {
        Some(object) => cat3(object.as_str(), "!", symbol.symbol.as_str()),
        None => symbol.symbol.clone(),
    };
    if same(symbol.offset.as_str(), "0x0") {
        cat4(name.as_str(), " (", addr, ")")
    } else {
        cat6(name.as_str(), "+", symbol.offset.as_str(), " (", addr, ")")
    }
}

/// The lines that say where an allocator call came from.
pub open spec fn caller_lines(
    caller_addr: Option<String>,
    caller_symbol: Option<JsonCallerSymbol>,
) -> Seq<Seq<char>> {
    match caller_symbol {
        Some(symbol) => seq![
            "    caller:     "@ + caller_symbol_text(symbol, caller_addr),
        ] + text::opt_line(
            "    at          "@,
            match symbol.source {
                Some(source) => source_location_text(source.file, source.line, source.column),
                None => None,
            },
        ),
        None => text::opt_line("    caller:     "@, text::opt(caller_addr)),
    }
}

fn replay_caller_lines(
    caller_addr: &Option<String>,
    caller_symbol: &Option<JsonCallerSymbol>,
) -> (r: Lines)
    ensures
        r@ == caller_lines(*caller_addr, *caller_symbol),
{
    let mut l = Lines::new();
    match caller_symbol {
        Some(symbol) => {
            l.push(
                cat2("    caller:     ", format_json_caller_symbol(symbol, caller_addr).as_str()),
            );
            let place = match &symbol.source {
                Some(source) => format_source_location_parts(
                    &source.file,
                    source.line,
                    source.column,
                ),
                None => None,
            };
            l.add_opt("    at          ", &place);
        },
        None => {
            l.add_opt("    caller:     ", caller_addr);
            assert(l@ =~= text::opt_line("    caller:     "@, text::opt(*caller_addr)));
        },
    }
    l
}

/// Flag names with bars between them.
pub open spec fn flags_text(flags: Seq<String>) -> Seq<char> {
    if flags.len() == 0 { "none"@ } else { text::join(text::texts(flags), " | "@) }
}

pub fn format_replay_flags(flags: &Vec<String>) -> (r: String)
    ensures
        r@ == flags_text(flags@),
{
    if flags.len() == 0 {
        owned("none")
    } else {
        text::format_join(flags, " | ")
    }
}

/// A chunk header under a label, four columns in.
pub open spec fn chunk_lines(label: Seq<char>, chunk: JsonChunk) -> Seq<Seq<char>> {
    seq![
        "    "@ + label + ":"@,
        "        chunk:      "@ + chunk.chunk_addr@,
        "        user:       "@ + chunk.user_addr@,
        "        prev_size:  "@ + chunk.prev_size@,
        "        size_raw:   "@ + chunk.size_raw@,
        "        size:       "@ + chunk.size@,
        "        flags:      "@ + flags_text(chunk.flags@),
    ]
}

pub fn format_replay_chunk(label: &str, chunk: &JsonChunk) -> (r: Lines)
    ensures
        r@ == chunk_lines(label@, *chunk),
{
    let mut l = Lines::new();
    l.push(cat3("    ", label, ":"));
    l.push(cat2("        chunk:      ", chunk.chunk_addr.as_str()));
    l.push(cat2("        user:       ", chunk.user_addr.as_str()));
    l.push(cat2("        prev_size:  ", chunk.prev_size.as_str()));
    l.push(cat2("        size_raw:   ", chunk.size_raw.as_str()));
    l.push(cat2("        size:       ", chunk.size.as_str()));
    l.push(cat2("        flags:      ", format_replay_flags(&chunk.flags).as_str()));
    l
}

impl Block for JsonTcacheEntry {
    open spec fn lines(&self) -> Seq<Seq<char>> {
        seq![
            "    tcache candidate:"@,
            "        storage:      "@ + self.storage_addr@,
            "        encoded_next: "@ + self.encoded_next@,
            "        decoded_next: "@ + self.decoded_next@,
        ]
    }

    fn block(&self) -> (r: Lines) {
        let mut l = Lines::new();
        l.push(owned("    tcache candidate:"));
        l.push(cat2("        storage:      ", self.storage_addr.as_str()));
        l.push(cat2("        encoded_next: ", self.encoded_next.as_str()));
        l.push(cat2("        decoded_next: ", self.decoded_next.as_str()));
        l
    }
}

/// A chunk under its label; without one, the word that it is missing, unless
/// there is no memory to have a chunk.
pub open spec fn chunk_or_missing(
    label: Seq<char>,
    chunk: Option<JsonChunk>,
    ptr: Seq<char>,
) -> Seq<Seq<char>> {
    match chunk {
        Some(c) => chunk_lines(label, c),
        None => text::when(ptr != "0x0"@, "    "@ + label + ": unavailable"@),
    }
}

fn replay_chunk_or_missing(label: &str, chunk: &Option<JsonChunk>, ptr: &str) -> (r: Lines)
    ensures
        r@ == chunk_or_missing(label@, *chunk, ptr@),
{
    match chunk {
        Some(c) => format_replay_chunk(label, c),
        None => {
            let mut l = Lines::new();
            l.add_when(!same(ptr, "0x0"), cat3("    ", label, ": unavailable").as_str());
            assert(l@ =~= chunk_or_missing(label@, *chunk, ptr@));
            l
        },
    }
}

/// A chunk under its label, where there is one.
pub open spec fn chunk_if_known(label: Seq<char>, chunk: Option<JsonChunk>) -> Seq<Seq<char>> {
    match chunk {
        Some(c) => chunk_lines(label, c),
        None => Seq::empty(),
    }
}

fn replay_chunk_if_known(label: &str, chunk: &Option<JsonChunk>) -> (r: Lines)
    ensures
        r@ == chunk_if_known(label@, *chunk),
{
    match chunk {
        Some(c) => format_replay_chunk(label, c),
        None => Lines::new(),
    }
}

pub open spec fn tcache_entry_lines(entry: Option<JsonTcacheEntry>) -> Seq<Seq<char>> {
    match entry {
        Some(e) => e.lines(),
        None => Seq::empty(),
    }
}

fn replay_tcache_entry(entry: &Option<JsonTcacheEntry>) -> (r: Lines)
    ensures
        r@ == tcache_entry_lines(*entry),
{
    match entry {
        Some(e) => e.block(),
        None => Lines::new(),
    }
}

/// What the tracker made of an event.
pub open spec fn tracker_lines(note: Seq<char>, explanation: Option<String>) -> Seq<Seq<char>> {
    seq!["    tracker: "@ + note] + text::opt_line("    explanation: "@, text::opt(explanation))
}

pub fn format_replay_tracker(note: &str, explanation: &Option<String>) -> (r: Lines)
    ensures
        r@ == tracker_lines(note@, *explanation),
{
    let mut l = Lines::new();
    l.push(cat2("    tracker: ", note));
    l.add_opt("    explanation: ", explanation);
    l
}

/// The call of an event in one line.
pub open spec fn event_summary(event: JsonHeapEvent) -> Seq<char> {
    match event {
        JsonHeapEvent::Malloc { event_id, requested_size, returned_ptr, .. } =>
            "#"@ + text::dec(event_id as nat) + " malloc("@ + requested_size@ + ") = "@
                + returned_ptr@,
        JsonHeapEvent::Free { event_id, ptr, .. } =>
            "#"@ + text::dec(event_id as nat) + " free("@ + ptr@ + ")"@,
        JsonHeapEvent::Calloc { event_id, nmemb, size, returned_ptr, .. } =>
            "#"@ + text::dec(event_id as nat) + " calloc("@ + nmemb@ + ", "@ + size@ + ") = "@
                + returned_ptr@,
        JsonHeapEvent::Realloc { event_id, old_ptr, new_size, returned_ptr, .. } =>
            "#"@ + text::dec(event_id as nat) + " realloc("@ + old_ptr@ + ", "@ + new_size@
                + ") = "@ + returned_ptr@,
    }
}

pub fn format_replay_event_summary(event: &JsonHeapEvent) -> (r: String)
    ensures
        r@ == event_summary(*event),
{
    match event {
        JsonHeapEvent::Malloc { event_id, requested_size, returned_ptr, .. } =>
            cat6(
                "#",
                text::format_dec_usize(*event_id).as_str(),
                " malloc(",
                requested_size.as_str(),
                ") = ",
                returned_ptr.as_str(),
            ),
        JsonHeapEvent::Free { event_id, ptr, .. } =>
            cat5("#", text::format_dec_usize(*event_id).as_str(), " free(", ptr.as_str(), ")"),
        JsonHeapEvent::Calloc { event_id, nmemb, size, returned_ptr, .. } =>
            cat7(
                "#",
                text::format_dec_usize(*event_id).as_str(),
                " calloc(",
                nmemb.as_str(),
                ", ",
                size.as_str(),
                ") = ",
            ).concat(returned_ptr.as_str()),
        JsonHeapEvent::Realloc { event_id, old_ptr, new_size, returned_ptr, .. } =>
            cat7(
                "#",
                text::format_dec_usize(*event_id).as_str(),
                " realloc(",
                old_ptr.as_str(),
                ", ",
                new_size.as_str(),
                ") = ",
            ).concat(returned_ptr.as_str()),
    }
}

/// Where the call of an event came from.
pub open spec fn event_caller_lines(event: JsonHeapEvent) -> Seq<Seq<char>> {
    match event {
        JsonHeapEvent::Malloc { caller_addr, caller_symbol, .. } => caller_lines(
            caller_addr,
            caller_symbol,
        ),
        JsonHeapEvent::Free { caller_addr, caller_symbol, .. } => caller_lines(
            caller_addr,
            caller_symbol,
        ),
        JsonHeapEvent::Calloc { caller_addr, caller_symbol, .. } => caller_lines(
            caller_addr,
            caller_symbol,
        ),
        JsonHeapEvent::Realloc { caller_addr, caller_symbol, .. } => caller_lines(
            caller_addr,
            caller_symbol,
        ),
    }
}

fn replay_event_caller(event: &JsonHeapEvent) -> (r: Lines)
    ensures
        r@ == event_caller_lines(*event),
{
    match event {
        JsonHeapEvent::Malloc { caller_addr, caller_symbol, .. } => replay_caller_lines(
            caller_addr,
            caller_symbol,
        ),
        JsonHeapEvent::Free { caller_addr, caller_symbol, .. } => replay_caller_lines(
            caller_addr,
            caller_symbol,
        ),
        JsonHeapEvent::Calloc { caller_addr, caller_symbol, .. } => replay_caller_lines(
            caller_addr,
            caller_symbol,
        ),
        JsonHeapEvent::Realloc { caller_addr, caller_symbol, .. } => replay_caller_lines(
            caller_addr,
            caller_symbol,
        ),
    }
}

/// The chunks of an event.
pub open spec fn event_chunk_lines(event: JsonHeapEvent) -> Seq<Seq<char>> {
    match event {
        JsonHeapEvent::Malloc { chunk, returned_ptr, .. } => chunk_or_missing(
            "chunk"@,
            chunk,
            returned_ptr@,
        ),
        JsonHeapEvent::Free { chunk, ptr, tcache_entry, .. } => chunk_or_missing(
            "chunk"@,
            chunk,
            ptr@,
        ) + tcache_entry_lines(tcache_entry),
        JsonHeapEvent::Calloc { chunk, returned_ptr, .. } => chunk_or_missing(
            "chunk"@,
            chunk,
            returned_ptr@,
        ),
        JsonHeapEvent::Realloc { old_chunk, new_chunk, returned_ptr, .. } => chunk_if_known(
            "old chunk"@,
            old_chunk,
        ) + chunk_or_missing("new chunk"@, new_chunk, returned_ptr@),
    }
}

fn replay_event_chunks(event: &JsonHeapEvent) -> (r: Lines)
    ensures
        r@ == event_chunk_lines(*event),
{
    match event {
        JsonHeapEvent::Malloc { chunk, returned_ptr, .. } => replay_chunk_or_missing(
            "chunk",
            chunk,
            returned_ptr.as_str(),
        ),
        JsonHeapEvent::Free { chunk, ptr, tcache_entry, .. } => {
            let mut l = replay_chunk_or_missing("chunk", chunk, ptr.as_str());
            l.add(replay_tcache_entry(tcache_entry));
            l
        },
        JsonHeapEvent::Calloc { chunk, returned_ptr, .. } => replay_chunk_or_missing(
            "chunk",
            chunk,
            returned_ptr.as_str(),
        ),
        JsonHeapEvent::Realloc { old_chunk, new_chunk, returned_ptr, .. } => {
            let mut l = replay_chunk_if_known("old chunk", old_chunk);
            l.add(replay_chunk_or_missing("new chunk", new_chunk, returned_ptr.as_str()));
            l
        },
    }
}

/// What the tracker made of an event.
pub open spec fn event_tracker_lines(event: JsonHeapEvent) -> Seq<Seq<char>> {
    match event {
        JsonHeapEvent::Malloc { tracker_note, tracker_explanation, .. } => tracker_lines(
            tracker_note@,
            tracker_explanation,
        ),
        JsonHeapEvent::Free { tracker_note, tracker_explanation, .. } => tracker_lines(
            tracker_note@,
            tracker_explanation,
        ),
        JsonHeapEvent::Calloc { tracker_note, tracker_explanation, .. } => tracker_lines(
            tracker_note@,
            tracker_explanation,
        ),
        JsonHeapEvent::Realloc { tracker_note, tracker_explanation, .. } => tracker_lines(
            tracker_note@,
            tracker_explanation,
        ),
    }
}

fn replay_event_tracker(event: &JsonHeapEvent) -> (r: Lines)
    ensures
        r@ == event_tracker_lines(*event),
{
    match event {
        JsonHeapEvent::Malloc { tracker_note, tracker_explanation, .. } => format_replay_tracker(
            tracker_note.as_str(),
            tracker_explanation,
        ),
        JsonHeapEvent::Free { tracker_note, tracker_explanation, .. } => format_replay_tracker(
            tracker_note.as_str(),
            tracker_explanation,
        ),
        JsonHeapEvent::Calloc { tracker_note, tracker_explanation, .. } => format_replay_tracker(
            tracker_note.as_str(),
            tracker_explanation,
        ),
        JsonHeapEvent::Realloc { tracker_note, tracker_explanation, .. } => format_replay_tracker(
            tracker_note.as_str(),
            tracker_explanation,
        ),
    }
}

/// An event: its call, its caller unless only events are asked for, its chunks
/// where they are shown, and the tracker's note.
pub open spec fn event_lines(event: JsonHeapEvent, config: ReplayConfig) -> Seq<Seq<char>> {
    seq![event_summary(event)] + (if config.events_only {
        Seq::empty()
    } else {
        event_caller_lines(event)
    }) + (if config.show_chunks { event_chunk_lines(event) } else { Seq::empty() })
        + event_tracker_lines(event)
}

pub fn format_replay_event(event: &JsonHeapEvent, config: &ReplayConfig) -> (r: String)
    ensures
        r@ == text::unlines(event_lines(*event, *config)),
{
    let mut l = Lines::new();
    l.push(format_replay_event_summary(event));
    l.add(
        if config.events_only {
            Lines::new()
        } else {
            replay_event_caller(event)
        },
    );
    l.add(
        if config.show_chunks {
            replay_event_chunks(event)
        } else {
            Lines::new()
        },
    );
    l.add(replay_event_tracker(event));
    l.unlines()
}

// ---------------------------------------------------------------------------
// Heap layout and tcache
// ---------------------------------------------------------------------------

/// The free list that a chunk is in, as a suffix of its layout line.
pub open spec fn layout_annotation(chunk: JsonLayoutChunk) -> Seq<char> {
    if chunk.allocator_source is Some && chunk.allocator_source->0.kind@ == "fastbin"@ {
        " source=fastbin["@ + chunk.allocator_source->0.chunk_size@ + "] index="@
            + text::dec(chunk.allocator_source->0.index as nat)
    } else if chunk.allocator_source is Some && chunk.allocator_source->0.kind@
        == "tcache_candidate"@ {
        " tcache_candidate=size["@ + chunk.allocator_source->0.chunk_size@ + "] index="@
            + text::dec(chunk.allocator_source->0.index as nat)
    } else {
        match chunk.tcache_candidate {
            Some(m) =>
                " tcache_candidate=size["@ + m.chunk_size@ + "] index="@ + text::dec(
                    m.index as nat,
                ),
            None => Seq::empty(),
        }
    }
}

pub fn format_replay_layout_allocator_annotation(chunk: &JsonLayoutChunk) -> (r: String)
    ensures
        r@ == layout_annotation(*chunk),
{
    if let Some(source) = &chunk.allocator_source {
        if same(source.kind.as_str(), "fastbin") {
            return cat4(
                " source=fastbin[",
                source.chunk_size.as_str(),
                "] index=",
                text::format_dec_usize(source.index).as_str(),
            );
        }
        if same(source.kind.as_str(), "tcache_candidate") {
            return cat4(
                " tcache_candidate=size[",
                source.chunk_size.as_str(),
                "] index=",
                text::format_dec_usize(source.index).as_str(),
            );
        }
    }
    match &chunk.tcache_candidate {
        Some(m) =>
            cat4(
                " tcache_candidate=size[",
                m.chunk_size.as_str(),
                "] index=",
                text::format_dec_usize(m.index).as_str(),
            ),
        None => String::new(),
    }
}

impl Block for JsonLayoutChunk {
    open spec fn lines(&self) -> Seq<Seq<char>> {
        seq![
            "    "@ + self.chunk_addr@ + " user="@ + self.user_addr@ + " size="@ + self.size@
                + " flags="@ + flags_text(self.flags@) + " state="@ + self.state@
                + layout_annotation(*self),
        ]
    }

    fn block(&self) -> (r: Lines) {
        let mut l = Lines::new();
        l.push(
            cat7(
                "    ",
                self.chunk_addr.as_str(),
                " user=",
                self.user_addr.as_str(),
                " size=",
                self.size.as_str(),
                " flags=",
            )
                .concat(format_replay_flags(&self.flags).as_str())
                .concat(" state=")
                .concat(self.state.as_str())
                .concat(format_replay_layout_allocator_annotation(self).as_str()),
        );
        l
    }
}

pub open spec fn heap_layout_lines(
    chunks: Seq<JsonLayoutChunk>,
    truncated: bool,
    chunks_omitted: usize,
) -> Seq<Seq<char>> {
    seq!["heap layout:"@] + text::blocks(chunks) + text::when(
        chunks_omitted > 0,
        "    ... "@ + text::dec(chunks_omitted as nat) + " more chunks not shown"@,
    ) + text::when(truncated, "    ... heap walk truncated"@)
}

pub fn format_replay_heap_layout(
    chunks: &Vec<JsonLayoutChunk>,
    truncated: bool,
    chunks_omitted: usize,
    config: &ReplayConfig,
) -> (r: String)
    ensures
        r@ == unless(config.hides_state(), heap_layout_lines(chunks@, truncated, chunks_omitted)),
{
    if config.is_hiding_state() {
        return String::new();
    }
    let mut l = Lines::one("heap layout:");
    l.add(text::format_blocks(chunks));
    l.add_when(
        chunks_omitted > 0,
        cat3(
            "    ... ",
            text::format_dec_usize(chunks_omitted).as_str(),
            " more chunks not shown",
        ).as_str(),
    );
    l.add_when(truncated, "    ... heap walk truncated");
    l.unlines()
}

/// How a followed list ends.
pub open spec fn chain_end(truncated: bool, stopped_on_unknown_next: bool) -> Seq<char> {
    if truncated {
        "... truncated"@
    } else if stopped_on_unknown_next {
        "?"@
    } else {
        "NULL"@
    }
}

fn format_chain_end(truncated: bool, stopped_on_unknown_next: bool) -> (r: &'static str)
    ensures
        r@ == chain_end(truncated, stopped_on_unknown_next),
{
    if truncated {
        "... truncated"
    } else if stopped_on_unknown_next {
        "?"
    } else {
        "NULL"
    }
}

/// List entries and the end of the list with arrows between them.
pub open spec fn chain_text(entries: Seq<Seq<char>>, end: Seq<char>) -> Seq<char> {
    text::join(entries.push(end), " -> "@)
}

pub fn format_chain(entries: &Vec<String>, end: &str) -> (r: String)
    ensures
        r@ == chain_text(text::texts(entries@), end@),
{
    let mut l = Lines::new();
    let mut i: usize = 0;
    assert(text::texts(entries@).take(0) =~= Seq::empty());
    while i < entries.len()
        invariant
            i <= entries.len(),
            l@ == text::texts(entries@).take(i as int),
        decreases entries.len() - i,
    {
        l.push(entries[i].clone());
        i = i + 1;
        assert(l@ =~= text::texts(entries@).take(i as int));
    }
    assert(text::texts(entries@).take(entries.len() as int) =~= text::texts(entries@));
    l.push(owned(end));
    l.join(" -> ")
}

pub open spec fn observed_chain_text(chain: JsonObservedTcacheChain) -> Seq<char> {
    "size "@ + chain.chunk_size@ + ": "@ + chain_text(
        text::texts(chain.entries@),
        chain_end(chain.truncated, chain.stopped_on_unknown_next),
    )
}

pub fn format_replay_observed_tcache_chain(chain: &JsonObservedTcacheChain) -> (r: String)
    ensures
        r@ == observed_chain_text(*chain),
{
    cat4(
        "size ",
        chain.chunk_size.as_str(),
        ": ",
        format_chain(
            &chain.entries,
            format_chain_end(chain.truncated, chain.stopped_on_unknown_next),
        ).as_str(),
    )
}

impl Block for JsonObservedTcacheChain {
    open spec fn lines(&self) -> Seq<Seq<char>> {
        seq![
            "    "@ + observed_chain_text(*self),
        ]
    }

    fn block(&self) -> (r: Lines) {
        let mut l = Lines::new();
        l.push(cat2("    ", format_replay_observed_tcache_chain(self).as_str()));
        l
    }
}

pub open spec fn observed_chains_text(
    chains: Seq<JsonObservedTcacheChain>,
    config: ReplayConfig,
) -> Seq<char> {
    unless(
        config.hides_state() || chains.len() == 0,
        seq!["observed tcache candidates:"@] + text::blocks(chains),
    )
}

pub fn format_replay_observed_tcache_chains(
    chains: &Vec<JsonObservedTcacheChain>,
    config: &ReplayConfig,
) -> (r: String)
    ensures
        r@ == observed_chains_text(chains@, *config),
{
    if config.is_hiding_state() || chains.len() == 0 {
        return String::new();
    }
    let mut l = Lines::one("observed tcache candidates:");
    l.add(text::format_blocks(chains));
    l.unlines()
}

impl Block for JsonTcacheBin {
    open spec fn lines(&self) -> Seq<Seq<char>> {
        seq![
            "    bin["@ + text::dec(self.index as nat) + "] size="@ + self.chunk_size@ + " count="@
                + text::dec(self.count as nat) + " head="@ + self.head@,
        ]
    }

    fn block(&self) -> (r: Lines) {
        let mut l = Lines::new();
        l.push(
            cat7(
                "    bin[",
                text::format_dec_usize(self.index).as_str(),
                "] size=",
                self.chunk_size.as_str(),
                " count=",
                text::format_dec(self.count).as_str(),
                " head=",
            ).concat(self.head.as_str()),
        );
        l
    }
}

/// The bins of a tcache snapshot under their heading, where there are any.
pub open spec fn tcache_snapshot_lines(snapshot: Option<JsonTcacheSnapshotCandidate>) -> Seq<
    Seq<char>,
> {
    match snapshot {
        Some(s) => if s.bins@.len() == 0 {
            Seq::empty()
        } else {
            seq!["tcache snapshot candidate:"@] + text::blocks(s.bins@)
        },
        None => Seq::empty(),
    }
}

pub fn format_tcache_snapshot(snapshot: &JsonTcacheSnapshotCandidate) -> (r: Lines)
    ensures
        r@ == tcache_snapshot_lines(Some(*snapshot)),
{
    let mut l = Lines::new();
    if snapshot.bins.len() > 0 {
        l.push(owned("tcache snapshot candidate:"));
        l.add(text::format_blocks(&snapshot.bins));
    }
    assert(l@ =~= tcache_snapshot_lines(Some(*snapshot)));
    l
}

impl Block for JsonTcacheStructCandidate {
    open spec fn lines(&self) -> Seq<Seq<char>> {
        seq![
            "tcache struct candidate:"@,
            "    chunk:  "@ + self.chunk_addr@,
            "    user:   "@ + self.user_addr@,
            "    size:   "@ + self.size@,
            "    reason: "@ + self.reason@,
        ]
    }

    fn block(&self) -> (r: Lines) {
        let mut l = Lines::new();
        l.push(owned("tcache struct candidate:"));
        l.push(cat2("    chunk:  ", self.chunk_addr.as_str()));
        l.push(cat2("    user:   ", self.user_addr.as_str()));
        l.push(cat2("    size:   ", self.size.as_str()));
        l.push(cat2("    reason: ", self.reason.as_str()));
        l
    }
}

pub fn format_replay_tcache_struct_candidate(
    candidate: &JsonTcacheStructCandidate,
    snapshot: &Option<JsonTcacheSnapshotCandidate>,
    config: &ReplayConfig,
) -> (r: String)
    ensures
        r@ == unless(config.hides_state(), candidate.lines() + tcache_snapshot_lines(*snapshot)),
{
    if config.is_hiding_state() {
        return String::new();
    }
    let mut l = candidate.block();
    if let Some(s) = snapshot {
        l.add(format_tcache_snapshot(s));
    }
    assert(l@ =~= candidate.lines() + tcache_snapshot_lines(*snapshot));
    l.unlines()
}

/// The observed side of a tcache comparison.
pub open spec fn comparison_observed(c: JsonTcacheBinComparison) -> Seq<char> {
    if c.observed_entries@.len() == 0 {
        "<none>"@
    } else {
        chain_text(
            text::texts(c.observed_entries@),
            chain_end(c.observed_truncated, c.observed_stopped_on_unknown_next),
        )
    }
}

pub fn format_replay_tcache_comparison_observed(c: &JsonTcacheBinComparison) -> (r: String)
    ensures
        r@ == comparison_observed(*c),
{
    if c.observed_entries.len() == 0 {
        owned("<none>")
    } else {
        format_chain(
            &c.observed_entries,
            format_chain_end(c.observed_truncated, c.observed_stopped_on_unknown_next),
        )
    }
}

impl Block for JsonTcacheBinComparison {
    open spec fn lines(&self) -> Seq<Seq<char>> {
        seq![
            "    size "@ + self.chunk_size@ + ":"@,
            "        struct count: "@ + text::dec(self.struct_count as nat),
            "        struct head:  "@ + self.struct_head@,
            "        observed:     "@ + comparison_observed(*self),
            "        status:       "@ + self.status@,
        ]
    }

    fn block(&self) -> (r: Lines) {
        let mut l = Lines::new();
        l.push(cat3("    size ", self.chunk_size.as_str(), ":"));
        l.push(cat2("        struct count: ", text::format_dec(self.struct_count).as_str()));
        l.push(cat2("        struct head:  ", self.struct_head.as_str()));
        l.push(cat2("        observed:     ", format_replay_tcache_comparison_observed(self).as_str()));
        l.push(cat2("        status:       ", self.status.as_str()));
        l
    }
}

impl Block for JsonTcacheBinValidation {
    open spec fn lines(&self) -> Seq<Seq<char>> {
        seq![
            "    size "@ + self.chunk_size@ + ":"@,
            "        head_in_heap: "@ + self.head_in_heap@,
            "        head_known_freed: "@ + self.head_known_freed@,
            "        observed_nodes_same_size: "@ + self.observed_nodes_same_size@,
            "        count_matches_observed: "@ + self.count_matches_observed@,
            "        status: "@ + self.status@,
        ]
    }

    fn block(&self) -> (r: Lines) {
        let mut l = Lines::new();
        l.push(cat3("    size ", self.chunk_size.as_str(), ":"));
        l.push(cat2("        head_in_heap: ", self.head_in_heap.as_str()));
        l.push(cat2("        head_known_freed: ", self.head_known_freed.as_str()));
        l.push(cat2("        observed_nodes_same_size: ", self.observed_nodes_same_size.as_str()));
        l.push(cat2("        count_matches_observed: ", self.count_matches_observed.as_str()));
        l.push(cat2("        status: ", self.status.as_str()));
        l
    }
}

/// A heading and a block per item; nothing for no items.
pub open spec fn titled<T: Block>(
    title: Seq<char>,
    items: Seq<T>,
    hidden: bool,
) -> Seq<char> {
    unless(hidden || items.len() == 0, seq![title] + text::blocks(items))
}

pub fn format_titled<T: Block>(title: &str, items: &Vec<T>, hidden: bool) -> (r: String)
    ensures
        r@ == titled(title@, items@, hidden),
{
    if hidden || items.len() == 0 {
        return String::new();
    }
    let mut l = Lines::one(title);
    l.add(text::format_blocks(items));
    l.unlines()
}

pub fn format_replay_tcache_comparison(
    comparisons: &Vec<JsonTcacheBinComparison>,
    config: &ReplayConfig,
) -> (r: String)
    ensures
        r@ == titled("tcache comparison candidate:"@, comparisons@, config.hides_state()),
{
    format_titled("tcache comparison candidate:", comparisons, config.is_hiding_state())
}

pub fn format_replay_tcache_validation(
    validations: &Vec<JsonTcacheBinValidation>,
    config: &ReplayConfig,
) -> (r: String)
    ensures
        r@ == titled("tcache validation candidate:"@, validations@, config.hides_state()),
{
    format_titled("tcache validation candidate:", validations, config.is_hiding_state())
}

// ---------------------------------------------------------------------------
// Main arena
// ---------------------------------------------------------------------------

pub open spec fn main_arena_candidate_lines(c: JsonMainArenaCandidate) -> Seq<Seq<char>> {
    seq![
        "main_arena candidate:"@,
        "    libc:   "@ + c.libc_path@,
        "    symbol: "@ + c.symbol_name@,
        "    addr:   "@ + c.runtime_addr@,
        "    source: "@ + c.source@,
    ] + text::opt_line("    offset: "@, text::opt(c.offset))
}

pub fn format_replay_main_arena_candidate(
    c: &JsonMainArenaCandidate,
    config: &ReplayConfig,
) -> (r: String)
    ensures
        r@ == unless(config.events_only, main_arena_candidate_lines(*c)),
{
    if config.events_only {
        return String::new();
    }
    let mut l = Lines::one("main_arena candidate:");
    l.push(cat2("    libc:   ", c.libc_path.as_str()));
    l.push(cat2("    symbol: ", c.symbol_name.as_str()));
    l.push(cat2("    addr:   ", c.runtime_addr.as_str()));
    l.push(cat2("    source: ", c.source.as_str()));
    l.add_opt("    offset: ", &c.offset);
    assert(l@ =~= main_arena_candidate_lines(*c));
    l.unlines()
}

impl Block for JsonMainArenaPointerCandidate {
    open spec fn lines(&self) -> Seq<Seq<char>> {
        seq![
            "        offset="@ + self.field_offset@ + " value="@ + self.value@ + " role="@
                + self.role_hint@ + " matched_chunk_size="@
                + text::or_word(self.matched_chunk_size, "none"@),
        ]
    }

    fn block(&self) -> (r: Lines) {
        let mut l = Lines::new();
        l.push(
            cat7(
                "        offset=",
                self.field_offset.as_str(),
                " value=",
                self.value.as_str(),
                " role=",
                self.role_hint.as_str(),
                " matched_chunk_size=",
            ).concat(text::str_or(&self.matched_chunk_size, "none")),
        );
        l
    }
}

impl Block for JsonFastbinPointerCandidate {
    open spec fn lines(&self) -> Seq<Seq<char>> {
        seq![
            "        offset="@ + self.field_offset@ + " value="@ + self.value@ + " chunk_size="@
                + text::or_word(self.possible_chunk_size, "unknown"@) + " known_freed="@
                + text::yes_no_unknown(self.known_freed),
        ]
    }

    fn block(&self) -> (r: Lines) {
        let mut l = Lines::new();
        l.push(
            cat7(
                "        offset=",
                self.field_offset.as_str(),
                " value=",
                self.value.as_str(),
                " chunk_size=",
                text::str_or(&self.possible_chunk_size, "unknown"),
                " known_freed=",
            ).concat(text::format_yes_no_unknown(self.known_freed)),
        );
        l
    }
}

impl Block for JsonUnsortedBinPointerCandidate {
    open spec fn lines(&self) -> Seq<Seq<char>> {
        seq![
            "        offset="@ + self.field_offset@ + " fd="@ + self.fd@ + " fd_in_heap="@
                + text::yes_no(self.fd_points_into_heap) + " fd_known_freed="@
                + text::yes_no_unknown(self.fd_known_freed) + " bk="@ + self.bk@ + " bk_in_heap="@
                + text::yes_no(self.bk_points_into_heap) + " bk_known_freed="@
                + text::yes_no_unknown(self.bk_known_freed) + " role="@ + self.role@,
        ]
    }

    fn block(&self) -> (r: Lines) {
        let mut l = Lines::new();
        l.push(
            cat7(
                "        offset=",
                self.field_offset.as_str(),
                " fd=",
                self.fd.as_str(),
                " fd_in_heap=",
                text::format_yes_no(self.fd_points_into_heap),
                " fd_known_freed=",
            )
                .concat(text::format_yes_no_unknown(self.fd_known_freed))
                .concat(" bk=")
                .concat(self.bk.as_str())
                .concat(" bk_in_heap=")
                .concat(text::format_yes_no(self.bk_points_into_heap))
                .concat(" bk_known_freed=")
                .concat(text::format_yes_no_unknown(self.bk_known_freed))
                .concat(" role=")
                .concat(self.role.as_str()),
        );
        l
    }
}

impl Block for JsonBinPointerCandidate {
    open spec fn lines(&self) -> Seq<Seq<char>> {
        seq![
            "        offset="@ + self.field_offset@ + " fd="@ + self.fd@ + " fd_in_heap="@
                + text::yes_no(self.fd_points_into_heap) + " fd_in_arena="@
                + text::yes_no(self.fd_points_into_arena) + " fd_known_freed="@
                + text::yes_no_unknown(self.fd_known_freed) + " bk="@ + self.bk@ + " bk_in_heap="@
                + text::yes_no(self.bk_points_into_heap) + " bk_in_arena="@
                + text::yes_no(self.bk_points_into_arena) + " bk_known_freed="@
                + text::yes_no_unknown(self.bk_known_freed) + " role="@ + self.role@,
        ]
    }

    fn block(&self) -> (r: Lines) {
        let mut l = Lines::new();
        l.push(
            cat7(
                "        offset=",
                self.field_offset.as_str(),
                " fd=",
                self.fd.as_str(),
                " fd_in_heap=",
                text::format_yes_no(self.fd_points_into_heap),
                " fd_in_arena=",
            )
                .concat(text::format_yes_no(self.fd_points_into_arena))
                .concat(" fd_known_freed=")
                .concat(text::format_yes_no_unknown(self.fd_known_freed))
                .concat(" bk=")
                .concat(self.bk.as_str())
                .concat(" bk_in_heap=")
                .concat(text::format_yes_no(self.bk_points_into_heap))
                .concat(" bk_in_arena=")
                .concat(text::format_yes_no(self.bk_points_into_arena))
                .concat(" bk_known_freed=")
                .concat(text::format_yes_no_unknown(self.bk_known_freed))
                .concat(" role=")
                .concat(self.role.as_str()),
        );
        l
    }
}

/// An experiment on arena words: title, arena, and the candidates under their
/// heading, or the word that there are none.
pub open spec fn experiment_lines<T: Block>(
    title: Seq<char>,
    arena_addr: Seq<char>,
    heading: Seq<char>,
    candidates: Seq<T>,
) -> Seq<Seq<char>> {
    seq![title, "    arena: "@ + arena_addr] + (if candidates.len() == 0 {
        seq!["    "@ + heading + ": none"@]
    } else {
        seq!["    "@ + heading + ":"@] + text::blocks(candidates)
    })
}

fn format_experiment<T: Block>(
    title: &str,
    arena_addr: &str,
    heading: &str,
    candidates: &Vec<T>,
) -> (r: String)
    ensures
        r@ == text::unlines(experiment_lines(title@, arena_addr@, heading@, candidates@)),
{
    let mut l = Lines::one(title);
    l.push(cat2("    arena: ", arena_addr));
    if candidates.len() == 0 {
        l.add(Lines::one(cat3("    ", heading, ": none").as_str()));
    } else {
        let mut block = Lines::one(cat3("    ", heading, ":").as_str());
        block.add(text::format_blocks(candidates));
        l.add(block);
    }
    assert(l@ =~= experiment_lines(title@, arena_addr@, heading@, candidates@));
    l.unlines()
}

pub fn format_replay_main_arena_experiment(
    arena_addr: &str,
    candidates: &Vec<JsonMainArenaPointerCandidate>,
    config: &ReplayConfig,
) -> (r: String)
    ensures
        r@ == unless(
            config.events_only,
            experiment_lines(
                "main_arena experiment:"@,
                arena_addr@,
                "heap pointer candidates"@,
                candidates@,
            ),
        ),
{
    if config.events_only {
        return String::new();
    }
    format_experiment(
        "main_arena experiment:",
        arena_addr,
        "heap pointer candidates",
        candidates,
    )
}

pub fn format_replay_fastbin_experiment(
    arena_addr: &str,
    candidates: &Vec<JsonFastbinPointerCandidate>,
    config: &ReplayConfig,
) -> (r: String)
    ensures
        r@ == unless(
            config.hides_state(),
            experiment_lines("fastbin experiment:"@, arena_addr@, "candidates"@, candidates@),
        ),
{
    if config.is_hiding_state() {
        return String::new();
    }
    format_experiment("fastbin experiment:", arena_addr, "candidates", candidates)
}

pub fn format_replay_unsorted_bin_experiment(
    arena_addr: &str,
    candidates: &Vec<JsonUnsortedBinPointerCandidate>,
    config: &ReplayConfig,
) -> (r: String)
    ensures
        r@ == unless(
            config.hides_state(),
            experiment_lines("unsorted bin experiment:"@, arena_addr@, "candidates"@, candidates@),
        ),
{
    if config.is_hiding_state() {
        return String::new();
    }
    format_experiment("unsorted bin experiment:", arena_addr, "candidates", candidates)
}

pub fn format_replay_bin_experiment(
    arena_addr: &str,
    candidates: &Vec<JsonBinPointerCandidate>,
    config: &ReplayConfig,
) -> (r: String)
    ensures
        r@ == unless(
            config.hides_state(),
            experiment_lines("bin experiment:"@, arena_addr@, "candidates"@, candidates@),
        ),
{
    if config.is_hiding_state() {
        return String::new();
    }
    format_experiment("bin experiment:", arena_addr, "candidates", candidates)
}

/// A top status in words.
pub open spec fn top_status_text(status: Seq<char>) -> Seq<char> {
    if status == "matches_walked_chunk"@ {
        "points into heap and matches walked chunk"@
    } else if status == "points_into_heap"@ {
        "points into heap but does not match walked chunk"@
    } else if status == "outside_heap"@ {
        "outside heap"@
    } else {
        status
    }
}

pub fn format_replay_main_arena_top_status(status: &str) -> (r: String)
    ensures
        r@ == top_status_text(status@),
{
    if same(status, "matches_walked_chunk") {
        owned("points into heap and matches walked chunk")
    } else if same(status, "points_into_heap") {
        owned("points into heap but does not match walked chunk")
    } else if same(status, "outside_heap") {
        owned("outside heap")
    } else {
        owned(status)
    }
}

pub open spec fn top_candidate_lines(
    arena_addr: Seq<char>,
    field_offset: Seq<char>,
    top_addr: Seq<char>,
    chunk_size: Option<String>,
    status: Seq<char>,
    source: Seq<char>,
    profile: Option<String>,
) -> Seq<Seq<char>> {
    seq![
        "main_arena top candidate:"@,
        "    arena:       "@ + arena_addr,
        "    field:       "@ + field_offset,
        "    top:         "@ + top_addr,
        "    source:      "@ + source,
    ] + text::opt_line("    profile:     "@, text::opt(profile)) + seq![
        "    chunk size:  "@ + text::or_word(chunk_size, "unknown"@),
        "    status:      "@ + top_status_text(status),
    ]
}

pub fn format_replay_main_arena_top_candidate(
    arena_addr: &str,
    field_offset: &str,
    top_addr: &str,
    chunk_size: &Option<String>,
    status: &str,
    source: &str,
    profile: &Option<String>,
    config: &ReplayConfig,
) -> (r: String)
    ensures
        r@ == unless(
            config.events_only,
            top_candidate_lines(
                arena_addr@,
                field_offset@,
                top_addr@,
                *chunk_size,
                status@,
                source@,
                *profile,
            ),
        ),
{
    if config.events_only {
        return String::new();
    }
    let mut l = Lines::one("main_arena top candidate:");
    l.push(cat2("    arena:       ", arena_addr));
    l.push(cat2("    field:       ", field_offset));
    l.push(cat2("    top:         ", top_addr));
    l.push(cat2("    source:      ", source));
    l.add_opt("    profile:     ", profile);
    let mut rest = Lines::new();
    rest.push(cat2("    chunk size:  ", text::str_or(chunk_size, "unknown")));
    rest.push(cat2("    status:      ", format_replay_main_arena_top_status(status).as_str()));
    l.add(rest);
    assert(l@ =~= top_candidate_lines(
        arena_addr@,
        field_offset@,
        top_addr@,
        *chunk_size,
        status@,
        source@,
        *profile,
    ));
    l.unlines()
}

/// The top chunk of a main arena view.
pub open spec fn arena_view_top_lines(top: JsonMainArenaViewTop) -> Seq<Seq<char>> {
    seq![
        ""@,
        "    top:"@,
        "        field:   "@ + top.field_offset@,
        "        value:   "@ + top.value@,
        "        size:    "@ + text::or_word(top.size, "unknown"@),
        "        source:  "@ + top.source@,
    ] + text::opt_line("        profile: "@, text::opt(top.profile)) + seq![
        "        status:  "@ + top.status@,
    ]
}

pub open spec fn arena_view_lines(
    arena: JsonMainArenaViewArena,
    top: Option<JsonMainArenaViewTop>,
) -> Seq<Seq<char>> {
    seq![
        "main_arena:"@,
        "    addr:        "@ + arena.addr@,
        "    source:      "@ + arena.source@,
    ] + text::opt_line("    offset:      "@, text::opt(arena.offset)) + (match top {
        Some(t) => arena_view_top_lines(t),
        None => Seq::empty(),
    })
}

fn replay_arena_view_top(top: &JsonMainArenaViewTop) -> (r: Lines)
    ensures
        r@ == arena_view_top_lines(*top),
{
    let mut l = Lines::one("");
    l.push(owned("    top:"));
    l.push(cat2("        field:   ", top.field_offset.as_str()));
    l.push(cat2("        value:   ", top.value.as_str()));
    l.push(cat2("        size:    ", text::str_or(&top.size, "unknown")));
    l.push(cat2("        source:  ", top.source.as_str()));
    l.add_opt("        profile: ", &top.profile);
    l.add(Lines::one(cat2("        status:  ", top.status.as_str()).as_str()));
    l
}

pub fn format_replay_main_arena_view(
    arena: &JsonMainArenaViewArena,
    top: &Option<JsonMainArenaViewTop>,
    config: &ReplayConfig,
) -> (r: String)
    ensures
        r@ == unless(config.events_only, arena_view_lines(*arena, *top)),
{
    if config.events_only {
        return String::new();
    }
    let mut l = Lines::one("main_arena:");
    l.push(cat2("    addr:        ", arena.addr.as_str()));
    l.push(cat2("    source:      ", arena.source.as_str()));
    l.add_opt("    offset:      ", &arena.offset);
    l.add(
        match top {
            Some(t) => replay_arena_view_top(t),
            None => Lines::new(),
        },
    );
    assert(l@ =~= arena_view_lines(*arena, *top));
    l.unlines()
}

// ---------------------------------------------------------------------------
// Bins
// ---------------------------------------------------------------------------

impl Block for JsonUnsortedBinNode {
    open spec fn lines(&self) -> Seq<Seq<char>> {
        seq![
            "        "@ + self.chunk_addr@ + " size="@ + text::or_word(self.chunk_size, "unknown"@)
                + " fd="@ + self.fd@ + " bk="@ + self.bk@ + " known_freed="@
                + text::yes_no_unknown(self.known_freed),
        ]
    }

    fn block(&self) -> (r: Lines) {
        let mut l = Lines::new();
        l.push(
            cat7(
                "        ",
                self.chunk_addr.as_str(),
                " size=",
                text::str_or(&self.chunk_size, "unknown"),
                " fd=",
                self.fd.as_str(),
                " bk=",
            )
                .concat(self.bk.as_str())
                .concat(" known_freed=")
                .concat(text::format_yes_no_unknown(self.known_freed)),
        );
        l
    }
}

pub open spec fn unsorted_chain_lines(chain: Option<JsonUnsortedBinChain>) -> Seq<Seq<char>> {
    match chain {
        Some(c) => if c.empty {
            seq!["    chain: empty"@]
        } else {
            seq!["    chain:"@] + text::blocks(c.nodes@)
        },
        None => Seq::empty(),
    }
}

fn replay_unsorted_chain(chain: &Option<JsonUnsortedBinChain>) -> (r: Lines)
    ensures
        r@ == unsorted_chain_lines(*chain),
{
    match chain {
        Some(c) => if c.empty {
            Lines::one("    chain: empty")
        } else {
            let mut l = Lines::one("    chain:");
            l.add(text::format_blocks(&c.nodes));
            l
        },
        None => Lines::new(),
    }
}

pub open spec fn unsorted_bin_lines(
    arena_addr: Seq<char>,
    field_offset: Seq<char>,
    fd: Seq<char>,
    bk: Seq<char>,
    fd_points_into_heap: bool,
    bk_points_into_heap: bool,
    fd_known_freed: Option<bool>,
    bk_known_freed: Option<bool>,
    chain: Option<JsonUnsortedBinChain>,
) -> Seq<Seq<char>> {
    seq![
        "unsorted bin:"@,
        "    arena: "@ + arena_addr,
        "    offset: "@ + field_offset,
        "    fd: "@ + fd,
        "    bk: "@ + bk,
        "    fd_in_heap: "@ + text::yes_no(fd_points_into_heap),
        "    bk_in_heap: "@ + text::yes_no(bk_points_into_heap),
        "    fd_known_freed: "@ + text::yes_no_unknown(fd_known_freed),
        "    bk_known_freed: "@ + text::yes_no_unknown(bk_known_freed),
    ] + unsorted_chain_lines(chain)
}

pub fn format_replay_unsorted_bin(
    arena_addr: &str,
    field_offset: &str,
    fd: &str,
    bk: &str,
    fd_points_into_heap: bool,
    bk_points_into_heap: bool,
    fd_known_freed: Option<bool>,
    bk_known_freed: Option<bool>,
    chain: &Option<JsonUnsortedBinChain>,
    config: &ReplayConfig,
) -> (r: String)
    ensures
        r@ == unless(
            config.hides_state(),
            unsorted_bin_lines(
                arena_addr@,
                field_offset@,
                fd@,
                bk@,
                fd_points_into_heap,
                bk_points_into_heap,
                fd_known_freed,
                bk_known_freed,
                *chain,
            ),
        ),
{
    if config.is_hiding_state() {
        return String::new();
    }
    let mut l = Lines::one("unsorted bin:");
    l.push(cat2("    arena: ", arena_addr));
    l.push(cat2("    offset: ", field_offset));
    l.push(cat2("    fd: ", fd));
    l.push(cat2("    bk: ", bk));
    l.push(cat2("    fd_in_heap: ", text::format_yes_no(fd_points_into_heap)));
    l.push(cat2("    bk_in_heap: ", text::format_yes_no(bk_points_into_heap)));
    l.push(cat2("    fd_known_freed: ", text::format_yes_no_unknown(fd_known_freed)));
    l.push(cat2("    bk_known_freed: ", text::format_yes_no_unknown(bk_known_freed)));
    l.add(replay_unsorted_chain(chain));
    assert(l@ =~= unsorted_bin_lines(
        arena_addr@,
        field_offset@,
        fd@,
        bk@,
        fd_points_into_heap,
        bk_points_into_heap,
        fd_known_freed,
        bk_known_freed,
        *chain,
    ));
    l.unlines()
}

impl Block for JsonUnsortedBinValidation {
    open spec fn lines(&self) -> Seq<Seq<char>> {
        seq![
            "unsorted bin validation:"@,
            "    head_in_heap: "@ + self.head_in_heap@,
            "    fd_bk_consistent: "@ + self.fd_bk_consistent@,
            "    nodes_known_freed: "@ + self.nodes_known_freed@,
            "    chain_complete: "@ + self.chain_complete@,
            "    status: "@ + self.status@,
        ]
    }

    fn block(&self) -> (r: Lines) {
        let mut l = Lines::new();
        l.push(owned("unsorted bin validation:"));
        l.push(cat2("    head_in_heap: ", self.head_in_heap.as_str()));
        l.push(cat2("    fd_bk_consistent: ", self.fd_bk_consistent.as_str()));
        l.push(cat2("    nodes_known_freed: ", self.nodes_known_freed.as_str()));
        l.push(cat2("    chain_complete: ", self.chain_complete.as_str()));
        l.push(cat2("    status: ", self.status.as_str()));
        l
    }
}

pub fn format_replay_unsorted_bin_validation(
    validation: &JsonUnsortedBinValidation,
    config: &ReplayConfig,
) -> (r: String)
    ensures
        r@ == unless(config.hides_state(), validation.lines()),
{
    if config.is_hiding_state() {
        return String::new();
    }
    validation.block().unlines()
}

/// How a fastbin list ends.
pub open spec fn fastbin_chain_end(
    truncated: bool,
    stopped_on_unknown_next: bool,
    cycle_detected: bool,
) -> Seq<char> {
    if cycle_detected { "... cycle"@ } else { chain_end(truncated, stopped_on_unknown_next) }
}

/// The entries of a fastbin list with arrows between them, and how it ends.
pub fn format_fastbin_chain_entries(
    entries: &Vec<String>,
    truncated: bool,
    stopped_on_unknown_next: bool,
    cycle_detected: bool,
) -> (r: String)
    ensures
        r@ == chain_text(
            text::texts(entries@),
            fastbin_chain_end(truncated, stopped_on_unknown_next, cycle_detected),
        ),
{
    if cycle_detected {
        format_chain(entries, "... cycle")
    } else {
        format_chain(entries, format_chain_end(truncated, stopped_on_unknown_next))
    }
}

impl Block for JsonFastbinNode {
    open spec fn lines(&self) -> Seq<Seq<char>> {
        seq![self.chunk_addr@]
    }

    fn block(&self) -> (r: Lines) {
        Lines::one(self.chunk_addr.as_str())
    }
}

pub open spec fn fastbin_chain_text(chain: JsonFastbinChain) -> Seq<char> {
    chain_text(
        text::blocks(chain.nodes@),
        fastbin_chain_end(chain.truncated, chain.stopped_on_unknown_next, chain.cycle_detected),
    )
}

pub fn format_json_fastbin_chain(chain: &JsonFastbinChain) -> (r: String)
    ensures
        r@ == fastbin_chain_text(*chain),
{
    let entries = text::format_blocks(&chain.nodes);
    format_fastbin_chain_entries(
        &entries.items,
        chain.truncated,
        chain.stopped_on_unknown_next,
        chain.cycle_detected,
    )
}

/// The first chain of the given bin index.
pub open spec fn chain_of_index(chains: Seq<JsonFastbinChain>, index: usize) -> Option<
    JsonFastbinChain,
>
    decreases chains.len(),
{
    if chains.len() == 0 {
        None
    } else if chains[0].index == index {
        Some(chains[0])
    } else {
        chain_of_index(chains.skip(1), index)
    }
}

pub open spec fn fastbin_head_lines(
    head: JsonFastbinHead,
    chains: Seq<JsonFastbinChain>,
) -> Seq<Seq<char>> {
    if head.head@ == "0x0"@ {
        seq!["    bin["@ + text::dec(head.index as nat) + "] size="@ + head.chunk_size@ + " head=0x0"@]
    } else {
        seq![
            "    bin["@ + text::dec(head.index as nat) + "] size="@ + head.chunk_size@ + " head="@
                + head.head@ + " in_heap="@ + text::yes_no(head.points_into_heap) + " known_freed="@
                + text::yes_no_unknown(head.known_freed),
        ] + (match chain_of_index(chains, head.index) {
            Some(chain) => seq!["        chain: "@ + fastbin_chain_text(chain)],
            None => Seq::empty(),
        })
    }
}

pub open spec fn fastbin_heads_lines(
    heads: Seq<JsonFastbinHead>,
    chains: Seq<JsonFastbinChain>,
) -> Seq<Seq<char>>
    decreases heads.len(),
{
    if heads.len() == 0 {
        Seq::empty()
    } else {
        fastbin_heads_lines(heads.drop_last(), chains) + fastbin_head_lines(heads.last(), chains)
    }
}

fn find_chain(chains: &Vec<JsonFastbinChain>, index: usize) -> (r: Option<&JsonFastbinChain>)
    ensures
        match (r, chain_of_index(chains@, index)) {
            (Some(c), Some(m)) => *c == m,
            (None, None) => true,
            _ => false,
        },
{
    let mut i: usize = 0;
    assert(chains@.skip(0) =~= chains@);
    while i < chains.len()
        invariant
            i <= chains.len(),
            chain_of_index(chains@, index) == chain_of_index(chains@.skip(i as int), index),
        decreases chains.len() - i,
    {
        assert(chains@.skip(i as int)[0] == chains@[i as int]);
        if chains[i].index == index {
            return Some(&chains[i]);
        }
        assert(chains@.skip(i as int).skip(1) =~= chains@.skip(i + 1));
        i = i + 1;
    }
    None
}

fn replay_fastbin_head(head: &JsonFastbinHead, chains: &Vec<JsonFastbinChain>) -> (r: Lines)
    ensures
        r@ == fastbin_head_lines(*head, chains@),
{
    let mut l = Lines::new();
    if same(head.head.as_str(), "0x0") {
        l.push(
            cat5(
                "    bin[",
                text::format_dec_usize(head.index).as_str(),
                "] size=",
                head.chunk_size.as_str(),
                " head=0x0",
            ),
        );
    } else {
        l.push(
            cat7(
                "    bin[",
                text::format_dec_usize(head.index).as_str(),
                "] size=",
                head.chunk_size.as_str(),
                " head=",
                head.head.as_str(),
                " in_heap=",
            )
                .concat(text::format_yes_no(head.points_into_heap))
                .concat(" known_freed=")
                .concat(text::format_yes_no_unknown(head.known_freed)),
        );
        l.add(
            match find_chain(chains, head.index) {
                Some(chain) => Lines::one(
                    cat2("        chain: ", format_json_fastbin_chain(chain).as_str()).as_str(),
                ),
                None => Lines::new(),
            },
        );
    }
    l
}

pub open spec fn fastbins_lines(
    arena_addr: Seq<char>,
    heads: Seq<JsonFastbinHead>,
    chains: Seq<JsonFastbinChain>,
) -> Seq<Seq<char>> {
    seq!["fastbins:"@, "    arena: "@ + arena_addr] + fastbin_heads_lines(heads, chains)
}

pub fn format_replay_fastbins(
    arena_addr: &str,
    heads: &Vec<JsonFastbinHead>,
    chains: &Vec<JsonFastbinChain>,
    config: &ReplayConfig,
) -> (r: String)
    ensures
        r@ == unless(config.hides_state(), fastbins_lines(arena_addr@, heads@, chains@)),
{
    if config.is_hiding_state() {
        return String::new();
    }
    let mut rows = Lines::new();
    let mut i: usize = 0;
    assert(heads@.take(0) =~= Seq::empty());
    while i < heads.len()
        invariant
            i <= heads.len(),
            rows@ == fastbin_heads_lines(heads@.take(i as int), chains@),
        decreases heads.len() - i,
    {
        rows.add(replay_fastbin_head(&heads[i], chains));
        proof {
            assert(heads@.take(i + 1).drop_last() =~= heads@.take(i as int));
            assert(heads@.take(i + 1).last() == heads@[i as int]);
        }
        i = i + 1;
    }
    assert(heads@.take(heads.len() as int) =~= heads@);
    let mut l = Lines::one("fastbins:");
    l.push(cat2("    arena: ", arena_addr));
    l.add(rows);
    assert(l@ =~= fastbins_lines(arena_addr@, heads@, chains@));
    l.unlines()
}

impl Block for JsonFastbinBinValidation {
    open spec fn lines(&self) -> Seq<Seq<char>> {
        seq![
            "    bin["@ + text::dec(self.index as nat) + "] size="@ + self.chunk_size@ + ":"@,
            "        head_in_heap: "@ + self.head_in_heap@,
            "        nodes_same_size: "@ + self.nodes_same_size@,
            "        nodes_known_freed: "@ + self.nodes_known_freed@,
            "        chain_complete: "@ + self.chain_complete@,
            "        status: "@ + self.status@,
        ]
    }

    fn block(&self) -> (r: Lines) {
        let mut l = Lines::new();
        l.push(
            cat5(
                "    bin[",
                text::format_dec_usize(self.index).as_str(),
                "] size=",
                self.chunk_size.as_str(),
                ":",
            ),
        );
        l.push(cat2("        head_in_heap: ", self.head_in_heap.as_str()));
        l.push(cat2("        nodes_same_size: ", self.nodes_same_size.as_str()));
        l.push(cat2("        nodes_known_freed: ", self.nodes_known_freed.as_str()));
        l.push(cat2("        chain_complete: ", self.chain_complete.as_str()));
        l.push(cat2("        status: ", self.status.as_str()));
        l
    }
}

pub fn format_replay_fastbin_validation(
    validations: &Vec<JsonFastbinBinValidation>,
    config: &ReplayConfig,
) -> (r: String)
    ensures
        r@ == unless(
            config.hides_state(),
            seq!["fastbin validation:"@] + text::blocks(validations@),
        ),
{
    if config.is_hiding_state() {
        return String::new();
    }
    let mut l = Lines::one("fastbin validation:");
    l.add(text::format_blocks(validations));
    l.unlines()
}

/// A chunk size as a suffix, where there is one.
pub open spec fn chunk_size_suffix(size: Option<String>) -> Seq<char> {
    match size {
        Some(s) => " chunk_size="@ + s@,
        None => Seq::empty(),
    }
}

fn format_chunk_size_suffix(size: &Option<String>) -> (r: String)
    ensures
        r@ == chunk_size_suffix(*size),
{
    match size {
        Some(s) => cat2(" chunk_size=", s.as_str()),
        None => String::new(),
    }
}

impl Block for JsonRegularBinHead {
    open spec fn lines(&self) -> Seq<Seq<char>> {
        seq![
            "    bin["@ + text::dec(self.index as nat) + "] glibc_bin_index="@
                + text::dec(self.glibc_bin_index as nat) + " role="@ + self.role@
                + chunk_size_suffix(self.chunk_size) + " fd="@ + self.fd@ + " bk="@ + self.bk@
                + " empty="@ + text::yes_no(self.empty) + " fd_in_heap="@
                + text::yes_no(self.fd_points_into_heap) + " bk_in_heap="@
                + text::yes_no(self.bk_points_into_heap),
        ]
    }

    fn block(&self) -> (r: Lines) {
        let mut l = Lines::new();
        l.push(
            cat7(
                "    bin[",
                text::format_dec_usize(self.index).as_str(),
                "] glibc_bin_index=",
                text::format_dec_usize(self.glibc_bin_index).as_str(),
                " role=",
                self.role.as_str(),
                format_chunk_size_suffix(&self.chunk_size).as_str(),
            )
                .concat(" fd=")
                .concat(self.fd.as_str())
                .concat(" bk=")
                .concat(self.bk.as_str())
                .concat(" empty=")
                .concat(text::format_yes_no(self.empty))
                .concat(" fd_in_heap=")
                .concat(text::format_yes_no(self.fd_points_into_heap))
                .concat(" bk_in_heap=")
                .concat(text::format_yes_no(self.bk_points_into_heap)),
        );
        l
    }
}

/// The heading of a bin listing.
pub open spec fn bins_heading(title: Seq<char>, arena_addr: Seq<char>, bins_offset: Seq<char>) -> Seq<
    Seq<char>,
> {
    seq![title, "    arena: "@ + arena_addr, "    bins_offset: "@ + bins_offset]
}

fn format_bins_heading(title: &str, arena_addr: &str, bins_offset: &str) -> (r: Lines)
    ensures
        r@ == bins_heading(title@, arena_addr@, bins_offset@),
{
    let mut l = Lines::one(title);
    l.push(cat2("    arena: ", arena_addr));
    l.push(cat2("    bins_offset: ", bins_offset));
    l
}

pub fn format_replay_regular_bins(
    arena_addr: &str,
    bins_offset: &str,
    heads: &Vec<JsonRegularBinHead>,
    config: &ReplayConfig,
) -> (r: String)
    ensures
        r@ == unless(
            config.hides_state(),
            bins_heading("regular bins:"@, arena_addr@, bins_offset@) + text::blocks(heads@),
        ),
{
    if config.is_hiding_state() {
        return String::new();
    }
    let mut l = format_bins_heading("regular bins:", arena_addr, bins_offset);
    l.add(text::format_blocks(heads));
    l.unlines()
}

impl Block for JsonSmallbinNode {
    open spec fn lines(&self) -> Seq<Seq<char>> {
        seq![
            "            "@ + self.chunk_addr@ + " size="@
                + text::or_word(self.chunk_size, "unknown"@) + " fd="@ + self.fd@ + " bk="@
                + self.bk@ + " known_freed="@ + text::yes_no_unknown(self.known_freed),
        ]
    }

    fn block(&self) -> (r: Lines) {
        let mut l = Lines::new();
        l.push(
            cat7(
                "            ",
                self.chunk_addr.as_str(),
                " size=",
                text::str_or(&self.chunk_size, "unknown"),
                " fd=",
                self.fd.as_str(),
                " bk=",
            )
                .concat(self.bk.as_str())
                .concat(" known_freed=")
                .concat(text::format_yes_no_unknown(self.known_freed)),
        );
        l
    }
}

impl Block for JsonLargebinNode {
    open spec fn lines(&self) -> Seq<Seq<char>> {
        seq![
            "            "@ + self.chunk_addr@ + " size="@
                + text::or_word(self.chunk_size, "unknown"@) + " fd="@ + self.fd@ + " bk="@
                + self.bk@ + " fd_nextsize="@ + self.fd_nextsize@ + " bk_nextsize="@
                + self.bk_nextsize@ + " known_freed="@ + text::yes_no_unknown(self.known_freed),
        ]
    }

    fn block(&self) -> (r: Lines) {
        let mut l = Lines::new();
        l.push(
            cat7(
                "            ",
                self.chunk_addr.as_str(),
                " size=",
                text::str_or(&self.chunk_size, "unknown"),
                " fd=",
                self.fd.as_str(),
                " bk=",
            )
                .concat(self.bk.as_str())
                .concat(" fd_nextsize=")
                .concat(self.fd_nextsize.as_str())
                .concat(" bk_nextsize=")
                .concat(self.bk_nextsize.as_str())
                .concat(" known_freed=")
                .concat(text::format_yes_no_unknown(self.known_freed)),
        );
        l
    }
}

impl Block for JsonSmallbinChain {
    open spec fn lines(&self) -> Seq<Seq<char>> {
        if self.empty {
            Seq::empty()
        } else {
            seq![
                "    bin["@ + text::dec(self.glibc_bin_index as nat) + "] size="@
                    + self.expected_chunk_size@ + ":"@,
                "        chain:"@,
            ] + text::blocks(self.nodes@)
        }
    }

    fn block(&self) -> (r: Lines) {
        if self.empty {
            Lines::new()
        } else {
            let mut l = Lines::new();
            l.push(
                cat5(
                    "    bin[",
                    text::format_dec_usize(self.glibc_bin_index).as_str(),
                    "] size=",
                    self.expected_chunk_size.as_str(),
                    ":",
                ),
            );
            l.push(owned("        chain:"));
            l.add(text::format_blocks(&self.nodes));
            l
        }
    }
}

impl Block for JsonLargebinChain {
    open spec fn lines(&self) -> Seq<Seq<char>> {
        if self.empty {
            Seq::empty()
        } else {
            seq!["    bin["@ + text::dec(self.glibc_bin_index as nat) + "]:"@, "        chain:"@] + text::blocks(
                self.nodes@,
            )
        }
    }

    fn block(&self) -> (r: Lines) {
        if self.empty {
            Lines::new()
        } else {
            let mut l = Lines::new();
            l.push(cat3("    bin[", text::format_dec_usize(self.glibc_bin_index).as_str(), "]:"));
            l.push(owned("        chain:"));
            l.add(text::format_blocks(&self.nodes));
            l
        }
    }
}

pub open spec fn all_smallbins_empty(chains: Seq<JsonSmallbinChain>) -> bool {
    forall|i: int| 0 <= i < chains.len() ==> (#[trigger] chains[i]).empty
}

pub open spec fn all_largebins_empty(chains: Seq<JsonLargebinChain>) -> bool {
    forall|i: int| 0 <= i < chains.len() ==> (#[trigger] chains[i]).empty
}

pub open spec fn smallbins_lines(
    arena_addr: Seq<char>,
    bins_offset: Seq<char>,
    chains: Seq<JsonSmallbinChain>,
) -> Seq<Seq<char>> {
    bins_heading("smallbins:"@, arena_addr, bins_offset) + (if all_smallbins_empty(chains) {
        seq!["    all smallbins empty"@]
    } else {
        text::blocks(chains)
    })
}

pub fn format_replay_smallbins(
    arena_addr: &str,
    bins_offset: &str,
    chains: &Vec<JsonSmallbinChain>,
    config: &ReplayConfig,
) -> (r: String)
    ensures
        r@ == unless(config.hides_state(), smallbins_lines(arena_addr@, bins_offset@, chains@)),
{
    if config.is_hiding_state() {
        return String::new();
    }
    let mut i: usize = 0;
    while i < chains.len() && chains[i].empty
        invariant
            i <= chains.len(),
            forall|k: int| 0 <= k < i ==> (#[trigger] chains@[k]).empty,
        decreases chains.len() - i,
    {
        i = i + 1;
    }
    let mut l = format_bins_heading("smallbins:", arena_addr, bins_offset);
    if i == chains.len() {
        assert(all_smallbins_empty(chains@));
        l.add(Lines::one("    all smallbins empty"));
    } else {
        assert(!chains@[i as int].empty);
        l.add(text::format_blocks(chains));
    }
    l.unlines()
}

pub open spec fn largebins_lines(
    arena_addr: Seq<char>,
    bins_offset: Seq<char>,
    chains: Seq<JsonLargebinChain>,
) -> Seq<Seq<char>> {
    bins_heading("largebins:"@, arena_addr, bins_offset) + (if all_largebins_empty(chains) {
        seq!["    all largebins empty"@]
    } else {
        text::blocks(chains)
    })
}

pub fn format_replay_largebins(
    arena_addr: &str,
    bins_offset: &str,
    chains: &Vec<JsonLargebinChain>,
    config: &ReplayConfig,
) -> (r: String)
    ensures
        r@ == unless(config.hides_state(), largebins_lines(arena_addr@, bins_offset@, chains@)),
{
    if config.is_hiding_state() {
        return String::new();
    }
    let mut i: usize = 0;
    while i < chains.len() && chains[i].empty
        invariant
            i <= chains.len(),
            forall|k: int| 0 <= k < i ==> (#[trigger] chains@[k]).empty,
        decreases chains.len() - i,
    {
        i = i + 1;
    }
    let mut l = format_bins_heading("largebins:", arena_addr, bins_offset);
    if i == chains.len() {
        assert(all_largebins_empty(chains@));
        l.add(Lines::one("    all largebins empty"));
    } else {
        assert(!chains@[i as int].empty);
        l.add(text::format_blocks(chains));
    }
    l.unlines()
}

impl Block for JsonSmallbinBinValidation {
    open spec fn lines(&self) -> Seq<Seq<char>> {
        seq![
            "    bin["@ + text::dec(self.glibc_bin_index as nat) + "] size="@
                + self.expected_chunk_size@ + ":"@,
            "        head_in_heap: "@ + self.head_in_heap@,
            "        nodes_same_size: "@ + self.nodes_same_size@,
            "        fd_bk_consistent: "@ + self.fd_bk_consistent@,
            "        nodes_known_freed: "@ + self.nodes_known_freed@,
            "        chain_complete: "@ + self.chain_complete@,
            "        status: "@ + self.status@,
        ]
    }

    fn block(&self) -> (r: Lines) {
        let mut l = Lines::new();
        l.push(
            cat5(
                "    bin[",
                text::format_dec_usize(self.glibc_bin_index).as_str(),
                "] size=",
                self.expected_chunk_size.as_str(),
                ":",
            ),
        );
        l.push(cat2("        head_in_heap: ", self.head_in_heap.as_str()));
        l.push(cat2("        nodes_same_size: ", self.nodes_same_size.as_str()));
        l.push(cat2("        fd_bk_consistent: ", self.fd_bk_consistent.as_str()));
        l.push(cat2("        nodes_known_freed: ", self.nodes_known_freed.as_str()));
        l.push(cat2("        chain_complete: ", self.chain_complete.as_str()));
        l.push(cat2("        status: ", self.status.as_str()));
        l
    }
}

impl Block for JsonLargebinBinValidation {
    open spec fn lines(&self) -> Seq<Seq<char>> {
        seq![
            "    bin["@ + text::dec(self.glibc_bin_index as nat) + "]:"@,
            "        head_in_heap: "@ + self.head_in_heap@,
            "        fd_bk_consistent: "@ + self.fd_bk_consistent@,
            "        nodes_known_freed: "@ + self.nodes_known_freed@,
            "        chain_complete: "@ + self.chain_complete@,
            "        status: "@ + self.status@,
        ]
    }

    fn block(&self) -> (r: Lines) {
        let mut l = Lines::new();
        l.push(cat3("    bin[", text::format_dec_usize(self.glibc_bin_index).as_str(), "]:"));
        l.push(cat2("        head_in_heap: ", self.head_in_heap.as_str()));
        l.push(cat2("        fd_bk_consistent: ", self.fd_bk_consistent.as_str()));
        l.push(cat2("        nodes_known_freed: ", self.nodes_known_freed.as_str()));
        l.push(cat2("        chain_complete: ", self.chain_complete.as_str()));
        l.push(cat2("        status: ", self.status.as_str()));
        l
    }
}

pub fn format_replay_smallbin_validation(
    validations: &Vec<JsonSmallbinBinValidation>,
    config: &ReplayConfig,
) -> (r: String)
    ensures
        r@ == titled("smallbin validation:"@, validations@, config.hides_state()),
{
    format_titled("smallbin validation:", validations, config.is_hiding_state())
}

pub fn format_replay_largebin_validation(
    validations: &Vec<JsonLargebinBinValidation>,
    config: &ReplayConfig,
) -> (r: String)
    ensures
        r@ == titled("largebin validation:"@, validations@, config.hides_state()),
{
    format_titled("largebin validation:", validations, config.is_hiding_state())
}

} // verus!
