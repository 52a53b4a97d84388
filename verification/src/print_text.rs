//! What a trace prints while the target runs. Most records are printed as their replay shows
//! them; the heap layout, the small and large bins and the heap scan have forms of their own.

use crate::config::RenderConfig;
use crate::record::{
    JsonHeapScanReport, JsonLargebinChain, JsonLayoutChunk, JsonSmallbinChain,
    JsonTcacheSnapshotCandidate, JsonTraceRecord,
};
use crate::record_text;
use crate::record_text::{format_finding_line, format_scan_head};
use crate::replay;
use crate::replay_text;
use crate::replay_text::{format_replay_flags, ReplayConfig};
use crate::text;
use crate::text::{cat2, cat3, cat4, cat6, cat7, owned, same, Lines};
use vstd::prelude::*;

verus! {

// ---------------------------------------------------------------------------
// Heap layout
// ---------------------------------------------------------------------------

/// The free list that holds a chunk, behind its line.
pub open spec fn layout_source(chunk: JsonLayoutChunk) -> Seq<char> {
    match chunk.allocator_source {
        Some(source) => if source.kind@ == "tcache_candidate"@ {
            " tcache_candidate=size["@ + source.chunk_size@ + "] index="@
                + text::dec(source.index as nat)
        } else if source.kind@ == "unsorted"@ {
            " source=unsorted index="@ + text::dec(source.index as nat)
        } else {
            " source="@ + source.kind@ + "["@ + source.chunk_size@ + "] index="@
                + text::dec(source.index as nat)
        },
        None => match chunk.tcache_candidate {
            Some(m) =>
                " tcache_candidate=size["@ + m.chunk_size@ + "] index="@ + text::dec(
                    m.index as nat,
                ),
            None => Seq::empty(),
        },
    }
}

pub fn format_layout_allocator_annotation(chunk: &JsonLayoutChunk) -> (r: String)
    ensures
        r@ == layout_source(*chunk),
{
    match &chunk.allocator_source {
        Some(source) => if same(source.kind.as_str(), "tcache_candidate") {
            cat4(
                " tcache_candidate=size[",
                source.chunk_size.as_str(),
                "] index=",
                text::format_dec_usize(source.index).as_str(),
            )
        } else if same(source.kind.as_str(), "unsorted") {
            cat2(" source=unsorted index=", text::format_dec_usize(source.index).as_str())
        } else {
            cat6(
                " source=",
                source.kind.as_str(),
                "[",
                source.chunk_size.as_str(),
                "] index=",
                text::format_dec_usize(source.index).as_str(),
            )
        },
        None => match &chunk.tcache_candidate {
            Some(m) =>
                cat4(
                    " tcache_candidate=size[",
                    m.chunk_size.as_str(),
                    "] index=",
                    text::format_dec_usize(m.index).as_str(),
                ),
            None => String::new(),
        },
    }
}

pub open spec fn layout_line(chunk: JsonLayoutChunk) -> Seq<char> {
    "    "@ + chunk.chunk_addr@ + " user="@ + chunk.user_addr@ + " size="@ + chunk.size@ + " flags="@
        + replay_text::flags_text(chunk.flags@) + " state="@ + chunk.state@ + layout_source(chunk)
}

fn format_layout_line(chunk: &JsonLayoutChunk) -> (r: String)
    ensures
        r@ == layout_line(*chunk),
{
    cat7(
        "    ",
        chunk.chunk_addr.as_str(),
        " user=",
        chunk.user_addr.as_str(),
        " size=",
        chunk.size.as_str(),
        " flags=",
    ).concat(format_replay_flags(&chunk.flags).as_str()).concat(" state=").concat(
        chunk.state.as_str(),
    ).concat(format_layout_allocator_annotation(chunk).as_str())
}

/// A heap walk with at most `max_chunks` chunks shown.
pub open spec fn heap_snapshot_lines(
    chunks: Seq<JsonLayoutChunk>,
    truncated: bool,
    max_chunks: usize,
) -> Seq<Seq<char>> {
    let shown = if chunks.len() <= max_chunks {
        chunks.len()
    } else {
        max_chunks as nat
    };
    seq!["heap layout:"@] + text::when(max_chunks == 0, "    0 chunks shown"@) + Seq::new(
        shown,
        |i: int| layout_line(chunks[i]),
    ) + text::when(
        chunks.len() > max_chunks,
        "    ... "@ + text::dec((chunks.len() - shown) as nat) + " more chunks not shown"@,
    ) + text::when(truncated, "    ... heap walk truncated"@)
}

pub fn print_heap_snapshot(
    chunks: &Vec<JsonLayoutChunk>,
    truncated: bool,
    max_chunks: usize,
) -> (r: String)
    ensures
        r@ == text::unlines(heap_snapshot_lines(chunks@, truncated, max_chunks)),
{
    let shown: usize = if chunks.len() <= max_chunks {
        chunks.len()
    } else {
        max_chunks
    };
    let ghost want = Seq::new(shown as nat, |i: int| layout_line(chunks@[i]));
    let mut rows = Lines::new();
    let mut i: usize = 0;
    assert(want.take(0) =~= Seq::empty());
    while i < shown
        invariant
            i <= shown <= chunks.len(),
            want == Seq::new(shown as nat, |i: int| layout_line(chunks@[i])),
            rows@ == want.take(i as int),
        decreases shown - i,
    {
        rows.push(format_layout_line(&chunks[i]));
        assert(want.take(i + 1) =~= want.take(i as int).push(want[i as int]));
        i = i + 1;
    }
    assert(want.take(shown as int) =~= want);
    let mut l = Lines::one("heap layout:");
    l.add_when(max_chunks == 0, "    0 chunks shown");
    l.add(rows);
    if chunks.len() > max_chunks {
        l.push(
            cat3(
                "    ... ",
                text::format_dec_usize(chunks.len() - shown).as_str(),
                " more chunks not shown",
            ),
        );
    }
    l.add_when(truncated, "    ... heap walk truncated");
    assert(l@ =~= heap_snapshot_lines(chunks@, truncated, max_chunks));
    l.unlines()
}

/// What became of a heap walk.
#[derive(Debug, Clone, PartialEq, Eq)]
pub enum LayoutReading {
    NoMapping,
    Failed { error: String },
    Walked { chunks: Vec<JsonLayoutChunk>, truncated: bool },
}

/// The text of a heap walk, or why there is none.
pub fn print_heap_layout(reading: &LayoutReading, config: &RenderConfig) -> (r: String)
    ensures
        r@ == match *reading {
            LayoutReading::NoMapping => "heap layout unavailable: heap mapping not found"@,
            LayoutReading::Failed { error } => "heap layout unavailable: "@ + error@,
            LayoutReading::Walked { chunks, truncated } => text::unlines(
                heap_snapshot_lines(chunks@, truncated, config@.max_layout_chunks),
            ),
        },
{
    match reading {
        LayoutReading::NoMapping => owned("heap layout unavailable: heap mapping not found"),
        LayoutReading::Failed { error } => cat2("heap layout unavailable: ", error.as_str()),
        LayoutReading::Walked { chunks, truncated } => print_heap_snapshot(
            chunks,
            *truncated,
            config.max_layout_chunks,
        ),
    }
}

// ---------------------------------------------------------------------------
// Bins and scans
// ---------------------------------------------------------------------------

pub open spec fn smallbins_printed(arena_addr: Seq<char>, chains: Seq<JsonSmallbinChain>) -> Seq<
    Seq<char>,
> {
    seq!["smallbins:"@] + if replay_text::all_smallbins_empty(chains) {
        seq!["    all smallbins empty"@]
    } else {
        seq!["    arena: "@ + arena_addr] + text::blocks(chains)
    }
}

pub fn print_smallbins(arena_addr: &str, chains: &Vec<JsonSmallbinChain>) -> (r: String)
    ensures
        r@ == text::unlines(smallbins_printed(arena_addr@, chains@)),
{
    let mut i: usize = 0;
    while i < chains.len() && chains[i].empty
        invariant
            i <= chains.len(),
            forall|k: int| 0 <= k < i ==> (#[trigger] chains@[k]).empty,
        decreases chains.len() - i,
    {
        i = i + 1;
    }
    let mut l = Lines::one("smallbins:");
    if i == chains.len() {
        assert(replay_text::all_smallbins_empty(chains@));
        l.push(owned("    all smallbins empty"));
    } else {
        assert(!chains@[i as int].empty);
        l.push(cat2("    arena: ", arena_addr));
        l.add(text::format_blocks(chains));
    }
    assert(l@ =~= smallbins_printed(arena_addr@, chains@));
    l.unlines()
}

pub open spec fn largebins_printed(arena_addr: Seq<char>, chains: Seq<JsonLargebinChain>) -> Seq<
    Seq<char>,
> {
    seq!["largebins:"@] + if replay_text::all_largebins_empty(chains) {
        seq!["    all largebins empty"@]
    } else {
        seq!["    arena: "@ + arena_addr] + text::blocks(chains)
    }
}

pub fn print_largebins(arena_addr: &str, chains: &Vec<JsonLargebinChain>) -> (r: String)
    ensures
        r@ == text::unlines(largebins_printed(arena_addr@, chains@)),
{
    let mut i: usize = 0;
    while i < chains.len() && chains[i].empty
        invariant
            i <= chains.len(),
            forall|k: int| 0 <= k < i ==> (#[trigger] chains@[k]).empty,
        decreases chains.len() - i,
    {
        i = i + 1;
    }
    let mut l = Lines::one("largebins:");
    if i == chains.len() {
        assert(replay_text::all_largebins_empty(chains@));
        l.push(owned("    all largebins empty"));
    } else {
        assert(!chains@[i as int].empty);
        l.push(cat2("    arena: ", arena_addr));
        l.add(text::format_blocks(chains));
    }
    assert(l@ =~= largebins_printed(arena_addr@, chains@));
    l.unlines()
}

/// What became of reading the tcache structure.
#[derive(Debug, Clone, PartialEq, Eq)]
pub enum TcacheReading {
    Failed { error: String },
    Read { snapshot: JsonTcacheSnapshotCandidate },
}

/// The bins of the tcache structure, or why there are none.
pub fn print_tcache_snapshot_candidate(reading: &TcacheReading) -> (r: String)
    ensures
        r@ == match *reading {
            TcacheReading::Failed { error } => "tcache snapshot candidate: unavailable: "@
                + error@,
            TcacheReading::Read { snapshot } => text::unlines(
                replay_text::tcache_snapshot_lines(Some(snapshot)),
            ),
        },
{
    match reading {
        TcacheReading::Failed { error } => cat2(
            "tcache snapshot candidate: unavailable: ",
            error.as_str(),
        ),
        TcacheReading::Read { snapshot } => replay_text::format_tcache_snapshot(
            snapshot,
        ).unlines(),
    }
}

/// A heap scan with its findings, one line each.
pub open spec fn scan_printed(report: JsonHeapScanReport) -> Seq<Seq<char>> {
    record_text::scan_head_lines(report) + if report.findings@.len() == 0 {
        Seq::empty()
    } else {
        seq!["heap scan findings:"@] + Seq::new(
            report.findings@.len(),
            |i: int| record_text::finding_line(report.findings@[i]),
        )
    }
}

pub fn print_heap_scan_report(report: &JsonHeapScanReport) -> (r: String)
    ensures
        r@ == text::unlines(scan_printed(*report)),
{
    let mut l = format_scan_head(report);
    if report.findings.len() > 0 {
        let ghost want = Seq::new(
            report.findings@.len(),
            |i: int| record_text::finding_line(report.findings@[i]),
        );
        let mut f = Lines::new();
        let mut i: usize = 0;
        assert(want.take(0) =~= Seq::empty());
        while i < report.findings.len()
            invariant
                i <= report.findings.len(),
                want == Seq::new(
                    report.findings@.len(),
                    |i: int| record_text::finding_line(report.findings@[i]),
                ),
                f@ == want.take(i as int),
            decreases report.findings.len() - i,
        {
            f.push(format_finding_line(&report.findings[i]));
            assert(want.take(i + 1) =~= want.take(i as int).push(want[i as int]));
            i = i + 1;
        }
        assert(want.take(want.len() as int) =~= want);
        l.push(owned("heap scan findings:"));
        l.add(f);
    }
    assert(l@ =~= scan_printed(*report));
    l.unlines()
}

// ---------------------------------------------------------------------------
// Records
// ---------------------------------------------------------------------------

pub open spec fn everything() -> ReplayConfig {
    ReplayConfig { events_only: false, show_chunks: true, tui: false }
}

/// The heap layout of a record, which holds the first chunks of a heap walk: as many as the
/// limit on shown chunks left.
pub open spec fn layout_printed(
    chunks: Seq<JsonLayoutChunk>,
    truncated: bool,
    chunks_omitted: usize,
    max_chunks: usize,
) -> Seq<Seq<char>> {
    seq!["heap layout:"@] + text::when(max_chunks == 0, "    0 chunks shown"@) + Seq::new(
        chunks.len(),
        |i: int| layout_line(chunks[i]),
    ) + text::when(
        chunks_omitted > 0,
        "    ... "@ + text::dec(chunks_omitted as nat) + " more chunks not shown"@,
    ) + text::when(truncated, "    ... heap walk truncated"@)
}

/// What a trace prints for a record of an event, with at most `max_chunks` chunks of a layout.
pub open spec fn printed(record: JsonTraceRecord, max_chunks: usize) -> Seq<char> {
    match record {
        JsonTraceRecord::HeapLayout { chunks, truncated, chunks_omitted, .. } => text::unlines(
            layout_printed(chunks@, truncated, chunks_omitted, max_chunks),
        ),
        JsonTraceRecord::Smallbins { arena_addr, chains, .. } => text::unlines(
            smallbins_printed(arena_addr@, chains@),
        ),
        JsonTraceRecord::Largebins { arena_addr, chains, .. } => text::unlines(
            largebins_printed(arena_addr@, chains@),
        ),
        JsonTraceRecord::HeapScan { report, .. } => text::unlines(scan_printed(report)),
        _ => replay::body_text(record, everything()),
    }
}

fn print_layout_record(
    chunks: &Vec<JsonLayoutChunk>,
    truncated: bool,
    chunks_omitted: usize,
    max_chunks: usize,
) -> (r: String)
    ensures
        r@ == text::unlines(layout_printed(chunks@, truncated, chunks_omitted, max_chunks)),
{
    let ghost want = Seq::new(chunks@.len(), |i: int| layout_line(chunks@[i]));
    let mut l = Lines::one("heap layout:");
    l.add_when(max_chunks == 0, "    0 chunks shown");
    let ghost head = l@;
    let mut i: usize = 0;
    assert(l@ =~= head + want.take(0));
    while i < chunks.len()
        invariant
            i <= chunks.len(),
            want == Seq::new(chunks@.len(), |i: int| layout_line(chunks@[i])),
            l@ == head + want.take(i as int),
        decreases chunks.len() - i,
    {
        l.push(format_layout_line(&chunks[i]));
        assert(l@ =~= head + want.take(i + 1));
        i = i + 1;
    }
    assert(want.take(want.len() as int) =~= want);
    l.add_when(
        chunks_omitted > 0,
        cat3(
            "    ... ",
            text::format_dec_usize(chunks_omitted).as_str(),
            " more chunks not shown",
        ).as_str(),
    );
    l.add_when(truncated, "    ... heap walk truncated");
    l.unlines()
}

pub fn print_record(record: &JsonTraceRecord, max_chunks: usize) -> (r: String)
    ensures
        r@ == printed(*record, max_chunks),
{
    match record {
        JsonTraceRecord::HeapLayout { chunks, truncated, chunks_omitted, .. } =>
            print_layout_record(chunks, *truncated, *chunks_omitted, max_chunks),
        JsonTraceRecord::Smallbins { arena_addr, chains, .. } => print_smallbins(
            arena_addr.as_str(),
            chains,
        ),
        JsonTraceRecord::Largebins { arena_addr, chains, .. } => print_largebins(
            arena_addr.as_str(),
            chains,
        ),
        JsonTraceRecord::HeapScan { report, .. } => print_heap_scan_report(report),
        _ => replay::render_replay_record(
            record,
            &ReplayConfig { events_only: false, show_chunks: true, tui: false },
        ),
    }
}

} // verus!
