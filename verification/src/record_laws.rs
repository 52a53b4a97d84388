//! What the text of each record of allocator state tells of the record.

use crate::record::JsonTraceRecord;
use crate::record_text;
use crate::replay::record_text_of;
use crate::replay_text;
use crate::replay_text::ReplayConfig;
use crate::text;
use crate::text::{begins_with_line, ends_with_line, shows, shows_line, Block};
use vstd::prelude::*;

verus! {

/// The word for a yes or no.
pub open spec fn said(value: bool) -> Seq<char> {
    if value { "yes"@ } else { "no"@ }
}

/// The word for a yes or no that may not be known.
pub open spec fn said_if_known(value: Option<bool>) -> Seq<char> {
    match value {
        Some(true) => "yes"@,
        Some(false) => "no"@,
        None => "unknown"@,
    }
}

/// A text, or a word where there is none.
pub open spec fn or_else(value: Option<String>, word: Seq<char>) -> Seq<char> {
    match value {
        Some(v) => v@,
        None => word,
    }
}

/// Whether allocator state is shown at all.
pub open spec fn state_shown(config: ReplayConfig) -> bool {
    config.show_chunks && !config.events_only
}

/// Allocator state has no text where chunks are hidden or only events are asked for; the arena
/// and the heap scan have none where only events are.
pub proof fn law_hidden_state_is_silent(record: JsonTraceRecord, config: ReplayConfig)
    requires
        !state_shown(config),
        record !is Event && record !is SessionStart && record !is SessionEnd,
    ensures
        config.events_only || !(record is MainArenaCandidate || record is MainArenaExperiment
            || record is MainArenaTopCandidate || record is MainArenaView || record is HeapScan)
            ==> record_text_of(record, config).len() == 0,
{
}

/// Every chunk of a heap layout has its line, with its addresses, its size and its state. A chunk
/// that a fastbin or a tcache list holds is marked with the list and the place in it, and no
/// other is.
pub proof fn law_layout_chunks_are_shown(record: JsonTraceRecord, config: ReplayConfig, i: int)
    requires
        record is HeapLayout,
        state_shown(config),
        0 <= i < record->HeapLayout_chunks@.len(),
    ensures
        ({
            let s = record_text_of(record, config);
            let x = record->HeapLayout_chunks@[i];
            let flags = replay_text::flags_text(x.flags@);
            let mark = match (x.allocator_source, x.tcache_candidate) {
                (Some(source), _) => if source.kind@ == "fastbin"@ {
                    " source=fastbin["@ + source.chunk_size@ + "] index="@ + text::dec(
                        source.index as nat,
                    )
                } else if source.kind@ == "tcache_candidate"@ {
                    " tcache_candidate=size["@ + source.chunk_size@ + "] index="@ + text::dec(
                        source.index as nat,
                    )
                } else {
                    observed_mark(record, i)
                },
                (None, _) => observed_mark(record, i),
            };
            &&& begins_with_line(s, "heap layout:"@)
            &&& shows_line(
                s,
                "    "@ + x.chunk_addr@ + " user="@ + x.user_addr@ + " size="@ + x.size@ + " flags="@
                    + flags + " state="@ + x.state@ + mark,
            )
        }),
{
    let x = record->HeapLayout_chunks@;
    let before = seq!["heap layout:"@];
    let lines = replay_text::heap_layout_lines(
        x,
        record->HeapLayout_truncated,
        record->HeapLayout_chunks_omitted,
    );
    let after = lines.skip(1 + text::blocks(x).len() as int);
    assert(lines =~= before + text::blocks(x) + after);
    text::lemma_shows_blocks(lines, before, x, after);
    text::lemma_text_ends(lines);
    assert(x[i].lines().len() == 1);
    assert(x[i].lines() =~= seq![x[i].lines()[0]]);
}

/// The mark of a chunk that an observed tcache list holds.
pub open spec fn observed_mark(record: JsonTraceRecord, i: int) -> Seq<char> {
    match record->HeapLayout_chunks@[i].tcache_candidate {
        Some(place) => " tcache_candidate=size["@ + place.chunk_size@ + "] index="@ + text::dec(
            place.index as nat,
        ),
        None => Seq::empty(),
    }
}

/// A heap layout says how many chunks it leaves out and whether the walk stopped early, and says
/// nothing of it where it is complete.
pub proof fn law_layout_says_what_is_left_out(record: JsonTraceRecord, config: ReplayConfig)
    requires
        record is HeapLayout,
        state_shown(config),
    ensures
        record->HeapLayout_chunks_omitted > 0 ==> shows_line(
            record_text_of(record, config),
            "    ... "@ + text::dec(record->HeapLayout_chunks_omitted as nat)
                + " more chunks not shown"@,
        ),
        record->HeapLayout_truncated ==> ends_with_line(
            record_text_of(record, config),
            "    ... heap walk truncated"@,
        ),
        record->HeapLayout_chunks_omitted == 0 && !record->HeapLayout_truncated
            ==> record_text_of(record, config) == text::unlines(
            seq!["heap layout:"@] + text::blocks(record->HeapLayout_chunks@),
        ),
{
    let x = record->HeapLayout_chunks@;
    let n = record->HeapLayout_chunks_omitted;
    let lines = replay_text::heap_layout_lines(x, record->HeapLayout_truncated, n);
    text::lemma_shows_lines(lines);
    text::lemma_text_ends(lines);
    if n > 0 {
        assert(lines[1 + text::blocks(x).len() as int] == "    ... "@ + text::dec(n as nat)
            + " more chunks not shown"@);
    }
    if n == 0 && !record->HeapLayout_truncated {
        assert(lines =~= seq!["heap layout:"@] + text::blocks(x));
    }
}

/// The end of a list that was followed: why it stopped, or that it is complete.
pub open spec fn list_end(cycle: bool, truncated: bool, unknown: bool) -> Seq<char> {
    if cycle {
        "... cycle"@
    } else if truncated {
        "... truncated"@
    } else if unknown {
        "?"@
    } else {
        "NULL"@
    }
}

/// A list of nodes ends as it should, after the last of its nodes.
proof fn lemma_chain(entries: Seq<Seq<char>>, end: Seq<char>)
    ensures
        entries.len() == 0 ==> replay_text::chain_text(entries, end) == end,
        entries.len() > 0 ==> replay_text::chain_text(entries, end) == text::join(entries, " -> "@)
            + " -> "@ + end,
{
    assert(entries.push(end).drop_last() =~= entries);
}

/// An observed tcache list is shown by its size class, its chunks in order with arrows between
/// them, and how it ends.
pub proof fn law_observed_lists_are_shown(record: JsonTraceRecord, config: ReplayConfig, i: int)
    requires
        record is ObservedTcacheChains,
        state_shown(config),
        0 <= i < record->ObservedTcacheChains_chains@.len(),
    ensures
        ({
            let s = record_text_of(record, config);
            let x = record->ObservedTcacheChains_chains@[i];
            let end = list_end(false, x.truncated, x.stopped_on_unknown_next);
            &&& begins_with_line(s, "observed tcache candidates:"@)
            &&& shows_line(
                s,
                "    size "@ + x.chunk_size@ + ": "@ + (if x.entries@.len() == 0 {
                    end
                } else {
                    text::join(text::texts(x.entries@), " -> "@) + " -> "@ + end
                }),
            )
        }),
{
    reveal_strlit("    size ");
    reveal_strlit("    ");
    reveal_strlit("size ");
    let x = record->ObservedTcacheChains_chains@;
    let before = seq!["observed tcache candidates:"@];
    let lines = before + text::blocks(x);
    let end = list_end(false, x[i].truncated, x[i].stopped_on_unknown_next);
    assert(lines =~= before + text::blocks(x) + Seq::<Seq<char>>::empty());
    text::lemma_shows_blocks(lines, before, x, Seq::empty());
    text::lemma_text_ends(lines);
    lemma_chain(text::texts(x[i].entries@), end);
    assert("    size "@ =~= "    "@ + "size "@);
    assert(x[i].lines() =~= seq![
        "    size "@ + x[i].chunk_size@ + ": "@ + (if x[i].entries@.len() == 0 {
            end
        } else {
            text::join(text::texts(x[i].entries@), " -> "@) + " -> "@ + end
        }),
    ]) by {
        assert(x[i].lines()[0] =~= "    size "@ + x[i].chunk_size@ + ": "@ + (
        if x[i].entries@.len() == 0 {
            end
        } else {
            text::join(text::texts(x[i].entries@), " -> "@) + " -> "@ + end
        }));
    }
}

/// A tcache structure is shown by its chunk and the reason to take it for one, and then by its
/// bins.
pub proof fn law_tcache_struct_is_shown(record: JsonTraceRecord, config: ReplayConfig)
    requires
        record is TcacheStructCandidate,
        state_shown(config),
    ensures
        ({
            let s = record_text_of(record, config);
            let x = record->TcacheStructCandidate_candidate;
            &&& shows(
                s,
                seq![
                    "tcache struct candidate:"@,
                    "    chunk:  "@ + x.chunk_addr@,
                    "    user:   "@ + x.user_addr@,
                    "    size:   "@ + x.size@,
                    "    reason: "@ + x.reason@,
                ],
            )
            &&& match record->TcacheStructCandidate_snapshot {
                Some(snapshot) => forall|i: int|
                    0 <= i < snapshot.bins@.len() ==> shows_line(
                        s,
                        tcache_bin_line(#[trigger] snapshot.bins@[i]),
                    ),
                None => true,
            }
        }),
{
    let x = record->TcacheStructCandidate_candidate;
    let rest = replay_text::tcache_snapshot_lines(record->TcacheStructCandidate_snapshot);
    let lines = x.lines() + rest;
    let own = seq![
        "tcache struct candidate:"@,
        "    chunk:  "@ + x.chunk_addr@,
        "    user:   "@ + x.user_addr@,
        "    size:   "@ + x.size@,
        "    reason: "@ + x.reason@,
    ];
    text::lemma_shows_at(lines, 0, own);
    if let Some(snapshot) = record->TcacheStructCandidate_snapshot {
        if snapshot.bins@.len() > 0 {
            let before = x.lines() + seq!["tcache snapshot candidate:"@];
            assert(lines =~= before + text::blocks(snapshot.bins@) + Seq::<Seq<char>>::empty());
            text::lemma_shows_blocks(lines, before, snapshot.bins@, Seq::empty());
            assert forall|i: int| 0 <= i < snapshot.bins@.len() implies shows_line(
                text::unlines(lines),
                tcache_bin_line(#[trigger] snapshot.bins@[i]),
            ) by {
                assert(snapshot.bins@[i].lines() =~= seq![tcache_bin_line(snapshot.bins@[i])]);
            }
        }
    }
}

/// A bin of a tcache structure in one line.
pub open spec fn tcache_bin_line(bin: crate::record::JsonTcacheBin) -> Seq<char> {
    "    bin["@ + text::dec(bin.index as nat) + "] size="@ + bin.chunk_size@ + " count="@
        + text::dec(bin.count as nat) + " head="@ + bin.head@
}

/// A main arena is shown by its libc, symbol, address and source, and by its offset where one was
/// used.
pub proof fn law_arena_candidate_is_shown(record: JsonTraceRecord, config: ReplayConfig)
    requires
        record is MainArenaCandidate,
        !config.events_only,
    ensures
        ({
            let s = record_text_of(record, config);
            let x = record->MainArenaCandidate_candidate;
            &&& shows(
                s,
                seq![
                    "main_arena candidate:"@,
                    "    libc:   "@ + x.libc_path@,
                    "    symbol: "@ + x.symbol_name@,
                    "    addr:   "@ + x.runtime_addr@,
                    "    source: "@ + x.source@,
                ],
            )
            &&& ends_with_line(
                s,
                match x.offset {
                    Some(offset) => "    offset: "@ + offset@,
                    None => "    source: "@ + x.source@,
                },
            )
        }),
{
    let x = record->MainArenaCandidate_candidate;
    let lines = replay_text::main_arena_candidate_lines(x);
    let own = seq![
        "main_arena candidate:"@,
        "    libc:   "@ + x.libc_path@,
        "    symbol: "@ + x.symbol_name@,
        "    addr:   "@ + x.runtime_addr@,
        "    source: "@ + x.source@,
    ];
    text::lemma_shows_at(lines, 0, own);
    text::lemma_text_ends(lines);
}

/// A top candidate is shown by arena, field, value, source, profile where there is one, chunk
/// size, and what was found at it in words.
pub proof fn law_top_candidate_is_shown(record: JsonTraceRecord, config: ReplayConfig)
    requires
        record is MainArenaTopCandidate,
        !config.events_only,
    ensures
        ({
            let s = record_text_of(record, config);
            let status = record->MainArenaTopCandidate_status@;
            &&& shows(
                s,
                seq![
                    "main_arena top candidate:"@,
                    "    arena:       "@ + record->MainArenaTopCandidate_arena_addr@,
                    "    field:       "@ + record->MainArenaTopCandidate_field_offset@,
                    "    top:         "@ + record->MainArenaTopCandidate_top_addr@,
                    "    source:      "@ + record->MainArenaTopCandidate_source@,
                ],
            )
            &&& record->MainArenaTopCandidate_profile is Some ==> shows_line(
                s,
                "    profile:     "@ + record->MainArenaTopCandidate_profile->0@,
            )
            &&& shows_line(
                s,
                "    chunk size:  "@ + or_else(record->MainArenaTopCandidate_chunk_size, "unknown"@),
            )
            &&& ends_with_line(
                s,
                "    status:      "@ + (if status == "matches_walked_chunk"@ {
                    "points into heap and matches walked chunk"@
                } else if status == "points_into_heap"@ {
                    "points into heap but does not match walked chunk"@
                } else if status == "outside_heap"@ {
                    "outside heap"@
                } else {
                    status
                }),
            )
        }),
{
    let lines = replay_text::top_candidate_lines(
        record->MainArenaTopCandidate_arena_addr@,
        record->MainArenaTopCandidate_field_offset@,
        record->MainArenaTopCandidate_top_addr@,
        record->MainArenaTopCandidate_chunk_size,
        record->MainArenaTopCandidate_status@,
        record->MainArenaTopCandidate_source@,
        record->MainArenaTopCandidate_profile,
    );
    let own = seq![
        "main_arena top candidate:"@,
        "    arena:       "@ + record->MainArenaTopCandidate_arena_addr@,
        "    field:       "@ + record->MainArenaTopCandidate_field_offset@,
        "    top:         "@ + record->MainArenaTopCandidate_top_addr@,
        "    source:      "@ + record->MainArenaTopCandidate_source@,
    ];
    text::lemma_shows_at(lines, 0, own);
    text::lemma_shows_lines(lines);
    text::lemma_text_ends(lines);
    assert(lines[lines.len() - 2] == "    chunk size:  "@ + or_else(
        record->MainArenaTopCandidate_chunk_size,
        "unknown"@,
    ));
    if record->MainArenaTopCandidate_profile is Some {
        assert(lines[5] == "    profile:     "@ + record->MainArenaTopCandidate_profile->0@);
    }
}

/// A view of the arena shows its address, source and offset, and every field of its top.
pub proof fn law_arena_view_is_shown(record: JsonTraceRecord, config: ReplayConfig)
    requires
        record is MainArenaView,
        !config.events_only,
    ensures
        ({
            let s = record_text_of(record, config);
            let arena = record->MainArenaView_arena;
            &&& shows(
                s,
                seq![
                    "main_arena:"@,
                    "    addr:        "@ + arena.addr@,
                    "    source:      "@ + arena.source@,
                ],
            )
            &&& arena.offset is Some ==> shows_line(s, "    offset:      "@ + arena.offset->0@)
            &&& match record->MainArenaView_top {
                Some(top) => {
                    &&& shows(
                        s,
                        seq![
                            "    top:"@,
                            "        field:   "@ + top.field_offset@,
                            "        value:   "@ + top.value@,
                            "        size:    "@ + or_else(top.size, "unknown"@),
                            "        source:  "@ + top.source@,
                        ],
                    )
                    &&& top.profile is Some ==> shows_line(s, "        profile: "@ + top.profile->0@)
                    &&& ends_with_line(s, "        status:  "@ + top.status@)
                },
                None => true,
            }
        }),
{
    let arena = record->MainArenaView_arena;
    let lines = replay_text::arena_view_lines(arena, record->MainArenaView_top);
    let own = seq![
        "main_arena:"@,
        "    addr:        "@ + arena.addr@,
        "    source:      "@ + arena.source@,
    ];
    text::lemma_shows_at(lines, 0, own);
    text::lemma_shows_lines(lines);
    text::lemma_text_ends(lines);
    if arena.offset is Some {
        assert(lines[3] == "    offset:      "@ + arena.offset->0@);
    }
    if let Some(top) = record->MainArenaView_top {
        let at: int = if arena.offset is Some { 5 } else { 4 };
        let part = seq![
            "    top:"@,
            "        field:   "@ + top.field_offset@,
            "        value:   "@ + top.value@,
            "        size:    "@ + or_else(top.size, "unknown"@),
            "        source:  "@ + top.source@,
        ];
        text::lemma_shows_at(lines, at, part);
        if top.profile is Some {
            assert(lines[at + 5] == "        profile: "@ + top.profile->0@);
        }
    }
}

/// A checked tcache list is shown with the outcome of each check.
pub proof fn law_tcache_checks_are_shown(record: JsonTraceRecord, config: ReplayConfig, i: int)
    requires
        record is TcacheValidation,
        state_shown(config),
        0 <= i < record->TcacheValidation_validations@.len(),
    ensures
        ({
            let s = record_text_of(record, config);
            let x = record->TcacheValidation_validations@[i];
            &&& begins_with_line(s, "tcache validation candidate:"@)
            &&& shows(
                s,
                seq![
                    "    size "@ + x.chunk_size@ + ":"@,
                    "        head_in_heap: "@ + x.head_in_heap@,
                    "        head_known_freed: "@ + x.head_known_freed@,
                    "        observed_nodes_same_size: "@ + x.observed_nodes_same_size@,
                    "        count_matches_observed: "@ + x.count_matches_observed@,
                    "        status: "@ + x.status@,
                ],
            )
        }),
{
    let x = record->TcacheValidation_validations@;
    let before = seq!["tcache validation candidate:"@];
    let lines = before + text::blocks(x);
    let own = seq![
        "    size "@ + x[i].chunk_size@ + ":"@,
        "        head_in_heap: "@ + x[i].head_in_heap@,
        "        head_known_freed: "@ + x[i].head_known_freed@,
        "        observed_nodes_same_size: "@ + x[i].observed_nodes_same_size@,
        "        count_matches_observed: "@ + x[i].count_matches_observed@,
        "        status: "@ + x[i].status@,
    ];
    assert(lines =~= before + text::blocks(x) + Seq::<Seq<char>>::empty());
    text::lemma_blocks_split(x, i);
    assert(x[i].lines() =~= own);
    text::lemma_shows_blocks(lines, before, x, Seq::empty());
    text::lemma_text_ends(lines);
    assert(record_text_of(record, config) == text::unlines(lines));
}

/// A checked fastbin is shown with the outcome of each check.
pub proof fn law_fastbin_checks_are_shown(record: JsonTraceRecord, config: ReplayConfig, i: int)
    requires
        record is FastbinValidation,
        state_shown(config),
        0 <= i < record->FastbinValidation_validations@.len(),
    ensures
        ({
            let s = record_text_of(record, config);
            let x = record->FastbinValidation_validations@[i];
            &&& begins_with_line(s, "fastbin validation:"@)
            &&& shows(
                s,
                seq![
                    "    bin["@ + text::dec(x.index as nat) + "] size="@ + x.chunk_size@ + ":"@,
                    "        head_in_heap: "@ + x.head_in_heap@,
                    "        nodes_same_size: "@ + x.nodes_same_size@,
                    "        nodes_known_freed: "@ + x.nodes_known_freed@,
                    "        chain_complete: "@ + x.chain_complete@,
                    "        status: "@ + x.status@,
                ],
            )
        }),
{
    let x = record->FastbinValidation_validations@;
    let before = seq!["fastbin validation:"@];
    let lines = before + text::blocks(x);
    let own = seq![
        "    bin["@ + text::dec(x[i].index as nat) + "] size="@ + x[i].chunk_size@ + ":"@,
        "        head_in_heap: "@ + x[i].head_in_heap@,
        "        nodes_same_size: "@ + x[i].nodes_same_size@,
        "        nodes_known_freed: "@ + x[i].nodes_known_freed@,
        "        chain_complete: "@ + x[i].chain_complete@,
        "        status: "@ + x[i].status@,
    ];
    assert(lines =~= before + text::blocks(x) + Seq::<Seq<char>>::empty());
    text::lemma_blocks_split(x, i);
    assert(x[i].lines() =~= own);
    text::lemma_shows_blocks(lines, before, x, Seq::empty());
    text::lemma_text_ends(lines);
    assert(record_text_of(record, config) == text::unlines(lines));
}

/// A checked small bin is shown with the outcome of each check.
pub proof fn law_smallbin_checks_are_shown(record: JsonTraceRecord, config: ReplayConfig, i: int)
    requires
        record is SmallbinValidation,
        state_shown(config),
        0 <= i < record->SmallbinValidation_validations@.len(),
    ensures
        ({
            let s = record_text_of(record, config);
            let x = record->SmallbinValidation_validations@[i];
            &&& begins_with_line(s, "smallbin validation:"@)
            &&& shows(
                s,
                seq![
                    "    bin["@ + text::dec(x.glibc_bin_index as nat) + "] size="@
                        + x.expected_chunk_size@ + ":"@,
                    "        head_in_heap: "@ + x.head_in_heap@,
                    "        nodes_same_size: "@ + x.nodes_same_size@,
                    "        fd_bk_consistent: "@ + x.fd_bk_consistent@,
                    "        nodes_known_freed: "@ + x.nodes_known_freed@,
                    "        chain_complete: "@ + x.chain_complete@,
                    "        status: "@ + x.status@,
                ],
            )
        }),
{
    let x = record->SmallbinValidation_validations@;
    let before = seq!["smallbin validation:"@];
    let lines = before + text::blocks(x);
    let own = seq![
        "    bin["@ + text::dec(x[i].glibc_bin_index as nat) + "] size="@
            + x[i].expected_chunk_size@ + ":"@,
        "        head_in_heap: "@ + x[i].head_in_heap@,
        "        nodes_same_size: "@ + x[i].nodes_same_size@,
        "        fd_bk_consistent: "@ + x[i].fd_bk_consistent@,
        "        nodes_known_freed: "@ + x[i].nodes_known_freed@,
        "        chain_complete: "@ + x[i].chain_complete@,
        "        status: "@ + x[i].status@,
    ];
    assert(lines =~= before + text::blocks(x) + Seq::<Seq<char>>::empty());
    text::lemma_blocks_split(x, i);
    assert(x[i].lines() =~= own);
    text::lemma_shows_blocks(lines, before, x, Seq::empty());
    text::lemma_text_ends(lines);
    assert(record_text_of(record, config) == text::unlines(lines));
}

/// A checked large bin is shown with the outcome of each check.
pub proof fn law_largebin_checks_are_shown(record: JsonTraceRecord, config: ReplayConfig, i: int)
    requires
        record is LargebinValidation,
        state_shown(config),
        0 <= i < record->LargebinValidation_validations@.len(),
    ensures
        ({
            let s = record_text_of(record, config);
            let x = record->LargebinValidation_validations@[i];
            &&& begins_with_line(s, "largebin validation:"@)
            &&& shows(
                s,
                seq![
                    "    bin["@ + text::dec(x.glibc_bin_index as nat) + "]:"@,
                    "        head_in_heap: "@ + x.head_in_heap@,
                    "        fd_bk_consistent: "@ + x.fd_bk_consistent@,
                    "        nodes_known_freed: "@ + x.nodes_known_freed@,
                    "        chain_complete: "@ + x.chain_complete@,
                    "        status: "@ + x.status@,
                ],
            )
        }),
{
    let x = record->LargebinValidation_validations@;
    let before = seq!["largebin validation:"@];
    let lines = before + text::blocks(x);
    let own = seq![
        "    bin["@ + text::dec(x[i].glibc_bin_index as nat) + "]:"@,
        "        head_in_heap: "@ + x[i].head_in_heap@,
        "        fd_bk_consistent: "@ + x[i].fd_bk_consistent@,
        "        nodes_known_freed: "@ + x[i].nodes_known_freed@,
        "        chain_complete: "@ + x[i].chain_complete@,
        "        status: "@ + x[i].status@,
    ];
    assert(lines =~= before + text::blocks(x) + Seq::<Seq<char>>::empty());
    text::lemma_blocks_split(x, i);
    assert(x[i].lines() =~= own);
    text::lemma_shows_blocks(lines, before, x, Seq::empty());
    text::lemma_text_ends(lines);
    assert(record_text_of(record, config) == text::unlines(lines));
}

/// A regular bin is shown in one line with both numbers, its role, its pointers and where
/// they point.
pub proof fn law_regular_bins_are_shown(record: JsonTraceRecord, config: ReplayConfig, i: int)
    requires
        record is RegularBins,
        state_shown(config),
        0 <= i < record->RegularBins_heads@.len(),
    ensures
        ({
            let s = record_text_of(record, config);
            let x = record->RegularBins_heads@[i];
            &&& begins_with_line(s, "regular bins:"@)
            &&& shows(
                s,
                seq![
                    "    bin["@ + text::dec(x.index as nat) + "] glibc_bin_index="@
                        + text::dec(x.glibc_bin_index as nat) + " role="@ + x.role@
                        + (match x.chunk_size { Some(size) => " chunk_size="@ + size@, None => Seq::empty() })
                        + " fd="@ + x.fd@ + " bk="@ + x.bk@ + " empty="@ + said(x.empty)
                        + " fd_in_heap="@ + said(x.fd_points_into_heap) + " bk_in_heap="@
                        + said(x.bk_points_into_heap),
                ],
            )
        }),
{
    let x = record->RegularBins_heads@;
    let before = seq![
        "regular bins:"@,
        "    arena: "@ + record->RegularBins_arena_addr@,
        "    bins_offset: "@ + record->RegularBins_bins_offset@,
    ];
    let lines = before + text::blocks(x);
    let own = seq![
        "    bin["@ + text::dec(x[i].index as nat) + "] glibc_bin_index="@
            + text::dec(x[i].glibc_bin_index as nat) + " role="@ + x[i].role@
            + (match x[i].chunk_size { Some(size) => " chunk_size="@ + size@, None => Seq::empty() })
            + " fd="@ + x[i].fd@ + " bk="@ + x[i].bk@ + " empty="@ + said(x[i].empty)
            + " fd_in_heap="@ + said(x[i].fd_points_into_heap) + " bk_in_heap="@
            + said(x[i].bk_points_into_heap),
    ];
    assert(lines =~= before + text::blocks(x) + Seq::<Seq<char>>::empty());
    text::lemma_blocks_split(x, i);
    assert(x[i].lines() =~= own);
    text::lemma_shows_blocks(lines, before, x, Seq::empty());
    text::lemma_text_ends(lines);
    assert(record_text_of(record, config) == text::unlines(lines));
}

/// A pointer that the arena experiment found is shown with its field, its value, its role and
/// the size of the chunk that it points to.
pub proof fn law_arena_experiment_is_shown(record: JsonTraceRecord, config: ReplayConfig, i: int)
    requires
        record is MainArenaExperiment,
        !config.events_only,
        0 <= i < record->MainArenaExperiment_candidates@.len(),
    ensures
        ({
            let s = record_text_of(record, config);
            let x = record->MainArenaExperiment_candidates@[i];
            &&& begins_with_line(s, "main_arena experiment:"@)
            &&& shows(
                s,
                seq![
                    "        offset="@ + x.field_offset@ + " value="@ + x.value@ + " role="@
                        + x.role_hint@ + " matched_chunk_size="@
                        + or_else(x.matched_chunk_size, "none"@),
                ],
            )
        }),
{
    let x = record->MainArenaExperiment_candidates@;
    let before = seq![
        "main_arena experiment:"@,
        "    arena: "@ + record->MainArenaExperiment_arena_addr@,
        "    "@ + "heap pointer candidates"@ + ":"@,
    ];
    let lines = before + text::blocks(x);
    let own = seq![
        "        offset="@ + x[i].field_offset@ + " value="@ + x[i].value@ + " role="@
            + x[i].role_hint@ + " matched_chunk_size="@
            + or_else(x[i].matched_chunk_size, "none"@),
    ];
    assert(replay_text::experiment_lines(
        "main_arena experiment:"@,
        record->MainArenaExperiment_arena_addr@,
        "heap pointer candidates"@,
        x,
    ) =~= lines);
    assert(lines =~= before + text::blocks(x) + Seq::<Seq<char>>::empty());
    text::lemma_blocks_split(x, i);
    assert(x[i].lines() =~= own);
    text::lemma_shows_blocks(lines, before, x, Seq::empty());
    text::lemma_text_ends(lines);
    assert(record_text_of(record, config) == text::unlines(lines));
}

/// A pointer that the fastbin experiment found is shown with its field, its value and what is
/// known of its chunk.
pub proof fn law_fastbin_experiment_is_shown(record: JsonTraceRecord, config: ReplayConfig, i: int)
    requires
        record is FastbinExperiment,
        state_shown(config),
        0 <= i < record->FastbinExperiment_candidates@.len(),
    ensures
        ({
            let s = record_text_of(record, config);
            let x = record->FastbinExperiment_candidates@[i];
            &&& begins_with_line(s, "fastbin experiment:"@)
            &&& shows(
                s,
                seq![
                    "        offset="@ + x.field_offset@ + " value="@ + x.value@ + " chunk_size="@
                        + or_else(x.possible_chunk_size, "unknown"@) + " known_freed="@
                        + said_if_known(x.known_freed),
                ],
            )
        }),
{
    let x = record->FastbinExperiment_candidates@;
    let before = seq![
        "fastbin experiment:"@,
        "    arena: "@ + record->FastbinExperiment_arena_addr@,
        "    "@ + "candidates"@ + ":"@,
    ];
    let lines = before + text::blocks(x);
    let own = seq![
        "        offset="@ + x[i].field_offset@ + " value="@ + x[i].value@ + " chunk_size="@
            + or_else(x[i].possible_chunk_size, "unknown"@) + " known_freed="@
            + said_if_known(x[i].known_freed),
    ];
    assert(replay_text::experiment_lines(
        "fastbin experiment:"@,
        record->FastbinExperiment_arena_addr@,
        "candidates"@,
        x,
    ) =~= lines);
    assert(lines =~= before + text::blocks(x) + Seq::<Seq<char>>::empty());
    text::lemma_blocks_split(x, i);
    assert(x[i].lines() =~= own);
    text::lemma_shows_blocks(lines, before, x, Seq::empty());
    text::lemma_text_ends(lines);
    assert(record_text_of(record, config) == text::unlines(lines));
}

/// A pair of pointers that the unsorted bin experiment found is shown with where both point.
pub proof fn law_unsorted_experiment_is_shown(record: JsonTraceRecord, config: ReplayConfig, i: int)
    requires
        record is UnsortedBinExperiment,
        state_shown(config),
        0 <= i < record->UnsortedBinExperiment_candidates@.len(),
    ensures
        ({
            let s = record_text_of(record, config);
            let x = record->UnsortedBinExperiment_candidates@[i];
            &&& begins_with_line(s, "unsorted bin experiment:"@)
            &&& shows(
                s,
                seq![
                    "        offset="@ + x.field_offset@ + " fd="@ + x.fd@ + " fd_in_heap="@
                        + said(x.fd_points_into_heap) + " fd_known_freed="@
                        + said_if_known(x.fd_known_freed) + " bk="@ + x.bk@ + " bk_in_heap="@
                        + said(x.bk_points_into_heap) + " bk_known_freed="@
                        + said_if_known(x.bk_known_freed) + " role="@ + x.role@,
                ],
            )
        }),
{
    let x = record->UnsortedBinExperiment_candidates@;
    let before = seq![
        "unsorted bin experiment:"@,
        "    arena: "@ + record->UnsortedBinExperiment_arena_addr@,
        "    "@ + "candidates"@ + ":"@,
    ];
    let lines = before + text::blocks(x);
    let own = seq![
        "        offset="@ + x[i].field_offset@ + " fd="@ + x[i].fd@ + " fd_in_heap="@
            + said(x[i].fd_points_into_heap) + " fd_known_freed="@
            + said_if_known(x[i].fd_known_freed) + " bk="@ + x[i].bk@ + " bk_in_heap="@
            + said(x[i].bk_points_into_heap) + " bk_known_freed="@
            + said_if_known(x[i].bk_known_freed) + " role="@ + x[i].role@,
    ];
    assert(replay_text::experiment_lines(
        "unsorted bin experiment:"@,
        record->UnsortedBinExperiment_arena_addr@,
        "candidates"@,
        x,
    ) =~= lines);
    assert(lines =~= before + text::blocks(x) + Seq::<Seq<char>>::empty());
    text::lemma_blocks_split(x, i);
    assert(x[i].lines() =~= own);
    text::lemma_shows_blocks(lines, before, x, Seq::empty());
    text::lemma_text_ends(lines);
    assert(record_text_of(record, config) == text::unlines(lines));
}

/// A pair of pointers that the bin experiment found is shown with where both point.
pub proof fn law_bin_experiment_is_shown(record: JsonTraceRecord, config: ReplayConfig, i: int)
    requires
        record is BinExperiment,
        state_shown(config),
        0 <= i < record->BinExperiment_candidates@.len(),
    ensures
        ({
            let s = record_text_of(record, config);
            let x = record->BinExperiment_candidates@[i];
            &&& begins_with_line(s, "bin experiment:"@)
            &&& shows(
                s,
                seq![
                    "        offset="@ + x.field_offset@ + " fd="@ + x.fd@ + " fd_in_heap="@
                        + said(x.fd_points_into_heap) + " fd_in_arena="@
                        + said(x.fd_points_into_arena) + " fd_known_freed="@
                        + said_if_known(x.fd_known_freed) + " bk="@ + x.bk@ + " bk_in_heap="@
                        + said(x.bk_points_into_heap) + " bk_in_arena="@
                        + said(x.bk_points_into_arena) + " bk_known_freed="@
                        + said_if_known(x.bk_known_freed) + " role="@ + x.role@,
                ],
            )
        }),
{
    let x = record->BinExperiment_candidates@;
    let before = seq![
        "bin experiment:"@,
        "    arena: "@ + record->BinExperiment_arena_addr@,
        "    "@ + "candidates"@ + ":"@,
    ];
    let lines = before + text::blocks(x);
    let own = seq![
        "        offset="@ + x[i].field_offset@ + " fd="@ + x[i].fd@ + " fd_in_heap="@
            + said(x[i].fd_points_into_heap) + " fd_in_arena="@ + said(x[i].fd_points_into_arena)
            + " fd_known_freed="@ + said_if_known(x[i].fd_known_freed) + " bk="@ + x[i].bk@
            + " bk_in_heap="@ + said(x[i].bk_points_into_heap) + " bk_in_arena="@
            + said(x[i].bk_points_into_arena) + " bk_known_freed="@
            + said_if_known(x[i].bk_known_freed) + " role="@ + x[i].role@,
    ];
    assert(replay_text::experiment_lines(
        "bin experiment:"@,
        record->BinExperiment_arena_addr@,
        "candidates"@,
        x,
    ) =~= lines);
    assert(lines =~= before + text::blocks(x) + Seq::<Seq<char>>::empty());
    text::lemma_blocks_split(x, i);
    assert(x[i].lines() =~= own);
    text::lemma_shows_blocks(lines, before, x, Seq::empty());
    text::lemma_text_ends(lines);
    assert(record_text_of(record, config) == text::unlines(lines));
}

/// The unsorted bin is shown with its two pointers, where they point and whether they were seen
/// freed, and says where its list is empty.
pub proof fn law_unsorted_bin_is_shown(record: JsonTraceRecord, config: ReplayConfig)
    requires
        record is UnsortedBin,
        state_shown(config),
    ensures
        ({
            let s = record_text_of(record, config);
            &&& shows(
                s,
                seq![
                    "unsorted bin:"@,
                    "    arena: "@ + record->UnsortedBin_arena_addr@,
                    "    offset: "@ + record->UnsortedBin_field_offset@,
                    "    fd: "@ + record->UnsortedBin_fd@,
                    "    bk: "@ + record->UnsortedBin_bk@,
                    "    fd_in_heap: "@ + said(record->UnsortedBin_fd_points_into_heap),
                    "    bk_in_heap: "@ + said(record->UnsortedBin_bk_points_into_heap),
                    "    fd_known_freed: "@ + said_if_known(record->UnsortedBin_fd_known_freed),
                    "    bk_known_freed: "@ + said_if_known(record->UnsortedBin_bk_known_freed),
                ],
            )
            &&& match record->UnsortedBin_chain {
                Some(chain) => if chain.empty {
                    ends_with_line(s, "    chain: empty"@)
                } else {
                    &&& shows_line(s, "    chain:"@)
                    &&& forall|i: int|
                        0 <= i < chain.nodes@.len() ==> shows_line(
                            s,
                            unsorted_node_line(#[trigger] chain.nodes@[i]),
                        )
                },
                None => true,
            }
        }),
{
    let lines = replay_text::unsorted_bin_lines(
        record->UnsortedBin_arena_addr@,
        record->UnsortedBin_field_offset@,
        record->UnsortedBin_fd@,
        record->UnsortedBin_bk@,
        record->UnsortedBin_fd_points_into_heap,
        record->UnsortedBin_bk_points_into_heap,
        record->UnsortedBin_fd_known_freed,
        record->UnsortedBin_bk_known_freed,
        record->UnsortedBin_chain,
    );
    let own = seq![
        "unsorted bin:"@,
        "    arena: "@ + record->UnsortedBin_arena_addr@,
        "    offset: "@ + record->UnsortedBin_field_offset@,
        "    fd: "@ + record->UnsortedBin_fd@,
        "    bk: "@ + record->UnsortedBin_bk@,
        "    fd_in_heap: "@ + said(record->UnsortedBin_fd_points_into_heap),
        "    bk_in_heap: "@ + said(record->UnsortedBin_bk_points_into_heap),
        "    fd_known_freed: "@ + said_if_known(record->UnsortedBin_fd_known_freed),
        "    bk_known_freed: "@ + said_if_known(record->UnsortedBin_bk_known_freed),
    ];
    text::lemma_shows_at(lines, 0, own);
    text::lemma_shows_lines(lines);
    text::lemma_text_ends(lines);
    if let Some(chain) = record->UnsortedBin_chain {
        if !chain.empty {
            let before = lines.take(10);
            assert(lines[9] == "    chain:"@);
            assert(lines =~= before + text::blocks(chain.nodes@) + Seq::<Seq<char>>::empty());
            text::lemma_shows_blocks(lines, before, chain.nodes@, Seq::empty());
            assert forall|i: int| 0 <= i < chain.nodes@.len() implies shows_line(
                text::unlines(lines),
                unsorted_node_line(#[trigger] chain.nodes@[i]),
            ) by {
                assert(chain.nodes@[i].lines() =~= seq![unsorted_node_line(chain.nodes@[i])]);
            }
        }
    }
}

/// A chunk of the unsorted bin in one line.
pub open spec fn unsorted_node_line(node: crate::record::JsonUnsortedBinNode) -> Seq<char> {
    "        "@ + node.chunk_addr@ + " size="@ + or_else(node.chunk_size, "unknown"@) + " fd="@
        + node.fd@ + " bk="@ + node.bk@ + " known_freed="@ + said_if_known(node.known_freed)
}

/// The checks on the unsorted bin are shown with the outcome of each.
pub proof fn law_unsorted_checks_are_shown(record: JsonTraceRecord, config: ReplayConfig)
    requires
        record is UnsortedBinValidation,
        state_shown(config),
    ensures
        shows(
            record_text_of(record, config),
            seq![
                "unsorted bin validation:"@,
                "    head_in_heap: "@ + record->UnsortedBinValidation_validation.head_in_heap@,
                "    fd_bk_consistent: "@
                    + record->UnsortedBinValidation_validation.fd_bk_consistent@,
                "    nodes_known_freed: "@
                    + record->UnsortedBinValidation_validation.nodes_known_freed@,
                "    chain_complete: "@ + record->UnsortedBinValidation_validation.chain_complete@,
                "    status: "@ + record->UnsortedBinValidation_validation.status@,
            ],
        ),
{
    let x = record->UnsortedBinValidation_validation;
    text::lemma_shows_at(x.lines(), 0, x.lines());
}

/// A tcache bin is compared with the observed frees: its count and its head beside the chunks
/// that were seen, in order, or the word that none was, and what came of it.
pub proof fn law_tcache_comparison_is_shown(record: JsonTraceRecord, config: ReplayConfig, i: int)
    requires
        record is TcacheComparison,
        state_shown(config),
        0 <= i < record->TcacheComparison_comparisons@.len(),
    ensures
        ({
            let s = record_text_of(record, config);
            let x = record->TcacheComparison_comparisons@[i];
            let end = list_end(false, x.observed_truncated, x.observed_stopped_on_unknown_next);
            &&& begins_with_line(s, "tcache comparison candidate:"@)
            &&& shows(
                s,
                seq![
                    "    size "@ + x.chunk_size@ + ":"@,
                    "        struct count: "@ + text::dec(x.struct_count as nat),
                    "        struct head:  "@ + x.struct_head@,
                    "        observed:     "@ + (if x.observed_entries@.len() == 0 {
                        "<none>"@
                    } else {
                        text::join(text::texts(x.observed_entries@), " -> "@) + " -> "@ + end
                    }),
                    "        status:       "@ + x.status@,
                ],
            )
        }),
{
    let x = record->TcacheComparison_comparisons@;
    let before = seq!["tcache comparison candidate:"@];
    let lines = before + text::blocks(x);
    let end = list_end(false, x[i].observed_truncated, x[i].observed_stopped_on_unknown_next);
    let own = seq![
        "    size "@ + x[i].chunk_size@ + ":"@,
        "        struct count: "@ + text::dec(x[i].struct_count as nat),
        "        struct head:  "@ + x[i].struct_head@,
        "        observed:     "@ + (if x[i].observed_entries@.len() == 0 {
            "<none>"@
        } else {
            text::join(text::texts(x[i].observed_entries@), " -> "@) + " -> "@ + end
        }),
        "        status:       "@ + x[i].status@,
    ];
    lemma_chain(text::texts(x[i].observed_entries@), end);
    assert(lines =~= before + text::blocks(x) + Seq::<Seq<char>>::empty());
    assert(x[i].lines() =~= own);
    text::lemma_shows_blocks(lines, before, x, Seq::empty());
    text::lemma_text_ends(lines);
}

proof fn lemma_fastbin_heads(
    heads: Seq<crate::record::JsonFastbinHead>,
    chains: Seq<crate::record::JsonFastbinChain>,
    i: int,
)
    requires
        0 <= i < heads.len(),
    ensures
        exists|before: Seq<Seq<char>>, after: Seq<Seq<char>>|
            replay_text::fastbin_heads_lines(heads, chains) == #[trigger] (before
                + replay_text::fastbin_head_lines(heads[i], chains) + after),
    decreases heads.len(),
{
    let own = replay_text::fastbin_head_lines(heads[i], chains);
    let last = replay_text::fastbin_head_lines(heads.last(), chains);
    let rest = replay_text::fastbin_heads_lines(heads.drop_last(), chains);
    let all = replay_text::fastbin_heads_lines(heads, chains);
    if i == heads.len() - 1 {
        assert(all =~= rest + own + Seq::<Seq<char>>::empty());
    } else {
        lemma_fastbin_heads(heads.drop_last(), chains, i);
        let (before, after) = choose|before: Seq<Seq<char>>, after: Seq<Seq<char>>|
            rest == #[trigger] (before + own + after);
        assert(all =~= before + own + (after + last));
    }
}

proof fn lemma_chain_of_index(
    chains: Seq<crate::record::JsonFastbinChain>,
    index: usize,
    k: int,
)
    requires
        0 <= k < chains.len(),
        chains[k].index == index,
        forall|j: int| 0 <= j < k ==> (#[trigger] chains[j]).index != index,
    ensures
        replay_text::chain_of_index(chains, index) == Some(chains[k]),
    decreases k,
{
    if k > 0 {
        assert(chains[0].index != index);
        assert forall|j: int| 0 <= j < k - 1 implies (#[trigger] chains.skip(1)[j]).index
            != index by {
            assert(chains.skip(1)[j] == chains[j + 1]);
        }
        lemma_chain_of_index(chains.skip(1), index, k - 1);
    }
}

/// A fastbin that is empty is shown by its size and a null head. Any other is shown with where
/// its head points, and its list below it: the first one under its number, up to its end.
pub proof fn law_fastbins_are_shown(record: JsonTraceRecord, config: ReplayConfig, i: int, k: int)
    requires
        record is Fastbins,
        state_shown(config),
        0 <= i < record->Fastbins_heads@.len(),
        0 <= k < record->Fastbins_chains@.len(),
        record->Fastbins_chains@[k].index == record->Fastbins_heads@[i].index,
        forall|j: int|
            0 <= j < k ==> (#[trigger] record->Fastbins_chains@[j]).index
                != record->Fastbins_heads@[i].index,
    ensures
        ({
            let s = record_text_of(record, config);
            let head = record->Fastbins_heads@[i];
            let chain = record->Fastbins_chains@[k];
            let end = list_end(
                chain.cycle_detected,
                chain.truncated,
                chain.stopped_on_unknown_next,
            );
            let name = "    bin["@ + text::dec(head.index as nat) + "] size="@ + head.chunk_size@;
            &&& begins_with_line(s, "fastbins:"@)
            &&& shows_line(s, "    arena: "@ + record->Fastbins_arena_addr@)
            &&& head.head@ == "0x0"@ ==> shows_line(s, name + " head=0x0"@)
            &&& head.head@ != "0x0"@ ==> shows(
                s,
                seq![
                    name + " head="@ + head.head@ + " in_heap="@ + said(head.points_into_heap)
                        + " known_freed="@ + said_if_known(head.known_freed),
                    "        chain: "@ + (if chain.nodes@.len() == 0 {
                        end
                    } else {
                        text::join(text::blocks(chain.nodes@), " -> "@) + " -> "@ + end
                    }),
                ],
            )
        }),
{
    let heads = record->Fastbins_heads@;
    let chains = record->Fastbins_chains@;
    let chain = chains[k];
    let end = list_end(chain.cycle_detected, chain.truncated, chain.stopped_on_unknown_next);
    let first = seq!["fastbins:"@, "    arena: "@ + record->Fastbins_arena_addr@];
    let all = replay_text::fastbin_heads_lines(heads, chains);
    let own = replay_text::fastbin_head_lines(heads[i], chains);
    let lines = first + all;
    lemma_fastbin_heads(heads, chains, i);
    let (before, after) = choose|before: Seq<Seq<char>>, after: Seq<Seq<char>>|
        all == #[trigger] (before + own + after);
    lemma_chain_of_index(chains, heads[i].index, k);
    lemma_node_blocks(chain.nodes@);
    lemma_chain(text::blocks(chain.nodes@), end);
    assert(lines =~= (first + before) + own + after);
    text::lemma_shows(lines, first + before, own, after);
    text::lemma_shows_lines(lines);
    text::lemma_text_ends(lines);
    assert(lines[1] == "    arena: "@ + record->Fastbins_arena_addr@);
    let name = "    bin["@ + text::dec(heads[i].index as nat) + "] size="@ + heads[i].chunk_size@;
    if heads[i].head@ == "0x0"@ {
        assert(own =~= seq![name + " head=0x0"@]);
    } else {
        assert(own =~= seq![
            name + " head="@ + heads[i].head@ + " in_heap="@ + said(heads[i].points_into_heap)
                + " known_freed="@ + said_if_known(heads[i].known_freed),
            "        chain: "@ + (if chain.nodes@.len() == 0 {
                end
            } else {
                text::join(text::blocks(chain.nodes@), " -> "@) + " -> "@ + end
            }),
        ]);
    }
}

/// Every chunk of a fastbin stands in its list by its address.
proof fn lemma_node_blocks(nodes: Seq<crate::record::JsonFastbinNode>)
    ensures
        text::blocks(nodes).len() == nodes.len(),
        forall|i: int|
            0 <= i < nodes.len() ==> text::blocks(nodes)[i] == (#[trigger] nodes[i]).chunk_addr@,
    decreases nodes.len(),
{
    if nodes.len() > 0 {
        lemma_node_blocks(nodes.drop_last());
        assert forall|i: int| 0 <= i < nodes.len() implies text::blocks(nodes)[i] == (
        #[trigger] nodes[i]).chunk_addr@ by {
            if i < nodes.len() - 1 {
                assert(nodes.drop_last()[i] == nodes[i]);
            }
        }
    }
}

/// The list of a fastbin names its chunks by their addresses, in order.
pub proof fn law_fastbin_lists_name_chunks(nodes: Seq<crate::record::JsonFastbinNode>, i: int)
    requires
        0 <= i < nodes.len(),
    ensures
        text::blocks(nodes).len() == nodes.len(),
        text::blocks(nodes)[i] == nodes[i].chunk_addr@,
{
    lemma_node_blocks(nodes);
}

/// A small bin that is not empty is shown with its chunks, each with its pointers; where all are
/// empty one line says so.
pub proof fn law_smallbins_are_shown(record: JsonTraceRecord, config: ReplayConfig, i: int)
    requires
        record is Smallbins,
        state_shown(config),
        0 <= i < record->Smallbins_chains@.len(),
    ensures
        ({
            let s = record_text_of(record, config);
            let x = record->Smallbins_chains@[i];
            &&& shows(
                s,
                seq![
                    "smallbins:"@,
                    "    arena: "@ + record->Smallbins_arena_addr@,
                    "    bins_offset: "@ + record->Smallbins_bins_offset@,
                ],
            )
            &&& !x.empty ==> shows(
                s,
                seq![
                    "    bin["@ + text::dec(x.glibc_bin_index as nat) + "] size="@
                        + x.expected_chunk_size@ + ":"@,
                    "        chain:"@,
                ] + text::blocks(x.nodes@),
            )
            &&& (forall|j: int|
                0 <= j < record->Smallbins_chains@.len() ==> (
                #[trigger] record->Smallbins_chains@[j]).empty) ==> ends_with_line(
                s,
                "    all smallbins empty"@,
            )
        }),
{
    let x = record->Smallbins_chains@;
    let lines = replay_text::smallbins_lines(
        record->Smallbins_arena_addr@,
        record->Smallbins_bins_offset@,
        x,
    );
    let first = seq![
        "smallbins:"@,
        "    arena: "@ + record->Smallbins_arena_addr@,
        "    bins_offset: "@ + record->Smallbins_bins_offset@,
    ];
    text::lemma_shows_at(lines, 0, first);
    text::lemma_text_ends(lines);
    if !x[i].empty {
        assert(!replay_text::all_smallbins_empty(x));
        assert(lines =~= first + text::blocks(x) + Seq::<Seq<char>>::empty());
        text::lemma_shows_blocks(lines, first, x, Seq::empty());
        assert(x[i].lines().len() > 0);
    }
}

/// A large bin that is not empty is shown with its chunks, each with its pointers; where all are
/// empty one line says so.
pub proof fn law_largebins_are_shown(record: JsonTraceRecord, config: ReplayConfig, i: int)
    requires
        record is Largebins,
        state_shown(config),
        0 <= i < record->Largebins_chains@.len(),
    ensures
        ({
            let s = record_text_of(record, config);
            let x = record->Largebins_chains@[i];
            &&& shows(
                s,
                seq![
                    "largebins:"@,
                    "    arena: "@ + record->Largebins_arena_addr@,
                    "    bins_offset: "@ + record->Largebins_bins_offset@,
                ],
            )
            &&& !x.empty ==> shows(
                s,
                seq![
                    "    bin["@ + text::dec(x.glibc_bin_index as nat) + "]:"@,
                    "        chain:"@,
                ] + text::blocks(x.nodes@),
            )
            &&& (forall|j: int|
                0 <= j < record->Largebins_chains@.len() ==> (
                #[trigger] record->Largebins_chains@[j]).empty) ==> ends_with_line(
                s,
                "    all largebins empty"@,
            )
        }),
{
    let x = record->Largebins_chains@;
    let lines = replay_text::largebins_lines(
        record->Largebins_arena_addr@,
        record->Largebins_bins_offset@,
        x,
    );
    let first = seq![
        "largebins:"@,
        "    arena: "@ + record->Largebins_arena_addr@,
        "    bins_offset: "@ + record->Largebins_bins_offset@,
    ];
    text::lemma_shows_at(lines, 0, first);
    text::lemma_text_ends(lines);
    if !x[i].empty {
        assert(!replay_text::all_largebins_empty(x));
        assert(lines =~= first + text::blocks(x) + Seq::<Seq<char>>::empty());
        text::lemma_shows_blocks(lines, first, x, Seq::empty());
        assert(x[i].lines().len() > 0);
    }
}

/// Every chunk of a small or a large bin is one line of its list, with its size, its pointers
/// and whether it was seen freed.
pub proof fn law_bin_nodes_are_lines(
    small: crate::record::JsonSmallbinNode,
    large: crate::record::JsonLargebinNode,
)
    ensures
        small.lines() == seq![
            "            "@ + small.chunk_addr@ + " size="@ + or_else(small.chunk_size, "unknown"@)
                + " fd="@ + small.fd@ + " bk="@ + small.bk@ + " known_freed="@ + said_if_known(
                small.known_freed,
            ),
        ],
        large.lines() == seq![
            "            "@ + large.chunk_addr@ + " size="@ + or_else(large.chunk_size, "unknown"@)
                + " fd="@ + large.fd@ + " bk="@ + large.bk@ + " fd_nextsize="@ + large.fd_nextsize@
                + " bk_nextsize="@ + large.bk_nextsize@ + " known_freed="@ + said_if_known(
                large.known_freed,
            ),
        ],
{
}

/// Every allocator warning has its line, with its kind, the chunk it is about, the free lists
/// that name it and its message.
pub proof fn law_warnings_are_shown(record: JsonTraceRecord, config: ReplayConfig, i: int)
    requires
        record is AllocatorWarnings,
        state_shown(config),
        0 <= i < record->AllocatorWarnings_warnings@.len(),
    ensures
        ({
            let s = record_text_of(record, config);
            let x = record->AllocatorWarnings_warnings@[i];
            &&& begins_with_line(s, "allocator warnings:"@)
            &&& shows_line(
                s,
                "    ["@ + x.kind@ + "] chunk="@ + x.chunk_addr@ + " user="@ + x.user_addr@
                    + " sources="@ + text::join(text::blocks(x.sources@), ","@) + " message="@
                    + x.message@,
            )
        }),
{
    let x = record->AllocatorWarnings_warnings@;
    let before = seq!["allocator warnings:"@];
    let lines = before + text::blocks(x);
    assert(lines =~= before + text::blocks(x) + Seq::<Seq<char>>::empty());
    text::lemma_shows_blocks(lines, before, x, Seq::empty());
    text::lemma_text_ends(lines);
    assert(x[i].lines() =~= seq![x[i].lines()[0]]);
}

/// A free list that names a chunk is told by its kind, its size class and the place in it.
pub proof fn law_sources_are_told(source: crate::record::JsonAllocatorSourceMembership)
    ensures
        source.lines() == seq![
            source.kind@ + "["@ + or_else(source.chunk_size, "unknown"@) + "]"@ + (
            match source.index {
                Some(index) => "#"@ + text::dec(index as nat),
                None => Seq::empty(),
            }),
        ],
{
    reveal_strlit("[unknown]");
    reveal_strlit("[");
    reveal_strlit("unknown");
    reveal_strlit("]");
    assert("[unknown]"@ =~= "["@ + "unknown"@ + "]"@);
    assert(source.lines()[0] =~= source.kind@ + "["@ + or_else(source.chunk_size, "unknown"@) + "]"@
        + (match source.index {
        Some(index) => "#"@ + text::dec(index as nat),
        None => Seq::empty(),
    }));
}

/// A heap scan shows each of its counts, what became of the top chunk and of the heap walk, and
/// its outcome.
pub proof fn law_heap_scan_is_shown(record: JsonTraceRecord, config: ReplayConfig)
    requires
        record is HeapScan,
        !config.events_only,
    ensures
        ({
            let s = record_text_of(record, config);
            let x = record->HeapScan_report;
            let unwalked = exists|i: int|
                0 <= i < x.findings@.len() && (#[trigger] x.findings@[i]).kind@
                    == "heap_snapshot_unavailable"@;
            shows(
                s,
                seq![
                    "heap scan:"@,
                    "    chunks walked:          "@ + text::dec(x.chunks_walked as nat),
                    "    allocated observed:     "@ + text::dec(x.allocated_observed as nat),
                    "    freed observed:         "@ + text::dec(x.freed_observed as nat),
                    "    unknown observed:       "@ + text::dec(x.unknown_observed as nat),
                    "    allocator sources:      "@ + text::dec(x.allocator_source_chunks as nat)
                        + " chunks"@,
                    "    allocator warnings:     "@ + text::dec(x.warning_count as nat),
                    "    suspicious findings:    "@ + text::dec(x.suspicious_count as nat),
                    "    top chunk:              "@ + (if x.top_validated == Some(true) {
                        "validated"@
                    } else if x.top_validated == Some(false) {
                        "not_validated"@
                    } else {
                        "unknown"@
                    }),
                    "    heap snapshot:          "@ + (if unwalked {
                        "unavailable"@
                    } else if x.heap_snapshot_truncated {
                        "truncated"@
                    } else {
                        "complete"@
                    }),
                    "    status:                 "@ + x.status@,
                ],
            )
        }),
{
    let x = record->HeapScan_report;
    let lines = record_text::heap_scan_lines(x);
    let own = record_text::scan_head_lines(x);
    let rest = if x.findings@.len() == 0 {
        Seq::empty()
    } else {
        seq!["heap scan findings:"@] + text::blocks(x.findings@)
    };
    assert(lines =~= Seq::<Seq<char>>::empty() + own + rest);
    text::lemma_shows(lines, Seq::empty(), own, rest);
}

/// Every finding of a heap scan has its line, with its severity, its kind, the addresses that it
/// names and its message.
pub proof fn law_findings_are_shown(record: JsonTraceRecord, config: ReplayConfig, i: int)
    requires
        record is HeapScan,
        !config.events_only,
        0 <= i < record->HeapScan_report.findings@.len(),
    ensures
        ({
            let s = record_text_of(record, config);
            let x = record->HeapScan_report.findings@[i];
            &&& shows_line(s, "heap scan findings:"@)
            &&& shows_line(
                s,
                "    ["@ + x.severity@ + "] "@ + x.kind@ + (match x.chunk_addr {
                    Some(a) => " chunk="@ + a@,
                    None => Seq::empty(),
                }) + (match x.user_addr {
                    Some(a) => " user="@ + a@,
                    None => Seq::empty(),
                }) + ": "@ + x.message@,
            )
        }),
{
    let x = record->HeapScan_report.findings@;
    let lines = record_text::heap_scan_lines(record->HeapScan_report);
    let before = record_text::scan_head_lines(record->HeapScan_report) + seq![
        "heap scan findings:"@,
    ];
    let after = Seq::<Seq<char>>::empty();
    assert(lines =~= before + text::blocks(x) + after);
    text::lemma_shows_lines(lines);
    assert(lines[11] == "heap scan findings:"@);
    text::lemma_blocks_split(x, i);
    let at = before.len() + text::blocks(x.take(i)).len();
    assert(lines[at as int] == x[i].lines()[0]);
    assert(shows_line(text::unlines(lines), lines[at as int]));
}

/// A summary of the free lists gives each count under its own name, in a fixed order.
pub proof fn law_summary_gives_each_count(record: JsonTraceRecord, config: ReplayConfig)
    requires
        record is AllocatorSourceSummary,
        state_shown(config),
    ensures
        record_text_of(record, config) == "allocator source summary:\n    tcache candidates: "@ + text::dec(
            record->AllocatorSourceSummary_tcache_candidate_chunks as nat,
        ) + " chunks\n    fastbins:          "@ + text::dec(
            record->AllocatorSourceSummary_fastbin_chunks as nat,
        ) + " chunks\n    unsorted bin:      "@ + text::dec(
            record->AllocatorSourceSummary_unsorted_chunks as nat,
        ) + " chunks\n    smallbins:         "@ + text::dec(
            record->AllocatorSourceSummary_smallbin_chunks as nat,
        ) + " chunks\n    largebins:         "@ + text::dec(
            record->AllocatorSourceSummary_largebin_chunks as nat,
        ) + " chunks\n    total free-list:   "@ + text::dec(
            record->AllocatorSourceSummary_total_free_list_chunks as nat,
        ) + " chunks\n    warnings:          "@ + text::dec(
            record->AllocatorSourceSummary_warning_count as nat,
        ),
{
}

/// A change of a count has a sign where there is one, and else the word that there is none; the
/// sign goes with the digits of its size.
pub proof fn law_changes_have_signs(delta: int)
    ensures
        delta == 0 ==> record_text::source_delta_text(delta) == "unchanged"@,
        delta > 0 ==> record_text::source_delta_text(delta) == "+"@ + text::dec(delta as nat),
        delta < 0 ==> record_text::source_delta_text(delta) == "-"@ + text::dec(-delta as nat),
{
    reveal_strlit("-");
    if delta < 0 {
        assert(record_text::source_delta_text(delta) =~= "-"@ + text::dec(-delta as nat));
    }
}

/// A change of the free lists gives the change of each count, in the order of the counts.
pub proof fn law_delta_gives_each_change(record: JsonTraceRecord, config: ReplayConfig)
    requires
        record is AllocatorSourceDelta,
        state_shown(config),
    ensures
        record_text_of(record, config) == "allocator delta:\n    tcache candidates: "@
            + record_text::source_delta_text(
            record->AllocatorSourceDelta_tcache_candidate_chunks_delta as int,
        ) + "\n    fastbins:          "@ + record_text::source_delta_text(
            record->AllocatorSourceDelta_fastbin_chunks_delta as int,
        ) + "\n    unsorted bin:      "@ + record_text::source_delta_text(
            record->AllocatorSourceDelta_unsorted_chunks_delta as int,
        ) + "\n    smallbins:         "@ + record_text::source_delta_text(
            record->AllocatorSourceDelta_smallbin_chunks_delta as int,
        ) + "\n    largebins:         "@ + record_text::source_delta_text(
            record->AllocatorSourceDelta_largebin_chunks_delta as int,
        ) + "\n    total free-list:   "@ + record_text::source_delta_text(
            record->AllocatorSourceDelta_total_free_list_chunks_delta as int,
        ) + "\n    warnings:          "@ + record_text::source_delta_text(
            record->AllocatorSourceDelta_warning_count_delta as int,
        ),
{
}

/// Every finding is followed by what its kind means, further to the right.
pub proof fn law_findings_are_explained(record: JsonTraceRecord, config: ReplayConfig, i: int)
    requires
        record is HeapScan,
        !config.events_only,
        0 <= i < record->HeapScan_report.findings@.len(),
        record_text::finding_explanation(record->HeapScan_report.findings@[i].kind@).len() == 2,
    ensures
        ({
            let x = record->HeapScan_report.findings@[i];
            shows(
                record_text_of(record, config),
                seq![
                    "        "@ + record_text::finding_explanation(x.kind@)[0],
                    "        "@ + record_text::finding_explanation(x.kind@)[1],
                ],
            )
        }),
{
    let x = record->HeapScan_report.findings@;
    let lines = record_text::heap_scan_lines(record->HeapScan_report);
    let first = record_text::scan_head_lines(record->HeapScan_report) + seq![
        "heap scan findings:"@,
    ];
    text::lemma_blocks_split(x, i);
    let before = first + text::blocks(x.take(i)) + seq![record_text::finding_line(x[i])];
    let after = text::blocks(x.skip(i + 1));
    let own = seq![
        "        "@ + record_text::finding_explanation(x[i].kind@)[0],
        "        "@ + record_text::finding_explanation(x[i].kind@)[1],
    ];
    assert(x[i].lines() =~= seq![record_text::finding_line(x[i])] + own);
    assert(lines =~= before + own + after);
    text::lemma_shows(lines, before, own, after);
}

/// Each known kind of finding has its two lines of explanation; an unknown kind has none.
pub proof fn law_kinds_are_explained(kind: Seq<char>)
    ensures
        kind == "heap_snapshot_unavailable"@ ==> record_text::finding_explanation(kind) == seq![
            "Heapify could not walk the heap snapshot for this event."@,
            "Enable layout or allocator views when possible to collect stronger evidence."@,
        ],
        kind == "heap_snapshot_truncated"@ ==> record_text::finding_explanation(kind) == seq![
            "Heapify stopped the heap walk at the configured chunk limit."@,
            "Findings may be incomplete beyond the walked portion of the heap."@,
        ],
        kind == "allocator_source_conflict"@ ==> record_text::finding_explanation(kind) == seq![
            "The same chunk appears in multiple allocator sources."@,
            "That can indicate stale free-list metadata or overlapping allocator views."@,
        ],
        kind == "allocator_source_allocated"@ ==> record_text::finding_explanation(kind) == seq![
            "Allocator metadata references a chunk the tracker still considers allocated."@,
            "This often points to stale free-list state or a missed allocator transition."@,
        ],
        kind == "free_list_size_mismatch"@ ==> record_text::finding_explanation(kind) == seq![
            "Free-list metadata disagrees with the chunk size metadata."@,
            "Compare the expected bin size with the actual chunk size in the finding message."@,
        ],
        kind == "free_list_node_outside_heap"@ ==> record_text::finding_explanation(kind) == seq![
            "A free-list pointer references an address outside the walked heap."@,
            "This can happen with corrupted next/fd/bk metadata or an incomplete heap view."@,
        ],
        kind == "free_list_cycle"@ ==> record_text::finding_explanation(kind) == seq![
            "A free-list traversal encountered a cycle."@,
            "Allocator lists normally terminate or follow a bounded bin structure."@,
        ],
        kind == "main_arena_top_not_validated"@ ==> record_text::finding_explanation(kind) == seq![
            "The main_arena.top candidate did not match the walked heap boundary."@,
            "Check the glibc profile and main_arena offset before treating this as corruption."@,
        ],
        kind == "bin_validation_suspicious"@ ==> record_text::finding_explanation(kind) == seq![
            "A bin-specific consistency check reported suspicious metadata."@,
            "Inspect the corresponding bin view for fd/bk, size, or chain anomalies."@,
        ],
        kind == "bin_validation_incomplete"@ ==> record_text::finding_explanation(kind) == seq![
            "A bin-specific consistency check lacked enough data to validate fully."@,
            "Enable fuller allocator views or increase traversal limits for more context."@,
        ],
        kind != "heap_snapshot_unavailable"@ && kind != "heap_snapshot_truncated"@ && kind != "allocator_source_conflict"@ && kind != "allocator_source_allocated"@ && kind != "free_list_size_mismatch"@ && kind != "free_list_node_outside_heap"@ && kind != "free_list_cycle"@ && kind != "main_arena_top_not_validated"@ && kind != "bin_validation_suspicious"@ && kind != "bin_validation_incomplete"@
            ==> record_text::finding_explanation(kind).len() == 0,
{
    reveal_strlit("heap_snapshot_unavailable");
    reveal_strlit("heap_snapshot_truncated");
    reveal_strlit("allocator_source_conflict");
    reveal_strlit("allocator_source_allocated");
    reveal_strlit("free_list_size_mismatch");
    reveal_strlit("free_list_node_outside_heap");
    reveal_strlit("free_list_cycle");
    reveal_strlit("main_arena_top_not_validated");
    reveal_strlit("bin_validation_suspicious");
    reveal_strlit("bin_validation_incomplete");
    assert("heap_snapshot_unavailable"@.len() == 25);
    assert("heap_snapshot_truncated"@.len() == 23);
    assert("allocator_source_conflict"@.len() == 25);
    assert("allocator_source_allocated"@.len() == 26);
    assert("free_list_size_mismatch"@.len() == 23);
    assert("free_list_node_outside_heap"@.len() == 27);
    assert("free_list_cycle"@.len() == 15);
    assert("main_arena_top_not_validated"@.len() == 28);
    assert("bin_validation_suspicious"@.len() == 25);
    assert("bin_validation_incomplete"@.len() == 25);
    assert("allocator_source_conflict"@[0] == 'a');
    assert("heap_snapshot_unavailable"@[0] == 'h');
    assert("free_list_size_mismatch"@[0] == 'f');
    assert("heap_snapshot_truncated"@[0] == 'h');
    assert("bin_validation_suspicious"@[0] == 'b');
    assert("bin_validation_incomplete"@[0] == 'b');
    assert("bin_validation_incomplete"@[15] == 'i');
    assert("bin_validation_suspicious"@[15] == 's');
}

} // verus!
