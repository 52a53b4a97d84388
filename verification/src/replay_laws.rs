//! What the text of each record of a trace tells of the record.

use crate::record::{
    JsonCallerSymbol, JsonChunk, JsonHeapEvent, JsonTcacheEntry, JsonTraceRecord,
};
use crate::replay::record_text_of;
use crate::replay_text;
use crate::replay_text::ReplayConfig;
use crate::text;
use crate::text::{begins_with_line, ends_with_line, shows, shows_line};
use vstd::prelude::*;

verus! {

// ---------------------------------------------------------------------------
// Events
// ---------------------------------------------------------------------------

/// Whether a text tells what the tracker made of an event: its note, and below it the
/// explanation where there is one. Nothing follows.
pub open spec fn tells_tracker(
    s: Seq<char>,
    note: Seq<char>,
    explanation: Option<String>,
) -> bool {
    match explanation {
        Some(e) => shows(s, seq!["    tracker: "@ + note, "    explanation: "@ + e@])
            && ends_with_line(s, "    explanation: "@ + e@),
        None => shows_line(s, "    tracker: "@ + note) && ends_with_line(
            s,
            "    tracker: "@ + note,
        ),
    }
}

/// Every event tells the tracker's note, and its explanation where it has one, whatever kind of
/// call it is and whatever options it is replayed with.
pub proof fn law_tracker_note_is_shown(event: JsonHeapEvent, config: ReplayConfig)
    ensures
        ({
            let s = record_text_of(JsonTraceRecord::Event { event }, config);
            match event {
                JsonHeapEvent::Malloc { tracker_note, tracker_explanation, .. } => tells_tracker(
                    s,
                    tracker_note@,
                    tracker_explanation,
                ),
                JsonHeapEvent::Free { tracker_note, tracker_explanation, .. } => tells_tracker(
                    s,
                    tracker_note@,
                    tracker_explanation,
                ),
                JsonHeapEvent::Calloc { tracker_note, tracker_explanation, .. } => tells_tracker(
                    s,
                    tracker_note@,
                    tracker_explanation,
                ),
                JsonHeapEvent::Realloc { tracker_note, tracker_explanation, .. } => tells_tracker(
                    s,
                    tracker_note@,
                    tracker_explanation,
                ),
            }
        }),
{
    let lines = replay_text::event_lines(event, config);
    let (note, explanation) = match event {
        JsonHeapEvent::Malloc { tracker_note, tracker_explanation, .. } => (
            tracker_note@,
            tracker_explanation,
        ),
        JsonHeapEvent::Free { tracker_note, tracker_explanation, .. } => (
            tracker_note@,
            tracker_explanation,
        ),
        JsonHeapEvent::Calloc { tracker_note, tracker_explanation, .. } => (
            tracker_note@,
            tracker_explanation,
        ),
        JsonHeapEvent::Realloc { tracker_note, tracker_explanation, .. } => (
            tracker_note@,
            tracker_explanation,
        ),
    };
    text::lemma_text_ends(lines);
    match explanation {
        Some(e) => {
            let part = seq!["    tracker: "@ + note, "    explanation: "@ + e@];
            text::lemma_shows_at(lines, lines.len() - 2, part);
        },
        None => {
            let part = seq!["    tracker: "@ + note];
            text::lemma_shows_at(lines, lines.len() - 1, part);
        },
    }
}

/// The text of an event begins with its number and its call, with the arguments in their order
/// and the pointer that the call returned.
pub proof fn law_event_begins_with_its_call(event: JsonHeapEvent, config: ReplayConfig)
    ensures
        ({
            let s = record_text_of(JsonTraceRecord::Event { event }, config);
            match event {
                JsonHeapEvent::Malloc { event_id, requested_size, returned_ptr, .. } =>
                    begins_with_line(
                    s,
                    "#"@ + text::dec(event_id as nat) + " malloc("@ + requested_size@ + ") = "@
                        + returned_ptr@,
                ),
                JsonHeapEvent::Free { event_id, ptr, .. } => begins_with_line(
                    s,
                    "#"@ + text::dec(event_id as nat) + " free("@ + ptr@ + ")"@,
                ),
                JsonHeapEvent::Calloc { event_id, nmemb, size, returned_ptr, .. } =>
                    begins_with_line(
                    s,
                    "#"@ + text::dec(event_id as nat) + " calloc("@ + nmemb@ + ", "@ + size@
                        + ") = "@ + returned_ptr@,
                ),
                JsonHeapEvent::Realloc { event_id, old_ptr, new_size, returned_ptr, .. } =>
                    begins_with_line(
                    s,
                    "#"@ + text::dec(event_id as nat) + " realloc("@ + old_ptr@ + ", "@ + new_size@
                        + ") = "@ + returned_ptr@,
                ),
            }
        }),
{
    text::lemma_text_ends(replay_text::event_lines(event, config));
}

/// The address and the symbol that an event was called from.
pub open spec fn caller_of(event: JsonHeapEvent) -> (Option<String>, Option<JsonCallerSymbol>) {
    match event {
        JsonHeapEvent::Malloc { caller_addr, caller_symbol, .. } => (caller_addr, caller_symbol),
        JsonHeapEvent::Free { caller_addr, caller_symbol, .. } => (caller_addr, caller_symbol),
        JsonHeapEvent::Calloc { caller_addr, caller_symbol, .. } => (caller_addr, caller_symbol),
        JsonHeapEvent::Realloc { caller_addr, caller_symbol, .. } => (caller_addr, caller_symbol),
    }
}

/// An event tells where it was called from right below its call: by symbol where there is one,
/// with its object, its offset unless that is zero, and the address; and by the address alone
/// where there is none.
pub proof fn law_caller_is_shown(event: JsonHeapEvent, config: ReplayConfig)
    requires
        !config.events_only,
    ensures
        ({
            let s = record_text_of(JsonTraceRecord::Event { event }, config);
            match caller_of(event) {
                (_, Some(symbol)) => {
                    let addr = match caller_of(event).0 {
                        Some(a) => a@,
                        None => symbol.symbol_addr@,
                    };
                    let object = match symbol.object {
                        Some(o) => o@ + "!"@,
                        None => Seq::empty(),
                    };
                    let offset = if symbol.offset@ == "0x0"@ {
                        Seq::empty()
                    } else {
                        "+"@ + symbol.offset@
                    };
                    shows_line(
                        s,
                        "    caller:     "@ + object + symbol.symbol@ + offset + " ("@ + addr
                            + ")"@,
                    )
                },
                (Some(addr), None) => shows_line(s, "    caller:     "@ + addr@),
                (None, None) => true,
            }
        }),
{
    let lines = replay_text::event_lines(event, config);
    text::lemma_shows_lines(lines);
    match caller_of(event) {
        (_, Some(symbol)) => {
            let addr = match caller_of(event).0 {
                Some(a) => a@,
                None => symbol.symbol_addr@,
            };
            let object = match symbol.object {
                Some(o) => o@ + "!"@,
                None => Seq::empty(),
            };
            let offset = if symbol.offset@ == "0x0"@ {
                Seq::empty()
            } else {
                "+"@ + symbol.offset@
            };
            assert(lines[1] == "    caller:     "@ + replay_text::caller_symbol_text(
                symbol,
                caller_of(event).0,
            ));
            assert(lines[1] =~= "    caller:     "@ + object + symbol.symbol@ + offset + " ("@ + addr
                + ")"@);
        },
        (Some(addr), None) => {
            assert(lines[1] == "    caller:     "@ + addr@);
        },
        (None, None) => {},
    }
}

/// Where the source file of the caller is known, a line of its own gives it, with the line and
/// the column as far as they are known.
pub proof fn law_caller_source_is_shown(
    event: JsonHeapEvent,
    config: ReplayConfig,
    symbol: JsonCallerSymbol,
    file: String,
)
    requires
        !config.events_only,
        caller_of(event).1 == Some(symbol),
        symbol.source is Some,
        symbol.source->0.file == Some(file),
    ensures
        ({
            let s = record_text_of(JsonTraceRecord::Event { event }, config);
            let source = symbol.source->0;
            shows_line(
                s,
                "    at          "@ + file@ + (match (source.line, source.column) {
                    (Some(l), Some(c)) => ":"@ + text::dec(l as nat) + ":"@ + text::dec(c as nat),
                    (Some(l), None) => ":"@ + text::dec(l as nat),
                    (None, Some(c)) => ":?:"@ + text::dec(c as nat),
                    (None, None) => Seq::empty(),
                }),
            )
        }),
{
    let lines = replay_text::event_lines(event, config);
    let source = symbol.source->0;
    text::lemma_shows_lines(lines);
    let place = replay_text::source_location_text(source.file, source.line, source.column);
    assert(lines[2] == "    at          "@ + place->0);
    assert(lines[2] =~= "    at          "@ + file@ + (match (source.line, source.column) {
        (Some(l), Some(c)) => ":"@ + text::dec(l as nat) + ":"@ + text::dec(c as nat),
        (Some(l), None) => ":"@ + text::dec(l as nat),
        (None, Some(c)) => ":?:"@ + text::dec(c as nat),
        (None, None) => Seq::empty(),
    }));
}

/// The lines of a chunk header under a label: every field on a line of its own, in a fixed
/// order.
pub open spec fn header_lines(label: Seq<char>, chunk: JsonChunk, flags: Seq<char>) -> Seq<
    Seq<char>,
> {
    seq![
        label,
        "        chunk:      "@ + chunk.chunk_addr@,
        "        user:       "@ + chunk.user_addr@,
        "        prev_size:  "@ + chunk.prev_size@,
        "        size_raw:   "@ + chunk.size_raw@,
        "        size:       "@ + chunk.size@,
        "        flags:      "@ + flags,
    ]
}

/// The flags of a chunk, with bars between them, or the word that there are none.
pub open spec fn flag_list(flags: Seq<String>, shown: Seq<char>) -> bool {
    &&& flags.len() == 0 ==> shown == "none"@
    &&& flags.len() == 1 ==> shown == flags[0]@
    &&& flags.len() == 2 ==> shown == flags[0]@ + " | "@ + flags[1]@
    &&& flags.len() == 3 ==> shown == flags[0]@ + " | "@ + flags[1]@ + " | "@ + flags[2]@
}

proof fn lemma_flag_list(flags: Seq<String>)
    ensures
        flag_list(flags, replay_text::flags_text(flags)),
{
    let t = text::texts(flags);
    reveal_with_fuel(text::join, 3);
    if flags.len() >= 2 {
        assert(t.drop_last().len() == flags.len() - 1);
    }
    if flags.len() == 3 {
        assert(t.drop_last().drop_last()[0] == t[0]);
        assert(t.drop_last().last() == t[1]);
    }
}

/// Whether a text shows a chunk header, or the word that it could not be read, which it says of
/// every pointer but a null one.
pub open spec fn tells_chunk(
    s: Seq<char>,
    label: Seq<char>,
    chunk: Option<JsonChunk>,
    ptr: Seq<char>,
) -> bool {
    match chunk {
        Some(c) => exists|flags: Seq<char>|
            flag_list(c.flags@, flags) && #[trigger] shows(
                s,
                header_lines("    "@ + label + ":"@, c, flags),
            ),
        None => ptr != "0x0"@ ==> shows_line(s, "    "@ + label + ": unavailable"@),
    }
}

proof fn lemma_tells_chunk(
    lines: Seq<Seq<char>>,
    before: Seq<Seq<char>>,
    label: Seq<char>,
    chunk: Option<JsonChunk>,
    ptr: Seq<char>,
    after: Seq<Seq<char>>,
)
    requires
        lines == before + replay_text::chunk_or_missing(label, chunk, ptr) + after,
    ensures
        tells_chunk(text::unlines(lines), label, chunk, ptr),
{
    let part = replay_text::chunk_or_missing(label, chunk, ptr);
    match chunk {
        Some(c) => {
            let flags = replay_text::flags_text(c.flags@);
            lemma_flag_list(c.flags@);
            assert(part =~= header_lines("    "@ + label + ":"@, c, flags));
            text::lemma_shows(lines, before, part, after);
        },
        None => if ptr != "0x0"@ {
            assert(part =~= seq!["    "@ + label + ": unavailable"@]);
            text::lemma_shows(lines, before, part, after);
        },
    }
}

/// Where chunks are shown, every call shows the chunk that it was about; `realloc` the new one,
/// and the old one where it is known.
pub proof fn law_chunks_are_shown(event: JsonHeapEvent, config: ReplayConfig)
    requires
        config.show_chunks,
    ensures
        ({
            let s = record_text_of(JsonTraceRecord::Event { event }, config);
            match event {
                JsonHeapEvent::Malloc { chunk, returned_ptr, .. } => tells_chunk(
                    s,
                    "chunk"@,
                    chunk,
                    returned_ptr@,
                ),
                JsonHeapEvent::Free { chunk, ptr, .. } => tells_chunk(s, "chunk"@, chunk, ptr@),
                JsonHeapEvent::Calloc { chunk, returned_ptr, .. } => tells_chunk(
                    s,
                    "chunk"@,
                    chunk,
                    returned_ptr@,
                ),
                JsonHeapEvent::Realloc { old_chunk, new_chunk, returned_ptr, .. } => tells_chunk(
                    s,
                    "new chunk"@,
                    new_chunk,
                    returned_ptr@,
                ) && (old_chunk is Some ==> tells_chunk(s, "old chunk"@, old_chunk, "0x0"@)),
            }
        }),
{
    let lines = replay_text::event_lines(event, config);
    let head = seq![replay_text::event_summary(event)] + (if config.events_only {
        Seq::empty()
    } else {
        replay_text::event_caller_lines(event)
    });
    let tail = replay_text::event_tracker_lines(event);
    match event {
        JsonHeapEvent::Malloc { chunk, returned_ptr, .. } => {
            lemma_tells_chunk(lines, head, "chunk"@, chunk, returned_ptr@, tail);
        },
        JsonHeapEvent::Free { chunk, ptr, tcache_entry, .. } => {
            let rest = replay_text::tcache_entry_lines(tcache_entry) + tail;
            assert(lines =~= head + replay_text::chunk_or_missing("chunk"@, chunk, ptr@) + rest);
            lemma_tells_chunk(lines, head, "chunk"@, chunk, ptr@, rest);
        },
        JsonHeapEvent::Calloc { chunk, returned_ptr, .. } => {
            lemma_tells_chunk(lines, head, "chunk"@, chunk, returned_ptr@, tail);
        },
        JsonHeapEvent::Realloc { old_chunk, new_chunk, returned_ptr, .. } => {
            let old_lines = replay_text::chunk_if_known("old chunk"@, old_chunk);
            let new_lines = replay_text::chunk_or_missing("new chunk"@, new_chunk, returned_ptr@);
            assert(lines =~= (head + old_lines) + new_lines + tail);
            lemma_tells_chunk(
                lines,
                head + old_lines,
                "new chunk"@,
                new_chunk,
                returned_ptr@,
                tail,
            );
            if old_chunk is Some {
                assert(lines =~= head + replay_text::chunk_or_missing(
                    "old chunk"@,
                    old_chunk,
                    "0x0"@,
                ) + (new_lines + tail));
                lemma_tells_chunk(
                    lines,
                    head,
                    "old chunk"@,
                    old_chunk,
                    "0x0"@,
                    new_lines + tail,
                );
            }
        },
    }
}

/// Where chunks are shown, a `free` shows the link that the freed chunk holds.
pub proof fn law_tcache_entry_is_shown(
    event: JsonHeapEvent,
    config: ReplayConfig,
    entry: JsonTcacheEntry,
)
    requires
        config.show_chunks,
        event is Free,
        event->tcache_entry == Some(entry),
    ensures
        shows(
            record_text_of(JsonTraceRecord::Event { event }, config),
            seq![
                "    tcache candidate:"@,
                "        storage:      "@ + entry.storage_addr@,
                "        encoded_next: "@ + entry.encoded_next@,
                "        decoded_next: "@ + entry.decoded_next@,
            ],
        ),
{
    let lines = replay_text::event_lines(event, config);
    let tail = replay_text::event_tracker_lines(event);
    let part = seq![
        "    tcache candidate:"@,
        "        storage:      "@ + entry.storage_addr@,
        "        encoded_next: "@ + entry.encoded_next@,
        "        decoded_next: "@ + entry.decoded_next@,
    ];
    text::lemma_shows_at(lines, lines.len() - tail.len() - 4, part);
}

/// Where chunks are hidden the text of an event does not depend on them, and where only events
/// are asked for it does not depend on the caller.
pub proof fn law_hidden_parts_do_not_matter(
    event_id: usize,
    ptr: String,
    chunk: Option<JsonChunk>,
    other_chunk: Option<JsonChunk>,
    entry: Option<JsonTcacheEntry>,
    other_entry: Option<JsonTcacheEntry>,
    caller_addr: Option<String>,
    other_caller: Option<String>,
    caller_symbol: Option<JsonCallerSymbol>,
    other_symbol: Option<JsonCallerSymbol>,
    tracker_note: String,
    tracker_explanation: Option<String>,
    config: ReplayConfig,
)
    ensures
        ({
            let one = JsonHeapEvent::Free {
                event_id,
                ptr,
                chunk,
                tcache_entry: entry,
                caller_addr,
                caller_symbol,
                tracker_note,
                tracker_explanation,
            };
            let other = JsonHeapEvent::Free {
                event_id,
                ptr,
                chunk: if config.show_chunks { chunk } else { other_chunk },
                tcache_entry: if config.show_chunks { entry } else { other_entry },
                caller_addr: if config.events_only { other_caller } else { caller_addr },
                caller_symbol: if config.events_only { other_symbol } else { caller_symbol },
                tracker_note,
                tracker_explanation,
            };
            record_text_of(JsonTraceRecord::Event { event: one }, config) == record_text_of(
                JsonTraceRecord::Event { event: other },
                config,
            )
        }),
{
}

} // verus!
