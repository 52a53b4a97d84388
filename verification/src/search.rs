//! Heap queries and console commands, read from what is typed.

use crate::args::CliError;
use crate::number;
use crate::number::{char_vec, parse_json_addr, parse_search_number};
use crate::panes::LiveRightTab;
use crate::record::{JsonLayoutChunk, JsonTraceRecord};
use crate::classify;
use crate::text;
use crate::text::{cat2, owned, same};
use vstd::prelude::*;

verus! {

// ---------------------------------------------------------------------------
// Words
// ---------------------------------------------------------------------------

/// The characters that separate words: those with the Unicode property `White_Space`.
pub open spec fn is_space(c: char) -> bool {
    ||| '\u{9}' <= c <= '\u{d}'
    ||| c == ' '
    ||| c == '\u{85}'
    ||| c == '\u{a0}'
    ||| c == '\u{1680}'
    ||| '\u{2000}' <= c <= '\u{200a}'
    ||| c == '\u{2028}'
    ||| c == '\u{2029}'
    ||| c == '\u{202f}'
    ||| c == '\u{205f}'
    ||| c == '\u{3000}'
}

/// The length of the word that `s` begins with.
pub open spec fn word_len(s: Seq<char>) -> nat
    decreases s.len(),
{
    if s.len() == 0 || is_space(s[0]) {
        0
    } else {
        1 + word_len(s.skip(1))
    }
}

pub proof fn lemma_word_len(s: Seq<char>)
    ensures
        word_len(s) <= s.len(),
        s.len() > 0 && !is_space(s[0]) ==> word_len(s) > 0,
        forall|i: int| 0 <= i < word_len(s) ==> !is_space(#[trigger] s[i]),
        word_len(s) < s.len() ==> is_space(s[word_len(s) as int]),
    decreases s.len(),
{
    if s.len() > 0 && !is_space(s[0]) {
        lemma_word_len(s.skip(1));
        assert forall|i: int| 0 <= i < word_len(s) implies !is_space(#[trigger] s[i]) by {
            if i > 0 {
                assert(s.skip(1)[i - 1] == s[i]);
            }
        }
    }
}

/// The words of a text: its longest runs without white space, in order.
pub open spec fn words(s: Seq<char>) -> Seq<Seq<char>>
    decreases s.len(),
{
    if s.len() == 0 {
        Seq::empty()
    } else if is_space(s[0]) {
        words(s.skip(1))
    } else {
        proof {
            lemma_word_len(s);
        }
        seq![s.take(word_len(s) as int)] + words(s.skip(word_len(s) as int))
    }
}

/// `s` without the white space that it begins with.
pub open spec fn trimmed_start(s: Seq<char>) -> Seq<char>
    decreases s.len(),
{
    if s.len() > 0 && is_space(s[0]) {
        trimmed_start(s.skip(1))
    } else {
        s
    }
}

/// `s` without the white space that it ends with.
pub open spec fn trimmed_end(s: Seq<char>) -> Seq<char>
    decreases s.len(),
{
    if s.len() > 0 && is_space(s.last()) {
        trimmed_end(s.drop_last())
    } else {
        s
    }
}

/// `s` without white space at either end.
pub open spec fn trimmed(s: Seq<char>) -> Seq<char> {
    trimmed_end(trimmed_start(s))
}

fn is_white_space(c: char) -> (r: bool)
    ensures
        r == is_space(c),
{
    ('\u{9}' <= c && c <= '\u{d}') || c == ' ' || c == '\u{85}' || c == '\u{a0}' || c == '\u{1680}'
        || ('\u{2000}' <= c && c <= '\u{200a}') || c == '\u{2028}' || c == '\u{2029}' || c
        == '\u{202f}' || c == '\u{205f}' || c == '\u{3000}'
}

/// The characters from `from` up to `to` as a string.
pub fn slice_text(v: &Vec<char>, from: usize, to: usize) -> (r: String)
    requires
        from <= to <= v.len(),
    ensures
        r@ == v@.subrange(from as int, to as int),
{
    let mut r = String::new();
    let mut i: usize = from;
    assert(v@.subrange(from as int, from as int) =~= r@);
    while i < to
        invariant
            from <= i <= to <= v.len(),
            r@ == v@.subrange(from as int, i as int),
        decreases to - i,
    {
        r.push(v[i]);
        assert(v@.subrange(from as int, i + 1) =~= v@.subrange(from as int, i as int).push(
            v@[i as int],
        ));
        i = i + 1;
    }
    r
}

/// A text without its last character.
pub open spec fn shortened(s: Seq<char>) -> Seq<char> {
    if s.len() == 0 {
        s
    } else {
        s.drop_last()
    }
}

pub fn drop_last_char(s: &str) -> (r: String)
    ensures
        r@ == shortened(s@),
{
    let v = char_vec(s);
    if v.len() == 0 {
        owned(s)
    } else {
        let r = slice_text(&v, 0, v.len() - 1);
        assert(r@ =~= s@.drop_last());
        r
    }
}

/// Splits a text into its words.
pub fn split_words(s: &str) -> (r: Vec<String>)
    ensures
        text::texts(r@) == words(s@),
{
    let v = char_vec(s);
    let mut r: Vec<String> = Vec::new();
    let mut i: usize = 0;
    assert(v@.skip(0) =~= v@);
    assert(text::texts(r@) =~= Seq::empty());
    assert(Seq::<Seq<char>>::empty() + words(s@) =~= words(s@));
    while i < v.len()
        invariant
            i <= v.len(),
            v@ == s@,
            text::texts(r@) + words(v@.skip(i as int)) == words(s@),
        decreases v.len() - i,
    {
        let ghost rest = v@.skip(i as int);
        assert(rest[0] == v@[i as int]);
        if is_white_space(v[i]) {
            assert(rest.skip(1) =~= v@.skip(i + 1));
            i = i + 1;
        } else {
            let from: usize = i;
            i = i + 1;
            proof {
                lemma_word_len(rest);
            }
            while i < v.len() && !is_white_space(v[i])
                invariant
                    from < i <= v.len(),
                    rest == v@.skip(from as int),
                    forall|k: int| 0 <= k < word_len(rest) ==> !is_space(#[trigger] rest[k]),
                    word_len(rest) < rest.len() ==> is_space(rest[word_len(rest) as int]),
                    word_len(rest) <= rest.len(),
                    i - from <= word_len(rest),
                decreases v.len() - i,
            {
                assert(rest[i - from] == v@[i as int]);
                i = i + 1;
            }
            assert(i - from == word_len(rest)) by {
                if i < v.len() {
                    assert(rest[i - from] == v@[i as int]);
                }
            }
            let word = slice_text(&v, from, i);
            assert(word@ =~= rest.take(word_len(rest) as int));
            assert(rest.skip(word_len(rest) as int) =~= v@.skip(i as int));
            let ghost before = text::texts(r@);
            r.push(word);
            assert(text::texts(r@) =~= before.push(word@));
            assert(before.push(word@) + words(v@.skip(i as int)) =~= before + (seq![word@]
                + words(v@.skip(i as int))));
        }
    }
    assert(v@.skip(i as int) =~= Seq::empty());
    assert(text::texts(r@) + words(v@.skip(i as int)) =~= text::texts(r@));
    r
}

/// A text without white space at either end.
pub fn trim_text(s: &str) -> (r: String)
    ensures
        r@ == trimmed(s@),
{
    let v = char_vec(s);
    let mut from: usize = 0;
    assert(v@.skip(0) =~= v@);
    while from < v.len() && is_white_space(v[from])
        invariant
            from <= v.len(),
            v@ == s@,
            trimmed_start(v@.skip(from as int)) == trimmed_start(s@),
        decreases v.len() - from,
    {
        assert(v@.skip(from as int).skip(1) =~= v@.skip(from + 1));
        from = from + 1;
    }
    let ghost start = v@.skip(from as int);
    assert(from < v.len() ==> start[0] == v@[from as int]);
    assert(trimmed_start(s@) == start);
    let mut to: usize = v.len();
    assert(v@.subrange(from as int, to as int) =~= start);
    while to > from && is_white_space(v[to - 1])
        invariant
            from <= to <= v.len(),
            trimmed_end(v@.subrange(from as int, to as int)) == trimmed_end(start),
        decreases to,
    {
        let ghost now = v@.subrange(from as int, to as int);
        assert(now.last() == v@[to - 1]);
        assert(now.drop_last() =~= v@.subrange(from as int, to - 1));
        to = to - 1;
    }
    assert(to > from ==> v@.subrange(from as int, to as int).last() == v@[to - 1]);
    slice_text(&v, from, to)
}

// ---------------------------------------------------------------------------
// Heap queries
// ---------------------------------------------------------------------------

/// What a heap query looks a chunk up by.
#[derive(Debug, Clone, Copy, PartialEq, Eq, Structural)]
pub enum HeapSearchMode {
    AnyAddress,
    UserAddress,
    ChunkAddress,
    Size,
}

/// A heap query.
#[derive(Debug, Clone, Copy, PartialEq, Eq, Structural)]
pub enum HeapSearchQuery {
    AnyAddress(u64),
    UserAddress(u64),
    ChunkAddress(u64),
    Size(u64),
}

pub open spec fn search_mode(word: Seq<char>) -> Option<HeapSearchMode> {
    if word == "a"@ || word == "any"@ {
        Some(HeapSearchMode::AnyAddress)
    } else if word == "u"@ || word == "user"@ {
        Some(HeapSearchMode::UserAddress)
    } else if word == "c"@ || word == "chunk"@ {
        Some(HeapSearchMode::ChunkAddress)
    } else if word == "s"@ || word == "size"@ {
        Some(HeapSearchMode::Size)
    } else {
        None
    }
}

pub fn parse_heap_search_mode(mode: &str) -> (r: Result<HeapSearchMode, CliError>)
    ensures
        match (r, search_mode(mode@)) {
            (Ok(m), Some(k)) => m == k,
            (Err(e), None) => e.message@ == "bad heap jump mode: "@ + mode@,
            _ => false,
        },
{
    if same(mode, "a") || same(mode, "any") {
        Ok(HeapSearchMode::AnyAddress)
    } else if same(mode, "u") || same(mode, "user") {
        Ok(HeapSearchMode::UserAddress)
    } else if same(mode, "c") || same(mode, "chunk") {
        Ok(HeapSearchMode::ChunkAddress)
    } else if same(mode, "s") || same(mode, "size") {
        Ok(HeapSearchMode::Size)
    } else {
        Err(CliError { message: cat2("bad heap jump mode: ", mode) })
    }
}

/// What is said of a number that cannot be read.
pub open spec fn bad_number(value: Seq<char>) -> Seq<char> {
    "bad heap jump number: "@ + if value.len() == 0 {
        "empty"@
    } else {
        value
    }
}

pub fn parse_heap_search_number(value: &str) -> (r: Result<u64, CliError>)
    ensures
        match (r, number::search_number(value@)) {
            (Ok(n), Some(m)) => n == m,
            (Err(e), None) => e.message@ == bad_number(value@),
            _ => false,
        },
{
    match parse_search_number(value) {
        Some(n) => Ok(n),
        None => if value.is_empty() {
            Err(CliError { message: cat2("bad heap jump number: ", "empty") })
        } else {
            Err(CliError { message: cat2("bad heap jump number: ", value) })
        },
    }
}

/// The query that looks for `value` by `mode`.
pub open spec fn query_by(mode: HeapSearchMode, value: u64) -> HeapSearchQuery {
    match mode {
        HeapSearchMode::AnyAddress => HeapSearchQuery::AnyAddress(value),
        HeapSearchMode::UserAddress => HeapSearchQuery::UserAddress(value),
        HeapSearchMode::ChunkAddress => HeapSearchQuery::ChunkAddress(value),
        HeapSearchMode::Size => HeapSearchQuery::Size(value),
    }
}

/// The query that a list of words stands for: a number, or a mode and a number.
pub open spec fn query_of(tokens: Seq<Seq<char>>) -> Result<HeapSearchQuery, Seq<char>> {
    if tokens.len() == 0 {
        Err("empty heap jump query"@)
    } else if tokens.len() == 1 {
        match number::search_number(tokens[0]) {
            Some(value) => Ok(HeapSearchQuery::AnyAddress(value)),
            None => Err(bad_number(tokens[0])),
        }
    } else if tokens.len() == 2 {
        match search_mode(tokens[0]) {
            None => Err("bad heap jump mode: "@ + tokens[0]),
            Some(mode) => match number::search_number(tokens[1]) {
                Some(value) => Ok(query_by(mode, value)),
                None => Err(bad_number(tokens[1])),
            },
        }
    } else {
        Err("too many tokens in heap jump query"@)
    }
}

/// Whether `r` is what `query_of` says.
pub open spec fn is_query(
    r: Result<HeapSearchQuery, CliError>,
    q: Result<HeapSearchQuery, Seq<char>>,
) -> bool {
    match (r, q) {
        (Ok(a), Ok(b)) => a == b,
        (Err(e), Err(message)) => e.message@ == message,
        _ => false,
    }
}

/// Reads the words from `from` on as a query.
fn query_from_tokens(tokens: &Vec<String>, from: usize) -> (r: Result<HeapSearchQuery, CliError>)
    requires
        from <= tokens.len(),
    ensures
        is_query(r, query_of(text::texts(tokens@).skip(from as int))),
{
    let count: usize = tokens.len() - from;
    if count == 0 {
        Err(crate::args::error("empty heap jump query"))
    } else if count == 1 {
        match parse_heap_search_number(tokens[from].as_str()) {
            Ok(value) => Ok(HeapSearchQuery::AnyAddress(value)),
            Err(e) => Err(e),
        }
    } else if count == 2 {
        match parse_heap_search_mode(tokens[from].as_str()) {
            Err(e) => Err(e),
            Ok(mode) => match parse_heap_search_number(tokens[from + 1].as_str()) {
                Err(e) => Err(e),
                Ok(value) => Ok(
                    match mode {
                        HeapSearchMode::AnyAddress => HeapSearchQuery::AnyAddress(value),
                        HeapSearchMode::UserAddress => HeapSearchQuery::UserAddress(value),
                        HeapSearchMode::ChunkAddress => HeapSearchQuery::ChunkAddress(value),
                        HeapSearchMode::Size => HeapSearchQuery::Size(value),
                    },
                ),
            },
        }
    } else {
        Err(crate::args::error("too many tokens in heap jump query"))
    }
}

/// Reads a heap query.
pub fn parse_heap_search_query(input: &str) -> (r: Result<HeapSearchQuery, CliError>)
    ensures
        is_query(r, query_of(words(input@))),
{
    let tokens = split_words(input);
    assert(text::texts(tokens@).skip(0) =~= text::texts(tokens@));
    query_from_tokens(&tokens, 0)
}

/// Whether a chunk is one that a query asks for.
pub open spec fn query_matches(query: HeapSearchQuery, chunk: JsonLayoutChunk) -> bool {
    let start = number::auto_radix_number(chunk.chunk_addr@);
    let user = number::auto_radix_number(chunk.user_addr@);
    let size = number::auto_radix_number(chunk.size@);
    match query {
        HeapSearchQuery::AnyAddress(addr) => match (start, size) {
            (Some(a), Some(n)) => if a + n <= u64::MAX {
                a <= addr < a + n
            } else {
                a == addr || user == Some(addr)
            },
            _ => start == Some(addr) || user == Some(addr),
        },
        HeapSearchQuery::UserAddress(addr) => user == Some(addr),
        HeapSearchQuery::ChunkAddress(addr) => start == Some(addr),
        HeapSearchQuery::Size(n) => size == Some(n),
    }
}

fn same_number(a: Option<u64>, b: u64) -> (r: bool)
    ensures
        r == (a == Some(b)),
{
    match a {
        Some(n) => n == b,
        None => false,
    }
}

pub fn heap_search_query_matches_chunk(query: HeapSearchQuery, chunk: &JsonLayoutChunk) -> (r: bool)
    ensures
        r == query_matches(query, *chunk),
{
    match query {
        HeapSearchQuery::AnyAddress(addr) => {
            let start = parse_json_addr(chunk.chunk_addr.as_str());
            let user = parse_json_addr(chunk.user_addr.as_str());
            let size = parse_json_addr(chunk.size.as_str());
            match (start, size) {
                (Some(a), Some(n)) => match a.checked_add(n) {
                    Some(end) => a <= addr && addr < end,
                    None => a == addr || same_number(user, addr),
                },
                _ => same_number(start, addr) || same_number(user, addr),
            }
        },
        HeapSearchQuery::UserAddress(addr) => same_number(
            parse_json_addr(chunk.user_addr.as_str()),
            addr,
        ),
        HeapSearchQuery::ChunkAddress(addr) => same_number(
            parse_json_addr(chunk.chunk_addr.as_str()),
            addr,
        ),
        HeapSearchQuery::Size(n) => same_number(parse_json_addr(chunk.size.as_str()), n),
    }
}

/// What is said when no chunk matches.
pub open spec fn search_failure(query: HeapSearchQuery) -> Seq<char> {
    match query {
        HeapSearchQuery::AnyAddress(addr) => "no heap chunk contains "@ + text::hex0x(addr as nat),
        HeapSearchQuery::UserAddress(addr) =>
            "no heap chunk with user address "@ + text::hex0x(addr as nat),
        HeapSearchQuery::ChunkAddress(addr) =>
            "no heap chunk with chunk address "@ + text::hex0x(addr as nat),
        HeapSearchQuery::Size(size) => "no heap chunk with size "@ + text::hex0x(size as nat),
    }
}

pub fn format_heap_search_failure(query: HeapSearchQuery) -> (r: String)
    ensures
        r@ == search_failure(query),
{
    match query {
        HeapSearchQuery::AnyAddress(addr) =>
            cat2("no heap chunk contains ", text::format_hex0x(addr).as_str()),
        HeapSearchQuery::UserAddress(addr) =>
            cat2("no heap chunk with user address ", text::format_hex0x(addr).as_str()),
        HeapSearchQuery::ChunkAddress(addr) =>
            cat2("no heap chunk with chunk address ", text::format_hex0x(addr).as_str()),
        HeapSearchQuery::Size(size) =>
            cat2("no heap chunk with size ", text::format_hex0x(size).as_str()),
    }
}

/// The chunks of a layout record; none in any other record.
pub open spec fn layout_chunks(record: Option<JsonTraceRecord>) -> Option<Seq<JsonLayoutChunk>> {
    match record {
        Some(JsonTraceRecord::HeapLayout { chunks, .. }) => Some(chunks@),
        _ => None,
    }
}

/// The first chunk from `i` on that a query asks for.
pub open spec fn first_chunk(
    chunks: Seq<JsonLayoutChunk>,
    i: int,
    query: HeapSearchQuery,
) -> Option<usize>
    decreases chunks.len() - i,
{
    if i < 0 || i >= chunks.len() {
        None
    } else if query_matches(query, chunks[i]) {
        Some(i as usize)
    } else {
        first_chunk(chunks, i + 1, query)
    }
}

pub fn find_layout_chunk(chunks: &Vec<JsonLayoutChunk>, query: HeapSearchQuery) -> (r: Option<usize>)
    ensures
        r == first_chunk(chunks@, 0, query),
        r matches Some(i) ==> i < chunks.len(),
{
    let mut i: usize = 0;
    while i < chunks.len()
        invariant
            i <= chunks.len(),
            first_chunk(chunks@, 0, query) == first_chunk(chunks@, i as int, query),
        decreases chunks.len() - i,
    {
        if heap_search_query_matches_chunk(query, &chunks[i]) {
            return Some(i);
        }
        i = i + 1;
    }
    None
}

pub fn latest_layout_chunks_len(record: Option<&JsonTraceRecord>) -> (r: Option<usize>)
    ensures
        match layout_chunks(classify::opt_record(record)) {
            Some(chunks) => r == Some(chunks.len() as usize) && chunks.len() <= usize::MAX,
            None => r is None,
        },
{
    match record {
        Some(JsonTraceRecord::HeapLayout { chunks, .. }) => Some(chunks.len()),
        _ => None,
    }
}

/// The two addresses of the chunk at `index`.
pub open spec fn chunk_addrs(record: Option<JsonTraceRecord>, index: usize) -> Option<
    (Option<u64>, Option<u64>),
> {
    match layout_chunks(record) {
        Some(chunks) => if index < chunks.len() {
            Some(
                (
                    number::auto_radix_number(chunks[index as int].chunk_addr@),
                    number::auto_radix_number(chunks[index as int].user_addr@),
                ),
            )
        } else {
            None
        },
        None => None,
    }
}

pub fn selected_layout_chunk_addrs(record: Option<&JsonTraceRecord>, index: usize) -> (r: Option<
    (Option<u64>, Option<u64>),
>)
    ensures
        r == chunk_addrs(classify::opt_record(record), index),
{
    match record {
        Some(JsonTraceRecord::HeapLayout { chunks, .. }) => if index < chunks.len() {
            let chunk = &chunks[index];
            Some(
                (
                    parse_json_addr(chunk.chunk_addr.as_str()),
                    parse_json_addr(chunk.user_addr.as_str()),
                ),
            )
        } else {
            None
        },
        _ => None,
    }
}

// ---------------------------------------------------------------------------
// Console commands
// ---------------------------------------------------------------------------

/// A command typed at the console.
#[derive(Debug, Clone, PartialEq, Eq)]
pub enum ConsoleCommand {
    Help,
    Continue,
    Pause,
    Resume,
    NextAllocatorEvent,
    StepInstruction,
    StepInstructionOver,
    Stop,
    Registers,
    Disassemble,
    Stack,
    Maps,
    HeapJump(HeapSearchQuery),
    SelectRightTab(LiveRightTab),
    Unknown(String),
}

/// The model of a [`ConsoleCommand`].
pub enum CommandView {
    Help,
    Continue,
    Pause,
    Resume,
    NextAllocatorEvent,
    StepInstruction,
    StepInstructionOver,
    Stop,
    Registers,
    Disassemble,
    Stack,
    Maps,
    HeapJump(HeapSearchQuery),
    SelectRightTab(LiveRightTab),
    Unknown(Seq<char>),
}

impl View for ConsoleCommand {
    type V = CommandView;

    open spec fn view(&self) -> CommandView {
        match *self {
            ConsoleCommand::Help => CommandView::Help,
            ConsoleCommand::Continue => CommandView::Continue,
            ConsoleCommand::Pause => CommandView::Pause,
            ConsoleCommand::Resume => CommandView::Resume,
            ConsoleCommand::NextAllocatorEvent => CommandView::NextAllocatorEvent,
            ConsoleCommand::StepInstruction => CommandView::StepInstruction,
            ConsoleCommand::StepInstructionOver => CommandView::StepInstructionOver,
            ConsoleCommand::Stop => CommandView::Stop,
            ConsoleCommand::Registers => CommandView::Registers,
            ConsoleCommand::Disassemble => CommandView::Disassemble,
            ConsoleCommand::Stack => CommandView::Stack,
            ConsoleCommand::Maps => CommandView::Maps,
            ConsoleCommand::HeapJump(query) => CommandView::HeapJump(query),
            ConsoleCommand::SelectRightTab(tab) => CommandView::SelectRightTab(tab),
            ConsoleCommand::Unknown(input) => CommandView::Unknown(input@),
        }
    }
}

/// The command that a single word is.
pub open spec fn word_command(word: Seq<char>) -> Option<CommandView> {
    if word == "help"@ || word == "h"@ || word == "?"@ {
        Some(CommandView::Help)
    } else if word == "continue"@ || word == "c"@ || word == "run"@ {
        Some(CommandView::Continue)
    } else if word == "pause"@ || word == "p"@ {
        Some(CommandView::Pause)
    } else if word == "resume"@ || word == "r"@ {
        Some(CommandView::Resume)
    } else if word == "stepi"@ || word == "si"@ || word == "step"@ {
        Some(CommandView::StepInstruction)
    } else if word == "nexti"@ || word == "ni"@ {
        Some(CommandView::StepInstructionOver)
    } else if word == "next"@ || word == "n"@ || word == "next-alloc"@ || word
        == "next_allocator_event"@ {
        Some(CommandView::NextAllocatorEvent)
    } else if word == "stop"@ || word == "quit"@ || word == "q"@ {
        Some(CommandView::Stop)
    } else if word == "regs"@ || word == "registers"@ {
        Some(CommandView::Registers)
    } else if word == "disas"@ || word == "disassemble"@ {
        Some(CommandView::Disassemble)
    } else if word == "stack"@ {
        Some(CommandView::Stack)
    } else if word == "maps"@ {
        Some(CommandView::Maps)
    } else {
        None
    }
}

pub open spec fn tab_named(word: Seq<char>) -> Option<LiveRightTab> {
    if word == "heap"@ {
        Some(LiveRightTab::Heap)
    } else if word == "stack"@ {
        Some(LiveRightTab::Stack)
    } else if word == "logs"@ {
        Some(LiveRightTab::Logs)
    } else if word == "maps"@ {
        Some(LiveRightTab::Maps)
    } else {
        None
    }
}

pub fn parse_console_tab(tab: &str) -> (r: Option<LiveRightTab>)
    ensures
        r == tab_named(tab@),
{
    if same(tab, "heap") {
        Some(LiveRightTab::Heap)
    } else if same(tab, "stack") {
        Some(LiveRightTab::Stack)
    } else if same(tab, "logs") {
        Some(LiveRightTab::Logs)
    } else if same(tab, "maps") {
        Some(LiveRightTab::Maps)
    } else {
        None
    }
}

/// The command that a line is: a word command; `heap` or `jump` with a query; `tab` with the
/// name of a tab; anything else is unknown.
pub open spec fn command_of(input: Seq<char>) -> CommandView {
    let line = trimmed(input);
    let tokens = words(line);
    let unknown = CommandView::Unknown(line);
    if tokens.len() == 0 {
        unknown
    } else if tokens[0] == "heap"@ || tokens[0] == "jump"@ {
        match query_of(tokens.skip(1)) {
            Ok(query) => CommandView::HeapJump(query),
            Err(_) => unknown,
        }
    } else if tokens.len() == 1 {
        match word_command(tokens[0]) {
            Some(command) => command,
            None => unknown,
        }
    } else if tokens.len() == 2 && tokens[0] == "tab"@ {
        match tab_named(tokens[1]) {
            Some(tab) => CommandView::SelectRightTab(tab),
            None => unknown,
        }
    } else {
        unknown
    }
}

fn parse_word_command(word: &str) -> (r: Option<ConsoleCommand>)
    ensures
        match r {
            Some(c) => word_command(word@) == Some(c@),
            None => word_command(word@) is None,
        },
{
    if same(word, "help") || same(word, "h") || same(word, "?") {
        Some(ConsoleCommand::Help)
    } else if same(word, "continue") || same(word, "c") || same(word, "run") {
        Some(ConsoleCommand::Continue)
    } else if same(word, "pause") || same(word, "p") {
        Some(ConsoleCommand::Pause)
    } else if same(word, "resume") || same(word, "r") {
        Some(ConsoleCommand::Resume)
    } else if same(word, "stepi") || same(word, "si") || same(word, "step") {
        Some(ConsoleCommand::StepInstruction)
    } else if same(word, "nexti") || same(word, "ni") {
        Some(ConsoleCommand::StepInstructionOver)
    } else if same(word, "next") || same(word, "n") || same(word, "next-alloc") || same(
        word,
        "next_allocator_event",
    ) {
        Some(ConsoleCommand::NextAllocatorEvent)
    } else if same(word, "stop") || same(word, "quit") || same(word, "q") {
        Some(ConsoleCommand::Stop)
    } else if same(word, "regs") || same(word, "registers") {
        Some(ConsoleCommand::Registers)
    } else if same(word, "disas") || same(word, "disassemble") {
        Some(ConsoleCommand::Disassemble)
    } else if same(word, "stack") {
        Some(ConsoleCommand::Stack)
    } else if same(word, "maps") {
        Some(ConsoleCommand::Maps)
    } else {
        None
    }
}

/// Reads a console line.
pub fn parse_console_command(input: &str) -> (r: ConsoleCommand)
    ensures
        r@ == command_of(input@),
{
    let line = trim_text(input);
    let tokens = split_words(line.as_str());
    let ghost all = text::texts(tokens@);
    if tokens.len() == 0 {
        ConsoleCommand::Unknown(line)
    } else if same(tokens[0].as_str(), "heap") || same(tokens[0].as_str(), "jump") {
        match query_from_tokens(&tokens, 1) {
            Ok(query) => ConsoleCommand::HeapJump(query),
            Err(_) => ConsoleCommand::Unknown(line),
        }
    } else if tokens.len() == 1 {
        match parse_word_command(tokens[0].as_str()) {
            Some(command) => command,
            None => ConsoleCommand::Unknown(line),
        }
    } else if tokens.len() == 2 && same(tokens[0].as_str(), "tab") {
        match parse_console_tab(tokens[1].as_str()) {
            Some(tab) => ConsoleCommand::SelectRightTab(tab),
            None => ConsoleCommand::Unknown(line),
        }
    } else {
        ConsoleCommand::Unknown(line)
    }
}

// ---------------------------------------------------------------------------
// Laws
// ---------------------------------------------------------------------------

proof fn lemma_words_skip_space(s: Seq<char>)
    ensures
        words(trimmed_start(s)) == words(s),
    decreases s.len(),
{
    if s.len() > 0 && is_space(s[0]) {
        lemma_words_skip_space(s.skip(1));
    }
}

proof fn lemma_words_drop_space(s: Seq<char>)
    requires
        s.len() > 0,
        is_space(s.last()),
    ensures
        words(s.drop_last()) == words(s),
    decreases s.len(),
{
    let t = s.drop_last();
    if s.len() == 1 {
        assert(s.skip(1) =~= t);
    } else if is_space(s[0]) {
        assert(s.skip(1).drop_last() =~= t.skip(1));
        lemma_words_drop_space(s.skip(1));
    } else {
        lemma_word_len(s);
        lemma_word_len(t);
        let n = word_len(s) as int;
        assert(n < s.len()) by {
            if n == s.len() {
                assert(!is_space(s[s.len() - 1]));
            }
        }
        lemma_same_word(s, t);
        assert(s.take(n) =~= t.take(n));
        assert(s.skip(n).drop_last() =~= t.skip(n));
        lemma_words_drop_space(s.skip(n));
    }
}

proof fn lemma_same_word(s: Seq<char>, t: Seq<char>)
    requires
        t == s.drop_last(),
        s.len() > 0,
        is_space(s.last()),
    ensures
        word_len(s) == word_len(t),
    decreases s.len(),
{
    if s.len() > 1 && !is_space(s[0]) {
        assert(s.skip(1).drop_last() =~= t.skip(1));
        lemma_same_word(s.skip(1), t.skip(1));
    }
}

proof fn lemma_words_trimmed_end(s: Seq<char>)
    ensures
        words(trimmed_end(s)) == words(s),
    decreases s.len(),
{
    if s.len() > 0 && is_space(s.last()) {
        lemma_words_drop_space(s);
        lemma_words_trimmed_end(s.drop_last());
    }
}

/// White space at the ends of a line does not change its words.
pub proof fn law_words_ignore_outer_space(s: Seq<char>)
    ensures
        words(trimmed(s)) == words(s),
{
    lemma_words_skip_space(s);
    lemma_words_trimmed_end(trimmed_start(s));
}

/// Whether a text is not empty and holds no white space.
pub open spec fn solid(word: Seq<char>) -> bool {
    word.len() > 0 && forall|k: int| 0 <= k < word.len() ==> !is_space(#[trigger] word[k])
}

/// No word is empty and none holds white space.
pub proof fn law_words_are_solid(s: Seq<char>)
    ensures
        forall|i: int| 0 <= i < words(s).len() ==> solid(#[trigger] words(s)[i]),
    decreases s.len(),
{
    if s.len() > 0 {
        if is_space(s[0]) {
            law_words_are_solid(s.skip(1));
            assert(words(s) == words(s.skip(1)));
        } else {
            lemma_word_len(s);
            let n = word_len(s) as int;
            law_words_are_solid(s.skip(n));
            assert(solid(s.take(n)));
            assert forall|i: int| 0 <= i < words(s).len() implies solid(#[trigger] words(s)[i]) by {
                if i > 0 {
                    assert(words(s)[i] == words(s.skip(n))[i - 1]);
                }
            }
        }
    } else {
        assert(words(s).len() == 0);
    }
}

/// A search returns a chunk that the query asks for, and no earlier chunk is one; it returns
/// nothing exactly when no chunk is one.
pub proof fn law_search_finds_the_first(chunks: Seq<JsonLayoutChunk>, query: HeapSearchQuery)
    requires
        chunks.len() <= usize::MAX,
    ensures
        match first_chunk(chunks, 0, query) {
            Some(i) => i < chunks.len() && query_matches(query, chunks[i as int]) && forall|j: int|
                0 <= j < i ==> !query_matches(query, #[trigger] chunks[j]),
            None => forall|j: int|
                0 <= j < chunks.len() ==> !query_matches(query, #[trigger] chunks[j]),
        },
{
    lemma_first_chunk(chunks, 0, query);
}

proof fn lemma_first_chunk(chunks: Seq<JsonLayoutChunk>, i: int, query: HeapSearchQuery)
    requires
        0 <= i <= chunks.len() <= usize::MAX,
        forall|j: int| 0 <= j < i ==> !query_matches(query, #[trigger] chunks[j]),
    ensures
        match first_chunk(chunks, i, query) {
            Some(k) => k < chunks.len() && query_matches(query, chunks[k as int]) && forall|j: int|
                0 <= j < k ==> !query_matches(query, #[trigger] chunks[j]),
            None => forall|j: int|
                0 <= j < chunks.len() ==> !query_matches(query, #[trigger] chunks[j]),
        },
    decreases chunks.len() - i,
{
    if i < chunks.len() && !query_matches(query, chunks[i]) {
        lemma_first_chunk(chunks, i + 1, query);
    }
}

/// A query without a mode finds what lies anywhere in a chunk: every address from its start
/// up to its end, and no other, where the chunk's extent can be read.
pub proof fn law_any_address_covers_the_chunk(chunk: JsonLayoutChunk, addr: u64)
    requires
        number::auto_radix_number(chunk.chunk_addr@) is Some,
        number::auto_radix_number(chunk.size@) is Some,
        number::auto_radix_number(chunk.chunk_addr@)->0 + number::auto_radix_number(
            chunk.size@,
        )->0 <= u64::MAX,
    ensures
        query_matches(HeapSearchQuery::AnyAddress(addr), chunk) <==> number::auto_radix_number(
            chunk.chunk_addr@,
        )->0 <= addr < number::auto_radix_number(chunk.chunk_addr@)->0 + number::auto_radix_number(
            chunk.size@,
        )->0,
{
}

/// A word ends where white space or the text does.
proof fn lemma_word_before(word: Seq<char>, rest: Seq<char>)
    requires
        forall|i: int| 0 <= i < word.len() ==> !is_space(#[trigger] word[i]),
        rest.len() > 0 ==> is_space(rest[0]),
    ensures
        word_len(word + rest) == word.len(),
    decreases word.len(),
{
    let s = word + rest;
    if word.len() == 0 {
        assert(s =~= rest);
    } else {
        assert(s[0] == word[0]);
        assert(s.skip(1) =~= word.skip(1) + rest);
        lemma_word_before(word.skip(1), rest);
    }
}

/// A text without white space is one word.
proof fn lemma_one_word(word: Seq<char>)
    requires
        solid(word),
    ensures
        words(word) == seq![word],
{
    lemma_word_before(word, Seq::empty());
    assert(word + Seq::<char>::empty() =~= word);
    assert(word.take(word.len() as int) =~= word);
    assert(word.skip(word.len() as int) =~= Seq::empty());
    assert(!is_space(word[0]));
    assert(words(Seq::<char>::empty()) =~= Seq::empty());
    assert(words(word) =~= seq![word]);
}

/// A mode word before a number makes a query by that mode.
proof fn lemma_moded_query(prefix: Seq<char>, mode: Seq<char>, number: Seq<char>)
    requires
        solid(mode),
        prefix == mode.push(' '),
        search_mode(mode) is Some,
        solid(number),
    ensures
        query_of(words(prefix + number)) == match number::search_number(number) {
            Some(value) => Ok::<HeapSearchQuery, Seq<char>>(
                query_by(search_mode(mode)->0, value),
            ),
            None => Err(bad_number(number)),
        },
{
    let s = prefix + number;
    let rest = seq![' '] + number;
    assert(s =~= mode + rest);
    lemma_word_before(mode, rest);
    lemma_one_word(number);
    assert(s[0] == mode[0]);
    assert(s.take(mode.len() as int) =~= mode);
    assert(s.skip(mode.len() as int) =~= rest);
    assert(rest.skip(1) =~= number);
    assert(words(rest) == seq![number]);
    assert(words(s) =~= seq![mode, number]);
}

/// The words that name a mode.
proof fn lemma_mode_words()
    ensures
        search_mode("a"@) == Some(HeapSearchMode::AnyAddress),
        search_mode("any"@) == Some(HeapSearchMode::AnyAddress),
        search_mode("u"@) == Some(HeapSearchMode::UserAddress),
        search_mode("user"@) == Some(HeapSearchMode::UserAddress),
        search_mode("c"@) == Some(HeapSearchMode::ChunkAddress),
        search_mode("chunk"@) == Some(HeapSearchMode::ChunkAddress),
        search_mode("s"@) == Some(HeapSearchMode::Size),
        search_mode("size"@) == Some(HeapSearchMode::Size),
{
    reveal_strlit("a");
    reveal_strlit("any");
    reveal_strlit("u");
    reveal_strlit("user");
    reveal_strlit("c");
    reveal_strlit("chunk");
    reveal_strlit("s");
    reveal_strlit("size");
    assert("a"@[0] == 'a' && "any"@[0] == 'a');
    assert("u"@[0] == 'u' && "user"@[0] == 'u');
    assert("c"@[0] == 'c' && "chunk"@[0] == 'c');
    assert("s"@[0] == 's' && "size"@[0] == 's');
}

/// The words that name a mode hold no white space, and one space makes them a prefix.
proof fn lemma_mode_prefixes()
    ensures
        solid("a"@) && "a "@ == "a"@.push(' '),
        solid("any"@) && "any "@ == "any"@.push(' '),
        solid("u"@) && "u "@ == "u"@.push(' '),
        solid("user"@) && "user "@ == "user"@.push(' '),
        solid("c"@) && "c "@ == "c"@.push(' '),
        solid("chunk"@) && "chunk "@ == "chunk"@.push(' '),
        solid("s"@) && "s "@ == "s"@.push(' '),
        solid("size"@) && "size "@ == "size"@.push(' '),
{
    reveal_strlit("a");
    reveal_strlit("a ");
    reveal_strlit("any");
    reveal_strlit("any ");
    reveal_strlit("u");
    reveal_strlit("u ");
    reveal_strlit("user");
    reveal_strlit("user ");
    reveal_strlit("c");
    reveal_strlit("c ");
    reveal_strlit("chunk");
    reveal_strlit("chunk ");
    reveal_strlit("s");
    reveal_strlit("s ");
    reveal_strlit("size");
    reveal_strlit("size ");
    assert("a "@ =~= "a"@.push(' '));
    assert("any "@ =~= "any"@.push(' '));
    assert("u "@ =~= "u"@.push(' '));
    assert("user "@ =~= "user"@.push(' '));
    assert("c "@ =~= "c"@.push(' '));
    assert("chunk "@ =~= "chunk"@.push(' '));
    assert("s "@ =~= "s"@.push(' '));
    assert("size "@ =~= "size"@.push(' '));
}

/// The short and the long word of a mode mean the same, a bare number means any address, and
/// whether a query can be read depends on its number alone: all forms succeed with that number,
/// or all fail with the same words.
pub proof fn law_query_modes_agree(number: Seq<char>)
    requires
        solid(number),
    ensures
        query_of(words("a "@ + number)) == query_of(words(number)),
        query_of(words("any "@ + number)) == query_of(words(number)),
        query_of(words("u "@ + number)) == query_of(words("user "@ + number)),
        query_of(words("c "@ + number)) == query_of(words("chunk "@ + number)),
        query_of(words("s "@ + number)) == query_of(words("size "@ + number)),
        match number::search_number(number) {
            Some(value) => {
                &&& query_of(words(number)) == Ok::<HeapSearchQuery, Seq<char>>(
                    HeapSearchQuery::AnyAddress(value),
                )
                &&& query_of(words("u "@ + number)) == Ok::<HeapSearchQuery, Seq<char>>(
                    HeapSearchQuery::UserAddress(value),
                )
                &&& query_of(words("c "@ + number)) == Ok::<HeapSearchQuery, Seq<char>>(
                    HeapSearchQuery::ChunkAddress(value),
                )
                &&& query_of(words("s "@ + number)) == Ok::<HeapSearchQuery, Seq<char>>(
                    HeapSearchQuery::Size(value),
                )
            },
            None => {
                let failure = Err::<HeapSearchQuery, Seq<char>>(bad_number(number));
                &&& query_of(words(number)) == failure
                &&& query_of(words("u "@ + number)) == failure
                &&& query_of(words("c "@ + number)) == failure
                &&& query_of(words("s "@ + number)) == failure
            },
        },
{
    lemma_mode_words();
    lemma_mode_prefixes();
    lemma_one_word(number);
    lemma_moded_query("a "@, "a"@, number);
    lemma_moded_query("any "@, "any"@, number);
    lemma_moded_query("u "@, "u"@, number);
    lemma_moded_query("user "@, "user"@, number);
    lemma_moded_query("c "@, "c"@, number);
    lemma_moded_query("chunk "@, "chunk"@, number);
    lemma_moded_query("s "@, "s"@, number);
    lemma_moded_query("size "@, "size"@, number);
}

} // verus!
