//! Text of a stopped target: stack words, memory maps and code.

use vstd::prelude::*;
use crate::classify;
use crate::classify::{annotate_stack_value, contains_char};
use crate::record::JsonTraceRecord;
use crate::registers;
use crate::registers::{format_note_suffix, format_register_value_fixed_hex};
use crate::snapshot::{
    CodeContext, DisassemblyFlowControl, DisassemblyLine, DisassemblySnapshot, ProcessMapEntry,
    ProcessMapsSnapshot, SourceLocation, StackSnapshot, StackWord, SymbolizedAddress,
};
use crate::text;
use crate::text::{cat2, cat3, cat4, cat5, cat6, cat7, owned, Block, Lines};

verus! {

// ---------------------------------------------------------------------------
// Stack
// ---------------------------------------------------------------------------

/// A stack word with the note for its value.
pub open spec fn is_annotated(
    word: StackWord,
    before: StackWord,
    maps: Option<ProcessMapsSnapshot>,
    layout: Option<JsonTraceRecord>,
    rip: Option<u64>,
) -> bool {
    &&& word.offset_from_sp == before.offset_from_sp
    &&& word.address == before.address
    &&& word.value == before.value
    &&& text::opt(word.annotation) == classify::value_note(
        before.value,
        maps,
        layout,
        rip,
        "rip"@,
    )
}

/// Whether `after` is a stack with a note for every word; all else is as it was.
pub open spec fn is_annotated_stack(
    after: StackSnapshot,
    before: StackSnapshot,
    maps: Option<ProcessMapsSnapshot>,
    layout: Option<JsonTraceRecord>,
    rip: Option<u64>,
) -> bool {
    &&& after.stack_pointer == before.stack_pointer
    &&& after.word_size == before.word_size
    &&& after.truncated == before.truncated
    &&& after.read_error == before.read_error
    &&& after.words@.len() == before.words@.len()
    &&& forall|i: int|
        0 <= i < after.words@.len() ==> is_annotated(
            #[trigger] after.words@[i],
            before.words@[i],
            maps,
            layout,
            rip,
        )
}

/// Notes what every word of a stack points to.
pub fn annotate_stack_snapshot(
    snapshot: StackSnapshot,
    maps: Option<&ProcessMapsSnapshot>,
    latest_heap_layout: Option<&JsonTraceRecord>,
    current_rip: Option<u64>,
) -> (r: StackSnapshot)
    ensures
        is_annotated_stack(
            r,
            snapshot,
            classify::opt_maps(maps),
            classify::opt_record(latest_heap_layout),
            current_rip,
        ),
{
    let mut words: Vec<StackWord> = Vec::new();
    let mut i: usize = 0;
    while i < snapshot.words.len()
        invariant
            i <= snapshot.words.len(),
            words@.len() == i,
            forall|k: int|
                0 <= k < i ==> is_annotated(
                    #[trigger] words@[k],
                    snapshot.words@[k],
                    classify::opt_maps(maps),
                    classify::opt_record(latest_heap_layout),
                    current_rip,
                ),
        decreases snapshot.words.len() - i,
    {
        let value: u64 = snapshot.words[i].value;
        words.push(
            StackWord {
                offset_from_sp: snapshot.words[i].offset_from_sp,
                address: snapshot.words[i].address,
                value,
                annotation: annotate_stack_value(value, maps, latest_heap_layout, current_rip),
            },
        );
        i = i + 1;
    }
    StackSnapshot {
        stack_pointer: snapshot.stack_pointer,
        word_size: snapshot.word_size,
        words,
        truncated: snapshot.truncated,
        read_error: snapshot.read_error,
    }
}

/// A signed offset with at least three hexadecimal digits.
pub open spec fn stack_offset_text(offset: i64) -> Seq<char> {
    if offset < 0 {
        "-0x"@ + text::pad_left(text::hex((-offset) as nat), '0', 3)
    } else {
        "+0x"@ + text::pad_left(text::hex(offset as nat), '0', 3)
    }
}

pub fn format_stack_offset(offset: i64) -> (r: String)
    ensures
        r@ == stack_offset_text(offset),
{
    if offset < 0 {
        let magnitude: u64 = if offset == i64::MIN {
            9223372036854775808u64
        } else {
            (-offset) as u64
        };
        cat2("-0x", text::format_pad_left(text::format_hex(magnitude).as_str(), '0', 3).as_str())
    } else {
        cat2(
            "+0x",
            text::format_pad_left(text::format_hex(offset as u64).as_str(), '0', 3).as_str(),
        )
    }
}

pub open spec fn stack_word_text(word: StackWord) -> Seq<char> {
    stack_offset_text(word.offset_from_sp) + "  "@ + registers::fixed_hex(word.address) + "  "@
        + registers::fixed_hex(word.value) + registers::note_suffix(word.annotation)
}

pub fn format_stack_word_line(word: &StackWord) -> (r: String)
    ensures
        r@ == stack_word_text(*word),
{
    cat6(
        format_stack_offset(word.offset_from_sp).as_str(),
        "  ",
        format_register_value_fixed_hex(word.address).as_str(),
        "  ",
        format_register_value_fixed_hex(word.value).as_str(),
        format_note_suffix(&word.annotation).as_str(),
    )
}

impl Block for StackWord {
    open spec fn lines(&self) -> Seq<Seq<char>> {
        seq![stack_word_text(*self)]
    }

    fn block(&self) -> (r: Lines) {
        Lines::one(format_stack_word_line(self).as_str())
    }
}

pub open spec fn stack_warning_lines(s: StackSnapshot) -> Seq<Seq<char>> {
    if s.truncated {
        match s.read_error {
            Some(e) => seq!["truncated: "@ + e@],
            None => seq!["truncated"@],
        }
    } else {
        Seq::empty()
    }
}

fn stack_warning(s: &StackSnapshot) -> (r: Lines)
    ensures
        r@ == stack_warning_lines(*s),
{
    if s.truncated {
        match &s.read_error {
            Some(e) => Lines::one(cat2("truncated: ", e.as_str()).as_str()),
            None => Lines::one("truncated"),
        }
    } else {
        Lines::new()
    }
}

pub open spec fn stack_lines(s: StackSnapshot) -> Seq<Seq<char>> {
    seq![
        "RSP:       "@ + registers::fixed_hex(s.stack_pointer),
        "Word size: "@ + text::dec(s.word_size as nat) + " bytes"@,
    ] + stack_warning_lines(s) + seq![""@, "Offset  Address             Value"@] + text::blocks(
        s.words@,
    )
}

pub fn format_stack_snapshot_lines(snapshot: &StackSnapshot) -> (r: Vec<String>)
    ensures
        text::texts(r@) == stack_lines(*snapshot),
{
    let mut l = Lines::new();
    l.push(
        cat2(
            "RSP:       ",
            format_register_value_fixed_hex(snapshot.stack_pointer).as_str(),
        ),
    );
    l.push(cat3("Word size: ", text::format_dec_usize(snapshot.word_size).as_str(), " bytes"));
    l.add(stack_warning(snapshot));
    l.push(owned(""));
    l.push(owned("Offset  Address             Value"));
    l.add(text::format_blocks(&snapshot.words));
    assert(l@ =~= stack_lines(*snapshot));
    l.items
}

// ---------------------------------------------------------------------------
// Memory maps
// ---------------------------------------------------------------------------

pub open spec fn inode_text(inode: Option<u64>) -> Seq<char> {
    match inode {
        Some(n) => text::dec(n as nat),
        None => "?"@,
    }
}

pub open spec fn map_entry_text(entry: ProcessMapEntry) -> Seq<char> {
    let columns = text::pad_left(text::hex(entry.start as nat), '0', 16) + "-"@ + text::pad_left(
        text::hex(entry.end as nat),
        '0',
        16,
    ) + " "@ + text::pad_right(entry.permissions@, ' ', 4) + " "@ + text::pad_left(
        text::hex(entry.offset as nat),
        '0',
        8,
    ) + " "@ + text::pad_left(text::or_word(entry.device, "??:??"@), ' ', 5) + " "@
        + text::pad_left(inode_text(entry.inode), ' ', 8);
    let path = classify::path_of(entry);
    if path.len() == 0 { columns } else { columns + " "@ + path }
}

/// A mapping in columns, as the kernel lists it.
pub fn format_process_map_entry(entry: &ProcessMapEntry) -> (r: String)
    ensures
        r@ == map_entry_text(*entry),
{
    let inode = match entry.inode {
        Some(n) => text::format_dec(n),
        None => owned("?"),
    };
    let columns = cat7(
        text::format_pad_left(text::format_hex(entry.start).as_str(), '0', 16).as_str(),
        "-",
        text::format_pad_left(text::format_hex(entry.end).as_str(), '0', 16).as_str(),
        " ",
        text::format_pad_right(entry.permissions.as_str(), ' ', 4).as_str(),
        " ",
        text::format_pad_left(text::format_hex(entry.offset).as_str(), '0', 8).as_str(),
    ).concat(" ").concat(
        text::format_pad_left(text::str_or(&entry.device, "??:??"), ' ', 5).as_str(),
    ).concat(" ").concat(text::format_pad_left(inode.as_str(), ' ', 8).as_str());
    let path = match &entry.pathname {
        Some(p) => p.clone(),
        None => String::new(),
    };
    if path.as_str().is_empty() {
        columns
    } else {
        columns.concat(" ").concat(path.as_str())
    }
}

impl Block for ProcessMapEntry {
    open spec fn lines(&self) -> Seq<Seq<char>> {
        seq![map_entry_text(*self)]
    }

    fn block(&self) -> (r: Lines) {
        Lines::one(format_process_map_entry(self).as_str())
    }
}

pub open spec fn maps_lines(s: ProcessMapsSnapshot) -> Seq<Seq<char>> {
    seq!["Start-End                         Perm Offset   Dev    Inode Path"@] + text::blocks(
        s.entries@,
    )
}

pub fn format_process_maps_lines(snapshot: &ProcessMapsSnapshot) -> (r: Vec<String>)
    ensures
        text::texts(r@) == maps_lines(*snapshot),
{
    let mut l = Lines::one("Start-End                         Perm Offset   Dev    Inode Path");
    l.add(text::format_blocks(&snapshot.entries));
    l.items
}

// ---------------------------------------------------------------------------
// Code
// ---------------------------------------------------------------------------

/// A code context of which only the instruction pointer is known.
pub open spec fn minimal_context(rip: u64) -> CodeContext {
    CodeContext {
        instruction_pointer: rip,
        symbol: None,
        symbol_addr: None,
        symbol_offset: None,
        object: None,
        source: None,
        disassembly: None,
    }
}

pub fn build_minimal_code_context(rip: u64) -> (r: CodeContext)
    ensures
        r == minimal_context(rip),
{
    CodeContext {
        instruction_pointer: rip,
        symbol: None,
        symbol_addr: None,
        symbol_offset: None,
        object: None,
        source: None,
        disassembly: None,
    }
}

/// `object!symbol+offset` for a branch target.
pub open spec fn symbol_annotation(s: SymbolizedAddress) -> Seq<char> {
    let name = if s.offset > 0 { s.symbol@ + "+"@ + text::hex0x(s.offset as nat) } else { s.symbol@ };
    match s.object_name {
        Some(object) => if object@.len() > 0 && !name.contains('!') {
            object@ + "!"@ + name
        } else {
            name
        },
        None => name,
    }
}

pub fn format_symbol_annotation(s: &SymbolizedAddress) -> (r: String)
    ensures
        r@ == symbol_annotation(*s),
{
    let name = if s.offset > 0 {
        cat3(s.symbol.as_str(), "+", text::format_hex0x(s.offset).as_str())
    } else {
        s.symbol.clone()
    };
    match &s.object_name {
        Some(object) => if !object.as_str().is_empty() && !contains_char(name.as_str(), '!') {
            cat3(object.as_str(), "!", name.as_str())
        } else {
            name
        },
        None => name,
    }
}

/// A disassembly line after its target was looked up.
pub open spec fn is_target_annotated(
    line: DisassemblyLine,
    before: DisassemblyLine,
    symbol: Option<SymbolizedAddress>,
) -> bool {
    &&& line.address == before.address
    &&& line.bytes == before.bytes
    &&& line.mnemonic == before.mnemonic
    &&& line.operands == before.operands
    &&& line.text == before.text
    &&& line.is_current == before.is_current
    &&& line.flow_control == before.flow_control
    &&& line.target == before.target
    &&& if before.target is Some {
        text::opt(line.target_annotation) == match symbol {
            Some(s) => Some(symbol_annotation(s)),
            None => None,
        }
    } else {
        line.target_annotation == before.target_annotation
    }
}

/// What was looked up for line `i`.
pub open spec fn symbol_at(symbols: Seq<Option<SymbolizedAddress>>, i: int) -> Option<
    SymbolizedAddress,
> {
    if 0 <= i < symbols.len() {
        symbols[i]
    } else {
        None
    }
}

/// Whether `after` is a disassembly whose branch targets were looked up; all else is as it was.
pub open spec fn are_targets_annotated(
    after: DisassemblySnapshot,
    before: DisassemblySnapshot,
    symbols: Seq<Option<SymbolizedAddress>>,
) -> bool {
    &&& after.instruction_pointer == before.instruction_pointer
    &&& after.start_address == before.start_address
    &&& after.end_address == before.end_address
    &&& after.truncated_before == before.truncated_before
    &&& after.truncated_after == before.truncated_after
    &&& after.read_error == before.read_error
    &&& after.lines@.len() == before.lines@.len()
    &&& forall|i: int|
        0 <= i < after.lines@.len() ==> is_target_annotated(
            #[trigger] after.lines@[i],
            before.lines@[i],
            symbol_at(symbols, i),
        )
}

fn annotate_target(line: DisassemblyLine, symbols: &Vec<Option<SymbolizedAddress>>, i: usize) -> (r:
    DisassemblyLine)
    ensures
        is_target_annotated(r, line, symbol_at(symbols@, i as int)),
{
    let mut line = line;
    if line.target.is_some() {
        line.target_annotation = if i < symbols.len() {
            match &symbols[i] {
                Some(s) => Some(format_symbol_annotation(s)),
                None => None,
            }
        } else {
            None
        };
    }
    line
}

/// Notes the symbol of every branch target; `symbols` holds what was looked up for each line,
/// and nothing for the lines beyond it.
pub fn annotate_disassembly_targets(
    disassembly: &mut DisassemblySnapshot,
    symbols: &Vec<Option<SymbolizedAddress>>,
)
    ensures
        are_targets_annotated(*final(disassembly), *old(disassembly), symbols@),
{
    let mut rest: Vec<DisassemblyLine> = Vec::new();
    std::mem::swap(&mut rest, &mut disassembly.lines);
    let ghost all = rest@;
    let count: usize = rest.len();
    let mut done: Vec<DisassemblyLine> = Vec::new();
    let mut i: usize = count;
    while i > 0
        invariant
            i <= count,
            count == all.len(),
            rest@ == all.take(i as int),
            done@.len() == count - i,
            forall|k: int|
                0 <= k < done@.len() ==> is_target_annotated(
                    #[trigger] done@[k],
                    all[count - 1 - k],
                    symbol_at(symbols@, count - 1 - k),
                ),
        decreases i,
    {
        i = i - 1;
        if let Some(line) = rest.pop() {
            assert(line == all[i as int]);
            done.push(annotate_target(line, symbols, i));
        }
        assert(rest@ =~= all.take(i as int));
    }
    let ghost turned = done@;
    let mut lines: Vec<DisassemblyLine> = Vec::new();
    let mut k: usize = 0;
    while k < count
        invariant
            k <= count,
            turned.len() == count,
            done@ == turned.take(count - k),
            lines@.len() == k,
            forall|j: int| 0 <= j < k ==> #[trigger] lines@[j] == turned[count - 1 - j],
        decreases count - k,
    {
        if let Some(line) = done.pop() {
            assert(line == turned[count - 1 - k]);
            lines.push(line);
        }
        k = k + 1;
        assert(done@ =~= turned.take(count - k));
    }
    disassembly.lines = lines;
}

/// Whether `r` is the code context from what was looked up: the symbol of the instruction
/// pointer, the source place that the line table gives for it, and the disassembly around it
/// with its branch targets. The symbol's own source place wins.
pub open spec fn is_code_context(
    r: CodeContext,
    rip: u64,
    symbolized: Option<SymbolizedAddress>,
    mapped_source: Option<SourceLocation>,
    disassembly: DisassemblySnapshot,
    targets: Seq<Option<SymbolizedAddress>>,
) -> bool {
    &&& r.instruction_pointer == rip
    &&& match symbolized {
        Some(s) => {
            &&& r.symbol == Some(s.symbol)
            &&& r.symbol_addr == Some(s.symbol_addr)
            &&& r.symbol_offset == Some(s.offset)
            &&& r.object == s.object_name
            &&& r.source == if s.source is Some {
                s.source
            } else {
                mapped_source
            }
        },
        None => {
            &&& r.symbol is None
            &&& r.symbol_addr is None
            &&& r.symbol_offset is None
            &&& r.object is None
            &&& r.source == mapped_source
        },
    }
    &&& r.disassembly is Some
    &&& are_targets_annotated(r.disassembly->0, disassembly, targets)
}

pub fn build_code_context(
    rip: u64,
    symbolized: Option<SymbolizedAddress>,
    mapped_source: Option<SourceLocation>,
    disassembly: DisassemblySnapshot,
    targets: &Vec<Option<SymbolizedAddress>>,
) -> (r: CodeContext)
    ensures
        is_code_context(r, rip, symbolized, mapped_source, disassembly, targets@),
{
    let mut context = build_minimal_code_context(rip);
    if let Some(s) = symbolized {
        context.symbol = Some(s.symbol);
        context.symbol_addr = Some(s.symbol_addr);
        context.symbol_offset = Some(s.offset);
        context.object = s.object_name;
        context.source = s.source;
    }
    if context.source.is_none() {
        context.source = mapped_source;
    }
    let mut annotated = disassembly;
    annotate_disassembly_targets(&mut annotated, targets);
    context.disassembly = Some(annotated);
    context
}

/// `symbol+offset (object)`.
pub open spec fn code_symbol_text(
    symbol: Option<Seq<char>>,
    offset: Option<u64>,
    object: Option<Seq<char>>,
) -> Seq<char> {
    match symbol {
        None => "unavailable"@,
        Some(s) => s + (match offset {
            Some(n) => if n > 0 { "+"@ + text::hex0x(n as nat) } else { Seq::empty() },
            None => Seq::empty(),
        }) + (match object {
            Some(o) => " ("@ + o + ")"@,
            None => Seq::empty(),
        }),
    }
}

pub open spec fn opt_str(s: Option<&str>) -> Option<Seq<char>> {
    match s {
        Some(x) => Some(x@),
        None => None,
    }
}

pub fn format_code_symbol(symbol: Option<&str>, offset: Option<u64>, object: Option<&str>) -> (r:
    String)
    ensures
        r@ == code_symbol_text(opt_str(symbol), offset, opt_str(object)),
{
    match symbol {
        None => owned("unavailable"),
        Some(s) => {
            let place = match offset {
                Some(n) => if n > 0 {
                    cat2("+", text::format_hex0x(n).as_str())
                } else {
                    String::new()
                },
                None => String::new(),
            };
            let home = match object {
                Some(o) => cat3(" (", o, ")"),
                None => String::new(),
            };
            cat3(s, place.as_str(), home.as_str())
        },
    }
}

/// `file:line:column`, as far as it is known.
pub open spec fn source_text(source: Option<SourceLocation>) -> Seq<char> {
    match source {
        None => "unavailable"@,
        Some(s) => {
            let file = text::or_word(s.file, "?"@);
            match s.line {
                None => file,
                Some(l) => match s.column {
                    None => file + ":"@ + text::dec(l as nat),
                    Some(c) => file + ":"@ + text::dec(l as nat) + ":"@ + text::dec(c as nat),
                },
            }
        },
    }
}

pub open spec fn opt_source(s: Option<&SourceLocation>) -> Option<SourceLocation> {
    match s {
        Some(x) => Some(*x),
        None => None,
    }
}

pub fn format_source_location(source: Option<&SourceLocation>) -> (r: String)
    ensures
        r@ == source_text(opt_source(source)),
{
    match source {
        None => owned("unavailable"),
        Some(s) => {
            let file = text::str_or(&s.file, "?");
            match s.line {
                None => owned(file),
                Some(l) => match s.column {
                    None => cat3(file, ":", text::format_dec(l as u64).as_str()),
                    Some(c) => cat5(
                        file,
                        ":",
                        text::format_dec(l as u64).as_str(),
                        ":",
                        text::format_dec(c as u64).as_str(),
                    ),
                },
            }
        },
    }
}

pub open spec fn byte_texts(bytes: Seq<u8>) -> Seq<Seq<char>> {
    Seq::new(bytes.len(), |i: int| text::pad_left(text::hex(bytes[i] as nat), '0', 2))
}

/// Bytes as pairs of hexadecimal digits with spaces between them.
pub open spec fn bytes_text(bytes: Seq<u8>) -> Seq<char> {
    text::join(byte_texts(bytes), " "@)
}

pub fn format_instruction_bytes(bytes: &Vec<u8>) -> (r: String)
    ensures
        r@ == bytes_text(bytes@),
{
    let mut l = Lines::new();
    let mut i: usize = 0;
    while i < bytes.len()
        invariant
            i <= bytes.len(),
            l@ =~= byte_texts(bytes@).take(i as int),
        decreases bytes.len() - i,
    {
        l.push(text::format_pad_left(text::format_hex(bytes[i] as u64).as_str(), '0', 2));
        i = i + 1;
    }
    assert(l@ =~= byte_texts(bytes@));
    l.join(" ")
}

/// `s` cut to at most `max` characters; a tilde ends a text that was cut.
pub open spec fn truncated(s: Seq<char>, max: nat) -> Seq<char> {
    if s.len() <= max {
        s
    } else if max == 0 {
        Seq::empty()
    } else {
        s.take(max - 1).push('~')
    }
}

pub fn truncate_text(s: &str, max_chars: usize) -> (r: String)
    ensures
        r@ == truncated(s@, max_chars as nat),
{
    if s.unicode_len() <= max_chars {
        return owned(s);
    }
    if max_chars == 0 {
        return String::new();
    }
    let mut out = owned(s.substring_char(0, max_chars - 1));
    assert(s@.subrange(0, max_chars - 1) =~= s@.take(max_chars - 1));
    out.push('~');
    out
}

/// The instruction of a line: mnemonic, operands, and what a branch leads to.
pub open spec fn instruction_text(line: DisassemblyLine) -> Seq<char> {
    let base = if line.operands@.len() == 0 {
        line.mnemonic@
    } else {
        text::pad_right(line.mnemonic@, ' ', 7) + " "@ + line.operands@
    };
    match line.target {
        None => base,
        Some(target) => match line.target_annotation {
            Some(note) => base + " <"@ + note@ + ">"@,
            None => if is_branch(line.flow_control) {
                base + " <"@ + registers::fixed_hex(target) + ">"@
            } else {
                base
            },
        },
    }
}

pub open spec fn is_branch(flow: Option<DisassemblyFlowControl>) -> bool {
    ||| flow == Some(DisassemblyFlowControl::Call)
    ||| flow == Some(DisassemblyFlowControl::ConditionalBranch)
    ||| flow == Some(DisassemblyFlowControl::UnconditionalBranch)
}

fn format_instruction(line: &DisassemblyLine) -> (r: String)
    ensures
        r@ == instruction_text(*line),
{
    let base = if line.operands.as_str().is_empty() {
        line.mnemonic.clone()
    } else {
        cat3(
            text::format_pad_right(line.mnemonic.as_str(), ' ', 7).as_str(),
            " ",
            line.operands.as_str(),
        )
    };
    match line.target {
        None => base,
        Some(target) => match &line.target_annotation {
            Some(note) => cat4(base.as_str(), " <", note.as_str(), ">"),
            None => {
                let branch = match line.flow_control {
                    Some(DisassemblyFlowControl::Call) => true,
                    Some(DisassemblyFlowControl::ConditionalBranch) => true,
                    Some(DisassemblyFlowControl::UnconditionalBranch) => true,
                    _ => false,
                };
                if branch {
                    cat4(
                        base.as_str(),
                        " <",
                        format_register_value_fixed_hex(target).as_str(),
                        ">",
                    )
                } else {
                    base
                }
            },
        },
    }
}

pub open spec fn disassembly_line_text(line: DisassemblyLine) -> Seq<char> {
    (if line.is_current { ">"@ } else { " "@ }) + " "@ + registers::fixed_hex(line.address)
        + "  "@ + text::pad_right(truncated(bytes_text(line.bytes@), 24), ' ', 24) + " "@
        + truncated(instruction_text(line), 96)
}

pub fn format_disassembly_line(line: &DisassemblyLine) -> (r: String)
    ensures
        r@ == disassembly_line_text(*line),
{
    let marker = if line.is_current { ">" } else { " " };
    let bytes = truncate_text(format_instruction_bytes(&line.bytes).as_str(), 24);
    cat7(
        marker,
        " ",
        format_register_value_fixed_hex(line.address).as_str(),
        "  ",
        text::format_pad_right(bytes.as_str(), ' ', 24).as_str(),
        " ",
        truncate_text(format_instruction(line).as_str(), 96).as_str(),
    )
}

impl Block for DisassemblyLine {
    open spec fn lines(&self) -> Seq<Seq<char>> {
        seq![disassembly_line_text(*self)]
    }

    fn block(&self) -> (r: Lines) {
        Lines::one(format_disassembly_line(self).as_str())
    }
}

/// The disassembly under its heading.
pub open spec fn disassembly_lines(context: CodeContext) -> Seq<Seq<char>> {
    match context.disassembly {
        Some(d) => (match d.read_error {
            Some(e) => seq!["disassembly truncated: "@ + e@],
            None => text::when(d.truncated_before || d.truncated_after, "disassembly truncated"@),
        }) + (if d.lines@.len() == 0 {
            seq!["disassembly unavailable"@]
        } else {
            text::blocks(d.lines@)
        }),
        None => seq![
            "> "@ + registers::fixed_hex(context.instruction_pointer)
                + "  <disassembly unavailable>"@,
        ],
    }
}

fn format_disassembly(context: &CodeContext) -> (r: Lines)
    ensures
        r@ == disassembly_lines(*context),
{
    match &context.disassembly {
        Some(d) => {
            let mut l = match &d.read_error {
                Some(e) => Lines::one(cat2("disassembly truncated: ", e.as_str()).as_str()),
                None => if d.truncated_before || d.truncated_after {
                    Lines::one("disassembly truncated")
                } else {
                    Lines::new()
                },
            };
            if d.lines.len() == 0 {
                l.add(Lines::one("disassembly unavailable"));
            } else {
                l.add(text::format_blocks(&d.lines));
            }
            l
        },
        None => Lines::one(
            cat3(
                "> ",
                format_register_value_fixed_hex(context.instruction_pointer).as_str(),
                "  <disassembly unavailable>",
            ).as_str(),
        ),
    }
}

pub open spec fn code_context_lines(context: CodeContext) -> Seq<Seq<char>> {
    seq![
        "RIP:     "@ + registers::fixed_hex(context.instruction_pointer),
        "Symbol:  "@ + code_symbol_text(
            text::opt(context.symbol),
            context.symbol_offset,
            text::opt(context.object),
        ),
        "Source:  "@ + source_text(context.source),
        "Object:  "@ + text::or_word(context.object, "unavailable"@),
        ""@,
        "Disassembly:"@,
    ] + disassembly_lines(context)
}

fn opt_as_str(s: &Option<String>) -> (r: Option<&str>)
    ensures
        opt_str(r) == text::opt(*s),
{
    match s {
        Some(x) => Some(x.as_str()),
        None => None,
    }
}

pub fn format_code_context_lines(context: &CodeContext) -> (r: Vec<String>)
    ensures
        text::texts(r@) == code_context_lines(*context),
{
    let mut l = Lines::new();
    l.push(
        cat2(
            "RIP:     ",
            format_register_value_fixed_hex(context.instruction_pointer).as_str(),
        ),
    );
    l.push(
        cat2(
            "Symbol:  ",
            format_code_symbol(
                opt_as_str(&context.symbol),
                context.symbol_offset,
                opt_as_str(&context.object),
            ).as_str(),
        ),
    );
    let source = match &context.source {
        Some(s) => format_source_location(Some(s)),
        None => format_source_location(None),
    };
    l.push(cat2("Source:  ", source.as_str()));
    l.push(cat2("Object:  ", text::str_or(&context.object, "unavailable")));
    l.push(owned(""));
    l.push(owned("Disassembly:"));
    l.add(format_disassembly(context));
    assert(l@ =~= code_context_lines(*context));
    l.items
}

// ---------------------------------------------------------------------------
// Laws
// ---------------------------------------------------------------------------

/// A truncated text is never longer than asked for, and a text that fits stays
/// as it is.
pub proof fn law_truncation(s: Seq<char>, max: nat)
    ensures
        truncated(s, max).len() <= max,
        s.len() <= max ==> truncated(s, max) == s,
        truncated(truncated(s, max), max) == truncated(s, max),
{
}

proof fn lemma_hex_length(n: nat, k: nat)
    requires
        n < vstd::arithmetic::power::pow(16, k),
        k >= 1,
    ensures
        text::hex(n).len() <= k,
    decreases k,
{
    if n >= 16 {
        if k == 1 {
            vstd::arithmetic::power::lemma_pow1(16);
        } else {
            vstd::arithmetic::power::lemma_pow_adds(16, 1, (k - 1) as nat);
            vstd::arithmetic::power::lemma_pow1(16);
            let p = vstd::arithmetic::power::pow(16, (k - 1) as nat);
            assert(n < 16 * p);
            assert(n / 16 < p) by (nonlinear_arith)
                requires
                    n < 16 * p,
            ;
            lemma_hex_length(n / 16, (k - 1) as nat);
        }
    }
}

/// Every register value takes the same room.
pub proof fn law_fixed_hex_width(value: u64)
    ensures
        registers::fixed_hex(value).len() == 18,
{
    reveal_strlit("0x");
    assert(vstd::arithmetic::power::pow(16, 16) == 0x10000000000000000) by {
        reveal(vstd::arithmetic::power::pow);
        reveal_with_fuel(vstd::arithmetic::power::pow, 17);
    }
    lemma_hex_length(value as nat, 16);
}

} // verus!
