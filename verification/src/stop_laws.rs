//! What a stop of a target shows: its addresses, its registers, its stack and its code.

use crate::classify;
use crate::number;
use crate::record::{JsonLayoutChunk, JsonTraceRecord};
use crate::registers;
use crate::snapshot::{
    AddressRegionKind, CodeContext, DisassemblyFlowControl, DisassemblyLine, DisassemblySnapshot,
    HeapAddressDetail, ProcessMapEntry, ProcessMapsSnapshot, RegisterValue, RenderedRegisterLine,
    SourceLocation, StackSnapshot, SymbolizedAddress,
};
use crate::stop_text;
use crate::text;
use crate::text::{begins_with_line, shows, shows_line, Block};
use vstd::prelude::*;

verus! {

// ---------------------------------------------------------------------------
// Addresses
// ---------------------------------------------------------------------------

/// Whether a chunk of a layout has readable addresses.
pub open spec fn readable(chunk: JsonLayoutChunk) -> bool {
    number::auto_radix_number(chunk.chunk_addr@) is Some && number::auto_radix_number(
        chunk.user_addr@,
    ) is Some
}

proof fn lemma_exact(chunks: Seq<JsonLayoutChunk>, from: int, k: int, address: u64)
    requires
        0 <= from <= k < chunks.len(),
        forall|j: int| from <= j <= k ==> readable(#[trigger] chunks[j]),
        forall|j: int|
            from <= j < k ==> number::auto_radix_number((#[trigger] chunks[j]).user_addr@) != Some(
                address,
            ) && number::auto_radix_number(chunks[j].chunk_addr@) != Some(address),
        number::auto_radix_number(chunks[k].user_addr@) == Some(address)
            || number::auto_radix_number(chunks[k].chunk_addr@) == Some(address),
    ensures
        ({
            let chunk_addr = number::auto_radix_number(chunks[k].chunk_addr@)->0;
            let user_addr = number::auto_radix_number(chunks[k].user_addr@)->0;
            classify::exact_scan(chunks, from, address) == classify::ExactScan::Found(
                if user_addr == address {
                    HeapAddressDetail::UserPointer { chunk_addr, user_addr }
                } else {
                    HeapAddressDetail::ChunkHeader { chunk_addr, user_addr }
                },
            )
        }),
    decreases k - from,
{
    assert(readable(chunks[from]));
    if from < k {
        lemma_exact(chunks, from + 1, k, address);
    }
}

/// The address of a chunk's memory is told as such, and so is that of its header: the first
/// chunk that has it counts.
pub proof fn law_chunk_addresses_are_told(
    layout: JsonTraceRecord,
    maps: Option<ProcessMapsSnapshot>,
    address: u64,
    k: int,
)
    requires
        layout is HeapLayout,
        0 <= k < layout->HeapLayout_chunks@.len(),
        forall|j: int| 0 <= j <= k ==> readable(#[trigger] layout->HeapLayout_chunks@[j]),
        forall|j: int|
            0 <= j < k ==> number::auto_radix_number(
                (#[trigger] layout->HeapLayout_chunks@[j]).user_addr@,
            ) != Some(address) && number::auto_radix_number(
                layout->HeapLayout_chunks@[j].chunk_addr@,
            ) != Some(address),
    ensures
        ({
            let chunk = layout->HeapLayout_chunks@[k];
            let class = classify::class_of(address, maps, Some(layout));
            &&& number::auto_radix_number(chunk.user_addr@) == Some(address) ==> class.kind
                == AddressRegionKind::Heap && class.label == "heap user"@
                && classify::annotation_of(class) == Some("heap user"@)
            &&& number::auto_radix_number(chunk.user_addr@) != Some(address)
                && number::auto_radix_number(chunk.chunk_addr@) == Some(address) ==> class.kind
                == AddressRegionKind::Heap && class.label == "heap chunk"@
                && classify::annotation_of(class) == Some("heap chunk"@)
        }),
{
    let chunk = layout->HeapLayout_chunks@[k];
    if number::auto_radix_number(chunk.user_addr@) == Some(address) || number::auto_radix_number(
        chunk.chunk_addr@,
    ) == Some(address) {
        lemma_exact(layout->HeapLayout_chunks@, 0, k, address);
    }
}

proof fn lemma_no_exact(chunks: Seq<JsonLayoutChunk>, from: int, address: u64)
    requires
        0 <= from,
        forall|j: int|
            from <= j < chunks.len() ==> readable(#[trigger] chunks[j])
                && number::auto_radix_number(chunks[j].user_addr@) != Some(address)
                && number::auto_radix_number(chunks[j].chunk_addr@) != Some(address),
    ensures
        classify::exact_scan(chunks, from, address) is Absent,
    decreases chunks.len() - from,
{
    if from < chunks.len() {
        assert(readable(chunks[from]));
        lemma_no_exact(chunks, from + 1, address);
    }
}

proof fn lemma_interior(chunks: Seq<JsonLayoutChunk>, from: int, k: int, address: u64)
    requires
        0 <= from <= k < chunks.len(),
        classify::inside_chunk(chunks[k], address) is Some,
        forall|j: int|
            from <= j < k ==> classify::inside_chunk(#[trigger] chunks[j], address) is None,
    ensures
        classify::interior_scan(chunks, from, address) == classify::inside_chunk(
            chunks[k],
            address,
        ),
    decreases k - from,
{
    if from < k {
        assert(classify::inside_chunk(chunks[from], address) is None);
        lemma_interior(chunks, from + 1, k, address);
    }
}

/// Whether an address lies in a chunk, from its header up to its size.
pub open spec fn within(chunk: JsonLayoutChunk, address: u64) -> bool {
    &&& readable(chunk)
    &&& number::auto_radix_number(chunk.size@) is Some
    &&& number::auto_radix_number(chunk.chunk_addr@)->0 <= address
    &&& address < number::auto_radix_number(chunk.chunk_addr@)->0 + number::auto_radix_number(
        chunk.size@,
    )->0
    &&& number::auto_radix_number(chunk.chunk_addr@)->0 + number::auto_radix_number(chunk.size@)->0
        <= u64::MAX
}

/// An address inside a chunk that is no chunk's own address is told by its distance from the
/// chunk's memory; the first chunk that it lies in counts.
pub proof fn law_inner_addresses_are_told(
    layout: JsonTraceRecord,
    maps: Option<ProcessMapsSnapshot>,
    address: u64,
    k: int,
)
    requires
        layout is HeapLayout,
        0 <= k < layout->HeapLayout_chunks@.len(),
        forall|j: int|
            0 <= j < layout->HeapLayout_chunks@.len() ==> readable(
                #[trigger] layout->HeapLayout_chunks@[j],
            ) && number::auto_radix_number(layout->HeapLayout_chunks@[j].user_addr@) != Some(
                address,
            ) && number::auto_radix_number(layout->HeapLayout_chunks@[j].chunk_addr@) != Some(
                address,
            ),
        within(layout->HeapLayout_chunks@[k], address),
        forall|j: int| 0 <= j < k ==> !within(#[trigger] layout->HeapLayout_chunks@[j], address),
    ensures
        ({
            let chunk = layout->HeapLayout_chunks@[k];
            let user = number::auto_radix_number(chunk.user_addr@)->0;
            let class = classify::class_of(address, maps, Some(layout));
            let offset: int = if address >= user { address - user } else { 0 };
            &&& class.kind == AddressRegionKind::Heap
            &&& class.label == "heap+"@ + text::hex0x(offset as nat)
            &&& classify::annotation_of(class) == Some("heap"@)
        }),
{
    let chunks = layout->HeapLayout_chunks@;
    lemma_no_exact(chunks, 0, address);
    assert forall|j: int| 0 <= j < k implies classify::inside_chunk(
        #[trigger] chunks[j],
        address,
    ) is None by {
        assert(!within(chunks[j], address));
        assert(readable(chunks[j]));
    }
    assert(readable(chunks[k]));
    lemma_interior(chunks, 0, k, address);
}

/// The kernel's own mappings are known by their names, whatever their permissions.
pub proof fn law_special_mappings_are_known(entry: ProcessMapEntry)
    requires
        entry.pathname is Some,
    ensures
        ({
            let path = entry.pathname->0@;
            let kind = classify::map_kind(entry);
            let label = classify::map_label(entry);
            &&& path == "[heap]"@ ==> kind == AddressRegionKind::Heap && label == "heap"@
            &&& path == "[stack]"@ ==> kind == AddressRegionKind::Stack && label == "stack"@
            &&& path == "[vdso]"@ ==> kind == AddressRegionKind::Vdso && label == "vdso"@
            &&& path == "[vvar]"@ ==> kind == AddressRegionKind::Vvar && label == "vvar"@
            &&& path == "[vsyscall]"@ ==> kind == AddressRegionKind::Vsvar && label == "vsyscall"@
        }),
{
    reveal_strlit("[heap]");
    reveal_strlit("[stack]");
    reveal_strlit("[vdso]");
    reveal_strlit("[vvar]");
    reveal_strlit("[vsyscall]");
    assert("[heap]"@.len() == 6);
    assert("[stack]"@.len() == 7);
    assert("[vdso]"@.len() == 6);
    assert("[vvar]"@.len() == 6);
    assert("[vsyscall]"@.len() == 10);
    assert("[heap]"@[1] == 'h');
    assert("[vdso]"@[1] == 'v');
    assert("[vvar]"@[1] == 'v');
    assert("[vdso]"@[2] == 'd');
    assert("[vvar]"@[2] == 'v');
}

/// A mapping of a file that is none of those is the C library, the loader, code where it can be
/// executed, or just a file, which is told by its name; one without a file is anonymous.
pub proof fn law_file_mappings_are_known(entry: ProcessMapEntry)
    requires
        ({
            let path = classify::path_of(entry);
            path != "[heap]"@ && path != "[stack]"@ && path != "[vdso]"@ && path != "[vvar]"@
                && path != "[vsyscall]"@
        }),
    ensures
        ({
            let path = classify::path_of(entry);
            let kind = classify::map_kind(entry);
            let label = classify::map_label(entry);
            let libc = classify::occurs(path, "libc.so"@) || classify::occurs(path, "libc-"@);
            let loader = classify::occurs(path, "ld-linux"@) || classify::occurs(path, "/ld-"@);
            &&& libc ==> kind == AddressRegionKind::Libc && label == "libc"@
            &&& !libc && loader ==> kind == AddressRegionKind::Loader && label == "loader"@
            &&& !libc && !loader && path.len() == 0 ==> kind == AddressRegionKind::Anonymous
                && label == "anon"@
            &&& !libc && !loader && path.len() > 0 && entry.permissions@.contains('x') ==> kind
                == AddressRegionKind::Code && label == "code"@
            &&& !libc && !loader && path.len() > 0 && !entry.permissions@.contains('x') ==> kind
                == AddressRegionKind::MappedFile && label == classify::base_name(path)
        }),
{
}

/// The name of a file is what follows its last slash.
pub proof fn law_file_name_follows_the_last_slash(directory: Seq<char>, name: Seq<char>)
    requires
        name.len() > 0,
        !name.contains('/'),
    ensures
        classify::base_name(directory.push('/') + name) == name,
        classify::base_name(name) == name,
{
    lemma_after_slash(directory, name);
    lemma_no_slash(name);
}

proof fn lemma_after_slash(directory: Seq<char>, name: Seq<char>)
    requires
        !name.contains('/'),
    ensures
        classify::after_last_slash(directory.push('/') + name) == name,
    decreases name.len(),
{
    let path = directory.push('/') + name;
    if name.len() > 0 {
        assert(name.contains(name.last()));
        assert(path.last() == name.last());
        assert(path.drop_last() =~= directory.push('/') + name.drop_last());
        assert(!name.drop_last().contains('/')) by {
            if name.drop_last().contains('/') {
                let i = name.drop_last().index_of('/');
                assert(name[i] == '/');
            }
        }
        lemma_after_slash(directory, name.drop_last());
        assert(name.drop_last().push(name.last()) =~= name);
    } else {
        assert(path.last() == '/');
        assert(name =~= Seq::empty());
    }
}

proof fn lemma_no_slash(name: Seq<char>)
    requires
        !name.contains('/'),
    ensures
        classify::after_last_slash(name) == name,
    decreases name.len(),
{
    if name.len() > 0 {
        assert(name.contains(name.last()));
        assert(!name.drop_last().contains('/')) by {
            if name.drop_last().contains('/') {
                let i = name.drop_last().index_of('/');
                assert(name[i] == '/');
            }
        }
        lemma_no_slash(name.drop_last());
        assert(name.drop_last().push(name.last()) =~= name);
    } else {
        assert(name =~= Seq::empty());
    }
}

/// A value is noted by what it points to; one value may have a note of its own, which comes
/// first, and an address that nothing is known of has none.
pub proof fn law_values_are_noted(
    value: u64,
    maps: Option<ProcessMapsSnapshot>,
    layout: Option<JsonTraceRecord>,
    special: Option<u64>,
    word: Seq<char>,
)
    ensures
        ({
            let note = classify::value_note(value, maps, layout, special, word);
            let class = classify::class_of(value, maps, layout);
            &&& special == Some(value) ==> note == Some(word)
            &&& special != Some(value) && class.kind == AddressRegionKind::Unknown ==> note is None
            &&& special != Some(value) && class.kind != AddressRegionKind::Unknown && class.kind
                != AddressRegionKind::Heap ==> note == Some(class.label)
        }),
{
}

// ---------------------------------------------------------------------------
// Registers
// ---------------------------------------------------------------------------

proof fn lemma_named_at(registers: Seq<RegisterValue>, name: Seq<char>, k: int)
    requires
        0 <= k < registers.len(),
        text::ascii_lower_text(registers[k].name@) == name,
        forall|j: int|
            k < j < registers.len() ==> text::ascii_lower_text((#[trigger] registers[j]).name@)
                != name,
    ensures
        registers::register_named(registers, name) == Some(registers[k]),
    decreases registers.len(),
{
    if k < registers.len() - 1 {
        assert(text::ascii_lower_text(registers.last().name@) != name);
        lemma_named_at(registers.drop_last(), name, k);
    }
}

proof fn lemma_changed_at(
    previous: Seq<RegisterValue>,
    current: Seq<RegisterValue>,
    name: Seq<char>,
)
    ensures
        registers::changed_names(previous, current).contains(name) <==> exists|k: int|
            0 <= k < current.len() && registers::is_changed(previous, #[trigger] current[k])
                && text::ascii_lower_text(current[k].name@) == name,
    decreases current.len(),
{
    if current.len() > 0 {
        let rest = current.drop_last();
        lemma_changed_at(previous, rest, name);
        if registers::changed_names(previous, rest).contains(name) {
            let k = choose|k: int|
                0 <= k < rest.len() && registers::is_changed(previous, #[trigger] rest[k])
                    && text::ascii_lower_text(rest[k].name@) == name;
            assert(current[k] == rest[k]);
        }
        if exists|k: int|
            0 <= k < current.len() && registers::is_changed(previous, #[trigger] current[k])
                && text::ascii_lower_text(current[k].name@) == name {
            let k = choose|k: int|
                0 <= k < current.len() && registers::is_changed(previous, #[trigger] current[k])
                    && text::ascii_lower_text(current[k].name@) == name;
            if k < current.len() - 1 {
                assert(rest[k] == current[k]);
            }
        }
        assert(current[current.len() - 1] == current.last());
    }
}

/// A register counts as changed where its value differs from the last one that it had under that
/// name, letter case aside, and where it was not there before. Without an earlier stop none
/// does.
pub proof fn law_changed_registers(
    previous: Seq<RegisterValue>,
    current: Seq<RegisterValue>,
    k: int,
    p: int,
)
    requires
        0 <= k < current.len(),
        forall|j: int|
            0 <= j < current.len() && j != k ==> text::ascii_lower_text(
                (#[trigger] current[j]).name@,
            ) != text::ascii_lower_text(current[k].name@),
        0 <= p < previous.len(),
        text::ascii_lower_text(previous[p].name@) == text::ascii_lower_text(current[k].name@),
        forall|j: int|
            p < j < previous.len() ==> text::ascii_lower_text((#[trigger] previous[j]).name@)
                != text::ascii_lower_text(current[k].name@),
    ensures
        registers::changed_names(previous, current).contains(
            text::ascii_lower_text(current[k].name@),
        ) <==> previous[p].value != current[k].value,
{
    let name = text::ascii_lower_text(current[k].name@);
    lemma_named_at(previous, name, p);
    lemma_changed_at(previous, current, name);
    if previous[p].value != current[k].value {
        assert(registers::is_changed(previous, current[k]));
    } else if registers::changed_names(previous, current).contains(name) {
        let j = choose|j: int|
            0 <= j < current.len() && registers::is_changed(previous, #[trigger] current[j])
                && text::ascii_lower_text(current[j].name@) == name;
        assert(j == k);
    }
}

/// A register line starts with a star where the register changed, and gives its name, its value
/// and the note on it.
pub proof fn law_register_lines(line: RenderedRegisterLine)
    ensures
        line.lines() == seq![
            (if line.changed { "*"@ } else { " "@ }) + " "@ + text::pad_right(line.name@, ' ', 7)
                + " "@ + line.value@ + (match line.annotation {
                Some(note) => " ; "@ + note@,
                None => Seq::empty(),
            }),
        ],
{
}

// ---------------------------------------------------------------------------
// Stack, maps and code
// ---------------------------------------------------------------------------

/// A stack shows its pointer and its word size, says where it was cut, and has a line for every
/// word with its offset, its address, its value and the note on it.
pub proof fn law_stack_is_shown(s: StackSnapshot, i: int)
    requires
        0 <= i < s.words@.len(),
    ensures
        ({
            let shown = text::unlines(stop_text::stack_lines(s));
            let word = s.words@[i];
            let size = if word.offset_from_sp < 0 {
                -(word.offset_from_sp as int)
            } else {
                word.offset_from_sp as int
            };
            &&& begins_with_line(shown, "RSP:       "@ + registers::fixed_hex(s.stack_pointer))
            &&& shows_line(
                shown,
                "Word size: "@ + text::dec(s.word_size as nat) + " bytes"@,
            )
            &&& s.truncated && s.read_error is Some ==> shows_line(
                shown,
                "truncated: "@ + s.read_error->0@,
            )
            &&& s.truncated && s.read_error is None ==> shows_line(shown, "truncated"@)
            &&& shows_line(
                shown,
                (if word.offset_from_sp < 0 { "-0x"@ } else { "+0x"@ }) + text::pad_left(
                    text::hex(size as nat),
                    '0',
                    3,
                ) + "  "@ + registers::fixed_hex(word.address) + "  "@ + registers::fixed_hex(
                    word.value,
                ) + (match word.annotation {
                    Some(note) => " ; "@ + note@,
                    None => Seq::empty(),
                }),
            )
        }),
{
    let lines = stop_text::stack_lines(s);
    let before = seq![
        "RSP:       "@ + registers::fixed_hex(s.stack_pointer),
        "Word size: "@ + text::dec(s.word_size as nat) + " bytes"@,
    ] + stop_text::stack_warning_lines(s) + seq![""@, "Offset  Address             Value"@];
    let after = Seq::<Seq<char>>::empty();
    assert(lines =~= before + text::blocks(s.words@) + after);
    text::lemma_shows_blocks(lines, before, s.words@, after);
    text::lemma_shows_lines(lines);
    text::lemma_text_ends(lines);
    assert(lines[1] == "Word size: "@ + text::dec(s.word_size as nat) + " bytes"@);
    if s.truncated {
        assert(lines[2] == stop_text::stack_warning_lines(s)[0]);
    }
    assert(s.words@[i].lines() =~= seq![stop_text::stack_word_text(s.words@[i])]);
}

/// A map shows every mapping in columns: its range, its permissions, its offset, its device and
/// its inode, and its path where it has one.
pub proof fn law_maps_are_shown(s: ProcessMapsSnapshot, i: int)
    requires
        0 <= i < s.entries@.len(),
    ensures
        ({
            let shown = text::unlines(stop_text::maps_lines(s));
            let e = s.entries@[i];
            let columns = text::pad_left(text::hex(e.start as nat), '0', 16) + "-"@
                + text::pad_left(text::hex(e.end as nat), '0', 16) + " "@ + text::pad_right(
                e.permissions@,
                ' ',
                4,
            ) + " "@ + text::pad_left(text::hex(e.offset as nat), '0', 8) + " "@ + text::pad_left(
                match e.device {
                    Some(d) => d@,
                    None => "??:??"@,
                },
                ' ',
                5,
            ) + " "@ + text::pad_left(
                match e.inode {
                    Some(n) => text::dec(n as nat),
                    None => "?"@,
                },
                ' ',
                8,
            );
            &&& begins_with_line(
                shown,
                "Start-End                         Perm Offset   Dev    Inode Path"@,
            )
            &&& e.pathname is Some && e.pathname->0@.len() > 0 ==> shows_line(
                shown,
                columns + " "@ + e.pathname->0@,
            )
            &&& e.pathname is None || e.pathname->0@.len() == 0 ==> shows_line(shown, columns)
        }),
{
    let lines = stop_text::maps_lines(s);
    let before = seq!["Start-End                         Perm Offset   Dev    Inode Path"@];
    let after = Seq::<Seq<char>>::empty();
    assert(lines =~= before + text::blocks(s.entries@) + after);
    text::lemma_shows_blocks(lines, before, s.entries@, after);
    text::lemma_text_ends(lines);
    assert(s.entries@[i].lines() =~= seq![stop_text::map_entry_text(s.entries@[i])]);
}

/// A code context shows the instruction pointer, the symbol that it lies in, the source place and
/// the object, each on its line, or that it is not known.
pub proof fn law_code_context_is_shown(c: CodeContext)
    ensures
        ({
            let shown = text::unlines(stop_text::code_context_lines(c));
            let symbol = match c.symbol {
                None => "unavailable"@,
                Some(s) => s@ + (if c.symbol_offset is Some && c.symbol_offset->0 > 0 {
                    "+"@ + text::hex0x(c.symbol_offset->0 as nat)
                } else {
                    Seq::empty()
                }) + (match c.object {
                    Some(o) => " ("@ + o@ + ")"@,
                    None => Seq::empty(),
                }),
            };
            let source = match c.source {
                None => "unavailable"@,
                Some(s) => (match s.file {
                    Some(f) => f@,
                    None => "?"@,
                }) + (match s.line {
                    Some(l) => ":"@ + text::dec(l as nat),
                    None => Seq::empty(),
                }) + (if s.line is Some && s.column is Some {
                    ":"@ + text::dec(s.column->0 as nat)
                } else {
                    Seq::empty()
                }),
            };
            shows(
                shown,
                seq![
                    "RIP:     "@ + registers::fixed_hex(c.instruction_pointer),
                    "Symbol:  "@ + symbol,
                    "Source:  "@ + source,
                    "Object:  "@ + (match c.object {
                        Some(o) => o@,
                        None => "unavailable"@,
                    }),
                    ""@,
                    "Disassembly:"@,
                ],
            )
        }),
{
    let lines = stop_text::code_context_lines(c);
    let own = lines.take(6);
    text::lemma_shows_at(lines, 0, own);
    let symbol = match c.symbol {
        None => "unavailable"@,
        Some(s) => s@ + (if c.symbol_offset is Some && c.symbol_offset->0 > 0 {
            "+"@ + text::hex0x(c.symbol_offset->0 as nat)
        } else {
            Seq::empty()
        }) + (match c.object {
            Some(o) => " ("@ + o@ + ")"@,
            None => Seq::empty(),
        }),
    };
    let source = match c.source {
        None => "unavailable"@,
        Some(s) => (match s.file {
            Some(f) => f@,
            None => "?"@,
        }) + (match s.line {
            Some(l) => ":"@ + text::dec(l as nat),
            None => Seq::empty(),
        }) + (if s.line is Some && s.column is Some {
            ":"@ + text::dec(s.column->0 as nat)
        } else {
            Seq::empty()
        }),
    };
    assert(own[1] =~= "Symbol:  "@ + symbol);
    assert(own[2] =~= "Source:  "@ + source);
    assert(own =~= seq![
        "RIP:     "@ + registers::fixed_hex(c.instruction_pointer),
        "Symbol:  "@ + symbol,
        "Source:  "@ + source,
        "Object:  "@ + (match c.object {
            Some(o) => o@,
            None => "unavailable"@,
        }),
        ""@,
        "Disassembly:"@,
    ]);
}

/// Every line of a disassembly is shown, and the current one is marked; where there is no
/// disassembly, the instruction pointer stands in for it.
pub proof fn law_disassembly_is_shown(c: CodeContext)
    ensures
        ({
            let shown = text::unlines(stop_text::code_context_lines(c));
            match c.disassembly {
                Some(d) => {
                    &&& d.lines@.len() == 0 ==> shows_line(shown, "disassembly unavailable"@)
                    &&& d.read_error is Some ==> shows_line(
                        shown,
                        "disassembly truncated: "@ + d.read_error->0@,
                    )
                    &&& d.read_error is None && (d.truncated_before || d.truncated_after)
                        ==> shows_line(shown, "disassembly truncated"@)
                    &&& forall|i: int|
                        0 <= i < d.lines@.len() ==> shows_line(
                            shown,
                            code_line(#[trigger] d.lines@[i]),
                        )
                },
                None => shows_line(
                    shown,
                    "> "@ + registers::fixed_hex(c.instruction_pointer)
                        + "  <disassembly unavailable>"@,
                ),
            }
        }),
{
    let lines = stop_text::code_context_lines(c);
    text::lemma_shows_lines(lines);
    match c.disassembly {
        Some(d) => {
            let first = stop_text::disassembly_lines(c);
            assert(lines.skip(6) =~= first);
            assert forall|k: int| 0 <= k < first.len() implies lines[6 + k] == #[trigger] first[k] by {
                assert(lines.skip(6)[k] == lines[6 + k]);
            }
            let warned = d.read_error is Some || d.truncated_before || d.truncated_after;
            if warned {
                assert(lines[6] == first[0]);
            }
            if d.lines@.len() == 0 {
                assert(first.last() == "disassembly unavailable"@);
                assert(lines[6 + first.len() - 1] == first[first.len() - 1]);
            } else {
                let before = lines.take(6 + (if warned { 1int } else { 0 }));
                let after = Seq::<Seq<char>>::empty();
                assert(lines =~= before + text::blocks(d.lines@) + after);
                text::lemma_shows_blocks(lines, before, d.lines@, after);
                assert forall|i: int| 0 <= i < d.lines@.len() implies shows_line(
                    text::unlines(lines),
                    code_line(#[trigger] d.lines@[i]),
                ) by {
                    assert(d.lines@[i].lines() =~= seq![code_line(d.lines@[i])]);
                }
            }
        },
        None => {
            assert(lines[6] == "> "@ + registers::fixed_hex(c.instruction_pointer)
                + "  <disassembly unavailable>"@);
        },
    }
}

/// A line of a disassembly: the mark of the current one, its address, its bytes in 24 columns,
/// and its instruction in at most 96.
pub open spec fn code_line(line: DisassemblyLine) -> Seq<char> {
    (if line.is_current { ">"@ } else { " "@ }) + " "@ + registers::fixed_hex(line.address) + "  "@
        + text::pad_right(
        stop_text::truncated(stop_text::bytes_text(line.bytes@), 24),
        ' ',
        24,
    ) + " "@ + stop_text::truncated(stop_text::instruction_text(line), 96)
}

/// An instruction is its mnemonic and its operands; a branch also tells where it leads, by the
/// symbol there or else by the address.
pub proof fn law_instructions_tell_their_target(line: DisassemblyLine)
    ensures
        ({
            let s = stop_text::instruction_text(line);
            let base = if line.operands@.len() == 0 {
                line.mnemonic@
            } else {
                text::pad_right(line.mnemonic@, ' ', 7) + " "@ + line.operands@
            };
            let branch = line.flow_control == Some(DisassemblyFlowControl::Call)
                || line.flow_control == Some(DisassemblyFlowControl::ConditionalBranch)
                || line.flow_control == Some(DisassemblyFlowControl::UnconditionalBranch);
            &&& line.target is None ==> s == base
            &&& line.target is Some && line.target_annotation is Some ==> s == base + " <"@
                + line.target_annotation->0@ + ">"@
            &&& line.target is Some && line.target_annotation is None && branch ==> s == base
                + " <"@ + registers::fixed_hex(line.target->0) + ">"@
            &&& line.target is Some && line.target_annotation is None && !branch ==> s == base
        }),
{
}

/// The registers that a processor has are shown in a fixed order, from the instruction pointer to
/// the flags, before all others.
pub proof fn law_registers_have_their_order(registers: Seq<RegisterValue>)
    requires
        forall|k: int|
            0 <= k < processor_registers().len() ==> registers::register_named(
                registers,
                #[trigger] processor_registers()[k],
            ) is Some,
    ensures
        registers::display_order(registers).len() >= processor_registers().len(),
        registers::display_order(registers).take(processor_registers().len() as int)
            == processor_registers(),
{
    lemma_all_present(processor_registers(), registers);
    assert(registers::register_order() =~= processor_registers());
    assert(registers::display_order(registers).take(processor_registers().len() as int)
        =~= processor_registers());
}

/// The registers of the processor, in the order in which they are shown.
pub open spec fn processor_registers() -> Seq<Seq<char>> {
    seq![
        "rip"@,
        "rsp"@,
        "rbp"@,
        "rax"@,
        "rbx"@,
        "rcx"@,
        "rdx"@,
        "rdi"@,
        "rsi"@,
        "r8"@,
        "r9"@,
        "r10"@,
        "r11"@,
        "r12"@,
        "r13"@,
        "r14"@,
        "r15"@,
        "eflags"@,
    ]
}

proof fn lemma_all_present(names: Seq<Seq<char>>, registers: Seq<RegisterValue>)
    requires
        forall|k: int|
            0 <= k < names.len() ==> registers::register_named(registers, #[trigger] names[k])
                is Some,
    ensures
        registers::present_names(names, registers) == names,
    decreases names.len(),
{
    if names.len() > 0 {
        assert(registers::register_named(registers, names[names.len() - 1]) is Some);
        assert forall|k: int| 0 <= k < names.drop_last().len() implies registers::register_named(
            registers,
            #[trigger] names.drop_last()[k],
        ) is Some by {
            assert(names.drop_last()[k] == names[k]);
        }
        lemma_all_present(names.drop_last(), registers);
        assert(names.drop_last().push(names.last()) =~= names);
    }
    assert(registers::present_names(names, registers) =~= names);
}

/// A register name of ASCII letters is shown in capitals, and its other characters as they are.
pub proof fn law_register_names_in_capitals(name: Seq<char>, i: int)
    requires
        vstd::utf8::is_ascii_chars(name),
        0 <= i < name.len(),
    ensures
        registers::display_name(name).len() == name.len(),
        'a' <= name[i] <= 'z' ==> registers::display_name(name)[i] as int == name[i] as int - 32,
        !('a' <= name[i] <= 'z') ==> registers::display_name(name)[i] == name[i],
{
}

/// A branch target is named by its object, its symbol and its offset, without an offset where it
/// is zero, and without the object where that is not known or the symbol names one already.
pub proof fn law_targets_are_named(s: SymbolizedAddress)
    ensures
        ({
            let name = s.symbol@ + (if s.offset > 0 {
                "+"@ + text::hex0x(s.offset as nat)
            } else {
                Seq::empty()
            });
            let object = s.object_name is Some && s.object_name->0@.len() > 0 && !name.contains(
                '!',
            );
            &&& object ==> stop_text::symbol_annotation(s) == s.object_name->0@ + "!"@ + name
            &&& !object ==> stop_text::symbol_annotation(s) == name
        }),
{
    let name = s.symbol@ + (if s.offset > 0 {
        "+"@ + text::hex0x(s.offset as nat)
    } else {
        Seq::empty()
    });
    if s.offset > 0 {
        assert(name =~= s.symbol@ + "+"@ + text::hex0x(s.offset as nat));
    } else {
        assert(name =~= s.symbol@);
    }
}

/// Bytes are shown as pairs of hexadecimal digits, in order, with spaces between them.
pub proof fn law_bytes_are_shown(bytes: Seq<u8>, byte: u8)
    ensures
        stop_text::bytes_text(seq![byte]) == text::pad_left(text::hex(byte as nat), '0', 2),
        bytes.len() > 0 ==> stop_text::bytes_text(bytes.push(byte)) == stop_text::bytes_text(bytes)
            + " "@ + text::pad_left(text::hex(byte as nat), '0', 2),
{
    assert(stop_text::byte_texts(bytes.push(byte)).drop_last() =~= stop_text::byte_texts(bytes));
}

/// A code context is made of what was looked up: the symbol of the instruction pointer with its
/// object and offset, and its own source place rather than the line table's.
pub proof fn law_code_context_is_what_was_looked_up(
    r: CodeContext,
    rip: u64,
    symbol: Option<SymbolizedAddress>,
    mapped: Option<SourceLocation>,
    disassembly: DisassemblySnapshot,
    targets: Seq<Option<SymbolizedAddress>>,
)
    requires
        stop_text::is_code_context(r, rip, symbol, mapped, disassembly, targets),
    ensures
        r.instruction_pointer == rip,
        symbol is Some ==> r.symbol == Some(symbol->0.symbol) && r.symbol_offset == Some(
            symbol->0.offset,
        ) && r.symbol_addr == Some(symbol->0.symbol_addr) && r.object == symbol->0.object_name,
        symbol is None ==> r.symbol is None && r.object is None,
        symbol is Some && symbol->0.source is Some ==> r.source == symbol->0.source,
        symbol is None || symbol->0.source is None ==> r.source == mapped,
        r.disassembly is Some,
        r.disassembly->0.lines@.len() == disassembly.lines@.len(),
        forall|i: int|
            0 <= i < disassembly.lines@.len() ==> (#[trigger] r.disassembly->0.lines@[i]).address
                == disassembly.lines@[i].address && r.disassembly->0.lines@[i].is_current
                == disassembly.lines@[i].is_current && r.disassembly->0.lines@[i].mnemonic
                == disassembly.lines@[i].mnemonic && r.disassembly->0.lines@[i].operands
                == disassembly.lines@[i].operands && r.disassembly->0.lines@[i].bytes
                == disassembly.lines@[i].bytes,
{
    assert forall|i: int| 0 <= i < disassembly.lines@.len() implies (
    #[trigger] r.disassembly->0.lines@[i]).address == disassembly.lines@[i].address
        && r.disassembly->0.lines@[i].is_current == disassembly.lines@[i].is_current
        && r.disassembly->0.lines@[i].mnemonic == disassembly.lines@[i].mnemonic
        && r.disassembly->0.lines@[i].operands == disassembly.lines@[i].operands
        && r.disassembly->0.lines@[i].bytes == disassembly.lines@[i].bytes by {
        assert(stop_text::is_target_annotated(
            r.disassembly->0.lines@[i],
            disassembly.lines@[i],
            stop_text::symbol_at(targets, i),
        ));
    }
}

} // verus!
