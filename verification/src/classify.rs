//! What an address points to: heap chunks first, then mapped memory.

use vstd::prelude::*;
use crate::number;
use crate::number::{char_vec, parse_json_addr};
use crate::record::{JsonLayoutChunk, JsonTraceRecord};
use crate::snapshot::{
    AddressClassification, AddressRegionKind, HeapAddressDetail, ProcessMapEntry,
    ProcessMapsSnapshot,
};
use crate::text;
use crate::text::{cat2, owned, same};

verus! {

/// The model of an [`AddressClassification`].
pub struct ClassView {
    pub address: u64,
    pub kind: AddressRegionKind,
    pub label: Seq<char>,
    pub map: Option<ProcessMapEntry>,
    pub heap_detail: Option<HeapAddressDetail>,
    pub symbol: Option<Seq<char>>,
}

impl View for AddressClassification {
    type V = ClassView;

    open spec fn view(&self) -> ClassView {
        ClassView {
            address: self.address,
            kind: self.kind,
            label: self.label@,
            map: self.map,
            heap_detail: self.heap_detail,
            symbol: text::opt(self.symbol),
        }
    }
}

// ---------------------------------------------------------------------------
// Heap chunks
// ---------------------------------------------------------------------------

/// The outcome of looking for a chunk that starts at an address.
pub enum ExactScan {
    Found(HeapAddressDetail),
    /// A chunk without a readable address ended the search.
    Unreadable,
    Absent,
}

/// The first chunk whose user pointer or header is the address, from chunk `i`
/// on.
pub open spec fn exact_scan(chunks: Seq<JsonLayoutChunk>, i: int, address: u64) -> ExactScan
    decreases chunks.len() - i,
{
    if i < 0 || i >= chunks.len() {
        ExactScan::Absent
    } else {
        match (
            number::auto_radix_number(chunks[i].chunk_addr@),
            number::auto_radix_number(chunks[i].user_addr@),
        ) {
            (Some(chunk_addr), Some(user_addr)) => if address == user_addr {
                ExactScan::Found(HeapAddressDetail::UserPointer { chunk_addr, user_addr })
            } else if address == chunk_addr {
                ExactScan::Found(HeapAddressDetail::ChunkHeader { chunk_addr, user_addr })
            } else {
                exact_scan(chunks, i + 1, address)
            },
            _ => ExactScan::Unreadable,
        }
    }
}

/// The place of an address inside one chunk.
pub open spec fn inside_chunk(chunk: JsonLayoutChunk, address: u64) -> Option<HeapAddressDetail> {
    match (
        number::auto_radix_number(chunk.chunk_addr@),
        number::auto_radix_number(chunk.user_addr@),
        number::auto_radix_number(chunk.size@),
    ) {
        (Some(chunk_addr), Some(user_addr), Some(size)) => if chunk_addr + size <= u64::MAX
            && chunk_addr <= address < chunk_addr + size {
            Some(
                HeapAddressDetail::Interior {
                    chunk_addr,
                    user_addr,
                    offset: (if address >= user_addr { address - user_addr } else { 0 }) as u64,
                },
            )
        } else {
            None
        },
        _ => None,
    }
}

/// The first chunk that the address is inside of, from chunk `i` on.
pub open spec fn interior_scan(chunks: Seq<JsonLayoutChunk>, i: int, address: u64) -> Option<
    HeapAddressDetail,
>
    decreases chunks.len() - i,
{
    if i < 0 || i >= chunks.len() {
        None
    } else {
        match inside_chunk(chunks[i], address) {
            Some(d) => Some(d),
            None => interior_scan(chunks, i + 1, address),
        }
    }
}

/// The chunk of a heap layout that an address belongs to.
pub open spec fn heap_detail_of(
    layout: Option<JsonTraceRecord>,
    address: u64,
) -> Option<HeapAddressDetail> {
    match layout {
        Some(JsonTraceRecord::HeapLayout { chunks, .. }) => match exact_scan(chunks@, 0, address) {
            ExactScan::Found(d) => Some(d),
            ExactScan::Unreadable => None,
            ExactScan::Absent => interior_scan(chunks@, 0, address),
        },
        _ => None,
    }
}

pub open spec fn heap_detail_label(d: HeapAddressDetail) -> Seq<char> {
    match d {
        HeapAddressDetail::UserPointer { .. } => "heap user"@,
        HeapAddressDetail::ChunkHeader { .. } => "heap chunk"@,
        HeapAddressDetail::Interior { offset, .. } => "heap+"@ + text::hex0x(offset as nat),
    }
}

fn format_heap_detail_label(d: HeapAddressDetail) -> (r: String)
    ensures
        r@ == heap_detail_label(d),
{
    match d {
        HeapAddressDetail::UserPointer { .. } => owned("heap user"),
        HeapAddressDetail::ChunkHeader { .. } => owned("heap chunk"),
        HeapAddressDetail::Interior { offset, .. } => cat2(
            "heap+",
            text::format_hex0x(offset).as_str(),
        ),
    }
}

/// The classification of an address in a heap chunk.
pub open spec fn heap_class(address: u64, d: HeapAddressDetail) -> ClassView {
    ClassView {
        address,
        kind: AddressRegionKind::Heap,
        label: heap_detail_label(d),
        map: None,
        heap_detail: Some(d),
        symbol: None,
    }
}

pub open spec fn opt_record(r: Option<&JsonTraceRecord>) -> Option<JsonTraceRecord> {
    match r {
        Some(x) => Some(*x),
        None => None,
    }
}

fn find_exact(chunks: &Vec<JsonLayoutChunk>, address: u64) -> (r: Option<
    Option<HeapAddressDetail>,
>)
    ensures
        match exact_scan(chunks@, 0, address) {
            ExactScan::Found(d) => r == Some(Some(d)),
            ExactScan::Unreadable => r is None,
            ExactScan::Absent => r == Some(None::<HeapAddressDetail>),
        },
{
    let mut i: usize = 0;
    while i < chunks.len()
        invariant
            i <= chunks.len(),
            exact_scan(chunks@, 0, address) == exact_scan(chunks@, i as int, address),
        decreases chunks.len() - i,
    {
        let chunk_addr: u64 = match parse_json_addr(chunks[i].chunk_addr.as_str()) {
            Some(n) => n,
            None => {
                return None;
            },
        };
        let user_addr: u64 = match parse_json_addr(chunks[i].user_addr.as_str()) {
            Some(n) => n,
            None => {
                return None;
            },
        };
        if address == user_addr {
            return Some(Some(HeapAddressDetail::UserPointer { chunk_addr, user_addr }));
        }
        if address == chunk_addr {
            return Some(Some(HeapAddressDetail::ChunkHeader { chunk_addr, user_addr }));
        }
        i = i + 1;
    }
    Some(None)
}

fn place_inside(chunk: &JsonLayoutChunk, address: u64) -> (r: Option<HeapAddressDetail>)
    ensures
        r == inside_chunk(*chunk, address),
{
    let chunk_addr: u64 = match parse_json_addr(chunk.chunk_addr.as_str()) {
        Some(n) => n,
        None => {
            return None;
        },
    };
    let user_addr: u64 = match parse_json_addr(chunk.user_addr.as_str()) {
        Some(n) => n,
        None => {
            return None;
        },
    };
    let size: u64 = match parse_json_addr(chunk.size.as_str()) {
        Some(n) => n,
        None => {
            return None;
        },
    };
    match chunk_addr.checked_add(size) {
        Some(end) => if chunk_addr <= address && address < end {
            let offset: u64 = if address >= user_addr { address - user_addr } else { 0 };
            Some(HeapAddressDetail::Interior { chunk_addr, user_addr, offset })
        } else {
            None
        },
        None => None,
    }
}

fn find_interior(chunks: &Vec<JsonLayoutChunk>, address: u64) -> (r: Option<HeapAddressDetail>)
    ensures
        r == interior_scan(chunks@, 0, address),
{
    let mut i: usize = 0;
    while i < chunks.len()
        invariant
            i <= chunks.len(),
            interior_scan(chunks@, 0, address) == interior_scan(chunks@, i as int, address),
        decreases chunks.len() - i,
    {
        if let Some(d) = place_inside(&chunks[i], address) {
            return Some(d);
        }
        i = i + 1;
    }
    None
}

pub fn classify_heap_address(address: u64, latest_heap_layout: Option<&JsonTraceRecord>) -> (r:
    Option<AddressClassification>)
    ensures
        match (r, heap_detail_of(opt_record(latest_heap_layout), address)) {
            (Some(c), Some(d)) => c@ == heap_class(address, d),
            (None, None) => true,
            _ => false,
        },
{
    let detail = match latest_heap_layout {
        Some(JsonTraceRecord::HeapLayout { chunks, .. }) => match find_exact(chunks, address) {
            Some(Some(d)) => Some(d),
            Some(None) => find_interior(chunks, address),
            None => None,
        },
        _ => None,
    };
    match detail {
        Some(d) => Some(
            AddressClassification {
                address,
                kind: AddressRegionKind::Heap,
                label: format_heap_detail_label(d),
                map: None,
                heap_detail: Some(d),
                symbol: None,
            },
        ),
        None => None,
    }
}

// ---------------------------------------------------------------------------
// Mapped memory
// ---------------------------------------------------------------------------

/// `part` occurs in `s`.
pub open spec fn occurs(s: Seq<char>, part: Seq<char>) -> bool {
    exists|i: int| #[trigger] occurs_at(s, part, i)
}

pub open spec fn occurs_at(s: Seq<char>, part: Seq<char>, i: int) -> bool {
    0 <= i && i + part.len() <= s.len() && s.subrange(i, i + part.len()) == part
}

pub fn contains_text(s: &str, part: &str) -> (r: bool)
    ensures
        r == occurs(s@, part@),
{
    let n: usize = s.unicode_len();
    let m: usize = part.unicode_len();
    if m > n {
        return false;
    }
    let mut i: usize = 0;
    while i <= n - m
        invariant
            n == s@.len(),
            m == part@.len(),
            m <= n,
            i <= n - m + 1,
            forall|k: int| 0 <= k < i ==> !(#[trigger] occurs_at(s@, part@, k)),
        decreases n - m + 1 - i,
    {
        if same(s.substring_char(i, i + m), part) {
            assert(occurs_at(s@, part@, i as int));
            return true;
        }
        assert(!occurs_at(s@, part@, i as int));
        if i == n - m {
            assert forall|k: int| !(#[trigger] occurs_at(s@, part@, k)) by {
                if 0 <= k && k + m <= n {
                    assert(k <= i);
                }
            }
            return false;
        }
        i = i + 1;
    }
    false
}

pub fn contains_char(s: &str, c: char) -> (r: bool)
    ensures
        r == s@.contains(c),
{
    let v = char_vec(s);
    let mut i: usize = 0;
    while i < v.len()
        invariant
            i <= v.len(),
            v@ == s@,
            forall|k: int| 0 <= k < i ==> v@[k] != c,
        decreases v.len() - i,
    {
        if v[i] == c {
            assert(s@[i as int] == c);
            return true;
        }
        i = i + 1;
    }
    false
}

/// What follows the last slash.
pub open spec fn after_last_slash(path: Seq<char>) -> Seq<char>
    decreases path.len(),
{
    if path.len() == 0 || path.last() == '/' {
        Seq::empty()
    } else {
        after_last_slash(path.drop_last()).push(path.last())
    }
}

/// What follows the last slash; the whole path where nothing does.
pub open spec fn base_name(path: Seq<char>) -> Seq<char> {
    if after_last_slash(path).len() == 0 { path } else { after_last_slash(path) }
}

pub fn map_path_label(pathname: &str) -> (r: String)
    ensures
        r@ == base_name(pathname@),
{
    let v = char_vec(pathname);
    let mut i: usize = v.len();
    assert(v@.take(v@.len() as int) =~= v@);
    assert(after_last_slash(v@) =~= after_last_slash(v@.take(i as int)) + v@.skip(i as int));
    while i > 0 && v[i - 1] != '/'
        invariant
            i <= v.len(),
            v@ == pathname@,
            after_last_slash(v@) == after_last_slash(v@.take(i as int)) + v@.skip(i as int),
        decreases i,
    {
        proof {
            let t = v@.take(i as int);
            assert(t.drop_last() =~= v@.take(i - 1));
            assert(t.last() == v@[i - 1]);
            assert(after_last_slash(t) + v@.skip(i as int) =~= after_last_slash(v@.take(i - 1))
                + v@.skip(i - 1));
        }
        i = i - 1;
    }
    proof {
        let t = v@.take(i as int);
        if i > 0 {
            assert(t.last() == v@[i - 1]);
        }
        assert(after_last_slash(v@) =~= v@.skip(i as int));
    }
    if i == v.len() {
        return owned(pathname);
    }
    assert(pathname@.subrange(i as int, pathname@.len() as int) =~= pathname@.skip(i as int));
    owned(pathname.substring_char(i, v.len()))
}

pub open spec fn path_of(entry: ProcessMapEntry) -> Seq<char> {
    text::or_word(entry.pathname, Seq::empty())
}

/// The kind of a mapping.
pub open spec fn map_kind(entry: ProcessMapEntry) -> AddressRegionKind {
    let path = path_of(entry);
    if path == "[heap]"@ {
        AddressRegionKind::Heap
    } else if path == "[stack]"@ {
        AddressRegionKind::Stack
    } else if path == "[vdso]"@ {
        AddressRegionKind::Vdso
    } else if path == "[vvar]"@ {
        AddressRegionKind::Vvar
    } else if path == "[vsyscall]"@ {
        AddressRegionKind::Vsvar
    } else if occurs(path, "libc.so"@) || occurs(path, "libc-"@) {
        AddressRegionKind::Libc
    } else if occurs(path, "ld-linux"@) || occurs(path, "/ld-"@) {
        AddressRegionKind::Loader
    } else if path.len() == 0 {
        AddressRegionKind::Anonymous
    } else if entry.permissions@.contains('x') {
        AddressRegionKind::Code
    } else {
        AddressRegionKind::MappedFile
    }
}

/// The label of a mapping.
pub open spec fn map_label(entry: ProcessMapEntry) -> Seq<char> {
    match map_kind(entry) {
        AddressRegionKind::Heap => "heap"@,
        AddressRegionKind::Stack => "stack"@,
        AddressRegionKind::Vdso => "vdso"@,
        AddressRegionKind::Vvar => "vvar"@,
        AddressRegionKind::Vsvar => "vsyscall"@,
        AddressRegionKind::Libc => "libc"@,
        AddressRegionKind::Loader => "loader"@,
        AddressRegionKind::Anonymous => "anon"@,
        AddressRegionKind::Code => "code"@,
        _ => base_name(path_of(entry)),
    }
}

pub fn classify_map_entry(entry: &ProcessMapEntry) -> (r: (AddressRegionKind, String))
    ensures
        r.0 == map_kind(*entry),
        r.1@ == map_label(*entry),
{
    let path = match &entry.pathname {
        Some(p) => p.clone(),
        None => String::new(),
    };
    let p = path.as_str();
    if same(p, "[heap]") {
        (AddressRegionKind::Heap, owned("heap"))
    } else if same(p, "[stack]") {
        (AddressRegionKind::Stack, owned("stack"))
    } else if same(p, "[vdso]") {
        (AddressRegionKind::Vdso, owned("vdso"))
    } else if same(p, "[vvar]") {
        (AddressRegionKind::Vvar, owned("vvar"))
    } else if same(p, "[vsyscall]") {
        (AddressRegionKind::Vsvar, owned("vsyscall"))
    } else if contains_text(p, "libc.so") || contains_text(p, "libc-") {
        (AddressRegionKind::Libc, owned("libc"))
    } else if contains_text(p, "ld-linux") || contains_text(p, "/ld-") {
        (AddressRegionKind::Loader, owned("loader"))
    } else if p.is_empty() {
        (AddressRegionKind::Anonymous, owned("anon"))
    } else if contains_char(entry.permissions.as_str(), 'x') {
        (AddressRegionKind::Code, owned("code"))
    } else {
        (AddressRegionKind::MappedFile, map_path_label(p))
    }
}

/// The first mapping that holds the address, from entry `i` on.
pub open spec fn mapping_of(entries: Seq<ProcessMapEntry>, i: int, address: u64) -> Option<
    ProcessMapEntry,
>
    decreases entries.len() - i,
{
    if i < 0 || i >= entries.len() {
        None
    } else if entries[i].start <= address < entries[i].end {
        Some(entries[i])
    } else {
        mapping_of(entries, i + 1, address)
    }
}

pub open spec fn opt_maps(maps: Option<&ProcessMapsSnapshot>) -> Option<ProcessMapsSnapshot> {
    match maps {
        Some(m) => Some(*m),
        None => None,
    }
}

/// What an address points to: a heap chunk of the layout, else the mapping that
/// holds it, else nothing known.
pub open spec fn class_of(
    address: u64,
    maps: Option<ProcessMapsSnapshot>,
    layout: Option<JsonTraceRecord>,
) -> ClassView {
    match heap_detail_of(layout, address) {
        Some(d) => heap_class(address, d),
        None => {
            let entry = match maps {
                Some(m) => mapping_of(m.entries@, 0, address),
                None => None,
            };
            match entry {
                Some(e) => ClassView {
                    address,
                    kind: map_kind(e),
                    label: map_label(e),
                    map: Some(e),
                    heap_detail: None,
                    symbol: None,
                },
                None => ClassView {
                    address,
                    kind: AddressRegionKind::Unknown,
                    label: "unmapped"@,
                    map: None,
                    heap_detail: None,
                    symbol: None,
                },
            }
        },
    }
}

fn find_mapping(entries: &Vec<ProcessMapEntry>, address: u64) -> (r: Option<ProcessMapEntry>)
    ensures
        r == mapping_of(entries@, 0, address),
{
    let mut i: usize = 0;
    while i < entries.len()
        invariant
            i <= entries.len(),
            mapping_of(entries@, 0, address) == mapping_of(entries@, i as int, address),
        decreases entries.len() - i,
    {
        if entries[i].start <= address && address < entries[i].end {
            return Some(entries[i].clone());
        }
        i = i + 1;
    }
    None
}

pub fn classify_address(
    address: u64,
    maps: Option<&ProcessMapsSnapshot>,
    latest_heap_layout: Option<&JsonTraceRecord>,
) -> (r: AddressClassification)
    ensures
        r@ == class_of(address, opt_maps(maps), opt_record(latest_heap_layout)),
{
    if let Some(c) = classify_heap_address(address, latest_heap_layout) {
        return c;
    }
    if let Some(m) = maps {
        if let Some(entry) = find_mapping(&m.entries, address) {
            let (kind, label) = classify_map_entry(&entry);
            return AddressClassification {
                address,
                kind,
                label,
                map: Some(entry),
                heap_detail: None,
                symbol: None,
            };
        }
    }
    AddressClassification {
        address,
        kind: AddressRegionKind::Unknown,
        label: owned("unmapped"),
        map: None,
        heap_detail: None,
        symbol: None,
    }
}

/// The short note for a classified value; nothing for an unknown address.
pub open spec fn annotation_of(c: ClassView) -> Option<Seq<char>> {
    match c.kind {
        AddressRegionKind::Unknown => None,
        AddressRegionKind::Heap => match c.heap_detail {
            Some(HeapAddressDetail::Interior { .. }) => Some("heap"@),
            Some(HeapAddressDetail::ChunkHeader { .. }) => Some("heap chunk"@),
            _ => Some(c.label),
        },
        _ => Some(c.label),
    }
}

pub fn annotation_from_classification(c: AddressClassification) -> (r: Option<String>)
    ensures
        text::opt(r) == annotation_of(c@),
{
    match c.kind {
        AddressRegionKind::Unknown => None,
        AddressRegionKind::Heap => match c.heap_detail {
            Some(HeapAddressDetail::Interior { .. }) => Some(owned("heap")),
            Some(HeapAddressDetail::ChunkHeader { .. }) => Some(owned("heap chunk")),
            _ => Some(c.label),
        },
        _ => Some(c.label),
    }
}

/// The note for a value, where one value has a note of its own.
pub open spec fn value_note(
    value: u64,
    maps: Option<ProcessMapsSnapshot>,
    layout: Option<JsonTraceRecord>,
    special: Option<u64>,
    special_note: Seq<char>,
) -> Option<Seq<char>> {
    if special == Some(value) {
        Some(special_note)
    } else {
        annotation_of(class_of(value, maps, layout))
    }
}

pub fn annotate_register_value(
    value: u64,
    maps: Option<&ProcessMapsSnapshot>,
    latest_heap_layout: Option<&JsonTraceRecord>,
    selected_chunk_user_addr: Option<u64>,
) -> (r: Option<String>)
    ensures
        text::opt(r) == value_note(
            value,
            opt_maps(maps),
            opt_record(latest_heap_layout),
            selected_chunk_user_addr,
            "selected chunk"@,
        ),
{
    if let Some(addr) = selected_chunk_user_addr {
        if addr == value {
            return Some(owned("selected chunk"));
        }
    }
    annotation_from_classification(classify_address(value, maps, latest_heap_layout))
}

pub fn annotate_stack_value(
    value: u64,
    maps: Option<&ProcessMapsSnapshot>,
    latest_heap_layout: Option<&JsonTraceRecord>,
    current_rip: Option<u64>,
) -> (r: Option<String>)
    ensures
        text::opt(r) == value_note(
            value,
            opt_maps(maps),
            opt_record(latest_heap_layout),
            current_rip,
            "rip"@,
        ),
{
    if let Some(rip) = current_rip {
        if rip == value {
            return Some(owned("rip"));
        }
    }
    annotation_from_classification(classify_address(value, maps, latest_heap_layout))
}

// ---------------------------------------------------------------------------
// Laws
// ---------------------------------------------------------------------------

/// A chunk of the heap layout wins over the memory maps: with one found, the
/// maps do not matter.
pub proof fn law_heap_layout_wins(
    address: u64,
    maps: Option<ProcessMapsSnapshot>,
    other_maps: Option<ProcessMapsSnapshot>,
    layout: Option<JsonTraceRecord>,
)
    requires
        heap_detail_of(layout, address) is Some,
    ensures
        class_of(address, maps, layout) == class_of(address, other_maps, layout),
        class_of(address, maps, layout).kind == AddressRegionKind::Heap,
{
}

proof fn lemma_mapping_holds(entries: Seq<ProcessMapEntry>, i: int, address: u64)
    requires
        0 <= i,
    ensures
        match mapping_of(entries, i, address) {
            Some(e) => e.start <= address < e.end && entries.contains(e),
            None => forall|k: int|
                i <= k < entries.len() ==> !((#[trigger] entries[k]).start <= address
                    < entries[k].end),
        },
    decreases entries.len() - i,
{
    if i < entries.len() {
        if !(entries[i].start <= address < entries[i].end) {
            lemma_mapping_holds(entries, i + 1, address);
        }
    }
}

/// A classified address that is no heap chunk lies in the mapping it is given,
/// and an address is called unmapped only where no mapping holds it.
pub proof fn law_mapping_holds_address(
    address: u64,
    maps: ProcessMapsSnapshot,
    layout: Option<JsonTraceRecord>,
)
    requires
        heap_detail_of(layout, address) is None,
    ensures
        match class_of(address, Some(maps), layout).map {
            Some(e) => e.start <= address < e.end && maps.entries@.contains(e),
            None => forall|k: int|
                0 <= k < maps.entries@.len() ==> !((#[trigger] maps.entries@[k]).start <= address
                    < maps.entries@[k].end),
        },
{
    lemma_mapping_holds(maps.entries@, 0, address);
}

/// An address has no note exactly where nothing is known of it.
pub proof fn law_no_note_means_unknown(
    address: u64,
    maps: Option<ProcessMapsSnapshot>,
    layout: Option<JsonTraceRecord>,
)
    ensures
        annotation_of(class_of(address, maps, layout)) is None <==> class_of(
            address,
            maps,
            layout,
        ).kind == AddressRegionKind::Unknown,
{
}

} // verus!
