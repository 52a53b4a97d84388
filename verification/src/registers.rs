//! Registers: what changed between two stops, and in which order they are
//! shown.

use vstd::prelude::*;
use crate::classify;
use crate::classify::annotate_register_value;
use crate::record::JsonTraceRecord;
use crate::snapshot::{
    ProcessMapsSnapshot, RegisterRole, RegisterSnapshot, RegisterValue, RenderedRegisterLine,
};
use crate::text;
use crate::text::{cat2, cat6, owned, same, Block, Lines};

verus! {

/// A value with all of its 64 bits in hexadecimal.
pub open spec fn fixed_hex(value: u64) -> Seq<char> {
    "0x"@ + text::pad_left(text::hex(value as nat), '0', 16)
}

pub fn format_register_value_fixed_hex(value: u64) -> (r: String)
    ensures
        r@ == fixed_hex(value),
{
    cat2("0x", text::format_pad_left(text::format_hex(value).as_str(), '0', 16).as_str())
}

/// A register name without regard to ASCII letter case.
pub fn normalize_register_name(name: &str) -> (r: String)
    ensures
        r@ == text::ascii_lower_text(name@),
{
    text::format_ascii_lower(name)
}

// ---------------------------------------------------------------------------
// Sets of names
// ---------------------------------------------------------------------------

/// A set of register names, kept in ascending order and so without repetition.
#[derive(Debug)]
pub struct NameSet {
    items: Vec<String>,
}

impl View for NameSet {
    type V = Set<Seq<char>>;

    closed spec fn view(&self) -> Set<Seq<char>> {
        Set::new(|n: Seq<char>| text::texts(self.items@).contains(n))
    }
}

impl NameSet {
    #[verifier::type_invariant]
    spec fn is_sorted(self) -> bool {
        is_ascending(text::texts(self.items@))
    }

    pub fn new() -> (r: NameSet)
        ensures
            r@ == Set::<Seq<char>>::empty(),
    {
        let r = NameSet { items: Vec::new() };
        assert(r@ =~= Set::empty());
        r
    }

    pub fn contains(&self, name: &str) -> (r: bool)
        ensures
            r == self@.contains(name@),
    {
        let mut i: usize = 0;
        let ghost t = text::texts(self.items@);
        while i < self.items.len()
            invariant
                i <= self.items.len(),
                t == text::texts(self.items@),
                forall|k: int| 0 <= k < i ==> t[k] != name@,
            decreases self.items.len() - i,
        {
            if same(self.items[i].as_str(), name) {
                assert(t[i as int] == name@);
                assert(t.contains(name@));
                return true;
            }
            assert(t[i as int] == self.items@[i as int]@);
            i = i + 1;
        }
        false
    }

    pub fn insert(&mut self, name: String)
        ensures
            final(self)@ == old(self)@.insert(name@),
    {
        proof {
            use_type_invariant(&*self);
            lemma_insert_name(text::texts(self.items@), name@);
        }
        let mut items: Vec<String> = Vec::new();
        std::mem::swap(&mut items, &mut self.items);
        place_name(&mut items, name);
        self.items = items;
        assert(self@ =~= old(self)@.insert(name@));
    }

    pub fn is_empty(&self) -> (r: bool)
        ensures
            r == (self@ == Set::<Seq<char>>::empty()),
    {
        let r = self.items.len() == 0;
        proof {
            if r {
                assert(self@ =~= Set::empty());
            } else {
                let t = text::texts(self.items@);
                assert(t.contains(t[0]));
                assert(self@.contains(t[0]));
            }
        }
        r
    }

    /// The names, each once and in ascending order.
    pub fn names(&self) -> (r: &Vec<String>)
        ensures
            forall|n: Seq<char>| text::texts(r@).contains(n) <==> self@.contains(n),
            text::texts(r@).no_duplicates(),
            is_ascending(text::texts(r@)),
    {
        proof {
            use_type_invariant(self);
            lemma_ascending_distinct(text::texts(self.items@));
        }
        &self.items
    }
}

// ---------------------------------------------------------------------------
// Changes
// ---------------------------------------------------------------------------

/// The last register of the given name, letter case aside.
pub open spec fn register_named(registers: Seq<RegisterValue>, name: Seq<char>) -> Option<
    RegisterValue,
>
    decreases registers.len(),
{
    if registers.len() == 0 {
        None
    } else if text::ascii_lower_text(registers.last().name@) == name {
        Some(registers.last())
    } else {
        register_named(registers.drop_last(), name)
    }
}

/// A register has another value than before, or was not there before.
pub open spec fn is_changed(previous: Seq<RegisterValue>, register: RegisterValue) -> bool {
    match register_named(previous, text::ascii_lower_text(register.name@)) {
        Some(p) => p.value != register.value,
        None => true,
    }
}

/// The names of the registers that changed.
pub open spec fn changed_names(
    previous: Seq<RegisterValue>,
    current: Seq<RegisterValue>,
) -> Set<Seq<char>>
    decreases current.len(),
{
    if current.len() == 0 {
        Set::empty()
    } else {
        let before = changed_names(previous, current.drop_last());
        if is_changed(previous, current.last()) {
            before.insert(text::ascii_lower_text(current.last().name@))
        } else {
            before
        }
    }
}

fn find_register(registers: &Vec<RegisterValue>, name: &str) -> (r: Option<usize>)
    ensures
        match (r, register_named(registers@, name@)) {
            (Some(i), Some(m)) => i < registers@.len() && registers@[i as int] == m,
            (None, None) => true,
            _ => false,
        },
{
    let mut i: usize = registers.len();
    assert(registers@.take(registers@.len() as int) =~= registers@);
    while i > 0
        invariant
            i <= registers.len(),
            register_named(registers@, name@) == register_named(registers@.take(i as int), name@),
        decreases i,
    {
        proof {
            let t = registers@.take(i as int);
            assert(t.last() == registers@[i - 1]);
            assert(t.drop_last() =~= registers@.take(i - 1));
        }
        if same(normalize_register_name(registers[i - 1].name.as_str()).as_str(), name) {
            return Some(i - 1);
        }
        i = i - 1;
    }
    None
}

pub open spec fn opt_snapshot(s: Option<&RegisterSnapshot>) -> Option<RegisterSnapshot> {
    match s {
        Some(x) => Some(*x),
        None => None,
    }
}

/// The names of the registers that changed since the previous stop; none
/// without a previous stop.
pub open spec fn snapshot_changes(
    previous: Option<RegisterSnapshot>,
    current: RegisterSnapshot,
) -> Set<Seq<char>> {
    match previous {
        Some(p) => changed_names(p.registers@, current.registers@),
        None => Set::empty(),
    }
}

pub fn diff_register_snapshots(
    previous: Option<&RegisterSnapshot>,
    current: &RegisterSnapshot,
) -> (r: NameSet)
    ensures
        r@ == snapshot_changes(opt_snapshot(previous), *current),
{
    let mut out = NameSet::new();
    let before = match previous {
        Some(p) => p,
        None => {
            return out;
        },
    };
    let mut i: usize = 0;
    let ghost now = current.registers@;
    assert(now.take(0) =~= Seq::empty());
    while i < current.registers.len()
        invariant
            i <= current.registers.len(),
            now == current.registers@,
            out@ == changed_names(before.registers@, now.take(i as int)),
        decreases current.registers.len() - i,
    {
        proof {
            assert(now.take(i + 1).last() == now[i as int]);
            assert(now.take(i + 1).drop_last() =~= now.take(i as int));
        }
        let name = normalize_register_name(current.registers[i].name.as_str());
        let changed = match find_register(&before.registers, name.as_str()) {
            Some(k) => before.registers[k].value != current.registers[i].value,
            None => true,
        };
        if changed {
            out.insert(name);
        }
        i = i + 1;
    }
    assert(now.take(now.len() as int) =~= now);
    out
}

// ---------------------------------------------------------------------------
// Order
// ---------------------------------------------------------------------------

/// Lexicographic order of texts by character.
pub open spec fn text_lt(a: Seq<char>, b: Seq<char>) -> bool
    decreases a.len(),
{
    if b.len() == 0 {
        false
    } else if a.len() == 0 {
        true
    } else if a[0] != b[0] {
        a[0] < b[0]
    } else {
        text_lt(a.skip(1), b.skip(1))
    }
}

fn is_before(a: &str, b: &str) -> (r: bool)
    ensures
        r == text_lt(a@, b@),
{
    let x = crate::number::char_vec(a);
    let y = crate::number::char_vec(b);
    let mut i: usize = 0;
    assert(x@.skip(0) =~= x@);
    assert(y@.skip(0) =~= y@);
    while i < x.len() && i < y.len() && x[i] == y[i]
        invariant
            i <= x.len(),
            i <= y.len(),
            x@ == a@,
            y@ == b@,
            text_lt(a@, b@) == text_lt(x@.skip(i as int), y@.skip(i as int)),
        decreases x.len() - i,
    {
        proof {
            let s = x@.skip(i as int);
            let t = y@.skip(i as int);
            assert(s[0] == x@[i as int]);
            assert(t[0] == y@[i as int]);
            assert(s.skip(1) =~= x@.skip(i + 1));
            assert(t.skip(1) =~= y@.skip(i + 1));
        }
        i = i + 1;
    }
    if i == y.len() {
        return false;
    }
    if i == x.len() {
        return true;
    }
    proof {
        assert(x@.skip(i as int)[0] == x@[i as int]);
        assert(y@.skip(i as int)[0] == y@[i as int]);
    }
    x[i] < y[i]
}

/// `names` with `x` at its place in the order; no change where it is there.
pub open spec fn insert_name(names: Seq<Seq<char>>, x: Seq<char>) -> Seq<Seq<char>>
    decreases names.len(),
{
    if names.len() == 0 {
        seq![x]
    } else if x == names[0] {
        names
    } else if text_lt(x, names[0]) {
        seq![x] + names
    } else {
        seq![names[0]] + insert_name(names.skip(1), x)
    }
}

/// The names of registers in lexicographic order, each once.
pub open spec fn sorted_names(registers: Seq<RegisterValue>) -> Seq<Seq<char>>
    decreases registers.len(),
{
    if registers.len() == 0 {
        Seq::empty()
    } else {
        insert_name(
            sorted_names(registers.drop_last()),
            text::ascii_lower_text(registers.last().name@),
        )
    }
}

fn place_name(names: &mut Vec<String>, x: String)
    ensures
        text::texts(final(names)@) == insert_name(text::texts(old(names)@), x@),
{
    let ghost t = text::texts(names@);
    let mut i: usize = 0;
    assert(t.skip(0) =~= t);
    assert(t.take(0) + insert_name(t.skip(0), x@) =~= insert_name(t, x@));
    while i < names.len()
        invariant
            i <= names.len(),
            t == text::texts(names@),
            names@ == old(names)@,
            insert_name(t, x@) == t.take(i as int) + insert_name(t.skip(i as int), x@),
        decreases names.len() - i,
    {
        let ghost s = t.skip(i as int);
        assert(s[0] == names@[i as int]@);
        if same(x.as_str(), names[i].as_str()) {
            assert(t.take(i as int) + s =~= t);
            return;
        }
        if is_before(x.as_str(), names[i].as_str()) {
            names.insert(i, x);
            assert(text::texts(names@) =~= t.take(i as int) + (seq![x@] + s));
            return;
        }
        assert(s.skip(1) =~= t.skip(i + 1));
        assert(t.take(i as int) + (seq![s[0]] + insert_name(s.skip(1), x@)) =~= t.take(i + 1)
            + insert_name(t.skip(i + 1), x@));
        i = i + 1;
    }
    assert(t.skip(i as int) =~= Seq::empty());
    names.push(x);
    assert(text::texts(names@) =~= t.take(i as int) + seq![x@]);
}

fn sort_names(registers: &Vec<RegisterValue>) -> (r: Vec<String>)
    ensures
        text::texts(r@) == sorted_names(registers@),
{
    let mut out: Vec<String> = Vec::new();
    let mut i: usize = 0;
    assert(registers@.take(0) =~= Seq::empty());
    assert(text::texts(out@) =~= Seq::empty());
    while i < registers.len()
        invariant
            i <= registers.len(),
            text::texts(out@) == sorted_names(registers@.take(i as int)),
        decreases registers.len() - i,
    {
        proof {
            assert(registers@.take(i + 1).last() == registers@[i as int]);
            assert(registers@.take(i + 1).drop_last() =~= registers@.take(i as int));
        }
        place_name(&mut out, normalize_register_name(registers[i].name.as_str()));
        i = i + 1;
    }
    assert(registers@.take(registers@.len() as int) =~= registers@);
    out
}

/// The registers that are shown first, in this order.
pub open spec fn register_order() -> Seq<Seq<char>> {
    seq![
        "rip"@,
        "rsp"@,
        "rbp"@,
        "rax"@,
        "rbx"@,
        "rcx"@,
        "rdx"@,
        "rdi"@,
        "rsi"@,
        "r8"@,
        "r9"@,
        "r10"@,
        "r11"@,
        "r12"@,
        "r13"@,
        "r14"@,
        "r15"@,
        "eflags"@,
    ]
}

fn order_names() -> (r: Lines)
    ensures
        r@ == register_order(),
{
    let mut l = Lines::new();
    l.push(owned("rip"));
    l.push(owned("rsp"));
    l.push(owned("rbp"));
    l.push(owned("rax"));
    l.push(owned("rbx"));
    l.push(owned("rcx"));
    l.push(owned("rdx"));
    l.push(owned("rdi"));
    l.push(owned("rsi"));
    l.push(owned("r8"));
    l.push(owned("r9"));
    l.push(owned("r10"));
    l.push(owned("r11"));
    l.push(owned("r12"));
    l.push(owned("r13"));
    l.push(owned("r14"));
    l.push(owned("r15"));
    l.push(owned("eflags"));
    l
}

/// The names of `names` that `registers` has, in their order.
pub open spec fn present_names(names: Seq<Seq<char>>, registers: Seq<RegisterValue>) -> Seq<
    Seq<char>,
>
    decreases names.len(),
{
    if names.len() == 0 {
        Seq::empty()
    } else {
        let before = present_names(names.drop_last(), registers);
        if register_named(registers, names.last()) is Some {
            before.push(names.last())
        } else {
            before
        }
    }
}

/// The names of `names` that are not in the fixed order.
pub open spec fn other_names(names: Seq<Seq<char>>) -> Seq<Seq<char>>
    decreases names.len(),
{
    if names.len() == 0 {
        Seq::empty()
    } else {
        let before = other_names(names.drop_last());
        if register_order().contains(names.last()) {
            before
        } else {
            before.push(names.last())
        }
    }
}

/// The registers in the order in which they are shown: the fixed order, then
/// the others by name.
pub open spec fn display_order(registers: Seq<RegisterValue>) -> Seq<Seq<char>> {
    present_names(register_order(), registers) + other_names(sorted_names(registers))
}

fn keep_present(names: &Lines, registers: &Vec<RegisterValue>) -> (r: Lines)
    ensures
        r@ == present_names(names@, registers@),
{
    let ghost t = names@;
    let mut out = Lines::new();
    let mut i: usize = 0;
    assert(t.take(0) =~= Seq::empty());
    while i < names.items.len()
        invariant
            i <= names.items.len(),
            t == text::texts(names.items@),
            out@ == present_names(t.take(i as int), registers@),
        decreases names.items.len() - i,
    {
        proof {
            assert(t.take(i + 1).last() == t[i as int]);
            assert(t.take(i + 1).drop_last() =~= t.take(i as int));
        }
        if find_register(registers, names.items[i].as_str()).is_some() {
            out.push(names.items[i].clone());
        }
        i = i + 1;
    }
    assert(t.take(t.len() as int) =~= t);
    out
}

fn list_contains(names: &Lines, name: &str) -> (r: bool)
    ensures
        r == names@.contains(name@),
{
    let mut i: usize = 0;
    let ghost t = names@;
    while i < names.items.len()
        invariant
            i <= names.items.len(),
            t == text::texts(names.items@),
            forall|k: int| 0 <= k < i ==> t[k] != name@,
        decreases names.items.len() - i,
    {
        if same(names.items[i].as_str(), name) {
            assert(t[i as int] == name@);
            return true;
        }
        assert(t[i as int] == names.items@[i as int]@);
        i = i + 1;
    }
    false
}

fn keep_others(names: &Vec<String>) -> (r: Lines)
    ensures
        r@ == other_names(text::texts(names@)),
{
    let order = order_names();
    let ghost t = text::texts(names@);
    let mut out = Lines::new();
    let mut i: usize = 0;
    assert(t.take(0) =~= Seq::empty());
    while i < names.len()
        invariant
            i <= names.len(),
            t == text::texts(names@),
            order@ == register_order(),
            out@ == other_names(t.take(i as int)),
        decreases names.len() - i,
    {
        proof {
            assert(t.take(i + 1).last() == t[i as int]);
            assert(t.take(i + 1).drop_last() =~= t.take(i as int));
        }
        if !list_contains(&order, names[i].as_str()) {
            out.push(names[i].clone());
        }
        i = i + 1;
    }
    assert(t.take(t.len() as int) =~= t);
    out
}

// ---------------------------------------------------------------------------
// Lines
// ---------------------------------------------------------------------------

/// The result of `str::to_uppercase` of std on a text.
pub uninterp spec fn unicode_upper(s: Seq<char>) -> Seq<char>;

/// Trusted: the result of `str::to_uppercase` of std depends on the text alone.
#[verifier::external_body]
fn to_unicode_upper(s: &str) -> (r: String)
    ensures
        r@ == unicode_upper(s@),
{
    s.to_uppercase()
}

pub open spec fn ascii_upper(c: char) -> char {
    if 'a' <= c <= 'z' { ((c as u32) - 32) as char } else { c }
}

pub open spec fn ascii_upper_text(s: Seq<char>) -> Seq<char> {
    Seq::new(s.len(), |i: int| ascii_upper(s[i]))
}

/// A register name in capitals.
pub open spec fn display_name(name: Seq<char>) -> Seq<char> {
    if vstd::utf8::is_ascii_chars(name) { ascii_upper_text(name) } else { unicode_upper(name) }
}

fn to_ascii_upper(c: char) -> (r: char)
    ensures
        r == ascii_upper(c),
{
    if 'a' <= c && c <= 'z' { ((c as u8) - 32) as char } else { c }
}

pub fn format_display_name(name: &str) -> (r: String)
    ensures
        r@ == display_name(name@),
{
    if !name.is_ascii() {
        return to_unicode_upper(name);
    }
    let v = crate::number::char_vec(name);
    let mut out = String::new();
    let mut i: usize = 0;
    while i < v.len()
        invariant
            i <= v.len(),
            v@ == name@,
            out@ =~= ascii_upper_text(name@).take(i as int),
        decreases v.len() - i,
    {
        out.push(to_ascii_upper(v[i]));
        i = i + 1;
    }
    assert(out@ =~= ascii_upper_text(name@));
    out
}

/// A register as it is shown: name, value, role, change mark and note.
pub open spec fn is_line_of(
    line: RenderedRegisterLine,
    name: Seq<char>,
    value: u64,
    role: Option<RegisterRole>,
    changed: Set<Seq<char>>,
    maps: Option<ProcessMapsSnapshot>,
    layout: Option<JsonTraceRecord>,
    selected: Option<u64>,
) -> bool {
    &&& line.name@ == display_name(text::ascii_lower_text(name))
    &&& line.value@ == fixed_hex(value)
    &&& line.role == role
    &&& line.changed == changed.contains(text::ascii_lower_text(name))
    &&& text::opt(line.annotation) == classify::value_note(
        value,
        maps,
        layout,
        selected,
        "selected chunk"@,
    )
}

pub fn render_register_line(
    name: &str,
    value: u64,
    role: Option<RegisterRole>,
    changed_registers: &NameSet,
    maps: Option<&ProcessMapsSnapshot>,
    latest_heap_layout: Option<&JsonTraceRecord>,
    selected_chunk_user_addr: Option<u64>,
) -> (r: RenderedRegisterLine)
    ensures
        is_line_of(
            r,
            name@,
            value,
            role,
            changed_registers@,
            classify::opt_maps(maps),
            classify::opt_record(latest_heap_layout),
            selected_chunk_user_addr,
        ),
{
    let normalized = normalize_register_name(name);
    RenderedRegisterLine {
        name: format_display_name(normalized.as_str()),
        value: format_register_value_fixed_hex(value),
        role,
        changed: changed_registers.contains(normalized.as_str()),
        annotation: annotate_register_value(
            value,
            maps,
            latest_heap_layout,
            selected_chunk_user_addr,
        ),
    }
}

/// The lines of all registers, in display order, each with the value of the
/// last register of its name.
pub fn render_register_lines(
    snapshot: &RegisterSnapshot,
    changed_registers: &NameSet,
    maps: Option<&ProcessMapsSnapshot>,
    latest_heap_layout: Option<&JsonTraceRecord>,
    selected_chunk_user_addr: Option<u64>,
) -> (r: Vec<RenderedRegisterLine>)
    ensures
        are_lines_of(
            r@,
            *snapshot,
            changed_registers@,
            classify::opt_maps(maps),
            classify::opt_record(latest_heap_layout),
            selected_chunk_user_addr,
        ),
{
    let mut names = keep_present(&order_names(), &snapshot.registers);
    names.add(keep_others(&sort_names(&snapshot.registers)));
    let ghost order = display_order(snapshot.registers@);
    assert(names@ == order);
    proof {
        lemma_display_order_present(snapshot.registers@);
    }
    let mut out: Vec<RenderedRegisterLine> = Vec::new();
    let mut i: usize = 0;
    while i < names.items.len()
        invariant
            i <= names.items.len(),
            out@.len() == i,
            order == text::texts(names.items@),
            order == display_order(snapshot.registers@),
            forall|k: int|
                0 <= k < order.len() ==> register_named(
                    snapshot.registers@,
                    #[trigger] order[k],
                ) is Some,
            forall|k: int|
                0 <= k < i ==> is_line_of(
                    #[trigger] out@[k],
                    order[k],
                    register_named(snapshot.registers@, order[k])->0.value,
                    register_named(snapshot.registers@, order[k])->0.role,
                    changed_registers@,
                    classify::opt_maps(maps),
                    classify::opt_record(latest_heap_layout),
                    selected_chunk_user_addr,
                ),
        decreases names.items.len() - i,
    {
        assert(order[i as int] == names.items@[i as int]@);
        match find_register(&snapshot.registers, names.items[i].as_str()) {
            Some(k) => {
                out.push(
                    render_register_line(
                        names.items[i].as_str(),
                        snapshot.registers[k].value,
                        snapshot.registers[k].role,
                        changed_registers,
                        maps,
                        latest_heap_layout,
                        selected_chunk_user_addr,
                    ),
                );
            },
            None => {},
        }
        i = i + 1;
    }
    out
}

/// One line per register name, in display order.
pub open spec fn are_lines_of(
    lines: Seq<RenderedRegisterLine>,
    snapshot: RegisterSnapshot,
    changed: Set<Seq<char>>,
    maps: Option<ProcessMapsSnapshot>,
    layout: Option<JsonTraceRecord>,
    selected: Option<u64>,
) -> bool {
    &&& lines.len() == display_order(snapshot.registers@).len()
    &&& forall|k: int|
        0 <= k < lines.len() ==> is_line_of(
            #[trigger] lines[k],
            display_order(snapshot.registers@)[k],
            register_named(snapshot.registers@, display_order(snapshot.registers@)[k])->0.value,
            register_named(snapshot.registers@, display_order(snapshot.registers@)[k])->0.role,
            changed,
            maps,
            layout,
            selected,
        )
}

/// A note behind a line, where there is one.
pub open spec fn note_suffix(note: Option<String>) -> Seq<char> {
    match note {
        Some(n) => " ; "@ + n@,
        None => Seq::empty(),
    }
}

pub fn format_note_suffix(note: &Option<String>) -> (r: String)
    ensures
        r@ == note_suffix(*note),
{
    match note {
        Some(n) => cat2(" ; ", n.as_str()),
        None => String::new(),
    }
}

pub open spec fn register_line_text(line: RenderedRegisterLine) -> Seq<char> {
    (if line.changed { "*"@ } else { " "@ }) + " "@ + text::pad_right(line.name@, ' ', 7) + " "@
        + line.value@ + note_suffix(line.annotation)
}

pub fn format_rendered_register_line(line: &RenderedRegisterLine) -> (r: String)
    ensures
        r@ == register_line_text(*line),
{
    let marker = if line.changed { "*" } else { " " };
    cat6(
        marker,
        " ",
        text::format_pad_right(line.name.as_str(), ' ', 7).as_str(),
        " ",
        line.value.as_str(),
        format_note_suffix(&line.annotation).as_str(),
    )
}

impl Block for RenderedRegisterLine {
    open spec fn lines(&self) -> Seq<Seq<char>> {
        seq![register_line_text(*self)]
    }

    fn block(&self) -> (r: Lines) {
        Lines::one(format_rendered_register_line(self).as_str())
    }
}

impl RegisterSnapshot {
    pub open spec fn summary(self) -> Seq<char> {
        "rip="@ + text::hex0x(self.instruction_pointer as nat) + " rsp="@ + text::hex0x(
            self.stack_pointer as nat,
        ) + " rbp="@ + text::hex0x(self.frame_pointer as nat)
    }

    /// The three pointer registers in one line.
    pub fn summary_line(&self) -> (r: String)
        ensures
            r@ == self.summary(),
    {
        cat6(
            "rip=",
            text::format_hex0x(self.instruction_pointer).as_str(),
            " rsp=",
            text::format_hex0x(self.stack_pointer).as_str(),
            " rbp=",
            text::format_hex0x(self.frame_pointer).as_str(),
        )
    }
}

// ---------------------------------------------------------------------------
// Laws
// ---------------------------------------------------------------------------

proof fn lemma_text_lt_trans(a: Seq<char>, b: Seq<char>, c: Seq<char>)
    requires
        text_lt(a, b),
        text_lt(b, c),
    ensures
        text_lt(a, c),
    decreases a.len(),
{
    if a.len() > 0 && b.len() > 0 && c.len() > 0 && a[0] == b[0] && b[0] == c[0] {
        lemma_text_lt_trans(a.skip(1), b.skip(1), c.skip(1));
    }
}

proof fn lemma_text_lt_total(a: Seq<char>, b: Seq<char>)
    ensures
        text_lt(a, b) || text_lt(b, a) || a == b,
    decreases a.len(),
{
    if a.len() > 0 && b.len() > 0 && a[0] == b[0] {
        lemma_text_lt_total(a.skip(1), b.skip(1));
        if a.skip(1) == b.skip(1) {
            assert(a =~= seq![a[0]] + a.skip(1));
            assert(b =~= seq![b[0]] + b.skip(1));
        }
    } else if a.len() == 0 && b.len() == 0 {
        assert(a =~= b);
    }
}

/// Strictly ascending by name.
pub open spec fn is_ascending(names: Seq<Seq<char>>) -> bool {
    forall|i: int, j: int|
        0 <= i < j < names.len() ==> text_lt(#[trigger] names[i], #[trigger] names[j])
}

proof fn lemma_text_lt_irreflexive(a: Seq<char>)
    ensures
        !text_lt(a, a),
    decreases a.len(),
{
    if a.len() > 0 {
        lemma_text_lt_irreflexive(a.skip(1));
    }
}

proof fn lemma_ascending_distinct(names: Seq<Seq<char>>)
    requires
        is_ascending(names),
    ensures
        names.no_duplicates(),
{
    assert forall|i: int, j: int|
        0 <= i < names.len() && 0 <= j < names.len() && i != j implies names[i] != names[j] by {
        lemma_text_lt_irreflexive(names[i]);
        if i < j {
            assert(text_lt(names[i], names[j]));
        } else {
            assert(text_lt(names[j], names[i]));
        }
    }
}

proof fn lemma_insert_name(names: Seq<Seq<char>>, x: Seq<char>)
    requires
        is_ascending(names),
    ensures
        is_ascending(insert_name(names, x)),
        forall|n: Seq<char>|
            #[trigger] insert_name(names, x).contains(n) <==> (n == x || names.contains(n)),
    decreases names.len(),
{
    let r = insert_name(names, x);
    if names.len() == 0 {
        assert(r[0] == x);
        assert forall|n: Seq<char>| #[trigger] r.contains(n) <==> (n == x || names.contains(n)) by {
            if n == x {
                assert(r[0] == n);
            }
        }
    } else if x == names[0] {
    } else if text_lt(x, names[0]) {
        assert forall|i: int, j: int| 0 <= i < j < r.len() implies text_lt(
            #[trigger] r[i],
            #[trigger] r[j],
        ) by {
            assert(r[j] == names[j - 1]);
            if i == 0 {
                if j > 1 {
                    assert(text_lt(names[0], names[j - 1]));
                    lemma_text_lt_trans(x, names[0], names[j - 1]);
                }
            } else {
                assert(r[i] == names[i - 1]);
            }
        }
        assert forall|n: Seq<char>| #[trigger] r.contains(n) <==> (n == x || names.contains(n)) by {
            assert(r[0] == x);
            if names.contains(n) {
                let k = choose|k: int| 0 <= k < names.len() && names[k] == n;
                assert(r[k + 1] == n);
            }
            if r.contains(n) {
                let k = choose|k: int| 0 <= k < r.len() && r[k] == n;
                if k > 0 {
                    assert(names[k - 1] == n);
                }
            }
        }
    } else {
        let rest = names.skip(1);
        assert forall|i: int, j: int| 0 <= i < j < rest.len() implies text_lt(
            #[trigger] rest[i],
            #[trigger] rest[j],
        ) by {
            assert(rest[i] == names[i + 1]);
            assert(rest[j] == names[j + 1]);
        }
        lemma_insert_name(rest, x);
        let tail = insert_name(rest, x);
        assert(r =~= seq![names[0]] + tail);
        lemma_text_lt_total(x, names[0]);
        assert(text_lt(names[0], x));
        assert forall|i: int, j: int| 0 <= i < j < r.len() implies text_lt(
            #[trigger] r[i],
            #[trigger] r[j],
        ) by {
            assert(r[j] == tail[j - 1]);
            if i == 0 {
                assert(tail.contains(tail[j - 1]));
                if tail[j - 1] != x {
                    assert(rest.contains(tail[j - 1]));
                    let k = choose|k: int| 0 <= k < rest.len() && rest[k] == tail[j - 1];
                    assert(names[k + 1] == tail[j - 1]);
                    assert(text_lt(names[0], names[k + 1]));
                }
            } else {
                assert(r[i] == tail[i - 1]);
            }
        }
        assert forall|n: Seq<char>| #[trigger] r.contains(n) <==> (n == x || names.contains(n)) by {
            if r.contains(n) {
                let k = choose|k: int| 0 <= k < r.len() && r[k] == n;
                if k == 0 {
                    assert(names[0] == n);
                } else {
                    assert(tail[k - 1] == n);
                    assert(tail.contains(n));
                    if n != x {
                        let m = choose|m: int| 0 <= m < rest.len() && rest[m] == n;
                        assert(names[m + 1] == n);
                    }
                }
            }
            if names.contains(n) {
                let k = choose|k: int| 0 <= k < names.len() && names[k] == n;
                if k == 0 {
                    assert(r[0] == n);
                } else {
                    assert(rest[k - 1] == n);
                    assert(rest.contains(n));
                    assert(tail.contains(n));
                    let m = choose|m: int| 0 <= m < tail.len() && tail[m] == n;
                    assert(r[m + 1] == n);
                }
            }
            if n == x {
                assert(tail.contains(n));
                let m = choose|m: int| 0 <= m < tail.len() && tail[m] == n;
                assert(r[m + 1] == n);
            }
        }
    }
}

/// The registers behind the fixed order are sorted by name without
/// repetition, and every register that was read is among them.
pub proof fn law_sorted_names(registers: Seq<RegisterValue>)
    ensures
        is_ascending(sorted_names(registers)),
        forall|n: Seq<char>|
            #[trigger] sorted_names(registers).contains(n) <==> register_named(registers, n)
                is Some,
    decreases registers.len(),
{
    if registers.len() > 0 {
        let rest = registers.drop_last();
        law_sorted_names(rest);
        lemma_insert_name(
            sorted_names(rest),
            text::ascii_lower_text(registers.last().name@),
        );
    }
}

proof fn lemma_present(names: Seq<Seq<char>>, registers: Seq<RegisterValue>)
    ensures
        forall|k: int|
            0 <= k < present_names(names, registers).len() ==> register_named(
                registers,
                #[trigger] present_names(names, registers)[k],
            ) is Some,
        forall|n: Seq<char>|
            #[trigger] present_names(names, registers).contains(n) <==> (names.contains(n)
                && register_named(registers, n) is Some),
    decreases names.len(),
{
    let r = present_names(names, registers);
    if names.len() > 0 {
        let rest = names.drop_last();
        lemma_present(rest, registers);
        let before = present_names(rest, registers);
        assert(names =~= rest.push(names.last()));
        assert forall|n: Seq<char>| #[trigger] r.contains(n) <==> (names.contains(n)
            && register_named(registers, n) is Some) by {
            if names.contains(n) {
                let k = choose|k: int| 0 <= k < names.len() && names[k] == n;
                if k < rest.len() {
                    assert(rest[k] == n);
                    assert(rest.contains(n));
                }
            }
            if rest.contains(n) {
                let k = choose|k: int| 0 <= k < rest.len() && rest[k] == n;
                assert(names[k] == n);
            }
            assert(names[names.len() - 1] == names.last());
            if register_named(registers, names.last()) is Some {
                assert(r[before.len() as int] == names.last());
                if before.contains(n) {
                    let k = choose|k: int| 0 <= k < before.len() && before[k] == n;
                    assert(r[k] == n);
                }
                if r.contains(n) {
                    let k = choose|k: int| 0 <= k < r.len() && r[k] == n;
                    if k < before.len() {
                        assert(before[k] == n);
                    }
                }
            }
        }
    }
}

proof fn lemma_others(names: Seq<Seq<char>>)
    ensures
        forall|n: Seq<char>|
            #[trigger] other_names(names).contains(n) <==> (names.contains(n)
                && !register_order().contains(n)),
    decreases names.len(),
{
    let r = other_names(names);
    if names.len() > 0 {
        let rest = names.drop_last();
        lemma_others(rest);
        let before = other_names(rest);
        assert(names =~= rest.push(names.last()));
        assert forall|n: Seq<char>| #[trigger] r.contains(n) <==> (names.contains(n)
            && !register_order().contains(n)) by {
            if names.contains(n) {
                let k = choose|k: int| 0 <= k < names.len() && names[k] == n;
                if k < rest.len() {
                    assert(rest[k] == n);
                    assert(rest.contains(n));
                }
            }
            if rest.contains(n) {
                let k = choose|k: int| 0 <= k < rest.len() && rest[k] == n;
                assert(names[k] == n);
            }
            assert(names[names.len() - 1] == names.last());
            if !register_order().contains(names.last()) {
                assert(r[before.len() as int] == names.last());
                if before.contains(n) {
                    let k = choose|k: int| 0 <= k < before.len() && before[k] == n;
                    assert(r[k] == n);
                }
                if r.contains(n) {
                    let k = choose|k: int| 0 <= k < r.len() && r[k] == n;
                    if k < before.len() {
                        assert(before[k] == n);
                    }
                }
            }
        }
    }
}

proof fn lemma_display_order_present(registers: Seq<RegisterValue>)
    ensures
        forall|k: int|
            0 <= k < display_order(registers).len() ==> register_named(
                registers,
                #[trigger] display_order(registers)[k],
            ) is Some,
{
    lemma_present(register_order(), registers);
    law_sorted_names(registers);
    lemma_others(sorted_names(registers));
    let front = present_names(register_order(), registers);
    let back = other_names(sorted_names(registers));
    assert forall|k: int| 0 <= k < display_order(registers).len() implies register_named(
        registers,
        #[trigger] display_order(registers)[k],
    ) is Some by {
        if k < front.len() {
            assert(display_order(registers)[k] == front[k]);
        } else {
            assert(display_order(registers)[k] == back[k - front.len()]);
            assert(back.contains(back[k - front.len()]));
        }
    }
}

/// Exactly the registers of a snapshot are shown.
pub proof fn law_display_order_is_complete(registers: Seq<RegisterValue>)
    ensures
        forall|n: Seq<char>|
            #[trigger] display_order(registers).contains(n) <==> register_named(registers, n)
                is Some,
{
    lemma_present(register_order(), registers);
    law_sorted_names(registers);
    lemma_others(sorted_names(registers));
    let front = present_names(register_order(), registers);
    let back = other_names(sorted_names(registers));
    let all = display_order(registers);
    assert forall|n: Seq<char>| #[trigger] all.contains(n) <==> register_named(registers, n)
        is Some by {
        if all.contains(n) {
            let k = choose|k: int| 0 <= k < all.len() && all[k] == n;
            if k < front.len() {
                assert(front[k] == n);
                assert(front.contains(n));
            } else {
                assert(back[k - front.len()] == n);
                assert(back.contains(n));
            }
        }
        if register_named(registers, n) is Some {
            if register_order().contains(n) {
                assert(front.contains(n));
                let k = choose|k: int| 0 <= k < front.len() && front[k] == n;
                assert(all[k] == n);
            } else {
                assert(sorted_names(registers).contains(n));
                assert(back.contains(n));
                let k = choose|k: int| 0 <= k < back.len() && back[k] == n;
                assert(all[front.len() + k] == n);
            }
        }
    }
}

proof fn lemma_unchanged(previous: Seq<RegisterValue>, current: Seq<RegisterValue>)
    requires
        forall|i: int|
            0 <= i < current.len() ==> !is_changed(previous, #[trigger] current[i]),
    ensures
        changed_names(previous, current) == Set::<Seq<char>>::empty(),
    decreases current.len(),
{
    if current.len() > 0 {
        let rest = current.drop_last();
        assert forall|i: int| 0 <= i < rest.len() implies !is_changed(
            previous,
            #[trigger] rest[i],
        ) by {
            assert(rest[i] == current[i]);
        }
        assert(current[current.len() - 1] == current.last());
        lemma_unchanged(previous, rest);
    }
}

proof fn lemma_last_named(registers: Seq<RegisterValue>, i: int)
    requires
        0 <= i < registers.len(),
        forall|j: int, k: int|
            0 <= j < k < registers.len() ==> text::ascii_lower_text(
                (#[trigger] registers[j]).name@,
            ) != text::ascii_lower_text((#[trigger] registers[k]).name@),
    ensures
        register_named(registers, text::ascii_lower_text(registers[i].name@)) == Some(
            registers[i],
        ),
    decreases registers.len(),
{
    if i < registers.len() - 1 {
        let rest = registers.drop_last();
        assert(rest[i] == registers[i]);
        assert(registers[registers.len() - 1] == registers.last());
        assert forall|j: int, k: int| 0 <= j < k < rest.len() implies text::ascii_lower_text(
            (#[trigger] rest[j]).name@,
        ) != text::ascii_lower_text((#[trigger] rest[k]).name@) by {
            assert(rest[j] == registers[j]);
            assert(rest[k] == registers[k]);
        }
        lemma_last_named(rest, i);
    }
}

/// Two equal snapshots with distinct register names differ in no register.
pub proof fn law_no_change_between_equal_snapshots(s: RegisterSnapshot)
    requires
        forall|j: int, k: int|
            0 <= j < k < s.registers@.len() ==> text::ascii_lower_text(
                (#[trigger] s.registers@[j]).name@,
            ) != text::ascii_lower_text((#[trigger] s.registers@[k]).name@),
    ensures
        snapshot_changes(Some(s), s) == Set::<Seq<char>>::empty(),
{
    let r = s.registers@;
    assert forall|i: int| 0 <= i < r.len() implies !is_changed(r, #[trigger] r[i]) by {
        lemma_last_named(r, i);
    }
    lemma_unchanged(r, r);
}

} // verus!
