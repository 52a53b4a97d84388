//! Building blocks for text: concatenation, number rendering, joining and
//! row-wise rendering of sequences.

use vstd::prelude::*;

verus! {

/// Trusted: `String::push` of std appends the given character to the end of
/// the string.
pub assume_specification[ String::push ](s: &mut String, ch: char)
    ensures
        final(s)@ == old(s)@.push(ch),
;

// ---------------------------------------------------------------------------
// Concatenation
// ---------------------------------------------------------------------------

/// An owned copy of `a`.
pub fn owned(a: &str) -> (r: String)
    ensures
        r@ == a@,
{
    String::from_str(a)
}

/// Whether two texts hold the same characters.
pub fn same(a: &str, b: &str) -> (r: bool)
    ensures
        r == (a@ == b@),
{
    owned(a) == owned(b)
}

pub fn cat2(a: &str, b: &str) -> (r: String)
    ensures
        r@ == a@ + b@,
{
    owned(a).concat(b)
}

pub fn cat3(a: &str, b: &str, c: &str) -> (r: String)
    ensures
        r@ == a@ + b@ + c@,
{
    cat2(a, b).concat(c)
}

pub fn cat4(a: &str, b: &str, c: &str, d: &str) -> (r: String)
    ensures
        r@ == a@ + b@ + c@ + d@,
{
    cat3(a, b, c).concat(d)
}

pub fn cat5(a: &str, b: &str, c: &str, d: &str, e: &str) -> (r: String)
    ensures
        r@ == a@ + b@ + c@ + d@ + e@,
{
    cat4(a, b, c, d).concat(e)
}

pub fn cat6(a: &str, b: &str, c: &str, d: &str, e: &str, f: &str) -> (r: String)
    ensures
        r@ == a@ + b@ + c@ + d@ + e@ + f@,
{
    cat5(a, b, c, d, e).concat(f)
}

pub fn cat7(a: &str, b: &str, c: &str, d: &str, e: &str, f: &str, g: &str) -> (r: String)
    ensures
        r@ == a@ + b@ + c@ + d@ + e@ + f@ + g@,
{
    cat6(a, b, c, d, e, f).concat(g)
}

// ---------------------------------------------------------------------------
// Letter case
// ---------------------------------------------------------------------------

/// The lowercase letter of an ASCII uppercase letter; any other character
/// itself.
pub open spec fn ascii_lower(c: char) -> char {
    if 'A' <= c <= 'Z' { ((c as u32) + 32) as char } else { c }
}

/// `s` with its ASCII letters in lowercase.
pub open spec fn ascii_lower_text(s: Seq<char>) -> Seq<char> {
    Seq::new(s.len(), |i: int| ascii_lower(s[i]))
}

fn to_ascii_lower(c: char) -> (r: char)
    ensures
        r == ascii_lower(c),
{
    if 'A' <= c && c <= 'Z' { ((c as u8) + 32) as char } else { c }
}

pub fn format_ascii_lower(s: &str) -> (r: String)
    ensures
        r@ == ascii_lower_text(s@),
{
    let mut out = String::new();
    for c in it: s.chars()
        invariant
            it.seq() == s@,
            out@ == ascii_lower_text(s@).take(it.index() as int),
    {
        out.push(to_ascii_lower(c));
        assert(out@ =~= ascii_lower_text(s@).take(it.index() + 1));
    }
    assert(ascii_lower_text(s@).take(s@.len() as int) =~= ascii_lower_text(s@));
    out
}

// ---------------------------------------------------------------------------
// Numbers
// ---------------------------------------------------------------------------

/// The lowercase character of the digit `d` (`d` below 16).
pub open spec fn digit_char(d: nat) -> char {
    if d == 0 { '0' } else if d == 1 { '1' } else if d == 2 { '2' } else if d == 3 { '3' }
    else if d == 4 { '4' } else if d == 5 { '5' } else if d == 6 { '6' } else if d == 7 { '7' }
    else if d == 8 { '8' } else if d == 9 { '9' } else if d == 10 { 'a' } else if d == 11 { 'b' }
    else if d == 12 { 'c' } else if d == 13 { 'd' } else if d == 14 { 'e' } else { 'f' }
}

/// `n` written in the given base, without leading zeros.
pub open spec fn radix_text(n: nat, base: nat) -> Seq<char>
    decreases n,
{
    if base < 2 || n < base {
        seq![digit_char(n)]
    } else {
        proof {
            assert(n / base < n) by (nonlinear_arith)
                requires
                    base >= 2,
                    n >= base,
            ;
        }
        radix_text(n / base, base).push(digit_char(n % base))
    }
}

/// `n` in decimal.
pub open spec fn dec(n: nat) -> Seq<char> {
    radix_text(n, 10)
}

/// `n` in lowercase hexadecimal, without a prefix.
pub open spec fn hex(n: nat) -> Seq<char> {
    radix_text(n, 16)
}

/// `n` in lowercase hexadecimal with the `0x` prefix.
pub open spec fn hex0x(n: nat) -> Seq<char> {
    "0x"@ + hex(n)
}

/// A signed number in decimal.
pub open spec fn dec_signed(n: int) -> Seq<char> {
    if n < 0 { "-"@ + dec((-n) as nat) } else { dec(n as nat) }
}

/// `width` copies of `c`.
pub open spec fn repeat(c: char, width: nat) -> Seq<char> {
    Seq::new(width, |i: int| c)
}

/// `s` padded on the left with `c` up to `width` characters.
pub open spec fn pad_left(s: Seq<char>, c: char, width: nat) -> Seq<char> {
    if s.len() >= width { s } else { repeat(c, (width - s.len()) as nat) + s }
}

/// `s` padded on the right with `c` up to `width` characters.
pub open spec fn pad_right(s: Seq<char>, c: char, width: nat) -> Seq<char> {
    if s.len() >= width { s } else { s + repeat(c, (width - s.len()) as nat) }
}

fn digit_to_char(d: u64) -> (c: char)
    requires
        d < 16,
    ensures
        c == digit_char(d as nat),
{
    if d == 0 { '0' } else if d == 1 { '1' } else if d == 2 { '2' } else if d == 3 { '3' }
    else if d == 4 { '4' } else if d == 5 { '5' } else if d == 6 { '6' } else if d == 7 { '7' }
    else if d == 8 { '8' } else if d == 9 { '9' } else if d == 10 { 'a' } else if d == 11 { 'b' }
    else if d == 12 { 'c' } else if d == 13 { 'd' } else if d == 14 { 'e' } else { 'f' }
}

fn format_radix(n: u64, base: u64) -> (r: String)
    requires
        2 <= base <= 16,
    ensures
        r@ == radix_text(n as nat, base as nat),
    decreases n,
{
    if n < base {
        let mut out = String::new();
        out.push(digit_to_char(n));
        assert(out@ =~= seq![digit_char(n as nat)]);
        out
    } else {
        assert(n / base < n) by (nonlinear_arith)
            requires
                base >= 2,
                n >= base,
        ;
        let mut out = format_radix(n / base, base);
        out.push(digit_to_char(n % base));
        out
    }
}

pub fn format_dec(n: u64) -> (r: String)
    ensures
        r@ == dec(n as nat),
{
    format_radix(n, 10)
}

pub fn format_dec_usize(n: usize) -> (r: String)
    ensures
        r@ == dec(n as nat),
{
    format_radix(n as u64, 10)
}

pub fn format_hex(n: u64) -> (r: String)
    ensures
        r@ == hex(n as nat),
{
    format_radix(n, 16)
}

pub fn format_hex0x(n: u64) -> (r: String)
    ensures
        r@ == hex0x(n as nat),
{
    cat2("0x", format_hex(n).as_str())
}

pub fn format_dec_signed(n: i64) -> (r: String)
    ensures
        r@ == dec_signed(n as int),
{
    if n < 0 {
        let magnitude: u64 = if n == i64::MIN { 9223372036854775808u64 } else { (-n) as u64 };
        cat2("-", format_dec(magnitude).as_str())
    } else {
        format_dec(n as u64)
    }
}

fn format_repeat(c: char, width: usize) -> (r: String)
    ensures
        r@ == repeat(c, width as nat),
{
    let mut out = String::new();
    let mut i: usize = 0;
    assert(out@ =~= repeat(c, 0));
    while i < width
        invariant
            i <= width,
            out@ == repeat(c, i as nat),
        decreases width - i,
    {
        out.push(c);
        i = i + 1;
        assert(out@ =~= repeat(c, i as nat));
    }
    out
}

pub fn format_pad_left(s: &str, c: char, width: usize) -> (r: String)
    ensures
        r@ == pad_left(s@, c, width as nat),
{
    let n: usize = s.unicode_len();
    if n >= width {
        owned(s)
    } else {
        cat2(format_repeat(c, width - n).as_str(), s)
    }
}

pub fn format_pad_right(s: &str, c: char, width: usize) -> (r: String)
    ensures
        r@ == pad_right(s@, c, width as nat),
{
    let n: usize = s.unicode_len();
    if n >= width {
        owned(s)
    } else {
        cat2(s, format_repeat(c, width - n).as_str())
    }
}

// ---------------------------------------------------------------------------
// Joining and rows
// ---------------------------------------------------------------------------

/// The items of `parts` with `sep` between any two neighbours.
pub open spec fn join(parts: Seq<Seq<char>>, sep: Seq<char>) -> Seq<char>
    decreases parts.len(),
{
    if parts.len() == 0 {
        Seq::empty()
    } else if parts.len() == 1 {
        parts[0]
    } else {
        join(parts.drop_last(), sep) + sep + parts.last()
    }
}

/// The views of a sequence of strings.
pub open spec fn texts(s: Seq<String>) -> Seq<Seq<char>> {
    Seq::new(s.len(), |i: int| s[i]@)
}

pub proof fn lemma_texts_push(s: Seq<String>, x: String)
    ensures
        texts(s.push(x)) == texts(s).push(x@),
{
    assert(texts(s.push(x)) =~= texts(s).push(x@));
}

pub fn format_join(parts: &Vec<String>, sep: &str) -> (r: String)
    ensures
        r@ == join(texts(parts@), sep@),
{
    if parts.len() == 0 {
        return String::new();
    }
    let mut out = parts[0].clone();
    let mut i: usize = 1;
    assert(texts(parts@).take(1).len() == 1);
    while i < parts.len()
        invariant
            1 <= i <= parts.len(),
            out@ == join(texts(parts@).take(i as int), sep@),
        decreases parts.len() - i,
    {
        proof {
            let t = texts(parts@);
            assert(t.take(i + 1).drop_last() =~= t.take(i as int));
            assert(t.take(i + 1).last() == parts@[i as int]@);
        }
        out.append(sep);
        out.append(parts[i].as_str());
        i = i + 1;
    }
    assert(texts(parts@).take(parts.len() as int) =~= texts(parts@));
    out
}

// ---------------------------------------------------------------------------
// Lines
// ---------------------------------------------------------------------------

/// A list of lines of text.
pub struct Lines {
    pub items: Vec<String>,
}

impl View for Lines {
    type V = Seq<Seq<char>>;

    open spec fn view(&self) -> Seq<Seq<char>> {
        texts(self.items@)
    }
}

/// One line, where a condition holds.
pub open spec fn when(condition: bool, line: Seq<char>) -> Seq<Seq<char>> {
    if condition { seq![line] } else { Seq::empty() }
}

/// A labelled line for a value that is there.
pub open spec fn opt_line(label: Seq<char>, value: Option<Seq<char>>) -> Seq<Seq<char>> {
    match value {
        Some(v) => seq![label + v],
        None => Seq::empty(),
    }
}

/// The text of an optional string.
pub open spec fn opt(value: Option<String>) -> Option<Seq<char>> {
    match value {
        Some(v) => Some(v@),
        None => None,
    }
}

/// The text of a value, or a word for its absence.
pub open spec fn or_word(value: Option<String>, word: Seq<char>) -> Seq<char> {
    match value {
        Some(v) => v@,
        None => word,
    }
}

/// Lines as one text, with line feeds between them.
pub open spec fn unlines(lines: Seq<Seq<char>>) -> Seq<char> {
    join(lines, "\n"@)
}

impl Lines {
    pub fn new() -> (r: Lines)
        ensures
            r@ == Seq::<Seq<char>>::empty(),
    {
        let r = Lines { items: Vec::new() };
        assert(r@ =~= Seq::empty());
        r
    }

    /// A single line.
    pub fn one(line: &str) -> (r: Lines)
        ensures
            r@ == seq![line@],
    {
        let mut r = Lines::new();
        r.push(owned(line));
        r
    }

    pub fn push(&mut self, line: String)
        ensures
            final(self)@ == old(self)@.push(line@),
    {
        self.items.push(line);
        assert(self@ =~= old(self)@.push(line@));
    }

    pub fn add(&mut self, more: Lines)
        ensures
            final(self)@ == old(self)@ + more@,
    {
        let mut rest = more.items;
        let ghost before = self.items@;
        self.items.append(&mut rest);
        assert(self@ =~= old(self)@ + more@);
    }

    pub fn add_when(&mut self, condition: bool, line: &str)
        ensures
            final(self)@ == old(self)@ + when(condition, line@),
    {
        if condition {
            self.push(owned(line));
        }
        assert(self@ =~= old(self)@ + when(condition, line@));
    }

    pub fn add_opt(&mut self, label: &str, value: &Option<String>)
        ensures
            final(self)@ == old(self)@ + opt_line(label@, opt(*value)),
    {
        match value {
            Some(v) => {
                self.push(cat2(label, v.as_str()));
            },
            None => {},
        }
        assert(self@ =~= old(self)@ + opt_line(label@, opt(*value)));
    }

    pub fn join(&self, sep: &str) -> (r: String)
        ensures
            r@ == join(self@, sep@),
    {
        format_join(&self.items, sep)
    }

    pub fn unlines(&self) -> (r: String)
        ensures
            r@ == unlines(self@),
    {
        format_join(&self.items, "\n")
    }
}

pub fn str_or<'a>(value: &'a Option<String>, word: &'a str) -> (r: &'a str)
    ensures
        r@ == or_word(*value, word@),
{
    match value {
        Some(v) => v.as_str(),
        None => word,
    }
}

/// A value that is shown as a block of lines.
pub trait Block {
    /// The lines of the value.
    spec fn lines(&self) -> Seq<Seq<char>>;

    fn block(&self) -> (r: Lines)
        ensures
            r@ == self.lines(),
    ;
}

/// The lines of a sequence of values, one block after the other.
pub open spec fn blocks<T: Block>(s: Seq<T>) -> Seq<Seq<char>>
    decreases s.len(),
{
    if s.len() == 0 {
        Seq::empty()
    } else {
        blocks(s.drop_last()) + s.last().lines()
    }
}

pub fn format_blocks<T: Block>(v: &Vec<T>) -> (r: Lines)
    ensures
        r@ == blocks(v@),
{
    let mut out = Lines::new();
    let mut i: usize = 0;
    assert(v@.take(0) =~= Seq::empty());
    while i < v.len()
        invariant
            i <= v.len(),
            out@ == blocks(v@.take(i as int)),
        decreases v.len() - i,
    {
        out.add(v[i].block());
        proof {
            assert(v@.take(i + 1).drop_last() =~= v@.take(i as int));
            assert(v@.take(i + 1).last() == v@[i as int]);
        }
        i = i + 1;
    }
    assert(v@.take(v.len() as int) =~= v@);
    out
}

/// Every line with the same text in front of it.
pub open spec fn prefixed(prefix: Seq<char>, lines: Seq<Seq<char>>) -> Seq<Seq<char>> {
    Seq::new(lines.len(), |i: int| prefix + lines[i])
}

pub fn format_prefixed(prefix: &str, items: &Vec<String>) -> (r: Lines)
    ensures
        r@ == prefixed(prefix@, texts(items@)),
{
    let mut out = Lines::new();
    let mut i: usize = 0;
    while i < items.len()
        invariant
            i <= items.len(),
            out@ =~= prefixed(prefix@, texts(items@)).take(i as int),
        decreases items.len() - i,
    {
        out.push(cat2(prefix, items[i].as_str()));
        i = i + 1;
    }
    assert(out@ =~= prefixed(prefix@, texts(items@)));
    out
}

/// The first `n` items, or all where there are fewer.
pub open spec fn up_to<T>(s: Seq<T>, n: nat) -> Seq<T> {
    if s.len() <= n { s } else { s.take(n as int) }
}

pub fn first_lines(lines: Lines, n: usize) -> (r: Lines)
    ensures
        r@ == up_to(lines@, n as nat),
{
    let mut items = lines.items;
    if items.len() > n {
        items.truncate(n);
    }
    let r = Lines { items };
    assert(r@ =~= up_to(lines@, n as nat));
    r
}

// ---------------------------------------------------------------------------
// Words
// ---------------------------------------------------------------------------

pub open spec fn yes_no(value: bool) -> Seq<char> {
    if value { "yes"@ } else { "no"@ }
}

pub fn format_yes_no(value: bool) -> (r: &'static str)
    ensures
        r@ == yes_no(value),
{
    if value { "yes" } else { "no" }
}

pub open spec fn true_false(value: bool) -> Seq<char> {
    if value { "true"@ } else { "false"@ }
}

pub fn format_bool(value: bool) -> (r: &'static str)
    ensures
        r@ == true_false(value),
{
    if value { "true" } else { "false" }
}

pub open spec fn yes_no_unknown(value: Option<bool>) -> Seq<char> {
    match value {
        Some(v) => yes_no(v),
        None => "unknown"@,
    }
}

pub fn format_yes_no_unknown(value: Option<bool>) -> (r: &'static str)
    ensures
        r@ == yes_no_unknown(value),
{
    match value {
        Some(v) => format_yes_no(v),
        None => "unknown",
    }
}

// ---------------------------------------------------------------------------
// Lines of a text
// ---------------------------------------------------------------------------

/// Whether the lines of `part` stand in a text one after the other, each on lines of their own.
pub open spec fn shows(s: Seq<char>, part: Seq<Seq<char>>) -> bool {
    exists|before: Seq<char>, after: Seq<char>|
        s == #[trigger] (before + unlines(part) + after) && (before.len() == 0 || before.last()
            == '\n') && (after.len() == 0 || after[0] == '\n')
}

/// Whether a text holds a line.
pub open spec fn shows_line(s: Seq<char>, line: Seq<char>) -> bool {
    shows(s, seq![line])
}

/// Whether a text begins with a line.
pub open spec fn begins_with_line(s: Seq<char>, line: Seq<char>) -> bool {
    exists|after: Seq<char>|
        s == #[trigger] (line + after) && (after.len() == 0 || after[0] == '\n')
}

/// Whether a text ends with a line.
pub open spec fn ends_with_line(s: Seq<char>, line: Seq<char>) -> bool {
    exists|before: Seq<char>|
        s == #[trigger] (before + line) && (before.len() == 0 || before.last() == '\n')
}

/// Joined texts fall apart at every place between two of them.
pub proof fn lemma_join_parts(a: Seq<Seq<char>>, b: Seq<Seq<char>>, sep: Seq<char>)
    requires
        a.len() > 0,
        b.len() > 0,
    ensures
        join(a + b, sep) == join(a, sep) + sep + join(b, sep),
    decreases b.len(),
{
    let whole = a + b;
    assert(whole.last() == b.last());
    if b.len() == 1 {
        assert(whole.drop_last() =~= a);
        assert(join(b, sep) == b[0]);
    } else {
        assert(whole.drop_last() =~= a + b.drop_last());
        lemma_join_parts(a, b.drop_last(), sep);
        assert(join(whole, sep) =~= join(a, sep) + sep + join(b, sep));
    }
}

/// What stands among the lines of a text stands in the text.
pub proof fn lemma_shows(
    lines: Seq<Seq<char>>,
    before: Seq<Seq<char>>,
    part: Seq<Seq<char>>,
    after: Seq<Seq<char>>,
)
    requires
        lines == before + part + after,
        part.len() > 0,
    ensures
        shows(unlines(lines), part),
{
    reveal_strlit("\n");
    let head = if before.len() == 0 { Seq::empty() } else { unlines(before) + "\n"@ };
    let tail = if after.len() == 0 { Seq::empty() } else { "\n"@ + unlines(after) };
    if before.len() > 0 {
        lemma_join_parts(before, part, "\n"@);
    } else {
        assert(before + part =~= part);
    }
    if after.len() > 0 {
        lemma_join_parts(before + part, after, "\n"@);
    } else {
        assert(before + part + after =~= before + part);
    }
    assert(unlines(lines) =~= head + unlines(part) + tail);
}

/// What stands at a place among the lines of a text stands in the text.
pub proof fn lemma_shows_at(lines: Seq<Seq<char>>, at: int, part: Seq<Seq<char>>)
    requires
        0 <= at,
        at + part.len() <= lines.len(),
        lines.subrange(at, at + part.len()) =~= part,
        part.len() > 0,
    ensures
        shows(unlines(lines), part),
{
    assert(lines =~= lines.take(at) + part + lines.skip(at + part.len())) by {
        assert forall|i: int| at <= i < at + part.len() implies lines[i] == part[i - at] by {
            assert(lines.subrange(at, at + part.len())[i - at] == lines[i]);
        }
    }
    lemma_shows(lines, lines.take(at), part, lines.skip(at + part.len()));
}

/// Every line of a text stands in it.
pub proof fn lemma_shows_lines(lines: Seq<Seq<char>>)
    ensures
        forall|k: int| 0 <= k < lines.len() ==> shows_line(unlines(lines), #[trigger] lines[k]),
{
    assert forall|k: int| 0 <= k < lines.len() implies shows_line(
        unlines(lines),
        #[trigger] lines[k],
    ) by {
        lemma_shows_at(lines, k, seq![lines[k]]);
    }
}

/// The first and the last of its lines begin and end a text.
pub proof fn lemma_text_ends(lines: Seq<Seq<char>>)
    requires
        lines.len() > 0,
    ensures
        begins_with_line(unlines(lines), lines[0]),
        ends_with_line(unlines(lines), lines.last()),
{
    reveal_strlit("\n");
    if lines.len() == 1 {
        assert(lines[0] + Seq::<char>::empty() =~= unlines(lines));
        assert(Seq::<char>::empty() + lines[0] =~= unlines(lines));
    } else {
        lemma_join_parts(lines.take(1), lines.skip(1), "\n"@);
        assert(lines =~= lines.take(1) + lines.skip(1));
        assert(unlines(lines) =~= lines[0] + ("\n"@ + unlines(lines.skip(1))));
        assert(unlines(lines) =~= (unlines(lines.drop_last()) + "\n"@) + lines.last());
    }
}

/// The lines of every value stand among those of its list, in the order of the list.
pub proof fn lemma_blocks_split<T: Block>(s: Seq<T>, i: int)
    requires
        0 <= i < s.len(),
    ensures
        blocks(s) == blocks(s.take(i)) + s[i].lines() + blocks(s.skip(i + 1)),
    decreases s.len(),
{
    if i == s.len() - 1 {
        assert(s.take(i) =~= s.drop_last());
        assert(s.skip(i + 1) =~= Seq::empty());
        assert(blocks(s) =~= blocks(s.take(i)) + s[i].lines() + blocks(s.skip(i + 1)));
    } else {
        lemma_blocks_split(s.drop_last(), i);
        assert(s.drop_last().take(i) =~= s.take(i));
        assert(s.skip(i + 1).drop_last() =~= s.drop_last().skip(i + 1));
        assert(s.skip(i + 1).last() == s.last());
        assert(blocks(s) =~= blocks(s.take(i)) + s[i].lines() + blocks(s.skip(i + 1)));
    }
}

/// A text whose lines hold the blocks of a list shows every block that is not empty.
pub proof fn lemma_shows_blocks<T: Block>(
    lines: Seq<Seq<char>>,
    before: Seq<Seq<char>>,
    s: Seq<T>,
    after: Seq<Seq<char>>,
)
    requires
        lines == before + blocks(s) + after,
    ensures
        forall|i: int|
            0 <= i < s.len() && (#[trigger] s[i]).lines().len() > 0 ==> shows(
                unlines(lines),
                s[i].lines(),
            ),
{
    assert forall|i: int| 0 <= i < s.len() && (#[trigger] s[i]).lines().len() > 0 implies shows(
        unlines(lines),
        s[i].lines(),
    ) by {
        lemma_blocks_split(s, i);
        let head = before + blocks(s.take(i));
        let tail = blocks(s.skip(i + 1)) + after;
        assert(lines =~= head + s[i].lines() + tail);
        lemma_shows(lines, head, s[i].lines(), tail);
    }
}

} // verus!
