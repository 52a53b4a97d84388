//! Reading numbers from text.

use vstd::prelude::*;
use crate::text;

verus! {

/// The value of a digit character in the given base, if it is one.
pub open spec fn digit_value(c: char, base: nat) -> Option<nat> {
    let d = if '0' <= c <= '9' {
        (c as int) - ('0' as int)
    } else if 'a' <= c <= 'z' {
        (c as int) - ('a' as int) + 10
    } else if 'A' <= c <= 'Z' {
        (c as int) - ('A' as int) + 10
    } else {
        base as int
    };
    if d < base { Some(d as nat) } else { None }
}

/// Every character of `s` is a digit in the given base.
pub open spec fn all_digits(s: Seq<char>, base: nat) -> bool {
    forall|i: int| 0 <= i < s.len() ==> (#[trigger] digit_value(s[i], base)) is Some
}

/// The positional value of a digit sequence, most significant digit first.
pub open spec fn positional(s: Seq<char>, base: nat) -> nat
    decreases s.len(),
{
    if s.len() == 0 {
        0
    } else {
        positional(s.drop_last(), base) * base + digit_value(s.last(), base).unwrap_or(0)
    }
}

/// `s` without the one leading `+` that a number may carry.
pub open spec fn unsigned_digits(s: Seq<char>) -> Seq<char> {
    if s.len() > 1 && s[0] == '+' { s.skip(1) } else { s }
}

/// The number that `s` denotes in the given base: at least one digit, an
/// optional leading `+`, and a value that fits in 64 bits.
pub open spec fn radix_number(s: Seq<char>, base: nat) -> Option<u64> {
    let d = unsigned_digits(s);
    if d.len() > 0 && all_digits(d, base) && positional(d, base) <= u64::MAX {
        Some(positional(d, base) as u64)
    } else {
        None
    }
}

/// `s` starts with `0x` or `0X`.
pub open spec fn has_hex_prefix(s: Seq<char>) -> bool {
    s.len() >= 2 && s[0] == '0' && (s[1] == 'x' || s[1] == 'X')
}

/// The number that `s` denotes: hexadecimal behind `0x` or `0X`, else decimal.
pub open spec fn auto_radix_number(s: Seq<char>) -> Option<u64> {
    if has_hex_prefix(s) { radix_number(s.skip(2), 16) } else { radix_number(s, 10) }
}

pub open spec fn is_hex_letter(c: char) -> bool {
    'a' <= c <= 'f' || 'A' <= c <= 'F'
}

/// `s` holds one of the letters `a` to `f`, in either case.
pub open spec fn has_hex_letter(s: Seq<char>) -> bool {
    exists|i: int| 0 <= i < s.len() && is_hex_letter(#[trigger] s[i])
}

/// The number that a search query denotes: hexadecimal behind `0x` or `0X` or
/// when a hex letter occurs in it, else decimal.
pub open spec fn search_number(s: Seq<char>) -> Option<u64> {
    if has_hex_prefix(s) {
        radix_number(s.skip(2), 16)
    } else if has_hex_letter(s) {
        radix_number(s, 16)
    } else {
        radix_number(s, 10)
    }
}

/// Why a number was not accepted.
#[derive(Debug, Clone, Copy, PartialEq, Eq, Structural)]
pub enum NumberError {
    /// The text is empty.
    Empty,
    /// Nothing follows the `0x` prefix.
    EmptyHex,
    /// What follows the `0x` prefix is no 64-bit hexadecimal number.
    InvalidHex,
    /// The text is no 64-bit decimal number.
    InvalidDecimal,
}

pub open spec fn number_error_text(error: NumberError) -> Seq<char> {
    match error {
        NumberError::Empty => "empty integer"@,
        NumberError::EmptyHex => "empty hex integer"@,
        NumberError::InvalidHex => "invalid hex integer"@,
        NumberError::InvalidDecimal => "invalid decimal integer"@,
    }
}

impl NumberError {
    pub fn to_text(self) -> (r: &'static str)
        ensures
            r@ == number_error_text(self),
    {
        match self {
            NumberError::Empty => "empty integer",
            NumberError::EmptyHex => "empty hex integer",
            NumberError::InvalidHex => "invalid hex integer",
            NumberError::InvalidDecimal => "invalid decimal integer",
        }
    }
}

/// The error that the reading of `s` gives, if any.
pub open spec fn auto_radix_result(s: Seq<char>) -> Result<u64, NumberError> {
    if s.len() == 0 {
        Err(NumberError::Empty)
    } else if has_hex_prefix(s) {
        if s.len() == 2 {
            Err(NumberError::EmptyHex)
        } else {
            match radix_number(s.skip(2), 16) {
                Some(v) => Ok(v),
                None => Err(NumberError::InvalidHex),
            }
        }
    } else {
        match radix_number(s, 10) {
            Some(v) => Ok(v),
            None => Err(NumberError::InvalidDecimal),
        }
    }
}

/// The characters of `s`.
pub fn char_vec(s: &str) -> (v: Vec<char>)
    ensures
        v@ == s@,
{
    let mut v: Vec<char> = Vec::new();
    for c in it: s.chars()
        invariant
            it.seq() == s@,
            v@ == s@.take(it.index() as int),
    {
        v.push(c);
        assert(v@ =~= s@.take(it.index() + 1));
    }
    assert(s@.take(s@.len() as int) =~= s@);
    v
}

fn digit_of(c: char, base: u64) -> (r: Option<u64>)
    requires
        2 <= base <= 16,
    ensures
        r is Some <==> digit_value(c, base as nat) is Some,
        r is Some ==> r->0 as nat == digit_value(c, base as nat)->0 && r->0 < base,
{
    let d: u64 = if '0' <= c && c <= '9' {
        (c as u64) - 48
    } else if 'a' <= c && c <= 'z' {
        (c as u64) - 97 + 10
    } else if 'A' <= c && c <= 'Z' {
        (c as u64) - 65 + 10
    } else {
        base
    };
    if d < base { Some(d) } else { None }
}

proof fn lemma_positional_grows(s: Seq<char>, i: int, base: nat)
    requires
        0 <= i <= s.len(),
        base >= 1,
    ensures
        positional(s.take(i), base) <= positional(s, base),
    decreases s.len(),
{
    if i == s.len() {
        assert(s.take(i) =~= s);
    } else {
        lemma_positional_grows(s.drop_last(), i, base);
        assert(s.drop_last().take(i) =~= s.take(i));
        let p = positional(s.drop_last(), base);
        assert(p * base >= p) by (nonlinear_arith)
            requires
                base >= 1,
                p >= 0,
        ;
    }
}

fn read_digits(v: &Vec<char>, start: usize, base: u64) -> (r: Option<u64>)
    requires
        start <= v.len(),
        2 <= base <= 16,
    ensures
        r == radix_number(v@.skip(start as int), base as nat),
{
    let ghost s = v@.skip(start as int);
    let from: usize = if v.len() - start > 1 && v[start] == '+' { start + 1 } else { start };
    let ghost d = unsigned_digits(s);
    assert(d =~= v@.skip(from as int));
    if from == v.len() {
        return None;
    }
    let mut acc: u64 = 0;
    let mut i: usize = from;
    assert(d.take(0) =~= Seq::empty());
    while i < v.len()
        invariant
            from <= i <= v.len(),
            2 <= base <= 16,
            d == v@.skip(from as int),
            d == unsigned_digits(s),
            s == v@.skip(start as int),
            d.len() > 0,
            forall|k: int| 0 <= k < i - from ==> (#[trigger] digit_value(d[k], base as nat)) is Some,
            acc == positional(d.take(i - from), base as nat),
        decreases v.len() - i,
    {
        let ghost k = i - from;
        assert(d[k] == v@[i as int]);
        match digit_of(v[i], base) {
            None => {
                assert(digit_value(d[k], base as nat) is None);
                assert(!all_digits(d, base as nat));
                return None;
            },
            Some(digit) => {
                proof {
                    assert(d.take(k + 1).drop_last() =~= d.take(k));
                    assert(d.take(k + 1).last() == d[k]);
                    lemma_positional_grows(d, k + 1, base as nat);
                }
                let shifted: Option<u64> = acc.checked_mul(base);
                match shifted {
                    None => {
                        return None;
                    },
                    Some(high) => {
                        match high.checked_add(digit) {
                            None => {
                                return None;
                            },
                            Some(next) => {
                                acc = next;
                            },
                        }
                    },
                }
            },
        }
        i = i + 1;
    }
    assert(d.take(d.len() as int) =~= d);
    Some(acc)
}

/// Reads a number: hexadecimal behind `0x` or `0X`, else decimal.
pub fn parse_u64_auto_radix(value: &str) -> (r: Result<u64, NumberError>)
    ensures
        r == auto_radix_result(value@),
{
    let v = char_vec(value);
    if v.len() == 0 {
        return Err(NumberError::Empty);
    }
    if v.len() >= 2 && v[0] == '0' && (v[1] == 'x' || v[1] == 'X') {
        if v.len() == 2 {
            return Err(NumberError::EmptyHex);
        }
        return match read_digits(&v, 2, 16) {
            Some(n) => Ok(n),
            None => Err(NumberError::InvalidHex),
        };
    }
    assert(v@.skip(0) =~= v@);
    match read_digits(&v, 0, 10) {
        Some(n) => Ok(n),
        None => Err(NumberError::InvalidDecimal),
    }
}

/// Reads a number in an optional result.
pub fn parse_json_addr(addr: &str) -> (r: Option<u64>)
    ensures
        r == auto_radix_number(addr@),
{
    proof {
        lemma_auto_radix_agree(addr@);
    }
    match parse_u64_auto_radix(addr) {
        Ok(n) => Some(n),
        Err(_) => None,
    }
}

/// Reads a decimal number that fits in `usize`.
pub open spec fn usize_number(s: Seq<char>) -> Option<usize> {
    match radix_number(s, 10) {
        Some(n) => if n <= usize::MAX { Some(n as usize) } else { None },
        None => None,
    }
}

pub fn parse_usize(value: &str) -> (r: Option<usize>)
    ensures
        r == usize_number(value@),
{
    let v = char_vec(value);
    assert(v@.skip(0) =~= v@);
    match read_digits(&v, 0, 10) {
        Some(n) => if n <= usize::MAX as u64 { Some(n as usize) } else { None },
        None => None,
    }
}

/// Reads a number of a heap search query.
pub fn parse_search_number(value: &str) -> (r: Option<u64>)
    ensures
        r == search_number(value@),
{
    let v = char_vec(value);
    if v.len() >= 2 && v[0] == '0' && (v[1] == 'x' || v[1] == 'X') {
        return read_digits(&v, 2, 16);
    }
    assert(v@.skip(0) =~= v@);
    let mut i: usize = 0;
    while i < v.len()
        invariant
            i <= v.len(),
            v@ == value@,
            v@.skip(0) == v@,
            !has_hex_prefix(v@),
            forall|k: int| 0 <= k < i ==> !is_hex_letter(#[trigger] v@[k]),
        decreases v.len() - i,
    {
        let c: char = v[i];
        if ('a' <= c && c <= 'f') || ('A' <= c && c <= 'F') {
            assert(is_hex_letter(v@[i as int]));
            return read_digits(&v, 0, 16);
        }
        i = i + 1;
    }
    read_digits(&v, 0, 10)
}

// ---------------------------------------------------------------------------
// Laws
// ---------------------------------------------------------------------------

/// Both readings of a number agree: one is the other with its error dropped.
pub proof fn lemma_auto_radix_agree(s: Seq<char>)
    ensures
        auto_radix_number(s) == match auto_radix_result(s) {
            Ok(v) => Some(v),
            Err(_) => None,
        },
{
}

proof fn lemma_digit_char(d: nat, base: nat)
    requires
        d < base <= 16,
    ensures
        digit_value(text::digit_char(d), base) == Some(d),
        text::digit_char(d) != '+',
        text::digit_char(d) != 'x',
        text::digit_char(d) != 'X',
{
}

proof fn lemma_radix_text_positional(n: nat, base: nat)
    requires
        2 <= base <= 16,
    ensures
        text::radix_text(n, base).len() > 0,
        all_digits(text::radix_text(n, base), base),
        positional(text::radix_text(n, base), base) == n,
        text::radix_text(n, base)[0] != '+',
    decreases n,
{
    if n < base {
        lemma_digit_char(n, base);
        let s = text::radix_text(n, base);
        assert(s =~= seq![text::digit_char(n)]);
        assert(s.drop_last() =~= Seq::empty());
        assert(positional(s.drop_last(), base) == 0);
        assert(0 * base == 0) by (nonlinear_arith);
    } else {
        assert(n / base < n) by (nonlinear_arith)
            requires
                base >= 2,
                n >= base,
        ;
        assert(n % base < base) by (nonlinear_arith)
            requires
                base >= 2,
        ;
        assert((n / base) * base + n % base == n) by (nonlinear_arith)
            requires
                base >= 2,
        ;
        lemma_radix_text_positional(n / base, base);
        lemma_digit_char(n % base, base);
        let t = text::radix_text(n / base, base);
        let s = text::radix_text(n, base);
        assert(s == t.push(text::digit_char(n % base)));
        assert(s.drop_last() =~= t);
        assert forall|i: int| 0 <= i < s.len() implies (#[trigger] digit_value(
            s[i],
            base,
        )) is Some by {
            if i < t.len() {
                assert(s[i] == t[i]);
                assert(digit_value(t[i], base) is Some);
            }
        }
    }
}

/// Writing a number in a base and reading it back in that base gives it back.
pub proof fn law_radix_round_trip(n: u64, base: nat)
    requires
        2 <= base <= 16,
    ensures
        radix_number(text::radix_text(n as nat, base), base) == Some(n),
{
    lemma_radix_text_positional(n as nat, base);
}

/// The `0x` form of a number is read back as that number.
pub proof fn law_hex_round_trip(n: u64)
    ensures
        auto_radix_result(text::hex0x(n as nat)) == Ok::<u64, NumberError>(n),
        auto_radix_number(text::hex0x(n as nat)) == Some(n),
        search_number(text::hex0x(n as nat)) == Some(n),
{
    law_radix_round_trip(n, 16);
    lemma_radix_text_positional(n as nat, 16);
    reveal_strlit("0x");
    assert(text::hex0x(n as nat).skip(2) =~= text::hex(n as nat));
}

/// The decimal form of a number is read back as that number.
pub proof fn law_dec_round_trip(n: u64)
    ensures
        auto_radix_result(text::dec(n as nat)) == Ok::<u64, NumberError>(n),
        auto_radix_number(text::dec(n as nat)) == Some(n),
{
    law_radix_round_trip(n, 10);
    lemma_radix_text_positional(n as nat, 10);
    let s = text::dec(n as nat);
    if s.len() >= 2 {
        assert(digit_value(s[1], 10) is Some);
    }
}

} // verus!
