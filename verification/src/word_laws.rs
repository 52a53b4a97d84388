//! What numbers, labels and recorded calls look like in text, and how numbers are read.

use crate::arena;
use crate::arena::{
    MainArenaFieldSource, MainArenaTopStatus, MainArenaViewStatus, ObservedChunkState,
    ValidationStatus, ValidationValue,
};
use crate::event;
use crate::event::{
    GlibcChunkHeader, HeapTraceEvent, HeapTrackerExplanation, HeapTrackerNote,
};
use crate::live::LiveTargetStatus;
use crate::live_app;
use crate::number;
use crate::number::NumberError;
use crate::panes::{LiveDebuggerPane, LiveRightTab};
use crate::record::{JsonChunk, JsonHeapEvent, JsonLayoutChunk, JsonTraceRecord};
use crate::replay;
use crate::search;
use crate::search::HeapSearchQuery;
use crate::snapshot::SymbolizedAddress;
use crate::text;
use vstd::prelude::*;

verus! {

// ---------------------------------------------------------------------------
// Numbers in text
// ---------------------------------------------------------------------------

proof fn lemma_digits(n: nat, base: nat)
    requires
        2 <= base <= 16,
    ensures
        text::radix_text(n, base).len() > 0,
        forall|i: int|
            0 <= i < text::radix_text(n, base).len() ==> {
                let c = #[trigger] text::radix_text(n, base)[i];
                '0' <= c <= '9' || (base > 10 && 'a' <= c <= 'f')
            },
        n > 0 ==> text::radix_text(n, base)[0] != '0',
        n == 0 ==> text::radix_text(n, base) == seq!['0'],
    decreases n,
{
    if n >= base {
        assert(0 < n / base < n) by (nonlinear_arith)
            requires
                2 <= base,
                n >= base,
        ;
        assert(n % base < base) by (nonlinear_arith)
            requires
                2 <= base,
        ;
        lemma_digits(n / base, base);
        let rest = text::radix_text(n / base, base);
        assert(text::radix_text(n, base) == rest.push(text::digit_char(n % base)));
    }
}

/// Numbers are written in decimal digits or in small hexadecimal ones, without leading zeros;
/// addresses have a prefix, and negative numbers a sign.
pub proof fn law_numbers_in_text(n: nat, i: int)
    ensures
        0 <= i < text::dec(n).len() ==> '0' <= text::dec(n)[i] <= '9',
        0 <= i < text::hex(n).len() ==> '0' <= text::hex(n)[i] <= '9' || 'a' <= text::hex(n)[i]
            <= 'f',
        n > 0 ==> text::dec(n)[0] != '0' && text::hex(n)[0] != '0',
        text::dec(0) == seq!['0'],
        text::hex(0) == seq!['0'],
        text::hex0x(n) == seq!['0', 'x'] + text::hex(n),
        n > 0 ==> text::dec_signed(-(n as int)) == seq!['-'] + text::dec(n),
        text::dec_signed(n as int) == text::dec(n),
{
    lemma_digits(n, 10);
    lemma_digits(n, 16);
    lemma_digits(0, 10);
    lemma_digits(0, 16);
    reveal_strlit("0x");
    reveal_strlit("-");
    assert("0x"@ =~= seq!['0', 'x']);
    assert("-"@ =~= seq!['-']);
}

/// Padding brings a text to a width, with the text at one end and the padding at the other, and
/// leaves a text that is wide enough alone.
pub proof fn law_padding(s: Seq<char>, c: char, width: nat)
    ensures
        ({
            let left = text::pad_left(s, c, width);
            let right = text::pad_right(s, c, width);
            let n = if s.len() >= width { s.len() } else { width };
            &&& left.len() == n
            &&& right.len() == n
            &&& left.skip(n - s.len()) == s
            &&& right.take(s.len() as int) == s
            &&& forall|i: int| 0 <= i < n - s.len() ==> #[trigger] left[i] == c
            &&& forall|i: int| s.len() <= i < n ==> #[trigger] right[i] == c
        }),
{
    let left = text::pad_left(s, c, width);
    let right = text::pad_right(s, c, width);
    assert(left.skip(left.len() - s.len()) =~= s);
    assert(right.take(s.len() as int) =~= s);
}

/// Small letters stand for capitals and leave every other character alone; nothing is left to
/// change after that.
pub proof fn law_lower_case(s: Seq<char>, i: int)
    requires
        0 <= i < s.len(),
    ensures
        text::ascii_lower_text(s).len() == s.len(),
        !('A' <= s[i] <= 'Z') ==> text::ascii_lower_text(s)[i] == s[i],
        'A' <= s[i] <= 'Z' ==> text::ascii_lower_text(s)[i] as int == s[i] as int + 32,
        text::ascii_lower_text(text::ascii_lower_text(s)) == text::ascii_lower_text(s),
{
    assert(text::ascii_lower_text(text::ascii_lower_text(s)) =~= text::ascii_lower_text(s));
}

// ---------------------------------------------------------------------------
// Numbers read
// ---------------------------------------------------------------------------

/// A digit counts as much as its place among the digits, in letters of either case.
pub proof fn law_digit_values(c: char)
    ensures
        '0' <= c <= '9' ==> number::digit_value(c, 10) == Some((c as int - '0' as int) as nat)
            && number::digit_value(c, 16) == Some((c as int - '0' as int) as nat),
        'a' <= c <= 'f' ==> number::digit_value(c, 16) == Some((c as int - 'a' as int + 10) as nat),
        'A' <= c <= 'F' ==> number::digit_value(c, 16) == Some((c as int - 'A' as int + 10) as nat),
        !('0' <= c <= '9') ==> number::digit_value(c, 10) is None,
        !('0' <= c <= '9') && !('a' <= c <= 'f') && !('A' <= c <= 'F') ==> number::digit_value(
            c,
            16,
        ) is None,
{
}

/// One more digit multiplies a number by its base and adds the digit.
pub proof fn law_one_more_digit(s: Seq<char>, c: char, base: nat)
    requires
        base == 10 || base == 16,
        s.len() > 0,
        s[0] != '+',
    ensures
        ({
            let longer = number::radix_number(s.push(c), base);
            match (number::radix_number(s, base), number::digit_value(c, base)) {
                (Some(n), Some(d)) => if n * base + d <= u64::MAX {
                    longer == Some((n * base + d) as u64)
                } else {
                    longer is None
                },
                (_, None) => longer is None,
                _ => true,
            }
        }),
{
    let t = s.push(c);
    assert(t.drop_last() =~= s);
    if number::all_digits(s, base) && number::digit_value(c, base) is Some {
        assert forall|i: int| 0 <= i < t.len() implies (#[trigger] number::digit_value(
            t[i],
            base,
        )) is Some by {
            if i < s.len() {
                assert(number::digit_value(s[i], base) is Some);
            }
        }
    }
    if number::digit_value(c, base) is None {
        assert(number::digit_value(t[t.len() - 1], base) is None);
    }
}

/// A number behind `0x` or `0X` is hexadecimal. Without that an address is decimal, and a search
/// is hexadecimal just where one of its letters is a hexadecimal digit.
pub proof fn law_bases(digits: Seq<char>, s: Seq<char>)
    ensures
        number::auto_radix_number(seq!['0', 'x'] + digits) == number::radix_number(digits, 16),
        number::auto_radix_number(seq!['0', 'X'] + digits) == number::radix_number(digits, 16),
        number::search_number(seq!['0', 'x'] + digits) == number::radix_number(digits, 16),
        s.len() < 2 || s[0] != '0' || (s[1] != 'x' && s[1] != 'X') ==> {
            &&& number::auto_radix_number(s) == number::radix_number(s, 10)
            &&& (exists|i: int|
                0 <= i < s.len() && ('a' <= #[trigger] s[i] <= 'f' || 'A' <= s[i] <= 'F'))
                ==> number::search_number(s) == number::radix_number(s, 16)
            &&& !(exists|i: int|
                0 <= i < s.len() && ('a' <= #[trigger] s[i] <= 'f' || 'A' <= s[i] <= 'F'))
                ==> number::search_number(s) == number::radix_number(s, 10)
        },
{
    assert((seq!['0', 'x'] + digits).skip(2) =~= digits);
    assert((seq!['0', 'X'] + digits).skip(2) =~= digits);
    if exists|i: int| 0 <= i < s.len() && ('a' <= #[trigger] s[i] <= 'f' || 'A' <= s[i] <= 'F') {
        let i = choose|i: int|
            0 <= i < s.len() && ('a' <= #[trigger] s[i] <= 'f' || 'A' <= s[i] <= 'F');
        assert(number::is_hex_letter(s[i]));
    }
}

/// One plus sign may stand in front of the digits, and no number is empty.
pub proof fn law_plus_sign(digits: Seq<char>, base: nat)
    requires
        digits.len() > 0,
        digits[0] != '+',
    ensures
        number::radix_number(seq!['+'] + digits, base) == number::radix_number(digits, base),
        number::radix_number(Seq::empty(), base) is None,
{
    assert((seq!['+'] + digits).skip(1) =~= digits);
}

/// A number that cannot be read says what is wrong with it.
pub proof fn law_number_errors(s: Seq<char>)
    ensures
        s.len() == 0 <==> number::auto_radix_result(s) == Err::<u64, NumberError>(
            NumberError::Empty,
        ),
        number::auto_radix_result(s) == Err::<u64, NumberError>(NumberError::EmptyHex) <==> s.len()
            == 2 && s[0] == '0' && (s[1] == 'x' || s[1] == 'X'),
        number::auto_radix_result(s) == Err::<u64, NumberError>(NumberError::InvalidHex)
            ==> s.len() > 2 && s[0] == '0' && (s[1] == 'x' || s[1] == 'X'),
        number::auto_radix_result(s) == Err::<u64, NumberError>(NumberError::InvalidDecimal)
            ==> number::radix_number(s, 10) is None,
{
}

/// A chunk is found by the address of its memory, by that of its header, or by its size, each
/// read from its own field.
pub proof fn law_chunks_are_found_by_field(chunk: JsonLayoutChunk, n: u64)
    ensures
        search::query_matches(HeapSearchQuery::UserAddress(n), chunk)
            <==> number::auto_radix_number(chunk.user_addr@) == Some(n),
        search::query_matches(HeapSearchQuery::ChunkAddress(n), chunk)
            <==> number::auto_radix_number(chunk.chunk_addr@) == Some(n),
        search::query_matches(HeapSearchQuery::Size(n), chunk) <==> number::auto_radix_number(
            chunk.size@,
        ) == Some(n),
{
}

/// A search that finds nothing says what it looked for.
pub proof fn law_failed_searches_say_what(n: u64)
    ensures
        search::search_failure(HeapSearchQuery::AnyAddress(n)) == "no heap chunk contains "@
            + text::hex0x(n as nat),
        search::search_failure(HeapSearchQuery::UserAddress(n))
            == "no heap chunk with user address "@ + text::hex0x(n as nat),
        search::search_failure(HeapSearchQuery::ChunkAddress(n))
            == "no heap chunk with chunk address "@ + text::hex0x(n as nat),
        search::search_failure(HeapSearchQuery::Size(n)) == "no heap chunk with size "@
            + text::hex0x(n as nat),
{
}

// ---------------------------------------------------------------------------
// Labels
// ---------------------------------------------------------------------------

/// No two notes have the same name in a trace file, nor the same words on the screen.
pub proof fn law_notes_are_told_apart(a: HeapTrackerNote, b: HeapTrackerNote)
    ensures
        event::note_name(a) == event::note_name(b) <==> a == b,
        event::note_text(a) == event::note_text(b) <==> a == b,
{
    lemma_note_names(a, b);
    lemma_note_texts(a, b);
}

proof fn lemma_note_names(a: HeapTrackerNote, b: HeapTrackerNote)
    ensures
        event::note_name(a) == event::note_name(b) <==> a == b,
{
    reveal_strlit("NewAllocation");
    reveal_strlit("ReusedFreedChunk");
    reveal_strlit("FreedKnownChunk");
    reveal_strlit("DoubleFree");
    reveal_strlit("FreeUnknownPointer");
    reveal_strlit("NullMalloc");
    reveal_strlit("NullFree");
    reveal_strlit("AllocatedPointerReturnedAgain");
    reveal_strlit("NullCalloc");
    reveal_strlit("ReallocNullActsLikeMalloc");
    reveal_strlit("ReallocInPlace");
    reveal_strlit("ReallocMovedAllocation");
    reveal_strlit("ReallocFailedKeepsOldPointer");
    reveal_strlit("ReallocPtrZeroFreedOldPointer");
    reveal_strlit("ReallocUnknownOldPointer");
    assert("NewAllocation"@.len() == 13);
    assert("ReusedFreedChunk"@.len() == 16);
    assert("FreedKnownChunk"@.len() == 15);
    assert("DoubleFree"@.len() == 10);
    assert("FreeUnknownPointer"@.len() == 18);
    assert("NullMalloc"@.len() == 10);
    assert("NullFree"@.len() == 8);
    assert("AllocatedPointerReturnedAgain"@.len() == 29);
    assert("NullCalloc"@.len() == 10);
    assert("ReallocNullActsLikeMalloc"@.len() == 25);
    assert("ReallocInPlace"@.len() == 14);
    assert("ReallocMovedAllocation"@.len() == 22);
    assert("ReallocFailedKeepsOldPointer"@.len() == 28);
    assert("ReallocPtrZeroFreedOldPointer"@.len() == 29);
    assert("ReallocUnknownOldPointer"@.len() == 24);
    assert("NullMalloc"@[0] == 'N');
    assert("DoubleFree"@[0] == 'D');
    assert("NullCalloc"@[0] == 'N');
    assert("NullCalloc"@[4] == 'C');
    assert("NullMalloc"@[4] == 'M');
    assert("ReallocPtrZeroFreedOldPointer"@[0] == 'R');
    assert("AllocatedPointerReturnedAgain"@[0] == 'A');
}

proof fn lemma_note_texts(a: HeapTrackerNote, b: HeapTrackerNote)
    ensures
        event::note_text(a) == event::note_text(b) <==> a == b,
{
    reveal_strlit("state: allocated new chunk");
    reveal_strlit("state: reused previously freed chunk");
    reveal_strlit("state: freed known chunk");
    reveal_strlit("warning: possible double free");
    reveal_strlit("warning: freeing pointer not seen by Heapify");
    reveal_strlit("state: malloc returned NULL");
    reveal_strlit("state: free(NULL)");
    reveal_strlit("warning: malloc returned pointer already marked allocated");
    reveal_strlit("state: calloc returned NULL");
    reveal_strlit("state: realloc(NULL, size) allocated chunk");
    reveal_strlit("state: realloc kept allocation in place");
    reveal_strlit("state: realloc moved allocation");
    reveal_strlit("state: realloc failed; old pointer remains allocated");
    reveal_strlit("state: realloc(ptr, 0) freed old pointer");
    reveal_strlit("warning: realloc old pointer not seen by Heapify");
    assert("state: allocated new chunk"@.len() == 26);
    assert("state: reused previously freed chunk"@.len() == 36);
    assert("state: freed known chunk"@.len() == 24);
    assert("warning: possible double free"@.len() == 29);
    assert("warning: freeing pointer not seen by Heapify"@.len() == 44);
    assert("state: malloc returned NULL"@.len() == 27);
    assert("state: free(NULL)"@.len() == 17);
    assert("warning: malloc returned pointer already marked allocated"@.len() == 57);
    assert("state: calloc returned NULL"@.len() == 27);
    assert("state: realloc(NULL, size) allocated chunk"@.len() == 42);
    assert("state: realloc kept allocation in place"@.len() == 39);
    assert("state: realloc moved allocation"@.len() == 31);
    assert("state: realloc failed; old pointer remains allocated"@.len() == 52);
    assert("state: realloc(ptr, 0) freed old pointer"@.len() == 40);
    assert("warning: realloc old pointer not seen by Heapify"@.len() == 48);
    assert("state: calloc returned NULL"@[7] == 'c');
    assert("state: malloc returned NULL"@[7] == 'm');
}

/// Two records have the same label just where they are of one kind: among them the records of a
/// session, of events and of each view are told apart.
pub proof fn law_labels_tell_kinds(record: JsonTraceRecord)
    ensures
        replay::record_label(record) == "session_start"@ <==> record is SessionStart,
        replay::record_label(record) == "session_end"@ <==> record is SessionEnd,
        replay::record_label(record) == "event"@ <==> record is Event,
        replay::record_label(record) == "heap_layout"@ <==> record is HeapLayout,
        replay::record_label(record) == "observed_tcache_chains"@ <==> record
            is ObservedTcacheChains,
        replay::record_label(record) == "tcache_struct_candidate"@ <==> record
            is TcacheStructCandidate,
        replay::record_label(record) == "main_arena_candidate"@ <==> record is MainArenaCandidate,
        replay::record_label(record) == "main_arena_experiment"@ <==> record is MainArenaExperiment,
        replay::record_label(record) == "main_arena_top_candidate"@ <==> record
            is MainArenaTopCandidate,
        replay::record_label(record) == "main_arena_view"@ <==> record is MainArenaView,
        replay::record_label(record) == "fastbin_experiment"@ <==> record is FastbinExperiment,
        replay::record_label(record) == "unsorted_bin_experiment"@ <==> record
            is UnsortedBinExperiment,
        replay::record_label(record) == "bin_experiment"@ <==> record is BinExperiment,
        replay::record_label(record) == "unsorted_bin"@ <==> record is UnsortedBin,
        replay::record_label(record) == "unsorted_bin_validation"@ <==> record
            is UnsortedBinValidation,
        replay::record_label(record) == "fastbins"@ <==> record is Fastbins,
        replay::record_label(record) == "regular_bins"@ <==> record is RegularBins,
        replay::record_label(record) == "smallbins"@ <==> record is Smallbins,
        replay::record_label(record) == "smallbin_validation"@ <==> record is SmallbinValidation,
        replay::record_label(record) == "largebins"@ <==> record is Largebins,
        replay::record_label(record) == "largebin_validation"@ <==> record is LargebinValidation,
        replay::record_label(record) == "fastbin_validation"@ <==> record is FastbinValidation,
        replay::record_label(record) == "tcache_comparison"@ <==> record is TcacheComparison,
        replay::record_label(record) == "tcache_validation"@ <==> record is TcacheValidation,
        replay::record_label(record) == "allocator_warnings"@ <==> record is AllocatorWarnings,
        replay::record_label(record) == "allocator_source_summary"@ <==> record
            is AllocatorSourceSummary,
        replay::record_label(record) == "allocator_source_delta"@ <==> record
            is AllocatorSourceDelta,
        replay::record_label(record) == "heap_scan"@ <==> record is HeapScan,
{
    reveal_strlit("session_start");
    reveal_strlit("session_end");
    reveal_strlit("event");
    reveal_strlit("heap_layout");
    reveal_strlit("observed_tcache_chains");
    reveal_strlit("tcache_struct_candidate");
    reveal_strlit("main_arena_candidate");
    reveal_strlit("main_arena_experiment");
    reveal_strlit("main_arena_top_candidate");
    reveal_strlit("main_arena_view");
    reveal_strlit("fastbin_experiment");
    reveal_strlit("unsorted_bin_experiment");
    reveal_strlit("bin_experiment");
    reveal_strlit("unsorted_bin");
    reveal_strlit("unsorted_bin_validation");
    reveal_strlit("fastbins");
    reveal_strlit("regular_bins");
    reveal_strlit("smallbins");
    reveal_strlit("smallbin_validation");
    reveal_strlit("largebins");
    reveal_strlit("largebin_validation");
    reveal_strlit("fastbin_validation");
    reveal_strlit("tcache_comparison");
    reveal_strlit("tcache_validation");
    reveal_strlit("allocator_warnings");
    reveal_strlit("allocator_source_summary");
    reveal_strlit("allocator_source_delta");
    reveal_strlit("heap_scan");
    assert("session_start"@.len() == 13);
    assert("session_end"@.len() == 11);
    assert("event"@.len() == 5);
    assert("heap_layout"@.len() == 11);
    assert("observed_tcache_chains"@.len() == 22);
    assert("tcache_struct_candidate"@.len() == 23);
    assert("main_arena_candidate"@.len() == 20);
    assert("main_arena_experiment"@.len() == 21);
    assert("main_arena_top_candidate"@.len() == 24);
    assert("main_arena_view"@.len() == 15);
    assert("fastbin_experiment"@.len() == 18);
    assert("unsorted_bin_experiment"@.len() == 23);
    assert("bin_experiment"@.len() == 14);
    assert("unsorted_bin"@.len() == 12);
    assert("unsorted_bin_validation"@.len() == 23);
    assert("fastbins"@.len() == 8);
    assert("regular_bins"@.len() == 12);
    assert("smallbins"@.len() == 9);
    assert("smallbin_validation"@.len() == 19);
    assert("largebins"@.len() == 9);
    assert("largebin_validation"@.len() == 19);
    assert("fastbin_validation"@.len() == 18);
    assert("tcache_comparison"@.len() == 17);
    assert("tcache_validation"@.len() == 17);
    assert("allocator_warnings"@.len() == 18);
    assert("allocator_source_summary"@.len() == 24);
    assert("allocator_source_delta"@.len() == 22);
    assert("heap_scan"@.len() == 9);
    assert("heap_layout"@[0] == 'h');
    assert("session_end"@[0] == 's');
    assert("unsorted_bin_experiment"@[0] == 'u');
    assert("tcache_struct_candidate"@[0] == 't');
    assert("unsorted_bin_validation"@[0] == 'u');
    assert("unsorted_bin_validation"@[13] == 'v');
    assert("unsorted_bin_experiment"@[13] == 'e');
    assert("regular_bins"@[0] == 'r');
    assert("unsorted_bin"@[0] == 'u');
    assert("largebins"@[0] == 'l');
    assert("smallbins"@[0] == 's');
    assert("largebin_validation"@[0] == 'l');
    assert("smallbin_validation"@[0] == 's');
    assert("fastbin_validation"@[8] == 'v');
    assert("fastbin_experiment"@[8] == 'e');
    assert("tcache_validation"@[7] == 'v');
    assert("tcache_comparison"@[7] == 'c');
    assert("allocator_warnings"@[8] == 'r');
    assert("allocator_source_summary"@[0] == 'a');
    assert("main_arena_top_candidate"@[0] == 'm');
    assert("allocator_source_delta"@[0] == 'a');
    assert("observed_tcache_chains"@[0] == 'o');
    assert("heap_scan"@[0] == 'h');
}

/// A view of the arena is validated exactly where its top is a walked chunk, and is otherwise
/// told by what the top points to.
pub proof fn law_view_status(status: MainArenaTopStatus)
    ensures
        arena::view_status_of(status) == MainArenaViewStatus::Validated <==> status
            == MainArenaTopStatus::MatchesWalkedChunk,
        arena::view_status_of(status) == MainArenaViewStatus::PointsIntoHeap <==> status
            == MainArenaTopStatus::PointsIntoHeap,
        arena::view_status_of(status) == MainArenaViewStatus::OutsideHeap <==> status
            == MainArenaTopStatus::OutsideHeap,
        arena::view_status_of(status) == MainArenaViewStatus::Unavailable <==> status
            == MainArenaTopStatus::Unavailable,
{
}

/// The outcome of a check is told by one word each, and a chunk that no call has touched is in an
/// unknown state.
pub proof fn law_check_words(
    value: ValidationValue,
    status: ValidationStatus,
    state: Option<ObservedChunkState>,
    source: MainArenaFieldSource,
)
    ensures
        arena::validation_value_label(value) == (if value == ValidationValue::Yes {
            "yes"@
        } else if value == ValidationValue::No {
            "no"@
        } else {
            "unknown"@
        }),
        arena::validation_status_label(status) == (if status == ValidationStatus::Suspicious {
            "suspicious"@
        } else if status == ValidationStatus::Incomplete {
            "incomplete"@
        } else {
            "plausible"@
        }),
        arena::observed_state_label(state) == (if state == Some(ObservedChunkState::Freed) {
            "freed"@
        } else if state == Some(ObservedChunkState::Allocated) {
            "allocated"@
        } else {
            "unknown"@
        }),
        arena::field_source_label(source) == (if source == MainArenaFieldSource::UserOffset {
            "user_offset"@
        } else {
            "glibc_profile"@
        }),
{
}

// ---------------------------------------------------------------------------
// Recorded calls
// ---------------------------------------------------------------------------

/// A recorded call can be read back: every number of the call stands in its record, in the field
/// of its own name.
pub proof fn law_recorded_numbers_read_back(
    json: JsonHeapEvent,
    call: HeapTraceEvent,
    note: HeapTrackerNote,
    explanation: HeapTrackerExplanation,
    symbol: Option<SymbolizedAddress>,
)
    requires
        event::is_json_event(json, call, note, explanation, symbol),
    ensures
        match call {
            HeapTraceEvent::Malloc { event_id, requested_size, returned_ptr, .. } => {
                &&& json is Malloc
                &&& json->Malloc_event_id == event_id
                &&& number::auto_radix_number(json->Malloc_requested_size@) == Some(requested_size)
                &&& number::auto_radix_number(json->Malloc_returned_ptr@) == Some(returned_ptr)
                &&& json->Malloc_tracker_note@ == event::note_name(note)
            },
            HeapTraceEvent::Free { event_id, ptr, .. } => {
                &&& json is Free
                &&& json->Free_event_id == event_id
                &&& number::auto_radix_number(json->Free_ptr@) == Some(ptr)
                &&& json->Free_tracker_note@ == event::note_name(note)
            },
            HeapTraceEvent::Calloc { event_id, nmemb, size, returned_ptr, .. } => {
                &&& json is Calloc
                &&& json->Calloc_event_id == event_id
                &&& number::auto_radix_number(json->Calloc_nmemb@) == Some(nmemb)
                &&& number::auto_radix_number(json->Calloc_size@) == Some(size)
                &&& number::auto_radix_number(json->Calloc_returned_ptr@) == Some(returned_ptr)
                &&& json->Calloc_tracker_note@ == event::note_name(note)
            },
            HeapTraceEvent::Realloc { event_id, old_ptr, new_size, returned_ptr, .. } => {
                &&& json is Realloc
                &&& json->Realloc_event_id == event_id
                &&& number::auto_radix_number(json->Realloc_old_ptr@) == Some(old_ptr)
                &&& number::auto_radix_number(json->Realloc_new_size@) == Some(new_size)
                &&& number::auto_radix_number(json->Realloc_returned_ptr@) == Some(returned_ptr)
                &&& json->Realloc_tracker_note@ == event::note_name(note)
            },
        },
{
    match call {
        HeapTraceEvent::Malloc { requested_size, returned_ptr, .. } => {
            number::law_hex_round_trip(requested_size);
            number::law_hex_round_trip(returned_ptr);
        },
        HeapTraceEvent::Free { ptr, .. } => {
            number::law_hex_round_trip(ptr);
        },
        HeapTraceEvent::Calloc { nmemb, size, returned_ptr, .. } => {
            number::law_hex_round_trip(nmemb);
            number::law_hex_round_trip(size);
            number::law_hex_round_trip(returned_ptr);
        },
        HeapTraceEvent::Realloc { old_ptr, new_size, returned_ptr, .. } => {
            number::law_hex_round_trip(old_ptr);
            number::law_hex_round_trip(new_size);
            number::law_hex_round_trip(returned_ptr);
        },
    }
}

/// A recorded chunk can be read back, and names exactly the flags that are set.
pub proof fn law_recorded_chunk_reads_back(json: JsonChunk, chunk: GlibcChunkHeader)
    requires
        event::is_json_chunk(Some(json), Some(chunk)),
    ensures
        number::auto_radix_number(json.chunk_addr@) == Some(chunk.chunk_addr),
        number::auto_radix_number(json.user_addr@) == Some(chunk.user_addr),
        number::auto_radix_number(json.prev_size@) == Some(chunk.prev_size),
        number::auto_radix_number(json.size_raw@) == Some(chunk.size_raw),
        number::auto_radix_number(json.size@) == Some(chunk.size),
        text::texts(json.flags@).contains("PREV_INUSE"@) <==> chunk.flags.prev_inuse,
        text::texts(json.flags@).contains("IS_MMAPPED"@) <==> chunk.flags.is_mmapped,
        text::texts(json.flags@).contains("NON_MAIN_ARENA"@) <==> chunk.flags.non_main_arena,
{
    number::law_hex_round_trip(chunk.chunk_addr);
    number::law_hex_round_trip(chunk.user_addr);
    number::law_hex_round_trip(chunk.prev_size);
    number::law_hex_round_trip(chunk.size_raw);
    number::law_hex_round_trip(chunk.size);
    reveal_strlit("PREV_INUSE");
    reveal_strlit("IS_MMAPPED");
    reveal_strlit("NON_MAIN_ARENA");
    assert("PREV_INUSE"@.len() == 10);
    assert("IS_MMAPPED"@.len() == 10);
    assert("NON_MAIN_ARENA"@.len() == 14);
    assert("PREV_INUSE"@[0] == 'P');
    assert("IS_MMAPPED"@[0] == 'I');
    let labels = event::flag_labels(chunk.flags);
    let a: int = 0;
    let b: int = if chunk.flags.prev_inuse { 1 } else { 0 };
    let c: int = b + (if chunk.flags.is_mmapped { 1int } else { 0 });
    if chunk.flags.prev_inuse {
        assert(labels[a] == "PREV_INUSE"@);
    }
    if chunk.flags.is_mmapped {
        assert(labels[b] == "IS_MMAPPED"@);
    }
    if chunk.flags.non_main_arena {
        assert(labels[c] == "NON_MAIN_ARENA"@);
    }
}

// ---------------------------------------------------------------------------
// The screen at its start
// ---------------------------------------------------------------------------

/// A fresh screen has seen nothing: the target runs, the latest event is followed, the trace has
/// the focus, no prompt is open and no chunk is selected.
pub proof fn law_fresh_screen()
    ensures
        ({
            let app = live_app::fresh();
            &&& app.data.events.len() == 0 && app.data.related.len() == 0 && app.logs.len() == 0
            &&& app.data.session_start is None && app.data.session_end is None
            &&& app.control.target_status == LiveTargetStatus::Running
            &&& app.control.follow_tail && app.control.follow_tail_before_pause is None
            &&& app.control.selected_index == 0 && app.control.next_command_id == 1
            &&& app.control.last_command is None && app.control.latest_stop_reason is None
            &&& app.panes.focused_debugger_pane == LiveDebuggerPane::Trace
            &&& app.panes.active_right_tab == LiveRightTab::Heap
            &&& app.panes.show_heap_pane && app.panes.show_scan_pane
            &&& !app.panes.show_chunk_inspector && app.panes.code_follow_rip
            &&& app.chunk.index is None && app.chunk.addr is None && app.chunk.user_addr is None
            &&& !app.console.input_active && app.console.history.len() == 0
            &&& !app.search.prompt_active && app.search.status is None
        }),
{
}

// ---------------------------------------------------------------------------
// White space
// ---------------------------------------------------------------------------

/// Whether a text is nothing but white space.
pub open spec fn blank(s: Seq<char>) -> bool {
    forall|i: int| 0 <= i < s.len() ==> search::is_space(#[trigger] s[i])
}

/// Whether a text is another one with white space around it.
pub open spec fn surrounded(s: Seq<char>, inner: Seq<char>) -> bool {
    exists|before: Seq<char>, after: Seq<char>|
        s == #[trigger] (before + inner + after) && blank(before) && blank(after)
}

proof fn lemma_trimmed_start(s: Seq<char>) -> (before: Seq<char>)
    ensures
        s == before + search::trimmed_start(s),
        blank(before),
        search::trimmed_start(s).len() > 0 ==> !search::is_space(search::trimmed_start(s)[0]),
    decreases s.len(),
{
    if s.len() > 0 && search::is_space(s[0]) {
        let rest = lemma_trimmed_start(s.skip(1));
        let before = seq![s[0]] + rest;
        let inner = search::trimmed_start(s.skip(1));
        assert(search::trimmed_start(s) == inner);
        assert(s =~= seq![s[0]] + s.skip(1));
        assert(seq![s[0]] + (rest + inner) =~= before + inner);
        assert forall|i: int| 0 <= i < before.len() implies search::is_space(
            #[trigger] before[i],
        ) by {
            if i > 0 {
                assert(before[i] == rest[i - 1]);
            }
        }
        before
    } else {
        assert(s =~= Seq::<char>::empty() + s);
        Seq::empty()
    }
}

proof fn lemma_trimmed_end(s: Seq<char>) -> (after: Seq<char>)
    ensures
        s == search::trimmed_end(s) + after,
        blank(after),
        search::trimmed_end(s).len() > 0 ==> !search::is_space(search::trimmed_end(s).last()),
        search::trimmed_end(s).len() > 0 ==> search::trimmed_end(s)[0] == s[0],
    decreases s.len(),
{
    if s.len() > 0 && search::is_space(s.last()) {
        let rest = lemma_trimmed_end(s.drop_last());
        let after = rest.push(s.last());
        let inner = search::trimmed_end(s.drop_last());
        assert(search::trimmed_end(s) == inner);
        assert(s =~= s.drop_last().push(s.last()));
        assert((inner + rest).push(s.last()) =~= inner + after);
        after
    } else {
        assert(s =~= s + Seq::<char>::empty());
        Seq::empty()
    }
}

/// Trimming takes white space from both ends, all of it, and nothing else.
pub proof fn law_trimming(s: Seq<char>)
    ensures
        surrounded(s, search::trimmed(s)),
        search::trimmed(s).len() > 0 ==> !search::is_space(search::trimmed(s)[0])
            && !search::is_space(search::trimmed(s).last()),
{
    let before = lemma_trimmed_start(s);
    let after = lemma_trimmed_end(search::trimmed_start(s));
    assert(s =~= before + search::trimmed(s) + after);
}

/// What separates words: the blank, the tabulator and the line ends among them, and no letter,
/// digit or sign of ASCII.
pub proof fn law_white_space(c: char)
    ensures
        c == ' ' || c == '\t' || c == '\n' || c == '\r' ==> search::is_space(c),
        '!' <= c <= '~' ==> !search::is_space(c),
{
}

} // verus!
