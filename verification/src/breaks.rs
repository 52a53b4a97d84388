//! Conditions under which a traced target is stopped after an allocator call.

use crate::config::AllocatorBreakCondition;
use crate::event::{
    allocator_event_alloc_size, allocator_event_user_addr, heap_event_id, HeapTraceEvent,
    HeapTrackerNote,
};
use crate::record::{
    JsonFastbinBinValidation, JsonHeapScanFinding, JsonHeapScanReport, JsonLargebinBinValidation,
    JsonSmallbinBinValidation, JsonTcacheBinValidation, JsonTraceRecord,
};
use crate::text;
use crate::text::{cat2, cat3, owned, same};
use vstd::prelude::*;

verus! {

/// A condition that an allocator call met.
#[derive(Debug, Clone, PartialEq, Eq)]
pub struct AllocatorBreakMatch {
    pub condition: AllocatorBreakCondition,
    pub event_id: usize,
    pub user_addr: Option<u64>,
    pub message: String,
}

/// The model of an [`AllocatorBreakMatch`].
pub struct BreakView {
    pub condition: AllocatorBreakCondition,
    pub event_id: usize,
    pub user_addr: Option<u64>,
    pub message: Seq<char>,
}

impl View for AllocatorBreakMatch {
    type V = BreakView;

    open spec fn view(&self) -> BreakView {
        BreakView {
            condition: self.condition,
            event_id: self.event_id,
            user_addr: self.user_addr,
            message: self.message@,
        }
    }
}

/// The kind of the first suspicious finding from `i` on.
pub open spec fn suspicious_kind(findings: Seq<JsonHeapScanFinding>, i: int) -> Option<Seq<char>>
    decreases findings.len() - i,
{
    if i < 0 || i >= findings.len() {
        None
    } else if findings[i].severity@ == "suspicious"@ {
        Some(findings[i].kind@)
    } else {
        suspicious_kind(findings, i + 1)
    }
}

/// Why a heap scan is suspicious: its first suspicious finding; where only the whole is
/// marked so, its first finding; or just that it is.
pub open spec fn report_reason(report: JsonHeapScanReport) -> Option<Seq<char>> {
    let marked = report.status@ == "suspicious"@;
    match suspicious_kind(report.findings@, 0) {
        Some(kind) => Some("suspicious heap scan finding "@ + kind),
        None => if marked && report.findings@.len() > 0 {
            Some("suspicious heap scan finding "@ + report.findings@[0].kind@)
        } else if marked {
            Some("suspicious heap scan"@)
        } else {
            None
        },
    }
}

/// The reason that the first suspicious heap scan among the records from `i` on gives.
pub open spec fn scan_reason(records: Seq<JsonTraceRecord>, i: int) -> Option<Seq<char>>
    decreases records.len() - i,
{
    if i < 0 || i >= records.len() {
        None
    } else {
        match records[i] {
            JsonTraceRecord::HeapScan { report, .. } => match report_reason(report) {
                Some(reason) => Some(reason),
                None => scan_reason(records, i + 1),
            },
            _ => scan_reason(records, i + 1),
        }
    }
}

fn heap_scan_report_reason(report: &JsonHeapScanReport) -> (r: Option<String>)
    ensures
        text::opt(r) == report_reason(*report),
{
    let mut i: usize = 0;
    while i < report.findings.len()
        invariant
            0 <= i <= report.findings.len(),
            suspicious_kind(report.findings@, 0) == suspicious_kind(report.findings@, i as int),
        decreases report.findings.len() - i,
    {
        let finding = &report.findings[i];
        if same(finding.severity.as_str(), "suspicious") {
            return Some(cat2("suspicious heap scan finding ", finding.kind.as_str()));
        }
        i = i + 1;
    }
    if same(report.status.as_str(), "suspicious") {
        if report.findings.len() > 0 {
            Some(cat2("suspicious heap scan finding ", report.findings[0].kind.as_str()))
        } else {
            Some(owned("suspicious heap scan"))
        }
    } else {
        None
    }
}

pub fn suspicious_heap_scan_break_reason(related_records_for_event: &Vec<JsonTraceRecord>) -> (r:
    Option<String>)
    ensures
        text::opt(r) == scan_reason(related_records_for_event@, 0),
{
    let mut i: usize = 0;
    while i < related_records_for_event.len()
        invariant
            0 <= i <= related_records_for_event.len(),
            scan_reason(related_records_for_event@, 0) == scan_reason(
                related_records_for_event@,
                i as int,
            ),
        decreases related_records_for_event.len() - i,
    {
        if let JsonTraceRecord::HeapScan { report, .. } = &related_records_for_event[i] {
            if let Some(reason) = heap_scan_report_reason(report) {
                return Some(reason);
            }
        }
        i = i + 1;
    }
    None
}

/// The outcome of the checks on one bin.
pub trait Checked {
    spec fn status_text(&self) -> Seq<char>;

    fn is_suspicious(&self) -> (r: bool)
        ensures
            r == (self.status_text() == "suspicious"@),
    ;
}

impl Checked for JsonFastbinBinValidation {
    open spec fn status_text(&self) -> Seq<char> {
        self.status@
    }

    fn is_suspicious(&self) -> (r: bool) {
        same(self.status.as_str(), "suspicious")
    }
}

impl Checked for JsonSmallbinBinValidation {
    open spec fn status_text(&self) -> Seq<char> {
        self.status@
    }

    fn is_suspicious(&self) -> (r: bool) {
        same(self.status.as_str(), "suspicious")
    }
}

impl Checked for JsonLargebinBinValidation {
    open spec fn status_text(&self) -> Seq<char> {
        self.status@
    }

    fn is_suspicious(&self) -> (r: bool) {
        same(self.status.as_str(), "suspicious")
    }
}

impl Checked for JsonTcacheBinValidation {
    open spec fn status_text(&self) -> Seq<char> {
        self.status@
    }

    fn is_suspicious(&self) -> (r: bool) {
        same(self.status.as_str(), "suspicious")
    }
}

/// Whether the checks on any of the bins came out suspicious.
pub open spec fn some_suspicious<T: Checked>(bins: Seq<T>) -> bool {
    exists|i: int| 0 <= i < bins.len() && (#[trigger] bins[i]).status_text() == "suspicious"@
}

fn has_suspicious<T: Checked>(bins: &Vec<T>) -> (r: bool)
    ensures
        r == some_suspicious(bins@),
{
    let mut i: usize = 0;
    while i < bins.len()
        invariant
            i <= bins.len(),
            forall|k: int| 0 <= k < i ==> (#[trigger] bins@[k]).status_text() != "suspicious"@,
        decreases bins.len() - i,
    {
        if bins[i].is_suspicious() {
            assert(bins@[i as int].status_text() == "suspicious"@);
            return true;
        }
        i = i + 1;
    }
    false
}

/// The free lists whose checks a record marks as suspicious.
pub open spec fn suspicious_list(record: JsonTraceRecord) -> Option<Seq<char>> {
    match record {
        JsonTraceRecord::FastbinValidation { validations, .. } =>
            if some_suspicious(validations@) {
                Some("fastbin"@)
            } else {
                None
            },
        JsonTraceRecord::UnsortedBinValidation { validation, .. } =>
            if validation.status@ == "suspicious"@ {
                Some("unsorted bin"@)
            } else {
                None
            },
        JsonTraceRecord::SmallbinValidation { validations, .. } =>
            if some_suspicious(validations@) {
                Some("smallbin"@)
            } else {
                None
            },
        JsonTraceRecord::LargebinValidation { validations, .. } =>
            if some_suspicious(validations@) {
                Some("largebin"@)
            } else {
                None
            },
        JsonTraceRecord::TcacheValidation { validations, .. } =>
            if some_suspicious(validations@) {
                Some("tcache"@)
            } else {
                None
            },
        _ => None,
    }
}

fn find_suspicious_list(record: &JsonTraceRecord) -> (r: Option<&'static str>)
    ensures
        match (r, suspicious_list(*record)) {
            (Some(word), Some(w)) => word@ == w,
            (None, None) => true,
            _ => false,
        },
{
    match record {
        JsonTraceRecord::FastbinValidation { validations, .. } => if has_suspicious(validations) {
            Some("fastbin")
        } else {
            None
        },
        JsonTraceRecord::UnsortedBinValidation { validation, .. } => if same(
            validation.status.as_str(),
            "suspicious",
        ) {
            Some("unsorted bin")
        } else {
            None
        },
        JsonTraceRecord::SmallbinValidation { validations, .. } => if has_suspicious(validations) {
            Some("smallbin")
        } else {
            None
        },
        JsonTraceRecord::LargebinValidation { validations, .. } => if has_suspicious(validations) {
            Some("largebin")
        } else {
            None
        },
        JsonTraceRecord::TcacheValidation { validations, .. } => if has_suspicious(validations) {
            Some("tcache")
        } else {
            None
        },
        _ => None,
    }
}

/// The reason that the first record from `i` on with suspicious free lists gives.
pub open spec fn list_reason(records: Seq<JsonTraceRecord>, i: int) -> Option<Seq<char>>
    decreases records.len() - i,
{
    if i < 0 || i >= records.len() {
        None
    } else {
        match suspicious_list(records[i]) {
            Some(list) => Some("suspicious "@ + list + " validation"@),
            None => list_reason(records, i + 1),
        }
    }
}

pub fn suspicious_validation_break_reason(related_records_for_event: &Vec<JsonTraceRecord>) -> (r:
    Option<String>)
    ensures
        text::opt(r) == list_reason(related_records_for_event@, 0),
{
    let mut i: usize = 0;
    while i < related_records_for_event.len()
        invariant
            0 <= i <= related_records_for_event.len(),
            list_reason(related_records_for_event@, 0) == list_reason(
                related_records_for_event@,
                i as int,
            ),
        decreases related_records_for_event.len() - i,
    {
        if let Some(list) = find_suspicious_list(&related_records_for_event[i]) {
            return Some(cat3("suspicious ", list, " validation"));
        }
        i = i + 1;
    }
    None
}

/// Why the records of an event are suspicious: a heap scan says so, or else the checks on a
/// free list do.
pub open spec fn suspicious_reason(records: Seq<JsonTraceRecord>) -> Option<Seq<char>> {
    match scan_reason(records, 0) {
        Some(reason) => Some(reason),
        None => list_reason(records, 0),
    }
}

fn find_suspicious_reason(records: &Vec<JsonTraceRecord>) -> (r: Option<String>)
    ensures
        text::opt(r) == suspicious_reason(records@),
{
    match suspicious_heap_scan_break_reason(records) {
        Some(reason) => Some(reason),
        None => suspicious_validation_break_reason(records),
    }
}

pub fn is_double_free_note(note: HeapTrackerNote) -> (r: bool)
    ensures
        r == (note is DoubleFree),
{
    match note {
        HeapTrackerNote::DoubleFree => true,
        _ => false,
    }
}

/// Why an allocator call meets a condition, if it does.
pub open spec fn break_message(
    condition: AllocatorBreakCondition,
    event: HeapTraceEvent,
    note: HeapTrackerNote,
    records: Seq<JsonTraceRecord>,
) -> Option<Seq<char>> {
    match condition {
        AllocatorBreakCondition::Suspicious => suspicious_reason(records),
        AllocatorBreakCondition::DoubleFree => if note is DoubleFree {
            Some("possible double free"@)
        } else {
            None
        },
        AllocatorBreakCondition::FreePtr(ptr) => if event is Free && event.user_addr() == ptr {
            Some("free pointer "@ + text::hex0x(ptr as nat))
        } else {
            None
        },
        AllocatorBreakCondition::AllocSize(size) => if event.alloc_size() == Some(size) {
            Some("allocation size "@ + text::hex0x(size as nat))
        } else {
            None
        },
    }
}

/// The match of one condition.
pub open spec fn break_match(
    condition: AllocatorBreakCondition,
    event: HeapTraceEvent,
    note: HeapTrackerNote,
    records: Seq<JsonTraceRecord>,
) -> Option<BreakView> {
    match break_message(condition, event, note, records) {
        Some(message) => Some(
            BreakView {
                condition,
                event_id: event.id(),
                user_addr: Some(event.user_addr()),
                message,
            },
        ),
        None => None,
    }
}

/// The match of the first condition from `i` on that the call meets.
pub open spec fn first_match(
    conditions: Seq<AllocatorBreakCondition>,
    i: int,
    event: HeapTraceEvent,
    note: HeapTrackerNote,
    records: Seq<JsonTraceRecord>,
) -> Option<BreakView>
    decreases conditions.len() - i,
{
    if i < 0 || i >= conditions.len() {
        None
    } else {
        match break_match(conditions[i], event, note, records) {
            Some(m) => Some(m),
            None => first_match(conditions, i + 1, event, note, records),
        }
    }
}

pub open spec fn opt_break(m: Option<AllocatorBreakMatch>) -> Option<BreakView> {
    match m {
        Some(b) => Some(b@),
        None => None,
    }
}

pub fn allocator_break_condition_matches(
    condition: AllocatorBreakCondition,
    event: &HeapTraceEvent,
    note: HeapTrackerNote,
    related_records_for_event: &Vec<JsonTraceRecord>,
) -> (r: Option<AllocatorBreakMatch>)
    ensures
        opt_break(r) == break_match(condition, *event, note, related_records_for_event@),
{
    let message: Option<String> = match condition {
        AllocatorBreakCondition::Suspicious => find_suspicious_reason(related_records_for_event),
        AllocatorBreakCondition::DoubleFree => if is_double_free_note(note) {
            Some(owned("possible double free"))
        } else {
            None
        },
        AllocatorBreakCondition::FreePtr(ptr) => match event {
            HeapTraceEvent::Free { ptr: event_ptr, .. } => if *event_ptr == ptr {
                Some(cat2("free pointer ", text::format_hex0x(ptr).as_str()))
            } else {
                None
            },
            _ => None,
        },
        AllocatorBreakCondition::AllocSize(size) => match allocator_event_alloc_size(event) {
            Some(event_size) => if event_size == size {
                Some(cat2("allocation size ", text::format_hex0x(size).as_str()))
            } else {
                None
            },
            None => None,
        },
    };
    match message {
        Some(message) => Some(
            AllocatorBreakMatch {
                condition,
                event_id: heap_event_id(event),
                user_addr: allocator_event_user_addr(event),
                message,
            },
        ),
        None => None,
    }
}

pub fn evaluate_allocator_break_conditions(
    conditions: &Vec<AllocatorBreakCondition>,
    event: &HeapTraceEvent,
    note: HeapTrackerNote,
    related_records_for_event: &Vec<JsonTraceRecord>,
) -> (r: Option<AllocatorBreakMatch>)
    ensures
        opt_break(r) == first_match(conditions@, 0, *event, note, related_records_for_event@),
{
    let mut i: usize = 0;
    while i < conditions.len()
        invariant
            0 <= i <= conditions.len(),
            first_match(conditions@, 0, *event, note, related_records_for_event@) == first_match(
                conditions@,
                i as int,
                *event,
                note,
                related_records_for_event@,
            ),
        decreases conditions.len() - i,
    {
        let m = allocator_break_condition_matches(
            conditions[i],
            event,
            note,
            related_records_for_event,
        );
        if m.is_some() {
            return m;
        }
        i = i + 1;
    }
    None
}

/// The match found is that of a condition in the list, and of no later one than the first
/// that is met; nothing is found exactly when no condition is met.
pub proof fn law_first_condition_wins(
    conditions: Seq<AllocatorBreakCondition>,
    event: HeapTraceEvent,
    note: HeapTrackerNote,
    records: Seq<JsonTraceRecord>,
)
    ensures
        match first_match(conditions, 0, event, note, records) {
            Some(m) => exists|k: int|
                0 <= k < conditions.len() && #[trigger] break_match(
                    conditions[k],
                    event,
                    note,
                    records,
                ) == Some(m) && forall|j: int|
                    0 <= j < k ==> #[trigger] break_match(conditions[j], event, note, records)
                        is None,
            None => forall|j: int|
                0 <= j < conditions.len() ==> #[trigger] break_match(
                    conditions[j],
                    event,
                    note,
                    records,
                ) is None,
        },
{
    lemma_first_match(conditions, 0, event, note, records);
}

proof fn lemma_first_match(
    conditions: Seq<AllocatorBreakCondition>,
    i: int,
    event: HeapTraceEvent,
    note: HeapTrackerNote,
    records: Seq<JsonTraceRecord>,
)
    requires
        0 <= i <= conditions.len(),
        forall|j: int|
            0 <= j < i ==> #[trigger] break_match(conditions[j], event, note, records) is None,
    ensures
        match first_match(conditions, i, event, note, records) {
            Some(m) => exists|k: int|
                0 <= k < conditions.len() && #[trigger] break_match(
                    conditions[k],
                    event,
                    note,
                    records,
                ) == Some(m) && forall|j: int|
                    0 <= j < k ==> #[trigger] break_match(conditions[j], event, note, records)
                        is None,
            None => forall|j: int|
                0 <= j < conditions.len() ==> #[trigger] break_match(
                    conditions[j],
                    event,
                    note,
                    records,
                ) is None,
        },
    decreases conditions.len() - i,
{
    if i < conditions.len() && break_match(conditions[i], event, note, records) is None {
        lemma_first_match(conditions, i + 1, event, note, records);
    }
}

/// Whether a record marks its event as suspicious: a heap scan, or the checks on a free list.
pub open spec fn is_suspicious_record(record: JsonTraceRecord) -> bool {
    match record {
        JsonTraceRecord::HeapScan { report, .. } => report_reason(report) is Some,
        _ => suspicious_list(record) is Some,
    }
}

proof fn lemma_scan_reason(records: Seq<JsonTraceRecord>, i: int, k: int)
    requires
        0 <= i <= records.len(),
    ensures
        i <= k < records.len() && records[k] is HeapScan && is_suspicious_record(records[k])
            ==> scan_reason(records, i) is Some,
        scan_reason(records, i) is Some ==> exists|j: int|
            i <= j < records.len() && is_suspicious_record(#[trigger] records[j]),
    decreases records.len() - i,
{
    if i < records.len() {
        lemma_scan_reason(records, i + 1, k);
        if let JsonTraceRecord::HeapScan { report, .. } = records[i] {
            if report_reason(report) is Some {
                assert(is_suspicious_record(records[i]));
            }
        }
    }
}

proof fn lemma_list_reason(records: Seq<JsonTraceRecord>, i: int, k: int)
    requires
        0 <= i <= records.len(),
    ensures
        i <= k < records.len() && records[k] !is HeapScan && is_suspicious_record(records[k])
            ==> list_reason(records, i) is Some,
        list_reason(records, i) is Some ==> exists|j: int|
            i <= j < records.len() && is_suspicious_record(#[trigger] records[j]),
    decreases records.len() - i,
{
    if i < records.len() {
        lemma_list_reason(records, i + 1, k);
        if suspicious_list(records[i]) is Some {
            assert(is_suspicious_record(records[i]));
        }
    }
}

/// An event is suspicious exactly when a heap scan or the checks on a free list mark it so; a
/// heap scan is the reason where there is one.
pub proof fn law_any_suspicious_record_counts(
    event: HeapTraceEvent,
    note: HeapTrackerNote,
    records: Seq<JsonTraceRecord>,
)
    ensures
        break_match(AllocatorBreakCondition::Suspicious, event, note, records) is Some <==> exists|
            k: int,
        |
            0 <= k < records.len() && is_suspicious_record(#[trigger] records[k]),
        scan_reason(records, 0) is Some ==> suspicious_reason(records) == scan_reason(records, 0),
{
    lemma_scan_reason(records, 0, 0);
    lemma_list_reason(records, 0, 0);
    if exists|k: int| 0 <= k < records.len() && is_suspicious_record(#[trigger] records[k]) {
        let k = choose|k: int|
            0 <= k < records.len() && is_suspicious_record(#[trigger] records[k]);
        lemma_scan_reason(records, 0, k);
        lemma_list_reason(records, 0, k);
    }
}

/// A `free` never meets an allocation size, and only a `free` meets a freed pointer.
pub proof fn law_conditions_fit_their_calls(
    event: HeapTraceEvent,
    note: HeapTrackerNote,
    records: Seq<JsonTraceRecord>,
    value: u64,
)
    ensures
        event is Free ==> break_match(AllocatorBreakCondition::AllocSize(value), event, note, records)
            is None,
        event !is Free ==> break_match(AllocatorBreakCondition::FreePtr(value), event, note, records)
            is None,
{
}

/// An allocation size is met by exactly the calls that ask for that many bytes: by `malloc` and
/// `realloc` with that size, by `calloc` with that product, and by no other call.
pub proof fn law_alloc_size_is_exact(
    event: HeapTraceEvent,
    note: HeapTrackerNote,
    records: Seq<JsonTraceRecord>,
    n: u64,
)
    ensures
        break_match(AllocatorBreakCondition::AllocSize(n), event, note, records) is Some <==> (
        match event {
            HeapTraceEvent::Malloc { requested_size, .. } => requested_size == n,
            HeapTraceEvent::Calloc { nmemb, size, .. } => nmemb * size == n,
            HeapTraceEvent::Realloc { new_size, .. } => new_size == n,
            HeapTraceEvent::Free { .. } => false,
        }),
{
}

/// A freed pointer is met by exactly the `free` of that pointer, and a double free by exactly
/// the calls that the tracker takes for one.
pub proof fn law_free_conditions_are_exact(
    event: HeapTraceEvent,
    note: HeapTrackerNote,
    records: Seq<JsonTraceRecord>,
    pointer: u64,
)
    ensures
        break_match(AllocatorBreakCondition::FreePtr(pointer), event, note, records) is Some <==> (
        match event {
            HeapTraceEvent::Free { ptr, .. } => ptr == pointer,
            _ => false,
        }),
        break_match(AllocatorBreakCondition::DoubleFree, event, note, records) is Some <==> note
            == HeapTrackerNote::DoubleFree,
{
}

/// A match names the condition that was met, the call that met it and the pointer of that call:
/// the one it freed or else the one it returned.
pub proof fn law_match_names_its_call(
    condition: AllocatorBreakCondition,
    event: HeapTraceEvent,
    note: HeapTrackerNote,
    records: Seq<JsonTraceRecord>,
)
    requires
        break_match(condition, event, note, records) is Some,
    ensures
        ({
            let m = break_match(condition, event, note, records)->0;
            &&& m.condition == condition
            &&& match event {
                HeapTraceEvent::Malloc { event_id, returned_ptr, .. } => m.event_id == event_id
                    && m.user_addr == Some(returned_ptr),
                HeapTraceEvent::Calloc { event_id, returned_ptr, .. } => m.event_id == event_id
                    && m.user_addr == Some(returned_ptr),
                HeapTraceEvent::Realloc { event_id, returned_ptr, .. } => m.event_id == event_id
                    && m.user_addr == Some(returned_ptr),
                HeapTraceEvent::Free { event_id, ptr, .. } => m.event_id == event_id
                    && m.user_addr == Some(ptr),
            }
            &&& match condition {
                AllocatorBreakCondition::Suspicious => true,
                AllocatorBreakCondition::DoubleFree => m.message == "possible double free"@,
                AllocatorBreakCondition::FreePtr(pointer) => m.message == "free pointer "@
                    + text::hex0x(pointer as nat),
                AllocatorBreakCondition::AllocSize(n) => m.message == "allocation size "@
                    + text::hex0x(n as nat),
            }
        }),
{
}

proof fn lemma_suspicious_kind(findings: Seq<JsonHeapScanFinding>, from: int, k: int)
    requires
        0 <= from <= k < findings.len(),
        findings[k].severity@ == "suspicious"@,
        forall|j: int| from <= j < k ==> (#[trigger] findings[j]).severity@ != "suspicious"@,
    ensures
        suspicious_kind(findings, from) == Some(findings[k].kind@),
    decreases k - from,
{
    if from < k {
        lemma_suspicious_kind(findings, from + 1, k);
    }
}

proof fn lemma_no_suspicious_kind(findings: Seq<JsonHeapScanFinding>, from: int)
    requires
        0 <= from,
        forall|j: int|
            from <= j < findings.len() ==> (#[trigger] findings[j]).severity@ != "suspicious"@,
    ensures
        suspicious_kind(findings, from) is None,
    decreases findings.len() - from,
{
    if from < findings.len() {
        lemma_no_suspicious_kind(findings, from + 1);
    }
}

proof fn lemma_some_suspicious_kind(findings: Seq<JsonHeapScanFinding>, from: int, k: int)
    requires
        0 <= from <= k < findings.len(),
        findings[k].severity@ == "suspicious"@,
    ensures
        suspicious_kind(findings, from) is Some,
    decreases k - from,
{
    if from < k {
        lemma_some_suspicious_kind(findings, from + 1, k);
    }
}

/// A record marks its event as suspicious where the word `suspicious` stands in it: as the
/// outcome of a heap scan or the severity of one of its findings, or as the outcome of the
/// checks on a free list. No other record does.
pub proof fn law_suspicious_records_say_so(record: JsonTraceRecord)
    ensures
        is_suspicious_record(record) <==> (match record {
            JsonTraceRecord::HeapScan { report, .. } => report.status@ == "suspicious"@ || exists|
                i: int,
            |
                0 <= i < report.findings@.len() && (#[trigger] report.findings@[i]).severity@
                    == "suspicious"@,
            JsonTraceRecord::UnsortedBinValidation { validation, .. } => validation.status@
                == "suspicious"@,
            JsonTraceRecord::FastbinValidation { validations, .. } => exists|i: int|
                0 <= i < validations@.len() && (#[trigger] validations@[i]).status@
                    == "suspicious"@,
            JsonTraceRecord::SmallbinValidation { validations, .. } => exists|i: int|
                0 <= i < validations@.len() && (#[trigger] validations@[i]).status@
                    == "suspicious"@,
            JsonTraceRecord::LargebinValidation { validations, .. } => exists|i: int|
                0 <= i < validations@.len() && (#[trigger] validations@[i]).status@
                    == "suspicious"@,
            JsonTraceRecord::TcacheValidation { validations, .. } => exists|i: int|
                0 <= i < validations@.len() && (#[trigger] validations@[i]).status@
                    == "suspicious"@,
            _ => false,
        }),
{
    match record {
        JsonTraceRecord::HeapScan { report, .. } => {
            let findings = report.findings@;
            if exists|i: int|
                0 <= i < findings.len() && (#[trigger] findings[i]).severity@ == "suspicious"@ {
                let k = choose|i: int|
                    0 <= i < findings.len() && (#[trigger] findings[i]).severity@ == "suspicious"@;
                lemma_some_suspicious_kind(findings, 0, k);
            } else {
                lemma_no_suspicious_kind(findings, 0);
            }
        },
        JsonTraceRecord::FastbinValidation { validations, .. } => {
            assert(forall|i: int|
                0 <= i < validations@.len() ==> (#[trigger] validations@[i]).status_text()
                    == validations@[i].status@);
        },
        JsonTraceRecord::SmallbinValidation { validations, .. } => {
            assert(forall|i: int|
                0 <= i < validations@.len() ==> (#[trigger] validations@[i]).status_text()
                    == validations@[i].status@);
        },
        JsonTraceRecord::LargebinValidation { validations, .. } => {
            assert(forall|i: int|
                0 <= i < validations@.len() ==> (#[trigger] validations@[i]).status_text()
                    == validations@[i].status@);
        },
        JsonTraceRecord::TcacheValidation { validations, .. } => {
            assert(forall|i: int|
                0 <= i < validations@.len() ==> (#[trigger] validations@[i]).status_text()
                    == validations@[i].status@);
        },
        _ => {},
    }
}

proof fn lemma_scan_reason_at(records: Seq<JsonTraceRecord>, from: int, at: int)
    requires
        0 <= from <= at < records.len(),
        records[at] is HeapScan,
        report_reason(records[at]->HeapScan_report) is Some,
        forall|j: int|
            from <= j < at && (#[trigger] records[j]) is HeapScan ==> !is_suspicious_record(
                records[j],
            ),
    ensures
        scan_reason(records, from) == report_reason(records[at]->HeapScan_report),
    decreases at - from,
{
    if from < at {
        assert(records[from] is HeapScan ==> !is_suspicious_record(records[from]));
        lemma_scan_reason_at(records, from + 1, at);
    }
}

/// A suspicious event is explained by the first suspicious finding of its first suspicious heap
/// scan, whatever its other records say.
pub proof fn law_first_suspicious_finding_is_named(
    event: HeapTraceEvent,
    note: HeapTrackerNote,
    records: Seq<JsonTraceRecord>,
    at: int,
    k: int,
)
    requires
        0 <= at < records.len(),
        records[at] is HeapScan,
        forall|j: int|
            0 <= j < at && (#[trigger] records[j]) is HeapScan ==> !is_suspicious_record(records[j]),
        0 <= k < records[at]->HeapScan_report.findings@.len(),
        records[at]->HeapScan_report.findings@[k].severity@ == "suspicious"@,
        forall|j: int|
            0 <= j < k ==> (#[trigger] records[at]->HeapScan_report.findings@[j]).severity@
                != "suspicious"@,
    ensures
        break_match(AllocatorBreakCondition::Suspicious, event, note, records) is Some,
        break_match(AllocatorBreakCondition::Suspicious, event, note, records)->0.message
            == "suspicious heap scan finding "@ + records[at]->HeapScan_report.findings@[k].kind@,
{
    lemma_suspicious_kind(records[at]->HeapScan_report.findings@, 0, k);
    lemma_scan_reason_at(records, 0, at);
}

proof fn lemma_no_scan_reason(records: Seq<JsonTraceRecord>, from: int)
    requires
        0 <= from,
        forall|j: int|
            from <= j < records.len() && (#[trigger] records[j]) is HeapScan
                ==> !is_suspicious_record(records[j]),
    ensures
        scan_reason(records, from) is None,
    decreases records.len() - from,
{
    if from < records.len() {
        assert(records[from] is HeapScan ==> !is_suspicious_record(records[from]));
        lemma_no_scan_reason(records, from + 1);
    }
}

proof fn lemma_list_reason_at(records: Seq<JsonTraceRecord>, from: int, at: int)
    requires
        0 <= from <= at < records.len(),
        suspicious_list(records[at]) is Some,
        forall|j: int| from <= j < at ==> suspicious_list(#[trigger] records[j]) is None,
    ensures
        list_reason(records, from) == Some(
            "suspicious "@ + suspicious_list(records[at])->0 + " validation"@,
        ),
    decreases at - from,
{
    if from < at {
        assert(suspicious_list(records[from]) is None);
        lemma_list_reason_at(records, from + 1, at);
    }
}

/// Where no heap scan is suspicious, the first free list whose checks came out suspicious is
/// named, by the kind of its record.
pub proof fn law_first_suspicious_list_is_named(
    event: HeapTraceEvent,
    note: HeapTrackerNote,
    records: Seq<JsonTraceRecord>,
    at: int,
)
    requires
        0 <= at < records.len(),
        records[at] !is HeapScan,
        is_suspicious_record(records[at]),
        forall|j: int| 0 <= j < at ==> !is_suspicious_record(#[trigger] records[j]),
        forall|j: int|
            0 <= j < records.len() && (#[trigger] records[j]) is HeapScan
                ==> !is_suspicious_record(records[j]),
    ensures
        break_match(AllocatorBreakCondition::Suspicious, event, note, records) is Some,
        break_match(AllocatorBreakCondition::Suspicious, event, note, records)->0.message
            == "suspicious "@ + (if records[at] is FastbinValidation {
            "fastbin"@
        } else if records[at] is UnsortedBinValidation {
            "unsorted bin"@
        } else if records[at] is SmallbinValidation {
            "smallbin"@
        } else if records[at] is LargebinValidation {
            "largebin"@
        } else {
            "tcache"@
        }) + " validation"@,
{
    assert forall|j: int| 0 <= j < at implies suspicious_list(#[trigger] records[j]) is None by {
        assert(!is_suspicious_record(records[j]));
    }
    lemma_no_scan_reason(records, 0);
    lemma_list_reason_at(records, 0, at);
}

/// A heap scan that is suspicious as a whole, with no suspicious finding, is explained by its
/// first finding, or just by itself where it has none.
pub proof fn law_marked_scan_is_named(
    event: HeapTraceEvent,
    note: HeapTrackerNote,
    records: Seq<JsonTraceRecord>,
    at: int,
)
    requires
        0 <= at < records.len(),
        records[at] is HeapScan,
        records[at]->HeapScan_report.status@ == "suspicious"@,
        forall|j: int|
            0 <= j < records[at]->HeapScan_report.findings@.len() ==> (
            #[trigger] records[at]->HeapScan_report.findings@[j]).severity@ != "suspicious"@,
        forall|j: int|
            0 <= j < at && (#[trigger] records[j]) is HeapScan ==> !is_suspicious_record(records[j]),
    ensures
        break_match(AllocatorBreakCondition::Suspicious, event, note, records) is Some,
        break_match(AllocatorBreakCondition::Suspicious, event, note, records)->0.message == (
        if records[at]->HeapScan_report.findings@.len() > 0 {
            "suspicious heap scan finding "@ + records[at]->HeapScan_report.findings@[0].kind@
        } else {
            "suspicious heap scan"@
        }),
{
    lemma_no_suspicious_kind(records[at]->HeapScan_report.findings@, 0);
    lemma_scan_reason_at(records, 0, at);
}

} // verus!
