//! Text of whole trace records: heap scans, warnings, session data, and the
//! choice of rendering per record.

use vstd::prelude::*;
use crate::record::{
    GlibcProfileConfidence, GlibcProfileSelection, JsonAllocatorSourceMembership,
    JsonAllocatorWarning, JsonHeapScanFinding, JsonHeapScanReport, JsonLaunchMetadata,
    JsonLibcMetadata, JsonStdinMetadata, JsonTraceFeatures,
};
use crate::replay_text;
use crate::replay_text::ReplayConfig;
use crate::text;
use crate::text::{cat2, cat3, cat4, cat6, cat7, owned, same, Block, Lines};

verus! {

// ---------------------------------------------------------------------------
// Heap scan
// ---------------------------------------------------------------------------

/// What a kind of finding means, in two lines; nothing for an unknown kind.
pub open spec fn finding_explanation(kind: Seq<char>) -> Seq<Seq<char>> {
    if kind == "heap_snapshot_unavailable"@ {
        seq![
            "Heapify could not walk the heap snapshot for this event."@,
            "Enable layout or allocator views when possible to collect stronger evidence."@,
        ]
    } else if kind == "heap_snapshot_truncated"@ {
        seq![
            "Heapify stopped the heap walk at the configured chunk limit."@,
            "Findings may be incomplete beyond the walked portion of the heap."@,
        ]
    } else if kind == "allocator_source_conflict"@ {
        seq![
            "The same chunk appears in multiple allocator sources."@,
            "That can indicate stale free-list metadata or overlapping allocator views."@,
        ]
    } else if kind == "allocator_source_allocated"@ {
        seq![
            "Allocator metadata references a chunk the tracker still considers allocated."@,
            "This often points to stale free-list state or a missed allocator transition."@,
        ]
    } else if kind == "free_list_size_mismatch"@ {
        seq![
            "Free-list metadata disagrees with the chunk size metadata."@,
            "Compare the expected bin size with the actual chunk size in the finding message."@,
        ]
    } else if kind == "free_list_node_outside_heap"@ {
        seq![
            "A free-list pointer references an address outside the walked heap."@,
            "This can happen with corrupted next/fd/bk metadata or an incomplete heap view."@,
        ]
    } else if kind == "free_list_cycle"@ {
        seq![
            "A free-list traversal encountered a cycle."@,
            "Allocator lists normally terminate or follow a bounded bin structure."@,
        ]
    } else if kind == "main_arena_top_not_validated"@ {
        seq![
            "The main_arena.top candidate did not match the walked heap boundary."@,
            "Check the glibc profile and main_arena offset before treating this as corruption."@,
        ]
    } else if kind == "bin_validation_suspicious"@ {
        seq![
            "A bin-specific consistency check reported suspicious metadata."@,
            "Inspect the corresponding bin view for fd/bk, size, or chain anomalies."@,
        ]
    } else if kind == "bin_validation_incomplete"@ {
        seq![
            "A bin-specific consistency check lacked enough data to validate fully."@,
            "Enable fuller allocator views or increase traversal limits for more context."@,
        ]
    } else {
        Seq::empty()
    }
}

/// Explains a heap scan finding.
pub fn explain_heap_scan_finding(finding: &JsonHeapScanFinding) -> (r: Vec<String>)
    ensures
        text::texts(r@) == finding_explanation(finding.kind@),
{
    let kind = finding.kind.as_str();
    let mut l = Lines::new();
    if same(kind, "heap_snapshot_unavailable") {
        l.push(owned("Heapify could not walk the heap snapshot for this event."));
        l.push(
            owned("Enable layout or allocator views when possible to collect stronger evidence."),
        );
    } else if same(kind, "heap_snapshot_truncated") {
        l.push(owned("Heapify stopped the heap walk at the configured chunk limit."));
        l.push(
            owned("Findings may be incomplete beyond the walked portion of the heap."),
        );
    } else if same(kind, "allocator_source_conflict") {
        l.push(owned("The same chunk appears in multiple allocator sources."));
        l.push(
            owned("That can indicate stale free-list metadata or overlapping allocator views."),
        );
    } else if same(kind, "allocator_source_allocated") {
        l.push(owned("Allocator metadata references a chunk the tracker still considers allocated."));
        l.push(
            owned("This often points to stale free-list state or a missed allocator transition."),
        );
    } else if same(kind, "free_list_size_mismatch") {
        l.push(owned("Free-list metadata disagrees with the chunk size metadata."));
        l.push(
            owned("Compare the expected bin size with the actual chunk size in the finding message."),
        );
    } else if same(kind, "free_list_node_outside_heap") {
        l.push(owned("A free-list pointer references an address outside the walked heap."));
        l.push(
            owned("This can happen with corrupted next/fd/bk metadata or an incomplete heap view."),
        );
    } else if same(kind, "free_list_cycle") {
        l.push(owned("A free-list traversal encountered a cycle."));
        l.push(
            owned("Allocator lists normally terminate or follow a bounded bin structure."),
        );
    } else if same(kind, "main_arena_top_not_validated") {
        l.push(owned("The main_arena.top candidate did not match the walked heap boundary."));
        l.push(
            owned("Check the glibc profile and main_arena offset before treating this as corruption."),
        );
    } else if same(kind, "bin_validation_suspicious") {
        l.push(owned("A bin-specific consistency check reported suspicious metadata."));
        l.push(
            owned("Inspect the corresponding bin view for fd/bk, size, or chain anomalies."),
        );
    } else if same(kind, "bin_validation_incomplete") {
        l.push(owned("A bin-specific consistency check lacked enough data to validate fully."));
        l.push(
            owned("Enable fuller allocator views or increase traversal limits for more context."),
        );
    }
    assert(l@ =~= finding_explanation(finding.kind@));
    l.items
}

pub open spec fn addr_suffix(label: Seq<char>, addr: Option<String>) -> Seq<char> {
    match addr {
        Some(a) => label + a@,
        None => Seq::empty(),
    }
}

fn format_addr_suffix(label: &str, addr: &Option<String>) -> (r: String)
    ensures
        r@ == addr_suffix(label@, *addr),
{
    match addr {
        Some(a) => cat2(label, a.as_str()),
        None => String::new(),
    }
}

/// A finding in one line.
pub open spec fn finding_line(finding: JsonHeapScanFinding) -> Seq<char> {
    "    ["@ + finding.severity@ + "] "@ + finding.kind@ + addr_suffix(
        " chunk="@,
        finding.chunk_addr,
    ) + addr_suffix(" user="@, finding.user_addr) + ": "@ + finding.message@
}

pub fn format_finding_line(finding: &JsonHeapScanFinding) -> (r: String)
    ensures
        r@ == finding_line(*finding),
{
    let chunk = format_addr_suffix(" chunk=", &finding.chunk_addr);
    let user = format_addr_suffix(" user=", &finding.user_addr);
    cat7(
        "    [",
        finding.severity.as_str(),
        "] ",
        finding.kind.as_str(),
        chunk.as_str(),
        user.as_str(),
        ": ",
    ).concat(finding.message.as_str())
}

impl Block for JsonHeapScanFinding {
    open spec fn lines(&self) -> Seq<Seq<char>> {
        seq![finding_line(*self)] + text::prefixed("        "@, finding_explanation(self.kind@))
    }

    fn block(&self) -> (r: Lines) {
        let mut l = Lines::new();
        l.push(format_finding_line(self));
        l.add(text::format_prefixed("        ", &explain_heap_scan_finding(self)));
        l
    }
}

/// A scan found no heap to walk.
pub open spec fn snapshot_unavailable(findings: Seq<JsonHeapScanFinding>) -> bool {
    exists|i: int|
        0 <= i < findings.len() && (#[trigger] findings[i]).kind@ == "heap_snapshot_unavailable"@
}

pub open spec fn snapshot_status(report: JsonHeapScanReport) -> Seq<char> {
    if snapshot_unavailable(report.findings@) {
        "unavailable"@
    } else if report.heap_snapshot_truncated {
        "truncated"@
    } else {
        "complete"@
    }
}

fn format_snapshot_status(report: &JsonHeapScanReport) -> (r: &'static str)
    ensures
        r@ == snapshot_status(*report),
{
    let mut i: usize = 0;
    while i < report.findings.len()
        invariant
            i <= report.findings.len(),
            forall|k: int|
                0 <= k < i ==> (#[trigger] report.findings@[k]).kind@
                    != "heap_snapshot_unavailable"@,
        decreases report.findings.len() - i,
    {
        if same(report.findings[i].kind.as_str(), "heap_snapshot_unavailable") {
            assert(report.findings@[i as int].kind@ == "heap_snapshot_unavailable"@);
            return "unavailable";
        }
        i = i + 1;
    }
    assert(!snapshot_unavailable(report.findings@));
    if report.heap_snapshot_truncated {
        "truncated"
    } else {
        "complete"
    }
}

pub open spec fn top_validated_word(value: Option<bool>) -> Seq<char> {
    match value {
        Some(true) => "validated"@,
        Some(false) => "not_validated"@,
        None => "unknown"@,
    }
}

pub fn format_heap_scan_top_validated(value: Option<bool>) -> (r: &'static str)
    ensures
        r@ == top_validated_word(value),
{
    match value {
        Some(true) => "validated",
        Some(false) => "not_validated",
        None => "unknown",
    }
}

/// The counts and the outcome of a heap scan.
pub open spec fn scan_head_lines(report: JsonHeapScanReport) -> Seq<Seq<char>> {
    seq![
        "heap scan:"@,
        "    chunks walked:          "@ + text::dec(report.chunks_walked as nat),
        "    allocated observed:     "@ + text::dec(report.allocated_observed as nat),
        "    freed observed:         "@ + text::dec(report.freed_observed as nat),
        "    unknown observed:       "@ + text::dec(report.unknown_observed as nat),
        "    allocator sources:      "@ + text::dec(report.allocator_source_chunks as nat) + " chunks"@,
        "    allocator warnings:     "@ + text::dec(report.warning_count as nat),
        "    suspicious findings:    "@ + text::dec(report.suspicious_count as nat),
        "    top chunk:              "@ + top_validated_word(report.top_validated),
        "    heap snapshot:          "@ + snapshot_status(report),
        "    status:                 "@ + report.status@,
    ]
}

pub fn format_scan_head(report: &JsonHeapScanReport) -> (r: Lines)
    ensures
        r@ == scan_head_lines(*report),
{
    let mut l = Lines::one("heap scan:");
    l.push(cat2("    chunks walked:          ", text::format_dec_usize(report.chunks_walked).as_str()));
    l.push(
        cat2(
            "    allocated observed:     ",
            text::format_dec_usize(report.allocated_observed).as_str(),
        ),
    );
    l.push(
        cat2(
            "    freed observed:         ",
            text::format_dec_usize(report.freed_observed).as_str(),
        ),
    );
    l.push(
        cat2(
            "    unknown observed:       ",
            text::format_dec_usize(report.unknown_observed).as_str(),
        ),
    );
    l.push(
        cat3(
            "    allocator sources:      ",
            text::format_dec_usize(report.allocator_source_chunks).as_str(),
            " chunks",
        ),
    );
    l.push(cat2("    allocator warnings:     ", text::format_dec_usize(report.warning_count).as_str()));
    l.push(
        cat2(
            "    suspicious findings:    ",
            text::format_dec_usize(report.suspicious_count).as_str(),
        ),
    );
    l.push(
        cat2(
            "    top chunk:              ",
            format_heap_scan_top_validated(report.top_validated),
        ),
    );
    l.push(cat2("    heap snapshot:          ", format_snapshot_status(report)));
    l.push(cat2("    status:                 ", report.status.as_str()));
    l
}

pub open spec fn heap_scan_lines(report: JsonHeapScanReport) -> Seq<Seq<char>> {
    scan_head_lines(report) + (if report.findings@.len() == 0 {
        Seq::empty()
    } else {
        seq!["heap scan findings:"@] + text::blocks(report.findings@)
    })
}

pub fn format_replay_heap_scan(report: &JsonHeapScanReport, config: &ReplayConfig) -> (r: String)
    ensures
        r@ == replay_text::unless(config.events_only, heap_scan_lines(*report)),
{
    if config.events_only {
        return String::new();
    }
    let mut l = format_scan_head(report);
    if report.findings.len() > 0 {
        let mut block = Lines::one("heap scan findings:");
        block.add(text::format_blocks(&report.findings));
        l.add(block);
    }
    assert(l@ =~= heap_scan_lines(*report));
    l.unlines()
}

// ---------------------------------------------------------------------------
// Allocator sources
// ---------------------------------------------------------------------------

pub open spec fn membership_text(source: JsonAllocatorSourceMembership) -> Seq<char> {
    source.kind@ + (match source.chunk_size {
        Some(size) => "["@ + size@ + "]"@,
        None => "[unknown]"@,
    }) + (match source.index {
        Some(index) => "#"@ + text::dec(index as nat),
        None => Seq::empty(),
    })
}

impl Block for JsonAllocatorSourceMembership {
    open spec fn lines(&self) -> Seq<Seq<char>> {
        seq![membership_text(*self)]
    }

    fn block(&self) -> (r: Lines) {
        let size = match &self.chunk_size {
            Some(size) => cat3("[", size.as_str(), "]"),
            None => owned("[unknown]"),
        };
        let index = match self.index {
            Some(index) => cat2("#", text::format_dec_usize(index).as_str()),
            None => String::new(),
        };
        Lines::one(cat3(self.kind.as_str(), size.as_str(), index.as_str()).as_str())
    }
}

/// The free lists of a warning, with commas between them.
pub open spec fn warning_sources_text(sources: Seq<JsonAllocatorSourceMembership>) -> Seq<char> {
    text::join(text::blocks(sources), ","@)
}

pub fn format_json_allocator_warning_sources(
    sources: &Vec<JsonAllocatorSourceMembership>,
) -> (r: String)
    ensures
        r@ == warning_sources_text(sources@),
{
    text::format_blocks(sources).join(",")
}

impl Block for JsonAllocatorWarning {
    open spec fn lines(&self) -> Seq<Seq<char>> {
        seq![
            "    ["@ + self.kind@ + "] chunk="@ + self.chunk_addr@ + " user="@ + self.user_addr@
                + " sources="@ + warning_sources_text(self.sources@) + " message="@ + self.message@,
        ]
    }

    fn block(&self) -> (r: Lines) {
        let mut l = Lines::new();
        l.push(
            cat7(
                "    [",
                self.kind.as_str(),
                "] chunk=",
                self.chunk_addr.as_str(),
                " user=",
                self.user_addr.as_str(),
                " sources=",
            )
                .concat(format_json_allocator_warning_sources(&self.sources).as_str())
                .concat(" message=")
                .concat(self.message.as_str()),
        );
        l
    }
}

pub fn format_replay_allocator_warnings(
    warnings: &Vec<JsonAllocatorWarning>,
    config: &ReplayConfig,
) -> (r: String)
    ensures
        r@ == replay_text::titled("allocator warnings:"@, warnings@, config.hides_state()),
{
    replay_text::format_titled("allocator warnings:", warnings, config.is_hiding_state())
}

pub open spec fn source_summary_text(
    tcache: usize,
    fastbin: usize,
    unsorted: usize,
    smallbin: usize,
    largebin: usize,
    total: usize,
    warnings: usize,
) -> Seq<char> {
    "allocator source summary:\n    tcache candidates: "@ + text::dec(tcache as nat)
        + " chunks\n    fastbins:          "@ + text::dec(fastbin as nat)
        + " chunks\n    unsorted bin:      "@ + text::dec(unsorted as nat)
        + " chunks\n    smallbins:         "@ + text::dec(smallbin as nat)
        + " chunks\n    largebins:         "@ + text::dec(largebin as nat)
        + " chunks\n    total free-list:   "@ + text::dec(total as nat)
        + " chunks\n    warnings:          "@ + text::dec(warnings as nat)
}

pub fn format_replay_allocator_source_summary(
    tcache: usize,
    fastbin: usize,
    unsorted: usize,
    smallbin: usize,
    largebin: usize,
    total: usize,
    warnings: usize,
    config: &ReplayConfig,
) -> (r: String)
    ensures
        r@ == (if config.hides_state() {
            Seq::empty()
        } else {
            source_summary_text(tcache, fastbin, unsorted, smallbin, largebin, total, warnings)
        }),
{
    if config.is_hiding_state() {
        return String::new();
    }
    cat7(
        "allocator source summary:\n    tcache candidates: ",
        text::format_dec_usize(tcache).as_str(),
        " chunks\n    fastbins:          ",
        text::format_dec_usize(fastbin).as_str(),
        " chunks\n    unsorted bin:      ",
        text::format_dec_usize(unsorted).as_str(),
        " chunks\n    smallbins:         ",
    )
        .concat(text::format_dec_usize(smallbin).as_str())
        .concat(" chunks\n    largebins:         ")
        .concat(text::format_dec_usize(largebin).as_str())
        .concat(" chunks\n    total free-list:   ")
        .concat(text::format_dec_usize(total).as_str())
        .concat(" chunks\n    warnings:          ")
        .concat(text::format_dec_usize(warnings).as_str())
}

/// A change of a count: its sign and size, or the word that there is none.
pub open spec fn source_delta_text(delta: int) -> Seq<char> {
    if delta == 0 {
        "unchanged"@
    } else if delta > 0 {
        "+"@ + text::dec(delta as nat)
    } else {
        text::dec_signed(delta)
    }
}

pub fn format_allocator_source_delta(delta: isize) -> (r: String)
    ensures
        r@ == source_delta_text(delta as int),
{
    if delta == 0 {
        owned("unchanged")
    } else if delta > 0 {
        cat2("+", text::format_dec(delta as u64).as_str())
    } else {
        text::format_dec_signed(delta as i64)
    }
}

pub open spec fn source_delta_lines(
    tcache: isize,
    fastbin: isize,
    unsorted: isize,
    smallbin: isize,
    largebin: isize,
    total: isize,
    warnings: isize,
) -> Seq<char> {
    "allocator delta:\n    tcache candidates: "@ + source_delta_text(tcache as int)
        + "\n    fastbins:          "@ + source_delta_text(fastbin as int)
        + "\n    unsorted bin:      "@ + source_delta_text(unsorted as int)
        + "\n    smallbins:         "@ + source_delta_text(smallbin as int)
        + "\n    largebins:         "@ + source_delta_text(largebin as int)
        + "\n    total free-list:   "@ + source_delta_text(total as int)
        + "\n    warnings:          "@ + source_delta_text(warnings as int)
}

pub fn format_replay_allocator_source_delta(
    tcache: isize,
    fastbin: isize,
    unsorted: isize,
    smallbin: isize,
    largebin: isize,
    total: isize,
    warnings: isize,
    config: &ReplayConfig,
) -> (r: String)
    ensures
        r@ == (if config.hides_state() {
            Seq::empty()
        } else {
            source_delta_lines(tcache, fastbin, unsorted, smallbin, largebin, total, warnings)
        }),
{
    if config.is_hiding_state() {
        return String::new();
    }
    cat6(
        "allocator delta:\n    tcache candidates: ",
        format_allocator_source_delta(tcache).as_str(),
        "\n    fastbins:          ",
        format_allocator_source_delta(fastbin).as_str(),
        "\n    unsorted bin:      ",
        format_allocator_source_delta(unsorted).as_str(),
    ).concat("\n    smallbins:         ").concat(
        format_allocator_source_delta(smallbin).as_str(),
    ).concat("\n    largebins:         ").concat(
        format_allocator_source_delta(largebin).as_str(),
    ).concat("\n    total free-list:   ").concat(
        format_allocator_source_delta(total).as_str(),
    ).concat("\n    warnings:          ").concat(
        format_allocator_source_delta(warnings).as_str(),
    )
}

// ---------------------------------------------------------------------------
// Session data
// ---------------------------------------------------------------------------

pub open spec fn confidence_word(confidence: GlibcProfileConfidence) -> Seq<char> {
    match confidence {
        GlibcProfileConfidence::High => "high"@,
        GlibcProfileConfidence::Medium => "medium"@,
        GlibcProfileConfidence::Low => "low"@,
    }
}

pub fn format_glibc_profile_confidence(confidence: GlibcProfileConfidence) -> (r: &'static str)
    ensures
        r@ == confidence_word(confidence),
{
    match confidence {
        GlibcProfileConfidence::High => "high",
        GlibcProfileConfidence::Medium => "medium",
        GlibcProfileConfidence::Low => "low",
    }
}

pub open spec fn low_confidence_text() -> Seq<char> {
    "glibc profile confidence is low; profile-backed arena/bin views may be inaccurate"@
}

pub fn low_confidence_profile_warning() -> (r: &'static str)
    ensures
        r@ == low_confidence_text(),
{
    "glibc profile confidence is low; profile-backed arena/bin views may be inaccurate"
}

pub open spec fn feature_names(f: JsonTraceFeatures) -> Seq<Seq<char>> {
    text::when(f.layout, "layout"@) + text::when(f.tcache_candidates, "tcache_candidates"@)
        + text::when(f.tcache_struct, "tcache_struct"@) + text::when(
        f.libc_symbols,
        "libc_symbols"@,
    )
}

/// The names of the features that are on, with commas between them.
pub open spec fn features_text(f: JsonTraceFeatures) -> Seq<char> {
    if feature_names(f).len() == 0 { "none"@ } else { text::join(feature_names(f), ","@) }
}

pub fn format_replay_features(f: &JsonTraceFeatures) -> (r: String)
    ensures
        r@ == features_text(*f),
{
    let mut l = Lines::new();
    l.add_when(f.layout, "layout");
    l.add_when(f.tcache_candidates, "tcache_candidates");
    l.add_when(f.tcache_struct, "tcache_struct");
    l.add_when(f.libc_symbols, "libc_symbols");
    assert(l@ =~= feature_names(*f));
    if l.items.len() == 0 {
        owned("none")
    } else {
        l.join(",")
    }
}

/// The libc lines that only some sessions have.
pub open spec fn supplied_libc_lines(libc: Option<JsonLibcMetadata>) -> Seq<Seq<char>> {
    match libc {
        Some(l) => text::opt_line("    supplied libc: "@, text::opt(l.supplied_path)) + text::when(
            l.paths_match == Some(false),
            "    warning: supplied libc differs from loaded libc; symbol offsets may be wrong"@,
        ),
        None => Seq::empty(),
    }
}

fn replay_supplied_libc(libc: &Option<JsonLibcMetadata>) -> (r: Lines)
    ensures
        r@ == supplied_libc_lines(*libc),
{
    match libc {
        Some(meta) => {
            let mut l = Lines::new();
            l.add_opt("    supplied libc: ", &meta.supplied_path);
            let differs = match meta.paths_match {
                Some(matching) => !matching,
                None => false,
            };
            l.add_when(
                differs,
                "    warning: supplied libc differs from loaded libc; symbol offsets may be wrong",
            );
            assert(l@ =~= supplied_libc_lines(*libc));
            l
        },
        None => Lines::new(),
    }
}

pub open spec fn stdin_lines(stdin: JsonStdinMetadata) -> Seq<Seq<char>> {
    if stdin.kind@ == "inherit"@ {
        Seq::empty()
    } else if stdin.kind@ == "file"@ {
        seq!["    stdin: file "@ + text::or_word(stdin.path, "unknown"@)]
    } else if stdin.kind@ == "text"@ {
        seq![
            "    stdin: text "@ + text::dec(
                (match stdin.bytes {
                    Some(n) => n,
                    None => 0,
                }) as nat,
            ) + " bytes"@,
        ]
    } else {
        seq!["    stdin: "@ + stdin.kind@]
    }
}

fn replay_stdin(stdin: &JsonStdinMetadata) -> (r: Lines)
    ensures
        r@ == stdin_lines(*stdin),
{
    if same(stdin.kind.as_str(), "inherit") {
        Lines::new()
    } else if same(stdin.kind.as_str(), "file") {
        Lines::one(cat2("    stdin: file ", text::str_or(&stdin.path, "unknown")).as_str())
    } else if same(stdin.kind.as_str(), "text") {
        let bytes: usize = match stdin.bytes {
            Some(n) => n,
            None => 0,
        };
        Lines::one(cat3("    stdin: text ", text::format_dec_usize(bytes).as_str(), " bytes").as_str())
    } else {
        Lines::one(cat2("    stdin: ", stdin.kind.as_str()).as_str())
    }
}

pub open spec fn env_lines(launch: JsonLaunchMetadata) -> Seq<Seq<char>> {
    if !launch.clear_env && launch.set_env@.len() == 0 && launch.unset_env@.len() == 0 {
        Seq::empty()
    } else {
        seq![
            "    env: clear="@ + text::true_false(launch.clear_env) + " set="@
                + text::dec(launch.set_env@.len() as nat) + " unset="@
                + text::dec(launch.unset_env@.len() as nat),
        ] + text::when(
            launch.set_env@.len() > 0,
            "    env set: "@ + text::join(text::texts(launch.set_env@), ", "@),
        ) + text::when(
            launch.unset_env@.len() > 0,
            "    env unset: "@ + text::join(text::texts(launch.unset_env@), ", "@),
        )
    }
}

fn replay_env(launch: &JsonLaunchMetadata) -> (r: Lines)
    ensures
        r@ == env_lines(*launch),
{
    if !launch.clear_env && launch.set_env.len() == 0 && launch.unset_env.len() == 0 {
        return Lines::new();
    }
    let mut l = Lines::new();
    l.push(
        cat6(
            "    env: clear=",
            text::format_bool(launch.clear_env),
            " set=",
            text::format_dec_usize(launch.set_env.len()).as_str(),
            " unset=",
            text::format_dec_usize(launch.unset_env.len()).as_str(),
        ),
    );
    l.add_when(
        launch.set_env.len() > 0,
        cat2("    env set: ", text::format_join(&launch.set_env, ", ").as_str()).as_str(),
    );
    l.add_when(
        launch.unset_env.len() > 0,
        cat2("    env unset: ", text::format_join(&launch.unset_env, ", ").as_str()).as_str(),
    );
    l
}

/// How the target was started.
pub open spec fn launch_lines(launch: Option<JsonLaunchMetadata>) -> Seq<Seq<char>> {
    match launch {
        Some(m) => seq!["    launch mode: "@ + m.mode@] + text::opt_line(
            "    cwd: "@,
            text::opt(m.cwd),
        ) + text::opt_line("    loader: "@, text::opt(m.loader)) + text::opt_line(
            "    library path: "@,
            text::opt(m.library_path),
        ) + text::opt_line("    preload: "@, text::opt(m.preload)) + stdin_lines(m.stdin)
            + env_lines(m),
        None => Seq::empty(),
    }
}

fn replay_launch(launch: &Option<JsonLaunchMetadata>) -> (r: Lines)
    ensures
        r@ == launch_lines(*launch),
{
    match launch {
        Some(m) => {
            let mut l = Lines::new();
            l.push(cat2("    launch mode: ", m.mode.as_str()));
            l.add_opt("    cwd: ", &m.cwd);
            l.add_opt("    loader: ", &m.loader);
            l.add_opt("    library path: ", &m.library_path);
            l.add_opt("    preload: ", &m.preload);
            l.add(replay_stdin(&m.stdin));
            l.add(replay_env(m));
            l
        },
        None => Lines::new(),
    }
}

/// How the session came to its glibc profile.
pub open spec fn selection_lines(
    selection: Option<GlibcProfileSelection>,
    preset: Seq<char>,
) -> Seq<Seq<char>> {
    match selection {
        Some(s) => seq![
            "    glibc profile selection:"@,
            "        requested: "@ + s.requested@,
            "        selected: "@ + s.selected@,
        ] + text::opt_line("        detected version: "@, text::opt(s.detected_version))
            + text::opt_line("        detected libc: "@, text::opt(s.detected_libc_path))
            + text::opt_line("        supplied libc: "@, text::opt(s.supplied_libc_path)) + seq![
            "        confidence: "@ + confidence_word(s.confidence),
            "        reason: "@ + s.reason@,
        ] + text::prefixed("        warning: "@, text::texts(s.warnings@)) + text::when(
            s.confidence is Low && preset == "full"@,
            "        warning: "@ + low_confidence_text(),
        ),
        None => Seq::empty(),
    }
}

fn replay_selection(selection: &Option<GlibcProfileSelection>, preset: &str) -> (r: Lines)
    ensures
        r@ == selection_lines(*selection, preset@),
{
    match selection {
        Some(s) => {
            let mut l = Lines::one("    glibc profile selection:");
            l.push(cat2("        requested: ", s.requested.as_str()));
            l.push(cat2("        selected: ", s.selected.as_str()));
            l.add_opt("        detected version: ", &s.detected_version);
            l.add_opt("        detected libc: ", &s.detected_libc_path);
            l.add_opt("        supplied libc: ", &s.supplied_libc_path);
            l.push(cat2("        confidence: ", format_glibc_profile_confidence(s.confidence)));
            l.push(cat2("        reason: ", s.reason.as_str()));
            l.add(text::format_prefixed("        warning: ", &s.warnings));
            let low = match s.confidence {
                GlibcProfileConfidence::Low => true,
                _ => false,
            };
            l.add_when(
                low && same(preset, "full"),
                cat2("        warning: ", low_confidence_profile_warning()).as_str(),
            );
            assert(l@ =~= selection_lines(*selection, preset@));
            l
        },
        None => Lines::new(),
    }
}

pub open spec fn known_libc_path(libc: Option<JsonLibcMetadata>) -> Seq<char> {
    match libc {
        Some(l) => text::or_word(l.path, "unknown"@),
        None => "unknown"@,
    }
}

pub open spec fn known_glibc_version(libc: Option<JsonLibcMetadata>) -> Seq<char> {
    match libc {
        Some(l) => text::or_word(l.version, "unknown"@),
        None => "unknown"@,
    }
}

/// The lines that every session has.
pub open spec fn session_head_lines(
    heapify_version: Seq<char>,
    program: Seq<char>,
    trace_mode: Seq<char>,
    glibc_profile: Seq<char>,
    libc: Option<JsonLibcMetadata>,
) -> Seq<Seq<char>> {
    seq![
        "session:"@,
        "    program: "@ + program,
        "    mode: "@ + trace_mode,
        "    heapify: "@ + heapify_version,
        "    libc: "@ + known_libc_path(libc),
        "    glibc version: "@ + known_glibc_version(libc),
        "    glibc profile: "@ + (if glibc_profile.len() == 0 {
            "unknown"@
        } else {
            glibc_profile
        }),
    ]
}

fn replay_session_head(
    heapify_version: &str,
    program: &str,
    trace_mode: &str,
    glibc_profile: &str,
    libc: &Option<JsonLibcMetadata>,
) -> (r: Lines)
    ensures
        r@ == session_head_lines(heapify_version@, program@, trace_mode@, glibc_profile@, *libc),
{
    let libc_path = match libc {
        Some(l) => text::str_or(&l.path, "unknown"),
        None => "unknown",
    };
    let glibc_version = match libc {
        Some(l) => text::str_or(&l.version, "unknown"),
        None => "unknown",
    };
    let profile = if glibc_profile.is_empty() {
        "unknown"
    } else {
        glibc_profile
    };
    let mut l = Lines::one("session:");
    l.push(cat2("    program: ", program));
    l.push(cat2("    mode: ", trace_mode));
    l.push(cat2("    heapify: ", heapify_version));
    l.push(cat2("    libc: ", libc_path));
    l.push(cat2("    glibc version: ", glibc_version));
    l.push(cat2("    glibc profile: ", profile));
    l
}

/// The data of a session: program and libc, how it was started, how its glibc
/// profile was found, and what it shows.
pub open spec fn session_start_lines(
    heapify_version: Seq<char>,
    program: Seq<char>,
    trace_mode: Seq<char>,
    glibc_profile: Seq<char>,
    suggested_glibc_profile: Option<String>,
    glibc_profile_selection: Option<GlibcProfileSelection>,
    libc: Option<JsonLibcMetadata>,
    launch: Option<JsonLaunchMetadata>,
    allocator_views_preset: Seq<char>,
    features: JsonTraceFeatures,
    show_profile_details: bool,
) -> Seq<Seq<char>> {
    session_head_lines(heapify_version, program, trace_mode, glibc_profile, libc)
        + supplied_libc_lines(libc) + launch_lines(launch) + text::opt_line(
        "    suggested glibc profile: "@,
        text::opt(suggested_glibc_profile),
    ) + (if show_profile_details {
        selection_lines(glibc_profile_selection, allocator_views_preset)
    } else {
        Seq::empty()
    }) + text::when(
        allocator_views_preset != "none"@,
        "    allocator views preset: "@ + allocator_views_preset,
    ) + seq!["    features: "@ + features_text(features)]
}

pub fn format_replay_session_start(
    heapify_version: &str,
    program: &str,
    trace_mode: &str,
    glibc_profile: &str,
    suggested_glibc_profile: &Option<String>,
    glibc_profile_selection: &Option<GlibcProfileSelection>,
    libc: &Option<JsonLibcMetadata>,
    launch: &Option<JsonLaunchMetadata>,
    allocator_views_preset: &str,
    features: &JsonTraceFeatures,
    show_profile_details: bool,
) -> (r: String)
    ensures
        r@ == text::unlines(
            session_start_lines(
                heapify_version@,
                program@,
                trace_mode@,
                glibc_profile@,
                *suggested_glibc_profile,
                *glibc_profile_selection,
                *libc,
                *launch,
                allocator_views_preset@,
                *features,
                show_profile_details,
            ),
        ),
{
    let mut l = replay_session_head(heapify_version, program, trace_mode, glibc_profile, libc);
    l.add(replay_supplied_libc(libc));
    l.add(replay_launch(launch));
    l.add_opt("    suggested glibc profile: ", suggested_glibc_profile);
    l.add(
        if show_profile_details {
            replay_selection(glibc_profile_selection, allocator_views_preset)
        } else {
            Lines::new()
        },
    );
    l.add_when(
        !same(allocator_views_preset, "none"),
        cat2("    allocator views preset: ", allocator_views_preset).as_str(),
    );
    l.add(Lines::one(cat2("    features: ", format_replay_features(features).as_str()).as_str()));
    l.unlines()
}

pub open spec fn session_end_text(exit_status: Seq<char>, event_count: usize) -> Seq<char> {
    "session end:\n    exit_status: "@ + exit_status + "\n    event_count: "@ + text::dec(
        event_count as nat,
    )
}

pub fn format_replay_session_end(exit_status: &str, event_count: usize) -> (r: String)
    ensures
        r@ == session_end_text(exit_status@, event_count),
{
    cat4(
        "session end:\n    exit_status: ",
        exit_status,
        "\n    event_count: ",
        text::format_dec_usize(event_count).as_str(),
    )
}

} // verus!
