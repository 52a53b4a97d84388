//! The trace worker: what each step of a traced target adds to the trace.

use crate::breaks;
use crate::config::{
    AllocationTraceMode, AllocatorBreakCondition, GlibcProfile, RenderConfig, RenderConfigView,
    Switch,
};
use crate::event;
use crate::event::{
    heap_event_id, print_heap_event, print_heap_explanation, HeapTraceEvent,
    HeapTrackerExplanation, HeapTrackerNote,
};
use crate::live::{LiveCommand, LiveCommandId, LiveCommandStatus, LiveTargetStatus};
use crate::live_update::{JsonSessionEnd, JsonSessionStart, LiveTraceUpdate};
use crate::print_text;
use crate::print_text::print_record;
use crate::record::{GlibcProfileSelection, JsonTraceRecord};
use crate::session;
use crate::session::{
    after_allocator_event, json_launch_metadata, json_libc_metadata, json_trace_features,
    maps_failure, plan_output, print_allocator_views_preset_status,
    print_low_confidence_profile_warning, session_end_record, AllocatorEventControl, ExecPlan,
    LibcMetadata,
};
use crate::snapshot::{
    CodeContext, ProcessMapsSnapshot, RegisterSnapshot, StackSnapshot, SymbolizedAddress,
};
use crate::text;
use crate::text::{owned, Lines};
use crate::views;
use crate::views::{
    apply_reply, next_probe, print_missing_views, Probe, ProbeView, Reply, SourceCounts,
    ViewState, ViewStateView,
};
use vstd::prelude::*;

verus! {

/// The tool that writes a trace.
#[derive(Debug, Clone, PartialEq, Eq)]
pub struct Build {
    pub version: String,
    pub arch: String,
    pub os: String,
}

/// What is known of a target when it has started.
#[derive(Debug, Clone, PartialEq, Eq)]
pub struct SessionInfo {
    pub profile_name: String,
    pub profile_selection: GlibcProfileSelection,
    pub libc: Option<LibcMetadata>,
    pub launch: ExecPlan,
    pub maps: Option<ProcessMapsSnapshot>,
    pub maps_error: Option<String>,
}

/// A traced target: how it is traced, what was learnt of its heap, and how many allocator
/// calls it made.
pub struct Worker {
    pub config: RenderConfig,
    pub program: String,
    pub args: Vec<String>,
    pub mode: AllocationTraceMode,
    pub views: ViewState,
    pub event_count: usize,
}

/// The model of a [`Worker`].
pub struct WorkerView {
    pub config: RenderConfigView,
    pub program: Seq<char>,
    pub args: Seq<Seq<char>>,
    pub mode: AllocationTraceMode,
    pub views: ViewStateView,
    pub event_count: nat,
}

impl View for Worker {
    type V = WorkerView;

    open spec fn view(&self) -> WorkerView {
        WorkerView {
            config: self.config@,
            program: self.program@,
            args: text::texts(self.args@),
            mode: self.mode,
            views: self.views@,
            event_count: self.event_count as nat,
        }
    }
}

/// A step of a traced target that the worker keeps count of.
pub enum WorkerStep {
    Observe,
    Reply { probe: ProbeView, reply: Reply },
}

impl WorkerView {
    pub open spec fn is_live(self) -> bool {
        self.config.on.contains(Switch::LiveTui)
    }

    pub open spec fn observed(self) -> WorkerView {
        WorkerView { event_count: self.event_count + 1, ..self }
    }

    pub open spec fn replied(self, probe: ProbeView, reply: Reply) -> WorkerView {
        WorkerView {
            views: views::recorded(self.config, self.views, probe, reply).state,
            ..self
        }
    }

    pub open spec fn stepped(self, step: WorkerStep) -> WorkerView {
        match step {
            WorkerStep::Observe => self.observed(),
            WorkerStep::Reply { probe, reply } => self.replied(probe, reply),
        }
    }

    /// The worker after a run of steps.
    pub open spec fn run(self, steps: Seq<WorkerStep>) -> WorkerView
        decreases steps.len(),
    {
        if steps.len() == 0 {
            self
        } else {
            self.run(steps.drop_last()).stepped(steps.last())
        }
    }
}

/// How many of the steps are allocator calls.
pub open spec fn observations(steps: Seq<WorkerStep>) -> nat
    decreases steps.len(),
{
    if steps.len() == 0 {
        0
    } else {
        observations(steps.drop_last()) + if steps.last() is Observe {
            1nat
        } else {
            0nat
        }
    }
}

/// Whether `record` is the one that a session starts with.
pub open spec fn is_session_start(
    record: JsonTraceRecord,
    worker: WorkerView,
    build: Build,
    info: SessionInfo,
) -> bool {
    match record {
        JsonTraceRecord::SessionStart {
            heapify_version,
            program,
            args,
            trace_mode,
            arch,
            os,
            glibc_profile,
            suggested_glibc_profile,
            glibc_profile_selection,
            libc,
            launch,
            allocator_views_preset,
            features,
        } => {
            &&& heapify_version@ == build.version@
            &&& program@ == worker.program
            &&& text::texts(args@) == worker.args
            &&& trace_mode@ == session::trace_mode_word(worker.mode)
            &&& arch@ == build.arch@
            &&& os@ == build.os@
            &&& glibc_profile@ == info.profile_name@
            &&& suggested_glibc_profile is None
            &&& glibc_profile_selection == Some(info.profile_selection)
            &&& match (libc, info.libc) {
                (Some(json), Some(found)) => json == session::libc_metadata(found),
                (None, None) => true,
                _ => false,
            }
            &&& launch is Some
            &&& session::is_json_launch(launch->0, info.launch)
            &&& allocator_views_preset@ == worker.config.allocator_views_preset.label()
            &&& features == session::trace_features(worker.config, worker.mode)
        },
        _ => false,
    }
}

/// Whether `updates` is what a started session reports: its first record and, on the live
/// screen, the memory maps or why there are none.
pub open spec fn are_start_updates(
    updates: Seq<LiveTraceUpdate>,
    worker: WorkerView,
    build: Build,
    info: SessionInfo,
) -> bool {
    &&& updates.len() == (if worker.is_live() && (info.maps is Some || info.maps_error is Some) {
        2int
    } else {
        1int
    })
    &&& match updates[0] {
        LiveTraceUpdate::SessionStart(start) => is_session_start(
            start.record,
            worker,
            build,
            info,
        ),
        _ => false,
    }
    &&& updates.len() == 2 ==> match (updates[1], info.maps, info.maps_error) {
        (LiveTraceUpdate::ProcessMaps { snapshot }, Some(maps), _) => snapshot == maps,
        (LiveTraceUpdate::Status { message }, None, Some(error)) => message@
            == "process maps read failed: "@ + error@,
        _ => false,
    }
}

/// A text as one block, or none.
pub open spec fn opt_text(value: Option<Seq<char>>) -> Seq<Seq<char>> {
    match value {
        Some(s) => seq![s],
        None => seq![],
    }
}

/// Whether texts give way: to the live screen all of them, to JSON records all but those that a
/// session starts with.
pub open spec fn is_quiet(update: LiveTraceUpdate, config: RenderConfigView) -> bool {
    config.on.contains(Switch::LiveTui) || (config.json_enabled() && update !is SessionStart)
}

/// What is printed of an update.
pub open spec fn update_texts(update: LiveTraceUpdate, config: RenderConfigView) -> Seq<Seq<char>> {
    if is_quiet(update, config) {
        seq![]
    } else {
        loud_texts(update, config)
    }
}

/// What is printed of an update where neither a screen nor records take its place.
pub open spec fn loud_texts(update: LiveTraceUpdate, config: RenderConfigView) -> Seq<Seq<char>> {
    match update {
        LiveTraceUpdate::SessionStart(start) => opt_text(session::preset_status(config))
            + opt_text(session::low_confidence_warning(start.record, config)),
        LiveTraceUpdate::Event { event, note, explanation, caller_symbol, .. } => seq![
            text::unlines(
                event::event_lines(
                    event,
                    caller_symbol,
                    note,
                    config.on.contains(Switch::TrackerNotes),
                    config.on.contains(Switch::Chunks),
                ),
            ),
        ] + (if config.on.contains(Switch::Explanations) {
            text::opt_line("    note: "@, event::explanation_text(explanation))
        } else {
            seq![]
        }),
        LiveTraceUpdate::RelatedRecord { record, .. } => {
            let printed = print_text::printed(record, config.max_layout_chunks);
            if config.events_only() || printed.len() == 0 {
                seq![]
            } else {
                seq![printed]
            }
        },
        _ => seq![],
    }
}

fn add_text(texts: &mut Lines, value: Option<String>)
    ensures
        final(texts)@ == old(texts)@ + opt_text(text::opt(value)),
{
    match value {
        Some(s) => {
            texts.push(s);
            assert(texts@ =~= old(texts)@ + opt_text(text::opt(value)));
        },
        None => {
            assert(texts@ =~= old(texts)@ + opt_text(text::opt(value)));
        },
    }
}

/// The texts to print of an update, in order.
pub fn print_update(update: &LiveTraceUpdate, config: &RenderConfig) -> (r: Lines)
    ensures
        r@ == update_texts(*update, config@),
{
    let mut texts = Lines::new();
    let starts = match update {
        LiveTraceUpdate::SessionStart(_) => true,
        _ => false,
    };
    if config.shows(Switch::LiveTui) || (config.json_enabled() && !starts) {
        return texts;
    }
    match update {
        LiveTraceUpdate::SessionStart(start) => {
            add_text(&mut texts, print_allocator_views_preset_status(config));
            add_text(&mut texts, print_low_confidence_profile_warning(&start.record, config));
            assert(texts@ =~= update_texts(*update, config@));
        },
        LiveTraceUpdate::Event { event, note, explanation, caller_symbol, .. } => {
            texts.push(print_heap_event(event, caller_symbol, *note, config));
            if config.shows(Switch::Explanations) {
                texts.add(print_heap_explanation(*explanation));
            }
            assert(texts@ =~= update_texts(*update, config@));
        },
        LiveTraceUpdate::RelatedRecord { record, .. } => {
            let printed = print_record(record, config.max_layout_chunks);
            if !config.events_only() && !printed.as_str().is_empty() {
                texts.push(printed);
            }
            assert(texts@ =~= update_texts(*update, config@));
        },
        _ => {},
    }
    texts
}

/// What the live screen is told of a stop, in this order.
pub open spec fn stop_updates(
    live: bool,
    event_id: Option<usize>,
    registers: RegisterSnapshot,
    stack: StackSnapshot,
    code: CodeContext,
) -> Seq<LiveTraceUpdate> {
    if live {
        seq![
            LiveTraceUpdate::RegisterSnapshot { event_id, snapshot: registers },
            LiveTraceUpdate::StackSnapshot { event_id, snapshot: stack },
            LiveTraceUpdate::CodeContext { event_id, context: code },
        ]
    } else {
        seq![]
    }
}

impl Worker {
    pub fn new(
        config: RenderConfig,
        program: String,
        args: Vec<String>,
        mode: AllocationTraceMode,
    ) -> (r: Worker)
        ensures
            r.config == config,
            r.program == program,
            r.args == args,
            r.mode == mode,
            r.views@ == views::no_views(),
            r.event_count == 0,
    {
        Worker { config, program, args, mode, views: ViewState::new(), event_count: 0 }
    }

    pub fn is_live(&self) -> (r: bool)
        ensures
            r == self@.is_live(),
    {
        self.config.shows(Switch::LiveTui)
    }

    /// What is reported when the target has started.
    pub fn start(&self, build: Build, info: SessionInfo) -> (r: Vec<LiveTraceUpdate>)
        ensures
            are_start_updates(r@, self@, build, info),
    {
        let launch = json_launch_metadata(&info.launch);
        let args = session::words_from(&self.args, 0);
        assert(text::texts(self.args@).skip(0) =~= text::texts(self.args@));
        let record = JsonTraceRecord::SessionStart {
            heapify_version: build.version,
            program: self.program.clone(),
            args,
            trace_mode: owned(self.mode.as_str()),
            arch: build.arch,
            os: build.os,
            glibc_profile: info.profile_name,
            suggested_glibc_profile: None,
            glibc_profile_selection: Some(info.profile_selection),
            libc: match info.libc {
                Some(metadata) => Some(json_libc_metadata(metadata)),
                None => None,
            },
            launch: Some(launch),
            allocator_views_preset: owned(self.config.allocator_views_preset.as_str()),
            features: json_trace_features(&self.config, self.mode),
        };
        let mut updates: Vec<LiveTraceUpdate> = Vec::new();
        updates.push(LiveTraceUpdate::SessionStart(JsonSessionStart { record }));
        if self.is_live() {
            match info.maps {
                Some(snapshot) => {
                    updates.push(LiveTraceUpdate::ProcessMaps { snapshot });
                },
                None => {
                    if let Some(error) = info.maps_error {
                        updates.push(
                            LiveTraceUpdate::Status { message: maps_failure(error.as_str()) },
                        );
                    }
                },
            }
        }
        updates
    }

    /// An allocator call: it is counted and reported.
    pub fn observe(
        &mut self,
        event: HeapTraceEvent,
        note: HeapTrackerNote,
        explanation: HeapTrackerExplanation,
        caller_symbol: Option<SymbolizedAddress>,
    ) -> (r: LiveTraceUpdate)
        requires
            old(self).event_count < usize::MAX,
        ensures
            final(self)@ == old(self)@.observed(),
            r == (LiveTraceUpdate::Event {
                event_id: event.id(),
                event,
                note,
                explanation,
                caller_symbol,
            }),
    {
        self.event_count = self.event_count + 1;
        LiveTraceUpdate::Event {
            event_id: heap_event_id(&event),
            event,
            note,
            explanation,
            caller_symbol,
        }
    }

    /// The next thing to read from the target after an allocator call, from a place in the
    /// reading order on.
    pub fn next_probe(&self, profile: GlibcProfile, from: usize) -> (r: Option<(usize, Probe)>)
        ensures
            match (r, views::next_place(self@.config, profile, self@.views, from as int)) {
                (Some((place, probe)), Some(i)) => place == i && probe@ == views::probe_for(
                    self@.config,
                    profile,
                    self@.views,
                    views::view_order()[i],
                ),
                (None, None) => true,
                _ => false,
            },
    {
        next_probe(&self.config, profile, &self.views, from)
    }

    /// The records that a reading from the target gives.
    pub fn reply(&mut self, probe: &Probe, reply: Reply) -> (r: Vec<JsonTraceRecord>)
        ensures
            final(self)@ == old(self)@.replied(probe@, reply),
            r@ == views::recorded(old(self)@.config, old(self)@.views, probe@, reply).records,
    {
        apply_reply(&self.config, &mut self.views, probe, reply)
    }

    /// What follows an allocator call once its records are known.
    pub fn finish_event(
        &self,
        event: &HeapTraceEvent,
        note: HeapTrackerNote,
        related_records: &Vec<JsonTraceRecord>,
    ) -> (r: (Option<LiveTraceUpdate>, AllocatorEventControl))
        ensures
            match (
                r.0,
                breaks::first_match(
                    self.config.break_conditions@,
                    0,
                    *event,
                    note,
                    related_records@,
                ),
            ) {
                (Some(LiveTraceUpdate::BreakMatched(found)), Some(m)) => found@ == m,
                (None, None) => true,
                _ => false,
            },
            r.1 == (if self@.is_live() && r.0 is Some {
                AllocatorEventControl::Pause
            } else {
                AllocatorEventControl::Continue
            }),
    {
        let (found, control) = after_allocator_event(
            &self.config.break_conditions,
            event,
            note,
            related_records,
            self.is_live(),
        );
        match found {
            Some(m) => (Some(LiveTraceUpdate::BreakMatched(m)), control),
            None => (None, control),
        }
    }

    /// What is reported when the target has stopped.
    pub fn stop(
        &self,
        event_id: Option<usize>,
        registers: RegisterSnapshot,
        stack: StackSnapshot,
        code: CodeContext,
    ) -> (r: Vec<LiveTraceUpdate>)
        ensures
            r@ == stop_updates(self@.is_live(), event_id, registers, stack, code),
    {
        let mut updates: Vec<LiveTraceUpdate> = Vec::new();
        if self.is_live() {
            updates.push(LiveTraceUpdate::RegisterSnapshot { event_id, snapshot: registers });
            updates.push(LiveTraceUpdate::StackSnapshot { event_id, snapshot: stack });
            updates.push(LiveTraceUpdate::CodeContext { event_id, context: code });
        }
        assert(updates@ =~= stop_updates(self@.is_live(), event_id, registers, stack, code));
        updates
    }

    /// What is reported of a command to the target.
    pub fn answer(
        &self,
        command_id: Option<LiveCommandId>,
        command: Option<LiveCommand>,
        status: LiveCommandStatus,
        target_status: LiveTargetStatus,
        message: String,
    ) -> (r: Option<LiveTraceUpdate>)
        ensures
            r == (if self@.is_live() {
                Some(
                    LiveTraceUpdate::CommandStatus {
                        command_id,
                        command,
                        status,
                        target_status,
                        message,
                    },
                )
            } else {
                None
            }),
    {
        if self.is_live() {
            Some(
                LiveTraceUpdate::CommandStatus {
                    command_id,
                    command,
                    status,
                    target_status,
                    message,
                },
            )
        } else {
            None
        }
    }

    /// What is said when the target has ended: the views that were asked for and never came,
    /// and the last record.
    pub fn end(&self, profile: GlibcProfile) -> (r: (Lines, LiveTraceUpdate))
        ensures
            r.0@ == (if self@.config.json_enabled() || self@.is_live() {
                Seq::empty()
            } else {
                views::all_missing(
                    self@.config,
                    profile,
                    self@.views,
                    views::MISSING_COUNT as nat,
                )
            }),
            match r.1 {
                LiveTraceUpdate::SessionEnd(end) => match end.record {
                    JsonTraceRecord::SessionEnd { exit_status, event_count } => exit_status@
                        == "unknown"@ && event_count == self@.event_count,
                    _ => false,
                },
                _ => false,
            },
    {
        let plan = plan_output(&self.config);
        let missing = print_missing_views(
            &self.config,
            profile,
            &self.views,
            plan.suppress_human,
        );
        let record = session_end_record(owned("unknown"), self.event_count);
        (missing, LiveTraceUpdate::SessionEnd(JsonSessionEnd { record }))
    }
}

// ---------------------------------------------------------------------------
// Laws
// ---------------------------------------------------------------------------

/// The count that a session ends with is the number of allocator calls, whatever else
/// happened between them.
pub proof fn law_events_are_counted(worker: WorkerView, steps: Seq<WorkerStep>)
    ensures
        worker.run(steps).event_count == worker.event_count + observations(steps),
    decreases steps.len(),
{
    if steps.len() > 0 {
        law_events_are_counted(worker, steps.drop_last());
    }
}

/// Nothing that happens to a target changes how it is traced.
pub proof fn law_options_stay(worker: WorkerView, steps: Seq<WorkerStep>)
    ensures
        worker.run(steps).config == worker.config,
        worker.run(steps).program == worker.program,
        worker.run(steps).args == worker.args,
        worker.run(steps).mode == worker.mode,
    decreases steps.len(),
{
    if steps.len() > 0 {
        law_options_stay(worker, steps.drop_last());
    }
}

/// What was learnt of a heap is not forgotten: a view that was shown counts as shown, and a
/// found arena as found, for the rest of the session.
pub proof fn law_knowledge_stays(worker: WorkerView, steps: Seq<WorkerStep>)
    ensures
        worker.views.arena_known ==> worker.run(steps).views.arena_known,
        worker.views.shown.subset_of(worker.run(steps).views.shown),
    decreases steps.len(),
{
    if steps.len() > 0 {
        law_knowledge_stays(worker, steps.drop_last());
        let before = worker.run(steps.drop_last());
        match steps.last() {
            WorkerStep::Observe => {},
            WorkerStep::Reply { probe, reply } => {
                views::law_knowledge_grows(before.config, before.views, probe, reply);
            },
        }
    }
}

/// The counts of the latest summary among the steps, or those of before.
pub open spec fn latest_summary(steps: Seq<WorkerStep>, before: Option<SourceCounts>) -> Option<
    SourceCounts,
>
    decreases steps.len(),
{
    if steps.len() == 0 {
        before
    } else {
        match steps.last() {
            WorkerStep::Reply { probe, reply: Reply::Warnings { summary, .. } } =>
                if probe.view is Warnings {
                    Some(summary)
                } else {
                    latest_summary(steps.drop_last(), before)
                },
            _ => latest_summary(steps.drop_last(), before),
        }
    }
}

/// At any point of a session, what the next summary is compared with is the summary before it.
pub proof fn law_summary_before_is_kept(worker: WorkerView, steps: Seq<WorkerStep>)
    ensures
        worker.run(steps).views.previous_summary == latest_summary(
            steps,
            worker.views.previous_summary,
        ),
    decreases steps.len(),
{
    if steps.len() > 0 {
        law_summary_before_is_kept(worker, steps.drop_last());
    }
}

/// The live screen and JSON records take the place of texts: with a screen nothing is printed,
/// with records on standard output nothing either, and with records in a file nothing behind
/// the start of the session.
pub proof fn law_screen_and_records_replace_texts(update: LiveTraceUpdate, config: RenderConfigView)
    ensures
        config.on.contains(Switch::LiveTui) || config.json_on_stdout() || (config.json_out is Some
            && update !is SessionStart) ==> update_texts(update, config)
            == Seq::<Seq<char>>::empty(),
{
    assert(config.json_on_stdout() ==> loud_texts(update, config) =~= Seq::<Seq<char>>::empty()
        || update !is SessionStart);
}

/// Where only events are shown, nothing but events is printed.
pub proof fn law_events_only_prints_events(update: LiveTraceUpdate, config: RenderConfigView)
    requires
        config.events_only(),
        update !is Event,
    ensures
        update_texts(update, config) == Seq::<Seq<char>>::empty(),
{
    assert(update_texts(update, config) =~= Seq::<Seq<char>>::empty());
}

/// On the live screen every call that meets a condition pauses the target: whichever
/// condition it is, one is found.
pub proof fn law_matching_call_pauses(
    conditions: Seq<AllocatorBreakCondition>,
    k: int,
    event: HeapTraceEvent,
    note: HeapTrackerNote,
    records: Seq<JsonTraceRecord>,
)
    requires
        0 <= k < conditions.len(),
        breaks::break_match(conditions[k], event, note, records) is Some,
    ensures
        breaks::first_match(conditions, 0, event, note, records) is Some,
{
    breaks::law_first_condition_wins(conditions, event, note, records);
}

} // verus!
