//! The state of the live debugger screen and how trace updates and navigation change it.

use crate::classify;
use crate::number::parse_json_addr;
use crate::number;
use crate::record::{JsonLayoutChunk, JsonTraceRecord};
use crate::search;
use crate::search::split_words;
use crate::snapshot::{CodeContext, ProcessMapsSnapshot, RegisterSnapshot, StackSnapshot};
use crate::text;
use crate::text::same;
use vstd::prelude::*;

verus! {

// ---------------------------------------------------------------------------
// Commands to the traced target
// ---------------------------------------------------------------------------

/// A command to the trace worker.
#[derive(Debug, Clone, Copy, PartialEq, Eq, Structural)]
pub enum LiveCommand {
    Stop,
    Pause,
    Resume,
    Continue,
    StepAllocatorEvent,
    StepInstruction,
    StepInstructionOver,
}

/// What became of a command.
#[derive(Debug, Clone, Copy, PartialEq, Eq, Structural)]
pub enum LiveCommandStatus {
    Accepted,
    Rejected,
    Completed,
    Failed,
}

/// What the target is doing.
#[derive(Debug, Clone, Copy, PartialEq, Eq, Structural)]
pub enum LiveTargetStatus {
    NotStarted,
    Running,
    Paused,
    SteppingToNextAllocatorEvent,
    SteppingInstruction,
    SteppingInstructionOver,
    Stopping,
    Exited,
}

/// The number of a command.
#[derive(Debug, Clone, Copy, PartialEq, Eq, Structural)]
pub struct LiveCommandId(pub u64);

/// A numbered command.
#[derive(Debug, Clone, Copy, PartialEq, Eq, Structural)]
pub struct LiveCommandMessage {
    pub id: LiveCommandId,
    pub command: LiveCommand,
}

pub open spec fn command_word(command: LiveCommand) -> Seq<char> {
    match command {
        LiveCommand::Stop => "stop"@,
        LiveCommand::Pause => "pause"@,
        LiveCommand::Resume => "resume"@,
        LiveCommand::Continue => "continue"@,
        LiveCommand::StepAllocatorEvent => "step_allocator_event"@,
        LiveCommand::StepInstruction => "step_instruction"@,
        LiveCommand::StepInstructionOver => "step_instruction_over"@,
    }
}

impl LiveCommand {
    pub fn as_str(self) -> (r: &'static str)
        ensures
            r@ == command_word(self),
    {
        match self {
            LiveCommand::Stop => "stop",
            LiveCommand::Pause => "pause",
            LiveCommand::Resume => "resume",
            LiveCommand::Continue => "continue",
            LiveCommand::StepAllocatorEvent => "step_allocator_event",
            LiveCommand::StepInstruction => "step_instruction",
            LiveCommand::StepInstructionOver => "step_instruction_over",
        }
    }
}

pub open spec fn status_word(status: LiveCommandStatus) -> Seq<char> {
    match status {
        LiveCommandStatus::Accepted => "accepted"@,
        LiveCommandStatus::Rejected => "rejected"@,
        LiveCommandStatus::Completed => "completed"@,
        LiveCommandStatus::Failed => "failed"@,
    }
}

impl LiveCommandStatus {
    pub fn as_str(self) -> (r: &'static str)
        ensures
            r@ == status_word(self),
    {
        match self {
            LiveCommandStatus::Accepted => "accepted",
            LiveCommandStatus::Rejected => "rejected",
            LiveCommandStatus::Completed => "completed",
            LiveCommandStatus::Failed => "failed",
        }
    }
}

pub open spec fn target_word(status: LiveTargetStatus) -> Seq<char> {
    match status {
        LiveTargetStatus::NotStarted => "not_started"@,
        LiveTargetStatus::Running => "running"@,
        LiveTargetStatus::Paused => "paused"@,
        LiveTargetStatus::SteppingToNextAllocatorEvent => "stepping_to_next_allocator_event"@,
        LiveTargetStatus::SteppingInstruction => "stepping_instruction"@,
        LiveTargetStatus::SteppingInstructionOver => "stepping_instruction_over"@,
        LiveTargetStatus::Stopping => "stopping"@,
        LiveTargetStatus::Exited => "exited"@,
    }
}

impl LiveTargetStatus {
    pub fn as_str(self) -> (r: &'static str)
        ensures
            r@ == target_word(self),
    {
        match self {
            LiveTargetStatus::NotStarted => "not_started",
            LiveTargetStatus::Running => "running",
            LiveTargetStatus::Paused => "paused",
            LiveTargetStatus::SteppingToNextAllocatorEvent => "stepping_to_next_allocator_event",
            LiveTargetStatus::SteppingInstruction => "stepping_instruction",
            LiveTargetStatus::SteppingInstructionOver => "stepping_instruction_over",
            LiveTargetStatus::Stopping => "stopping",
            LiveTargetStatus::Exited => "exited",
        }
    }
}

/// Which commands a target takes: a pause while it runs, a stop until it has exited, and
/// everything else while it is paused.
pub open spec fn allows(status: LiveTargetStatus, command: LiveCommand) -> bool {
    match command {
        LiveCommand::Pause => status is Running,
        LiveCommand::Stop => status !is Exited,
        _ => status is Paused,
    }
}

/// Why a command is refused.
pub open spec fn rejection(status: LiveTargetStatus, command: LiveCommand) -> Seq<char> {
    command_word(command) + " not allowed while target is "@ + target_word(status)
}

pub fn validate_live_command(status: LiveTargetStatus, command: LiveCommand) -> (r: Result<
    (),
    String,
>)
    ensures
        match r {
            Ok(_) => allows(status, command),
            Err(reason) => !allows(status, command) && reason@ == rejection(status, command),
        },
{
    let allowed = match command {
        LiveCommand::Pause => status == LiveTargetStatus::Running,
        LiveCommand::Stop => status != LiveTargetStatus::Exited,
        _ => status == LiveTargetStatus::Paused,
    };
    if allowed {
        Ok(())
    } else {
        Err(text::cat3(command.as_str(), " not allowed while target is ", status.as_str()))
    }
}

/// Why the target last stopped.
#[derive(Debug, Clone, PartialEq, Eq)]
pub enum DebuggerStopReason {
    UserPause,
    InstructionStep { from_rip: u64, to_rip: u64 },
    InstructionStepOver { from_rip: u64, to_rip: u64 },
    ProcessExit { status: String },
}

/// The model of a [`DebuggerStopReason`].
pub enum StopView {
    UserPause,
    InstructionStep { from_rip: u64, to_rip: u64 },
    InstructionStepOver { from_rip: u64, to_rip: u64 },
    ProcessExit { status: Seq<char> },
}

impl View for DebuggerStopReason {
    type V = StopView;

    open spec fn view(&self) -> StopView {
        match *self {
            DebuggerStopReason::UserPause => StopView::UserPause,
            DebuggerStopReason::InstructionStep { from_rip, to_rip } => StopView::InstructionStep {
                from_rip,
                to_rip,
            },
            DebuggerStopReason::InstructionStepOver { from_rip, to_rip } =>
                StopView::InstructionStepOver { from_rip, to_rip },
            DebuggerStopReason::ProcessExit { status } => StopView::ProcessExit { status: status@ },
        }
    }
}

/// The two addresses of a message that ends in `FROM -> TO`.
pub open spec fn stepped_addresses(message: Seq<char>) -> Option<(u64, u64)> {
    let tokens = search::words(message);
    let n = tokens.len() as int;
    if n >= 3 && tokens[n - 2] == "->"@ {
        match (
            number::auto_radix_number(tokens[n - 3]),
            number::auto_radix_number(tokens[n - 1]),
        ) {
            (Some(from), Some(to)) => Some((from, to)),
            _ => None,
        }
    } else {
        None
    }
}

fn parse_stepped_addresses(message: &str) -> (r: Option<(u64, u64)>)
    ensures
        r == stepped_addresses(message@),
{
    let tokens = split_words(message);
    assert(text::texts(tokens@) == search::words(message@));
    let n: usize = tokens.len();
    if n >= 3 && same(tokens[n - 2].as_str(), "->") {
        match (parse_json_addr(tokens[n - 3].as_str()), parse_json_addr(tokens[n - 1].as_str())) {
            (Some(from), Some(to)) => Some((from, to)),
            _ => None,
        }
    } else {
        None
    }
}

/// The stop that the outcome of a command reports, if it reports one.
pub open spec fn reported_stop(
    command: Option<LiveCommand>,
    status: LiveCommandStatus,
    message: Seq<char>,
) -> Option<StopView> {
    if status !is Completed {
        None
    } else {
        match command {
            Some(LiveCommand::Pause) => Some(StopView::UserPause),
            Some(LiveCommand::StepInstruction) => match stepped_addresses(message) {
                Some((from_rip, to_rip)) => Some(StopView::InstructionStep { from_rip, to_rip }),
                None => None,
            },
            Some(LiveCommand::StepInstructionOver) => match stepped_addresses(message) {
                Some((from_rip, to_rip)) => Some(
                    StopView::InstructionStepOver { from_rip, to_rip },
                ),
                None => None,
            },
            _ => None,
        }
    }
}

pub open spec fn opt_stop(reason: Option<DebuggerStopReason>) -> Option<StopView> {
    match reason {
        Some(r) => Some(r@),
        None => None,
    }
}

pub fn stop_reported_by(
    command: Option<LiveCommand>,
    status: LiveCommandStatus,
    message: &str,
) -> (r: Option<DebuggerStopReason>)
    ensures
        opt_stop(r) == reported_stop(command, status, message@),
{
    if status != LiveCommandStatus::Completed {
        None
    } else {
        match command {
            Some(LiveCommand::Pause) => Some(DebuggerStopReason::UserPause),
            Some(LiveCommand::StepInstruction) => match parse_stepped_addresses(message) {
                Some((from_rip, to_rip)) => Some(
                    DebuggerStopReason::InstructionStep { from_rip, to_rip },
                ),
                None => None,
            },
            Some(LiveCommand::StepInstructionOver) => match parse_stepped_addresses(message) {
                Some((from_rip, to_rip)) => Some(
                    DebuggerStopReason::InstructionStepOver { from_rip, to_rip },
                ),
                None => None,
            },
            _ => None,
        }
    }
}

// ---------------------------------------------------------------------------
// What a trace has brought so far
// ---------------------------------------------------------------------------

/// A record that belongs to an event.
#[derive(Debug, Clone, PartialEq, Eq)]
pub struct RelatedRecord {
    pub event_id: usize,
    pub record: JsonTraceRecord,
}

/// Something read from the target when it stopped, at an event or between events.
#[derive(Debug, Clone, PartialEq, Eq)]
pub struct Stop<T> {
    pub event_id: Option<usize>,
    pub value: T,
}

/// The records and snapshots of a trace, each list in order of arrival.
pub struct LiveData {
    pub events: Vec<JsonTraceRecord>,
    pub related: Vec<RelatedRecord>,
    pub session_start: Option<JsonTraceRecord>,
    pub session_end: Option<JsonTraceRecord>,
    pub registers: Vec<Stop<RegisterSnapshot>>,
    pub stacks: Vec<Stop<StackSnapshot>>,
    pub contexts: Vec<Stop<CodeContext>>,
    pub maps: Option<ProcessMapsSnapshot>,
}

/// The model of [`LiveData`].
pub struct DataView {
    pub events: Seq<JsonTraceRecord>,
    pub related: Seq<RelatedRecord>,
    pub session_start: Option<JsonTraceRecord>,
    pub session_end: Option<JsonTraceRecord>,
    pub registers: Seq<Stop<RegisterSnapshot>>,
    pub stacks: Seq<Stop<StackSnapshot>>,
    pub contexts: Seq<Stop<CodeContext>>,
    pub maps: Option<ProcessMapsSnapshot>,
}

impl View for LiveData {
    type V = DataView;

    open spec fn view(&self) -> DataView {
        DataView {
            events: self.events@,
            related: self.related@,
            session_start: self.session_start,
            session_end: self.session_end,
            registers: self.registers@,
            stacks: self.stacks@,
            contexts: self.contexts@,
            maps: self.maps,
        }
    }
}

/// The latest of a list of snapshots.
pub open spec fn latest<T>(stops: Seq<Stop<T>>) -> Option<T> {
    if stops.len() == 0 {
        None
    } else {
        Some(stops.last().value)
    }
}

/// The snapshot before the latest.
pub open spec fn previous<T>(stops: Seq<Stop<T>>) -> Option<T> {
    if stops.len() < 2 {
        None
    } else {
        Some(stops[stops.len() - 2].value)
    }
}

/// The latest snapshot of an event.
pub open spec fn stop_of_event<T>(stops: Seq<Stop<T>>, event_id: usize) -> Option<T>
    decreases stops.len(),
{
    if stops.len() == 0 {
        None
    } else if stops.last().event_id == Some(event_id) {
        Some(stops.last().value)
    } else {
        stop_of_event(stops.drop_last(), event_id)
    }
}

pub open spec fn opt_ref<T>(value: Option<&T>) -> Option<T> {
    match value {
        Some(v) => Some(*v),
        None => None,
    }
}

pub fn latest_stop<T>(stops: &Vec<Stop<T>>) -> (r: Option<&T>)
    ensures
        opt_ref(r) == latest(stops@),
{
    if stops.len() == 0 {
        None
    } else {
        Some(&stops[stops.len() - 1].value)
    }
}

pub fn previous_stop<T>(stops: &Vec<Stop<T>>) -> (r: Option<&T>)
    ensures
        opt_ref(r) == previous(stops@),
{
    if stops.len() < 2 {
        None
    } else {
        Some(&stops[stops.len() - 2].value)
    }
}

pub fn find_stop_of_event<T>(stops: &Vec<Stop<T>>, event_id: usize) -> (r: Option<&T>)
    ensures
        opt_ref(r) == stop_of_event(stops@, event_id),
{
    let mut n: usize = stops.len();
    assert(stops@.take(n as int) =~= stops@);
    while n > 0
        invariant
            n <= stops.len(),
            stop_of_event(stops@, event_id) == stop_of_event(stops@.take(n as int), event_id),
        decreases n,
    {
        proof {
            assert(stops@.take(n as int).last() == stops@[n - 1]);
            assert(stops@.take(n as int).drop_last() =~= stops@.take(n - 1));
        }
        if let Some(id) = stops[n - 1].event_id {
            if id == event_id {
                return Some(&stops[n - 1].value);
            }
        }
        n = n - 1;
    }
    None
}

/// The kinds of record of which the screen shows the latest.
#[derive(Debug, Clone, Copy, PartialEq, Eq, Structural)]
pub enum LatestKind {
    HeapLayout,
    AllocatorSummary,
    AllocatorDelta,
    AllocatorWarnings,
    HeapScan,
}

pub open spec fn is_kind(record: JsonTraceRecord, kind: LatestKind) -> bool {
    match kind {
        LatestKind::HeapLayout => record is HeapLayout,
        LatestKind::AllocatorSummary => record is AllocatorSourceSummary,
        LatestKind::AllocatorDelta => record is AllocatorSourceDelta,
        LatestKind::AllocatorWarnings => record is AllocatorWarnings,
        LatestKind::HeapScan => record is HeapScan,
    }
}

/// The latest related record of a kind.
pub open spec fn latest_record_of(related: Seq<RelatedRecord>, kind: LatestKind) -> Option<
    JsonTraceRecord,
>
    decreases related.len(),
{
    if related.len() == 0 {
        None
    } else if is_kind(related.last().record, kind) {
        Some(related.last().record)
    } else {
        latest_record_of(related.drop_last(), kind)
    }
}

/// The records of an event, in order of arrival.
pub open spec fn records_of(related: Seq<RelatedRecord>, event_id: usize) -> Seq<JsonTraceRecord>
    decreases related.len(),
{
    if related.len() == 0 {
        Seq::empty()
    } else {
        let before = records_of(related.drop_last(), event_id);
        if related.last().event_id == event_id {
            before.push(related.last().record)
        } else {
            before
        }
    }
}

fn has_kind(record: &JsonTraceRecord, kind: LatestKind) -> (r: bool)
    ensures
        r == is_kind(*record, kind),
{
    match (kind, record) {
        (LatestKind::HeapLayout, JsonTraceRecord::HeapLayout { .. }) => true,
        (LatestKind::AllocatorSummary, JsonTraceRecord::AllocatorSourceSummary { .. }) => true,
        (LatestKind::AllocatorDelta, JsonTraceRecord::AllocatorSourceDelta { .. }) => true,
        (LatestKind::AllocatorWarnings, JsonTraceRecord::AllocatorWarnings { .. }) => true,
        (LatestKind::HeapScan, JsonTraceRecord::HeapScan { .. }) => true,
        _ => false,
    }
}

impl DataView {
    pub open spec fn layout(self) -> Option<JsonTraceRecord> {
        latest_record_of(self.related, LatestKind::HeapLayout)
    }

    /// The instruction pointer at the latest stop.
    pub open spec fn rip(self) -> Option<u64> {
        match latest(self.registers) {
            Some(snapshot) => Some(snapshot.instruction_pointer),
            None => None,
        }
    }

    /// The chunks of the latest heap layout; none without one.
    pub open spec fn chunks(self) -> Seq<JsonLayoutChunk> {
        match search::layout_chunks(self.layout()) {
            Some(chunks) => chunks,
            None => Seq::empty(),
        }
    }
}

impl LiveData {
    pub fn latest_record(&self, kind: LatestKind) -> (r: Option<&JsonTraceRecord>)
        ensures
            classify::opt_record(r) == latest_record_of(self@.related, kind),
    {
        let mut n: usize = self.related.len();
        let ghost all = self.related@;
        assert(all.take(n as int) =~= all);
        while n > 0
            invariant
                n <= self.related.len(),
                all == self.related@,
                latest_record_of(all, kind) == latest_record_of(all.take(n as int), kind),
            decreases n,
        {
            proof {
                assert(all.take(n as int).last() == all[n - 1]);
                assert(all.take(n as int).drop_last() =~= all.take(n - 1));
            }
            if has_kind(&self.related[n - 1].record, kind) {
                return Some(&self.related[n - 1].record);
            }
            n = n - 1;
        }
        None
    }

    /// The records of an event.
    pub fn related_records(&self, event_id: usize) -> (r: Vec<&JsonTraceRecord>)
        ensures
            r@.len() == records_of(self@.related, event_id).len(),
            forall|i: int|
                0 <= i < r@.len() ==> *(#[trigger] r@[i]) == records_of(self@.related, event_id)[i],
    {
        let mut out: Vec<&JsonTraceRecord> = Vec::new();
        let mut i: usize = 0;
        let ghost all = self.related@;
        assert(all.take(0) =~= Seq::empty());
        while i < self.related.len()
            invariant
                i <= self.related.len(),
                all == self.related@,
                out@.len() == records_of(all.take(i as int), event_id).len(),
                forall|k: int|
                    0 <= k < out@.len() ==> *(#[trigger] out@[k]) == records_of(
                        all.take(i as int),
                        event_id,
                    )[k],
            decreases self.related.len() - i,
        {
            proof {
                assert(all.take(i + 1).last() == all[i as int]);
                assert(all.take(i + 1).drop_last() =~= all.take(i as int));
            }
            if self.related[i].event_id == event_id {
                out.push(&self.related[i].record);
            }
            i = i + 1;
        }
        assert(all.take(all.len() as int) =~= all);
        out
    }
}

} // verus!
