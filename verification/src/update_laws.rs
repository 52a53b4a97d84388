//! What the words of the console stand for, and what the screen takes over from the trace.

use crate::live::{
    LiveCommand, LiveCommandId, LiveCommandStatus, LiveTargetStatus, RelatedRecord, Stop,
    StopView,
};
use crate::live_app;
use crate::live_app::AppView;
use crate::live_keys;
use crate::live_keys::KeyAction;
use crate::live_laws::{focused, least, most, selects};
use crate::live_update::{LiveTraceUpdate, JsonSessionEnd, JsonSessionStart};
use crate::number;
use crate::panes::{LiveDebuggerPane, LiveRightTab};
use crate::record::JsonTraceRecord;
use crate::search;
use crate::search::{CommandView, HeapSearchQuery};
use crate::snapshot::{
    CodeContext, DisassemblyLine, ProcessMapsSnapshot, RegisterSnapshot,
};
use crate::text;
use vstd::prelude::*;

verus! {

// ---------------------------------------------------------------------------
// Words of the console
// ---------------------------------------------------------------------------

proof fn lemma_solid_tail(word: Seq<char>)
    requires
        word.len() > 1,
        search::solid(word),
    ensures
        search::solid(word.skip(1)),
{
    assert forall|k: int| 0 <= k < word.skip(1).len() implies !search::is_space(
        #[trigger] word.skip(1)[k],
    ) by {
        assert(!search::is_space(word[k + 1]));
    }
}

proof fn lemma_solid_len(word: Seq<char>)
    requires
        search::solid(word),
    ensures
        search::word_len(word) == word.len(),
    decreases word.len(),
{
    assert(!search::is_space(word[0]));
    if word.len() > 1 {
        lemma_solid_tail(word);
        lemma_solid_len(word.skip(1));
    } else {
        assert(search::word_len(word.skip(1)) == 0);
    }
}

/// A text without white space is one word and has nothing to trim.
proof fn lemma_solid(word: Seq<char>)
    requires
        search::solid(word),
    ensures
        search::words(word) == seq![word],
        search::trimmed(word) == word,
{
    lemma_solid_len(word);
    assert(!search::is_space(word[0]));
    assert(!search::is_space(word[word.len() - 1]));
    assert(word.take(word.len() as int) =~= word);
    assert(word.skip(word.len() as int) =~= Seq::empty());
    assert(search::words(Seq::<char>::empty()) =~= Seq::empty());
    assert(search::words(word) =~= seq![word]);
}

/// Each command of the console has its words, and no other word is that command.
pub proof fn law_console_words(word: Seq<char>)
    requires
        search::solid(word),
    ensures
        search::command_of(word) == CommandView::Help <==> (word == "help"@ || word == "h"@ || word == "?"@),
        search::command_of(word) == CommandView::Continue <==> (word == "continue"@ || word == "c"@ || word == "run"@),
        search::command_of(word) == CommandView::Pause <==> (word == "pause"@ || word == "p"@),
        search::command_of(word) == CommandView::Resume <==> (word == "resume"@ || word == "r"@),
        search::command_of(word) == CommandView::StepInstruction <==> (word == "stepi"@ || word == "si"@ || word == "step"@),
        search::command_of(word) == CommandView::StepInstructionOver <==> (word == "nexti"@ || word == "ni"@),
        search::command_of(word) == CommandView::NextAllocatorEvent <==> (word == "next"@ || word == "n"@ || word == "next-alloc"@ || word == "next_allocator_event"@),
        search::command_of(word) == CommandView::Stop <==> (word == "stop"@ || word == "quit"@ || word == "q"@),
        search::command_of(word) == CommandView::Registers <==> (word == "regs"@ || word == "registers"@),
        search::command_of(word) == CommandView::Disassemble <==> (word == "disas"@ || word == "disassemble"@),
        search::command_of(word) == CommandView::Stack <==> (word == "stack"@),
        search::command_of(word) == CommandView::Maps <==> (word == "maps"@),
{
    lemma_solid(word);
    assert(seq![word].skip(1) =~= Seq::<Seq<char>>::empty());
    reveal_strlit("help");
    reveal_strlit("h");
    reveal_strlit("?");
    reveal_strlit("continue");
    reveal_strlit("c");
    reveal_strlit("run");
    reveal_strlit("pause");
    reveal_strlit("p");
    reveal_strlit("resume");
    reveal_strlit("r");
    reveal_strlit("stepi");
    reveal_strlit("si");
    reveal_strlit("step");
    reveal_strlit("nexti");
    reveal_strlit("ni");
    reveal_strlit("next");
    reveal_strlit("n");
    reveal_strlit("next-alloc");
    reveal_strlit("next_allocator_event");
    reveal_strlit("stop");
    reveal_strlit("quit");
    reveal_strlit("q");
    reveal_strlit("regs");
    reveal_strlit("registers");
    reveal_strlit("disas");
    reveal_strlit("disassemble");
    reveal_strlit("stack");
    reveal_strlit("maps");
    reveal_strlit("heap");
    reveal_strlit("jump");
    reveal_strlit("tab");
    assert("help"@.len() == 4);
    assert("h"@.len() == 1);
    assert("?"@.len() == 1);
    assert("continue"@.len() == 8);
    assert("c"@.len() == 1);
    assert("run"@.len() == 3);
    assert("pause"@.len() == 5);
    assert("p"@.len() == 1);
    assert("resume"@.len() == 6);
    assert("r"@.len() == 1);
    assert("stepi"@.len() == 5);
    assert("si"@.len() == 2);
    assert("step"@.len() == 4);
    assert("nexti"@.len() == 5);
    assert("ni"@.len() == 2);
    assert("next"@.len() == 4);
    assert("n"@.len() == 1);
    assert("next-alloc"@.len() == 10);
    assert("next_allocator_event"@.len() == 20);
    assert("stop"@.len() == 4);
    assert("quit"@.len() == 4);
    assert("q"@.len() == 1);
    assert("regs"@.len() == 4);
    assert("registers"@.len() == 9);
    assert("disas"@.len() == 5);
    assert("disassemble"@.len() == 11);
    assert("stack"@.len() == 5);
    assert("maps"@.len() == 4);
    assert("heap"@.len() == 4);
    assert("jump"@.len() == 4);
    assert("tab"@.len() == 3);
    assert("?"@[0] == '?');
    assert("h"@[0] == 'h');
    assert("c"@[0] == 'c');
    assert("p"@[0] == 'p');
    assert("r"@[0] == 'r');
    assert("stepi"@[0] == 's');
    assert("pause"@[0] == 'p');
    assert("step"@[0] == 's');
    assert("help"@[0] == 'h');
    assert("nexti"@[0] == 'n');
    assert("ni"@[0] == 'n');
    assert("si"@[0] == 's');
    assert("next"@[0] == 'n');
    assert("n"@[0] == 'n');
    assert("stop"@[0] == 's');
    assert("stop"@[2] == 'o');
    assert("step"@[2] == 'e');
    assert("quit"@[0] == 'q');
    assert("q"@[0] == 'q');
    assert("regs"@[0] == 'r');
    assert("disas"@[0] == 'd');
    assert("stack"@[0] == 's');
    assert("stack"@[2] == 'a');
    assert("stepi"@[2] == 'e');
    assert("maps"@[0] == 'm');
    assert("heap"@[2] == 'a');
    assert("help"@[2] == 'l');
    assert("heap"@[0] == 'h');
    assert("jump"@[0] == 'j');
    assert("tab"@[0] == 't');
    assert("run"@[0] == 'r');
}

/// `tab` and the name of a tab open that tab; a name that is none is no command.
pub proof fn law_tab_words(line: Seq<char>, name: Seq<char>)
    requires
        search::words(search::trimmed(line)) == seq!["tab"@, name],
    ensures
        name == "heap"@ ==> search::command_of(line) == CommandView::SelectRightTab(
            LiveRightTab::Heap,
        ),
        name == "stack"@ ==> search::command_of(line) == CommandView::SelectRightTab(
            LiveRightTab::Stack,
        ),
        name == "logs"@ ==> search::command_of(line) == CommandView::SelectRightTab(
            LiveRightTab::Logs,
        ),
        name == "maps"@ ==> search::command_of(line) == CommandView::SelectRightTab(
            LiveRightTab::Maps,
        ),
        name != "heap"@ && name != "stack"@ && name != "logs"@ && name != "maps"@
            ==> search::command_of(line) == CommandView::Unknown(search::trimmed(line)),
{
    reveal_strlit("tab");
    reveal_strlit("heap");
    reveal_strlit("jump");
    reveal_strlit("stack");
    reveal_strlit("logs");
    reveal_strlit("maps");
    assert("tab"@.len() == 3);
    assert("heap"@.len() == 4);
    assert("jump"@.len() == 4);
    assert("stack"@.len() == 5);
    assert("logs"@.len() == 4);
    assert("maps"@.len() == 4);
    assert("jump"@[0] == 'j');
    assert("heap"@[0] == 'h');
    assert("logs"@[0] == 'l');
    assert("maps"@[0] == 'm');
}

/// `heap` and `jump` take the words behind them as a search, and are no command where these are
/// none.
pub proof fn law_jump_words(line: Seq<char>, query: Seq<Seq<char>>)
    requires
        search::words(search::trimmed(line)) == seq!["heap"@] + query || search::words(
            search::trimmed(line),
        ) == seq!["jump"@] + query,
    ensures
        match search::query_of(query) {
            Ok(q) => search::command_of(line) == CommandView::HeapJump(q),
            Err(_) => search::command_of(line) == CommandView::Unknown(search::trimmed(line)),
        },
{
    assert((seq!["heap"@] + query).skip(1) =~= query);
    assert((seq!["jump"@] + query).skip(1) =~= query);
}

/// A search is a number, for any address, or a mode and a number; each mode has its letter and
/// its word.
pub proof fn law_search_words(mode: Seq<char>, value: Seq<char>, n: u64)
    requires
        number::search_number(value) == Some(n),
    ensures
        search::query_of(seq![value]) == Ok::<HeapSearchQuery, Seq<char>>(
            HeapSearchQuery::AnyAddress(n),
        ),
        mode == "a"@ || mode == "any"@ ==> search::query_of(seq![mode, value]) == Ok::<
            HeapSearchQuery,
            Seq<char>,
        >(HeapSearchQuery::AnyAddress(n)),
        mode == "u"@ || mode == "user"@ ==> search::query_of(seq![mode, value]) == Ok::<
            HeapSearchQuery,
            Seq<char>,
        >(HeapSearchQuery::UserAddress(n)),
        mode == "c"@ || mode == "chunk"@ ==> search::query_of(seq![mode, value]) == Ok::<
            HeapSearchQuery,
            Seq<char>,
        >(HeapSearchQuery::ChunkAddress(n)),
        mode == "s"@ || mode == "size"@ ==> search::query_of(seq![mode, value]) == Ok::<
            HeapSearchQuery,
            Seq<char>,
        >(HeapSearchQuery::Size(n)),
        mode != "a"@ && mode != "any"@ && mode != "u"@ && mode != "user"@ && mode != "c"@ && mode
            != "chunk"@ && mode != "s"@ && mode != "size"@ ==> search::query_of(seq![mode, value])
            == Err::<HeapSearchQuery, Seq<char>>("bad heap jump mode: "@ + mode),
{
    reveal_strlit("a");
    reveal_strlit("any");
    reveal_strlit("u");
    reveal_strlit("user");
    reveal_strlit("c");
    reveal_strlit("chunk");
    reveal_strlit("s");
    reveal_strlit("size");
    assert("a"@.len() == 1);
    assert("any"@.len() == 3);
    assert("u"@.len() == 1);
    assert("user"@.len() == 4);
    assert("c"@.len() == 1);
    assert("chunk"@.len() == 5);
    assert("s"@.len() == 1);
    assert("size"@.len() == 4);
    assert("u"@[0] == 'u');
    assert("a"@[0] == 'a');
    assert("c"@[0] == 'c');
    assert("s"@[0] == 's');
    assert("size"@[0] == 's');
    assert("user"@[0] == 'u');
}

/// A search that cannot be read says why: nothing to look for, a number that is none, or too
/// many words.
pub proof fn law_bad_searches(value: Seq<char>, tokens: Seq<Seq<char>>)
    requires
        number::search_number(value) is None,
    ensures
        search::query_of(Seq::empty()) == Err::<HeapSearchQuery, Seq<char>>(
            "empty heap jump query"@,
        ),
        search::query_of(seq![value]) == Err::<HeapSearchQuery, Seq<char>>(
            "bad heap jump number: "@ + (if value.len() == 0 { "empty"@ } else { value }),
        ),
        tokens.len() > 2 ==> search::query_of(tokens) == Err::<HeapSearchQuery, Seq<char>>(
            "too many tokens in heap jump query"@,
        ),
{
}

// ---------------------------------------------------------------------------
// Commands of the console
// ---------------------------------------------------------------------------

/// Whether a command was typed: sent under the next number where the target takes it, and
/// otherwise refused with a word in the log.
pub open spec fn typed(
    before: AppView,
    after: AppView,
    action: KeyAction,
    command: LiveCommand,
) -> bool {
    let takes = if command == LiveCommand::Pause {
        before.control.target_status == LiveTargetStatus::Running
    } else if command == LiveCommand::Stop {
        before.control.target_status != LiveTargetStatus::Exited
    } else {
        before.control.target_status == LiveTargetStatus::Paused
    };
    &&& after.control.last_command == Some(command)
    &&& after.panes == before.panes
    &&& after.console == before.console
    &&& takes ==> (action matches KeyAction::Send { message, from_console } && message.command
        == command && message.id == LiveCommandId(before.control.next_command_id) && from_console
        && after.logs == before.logs)
    &&& !takes ==> action == KeyAction::Stay && after.control.last_command_status == Some(
        LiveCommandStatus::Rejected,
    ) && after.logs.len() > 0 && after.logs.last() == after.control.status_line
}

/// The commands of the console that steer the target ask for the command of their name; once the
/// session is over `stop` leaves the screen.
pub proof fn law_console_steers(
    app: AppView,
    line: Seq<char>,
    input_closed: bool,
    word: CommandView,
    command: LiveCommand,
)
    requires
        ({
            ||| word == CommandView::Continue && command == LiveCommand::Continue
            ||| word == CommandView::Pause && command == LiveCommand::Pause
            ||| word == CommandView::Resume && command == LiveCommand::Resume
            ||| word == CommandView::NextAllocatorEvent && command
                == LiveCommand::StepAllocatorEvent
            ||| word == CommandView::StepInstruction && command == LiveCommand::StepInstruction
            ||| word == CommandView::StepInstructionOver && command
                == LiveCommand::StepInstructionOver
            ||| word == CommandView::Stop && command == LiveCommand::Stop && app.data.session_end
                is None && !input_closed
        }),
    ensures
        ({
            let step = live_keys::console_step(app, word, line, input_closed);
            typed(app, step.app, step.action, command)
        }),
        app.data.session_end is Some || input_closed ==> live_keys::console_step(
            app,
            CommandView::Stop,
            line,
            input_closed,
        ).action == KeyAction::Leave,
{
}

/// The commands of the console that show something give the focus to it.
pub proof fn law_console_shows(
    app: AppView,
    line: Seq<char>,
    input_closed: bool,
    tab: LiveRightTab,
)
    ensures
        focused(
            app,
            live_keys::console_step(app, CommandView::Registers, line, input_closed).app,
            LiveDebuggerPane::Registers,
            app.panes.active_right_tab,
        ),
        focused(
            app,
            live_keys::console_step(app, CommandView::Stack, line, input_closed).app,
            LiveDebuggerPane::RightTab,
            LiveRightTab::Stack,
        ),
        focused(
            app,
            live_keys::console_step(app, CommandView::Maps, line, input_closed).app,
            LiveDebuggerPane::RightTab,
            LiveRightTab::Maps,
        ),
        focused(
            app,
            live_keys::console_step(
                app,
                CommandView::SelectRightTab(tab),
                line,
                input_closed,
            ).app,
            LiveDebuggerPane::RightTab,
            tab,
        ),
{
}

/// A line that is no command is answered with itself; help names the commands.
pub proof fn law_console_answers(app: AppView, line: Seq<char>, input_closed: bool)
    requires
        line.len() > 0,
    ensures
        ({
            let step = live_keys::console_step(
                app,
                CommandView::Unknown(line),
                line,
                input_closed,
            );
            &&& step.action == KeyAction::Stay
            &&& step.app.logs.len() > 0
            &&& step.app.logs.last() == "unknown command: "@ + line + "; try help"@
            &&& step.app == (AppView { logs: step.app.logs, ..app })
        }),
        ({
            let step = live_keys::console_step(app, CommandView::Help, line, input_closed);
            &&& step.action == KeyAction::Stay
            &&& step.app.logs.len() > 0
            &&& step.app == (AppView { logs: step.app.logs, ..app })
        }),
{
}

/// A jump from the console shows the first chunk that matches, or leaves the selection, and the
/// log says which.
pub proof fn law_console_jumps(
    app: AppView,
    line: Seq<char>,
    input_closed: bool,
    query: HeapSearchQuery,
)
    ensures
        ({
            let step = live_keys::console_step(
                app,
                CommandView::HeapJump(query),
                line,
                input_closed,
            );
            let found = search::first_chunk(app.data.chunks(), 0, query);
            &&& step.action == KeyAction::Stay
            &&& step.app.logs.len() > 0
            &&& step.app.search.status == Some(step.app.logs.last())
            &&& found is None ==> step.app.chunk == app.chunk && step.app.panes == app.panes
            &&& found is Some ==> step.app.chunk.index == found
        }),
{
}

// ---------------------------------------------------------------------------
// Chunks, code and the log
// ---------------------------------------------------------------------------

/// A chunk that is shown is selected, in the heap tab, with the inspector open from its top and
/// five lines kept above it.
pub proof fn law_shown_chunk_is_in_view(app: AppView, index: usize)
    requires
        index < app.data.chunks().len(),
    ensures
        ({
            let next = app.show_chunk(index);
            &&& selects(next.chunk, app.data.chunks(), index as int)
            &&& next.panes.focused_debugger_pane == LiveDebuggerPane::RightTab
            &&& next.panes.active_right_tab == LiveRightTab::Heap
            &&& next.panes.show_heap_pane
            &&& next.panes.show_chunk_inspector
            &&& next.panes.chunk_inspector_scroll == 0
            &&& next.panes.heap_layout_scroll == most(0, index - 5)
            &&& next.data == app.data
            &&& next.control == app.control
        }),
{
}

proof fn lemma_current_line(lines: Seq<DisassemblyLine>, from: int, k: int)
    requires
        0 <= from <= k < lines.len() <= usize::MAX,
        lines[k].is_current,
        forall|j: int| from <= j < k ==> !(#[trigger] lines[j]).is_current,
    ensures
        live_app::current_line(lines, from) == k,
    decreases k - from,
{
    if from < k {
        lemma_current_line(lines, from + 1, k);
    }
}

/// The code pane that follows shows the current instruction: three lines of the heading and the
/// instructions before it have scrolled out.
pub proof fn law_code_follows_the_current_line(context: CodeContext, k: int)
    requires
        context.disassembly is Some,
        0 <= k < context.disassembly->0.lines@.len() <= usize::MAX,
        context.disassembly->0.lines@[k].is_current,
        forall|j: int|
            0 <= j < k ==> !(#[trigger] context.disassembly->0.lines@[j]).is_current,
    ensures
        live_app::code_offset(Some(context)) == least(k + 3, usize::MAX as int),
        live_app::code_offset(None) == 0,
{
    lemma_current_line(context.disassembly->0.lines@, 0, k);
}

/// The log ends with the line that was added, and keeps the lines before it up to two hundred in
/// all.
pub proof fn law_log_keeps_the_latest(logs: Seq<Seq<char>>, line: Seq<char>)
    ensures
        ({
            let next = live_app::logged(logs, line);
            let n = least(logs.len() as int, 199);
            &&& next.len() == n + 1
            &&& next.last() == line
            &&& forall|k: int| 0 <= k < n ==> #[trigger] next[k] == logs[logs.len() - n + k]
        }),
{
}

proof fn lemma_event_index(events: Seq<JsonTraceRecord>, from: int, k: int, id: usize)
    requires
        0 <= from <= k < events.len() <= usize::MAX,
        crate::replay::record_event_id(events[k]) == Some(id),
        forall|j: int|
            from <= j < k ==> crate::replay::record_event_id(#[trigger] events[j]) != Some(id),
    ensures
        live_app::event_index(events, from, id) == Some(k as usize),
    decreases k - from,
{
    if from < k {
        lemma_event_index(events, from + 1, k, id);
    }
}

// ---------------------------------------------------------------------------
// Updates
// ---------------------------------------------------------------------------

/// A condition that was met stops the screen at its event: the target is paused, the event is
/// selected and no longer followed past, and the log and the status say why.
pub proof fn law_break_stops_at_the_event(
    app: AppView,
    next: AppView,
    m: crate::breaks::AllocatorBreakMatch,
    k: int,
)
    requires
        app.updated(LiveTraceUpdate::BreakMatched(m), next),
        0 <= k < app.data.events.len() <= usize::MAX,
        crate::replay::record_event_id(app.data.events[k]) == Some(m.event_id),
        forall|j: int|
            0 <= j < k ==> crate::replay::record_event_id(#[trigger] app.data.events[j]) != Some(
                m.event_id,
            ),
    ensures
        ({
            let said = "break condition matched: "@ + m.message@ + " after event #"@ + text::dec(
                m.event_id as nat,
            );
            &&& next.control.target_status == LiveTargetStatus::Paused
            &&& !next.control.follow_tail
            &&& next.control.selected_index == k
            &&& next.control.status_line == said
            &&& next.logs.len() > 0
            &&& next.logs.last() == said
            &&& next.data == app.data
        }),
{
    lemma_event_index(app.data.events, 0, k, m.event_id);
}

/// Where the latest layout has the chunk of a met condition, it is shown.
pub proof fn law_break_shows_its_chunk(
    app: AppView,
    next: AppView,
    m: crate::breaks::AllocatorBreakMatch,
    index: usize,
)
    requires
        app.updated(LiveTraceUpdate::BreakMatched(m), next),
        m.user_addr is Some,
        search::first_chunk(
            app.data.chunks(),
            0,
            HeapSearchQuery::UserAddress(m.user_addr->0),
        ) == Some(index),
    ensures
        next.chunk.index == Some(index),
        next.panes.active_right_tab == LiveRightTab::Heap,
        next.panes.show_chunk_inspector,
{
}

/// The outcome of a command is taken over as it is reported, in the state of the target, in the
/// status and in the log.
pub proof fn law_outcomes_are_reported(
    app: AppView,
    next: AppView,
    command_id: Option<LiveCommandId>,
    command: Option<LiveCommand>,
    status: LiveCommandStatus,
    target_status: LiveTargetStatus,
    message: String,
)
    requires
        app.updated(
            LiveTraceUpdate::CommandStatus { command_id, command, status, target_status, message },
            next,
        ),
    ensures
        next.control.target_status == target_status,
        next.control.last_command == command,
        next.control.last_command_status == Some(status),
        next.control.last_command_message == Some(message@),
        next.control.status_line == message@,
        next.control.selected_index == app.control.selected_index,
        next.control.follow_tail <==> app.control.follow_tail && target_status
            != LiveTargetStatus::Paused,
        next.data == app.data,
        next.panes == app.panes,
        next.logs.len() > 0,
        command is None ==> next.logs.last() == "target"@ + ": "@ + message@ + " ("@ + (
        match status {
            LiveCommandStatus::Accepted => "accepted"@,
            LiveCommandStatus::Rejected => "rejected"@,
            LiveCommandStatus::Completed => "completed"@,
            LiveCommandStatus::Failed => "failed"@,
        }) + ")"@,
        command == Some(LiveCommand::Pause) ==> next.logs.last() == "pause"@ + ": "@ + message@
            + " ("@ + (match status {
            LiveCommandStatus::Accepted => "accepted"@,
            LiveCommandStatus::Rejected => "rejected"@,
            LiveCommandStatus::Completed => "completed"@,
            LiveCommandStatus::Failed => "failed"@,
        }) + ")"@,
{
}

/// A completed pause is a stop by the user, and a completed step is one between the two
/// addresses that its message ends with; nothing else that is reported is a stop.
pub proof fn law_completed_commands_stop(
    command: Option<LiveCommand>,
    status: LiveCommandStatus,
    message: Seq<char>,
)
    ensures
        ({
            let stop = crate::live::reported_stop(command, status, message);
            let steps = crate::live::stepped_addresses(message);
            &&& status != LiveCommandStatus::Completed ==> stop is None
            &&& status == LiveCommandStatus::Completed && command == Some(LiveCommand::Pause)
                ==> stop == Some(StopView::UserPause)
            &&& status == LiveCommandStatus::Completed && command == Some(
                LiveCommand::StepInstruction,
            ) && steps is Some ==> stop == Some(
                StopView::InstructionStep { from_rip: (steps->0).0, to_rip: (steps->0).1 },
            )
            &&& status == LiveCommandStatus::Completed && command == Some(
                LiveCommand::StepInstructionOver,
            ) && steps is Some ==> stop == Some(
                StopView::InstructionStepOver { from_rip: (steps->0).0, to_rip: (steps->0).1 },
            )
            &&& command is None || command == Some(LiveCommand::Stop) || command == Some(
                LiveCommand::Resume,
            ) || command == Some(LiveCommand::Continue) || command == Some(
                LiveCommand::StepAllocatorEvent,
            ) ==> stop is None
        }),
{
}

/// The two addresses of a step are the words on both sides of the last arrow.
pub proof fn law_step_addresses(
    message: Seq<char>,
    before: Seq<Seq<char>>,
    from: Seq<char>,
    to: Seq<char>,
    a: u64,
    b: u64,
)
    requires
        search::words(message) == before + seq![from, "->"@, to],
        number::auto_radix_number(from) == Some(a),
        number::auto_radix_number(to) == Some(b),
    ensures
        crate::live::stepped_addresses(message) == Some((a, b)),
{
    let tokens = search::words(message);
    let n = tokens.len() as int;
    assert(tokens[n - 3] == from);
    assert(tokens[n - 2] == "->"@);
    assert(tokens[n - 1] == to);
}

/// The beginning and the end of a session are kept, and said in the status; at its end the target
/// has exited.
pub proof fn law_session_updates(
    app: AppView,
    next: AppView,
    start: JsonSessionStart,
    end: JsonSessionEnd,
)
    ensures
        app.updated(LiveTraceUpdate::SessionStart(start), next) ==> {
            &&& next.data.session_start == Some(start.record)
            &&& next.data.events == app.data.events
            &&& next.control.status_line == "tracing..."@
            &&& next.control.target_status == app.control.target_status
        },
        app.updated(LiveTraceUpdate::SessionEnd(end), next) ==> {
            &&& next.data.session_end == Some(end.record)
            &&& next.data.events == app.data.events
            &&& next.control.target_status == LiveTargetStatus::Exited
            &&& end.record is SessionEnd ==> next.control.status_line == "target exited: "@
                + end.record->SessionEnd_exit_status@ + "; "@ + text::dec(
                end.record->SessionEnd_event_count as nat,
            ) + " events; press q to quit"@
            &&& end.record is SessionEnd ==> next.control.latest_stop_reason == Some(
                StopView::ProcessExit { status: end.record->SessionEnd_exit_status@ },
            )
        },
{
}

/// What belongs to an event, the maps and the registers are kept under their event, behind what
/// came before.
pub proof fn law_data_updates(
    app: AppView,
    next: AppView,
    event_id: usize,
    record: JsonTraceRecord,
    maps: ProcessMapsSnapshot,
    stop: Option<usize>,
    registers: RegisterSnapshot,
    code: CodeContext,
)
    ensures
        app.updated(LiveTraceUpdate::RelatedRecord { event_id, record }, next) ==> next.data.related
            == app.data.related.push(RelatedRecord { event_id, record }) && next.control
            == app.control,
        app.updated(LiveTraceUpdate::ProcessMaps { snapshot: maps }, next) ==> next.data.maps
            == Some(maps) && next.control == app.control && next.panes == app.panes,
        app.updated(
            LiveTraceUpdate::RegisterSnapshot { event_id: stop, snapshot: registers },
            next,
        ) ==> next.data.registers == app.data.registers.push(
            Stop { event_id: stop, value: registers },
        ) && next.control == app.control && next.panes == app.panes,
        app.updated(LiveTraceUpdate::CodeContext { event_id: stop, context: code }, next) ==> {
            &&& next.data.contexts == app.data.contexts.push(Stop { event_id: stop, value: code })
            &&& next.control == app.control
            &&& !app.panes.code_follow_rip ==> next.panes == app.panes
            &&& app.panes.code_follow_rip ==> next.panes.code_pane_scroll == live_app::code_offset(
                Some(code),
            ) && next.panes.code_follow_rip
        },
{
}

// ---------------------------------------------------------------------------
// Lines submitted
// ---------------------------------------------------------------------------

proof fn lemma_console_stays(
    app: AppView,
    command: CommandView,
    line: Seq<char>,
    input_closed: bool,
)
    requires
        app.logs.len() > 0,
    ensures
        ({
            let next = live_keys::console_step(app, command, line, input_closed).app;
            next.console == app.console && next.logs.contains(app.logs.last())
        }),
{
    let next = live_keys::console_step(app, command, line, input_closed).app;
    if next.logs == app.logs {
        assert(next.logs[next.logs.len() - 1] == app.logs.last());
    } else {
        assert(next.logs[next.logs.len() - 2] == app.logs.last());
    }
}

/// A line that is submitted closes the console. A blank one does nothing else; any other is
/// remembered without the white space around it, and logged behind the prompt.
pub proof fn law_submitted_lines_are_remembered(app: AppView, input_closed: bool)
    ensures
        ({
            let step = live_keys::submit_step(app, input_closed);
            let line = search::trimmed(app.console.input);
            &&& !step.app.console.input_active
            &&& step.app.console.input.len() == 0
            &&& step.app.console.history_index is None
            &&& line.len() == 0 ==> step.action == KeyAction::Stay && step.app.console.history
                == app.console.history && step.app.logs == app.logs
            &&& line.len() > 0 ==> step.app.console.history == app.console.history.push(line)
                && step.app.logs.contains("heapify> "@ + line)
        }),
{
    let line = search::trimmed(app.console.input);
    if line.len() > 0 {
        let closed = app.with_console(app.console.closed());
        let logged = closed.with_console(
            crate::live_app::ConsoleView {
                history: closed.console.history.push(line),
                ..closed.console
            },
        ).log("heapify> "@ + line);
        assert(logged.logs.last() == "heapify> "@ + line);
        lemma_console_stays(logged, search::command_of(line), line, input_closed);
        assert(live_keys::submit_step(app, input_closed) == live_keys::console_step(
            logged,
            search::command_of(line),
            line,
            input_closed,
        ));
    }
}

/// A search that is submitted closes its prompt and is answered: with the chunk that was found,
/// with what was looked for in vain, or with what is wrong with the query.
pub proof fn law_submitted_searches_are_answered(app: AppView)
    ensures
        ({
            let next = app.search_submitted();
            let chunks = app.data.chunks();
            &&& !next.search.prompt_active
            &&& next.data == app.data
            &&& next.control == app.control
            &&& match search::query_of(search::words(app.search.input)) {
                Err(message) => next.search.status == Some(message) && next.chunk == app.chunk
                    && next.panes == app.panes,
                Ok(query) => match search::first_chunk(chunks, 0, query) {
                    Some(i) => next.chunk.index == Some(i) && next.search.status == Some(
                        "selected chunk "@ + chunks[i as int].chunk_addr@ + " user "@
                            + chunks[i as int].user_addr@,
                    ) && next.panes.active_right_tab == LiveRightTab::Heap,
                    None => next.search.status == Some(search::search_failure(query))
                        && next.chunk == app.chunk && next.panes == app.panes,
                },
            }
        }),
{
}

} // verus!
