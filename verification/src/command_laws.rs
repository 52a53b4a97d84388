//! What the commands and the prompts of the live screen do.

use crate::keys::{Key, KeyCode};
use crate::live::{LiveCommand, LiveCommandId, LiveCommandStatus, LiveTargetStatus};
use crate::live_app::AppView;
use crate::live_keys::{command_step, live_key, KeyAction};
use crate::live_laws::{least, most, no_prompt};
use vstd::prelude::*;

verus! {

// ---------------------------------------------------------------------------
// Commands
// ---------------------------------------------------------------------------

/// The state in which a target takes a command: a running one is paused, a paused one goes on
/// or steps, and any but an exited one is stopped.
pub open spec fn takes(status: LiveTargetStatus, command: LiveCommand) -> bool {
    if command == LiveCommand::Pause {
        status == LiveTargetStatus::Running
    } else if command == LiveCommand::Stop {
        status != LiveTargetStatus::Exited
    } else {
        status == LiveTargetStatus::Paused
    }
}

/// Whether a command was asked for: sent under the next number where the target takes it, and
/// otherwise only said to be rejected.
pub open spec fn asked_for(
    before: AppView,
    after: AppView,
    action: KeyAction,
    command: LiveCommand,
) -> bool {
    &&& after.control.last_command == Some(command)
    &&& after.control.target_status == before.control.target_status
    &&& after.control.follow_tail == before.control.follow_tail
    &&& after.control.selected_index == before.control.selected_index
    &&& after.data == before.data
    &&& after.panes == before.panes
    &&& after.chunk == before.chunk
    &&& after.console == before.console
    &&& after.search == before.search
    &&& after.logs == before.logs
    &&& if takes(before.control.target_status, command) {
        &&& action matches KeyAction::Send { message, from_console } && message.command == command
            && message.id == LiveCommandId(before.control.next_command_id) && !from_console
        &&& after.control.last_command_status == Some(LiveCommandStatus::Accepted)
        &&& after.control.next_command_id == least(
            before.control.next_command_id + 1,
            u64::MAX as int,
        )
    } else {
        &&& action == KeyAction::Stay
        &&& after.control.last_command_status == Some(LiveCommandStatus::Rejected)
        &&& after.control.next_command_id == before.control.next_command_id
        &&& after.control.last_command_message == Some(after.control.status_line)
    }
}

proof fn lemma_asked_for(app: AppView, command: LiveCommand)
    ensures
        asked_for(
            app,
            command_step(app, command, false).app,
            command_step(app, command, false).action,
            command,
        ),
{
}

/// Each command key asks for its own command; the space bar asks a running target to pause and a
/// paused one to resume.
pub proof fn law_command_keys(app: AppView, key: Key, input_closed: bool, command: LiveCommand)
    requires
        no_prompt(app),
        ({
            ||| key.code == KeyCode::Char('p') && command == LiveCommand::Pause
            ||| key.code == KeyCode::Char('r') && command == LiveCommand::Resume
            ||| key.code == KeyCode::Char('n') && command == LiveCommand::StepAllocatorEvent
            ||| key.code == KeyCode::Char('.') && command == LiveCommand::StepInstruction
            ||| key.code == KeyCode::Char(',') && command == LiveCommand::StepInstructionOver
            ||| key.code == KeyCode::Char('c') && !key.control && command == LiveCommand::Continue
            ||| key.code == KeyCode::Char(' ') && app.control.target_status
                == LiveTargetStatus::Running && command == LiveCommand::Pause
            ||| key.code == KeyCode::Char(' ') && app.control.target_status
                == LiveTargetStatus::Paused && command == LiveCommand::Resume
        }),
    ensures
        asked_for(
            app,
            live_key(app, key, input_closed).app,
            live_key(app, key, input_closed).action,
            command,
        ),
{
    lemma_asked_for(app, command);
    assert(live_key(app, key, input_closed) == command_step(app, command, false));
}

/// The space bar does nothing to a target that neither runs nor is paused.
pub proof fn law_space_needs_a_target(app: AppView, key: Key, input_closed: bool)
    requires
        no_prompt(app),
        key.code == KeyCode::Char(' '),
        app.control.target_status != LiveTargetStatus::Running,
        app.control.target_status != LiveTargetStatus::Paused,
    ensures
        live_key(app, key, input_closed).action == KeyAction::Stay,
        live_key(app, key, input_closed).app == app,
{
}

/// While a session lasts, `q`, `Esc` and `Ctrl-C` ask the target to stop.
pub proof fn law_stop_keys(app: AppView, key: Key, input_closed: bool)
    requires
        no_prompt(app),
        key.code == KeyCode::Char('q') || key.code == KeyCode::Esc || key.code == KeyCode::Char('c')
            && key.control,
        app.data.session_end is None,
        !input_closed,
    ensures
        asked_for(
            app,
            live_key(app, key, input_closed).app,
            live_key(app, key, input_closed).action,
            LiveCommand::Stop,
        ),
{
    lemma_asked_for(app, LiveCommand::Stop);
    assert(live_key(app, key, input_closed) == command_step(app, LiveCommand::Stop, false));
}

/// Once a session is over, `Ctrl-C` does nothing.
pub proof fn law_nothing_to_interrupt(app: AppView, key: Key, input_closed: bool)
    requires
        no_prompt(app),
        key.code == KeyCode::Char('c') && key.control,
        app.data.session_end is Some || input_closed,
    ensures
        live_key(app, key, input_closed).action == KeyAction::Stay,
        live_key(app, key, input_closed).app == app,
{
}

/// A refused command is answered with its own name and with the state that rules it out.
pub proof fn law_refusals_name_command_and_state(app: AppView, command: LiveCommand)
    requires
        !takes(app.control.target_status, command),
    ensures
        ({
            let name = match command {
                LiveCommand::Stop => "stop"@,
                LiveCommand::Pause => "pause"@,
                LiveCommand::Resume => "resume"@,
                LiveCommand::Continue => "continue"@,
                LiveCommand::StepAllocatorEvent => "step_allocator_event"@,
                LiveCommand::StepInstruction => "step_instruction"@,
                LiveCommand::StepInstructionOver => "step_instruction_over"@,
            };
            let state = match app.control.target_status {
                LiveTargetStatus::NotStarted => "not_started"@,
                LiveTargetStatus::Running => "running"@,
                LiveTargetStatus::Paused => "paused"@,
                LiveTargetStatus::SteppingToNextAllocatorEvent =>
                    "stepping_to_next_allocator_event"@,
                LiveTargetStatus::SteppingInstruction => "stepping_instruction"@,
                LiveTargetStatus::SteppingInstructionOver => "stepping_instruction_over"@,
                LiveTargetStatus::Stopping => "stopping"@,
                LiveTargetStatus::Exited => "exited"@,
            };
            let said = name + " not allowed while target is "@ + state;
            let key = command_step(app, command, false).app;
            let typed = command_step(app, command, true).app;
            &&& key.control.status_line == said
            &&& key.control.last_command_message == Some(said)
            &&& key.logs == app.logs
            &&& typed.control.status_line == said
            &&& typed.logs.len() > 0 && typed.logs.last() == said
        }),
{
}

/// A command that went out changes what the screen expects of the target: `stop` and the steps
/// and `continue` set its state, `pause` remembers whether the latest event was followed,
/// `resume` goes back to that, and what steps over instructions follows no events.
pub proof fn law_sent_commands_show(app: AppView, command: LiveCommand)
    requires
        app.data.events.len() <= usize::MAX,
    ensures
        ({
            let before = app.control;
            let after = app.sent(command).control;
            let last = most(0, app.data.events.len() - 1);
            &&& after.target_status == match command {
                LiveCommand::Stop => LiveTargetStatus::Stopping,
                LiveCommand::Continue => LiveTargetStatus::Running,
                LiveCommand::StepAllocatorEvent => LiveTargetStatus::SteppingToNextAllocatorEvent,
                LiveCommand::StepInstruction => LiveTargetStatus::SteppingInstruction,
                LiveCommand::StepInstructionOver => LiveTargetStatus::SteppingInstructionOver,
                _ => before.target_status,
            }
            &&& after.status_line == match command {
                LiveCommand::Stop => "stopping target..."@,
                LiveCommand::Pause => "pause requested..."@,
                LiveCommand::Resume => "resume requested..."@,
                LiveCommand::Continue => "running"@,
                LiveCommand::StepAllocatorEvent => "stepping to next allocator event..."@,
                _ => "waiting for next stop..."@,
            }
            &&& after.last_command_message == Some(after.status_line)
            &&& command == LiveCommand::Pause ==> after.follow_tail_before_pause == Some(
                before.follow_tail,
            ) && !after.follow_tail && after.selected_index == before.selected_index
            &&& command == LiveCommand::Resume && before.follow_tail_before_pause is Some ==> {
                &&& after.follow_tail == before.follow_tail_before_pause->0
                &&& after.follow_tail_before_pause is None
                &&& after.selected_index == (if after.follow_tail {
                    last
                } else {
                    before.selected_index as int
                })
            }
            &&& command == LiveCommand::Resume && before.follow_tail_before_pause is None
                ==> after.follow_tail == before.follow_tail && after.selected_index
                == before.selected_index
            &&& command == LiveCommand::Continue || command == LiveCommand::StepAllocatorEvent
                ==> after.follow_tail && after.selected_index == last
            &&& command == LiveCommand::Continue ==> after.follow_tail_before_pause is None
            &&& command == LiveCommand::StepInstruction || command
                == LiveCommand::StepInstructionOver ==> !after.follow_tail && after.selected_index
                == before.selected_index
            &&& command == LiveCommand::Stop ==> after.follow_tail == before.follow_tail
                && after.selected_index == before.selected_index
            &&& after.next_command_id == before.next_command_id
            &&& app.sent(command) == (AppView { control: after, ..app })
        }),
{
}

/// A command that could not be delivered is said to have failed, and changes nothing else; at
/// the console the log says so too.
pub proof fn law_undelivered_commands_show(
    app: AppView,
    command: LiveCommand,
    from_console: bool,
)
    ensures
        ({
            let next = crate::live_keys::send_finished(app, command, false, from_console);
            let said = "failed to send command to trace worker"@;
            &&& next.control.last_command_status == Some(LiveCommandStatus::Failed)
            &&& next.control.last_command == Some(command)
            &&& next.control.status_line == said
            &&& next.control.last_command_message == Some(said)
            &&& next.control.target_status == app.control.target_status
            &&& next.control.follow_tail == app.control.follow_tail
            &&& next.panes == app.panes
            &&& !from_console ==> next.logs == app.logs
            &&& from_console ==> next.logs.len() > 0 && next.logs.last() == said
        }),
{
}

// ---------------------------------------------------------------------------
// Prompts
// ---------------------------------------------------------------------------

proof fn lemma_console_key(app: AppView, key: Key, input_closed: bool)
    requires
        key.code != KeyCode::Enter,
    ensures
        console_edited(
            app,
            crate::live_keys::console_key(app, key, input_closed).app,
            key,
        ),
        app.console.history.len() <= usize::MAX && (app.console.history_index is Some
            ==> app.console.history_index->0 < app.console.history.len()) ==> history_shown(
            app,
            crate::live_keys::console_key(app, key, input_closed).app,
            key,
        ),
        crate::live_keys::console_key(app, key, input_closed).action == KeyAction::Stay,
{
}

/// A key at the console: a character is added to the line, `Backspace` takes the last one away,
/// and `Esc` closes the prompt; nothing else of the screen changes.
pub open spec fn console_edited(before: AppView, after: AppView, key: Key) -> bool {
    let line = before.console.input;
    let plain = !key.control && !key.alt;
    &&& after == (AppView { console: after.console, ..before })
    &&& after.console.history == before.console.history
    &&& key.code is Char && plain ==> after.console.input == line.push(key.code->Char_0)
    &&& key.code is Char && !plain ==> after == before
    &&& key.code == KeyCode::Backspace && line.len() > 0 ==> after.console.input == line.take(
        line.len() - 1,
    )
    &&& key.code == KeyCode::Backspace && line.len() == 0 ==> after.console.input.len() == 0
    &&& key.code == KeyCode::Esc ==> !after.console.input_active && after.console.input.len() == 0
        && after.console.history_index is None
    &&& key.code != KeyCode::Esc ==> after.console.input_active == before.console.input_active
}

/// `Up` at the console goes back through the lines that were submitted, from the latest to the
/// first, and `Down` forth to an empty line behind the latest.
pub open spec fn history_shown(before: AppView, after: AppView, key: Key) -> bool {
    let next = after.console;
    let lines = before.console.history;
    let at = before.console.history_index;
    &&& key.code == KeyCode::Up && lines.len() == 0 ==> next == before.console
    &&& key.code == KeyCode::Up && lines.len() > 0 ==> {
        &&& next.history_index is Some
        &&& next.history_index->0 == (if at is Some {
            most(0, at->0 - 1)
        } else {
            lines.len() - 1
        })
        &&& next.input == lines[next.history_index->0 as int]
    }
    &&& key.code == KeyCode::Down && at is None ==> next == before.console
    &&& key.code == KeyCode::Down && at is Some && at->0 + 1 < lines.len() ==> {
        &&& next.history_index is Some
        &&& next.history_index->0 == at->0 + 1
        &&& next.input == lines[at->0 + 1]
    }
    &&& key.code == KeyCode::Down && at is Some && at->0 + 1 == lines.len()
        ==> next.history_index is None && next.input.len() == 0
}

/// An open console takes every key for its line, and the line alone changes.
pub proof fn law_console_editing(app: AppView, key: Key, input_closed: bool)
    requires
        !app.search.prompt_active,
        app.console.input_active,
        key.code != KeyCode::Enter,
    ensures
        live_key(app, key, input_closed).action == KeyAction::Stay,
        console_edited(app, live_key(app, key, input_closed).app, key),
        app.console.history.len() <= usize::MAX && (app.console.history_index is Some
            ==> app.console.history_index->0 < app.console.history.len()) ==> history_shown(
            app,
            live_key(app, key, input_closed).app,
            key,
        ),
{
    lemma_console_key(app, key, input_closed);
    assert(live_key(app, key, input_closed) == crate::live_keys::console_key(
        app,
        key,
        input_closed,
    ));
}

/// A key at the search prompt: a character is added to the query, `Backspace` takes the last one
/// away, and `Esc` closes the prompt and forgets the query; the rest of the screen stays as it
/// is.
pub open spec fn query_edited(before: AppView, after: AppView, key: Key) -> bool {
    let query = before.search.input;
    let plain = !key.control && !key.alt;
    &&& after == (AppView { search: after.search, ..before })
    &&& after.search.status == before.search.status
    &&& key.code is Char && plain ==> after.search.input == query.push(key.code->Char_0)
    &&& key.code is Char && !plain ==> after == before
    &&& key.code == KeyCode::Backspace && query.len() > 0 ==> after.search.input == query.take(
        query.len() - 1,
    )
    &&& key.code == KeyCode::Esc ==> !after.search.prompt_active && after.search.input.len() == 0
    &&& key.code != KeyCode::Esc ==> after.search.prompt_active == before.search.prompt_active
}

proof fn lemma_search_key(app: AppView, key: Key)
    requires
        key.code != KeyCode::Enter,
    ensures
        query_edited(app, crate::live_keys::search_key(app, key), key),
{
}

/// An open search prompt takes every key for its query, even while the console is open.
pub proof fn law_search_editing(app: AppView, key: Key, input_closed: bool)
    requires
        app.search.prompt_active,
        key.code != KeyCode::Enter,
    ensures
        live_key(app, key, input_closed).action == KeyAction::Stay,
        query_edited(app, live_key(app, key, input_closed).app, key),
{
    lemma_search_key(app, key);
    assert(live_key(app, key, input_closed).app == crate::live_keys::search_key(app, key));
}

} // verus!
