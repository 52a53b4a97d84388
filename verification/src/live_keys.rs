//! Key presses on the live debugger screen.

use crate::keys::{Key, KeyCode};
use crate::live;
use crate::live::{LiveCommand, LiveCommandId, LiveCommandMessage, LiveTargetStatus};
use crate::live_app;
use crate::live_app::{
    apply_sent_live_command, apply_unsent_live_command, AppView, ConsoleView, ControlView,
    LivePanes, LiveTuiApp, SearchView,
};
use crate::panes;
use crate::panes::{LiveDebuggerPane, LiveRightTab};
use crate::search;
use crate::search::{parse_console_command, trim_text, CommandView, ConsoleCommand};
use crate::text::{cat2, cat3};
use vstd::prelude::*;

verus! {

/// What is left to do after a key press: nothing, leave the screen, or send a command to the
/// trace worker and report the outcome with [`finish_live_send`].
#[derive(Debug, Clone, Copy, PartialEq, Eq, Structural)]
pub enum KeyAction {
    Stay,
    Leave,
    Send { message: LiveCommandMessage, from_console: bool },
}

/// The screen after a step, and what is left to do.
pub struct StepView {
    pub app: AppView,
    pub action: KeyAction,
}

pub open spec fn stay(app: AppView) -> StepView {
    StepView { app, action: KeyAction::Stay }
}

pub open spec fn leave(app: AppView) -> StepView {
    StepView { app, action: KeyAction::Leave }
}

// ---------------------------------------------------------------------------
// Commands
// ---------------------------------------------------------------------------

/// A command that a key or the console asks for: to be sent where the target takes it; where
/// it does not, the console says why.
pub open spec fn command_step(app: AppView, command: LiveCommand, from_console: bool) -> StepView {
    let next = app.prepared(command);
    if live::allows(app.control.target_status, command) {
        StepView {
            app: next,
            action: KeyAction::Send {
                message: LiveCommandMessage {
                    id: LiveCommandId(app.control.next_command_id),
                    command,
                },
                from_console,
            },
        }
    } else if from_console {
        stay(next.log(live::rejection(app.control.target_status, command)))
    } else {
        stay(next)
    }
}

/// The screen once the outcome of sending is known.
pub open spec fn send_finished(
    app: AppView,
    command: LiveCommand,
    delivered: bool,
    from_console: bool,
) -> AppView {
    if delivered {
        app.sent(command)
    } else {
        let next = app.with_control(app.control.unsent(command));
        if from_console {
            next.log("failed to send command to trace worker"@)
        } else {
            next
        }
    }
}

/// Prepares a command that a key asks for.
pub fn send_live_command(app: &mut LiveTuiApp, command: LiveCommand) -> (r: KeyAction)
    ensures
        (StepView { app: final(app)@, action: r }) == command_step(old(app)@, command, false),
{
    match app.prepare_command(command) {
        Ok(message) => KeyAction::Send { message, from_console: false },
        Err(_) => KeyAction::Stay,
    }
}

/// Prepares a command that the console asks for.
pub fn send_console_live_command(app: &mut LiveTuiApp, command: LiveCommand) -> (r: KeyAction)
    ensures
        (StepView { app: final(app)@, action: r }) == command_step(old(app)@, command, true),
{
    match app.prepare_command(command) {
        Ok(message) => KeyAction::Send { message, from_console: true },
        Err(reason) => {
            app.push_console_output(reason.as_str());
            KeyAction::Stay
        },
    }
}

/// Records whether a command reached the trace worker.
pub fn finish_live_send(
    app: &mut LiveTuiApp,
    command: LiveCommand,
    delivered: bool,
    from_console: bool,
)
    ensures
        final(app)@ == send_finished(old(app)@, command, delivered, from_console),
{
    if delivered {
        apply_sent_live_command(app, command);
    } else {
        apply_unsent_live_command(app, command);
        if from_console {
            app.push_console_output("failed to send command to trace worker");
        }
    }
}

/// Whether there is no target left to stop.
pub open spec fn is_over(app: AppView, input_closed: bool) -> bool {
    app.data.session_end is Some || input_closed
}

/// A stop asked for; nothing once the target is gone.
pub open spec fn stop_step(app: AppView, input_closed: bool) -> StepView {
    if is_over(app, input_closed) {
        stay(app)
    } else {
        command_step(app, LiveCommand::Stop, false)
    }
}

pub fn request_live_stop(app: &mut LiveTuiApp, input_closed: bool) -> (r: KeyAction)
    ensures
        (StepView { app: final(app)@, action: r }) == stop_step(old(app)@, input_closed),
{
    if app.data.session_end.is_some() || input_closed {
        KeyAction::Stay
    } else {
        send_live_command(app, LiveCommand::Stop)
    }
}

// ---------------------------------------------------------------------------
// The search prompt
// ---------------------------------------------------------------------------

/// A key at the search prompt.
pub open spec fn search_key(app: AppView, key: Key) -> AppView {
    match key.code {
        KeyCode::Enter => app.search_submitted(),
        KeyCode::Esc => app.with_search(
            SearchView { prompt_active: false, input: Seq::empty(), ..app.search },
        ),
        KeyCode::Backspace => app.with_search(
            SearchView { input: search::shortened(app.search.input), ..app.search },
        ),
        KeyCode::Char(ch) => if !key.control && !key.alt {
            app.with_search(SearchView { input: app.search.input.push(ch), ..app.search })
        } else {
            app
        },
        _ => app,
    }
}

pub fn handle_live_tui_search_key(key: Key, app: &mut LiveTuiApp)
    ensures
        final(app)@ == search_key(old(app)@, key),
{
    match key.code {
        KeyCode::Enter => app.execute_heap_search(),
        KeyCode::Esc => app.cancel_heap_search_prompt(),
        KeyCode::Backspace => app.pop_search_char(),
        KeyCode::Char(ch) => {
            if !key.control && !key.alt {
                app.push_search_char(ch);
            }
        },
        _ => {},
    }
}

// ---------------------------------------------------------------------------
// The console
// ---------------------------------------------------------------------------

pub open spec fn help_text() -> Seq<char> {
    "commands: help, continue, pause, resume, next, stepi, si, step, nexti, ni, disas, disassemble, stop, regs, stack, maps, heap ADDR, jump ADDR, tab NAME"@
}

/// A console command carried out.
pub open spec fn console_step(
    app: AppView,
    command: CommandView,
    raw_input: Seq<char>,
    input_closed: bool,
) -> StepView {
    match command {
        CommandView::Help => stay(app.log(help_text())),
        CommandView::Continue => command_step(app, LiveCommand::Continue, true),
        CommandView::Pause => command_step(app, LiveCommand::Pause, true),
        CommandView::Resume => command_step(app, LiveCommand::Resume, true),
        CommandView::NextAllocatorEvent => command_step(app, LiveCommand::StepAllocatorEvent, true),
        CommandView::StepInstruction => command_step(app, LiveCommand::StepInstruction, true),
        CommandView::StepInstructionOver => command_step(
            app,
            LiveCommand::StepInstructionOver,
            true,
        ),
        CommandView::Stop => if is_over(app, input_closed) {
            leave(app)
        } else {
            command_step(app, LiveCommand::Stop, true)
        },
        CommandView::Registers => stay(
            app.with_panes(app.panes.focus(LiveDebuggerPane::Registers)),
        ),
        CommandView::Disassemble => stay(app.recentered()),
        CommandView::Stack => stay(app.with_panes(app.panes.open_tab(LiveRightTab::Stack))),
        CommandView::Maps => stay(app.with_panes(app.panes.open_tab(LiveRightTab::Maps))),
        CommandView::HeapJump(query) => {
            let next = app.searched(query);
            match next.search.status {
                Some(status) => stay(next.log(status)),
                None => stay(next),
            }
        },
        CommandView::SelectRightTab(tab) => stay(app.with_panes(app.panes.open_tab(tab))),
        CommandView::Unknown(input) => if input.len() == 0 {
            stay(app)
        } else {
            stay(app.log("unknown command: "@ + raw_input + "; try help"@))
        },
    }
}

pub fn execute_console_command(
    app: &mut LiveTuiApp,
    command: ConsoleCommand,
    raw_input: &str,
    input_closed: bool,
) -> (r: KeyAction)
    ensures
        (StepView { app: final(app)@, action: r }) == console_step(
            old(app)@,
            command@,
            raw_input@,
            input_closed,
        ),
{
    match command {
        ConsoleCommand::Help => {
            app.push_console_output(
                "commands: help, continue, pause, resume, next, stepi, si, step, nexti, ni, disas, disassemble, stop, regs, stack, maps, heap ADDR, jump ADDR, tab NAME",
            );
            KeyAction::Stay
        },
        ConsoleCommand::Continue => send_console_live_command(app, LiveCommand::Continue),
        ConsoleCommand::Pause => send_console_live_command(app, LiveCommand::Pause),
        ConsoleCommand::Resume => send_console_live_command(app, LiveCommand::Resume),
        ConsoleCommand::NextAllocatorEvent => send_console_live_command(
            app,
            LiveCommand::StepAllocatorEvent,
        ),
        ConsoleCommand::StepInstruction => send_console_live_command(
            app,
            LiveCommand::StepInstruction,
        ),
        ConsoleCommand::StepInstructionOver => send_console_live_command(
            app,
            LiveCommand::StepInstructionOver,
        ),
        ConsoleCommand::Stop => {
            if app.data.session_end.is_some() || input_closed {
                KeyAction::Leave
            } else {
                send_console_live_command(app, LiveCommand::Stop)
            }
        },
        ConsoleCommand::Registers => {
            app.panes.set_focus(LiveDebuggerPane::Registers);
            KeyAction::Stay
        },
        ConsoleCommand::Disassemble => {
            app.focus_code_and_recenter();
            KeyAction::Stay
        },
        ConsoleCommand::Stack => {
            app.set_active_right_tab(LiveRightTab::Stack);
            KeyAction::Stay
        },
        ConsoleCommand::Maps => {
            app.set_active_right_tab(LiveRightTab::Maps);
            KeyAction::Stay
        },
        ConsoleCommand::HeapJump(query) => {
            app.execute_heap_search_query(query);
            let status = app.search.status.clone();
            if let Some(status) = status {
                app.push_console_output(status.as_str());
            }
            KeyAction::Stay
        },
        ConsoleCommand::SelectRightTab(tab) => {
            app.set_active_right_tab(tab);
            KeyAction::Stay
        },
        ConsoleCommand::Unknown(input) => {
            if !input.as_str().is_empty() {
                let line = cat3("unknown command: ", raw_input, "; try help");
                app.push_console_output(line.as_str());
            }
            KeyAction::Stay
        },
    }
}

/// The line at the console submitted: remembered, logged and carried out, unless it is
/// blank.
pub open spec fn submit_step(app: AppView, input_closed: bool) -> StepView {
    let input = search::trimmed(app.console.input);
    let closed = app.with_console(app.console.closed());
    if input.len() == 0 {
        stay(closed)
    } else {
        let logged = closed.with_console(
            ConsoleView { history: closed.console.history.push(input), ..closed.console },
        ).log("heapify> "@ + input);
        console_step(logged, search::command_of(input), input, input_closed)
    }
}

pub fn submit_console_input(app: &mut LiveTuiApp, input_closed: bool) -> (r: KeyAction)
    ensures
        (StepView { app: final(app)@, action: r }) == submit_step(old(app)@, input_closed),
{
    let input = trim_text(app.console.input.as_str());
    app.cancel_console_input();
    if input.as_str().is_empty() {
        return KeyAction::Stay;
    }
    app.remember_console_command(input.as_str());
    app.push_log_line(cat2("heapify> ", input.as_str()));
    let command = parse_console_command(input.as_str());
    execute_console_command(app, command, input.as_str(), input_closed)
}

/// A key at the console.
pub open spec fn console_key(app: AppView, key: Key, input_closed: bool) -> StepView {
    match key.code {
        KeyCode::Enter => submit_step(app, input_closed),
        KeyCode::Esc => stay(app.with_console(app.console.closed())),
        KeyCode::Backspace => stay(
            app.with_console(
                ConsoleView { input: search::shortened(app.console.input), ..app.console },
            ),
        ),
        KeyCode::Up => stay(app.with_console(app.console.older())),
        KeyCode::Down => stay(app.with_console(app.console.newer())),
        KeyCode::Char(ch) => if !key.control && !key.alt {
            stay(
                app.with_console(
                    ConsoleView { input: app.console.input.push(ch), ..app.console },
                ),
            )
        } else {
            stay(app)
        },
        _ => stay(app),
    }
}

pub fn handle_live_tui_console_key(key: Key, app: &mut LiveTuiApp, input_closed: bool) -> (r:
    KeyAction)
    ensures
        (StepView { app: final(app)@, action: r }) == console_key(old(app)@, key, input_closed),
{
    match key.code {
        KeyCode::Enter => submit_console_input(app, input_closed),
        KeyCode::Esc => {
            app.cancel_console_input();
            KeyAction::Stay
        },
        KeyCode::Backspace => {
            app.pop_console_char();
            KeyAction::Stay
        },
        KeyCode::Up => {
            app.history_previous();
            KeyAction::Stay
        },
        KeyCode::Down => {
            app.history_next();
            KeyAction::Stay
        },
        KeyCode::Char(ch) => {
            if !key.control && !key.alt {
                app.push_console_char(ch);
            }
            KeyAction::Stay
        },
        _ => KeyAction::Stay,
    }
}

// ---------------------------------------------------------------------------
// The screen
// ---------------------------------------------------------------------------

/// Whether the heap layout has the focus.
pub open spec fn on_heap(app: AppView) -> bool {
    app.panes.focused_debugger_pane is RightTab && app.panes.active_right_tab is Heap
}

fn is_on_heap(app: &LiveTuiApp) -> (r: bool)
    ensures
        r == on_heap(app@),
{
    app.panes.focused_debugger_pane == LiveDebuggerPane::RightTab && app.panes.active_right_tab
        == LiveRightTab::Heap
}

/// The focused pane moved by some lines.
pub open spec fn scrolled(app: AppView, delta: int) -> AppView {
    app.with_panes(app.panes.scrolled_to(panes::moved(app.panes.focused_scroll(), delta)))
}

/// One step down: to the next event, the next chunk, or the next line of the focused pane.
pub open spec fn step_down(app: AppView) -> AppView {
    if app.panes.focused_debugger_pane is Trace {
        app.select(live_app::down(app.control.selected_index, 1, app.count()), false)
    } else if on_heap(app) {
        app.with_chunk(live_app::next_chunk(app.data.chunks(), app.chunk))
    } else {
        scrolled(app, 1)
    }
}

/// One step up.
pub open spec fn step_up(app: AppView) -> AppView {
    if app.panes.focused_debugger_pane is Trace {
        app.select(live_app::up(app.control.selected_index, 1), false)
    } else if on_heap(app) {
        app.with_chunk(live_app::previous_chunk(app.data.chunks(), app.chunk))
    } else {
        scrolled(app, -1)
    }
}

pub open spec fn page_down(app: AppView) -> AppView {
    if app.panes.focused_debugger_pane is Trace {
        app.select(
            live_app::down(
                app.control.selected_index,
                live_app::EVENT_PAGE as nat,
                app.count(),
            ),
            false,
        )
    } else {
        scrolled(app, 10)
    }
}

pub open spec fn page_up(app: AppView) -> AppView {
    if app.panes.focused_debugger_pane is Trace {
        app.select(
            live_app::up(app.control.selected_index, live_app::EVENT_PAGE as nat),
            false,
        )
    } else {
        scrolled(app, -10)
    }
}

/// The chunk under the selection inspected; only in the heap layout.
pub open spec fn enter(app: AppView) -> AppView {
    if on_heap(app) {
        AppView {
            chunk: live_app::chunk_near(
                app.data.chunks(),
                match app.chunk.index {
                    Some(i) => i,
                    None => 0,
                },
            ),
            panes: app.panes.inspecting(),
            ..app
        }
    } else {
        app
    }
}

/// A character key on the screen.
pub open spec fn char_key(app: AppView, ch: char, input_closed: bool) -> StepView {
    if ch == 'q' {
        if is_over(app, input_closed) {
            leave(app)
        } else {
            stop_step(app, input_closed)
        }
    } else if ch == 'p' {
        command_step(app, LiveCommand::Pause, false)
    } else if ch == 'r' {
        command_step(app, LiveCommand::Resume, false)
    } else if ch == 'n' {
        command_step(app, LiveCommand::StepAllocatorEvent, false)
    } else if ch == '.' {
        command_step(app, LiveCommand::StepInstruction, false)
    } else if ch == ',' {
        command_step(app, LiveCommand::StepInstructionOver, false)
    } else if ch == 'c' {
        command_step(app, LiveCommand::Continue, false)
    } else if ch == ' ' {
        match app.control.target_status {
            LiveTargetStatus::Running => command_step(app, LiveCommand::Pause, false),
            LiveTargetStatus::Paused => command_step(app, LiveCommand::Resume, false),
            _ => stay(app),
        }
    } else if ch == 'h' {
        stay(
            app.with_panes(
                (LivePanes { show_heap_pane: !app.panes.show_heap_pane, ..app.panes }).visible(),
            ),
        )
    } else if ch == 's' {
        stay(
            app.with_panes(
                (LivePanes { show_scan_pane: !app.panes.show_scan_pane, ..app.panes }).visible(),
            ),
        )
    } else if ch == 'i' {
        stay(
            app.with_panes(
                LivePanes {
                    show_chunk_inspector: !app.panes.show_chunk_inspector,
                    chunk_inspector_scroll: 0,
                    ..app.panes
                },
            ),
        )
    } else if ch == 'g' {
        stay(
            app.with_search(
                SearchView { prompt_active: true, input: Seq::empty(), status: None },
            ),
        )
    } else if ch == ':' {
        stay(
            app.with_panes(app.panes.focus(LiveDebuggerPane::Console)).with_console(
                ConsoleView {
                    input_active: true,
                    input: Seq::empty(),
                    history_index: None,
                    ..app.console
                },
            ),
        )
    } else if ch == 'f' {
        if app.control.follow_tail {
            stay(app.with_control(ControlView { follow_tail: false, ..app.control }))
        } else {
            stay(app.select_latest())
        }
    } else if ch == 'd' {
        stay(app.recentered())
    } else if ch == '1' {
        stay(app.with_panes(app.panes.open_tab(LiveRightTab::Heap)))
    } else if ch == '2' {
        stay(app.with_panes(app.panes.open_tab(LiveRightTab::Stack)))
    } else if ch == '3' {
        stay(app.with_panes(app.panes.open_tab(LiveRightTab::Logs)))
    } else if ch == '4' {
        stay(app.with_panes(app.panes.open_tab(LiveRightTab::Maps)))
    } else if ch == '[' {
        stay(
            app.with_panes(
                app.panes.open_tab(panes::next_tab(app.panes.active_right_tab, -1)),
            ),
        )
    } else if ch == ']' {
        stay(app.with_panes(app.panes.open_tab(panes::next_tab(app.panes.active_right_tab, 1))))
    } else if ch == 'j' {
        stay(step_down(app))
    } else if ch == 'k' {
        stay(step_up(app))
    } else {
        stay(app)
    }
}

/// A key on the screen: the search prompt takes it while it is open, else the console while
/// it is, else it navigates or steers the target.
pub open spec fn live_key(app: AppView, key: Key, input_closed: bool) -> StepView {
    if app.search.prompt_active {
        stay(search_key(app, key))
    } else if app.console.input_active {
        console_key(app, key, input_closed)
    } else if key.control && key.code == KeyCode::Char('c') {
        stop_step(app, input_closed)
    } else {
        match key.code {
            KeyCode::Char(ch) => char_key(app, ch, input_closed),
            KeyCode::Esc => char_key(app, 'q', input_closed),
            KeyCode::Tab => stay(
                app.with_panes(
                    app.panes.focus(panes::next_pane(app.panes.focused_debugger_pane, 1)),
                ),
            ),
            KeyCode::BackTab => stay(
                app.with_panes(
                    app.panes.focus(panes::next_pane(app.panes.focused_debugger_pane, -1)),
                ),
            ),
            KeyCode::Down => stay(step_down(app)),
            KeyCode::Up => stay(step_up(app)),
            KeyCode::Enter => stay(enter(app)),
            KeyCode::PageDown => stay(page_down(app)),
            KeyCode::PageUp => stay(page_up(app)),
            KeyCode::Home => stay(app.at_top()),
            KeyCode::End => stay(app.at_bottom()),
            _ => stay(app),
        }
    }
}

fn move_down(app: &mut LiveTuiApp)
    ensures
        final(app)@ == step_down(old(app)@),
{
    let on_events = app.panes.focused_debugger_pane == LiveDebuggerPane::Trace;
    if on_events {
        app.select_next();
    } else if is_on_heap(app) {
        app.select_next_chunk();
    } else {
        app.scroll_focused(1);
    }
}

fn move_up(app: &mut LiveTuiApp)
    ensures
        final(app)@ == step_up(old(app)@),
{
    let on_events = app.panes.focused_debugger_pane == LiveDebuggerPane::Trace;
    if on_events {
        app.select_previous();
    } else if is_on_heap(app) {
        app.select_previous_chunk();
    } else {
        app.scroll_focused(-1);
    }
}

fn move_page_down(app: &mut LiveTuiApp)
    ensures
        final(app)@ == page_down(old(app)@),
{
    let on_events = app.panes.focused_debugger_pane == LiveDebuggerPane::Trace;
    if on_events {
        app.select_page_down();
    } else {
        app.scroll_focused(10);
    }
}

fn move_page_up(app: &mut LiveTuiApp)
    ensures
        final(app)@ == page_up(old(app)@),
{
    let on_events = app.panes.focused_debugger_pane == LiveDebuggerPane::Trace;
    if on_events {
        app.select_page_up();
    } else {
        app.scroll_focused(-10);
    }
}

fn inspect_selected_chunk(app: &mut LiveTuiApp)
    ensures
        final(app)@ == enter(old(app)@),
{
    if is_on_heap(app) {
        app.select_chunk_at_current_layout_index();
        app.panes.show_chunk_inspector = true;
        app.panes.chunk_inspector_scroll = 0;
    }
}

fn handle_pane_char(app: &mut LiveTuiApp, ch: char)
    requires
        !is_command_char(ch),
    ensures
        stay(final(app)@) == char_key(old(app)@, ch, false),
{
    if ch == 'h' {
        app.panes.show_heap_pane = !app.panes.show_heap_pane;
        app.ensure_focus_visible();
    } else if ch == 's' {
        app.panes.show_scan_pane = !app.panes.show_scan_pane;
        app.ensure_focus_visible();
    } else if ch == 'i' {
        app.panes.show_chunk_inspector = !app.panes.show_chunk_inspector;
        app.panes.chunk_inspector_scroll = 0;
    } else if ch == 'g' {
        app.start_heap_search_prompt();
    } else if ch == ':' {
        app.start_console_input();
    } else if ch == 'f' {
        if app.control.follow_tail {
            app.control.follow_tail = false;
        } else {
            app.select_latest();
        }
    } else if ch == 'd' {
        app.focus_code_and_recenter();
    } else if ch == '1' {
        app.set_active_right_tab(LiveRightTab::Heap);
    } else if ch == '2' {
        app.set_active_right_tab(LiveRightTab::Stack);
    } else if ch == '3' {
        app.set_active_right_tab(LiveRightTab::Logs);
    } else if ch == '4' {
        app.set_active_right_tab(LiveRightTab::Maps);
    } else if ch == '[' {
        app.previous_right_tab();
    } else if ch == ']' {
        app.next_right_tab();
    } else if ch == 'j' {
        move_down(app);
    } else if ch == 'k' {
        move_up(app);
    }
}

/// The character keys that steer the target.
pub open spec fn is_command_char(ch: char) -> bool {
    ch == 'q' || ch == 'p' || ch == 'r' || ch == 'n' || ch == '.' || ch == ',' || ch == 'c' || ch
        == ' '
}

fn handle_command_char(app: &mut LiveTuiApp, ch: char, input_closed: bool) -> (r: KeyAction)
    requires
        is_command_char(ch),
    ensures
        (StepView { app: final(app)@, action: r }) == char_key(old(app)@, ch, input_closed),
{
    if ch == 'q' {
        if app.data.session_end.is_some() || input_closed {
            KeyAction::Leave
        } else {
            request_live_stop(app, input_closed)
        }
    } else if ch == 'p' {
        send_live_command(app, LiveCommand::Pause)
    } else if ch == 'r' {
        send_live_command(app, LiveCommand::Resume)
    } else if ch == 'n' {
        send_live_command(app, LiveCommand::StepAllocatorEvent)
    } else if ch == '.' {
        send_live_command(app, LiveCommand::StepInstruction)
    } else if ch == ',' {
        send_live_command(app, LiveCommand::StepInstructionOver)
    } else if ch == 'c' {
        send_live_command(app, LiveCommand::Continue)
    } else {
        match app.control.target_status {
            LiveTargetStatus::Running => send_live_command(app, LiveCommand::Pause),
            LiveTargetStatus::Paused => send_live_command(app, LiveCommand::Resume),
            _ => KeyAction::Stay,
        }
    }
}

fn handle_char_key(app: &mut LiveTuiApp, ch: char, input_closed: bool) -> (r: KeyAction)
    ensures
        (StepView { app: final(app)@, action: r }) == char_key(old(app)@, ch, input_closed),
{
    if ch == 'q' || ch == 'p' || ch == 'r' || ch == 'n' || ch == '.' || ch == ',' || ch == 'c' || ch
        == ' ' {
        handle_command_char(app, ch, input_closed)
    } else {
        handle_pane_char(app, ch);
        KeyAction::Stay
    }
}

/// Handles a key press; `input_closed` says that the trace worker is gone.
pub fn handle_live_tui_key(key: Key, app: &mut LiveTuiApp, input_closed: bool) -> (r: KeyAction)
    ensures
        (StepView { app: final(app)@, action: r }) == live_key(old(app)@, key, input_closed),
{
    if app.search.prompt_active {
        handle_live_tui_search_key(key, app);
        return KeyAction::Stay;
    }
    if app.console.input_active {
        return handle_live_tui_console_key(key, app, input_closed);
    }
    if key.control && key.code == KeyCode::Char('c') {
        return request_live_stop(app, input_closed);
    }
    match key.code {
        KeyCode::Char(ch) => {
            return handle_char_key(app, ch, input_closed);
        },
        KeyCode::Esc => {
            return handle_char_key(app, 'q', input_closed);
        },
        KeyCode::Tab => app.focus_next_pane(),
        KeyCode::BackTab => app.focus_previous_pane(),
        KeyCode::Down => move_down(app),
        KeyCode::Up => move_up(app),
        KeyCode::Enter => inspect_selected_chunk(app),
        KeyCode::PageDown => move_page_down(app),
        KeyCode::PageUp => move_page_up(app),
        KeyCode::Home => app.scroll_focused_top(),
        KeyCode::End => app.scroll_focused_bottom(),
        _ => {},
    }
    KeyAction::Stay
}

// ---------------------------------------------------------------------------
// Laws
// ---------------------------------------------------------------------------

/// While a prompt is open no key leaves the screen or reaches the target, except a line
/// submitted at the console.
pub proof fn law_prompts_capture_keys(app: AppView, key: Key, input_closed: bool)
    requires
        app.search.prompt_active || (app.console.input_active && key.code != KeyCode::Enter),
    ensures
        live_key(app, key, input_closed).action == KeyAction::Stay,
        live_key(app, key, input_closed).app.control == app.control,
{
}

/// Whether a step sends nothing but a command that the target's state allows, under the next
/// number.
pub open spec fn sends_allowed(control: ControlView, action: KeyAction) -> bool {
    action matches KeyAction::Send { message, .. } ==> {
        &&& live::allows(control.target_status, message.command)
        &&& message.id == LiveCommandId(control.next_command_id)
    }
}

proof fn lemma_command_sends(app: AppView, command: LiveCommand, from_console: bool)
    ensures
        sends_allowed(app.control, command_step(app, command, from_console).action),
{
}

proof fn lemma_console_sends(
    app: AppView,
    command: CommandView,
    raw_input: Seq<char>,
    input_closed: bool,
)
    ensures
        sends_allowed(app.control, console_step(app, command, raw_input, input_closed).action),
{
}

proof fn lemma_submit_sends(app: AppView, input_closed: bool)
    ensures
        sends_allowed(app.control, submit_step(app, input_closed).action),
{
    let input = search::trimmed(app.console.input);
    let closed = app.with_console(app.console.closed());
    let logged = closed.with_console(
        ConsoleView { history: closed.console.history.push(input), ..closed.console },
    ).log("heapify> "@ + input);
    lemma_console_sends(logged, search::command_of(input), input, input_closed);
}

proof fn lemma_char_sends(app: AppView, ch: char, input_closed: bool)
    ensures
        sends_allowed(app.control, char_key(app, ch, input_closed).action),
{
}

/// Only a command that the target's state allows is ever sent, under the next number.
pub proof fn law_only_allowed_commands_are_sent(app: AppView, key: Key, input_closed: bool)
    ensures
        sends_allowed(app.control, live_key(app, key, input_closed).action),
{
    lemma_submit_sends(app, input_closed);
    lemma_command_sends(app, LiveCommand::Stop, false);
    lemma_char_sends(app, 'q', input_closed);
    if let KeyCode::Char(ch) = key.code {
        lemma_char_sends(app, ch, input_closed);
    }
}

/// The screen is left only once the session has ended or the trace worker is gone.
pub proof fn law_leaving_needs_an_end(app: AppView, key: Key, input_closed: bool)
    requires
        app.data.session_end is None,
        !input_closed,
    ensures
        live_key(app, key, input_closed).action != KeyAction::Leave,
{
}

/// Once the session has ended, or the trace worker is gone, `q` and `Esc` leave the screen and
/// change nothing.
pub proof fn law_an_end_allows_leaving(app: AppView, key: Key, input_closed: bool)
    requires
        app.data.session_end is Some || input_closed,
        !app.search.prompt_active,
        !app.console.input_active,
        key.code == KeyCode::Char('q') || key.code == KeyCode::Esc,
    ensures
        live_key(app, key, input_closed) == leave(app),
{
}

/// The keys that step or go on do nothing to a target that is not paused: nothing is sent.
pub proof fn law_stepping_needs_a_pause(app: AppView, ch: char, input_closed: bool)
    requires
        app.control.target_status !is Paused,
        ch == 'n' || ch == '.' || ch == ',' || ch == 'c' || ch == 'r',
    ensures
        char_key(app, ch, input_closed).action == KeyAction::Stay,
        char_key(app, ch, input_closed).app.control.target_status == app.control.target_status,
{
}

/// Recentering the code pane shows the current instruction and follows it again, however far
/// the pane was scrolled.
pub proof fn law_recentering_follows(app: AppView, delta: int)
    requires
        app.panes.focused_debugger_pane is Code,
    ensures
        !scrolled(app, delta).panes.code_follow_rip,
        scrolled(app, delta).recentered().panes.code_follow_rip,
        scrolled(app, delta).recentered().panes.code_pane_scroll == live_app::code_offset(
            live::latest(app.data.contexts),
        ),
{
}

/// The key `d` shows the code pane at the current instruction and follows it again, whichever
/// pane has the focus; it sends nothing and does not leave the screen. The console command
/// `disas` does the same.
pub proof fn law_d_follows_from_any_pane(app: AppView, key: Key, input_closed: bool, line: Seq<char>)
    requires
        key.code == KeyCode::Char('d'),
        !app.search.prompt_active,
        !app.console.input_active,
    ensures
        live_key(app, key, input_closed) == stay(app.recentered()),
        live_key(app, key, input_closed).action == KeyAction::Stay,
        live_key(app, key, input_closed).app.panes.code_follow_rip,
        live_key(app, key, input_closed).app.panes.focused_debugger_pane is Code,
        live_key(app, key, input_closed).app.panes.code_pane_scroll == live_app::code_offset(
            live::latest(app.data.contexts),
        ),
        live_key(app, key, input_closed).app.control == app.control,
        console_step(app, CommandView::Disassemble, line, input_closed) == live_key(
            app,
            key,
            input_closed,
        ),
{
}

/// Switching the inspector twice leaves it as it was.
pub proof fn law_inspector_toggles(app: AppView, input_closed: bool)
    ensures
        char_key(
            char_key(app, 'i', input_closed).app,
            'i',
            input_closed,
        ).app.panes.show_chunk_inspector == app.panes.show_chunk_inspector,
{
}

/// No key changes what the trace has brought.
pub proof fn law_keys_keep_the_trace(app: AppView, key: Key, input_closed: bool)
    ensures
        live_key(app, key, input_closed).app.data == app.data,
{
}

/// Going to an older line of the console's history and then to a newer one returns to the
/// line in between.
pub proof fn law_history_moves_both_ways(console: ConsoleView)
    requires
        console.history_index is Some,
        1 <= console.history_index->0 < console.history.len(),
        console.history.len() <= usize::MAX,
        console.input == console.history[console.history_index->0 as int],
    ensures
        console.older().newer() == console,
{
}

} // verus!
