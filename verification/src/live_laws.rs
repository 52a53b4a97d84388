//! What each key of the live screen does, pane by pane.

use crate::keys::{Key, KeyCode};
use crate::live_app::{
    AppView, ChunkSelection, ConsoleView, ControlView, LivePanes, LiveTuiPane, SearchView,
};
use crate::live_keys::{live_key, KeyAction};
use crate::number;
use crate::panes::{LiveDebuggerPane, LiveRightTab};
use crate::record::JsonLayoutChunk;
use vstd::prelude::*;

verus! {

/// Whether no prompt takes the keys.
pub open spec fn no_prompt(app: AppView) -> bool {
    !app.search.prompt_active && !app.console.input_active
}

/// The smaller of two numbers.
pub open spec fn least(a: int, b: int) -> int {
    if a <= b { a } else { b }
}

/// The larger of two numbers.
pub open spec fn most(a: int, b: int) -> int {
    if a >= b { a } else { b }
}

/// Whether two panes differ in nothing but offsets and in whether the code pane follows.
pub open spec fn same_layout(a: LivePanes, b: LivePanes) -> bool {
    &&& a.focused_debugger_pane == b.focused_debugger_pane
    &&& a.focused_pane == b.focused_pane
    &&& a.active_right_tab == b.active_right_tab
    &&& a.show_heap_pane == b.show_heap_pane
    &&& a.show_scan_pane == b.show_scan_pane
    &&& a.show_chunk_inspector == b.show_chunk_inspector
}

/// Whether of all offsets only that of the focused pane changed, from `n` to `to(n)`. The code
/// pane then follows no longer; the events and the console have no offset to change.
pub open spec fn only_focus_scrolled(
    before: LivePanes,
    after: LivePanes,
    to: spec_fn(int) -> int,
) -> bool {
    let on_tab = before.focused_debugger_pane is RightTab;
    &&& same_layout(before, after)
    &&& after.register_pane_scroll == (if before.focused_debugger_pane is Registers {
        to(before.register_pane_scroll as int)
    } else {
        before.register_pane_scroll as int
    })
    &&& after.code_pane_scroll == (if before.focused_debugger_pane is Code {
        to(before.code_pane_scroll as int)
    } else {
        before.code_pane_scroll as int
    })
    &&& after.code_follow_rip == (before.code_follow_rip && before.focused_debugger_pane !is Code)
    &&& after.heap_layout_scroll == (if on_tab && before.active_right_tab is Heap {
        to(before.heap_layout_scroll as int)
    } else {
        before.heap_layout_scroll as int
    })
    &&& after.stack_tab_scroll == (if on_tab && before.active_right_tab is Stack {
        to(before.stack_tab_scroll as int)
    } else {
        before.stack_tab_scroll as int
    })
    &&& after.related_records_scroll == (if on_tab && before.active_right_tab is Logs {
        to(before.related_records_scroll as int)
    } else {
        before.related_records_scroll as int
    })
    &&& after.maps_tab_scroll == (if on_tab && before.active_right_tab is Maps {
        to(before.maps_tab_scroll as int)
    } else {
        before.maps_tab_scroll as int
    })
    &&& after.event_details_scroll == before.event_details_scroll
    &&& after.allocator_scan_scroll == before.allocator_scan_scroll
    &&& after.chunk_inspector_scroll == before.chunk_inspector_scroll
}

/// Whether the selection moved to an event, away from the latest, and nothing else changed.
pub open spec fn moved_to_event(before: AppView, after: AppView, index: int) -> bool {
    &&& after.control.selected_index == index
    &&& !after.control.follow_tail
    &&& after == (AppView {
        control: ControlView {
            selected_index: after.control.selected_index,
            follow_tail: after.control.follow_tail,
            ..before.control
        },
        ..before
    })
}

/// Whether a selection is that of a chunk of a list, with its addresses; in an empty list,
/// of none.
pub open spec fn selects(
    chunk: ChunkSelection,
    chunks: Seq<JsonLayoutChunk>,
    index: int,
) -> bool {
    if chunks.len() == 0 {
        chunk.index is None && chunk.addr is None && chunk.user_addr is None
    } else {
        &&& chunk.index is Some
        &&& chunk.index->0 == index
        &&& chunk.addr == number::auto_radix_number(chunks[index].chunk_addr@)
        &&& chunk.user_addr == number::auto_radix_number(chunks[index].user_addr@)
    }
}

/// Whether only the selected chunk changed.
pub open spec fn moved_to_chunk(before: AppView, after: AppView, index: int) -> bool {
    &&& selects(after.chunk, before.data.chunks(), index)
    &&& after == (AppView { chunk: after.chunk, ..before })
}

/// Whether the heap tab has the focus.
pub open spec fn heap_tab_focused(app: AppView) -> bool {
    app.panes.focused_debugger_pane == LiveDebuggerPane::RightTab && app.panes.active_right_tab
        == LiveRightTab::Heap
}

/// Whether the focused pane, which is neither the trace nor the heap tab, moved by some lines,
/// within the range of offsets.
pub open spec fn went_on(before: AppView, after: AppView, lines: int) -> bool {
    &&& only_focus_scrolled(
        before.panes,
        after.panes,
        |n: int| most(0, least(n + lines, usize::MAX as int)),
    )
    &&& after == (AppView { panes: after.panes, ..before })
}

/// One step down: in the trace to the next event, at most to the last; in the heap tab to the
/// next chunk, at most to the last, or to the first where none is selected; elsewhere one line
/// further.
pub open spec fn went_down(before: AppView, after: AppView) -> bool {
    if before.panes.focused_debugger_pane == LiveDebuggerPane::Trace {
        moved_to_event(
            before,
            after,
            most(0, least(before.control.selected_index + 1, before.data.events.len() - 1)),
        )
    } else if heap_tab_focused(before) {
        moved_to_chunk(
            before,
            after,
            if before.chunk.index is Some {
                least(before.chunk.index->0 + 1, before.data.chunks().len() - 1)
            } else {
                0
            },
        )
    } else {
        went_on(before, after, 1)
    }
}

/// One step up: in the trace to the event before, at least to the first; in the heap tab to the
/// chunk before; elsewhere one line back.
pub open spec fn went_up(before: AppView, after: AppView) -> bool {
    if before.panes.focused_debugger_pane == LiveDebuggerPane::Trace {
        moved_to_event(before, after, most(0, before.control.selected_index - 1))
    } else if heap_tab_focused(before) {
        moved_to_chunk(
            before,
            after,
            if before.chunk.index is Some {
                least(most(0, before.chunk.index->0 - 1), before.data.chunks().len() - 1)
            } else {
                0
            },
        )
    } else {
        went_on(before, after, -1)
    }
}

/// A page of ten events or ten lines, down or up.
pub open spec fn went_a_page(before: AppView, after: AppView, down: bool) -> bool {
    if before.panes.focused_debugger_pane == LiveDebuggerPane::Trace {
        moved_to_event(
            before,
            after,
            if down {
                most(0, least(before.control.selected_index + 10, before.data.events.len() - 1))
            } else {
                most(0, before.control.selected_index - 10)
            },
        )
    } else {
        went_on(before, after, if down { 10 } else { -10 })
    }
}

/// To the first event, or to the top of the focused pane.
pub open spec fn went_to_top(before: AppView, after: AppView) -> bool {
    if before.panes.focused_debugger_pane == LiveDebuggerPane::Trace {
        moved_to_event(before, after, 0)
    } else {
        &&& only_focus_scrolled(before.panes, after.panes, |n: int| 0)
        &&& after == (AppView { panes: after.panes, ..before })
    }
}

proof fn lemma_scrolled(app: AppView, lines: int)
    requires
        app.panes.focused_debugger_pane != LiveDebuggerPane::Trace,
    ensures
        went_on(app, crate::live_keys::scrolled(app, lines), lines),
{
}

proof fn lemma_step_down(app: AppView)
    requires
        app.data.events.len() <= usize::MAX,
        app.data.chunks().len() <= usize::MAX,
    ensures
        went_down(app, crate::live_keys::step_down(app)),
{
    if app.panes.focused_debugger_pane != LiveDebuggerPane::Trace {
        lemma_scrolled(app, 1);
    }
}

proof fn lemma_step_up(app: AppView)
    requires
        app.data.chunks().len() <= usize::MAX,
    ensures
        went_up(app, crate::live_keys::step_up(app)),
{
    if app.panes.focused_debugger_pane != LiveDebuggerPane::Trace {
        lemma_scrolled(app, -1);
    }
}

proof fn lemma_page(app: AppView)
    requires
        app.data.events.len() <= usize::MAX,
    ensures
        went_a_page(app, crate::live_keys::page_down(app), true),
        went_a_page(app, crate::live_keys::page_up(app), false),
{
    if app.panes.focused_debugger_pane != LiveDebuggerPane::Trace {
        lemma_scrolled(app, 10);
        lemma_scrolled(app, -10);
    }
}

proof fn lemma_top(app: AppView)
    ensures
        went_to_top(app, app.at_top()),
{
}

/// `Down` and `j` go one step down, and do nothing else.
pub proof fn law_down_goes_down(app: AppView, key: Key, input_closed: bool)
    requires
        no_prompt(app),
        key.code == KeyCode::Down || key.code == KeyCode::Char('j'),
        app.data.events.len() <= usize::MAX,
        app.data.chunks().len() <= usize::MAX,
    ensures
        live_key(app, key, input_closed).action == KeyAction::Stay,
        went_down(app, live_key(app, key, input_closed).app),
{
    lemma_step_down(app);
    assert(live_key(app, key, input_closed).app == crate::live_keys::step_down(app));
}

/// `Up` and `k` go one step up, and do nothing else.
pub proof fn law_up_goes_up(app: AppView, key: Key, input_closed: bool)
    requires
        no_prompt(app),
        key.code == KeyCode::Up || key.code == KeyCode::Char('k'),
        app.data.chunks().len() <= usize::MAX,
    ensures
        live_key(app, key, input_closed).action == KeyAction::Stay,
        went_up(app, live_key(app, key, input_closed).app),
{
    lemma_step_up(app);
    assert(live_key(app, key, input_closed).app == crate::live_keys::step_up(app));
}

/// The page keys go ten events or ten lines at a time, and no further than the ends.
pub proof fn law_pages_are_ten(app: AppView, key: Key, input_closed: bool)
    requires
        no_prompt(app),
        key.code == KeyCode::PageDown || key.code == KeyCode::PageUp,
        app.data.events.len() <= usize::MAX,
    ensures
        live_key(app, key, input_closed).action == KeyAction::Stay,
        went_a_page(app, live_key(app, key, input_closed).app, key.code == KeyCode::PageDown),
{
    lemma_page(app);
    if key.code == KeyCode::PageDown {
        assert(live_key(app, key, input_closed).app == crate::live_keys::page_down(app));
    } else {
        assert(live_key(app, key, input_closed).app == crate::live_keys::page_up(app));
    }
}

/// `Home` goes to the first event or to the top of the focused pane.
pub proof fn law_home_goes_to_the_top(app: AppView, key: Key, input_closed: bool)
    requires
        no_prompt(app),
        key.code == KeyCode::Home,
    ensures
        live_key(app, key, input_closed).action == KeyAction::Stay,
        went_to_top(app, live_key(app, key, input_closed).app),
{
    lemma_top(app);
    assert(live_key(app, key, input_closed).app == app.at_top());
}

/// `End` in the trace goes to the latest event and follows from there.
pub proof fn law_end_follows(app: AppView, key: Key, input_closed: bool)
    requires
        no_prompt(app),
        key.code == KeyCode::End,
        app.panes.focused_debugger_pane == LiveDebuggerPane::Trace,
        app.data.events.len() <= usize::MAX,
    ensures
        live_key(app, key, input_closed).action == KeyAction::Stay,
        live_key(app, key, input_closed).app == (AppView {
            control: ControlView {
                selected_index: most(0, app.data.events.len() - 1) as usize,
                follow_tail: true,
                ..app.control
            },
            ..app
        }),
{
    assert(live_key(app, key, input_closed).app == app.select_latest());
}

/// What comes forward with the focus: the timeline with the trace, the details with registers
/// and code, the layout with the heap tab, and what belongs to the event with everything else.
pub open spec fn shown_with(pane: LiveDebuggerPane, tab: LiveRightTab) -> LiveTuiPane {
    if pane == LiveDebuggerPane::Trace {
        LiveTuiPane::Timeline
    } else if pane == LiveDebuggerPane::Registers || pane == LiveDebuggerPane::Code {
        LiveTuiPane::Details
    } else if pane == LiveDebuggerPane::RightTab && tab == LiveRightTab::Heap {
        LiveTuiPane::HeapLayout
    } else {
        LiveTuiPane::Related
    }
}

/// Whether only the focus changed.
pub open spec fn focused(
    before: AppView,
    after: AppView,
    pane: LiveDebuggerPane,
    tab: LiveRightTab,
) -> bool {
    after == (AppView {
        panes: LivePanes {
            focused_debugger_pane: pane,
            active_right_tab: tab,
            focused_pane: shown_with(pane, tab),
            ..before.panes
        },
        ..before
    })
}

/// The pane behind another in the order from the registers over code, trace and console to the
/// right column and round.
pub open spec fn pane_after(pane: LiveDebuggerPane) -> LiveDebuggerPane {
    match pane {
        LiveDebuggerPane::Registers => LiveDebuggerPane::Code,
        LiveDebuggerPane::Code => LiveDebuggerPane::Trace,
        LiveDebuggerPane::Trace => LiveDebuggerPane::Console,
        LiveDebuggerPane::Console => LiveDebuggerPane::RightTab,
        LiveDebuggerPane::RightTab => LiveDebuggerPane::Registers,
    }
}

/// The tab to the right of another, round the row.
pub open spec fn tab_after(tab: LiveRightTab) -> LiveRightTab {
    match tab {
        LiveRightTab::Heap => LiveRightTab::Stack,
        LiveRightTab::Stack => LiveRightTab::Logs,
        LiveRightTab::Logs => LiveRightTab::Maps,
        LiveRightTab::Maps => LiveRightTab::Heap,
    }
}

proof fn lemma_round(pane: LiveDebuggerPane, tab: LiveRightTab)
    ensures
        crate::panes::next_pane(pane, 1) == pane_after(pane),
        pane_after(crate::panes::next_pane(pane, -1)) == pane,
        crate::panes::next_tab(tab, 1) == tab_after(tab),
        tab_after(crate::panes::next_tab(tab, -1)) == tab,
{
    let p = crate::panes::debugger_panes();
    let t = crate::panes::right_tabs();
    assert(p[0] is Registers && p[1] is Code && p[2] is Trace && p[3] is Console && p[4]
        is RightTab);
    assert(t[0] is Heap && t[1] is Stack && t[2] is Logs && t[3] is Maps);
}

proof fn lemma_focus(app: AppView, pane: LiveDebuggerPane, tab: LiveRightTab)
    ensures
        focused(app, app.with_panes(app.panes.focus(pane)), pane, app.panes.active_right_tab),
        focused(app, app.with_panes(app.panes.open_tab(tab)), LiveDebuggerPane::RightTab, tab),
{
}

/// `Tab` gives the focus to the pane behind the focused one, and `BackTab` to the one that it is
/// behind.
pub proof fn law_tab_goes_round(app: AppView, key: Key, input_closed: bool)
    requires
        no_prompt(app),
        key.code == KeyCode::Tab || key.code == KeyCode::BackTab,
    ensures
        ({
            let step = live_key(app, key, input_closed);
            let pane = step.app.panes.focused_debugger_pane;
            &&& step.action == KeyAction::Stay
            &&& focused(app, step.app, pane, app.panes.active_right_tab)
            &&& key.code == KeyCode::Tab ==> pane == pane_after(app.panes.focused_debugger_pane)
            &&& key.code == KeyCode::BackTab ==> pane_after(pane)
                == app.panes.focused_debugger_pane
        }),
{
    let next = crate::panes::next_pane(app.panes.focused_debugger_pane, 1);
    let last = crate::panes::next_pane(app.panes.focused_debugger_pane, -1);
    lemma_round(app.panes.focused_debugger_pane, app.panes.active_right_tab);
    lemma_focus(app, next, LiveRightTab::Heap);
    lemma_focus(app, last, LiveRightTab::Heap);
    if key.code == KeyCode::Tab {
        assert(live_key(app, key, input_closed).app == app.with_panes(app.panes.focus(next)));
    } else {
        assert(live_key(app, key, input_closed).app == app.with_panes(app.panes.focus(last)));
    }
}

/// The digits open the tabs of the right column from left to right; `]` opens the next one and
/// `[` the one before, round the row.
pub proof fn law_tabs_open(app: AppView, key: Key, input_closed: bool, tab: LiveRightTab)
    requires
        no_prompt(app),
        ({
            ||| key.code == KeyCode::Char('1') && tab == LiveRightTab::Heap
            ||| key.code == KeyCode::Char('2') && tab == LiveRightTab::Stack
            ||| key.code == KeyCode::Char('3') && tab == LiveRightTab::Logs
            ||| key.code == KeyCode::Char('4') && tab == LiveRightTab::Maps
            ||| key.code == KeyCode::Char(']') && tab == tab_after(app.panes.active_right_tab)
            ||| key.code == KeyCode::Char('[') && tab_after(tab) == app.panes.active_right_tab
        }),
    ensures
        live_key(app, key, input_closed).action == KeyAction::Stay,
        focused(
            app,
            live_key(app, key, input_closed).app,
            LiveDebuggerPane::RightTab,
            tab,
        ),
{
    lemma_round(LiveDebuggerPane::Trace, app.panes.active_right_tab);
    lemma_focus(app, LiveDebuggerPane::Trace, tab);
    assert(live_key(app, key, input_closed).app == app.with_panes(app.panes.open_tab(tab)));
}

/// Whether the heap pane was hidden or brought back; the trace gets the focus where it hides the
/// layout that had it.
pub open spec fn heap_pane_toggled(before: AppView, after: AppView) -> bool {
    let hides_focus = before.panes.show_heap_pane && before.panes.focused_pane
        == LiveTuiPane::HeapLayout;
    let panes = LivePanes { show_heap_pane: !before.panes.show_heap_pane, ..before.panes };
    after == (AppView {
        panes: if hides_focus {
            LivePanes {
                focused_debugger_pane: LiveDebuggerPane::Trace,
                focused_pane: LiveTuiPane::Timeline,
                ..panes
            }
        } else {
            panes
        },
        ..before
    })
}

/// Whether the scan pane was hidden or brought back, and nothing else moved while the heap pane
/// is there.
pub open spec fn scan_pane_toggled(before: AppView, after: AppView) -> bool {
    &&& after.panes.show_scan_pane == !before.panes.show_scan_pane
    &&& after.panes.show_heap_pane == before.panes.show_heap_pane
    &&& before.panes.show_heap_pane ==> after == (AppView {
        panes: LivePanes { show_scan_pane: !before.panes.show_scan_pane, ..before.panes },
        ..before
    })
}

proof fn lemma_toggles(app: AppView)
    ensures
        heap_pane_toggled(
            app,
            app.with_panes(
                (LivePanes { show_heap_pane: !app.panes.show_heap_pane, ..app.panes }).visible(),
            ),
        ),
        scan_pane_toggled(
            app,
            app.with_panes(
                (LivePanes { show_scan_pane: !app.panes.show_scan_pane, ..app.panes }).visible(),
            ),
        ),
{
}

/// `h` hides the heap pane or brings it back, `s` the scan pane, and `i` the inspector, which
/// then starts from its top.
pub proof fn law_panes_toggle(app: AppView, key: Key, input_closed: bool)
    requires
        no_prompt(app),
        key.code == KeyCode::Char('h') || key.code == KeyCode::Char('s') || key.code
            == KeyCode::Char('i'),
    ensures
        live_key(app, key, input_closed).action == KeyAction::Stay,
        key.code == KeyCode::Char('h') ==> heap_pane_toggled(
            app,
            live_key(app, key, input_closed).app,
        ),
        key.code == KeyCode::Char('s') ==> scan_pane_toggled(
            app,
            live_key(app, key, input_closed).app,
        ),
        key.code == KeyCode::Char('i') ==> live_key(app, key, input_closed).app == (AppView {
            panes: LivePanes {
                show_chunk_inspector: !app.panes.show_chunk_inspector,
                chunk_inspector_scroll: 0,
                ..app.panes
            },
            ..app
        }),
{
    lemma_toggles(app);
    if key.code == KeyCode::Char('h') {
        assert(live_key(app, key, input_closed).app == app.with_panes(
            (LivePanes { show_heap_pane: !app.panes.show_heap_pane, ..app.panes }).visible(),
        ));
    } else if key.code == KeyCode::Char('s') {
        assert(live_key(app, key, input_closed).app == app.with_panes(
            (LivePanes { show_scan_pane: !app.panes.show_scan_pane, ..app.panes }).visible(),
        ));
    }
}

/// `f` stops following the latest event, or selects it and follows from there.
pub proof fn law_f_toggles_following(app: AppView, key: Key, input_closed: bool)
    requires
        no_prompt(app),
        key.code == KeyCode::Char('f'),
        app.data.events.len() <= usize::MAX,
    ensures
        live_key(app, key, input_closed).action == KeyAction::Stay,
        live_key(app, key, input_closed).app == (AppView {
            control: ControlView {
                follow_tail: !app.control.follow_tail,
                selected_index: if app.control.follow_tail {
                    app.control.selected_index
                } else {
                    most(0, app.data.events.len() - 1) as usize
                },
                ..app.control
            },
            ..app
        }),
{
}

/// Whether the selected chunk, or the first where none is, was taken from the latest layout and
/// opened in the inspector.
pub open spec fn inspected(before: AppView, after: AppView) -> bool {
    &&& selects(
        after.chunk,
        before.data.chunks(),
        if before.chunk.index is Some {
            least(before.chunk.index->0 as int, before.data.chunks().len() - 1)
        } else {
            0
        },
    )
    &&& after == (AppView {
        chunk: after.chunk,
        panes: LivePanes { show_chunk_inspector: true, chunk_inspector_scroll: 0, ..before.panes },
        ..before
    })
}

proof fn lemma_enter(app: AppView)
    requires
        app.data.chunks().len() <= usize::MAX,
    ensures
        heap_tab_focused(app) ==> inspected(app, crate::live_keys::enter(app)),
        !heap_tab_focused(app) ==> crate::live_keys::enter(app) == app,
{
}

/// `Enter` inspects the selected chunk in the heap tab and does nothing elsewhere.
pub proof fn law_enter_inspects(app: AppView, key: Key, input_closed: bool)
    requires
        no_prompt(app),
        key.code == KeyCode::Enter,
        app.data.chunks().len() <= usize::MAX,
    ensures
        live_key(app, key, input_closed).action == KeyAction::Stay,
        heap_tab_focused(app) ==> inspected(app, live_key(app, key, input_closed).app),
        !heap_tab_focused(app) ==> live_key(app, key, input_closed).app == app,
{
    lemma_enter(app);
    assert(live_key(app, key, input_closed).app == crate::live_keys::enter(app));
}

/// `g` opens an empty search prompt, and `:` an empty console line with the focus on it.
pub proof fn law_prompts_open(app: AppView, key: Key, input_closed: bool)
    requires
        no_prompt(app),
        key.code == KeyCode::Char('g') || key.code == KeyCode::Char(':'),
    ensures
        live_key(app, key, input_closed).action == KeyAction::Stay,
        key.code == KeyCode::Char('g') ==> live_key(app, key, input_closed).app == (AppView {
            search: SearchView { prompt_active: true, input: Seq::empty(), status: None },
            ..app
        }),
        key.code == KeyCode::Char(':') ==> focused(
            AppView {
                console: ConsoleView {
                    input_active: true,
                    input: Seq::empty(),
                    history_index: None,
                    ..app.console
                },
                ..app
            },
            live_key(app, key, input_closed).app,
            LiveDebuggerPane::Console,
            app.panes.active_right_tab,
        ),
{
}

/// The other keys of the screen do nothing.
pub proof fn law_other_keys_do_nothing(app: AppView, key: Key, input_closed: bool)
    requires
        no_prompt(app),
        key.code == KeyCode::Backspace || key.code == KeyCode::Left || key.code == KeyCode::Right
            || key.code == KeyCode::Other,
    ensures
        live_key(app, key, input_closed).action == KeyAction::Stay,
        live_key(app, key, input_closed).app == app,
{
}

} // verus!
