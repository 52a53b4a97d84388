//! Panes, tabs and scroll arithmetic of the live debugger screen.

use crate::text;
use crate::text::cat7;
use vstd::prelude::*;

verus! {

/// The five panes that can hold the focus, in the order in which it moves.
#[derive(Clone, Copy, Debug, PartialEq, Eq, Structural)]
pub enum LiveDebuggerPane {
    Registers,
    Code,
    Trace,
    Console,
    RightTab,
}

/// The four tabs of the right column, from left to right.
#[derive(Clone, Copy, Debug, PartialEq, Eq, Structural)]
pub enum LiveRightTab {
    Heap,
    Stack,
    Logs,
    Maps,
}

pub open spec fn debugger_panes() -> Seq<LiveDebuggerPane> {
    seq![
        LiveDebuggerPane::Registers,
        LiveDebuggerPane::Code,
        LiveDebuggerPane::Trace,
        LiveDebuggerPane::Console,
        LiveDebuggerPane::RightTab,
    ]
}

pub open spec fn right_tabs() -> Seq<LiveRightTab> {
    seq![LiveRightTab::Heap, LiveRightTab::Stack, LiveRightTab::Logs, LiveRightTab::Maps]
}

/// The position of a pane in the focus order.
pub open spec fn pane_index(pane: LiveDebuggerPane) -> int {
    match pane {
        LiveDebuggerPane::Registers => 0,
        LiveDebuggerPane::Code => 1,
        LiveDebuggerPane::Trace => 2,
        LiveDebuggerPane::Console => 3,
        LiveDebuggerPane::RightTab => 4,
    }
}

/// The position of a tab in the tab row.
pub open spec fn tab_index(tab: LiveRightTab) -> int {
    match tab {
        LiveRightTab::Heap => 0,
        LiveRightTab::Stack => 1,
        LiveRightTab::Logs => 2,
        LiveRightTab::Maps => 3,
    }
}

/// The pane `direction` places further in the focus order, which is cyclic.
pub open spec fn next_pane(current: LiveDebuggerPane, direction: int) -> LiveDebuggerPane {
    debugger_panes()[(pane_index(current) + direction) % 5]
}

/// The tab `direction` places further to the right, round the cyclic row.
pub open spec fn next_tab(current: LiveRightTab, direction: int) -> LiveRightTab {
    right_tabs()[(tab_index(current) + direction) % 4]
}

/// `value` modulo `len`, from zero up.
fn wrapped(value: isize, len: isize) -> (r: isize)
    requires
        0 < len,
    ensures
        r == (value as int) % (len as int),
        0 <= r < len,
{
    if value >= 0 {
        value % len
    } else {
        // -1 - value does not overflow, and r + rest == len - 1
        let rest: isize = (-1 - value) % len;
        assert((value as int) % (len as int) == len - 1 - rest) by {
            let m = -1 - value;
            vstd::arithmetic::div_mod::lemma_fundamental_div_mod(m as int, len as int);
            let q = (m as int) / (len as int);
            assert(value == len * (-q - 1) + (len - 1 - rest)) by (nonlinear_arith)
                requires
                    m == -1 - value,
                    m == len * q + rest,
            ;
            vstd::arithmetic::div_mod::lemma_fundamental_div_mod_converse(
                value as int,
                len as int,
                -q - 1,
                len - 1 - rest,
            );
        }
        len - 1 - rest
    }
}

pub fn next_live_debugger_pane(current: LiveDebuggerPane, direction: isize) -> (r:
    LiveDebuggerPane)
    ensures
        r == next_pane(current, direction as int),
{
    let start: isize = match current {
        LiveDebuggerPane::Registers => 0,
        LiveDebuggerPane::Code => 1,
        LiveDebuggerPane::Trace => 2,
        LiveDebuggerPane::Console => 3,
        LiveDebuggerPane::RightTab => 4,
    };
    let step: isize = wrapped(direction, 5);
    let index: isize = (start + step) % 5;
    if index == 0 {
        LiveDebuggerPane::Registers
    } else if index == 1 {
        LiveDebuggerPane::Code
    } else if index == 2 {
        LiveDebuggerPane::Trace
    } else if index == 3 {
        LiveDebuggerPane::Console
    } else {
        LiveDebuggerPane::RightTab
    }
}

pub fn next_live_right_tab(current: LiveRightTab, direction: isize) -> (r: LiveRightTab)
    ensures
        r == next_tab(current, direction as int),
{
    let start: isize = match current {
        LiveRightTab::Heap => 0,
        LiveRightTab::Stack => 1,
        LiveRightTab::Logs => 2,
        LiveRightTab::Maps => 3,
    };
    let step: isize = wrapped(direction, 4);
    let index: isize = (start + step) % 4;
    if index == 0 {
        LiveRightTab::Heap
    } else if index == 1 {
        LiveRightTab::Stack
    } else if index == 2 {
        LiveRightTab::Logs
    } else {
        LiveRightTab::Maps
    }
}

pub open spec fn tab_label(tab: LiveRightTab) -> Seq<char> {
    match tab {
        LiveRightTab::Heap => "Heap"@,
        LiveRightTab::Stack => "Stack"@,
        LiveRightTab::Logs => "Logs"@,
        LiveRightTab::Maps => "Maps"@,
    }
}

impl LiveRightTab {
    pub fn label(self) -> (r: &'static str)
        ensures
            r@ == tab_label(self),
    {
        match self {
            LiveRightTab::Heap => "Heap",
            LiveRightTab::Stack => "Stack",
            LiveRightTab::Logs => "Logs",
            LiveRightTab::Maps => "Maps",
        }
    }
}

/// One entry of the tab row: its number and name, in brackets when it is the active one.
pub open spec fn tab_entry(tab: LiveRightTab, active: LiveRightTab) -> Seq<char> {
    let number = text::dec((tab_index(tab) + 1) as nat);
    if tab == active {
        "["@ + number + ":"@ + tab_label(tab) + "]"@
    } else {
        " "@ + number + ":"@ + tab_label(tab) + " "@
    }
}

/// The whole tab row.
pub open spec fn tab_row(active: LiveRightTab) -> Seq<char> {
    tab_entry(LiveRightTab::Heap, active) + " "@ + tab_entry(LiveRightTab::Stack, active) + " "@
        + tab_entry(LiveRightTab::Logs, active) + " "@ + tab_entry(LiveRightTab::Maps, active)
}

fn format_tab_entry(tab: LiveRightTab, number: usize, active: LiveRightTab) -> (r: String)
    requires
        number == tab_index(tab) + 1,
    ensures
        r@ == tab_entry(tab, active),
{
    if tab == active {
        text::cat5("[", text::format_dec_usize(number).as_str(), ":", tab.label(), "]")
    } else {
        text::cat5(" ", text::format_dec_usize(number).as_str(), ":", tab.label(), " ")
    }
}

pub fn format_right_tabs(active: LiveRightTab) -> (r: String)
    ensures
        r@ == tab_row(active),
{
    cat7(
        format_tab_entry(LiveRightTab::Heap, 1, active).as_str(),
        " ",
        format_tab_entry(LiveRightTab::Stack, 2, active).as_str(),
        " ",
        format_tab_entry(LiveRightTab::Logs, 3, active).as_str(),
        " ",
        format_tab_entry(LiveRightTab::Maps, 4, active).as_str(),
    )
}

/// A pane title, starred when the pane has the focus.
pub open spec fn pane_title(title: Seq<char>, focused: bool) -> Seq<char> {
    if focused {
        title + " *"@
    } else {
        title
    }
}

pub fn format_pane_title(title: &str, focused: bool) -> (r: String)
    ensures
        r@ == pane_title(title@, focused),
{
    if focused {
        text::cat2(title, " *")
    } else {
        text::owned(title)
    }
}

/// The largest offset at which a view of `height` lines is still full, at most `scroll`.
pub open spec fn clamped(scroll: nat, line_count: nat, height: nat) -> nat {
    if height == 0 || line_count <= height {
        0
    } else if scroll <= line_count - height {
        scroll
    } else {
        (line_count - height) as nat
    }
}

pub fn clamp_scroll(scroll: usize, line_count: usize, viewport_height: usize) -> (r: usize)
    ensures
        r == clamped(scroll as nat, line_count as nat, viewport_height as nat),
{
    if viewport_height == 0 || line_count <= viewport_height {
        0
    } else {
        let last: usize = line_count - viewport_height;
        if scroll <= last {
            scroll
        } else {
            last
        }
    }
}

/// `scroll + delta`, kept between zero and the largest `usize`.
pub open spec fn moved(scroll: usize, delta: int) -> usize {
    if scroll + delta < 0 {
        0
    } else if scroll + delta > usize::MAX {
        usize::MAX
    } else {
        (scroll + delta) as usize
    }
}

pub fn scroll_delta(scroll: usize, delta: isize) -> (r: usize)
    ensures
        r == moved(scroll, delta as int),
{
    if delta < 0 {
        // -1 - delta does not overflow
        let back: usize = (-1 - delta) as usize;
        if scroll <= back {
            0
        } else {
            scroll - back - 1
        }
    } else {
        let ahead: usize = delta as usize;
        if ahead > usize::MAX - scroll {
            usize::MAX
        } else {
            scroll + ahead
        }
    }
}

/// `[first-last/total]` in lines counted from one; nothing when all lines are in view.
pub open spec fn scroll_indicator(scroll: nat, line_count: nat, height: nat) -> Seq<char> {
    if line_count <= height || height == 0 {
        Seq::empty()
    } else {
        let first = clamped(scroll, line_count, height);
        "["@ + text::dec(first + 1) + "-"@ + text::dec(first + height) + "/"@ + text::dec(
            line_count,
        ) + "]"@
    }
}

pub fn format_scroll_indicator(scroll: usize, line_count: usize, viewport_height: usize) -> (r:
    String)
    ensures
        r@ == scroll_indicator(scroll as nat, line_count as nat, viewport_height as nat),
{
    if line_count <= viewport_height || viewport_height == 0 {
        let r = text::owned("");
        proof {
            reveal_strlit("");
        }
        r
    } else {
        let first: usize = clamp_scroll(scroll, line_count, viewport_height);
        let last: usize = first + viewport_height;
        cat7(
            "[",
            text::format_dec_usize(first + 1).as_str(),
            "-",
            text::format_dec_usize(last).as_str(),
            "/",
            text::format_dec_usize(line_count).as_str(),
            "]",
        )
    }
}

/// The number of line feeds of a text.
pub open spec fn line_feeds(s: Seq<char>) -> nat
    decreases s.len(),
{
    if s.len() == 0 {
        0
    } else {
        line_feeds(s.drop_last()) + if s.last() == '\n' {
            1nat
        } else {
            0nat
        }
    }
}

/// The number of lines of a text, at least one: a last line that no line feed ends counts.
pub open spec fn line_count_of(s: Seq<char>) -> nat {
    let lines = line_feeds(s) + if s.len() > 0 && s.last() != '\n' {
        1nat
    } else {
        0nat
    };
    if lines == 0 {
        1
    } else {
        lines
    }
}

proof fn lemma_line_feeds_bound(s: Seq<char>)
    ensures
        line_feeds(s) <= s.len(),
    decreases s.len(),
{
    if s.len() > 0 {
        lemma_line_feeds_bound(s.drop_last());
    }
}

pub fn text_line_count(text: &str) -> (r: usize)
    ensures
        r == line_count_of(text@),
{
    let chars = crate::number::char_vec(text);
    let mut lines: usize = 0;
    let mut i: usize = 0;
    while i < chars.len()
        invariant
            0 <= i <= chars.len(),
            chars@ == text@,
            lines == line_feeds(text@.take(i as int)),
            lines <= i,
        decreases chars.len() - i,
    {
        assert(text@.take(i + 1).drop_last() =~= text@.take(i as int));
        assert(text@.take(i + 1).last() == text@[i as int]);
        if chars[i] == '\n' {
            lines = lines + 1;
        }
        i = i + 1;
    }
    assert(text@.take(i as int) =~= text@);
    if chars.len() > 0 && chars[chars.len() - 1] != '\n' {
        proof {
            lemma_line_feeds_bound(text@.drop_last());
        }
        lines = lines + 1;
    }
    if lines == 0 {
        1
    } else {
        lines
    }
}

pub fn clamped_scroll_for_text(text: &str, scroll: usize, viewport_height: usize) -> (r: usize)
    ensures
        r == clamped(scroll as nat, line_count_of(text@), viewport_height as nat),
{
    clamp_scroll(scroll, text_line_count(text), viewport_height)
}

/// The offset as the terminal takes it: the largest `u16` where it does not fit.
pub fn scroll_offset_u16(scroll: usize) -> (r: u16)
    ensures
        scroll <= u16::MAX ==> r == scroll,
        scroll > u16::MAX ==> r == u16::MAX,
{
    if scroll > 65535 {
        65535
    } else {
        scroll as u16
    }
}

/// A clamped offset is within what was asked for and leaves the view full, and clamping it
/// again changes nothing.
pub proof fn law_clamp_scroll(scroll: nat, line_count: nat, height: nat)
    ensures
        clamped(scroll, line_count, height) <= scroll,
        clamped(scroll, line_count, height) > 0 ==> clamped(scroll, line_count, height) + height
            <= line_count,
        clamped(clamped(scroll, line_count, height), line_count, height) == clamped(
            scroll,
            line_count,
            height,
        ),
{
}

/// Moving the focus one way and then back returns to the pane it left, and five steps
/// either way come round.
pub proof fn law_pane_cycle(pane: LiveDebuggerPane, direction: int)
    ensures
        next_pane(next_pane(pane, direction), -direction) == pane,
        next_pane(pane, 5) == pane,
        next_pane(pane, -5) == pane,
{
    let i = pane_index(pane);
    let k = (i + direction) % 5;
    assert(0 <= k < 5);
    assert(pane_index(debugger_panes()[k]) == k);
    assert((k - direction) % 5 == i);
    assert(debugger_panes()[i] == pane);
}

/// Moving to another tab and then back by as many places returns to the tab it left, and
/// four steps either way come round.
pub proof fn law_tab_cycle(tab: LiveRightTab, direction: int)
    ensures
        next_tab(next_tab(tab, direction), -direction) == tab,
        next_tab(tab, 4) == tab,
        next_tab(tab, -4) == tab,
{
    let i = tab_index(tab);
    let k = (i + direction) % 4;
    assert(0 <= k < 4);
    assert(tab_index(right_tabs()[k]) == k);
    assert((k - direction) % 4 == i);
    assert(right_tabs()[i] == tab);
}

/// Scrolling by `delta` and then by `-delta` returns to the first offset, where the first
/// step stays within `usize`.
pub proof fn law_scroll_back(scroll: usize, delta: int)
    requires
        0 <= scroll + delta <= usize::MAX,
    ensures
        moved(moved(scroll, delta), -delta) == scroll,
{
}

} // verus!
