//! Decisions of the interactive loop and of the exporter's key listener:
//! what a key press does, when to repaint, and which row an update replaces.

use vstd::prelude::*;
use vstd::view::View as ModelView;

use crate::theme::ThemeKind;
use crate::view::View;

verus! {

/// A key, as far as the program tells keys apart.
#[derive(Debug, Clone, Copy, PartialEq, Eq, Structural)]
pub enum Key {
    Char(char),
    Esc,
    Tab,
    Other,
}

/// A key press: the key, and whether Control was the only modifier held.
#[derive(Debug, Clone, Copy, PartialEq, Eq, Structural)]
pub struct KeyPress {
    pub key: Key,
    pub control: bool,
}

/// What the interactive loop does after a key press.
#[derive(Debug, Clone, Copy, PartialEq, Eq, Structural)]
pub enum KeyAction {
    /// Stop the program.
    Quit,
    /// The state may have changed: paint again.
    Redraw,
    /// Nothing to do.
    Ignore,
}

/// The display state a user changes with keys.
#[derive(Debug, Clone, Copy, PartialEq, Eq, Structural)]
pub struct UiState {
    pub view: View,
    pub theme: ThemeKind,
}

/// The key presses that stop the program: `q`, Esc, or Control-`c`.
pub open spec fn is_quit(k: KeyPress) -> bool {
    ||| k.key == Key::Char('q')
    ||| k.key == Key::Esc
    ||| (k.key == Key::Char('c') && k.control)
}

/// What a key press does to the display state, and what the loop does next.
pub open spec fn key_effect(s: UiState, k: KeyPress) -> (UiState, KeyAction) {
    if is_quit(k) {
        (s, KeyAction::Quit)
    } else {
        match k.key {
            Key::Char('1') => (UiState { view: View::Graph, ..s }, KeyAction::Redraw),
            Key::Char('2') => (UiState { view: View::Table, ..s }, KeyAction::Redraw),
            Key::Char('3') => (UiState { view: View::Point, ..s }, KeyAction::Redraw),
            Key::Char('4') => (UiState { view: View::Sparkline, ..s }, KeyAction::Redraw),
            Key::Tab => (UiState { view: s.view.successor(), ..s }, KeyAction::Redraw),
            Key::Char('t') => (UiState { theme: s.theme.successor(), ..s }, KeyAction::Redraw),
            Key::Char('T') => (UiState { theme: s.theme.successor(), ..s }, KeyAction::Redraw),
            _ => (s, KeyAction::Ignore),
        }
    }
}

/// Handles a key press in the interactive mode: `q`, Esc and Control-`c`
/// quit; `1`-`4` choose a view; Tab moves to the next view; `t`/`T` switch
/// the theme; every other key is ignored.
pub fn handle_key(state: UiState, press: KeyPress) -> (r: (UiState, KeyAction))
    ensures
        r == key_effect(state, press),
        press.key == Key::Char('1') ==> r == (UiState { view: View::Graph, theme: state.theme }, KeyAction::Redraw),
        press.key == Key::Char('2') ==> r == (UiState { view: View::Table, theme: state.theme }, KeyAction::Redraw),
        press.key == Key::Char('3') ==> r == (UiState { view: View::Point, theme: state.theme }, KeyAction::Redraw),
        press.key == Key::Char('4') ==> r == (
            UiState { view: View::Sparkline, theme: state.theme },
            KeyAction::Redraw,
        ),
        press.key == Key::Tab ==> r.1 == KeyAction::Redraw && r.0.theme == state.theme
            && r.0.view != state.view && r.0.view == View::of_code(
            ((state.view.code() + 1) % 4) as u8,
        ),
        (press.key == Key::Char('t') || press.key == Key::Char('T')) ==> r.1 == KeyAction::Redraw
            && r.0.view == state.view && r.0.theme != state.theme,
        (press.key == Key::Char('q') || press.key == Key::Esc || (press.key == Key::Char('c')
            && press.control)) ==> r == (state, KeyAction::Quit),
        r.1 == KeyAction::Ignore <==> !(press.key == Key::Char('q') || press.key == Key::Esc || (
        press.key == Key::Char('c') && press.control) || press.key == Key::Char('1') || press.key
            == Key::Char('2') || press.key == Key::Char('3') || press.key == Key::Char('4')
            || press.key == Key::Tab || press.key == Key::Char('t') || press.key == Key::Char(
            'T',
        )),
        r.1 == KeyAction::Ignore ==> r.0 == state,
{
    match press.key {
        Key::Char('q') | Key::Esc => (state, KeyAction::Quit),
        Key::Char('c') if press.control => (state, KeyAction::Quit),
        Key::Char('1') => (UiState { view: View::Graph, theme: state.theme }, KeyAction::Redraw),
        Key::Char('2') => (UiState { view: View::Table, theme: state.theme }, KeyAction::Redraw),
        Key::Char('3') => (UiState { view: View::Point, theme: state.theme }, KeyAction::Redraw),
        Key::Char('4') => (UiState { view: View::Sparkline, theme: state.theme }, KeyAction::Redraw),
        Key::Tab => (UiState { view: state.view.next(), theme: state.theme }, KeyAction::Redraw),
        Key::Char('t') | Key::Char('T') => (
            UiState { view: state.view, theme: state.theme.next() },
            KeyAction::Redraw,
        ),
        _ => (state, KeyAction::Ignore),
    }
}

/// Whether a key press stops the exporter: `q`, Esc, or Control-`c`.
pub fn exporter_key_stops(press: KeyPress) -> (r: bool)
    ensures
        r == is_quit(press),
{
    match press.key {
        Key::Char('q') | Key::Esc => true,
        Key::Char('c') => press.control,
        _ => false,
    }
}

/// The interactive loop's counters after one turn: the animation tick moves
/// on (wrapping) when a tick period has passed, and the screen is repainted
/// when a key changed the state, a ping update arrived, or the tick moved.
pub fn end_of_turn(tick: u64, key_redraw: bool, got_update: bool, tick_due: bool) -> (r: (
    u64,
    bool,
))
    ensures
        r.0 == (if tick_due {
            if tick == u64::MAX {
                0
            } else {
                (tick + 1) as u64
            }
        } else {
            tick
        }),
        r.1 == (key_redraw || got_update || tick_due),
{
    let next = if tick_due {
        tick.wrapping_add(1)
    } else {
        tick
    };
    (next, key_redraw || got_update || tick_due)
}

/// The first row whose target and address are `addr` and `ip`, if any.
pub fn find_entry(entries: &Vec<(String, String)>, addr: &String, ip: &String) -> (r: Option<
    usize,
>)
    ensures
        match r {
            Some(i) => {
                &&& i < entries@.len()
                &&& entries@[i as int].0@ == addr@
                &&& entries@[i as int].1@ == ip@
                &&& forall|j: int|
                    0 <= j < i ==> !(entries@[j].0@ == addr@ && entries@[j].1@ == ip@)
            },
            None => forall|j: int|
                0 <= j < entries@.len() ==> !(entries@[j].0@ == addr@ && entries@[j].1@ == ip@),
        },
{
    let mut i: usize = 0;
    while i < entries.len()
        invariant
            i <= entries@.len(),
            forall|j: int| 0 <= j < i ==> !(entries@[j].0@ == addr@ && entries@[j].1@ == ip@),
        decreases entries@.len() - i,
    {
        if entries[i].0 == *addr && entries[i].1 == *ip {
            return Some(i);
        }
        i = i + 1;
    }
    None
}

/// Quitting keys leave the display state as it was.
pub proof fn lemma_quit_keeps_state(s: UiState, k: KeyPress)
    requires
        is_quit(k),
    ensures
        key_effect(s, k) == (s, KeyAction::Quit),
{
}

/// A key changes the view only when it is `1`-`4` or Tab, and the theme only
/// when it is `t` or `T`.
pub proof fn lemma_key_touches_one_setting(s: UiState, k: KeyPress)
    ensures
        key_effect(s, k).0.theme != s.theme ==> (k.key == Key::Char('t') || k.key == Key::Char('T')),
        key_effect(s, k).0.view != s.view ==> (k.key == Key::Char('1') || k.key == Key::Char('2')
            || k.key == Key::Char('3') || k.key == Key::Char('4') || k.key == Key::Tab),
        key_effect(s, k).1 == KeyAction::Ignore ==> key_effect(s, k).0 == s,
{
}

/// Pressing Tab four times shows the starting view again; pressing `t` twice
/// shows the starting theme again.
pub proof fn lemma_keys_cycle(s: UiState)
    ensures
        ({
            let tab = KeyPress { key: Key::Tab, control: false };
            let s1 = key_effect(s, tab).0;
            let s2 = key_effect(s1, tab).0;
            let s3 = key_effect(s2, tab).0;
            key_effect(s3, tab).0 == s
        }),
        ({
            let t = KeyPress { key: Key::Char('t'), control: false };
            key_effect(key_effect(s, t).0, t).0 == s
        }),
{
}

/// Choosing a view by its number does the same the second time: the keys
/// `1`-`4` are idempotent.
pub proof fn lemma_view_keys_idempotent(s: UiState, k: KeyPress)
    requires
        k.key == Key::Char('1') || k.key == Key::Char('2') || k.key == Key::Char('3') || k.key
            == Key::Char('4'),
    ensures
        key_effect(key_effect(s, k).0, k) == key_effect(s, k),
{
}

/// The number keys pick their view whatever view is shown, keep the theme,
/// and ask for a repaint: `1` graph, `2` table, `3` point, `4` sparkline.
pub proof fn lemma_number_keys_pick_view(s: UiState, control: bool)
    ensures
        key_effect(s, KeyPress { key: Key::Char('1'), control }) == (
            UiState { view: View::Graph, theme: s.theme },
            KeyAction::Redraw,
        ),
        key_effect(s, KeyPress { key: Key::Char('2'), control }) == (
            UiState { view: View::Table, theme: s.theme },
            KeyAction::Redraw,
        ),
        key_effect(s, KeyPress { key: Key::Char('3'), control }) == (
            UiState { view: View::Point, theme: s.theme },
            KeyAction::Redraw,
        ),
        key_effect(s, KeyPress { key: Key::Char('4'), control }) == (
            UiState { view: View::Sparkline, theme: s.theme },
            KeyAction::Redraw,
        ),
{
}

/// The view a number key picks does not depend on the view shown before.
pub proof fn lemma_number_key_ignores_current_view(s1: UiState, s2: UiState, k: KeyPress)
    requires
        k.key == Key::Char('1') || k.key == Key::Char('2') || k.key == Key::Char('3') || k.key
            == Key::Char('4'),
    ensures
        key_effect(s1, k).0.view == key_effect(s2, k).0.view,
        key_effect(s1, k).0.theme == s1.theme,
{
}

} // verus!
