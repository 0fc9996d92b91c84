//! The application state machine: a running flag and a two-valued display
//! mode, driven by keyboard input.
//!
//! The machine starts in `Menu` with `running` set. A quit key (Escape, `q`,
//! or `c`/`C` with the control modifier) clears `running`; Enter switches the
//! mode from `Menu` to `Game`. Every other input leaves the state unchanged,
//! and there is no transition out of `Game` back to `Menu`.

use vstd::prelude::*;

verus! {

/// The screen selector: the menu screen or the game screen.
#[derive(Clone, Copy, Debug, PartialEq, Eq, Structural)]
pub enum Mode {
    Menu,
    Game,
}

impl Default for Mode {
    /// The initial screen is the menu.
    fn default() -> (r: Self)
        ensures
            r == Mode::Menu,
    {
        Mode::Menu
    }
}

/// A key, reduced to what the transitions inspect: the two special keys,
/// a printable character, or anything else.
#[derive(Clone, Copy, Debug)]
pub enum KeyCode {
    Esc,
    Enter,
    Char(char),
    Other,
}

/// A key event: the key together with whether the control modifier was held.
#[derive(Clone, Copy, Debug)]
pub struct KeyEvent {
    pub code: KeyCode,
    pub ctrl: bool,
}

/// A terminal input event. Only a key press can change the state; a key
/// release or repeat, mouse activity, a resize notification and anything
/// else are consumed without effect.
#[derive(Clone, Copy, Debug)]
pub enum InputEvent {
    Key { event: KeyEvent, press: bool },
    Mouse,
    Resize(u16, u16),
    Other,
}

/// The application state: whether the main loop keeps going, and which
/// screen is shown.
#[derive(Clone, Copy, Debug, PartialEq, Eq, Structural)]
pub struct App {
    pub running: bool,
    pub mode: Mode,
}

/// Whether `k` requests termination: Escape, the character `q`, or
/// `c`/`C` together with the control modifier.
pub open spec fn is_quit_key(k: KeyEvent) -> bool {
    ||| k.code == KeyCode::Esc
    ||| k.code == KeyCode::Char('q')
    ||| k.ctrl && (k.code == KeyCode::Char('c') || k.code == KeyCode::Char('C'))
}

/// Whether `k` confirms the menu selection: the Enter key.
pub open spec fn is_confirm_key(k: KeyEvent) -> bool {
    k.code == KeyCode::Enter
}

/// Whether `ev` is a key press, the only kind of event that can change
/// the state.
pub open spec fn is_key_press(ev: InputEvent) -> bool {
    ev matches InputEvent::Key { event, press } && press
}

/// The transition taken on a pressed key: a quit key clears `running`, the
/// confirm key selects the game screen, and every other key changes nothing.
pub open spec fn step_key(pre: App, k: KeyEvent) -> App {
    if is_quit_key(k) {
        App { running: false, mode: pre.mode }
    } else if is_confirm_key(k) {
        App { running: pre.running, mode: Mode::Game }
    } else {
        pre
    }
}

/// The transition taken on an arbitrary input event: key presses step the
/// machine, everything else is inert.
pub open spec fn step_event(pre: App, ev: InputEvent) -> App {
    match ev {
        InputEvent::Key { event, press } => if press {
            step_key(pre, event)
        } else {
            pre
        },
        _ => pre,
    }
}

impl App {
    /// Construct the initial state: running, on the menu screen.
    pub fn new() -> (r: Self)
        ensures
            r.running == true,
            r.mode == Mode::Menu,
    {
        App { running: true, mode: Mode::Menu }
    }

    /// Request termination of the main loop.
    pub fn quit(&mut self)
        ensures
            final(self).running == false,
            final(self).mode == old(self).mode,
    {
        self.running = false;
    }

    /// Switch to the game screen.
    pub fn start_game(&mut self)
        ensures
            final(self).mode == Mode::Game,
            final(self).running == old(self).running,
    {
        self.mode = Mode::Game;
    }

    /// Apply the transition for a pressed key.
    pub fn on_key_event(&mut self, key: KeyEvent)
        ensures
            *final(self) == step_key(*old(self), key),
    {
        match key.code {
            KeyCode::Esc => self.quit(),
            KeyCode::Char(c) => {
                if c == 'q' || (key.ctrl && (c == 'c' || c == 'C')) {
                    self.quit();
                }
            },
            KeyCode::Enter => self.start_game(),
            KeyCode::Other => {},
        }
    }

    /// Apply the transition for an arbitrary input event.
    pub fn handle_event(&mut self, ev: InputEvent)
        ensures
            *final(self) == step_event(*old(self), ev),
    {
        match ev {
            InputEvent::Key { event, press } => {
                if press {
                    self.on_key_event(event);
                }
            },
            InputEvent::Mouse => {},
            InputEvent::Resize(_, _) => {},
            InputEvent::Other => {},
        }
    }
}

/// Every quit key stops the machine and leaves the mode alone, from either
/// screen.
pub proof fn lemma_quit_key_stops(pre: App, k: KeyEvent)
    requires
        is_quit_key(k),
    ensures
        step_key(pre, k).running == false,
        step_key(pre, k).mode == pre.mode,
{
}

/// The confirm key selects the game screen and leaves `running` alone; from
/// the game screen it changes nothing at all.
pub proof fn lemma_confirm_starts_game(pre: App, k: KeyEvent)
    requires
        is_confirm_key(k),
    ensures
        step_key(pre, k).mode == Mode::Game,
        step_key(pre, k).running == pre.running,
        pre.mode == Mode::Game ==> step_key(pre, k) == pre,
{
}

/// A pressed key that is neither a quit key nor the confirm key changes
/// nothing.
pub proof fn lemma_other_key_inert(pre: App, k: KeyEvent)
    requires
        !is_quit_key(k),
        !is_confirm_key(k),
    ensures
        step_key(pre, k) == pre,
{
}

/// An event that is not a key press — a key release or repeat, mouse
/// activity, a resize, anything else — changes nothing.
pub proof fn lemma_non_press_inert(pre: App, ev: InputEvent)
    requires
        !is_key_press(ev),
    ensures
        step_event(pre, ev) == pre,
{
}

/// Transitions are one-way: once `running` is false it stays false, and once
/// the game screen is selected the machine never returns to the menu.
pub proof fn lemma_step_one_way(pre: App, ev: InputEvent)
    ensures
        !pre.running ==> !step_event(pre, ev).running,
        pre.mode == Mode::Game ==> step_event(pre, ev).mode == Mode::Game,
{
}

} // verus!
