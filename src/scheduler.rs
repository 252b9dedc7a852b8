//! The decisions of the fixed-rate polling loop: how long to wait for
//! input, what a key does, and what happens at a tick boundary. The loop
//! itself (the clock, the terminal) is the caller's.

use crate::dashboard::App;
use crate::selectable::{next_selection, previous_selection};
use crate::timer::{step_fits, timer_step};
use vstd::prelude::*;

verus! {

/// A key as the loop tells keys apart.
#[derive(Clone, Copy, Debug, PartialEq, Eq, Structural)]
pub enum KeyInput {
    Char(char),
    Left,
    Up,
    Down,
    Other,
}

/// Whether the loop goes on after an event.
#[derive(Clone, Copy, Debug, PartialEq, Eq, Structural)]
pub enum Flow {
    Continue,
    Quit,
}

/// The key that drives the timer.
pub open spec fn is_timer_key(key: KeyInput) -> bool {
    key == KeyInput::Char(' ')
}

pub open spec fn is_quit_key(key: KeyInput) -> bool {
    key == KeyInput::Char('q')
}

/// The selection after a key: left clears it, down moves it forward, up
/// moves it backward; other keys keep it.
pub open spec fn selection_after_key(key: KeyInput, sel: Option<usize>, len: nat) -> Option<usize> {
    match key {
        KeyInput::Left => None,
        KeyInput::Down => next_selection(sel, len),
        KeyInput::Up => previous_selection(sel, len),
        _ => sel,
    }
}

/// The loop's own state: the tick length, and whether the timer key was
/// pressed since the last tick.
pub struct Scheduler {
    pub tick_nanos: u64,
    pub key_pressed_in_tick: bool,
}

impl Scheduler {
    pub fn new(tick_nanos: u64) -> (r: Scheduler)
        ensures
            r.tick_nanos == tick_nanos,
            !r.key_pressed_in_tick,
    {
        Scheduler { tick_nanos, key_pressed_in_tick: false }
    }

    /// How long to wait for input, `since_tick_nanos` after the last tick:
    /// what is left of the tick, or nothing once it is over.
    pub fn poll_wait(&self, since_tick_nanos: u64) -> (r: u64)
        ensures
            r == (if since_tick_nanos >= self.tick_nanos {
                0
            } else {
                self.tick_nanos - since_tick_nanos
            }),
    {
        if since_tick_nanos >= self.tick_nanos {
            0
        } else {
            self.tick_nanos - since_tick_nanos
        }
    }

    /// Whether a tick boundary has been reached.
    pub fn tick_due(&self, since_tick_nanos: u64) -> (r: bool)
        ensures
            r == (since_tick_nanos >= self.tick_nanos),
    {
        since_tick_nanos >= self.tick_nanos
    }

    /// Handles a key: the timer key is noted for the current tick, the quit
    /// key ends the loop, the arrow keys move the selection.
    pub fn on_key(&mut self, app: &mut App, key: KeyInput) -> (r: Flow)
        ensures
            r == (if is_quit_key(key) { Flow::Quit } else { Flow::Continue }),
            final(self).tick_nanos == old(self).tick_nanos,
            final(self).key_pressed_in_tick == (old(self).key_pressed_in_tick || is_timer_key(key)),
            final(app).timer() == old(app).timer(),
            final(app).legend() == old(app).legend(),
            final(app).list().items == old(app).list().items,
            final(app).list().selected == selection_after_key(
                key,
                old(app).list().selected,
                old(app).list().items.len(),
            ),
    {
        match key {
            KeyInput::Char(c) => {
                if c == ' ' {
                    self.key_pressed_in_tick = true;
                } else if c == 'q' {
                    return Flow::Quit;
                }
            },
            KeyInput::Left => app.times_mut().unselect(),
            KeyInput::Down => app.times_mut().next(),
            KeyInput::Up => app.times_mut().previous(),
            KeyInput::Other => {},
        }
        Flow::Continue
    }

    /// At a tick boundary: advances the timer with whether its key was
    /// pressed during the tick, and starts a new tick with no press.
    pub fn on_tick(&mut self, app: &mut App)
        requires
            step_fits(old(app).timer()),
        ensures
            final(self).tick_nanos == old(self).tick_nanos,
            !final(self).key_pressed_in_tick,
            final(app).timer() == timer_step(old(app).timer(), old(self).key_pressed_in_tick),
            final(app).list() == old(app).list(),
            final(app).legend() == old(app).legend(),
            old(app).wf() ==> final(app).wf(),
    {
        app.update_timer(self.key_pressed_in_tick);
        self.key_pressed_in_tick = false;
    }
}

} // verus!
