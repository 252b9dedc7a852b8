//! The application's state: the list of times, the keybind legend, and the
//! timer.

use crate::elapsed_text::{elapsed_text, format_elapsed};
use crate::selectable::{ListView, StatefulList};
use crate::timer::{
    initial_timer, step_fits, timer_step, timer_wf, TimerStatus, TimerView, COUNTDOWN_START,
    RELEASE_TICKS,
};
use vstd::prelude::*;

verus! {

pub struct App<'a> {
    times: StatefulList<u32>,
    keybinds: [(&'a str, &'a str); 20],
    time: i32,
    timing_status: TimerStatus,
    ticks_with_no_key: u32,
}

impl<'a> App<'a> {
    /// The timer's state.
    pub closed spec fn timer(&self) -> TimerView {
        TimerView {
            status: self.timing_status,
            time: self.time as int,
            silent_ticks: self.ticks_with_no_key as nat,
        }
    }

    /// The list of times.
    pub closed spec fn list(&self) -> ListView<u32> {
        self.times@
    }

    /// The legend: each entry an event's name and its level.
    pub closed spec fn legend(&self) -> Seq<(&'a str, &'a str)> {
        self.keybinds@
    }

    pub open spec fn wf(&self) -> bool {
        timer_wf(self.timer()) && self.list().wf()
    }

    /// A paused timer at 0, the times 1, 2, 4, 3 (in that order, to show
    /// that the list keeps its order) with nothing selected, and the legend.
    pub fn new() -> (r: App<'a>)
        ensures
            r.timer() == initial_timer(),
            r.list().items == seq![1u32, 2, 4, 3],
            r.list().selected == None::<usize>,
            r.legend() == seq![
                ("Quit", "q"),
                ("Event2", "INFO"),
                ("Event3", "CRITICAL"),
                ("Event4", "ERROR"),
                ("Event5", "INFO"),
                ("Event6", "INFO"),
                ("Event7", "WARNING"),
                ("Event8", "INFO"),
                ("Event9", "INFO"),
                ("Event10", "INFO"),
                ("Event11", "CRITICAL"),
                ("Event12", "INFO"),
                ("Event13", "INFO"),
                ("Event14", "INFO"),
                ("Event15", "INFO"),
                ("Event16", "INFO"),
                ("Event17", "ERROR"),
                ("Event18", "ERROR"),
                ("Event19", "INFO"),
                ("Event20", "INFO"),
            ],
            r.wf(),
    {
        let items: Vec<u32> = vec![1, 2, 4, 3];
        let app = App {
            times: StatefulList::with_items(items),
            keybinds: [
                ("Quit", "q"),
                ("Event2", "INFO"),
                ("Event3", "CRITICAL"),
                ("Event4", "ERROR"),
                ("Event5", "INFO"),
                ("Event6", "INFO"),
                ("Event7", "WARNING"),
                ("Event8", "INFO"),
                ("Event9", "INFO"),
                ("Event10", "INFO"),
                ("Event11", "CRITICAL"),
                ("Event12", "INFO"),
                ("Event13", "INFO"),
                ("Event14", "INFO"),
                ("Event15", "INFO"),
                ("Event16", "INFO"),
                ("Event17", "ERROR"),
                ("Event18", "ERROR"),
                ("Event19", "INFO"),
                ("Event20", "INFO"),
            ],
            time: 0,
            timing_status: TimerStatus::Paused,
            ticks_with_no_key: 0,
        };
        assert(app.times@.items =~= seq![1u32, 2, 4, 3]);
        app
    }

    /// Whether the next tick's arithmetic fits the counters, so that
    /// `update_timer` may be called.
    pub fn timer_can_advance(&self) -> (r: bool)
        ensures
            r == step_fits(self.timer()),
    {
        match self.timing_status {
            TimerStatus::CountingDown => self.time > i32::MIN && self.ticks_with_no_key < u32::MAX,
            TimerStatus::CountingUp => self.time < i32::MAX,
            TimerStatus::Paused => true,
        }
    }

    /// Advances the timer by one tick; `key_pressed_in_tick` says whether
    /// the timer key was pressed during the tick.
    pub fn update_timer(&mut self, key_pressed_in_tick: bool)
        requires
            step_fits(old(self).timer()),
        ensures
            final(self).timer() == timer_step(old(self).timer(), key_pressed_in_tick),
            final(self).list() == old(self).list(),
            final(self).legend() == old(self).legend(),
            old(self).wf() ==> final(self).wf(),
    {
        match self.timing_status {
            TimerStatus::CountingDown => self.time = self.time - 1,
            TimerStatus::CountingUp => self.time = self.time + 1,
            TimerStatus::Paused => {},
        }

        if key_pressed_in_tick {
            if self.timing_status == TimerStatus::Paused && self.ticks_with_no_key == 0 {
                self.time = COUNTDOWN_START;
                self.timing_status = TimerStatus::CountingDown;
            }
            self.ticks_with_no_key = 0;
            return;
        }
        if self.timing_status != TimerStatus::CountingDown {
            return;
        }
        // The terminal repeats a held key's press; only a silent run longer
        // than the gap between repeats means that the key was released.
        self.ticks_with_no_key = self.ticks_with_no_key + 1;
        if self.ticks_with_no_key <= RELEASE_TICKS {
            return;
        }
        self.ticks_with_no_key = 0;
        self.time = 0;
        self.timing_status = TimerStatus::CountingUp;
    }

    pub fn time(&self) -> (r: i32)
        ensures
            r as int == self.timer().time,
    {
        self.time
    }

    pub fn timing_status(&self) -> (r: TimerStatus)
        ensures
            r == self.timer().status,
    {
        self.timing_status
    }

    /// The count as text with two decimals; `None` for a negative count.
    pub fn time_text(&self) -> (r: Option<String>)
        ensures
            self.timer().time < 0 <==> r is None,
            r matches Some(s) ==> s@ == elapsed_text(self.timer().time as nat),
    {
        format_elapsed(self.time)
    }

    pub fn times(&self) -> (r: &StatefulList<u32>)
        ensures
            r@ == self.list(),
    {
        &self.times
    }

    /// The list of times, to move its selection or to draw it.
    pub fn times_mut(&mut self) -> (r: &mut StatefulList<u32>)
        ensures
            r@ == old(self).list(),
            final(self).list() == final(r)@,
            final(self).timer() == old(self).timer(),
            final(self).legend() == old(self).legend(),
    {
        &mut self.times
    }

    pub fn keybinds(&self) -> (r: &[(&'a str, &'a str); 20])
        ensures
            r@ == self.legend(),
    {
        &self.keybinds
    }
}

} // verus!
