//! A press-and-hold countdown timer with a cyclically navigable list,
//! driven by a fixed-rate tick loop.

pub mod dashboard;
pub mod elapsed_text;
pub mod scheduler;
pub mod selectable;
pub mod timer;

pub use dashboard::App;
pub use elapsed_text::{decimal, decimal_string, digit_char, elapsed_text, format_elapsed};
pub use scheduler::{is_quit_key, is_timer_key, selection_after_key, Flow, KeyInput, Scheduler};
pub use selectable::{
    list_selection, next_selection, next_times, previous_selection, unselect_times, ListView,
    StatefulList,
};
pub use timer::{
    initial_timer, run_ticks, silent, step_fits, timer_step, timer_wf, TimerStatus, TimerView,
    COUNTDOWN_START, RELEASE_TICKS,
};
