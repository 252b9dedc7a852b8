use hold_timer::{App, Flow, KeyInput, Scheduler, TimerStatus};

const TICK: u64 = 10_000_000;

#[test]
fn wait_is_what_is_left_of_the_tick() {
    let s = Scheduler::new(TICK);
    assert_eq!(s.poll_wait(0), TICK);
    assert_eq!(s.poll_wait(4_000_000), 6_000_000);
    assert_eq!(s.poll_wait(TICK), 0);
    assert_eq!(s.poll_wait(25_000_000), 0);
}

#[test]
fn tick_is_due_once_its_length_has_passed() {
    let s = Scheduler::new(TICK);
    assert!(!s.tick_due(9_999_999));
    assert!(s.tick_due(TICK));
    assert!(s.tick_due(TICK + 1));
}

#[test]
fn quit_key_ends_the_loop() {
    let mut s = Scheduler::new(TICK);
    let mut app = App::new();
    assert_eq!(s.on_key(&mut app, KeyInput::Char('q')), Flow::Quit);
    assert!(!s.key_pressed_in_tick);
}

#[test]
fn arrow_keys_move_the_selection() {
    let mut s = Scheduler::new(TICK);
    let mut app = App::new();
    assert_eq!(s.on_key(&mut app, KeyInput::Down), Flow::Continue);
    assert_eq!(app.times().selected(), Some(0));
    s.on_key(&mut app, KeyInput::Up);
    assert_eq!(app.times().selected(), Some(3));
    s.on_key(&mut app, KeyInput::Left);
    assert_eq!(app.times().selected(), None);
    s.on_key(&mut app, KeyInput::Other);
    s.on_key(&mut app, KeyInput::Char('x'));
    assert_eq!(app.times().selected(), None);
    assert!(!s.key_pressed_in_tick);
}

#[test]
fn timer_key_counts_for_the_next_tick_only() {
    let mut s = Scheduler::new(TICK);
    let mut app = App::new();
    assert_eq!(s.on_key(&mut app, KeyInput::Char(' ')), Flow::Continue);
    assert!(s.key_pressed_in_tick);
    assert_eq!(app.timing_status(), TimerStatus::Paused);
    s.on_tick(&mut app);
    assert!(!s.key_pressed_in_tick);
    assert_eq!(app.timing_status(), TimerStatus::CountingDown);
    assert_eq!(app.time(), 1500);
    s.on_tick(&mut app);
    assert_eq!(app.time(), 1499);
}
