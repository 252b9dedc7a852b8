use hold_timer::{App, TimerStatus, COUNTDOWN_START, RELEASE_TICKS};

fn tick(app: &mut App, key: bool) {
    assert!(app.timer_can_advance());
    app.update_timer(key);
}

fn started() -> App<'static> {
    let mut app = App::new();
    tick(&mut app, true);
    app
}

#[test]
fn new_app_is_paused_at_zero() {
    let app = App::new();
    assert_eq!(app.timing_status(), TimerStatus::Paused);
    assert_eq!(app.time(), 0);
    assert_eq!(app.times().items(), &vec![1, 2, 4, 3]);
    assert_eq!(app.times().selected(), None);
}

#[test]
fn paused_ticks_without_press_change_nothing() {
    let mut app = App::new();
    for _ in 0..100 {
        tick(&mut app, false);
    }
    assert_eq!(app.timing_status(), TimerStatus::Paused);
    assert_eq!(app.time(), 0);
}

#[test]
fn press_on_paused_timer_starts_countdown() {
    let app = started();
    assert_eq!(app.timing_status(), TimerStatus::CountingDown);
    assert_eq!(app.time(), 1500);
    assert_eq!(COUNTDOWN_START, 1500);
}

#[test]
fn held_key_keeps_counting_down() {
    let mut app = started();
    for _ in 0..200 {
        tick(&mut app, true);
    }
    assert_eq!(app.timing_status(), TimerStatus::CountingDown);
    assert_eq!(app.time(), 1300);
}

#[test]
fn sixty_silent_ticks_keep_counting_down() {
    let mut app = started();
    for _ in 0..60 {
        tick(&mut app, false);
    }
    assert_eq!(RELEASE_TICKS, 60);
    assert_eq!(app.timing_status(), TimerStatus::CountingDown);
    assert_eq!(app.time(), 1440);
}

#[test]
fn sixty_first_silent_tick_counts_up_from_zero() {
    let mut app = started();
    for _ in 0..61 {
        tick(&mut app, false);
    }
    assert_eq!(app.timing_status(), TimerStatus::CountingUp);
    assert_eq!(app.time(), 0);
    tick(&mut app, false);
    assert_eq!(app.time(), 1);
    tick(&mut app, true);
    assert_eq!(app.timing_status(), TimerStatus::CountingUp);
    assert_eq!(app.time(), 2);
}

#[test]
fn press_at_tick_thirty_renews_hold() {
    let mut app = started();
    for _ in 0..29 {
        tick(&mut app, false);
    }
    tick(&mut app, true);
    assert_eq!(app.timing_status(), TimerStatus::CountingDown);
    assert_eq!(app.time(), 1470);
    for _ in 0..60 {
        tick(&mut app, false);
    }
    assert_eq!(app.timing_status(), TimerStatus::CountingDown);
    assert_eq!(app.time(), 1410);
    tick(&mut app, false);
    assert_eq!(app.timing_status(), TimerStatus::CountingUp);
    assert_eq!(app.time(), 0);
}

#[test]
fn counting_up_never_restarts_countdown() {
    let mut app = started();
    for _ in 0..61 {
        tick(&mut app, false);
    }
    for _ in 0..10 {
        tick(&mut app, true);
        tick(&mut app, false);
    }
    assert_eq!(app.timing_status(), TimerStatus::CountingUp);
    assert_eq!(app.time(), 20);
}

#[test]
fn legend_has_twenty_entries() {
    let app = App::new();
    let legend = app.keybinds();
    assert_eq!(legend.len(), 20);
    assert_eq!(legend[0], ("Quit", "q"));
    assert_eq!(legend[2], ("Event3", "CRITICAL"));
    assert_eq!(legend[6], ("Event7", "WARNING"));
    assert_eq!(legend[17], ("Event18", "ERROR"));
    assert_eq!(legend[19], ("Event20", "INFO"));
}
