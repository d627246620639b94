use rsiss::scheduler::event_from_key;
use rsiss::scheduler::PollEvent;
use rsiss::scheduler::PollScheduler;
use rsiss::scheduler::POLL_WINDOW_MS;
use rsiss::scheduler::REFRESH_THRESHOLD_MS;
use rsiss::scheduler::WINDOWS_PER_REFRESH;
use rsiss::screen::Action;
use rsiss::screen::KeyInput;
use rsiss::App;
use rsiss::CurrentScreen;

fn silent_windows(scheduler: &mut PollScheduler, app: &mut App, windows: u32) -> Vec<u32> {
    let mut refreshes = Vec::new();
    for window in 1..=windows {
        match scheduler.step(app, PollEvent::Timeout) {
            Action::Refresh => refreshes.push(window),
            Action::Continue => {}
            Action::Exit => panic!("silence ended the program"),
        }
    }
    refreshes
}

#[test]
fn timing_constants() {
    assert_eq!(POLL_WINDOW_MS, 250);
    assert_eq!(REFRESH_THRESHOLD_MS, 5500);
    assert_eq!(WINDOWS_PER_REFRESH * POLL_WINDOW_MS, REFRESH_THRESHOLD_MS);
}

#[test]
fn twenty_two_silent_windows_refresh_once() {
    let mut scheduler = PollScheduler::new();
    let mut app = App::new();
    assert_eq!(silent_windows(&mut scheduler, &mut app, 22), vec![22]);
    assert_eq!(scheduler.idle_ms(), 0);
}

#[test]
fn twenty_one_silent_windows_do_not_refresh() {
    let mut scheduler = PollScheduler::new();
    let mut app = App::new();
    assert_eq!(silent_windows(&mut scheduler, &mut app, 21), Vec::<u32>::new());
    assert_eq!(scheduler.idle_ms(), 5250);
}

#[test]
fn silence_refreshes_at_every_twenty_second_window() {
    let mut scheduler = PollScheduler::new();
    let mut app = App::new();
    assert_eq!(silent_windows(&mut scheduler, &mut app, 100), vec![22, 44, 66, 88]);
    assert_eq!(scheduler.idle_ms(), 12 * 250);
}

#[test]
fn input_at_tick_ten_restarts_the_count() {
    let mut scheduler = PollScheduler::new();
    let mut app = App::new();
    assert_eq!(silent_windows(&mut scheduler, &mut app, 9), Vec::<u32>::new());
    assert_eq!(scheduler.idle_ms(), 2250);
    assert_eq!(scheduler.step(&mut app, PollEvent::Input(KeyInput::Other)), Action::Continue);
    assert_eq!(scheduler.idle_ms(), 0);
    assert_eq!(silent_windows(&mut scheduler, &mut app, 12), Vec::<u32>::new());
    assert_eq!(silent_windows(&mut scheduler, &mut app, 10), vec![10]);
}

#[test]
fn input_after_ten_silent_windows_delays_refresh_by_a_full_period() {
    let mut scheduler = PollScheduler::new();
    let mut app = App::new();
    assert_eq!(silent_windows(&mut scheduler, &mut app, 10), Vec::<u32>::new());
    scheduler.step(&mut app, PollEvent::Input(KeyInput::Advance));
    assert_eq!(silent_windows(&mut scheduler, &mut app, 30), vec![22]);
}

#[test]
fn silence_grows_by_one_window_at_a_time() {
    let mut scheduler = PollScheduler::new();
    let mut app = App::new();
    assert_eq!(scheduler.idle_ms(), 0);
    for window in 1..22u32 {
        assert_eq!(scheduler.step(&mut app, PollEvent::Timeout), Action::Continue);
        assert_eq!(scheduler.idle_ms(), window * 250);
    }
    assert_eq!(scheduler.step(&mut app, PollEvent::Timeout), Action::Refresh);
    assert_eq!(scheduler.idle_ms(), 0);
}

#[test]
fn input_goes_to_the_navigation() {
    let mut scheduler = PollScheduler::new();
    let mut app = App::new();
    assert_eq!(scheduler.step(&mut app, PollEvent::Input(KeyInput::Advance)), Action::Continue);
    assert_eq!(app.current_screen(), CurrentScreen::FullMap);
    assert_eq!(scheduler.step(&mut app, PollEvent::Input(KeyInput::ZoomOut)), Action::Continue);
    assert_eq!(app.zoom(), 60);
}

#[test]
fn refresh_key_refreshes_out_of_turn() {
    let mut scheduler = PollScheduler::new();
    let mut app = App::new();
    silent_windows(&mut scheduler, &mut app, 5);
    assert_eq!(scheduler.step(&mut app, PollEvent::Input(KeyInput::Refresh)), Action::Refresh);
    assert_eq!(scheduler.idle_ms(), 0);
    assert_eq!(silent_windows(&mut scheduler, &mut app, 22), vec![22]);
}

#[test]
fn silence_leaves_the_navigation_alone() {
    let mut scheduler = PollScheduler::new();
    let mut app = App::new();
    app.dispatch(KeyInput::Advance);
    app.dispatch(KeyInput::ZoomIn);
    silent_windows(&mut scheduler, &mut app, 50);
    assert_eq!(app.current_screen(), CurrentScreen::FullMap);
    assert_eq!(app.zoom(), 40);
}

#[test]
fn ignored_event_is_neither_input_nor_silence() {
    let mut scheduler = PollScheduler::new();
    let mut app = App::new();
    silent_windows(&mut scheduler, &mut app, 3);
    assert_eq!(scheduler.step(&mut app, PollEvent::Ignored), Action::Continue);
    assert_eq!(scheduler.idle_ms(), 750);
    assert_eq!(app.current_screen(), CurrentScreen::Tracker);
    assert_eq!(silent_windows(&mut scheduler, &mut app, 19), vec![19]);
}

#[test]
fn loop_ends_on_confirmed_exit() {
    let mut scheduler = PollScheduler::new();
    let mut app = App::new();
    assert_eq!(scheduler.step(&mut app, PollEvent::Input(KeyInput::Confirm)), Action::Continue);
    assert_eq!(scheduler.step(&mut app, PollEvent::Input(KeyInput::Quit)), Action::Continue);
    assert_eq!(scheduler.step(&mut app, PollEvent::Timeout), Action::Continue);
    assert_eq!(scheduler.step(&mut app, PollEvent::Input(KeyInput::Confirm)), Action::Exit);
}

#[test]
fn refresh_by_silence_goes_on_while_exiting() {
    let mut scheduler = PollScheduler::new();
    let mut app = App::new();
    scheduler.step(&mut app, PollEvent::Input(KeyInput::Quit));
    assert_eq!(silent_windows(&mut scheduler, &mut app, 22), vec![22]);
    assert_eq!(app.current_screen(), CurrentScreen::Exiting);
    assert_eq!(scheduler.step(&mut app, PollEvent::Input(KeyInput::Refresh)), Action::Continue);
}

#[test]
fn terminal_keys_are_read_as_events() {
    assert_eq!(event_from_key(Some('l'), false), PollEvent::Input(KeyInput::Advance));
    assert_eq!(event_from_key(Some('q'), false), PollEvent::Input(KeyInput::Quit));
    assert_eq!(event_from_key(Some('u'), false), PollEvent::Input(KeyInput::Refresh));
    assert_eq!(event_from_key(Some('x'), false), PollEvent::Input(KeyInput::Other));
    assert_eq!(event_from_key(None, false), PollEvent::Input(KeyInput::Other));
    assert_eq!(event_from_key(Some('l'), true), PollEvent::Ignored);
    assert_eq!(event_from_key(Some('q'), true), PollEvent::Ignored);
    assert_eq!(event_from_key(None, true), PollEvent::Ignored);
}
