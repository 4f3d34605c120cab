use waveform_canvas::timing::{
    frame_offset, CanvasAction, CanvasEvent, CanvasTimer, FRAME_INTERVAL_MS, INVALID_TIMER,
};

#[test]
fn new_canvas_has_no_timer() {
    assert_eq!(CanvasTimer::new().token, INVALID_TIMER);
}

#[test]
fn window_connected_asks_for_repaint_and_timer() {
    let mut t = CanvasTimer::new();
    let mut elapsed: u64 = 0;
    let a = t.event(&CanvasEvent::WindowConnected, &mut elapsed);
    assert_eq!(a, CanvasAction::RepaintAndSchedule);
    assert_eq!(elapsed, 0);
    assert_eq!(t.token, INVALID_TIMER);
}

#[test]
fn current_tick_advances_one_frame() {
    let mut t = CanvasTimer::new();
    t.timer_scheduled(5);
    let mut elapsed: u64 = 100;
    let a = t.event(&CanvasEvent::Timer(5), &mut elapsed);
    assert_eq!(a, CanvasAction::RepaintAndSchedule);
    assert_eq!(elapsed, 120);
    assert_eq!(t.token, 5);
}

#[test]
fn stale_tick_changes_nothing() {
    let mut t = CanvasTimer::new();
    t.timer_scheduled(9);
    let mut elapsed: u64 = 60;
    let a = t.event(&CanvasEvent::Timer(8), &mut elapsed);
    assert_eq!(a, CanvasAction::Ignore);
    assert_eq!(elapsed, 60);
    assert_eq!(t.token, 9);
}

#[test]
fn other_events_are_ignored() {
    let mut t = CanvasTimer::new();
    t.timer_scheduled(3);
    let mut elapsed: u64 = 40;
    assert_eq!(t.event(&CanvasEvent::Other, &mut elapsed), CanvasAction::Ignore);
    assert_eq!(elapsed, 40);
    assert_eq!(t.token, 3);
}

#[test]
fn n_current_ticks_add_n_frames() {
    let mut t = CanvasTimer::new();
    let mut elapsed: u64 = 0;
    assert_eq!(
        t.event(&CanvasEvent::WindowConnected, &mut elapsed),
        CanvasAction::RepaintAndSchedule
    );
    t.timer_scheduled(1);
    for n in 1..=50u64 {
        // a stale firing in between is ignored
        assert_eq!(t.event(&CanvasEvent::Timer(n + 1000), &mut elapsed), CanvasAction::Ignore);
        let token = t.token;
        assert_eq!(
            t.event(&CanvasEvent::Timer(token), &mut elapsed),
            CanvasAction::RepaintAndSchedule
        );
        t.timer_scheduled(n + 1);
        assert_eq!(elapsed, n * FRAME_INTERVAL_MS);
    }
    assert_eq!(elapsed, 1000);
}

#[test]
fn frame_offset_counts_whole_frames() {
    assert_eq!(frame_offset(0), 0);
    assert_eq!(frame_offset(19), 0);
    assert_eq!(frame_offset(20), 1);
    assert_eq!(frame_offset(39), 1);
    assert_eq!(frame_offset(1000), 50);
    assert_eq!(frame_offset(u64::MAX), u64::MAX / 20);
}
