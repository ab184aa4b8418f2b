use win_msgbox::{
    Countdown, NotifyRegistry, RECT, TimerAction, effective_dpi, notify_class_name,
    popup_origin, wait_notifications, wide_ptr_to_string, to_wide,
};

#[test]
fn wait_notifications_empty() {
    // Nothing registered: nothing to wait for.
    let mut registry: NotifyRegistry<u32> = NotifyRegistry::new();
    let handles = wait_notifications(&mut registry);
    assert!(handles.is_empty());
    assert_eq!(registry.len(), 0);
}

#[test]
fn multiple_notifications() {
    let mut registry: NotifyRegistry<&str> = NotifyRegistry::new();
    registry.register(&vec![], "Message A");
    registry.register(&vec![false], "Message B");
    let handles = wait_notifications(&mut registry);
    assert_eq!(handles, vec!["Message A", "Message B"]);
    assert_eq!(registry.len(), 0);
}

#[test]
fn register_drops_finished_threads() {
    let mut registry: NotifyRegistry<u32> = NotifyRegistry::new();
    registry.register(&vec![], 1);
    registry.register(&vec![false], 2);
    registry.register(&vec![false, false], 3);
    registry.register(&vec![true, false, true], 4);
    assert_eq!(registry.handles(), &vec![2, 4]);
    let handles = wait_notifications(&mut registry);
    assert_eq!(handles, vec![2, 4]);
    assert!(wait_notifications(&mut registry).is_empty());
}

fn caption(t: &Option<String>) -> String {
    t.clone().expect("a caption")
}

#[test]
fn countdown_initial_title() {
    let c = Countdown::new("Task", 5000);
    assert!(c.needs_timer());
    assert_eq!(c.last_secs, 5);
    assert_eq!(caption(&c.initial_title()), "5 - Task");
    let c = Countdown::new("Task", 100);
    assert_eq!(caption(&c.initial_title()), "1 - Task");
    let c = Countdown::new("Task", 1001);
    assert_eq!(caption(&c.initial_title()), "2 - Task");
}

#[test]
fn countdown_without_timeout() {
    let c = Countdown::new("Task", 0);
    assert!(!c.needs_timer());
    assert!(c.initial_title().is_none());
    let mut c = c;
    assert!(matches!(c.on_timer(0), TimerAction::Close));
}

#[test]
fn countdown_ticks() {
    let mut c = Countdown::new("Done", 2500);
    assert_eq!(c.last_secs, 3);
    assert!(matches!(c.on_timer(100), TimerAction::Keep));
    match c.on_timer(600) {
        TimerAction::Retitle(t) => assert_eq!(t, "2 - Done"),
        _ => panic!("expected a new title"),
    }
    assert!(matches!(c.on_timer(1400), TimerAction::Keep));
    match c.on_timer(1600) {
        TimerAction::Retitle(t) => assert_eq!(t, "1 - Done"),
        _ => panic!("expected a new title"),
    }
    assert!(matches!(c.on_timer(2499), TimerAction::Keep));
    assert!(matches!(c.on_timer(2500), TimerAction::Close));
    assert!(matches!(c.on_timer(9000), TimerAction::Close));
    assert_eq!(c.last_secs, 1);
}

#[test]
fn countdown_seconds_never_rise() {
    let mut c = Countdown::new("x", 10_000);
    let mut shown = c.last_secs;
    let mut elapsed = 0;
    while elapsed < 10_000 {
        let _ = c.on_timer(elapsed);
        assert!(c.last_secs >= 1);
        assert!(c.last_secs <= shown);
        shown = c.last_secs;
        elapsed += 137;
    }
}

#[test]
fn dpi_fallback() {
    assert_eq!(effective_dpi(0), 96);
    assert_eq!(effective_dpi(144), 144);
}

#[test]
fn popup_in_bottom_right_corner() {
    let area = RECT { left: 0, top: 0, right: 1920, bottom: 1040 };
    assert_eq!(popup_origin(&area, 364, 109), (1556, 931));
}

#[test]
fn class_name_carries_stamp() {
    assert_eq!(notify_class_name(123), "NotifyWnd_123");
    let w = to_wide(&notify_class_name(0));
    assert_eq!(wide_ptr_to_string(Some(&w)), "NotifyWnd_0");
}
