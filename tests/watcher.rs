use hassium::bridge::Subscriptions;
use hassium::cache::WindowCache;
use hassium::geometry::{MoveRequest, Rect, WindowSnapshot};
use hassium::poll::{capture, is_app_window_exec, EnumeratedWindow, POPUP_STYLE};
use hassium::sleep::{DeviceEvent, SleepState};
use hassium::watcher::WindowWatcher;

fn rect(left: i32, top: i32, right: i32, bottom: i32) -> Rect {
    Rect { left, top, right, bottom }
}

fn app_window(id: isize, r: Rect) -> EnumeratedWindow {
    EnumeratedWindow { id, visible: true, style: 0, cloaked: 0, rect: r }
}

fn snap(id: isize, r: Rect) -> WindowSnapshot {
    WindowSnapshot { id, rect: r }
}

#[test]
fn removal_then_arrival_restores_cached_window() {
    let mut w = WindowWatcher::create();
    assert!(w.refresh(&vec![app_window(7, rect(0, 0, 800, 600))]));
    assert_eq!(w.read_snapshot(), vec![snap(7, rect(0, 0, 800, 600))]);

    w.on_removal(true);
    assert!(w.is_asleep());
    // The poll loop stops refreshing while asleep.
    assert!(!w.refresh(&vec![app_window(7, rect(10, 10, 300, 200))]));
    assert_eq!(w.read_snapshot(), vec![snap(7, rect(0, 0, 800, 600))]);

    assert!(w.on_arrival(true));
    assert!(!w.is_asleep());
    let moves = w.restore(&vec![true]);
    assert_eq!(moves, vec![MoveRequest { id: 7, x: 0, y: 0, width: 800, height: 600 }]);
}

#[test]
fn window_closed_while_asleep_is_pruned_on_wake() {
    let mut w = WindowWatcher::create();
    w.refresh(&vec![app_window(7, rect(0, 0, 800, 600))]);
    w.on_removal(true);
    assert!(w.on_arrival(true));
    assert_eq!(w.cached_ids(), vec![7]);
    let moves = w.restore(&vec![false]);
    assert!(moves.is_empty());
    assert!(w.read_snapshot().is_empty());
    assert!(w.cached_ids().is_empty());
}

#[test]
fn wake_waits_for_every_missing_display() {
    let mut w = WindowWatcher::create();
    w.refresh(&vec![app_window(7, rect(0, 0, 800, 600))]);
    w.on_removal(true);
    w.on_removal(true);
    assert!(w.is_asleep());
    assert!(!w.on_arrival(true));
    assert!(w.is_asleep());
    assert!(w.on_arrival(true));
    assert!(!w.is_asleep());
    // A further arrival while fully awake changes nothing.
    assert!(!w.on_arrival(true));
    assert!(!w.is_asleep());
}

#[test]
fn sleep_flag_follows_removals_and_arrivals() {
    let mut s = SleepState::new();
    assert!(!s.is_asleep());
    let events = [
        (DeviceEvent::Arrived, false, false),
        (DeviceEvent::Removed, true, false),
        (DeviceEvent::Removed, true, false),
        (DeviceEvent::Arrived, true, false),
        (DeviceEvent::Removed, true, false),
        (DeviceEvent::Arrived, true, false),
        (DeviceEvent::Arrived, false, true),
        (DeviceEvent::Arrived, false, false),
        (DeviceEvent::Removed, true, false),
    ];
    for (ev, asleep, woke) in events {
        assert_eq!(s.apply(ev), woke);
        assert_eq!(s.is_asleep(), asleep);
    }
}

#[test]
fn events_without_device_are_ignored() {
    let mut w = WindowWatcher::create();
    w.on_removal(false);
    assert!(!w.is_asleep());
    w.on_removal(true);
    assert!(!w.on_arrival(false));
    assert!(w.is_asleep());
    assert!(w.on_arrival(true));
}

#[test]
fn replace_then_read_snapshot_returns_entries() {
    let mut c = WindowCache::new();
    assert_eq!(c.len(), 0);
    let entries = vec![snap(3, rect(1, 2, 3, 4)), snap(1, rect(-5, -5, 5, 5)), snap(9, rect(0, 0, 0, 0))];
    c.replace(entries.clone());
    assert_eq!(c.read_snapshot(), entries);
    assert_eq!(c.ids(), vec![3, 1, 9]);
    assert!(c.contains(1));
    assert!(!c.contains(2));
    c.replace(vec![snap(4, rect(0, 0, 10, 10))]);
    assert_eq!(c.read_snapshot(), vec![snap(4, rect(0, 0, 10, 10))]);
}

#[test]
fn restore_moves_newest_first_and_skips_missing() {
    let mut c = WindowCache::new();
    c.replace(vec![
        snap(1, rect(0, 0, 100, 50)),
        snap(2, rect(10, 20, 30, 60)),
        snap(3, rect(-10, 0, 90, 40)),
    ]);
    let moves = c.restore(&vec![true, false, true]);
    assert_eq!(
        moves,
        vec![
            MoveRequest { id: 3, x: -10, y: 0, width: 100, height: 40 },
            MoveRequest { id: 1, x: 0, y: 0, width: 100, height: 50 },
        ]
    );
    assert!(moves.iter().all(|m| m.id != 2));
    assert_eq!(c.ids(), vec![1, 3]);
}

#[test]
fn restore_twice_gives_same_moves() {
    let mut c = WindowCache::new();
    c.replace(vec![snap(1, rect(0, 0, 100, 50)), snap(2, rect(5, 5, 6, 6)), snap(3, rect(1, 1, 2, 2))]);
    let first = c.restore(&vec![true, false, true]);
    let after_first = c.read_snapshot();
    let second = c.restore(&vec![true, true]);
    assert_eq!(first, second);
    assert_eq!(c.read_snapshot(), after_first);
}

#[test]
fn restore_while_asleep_does_nothing() {
    let mut w = WindowWatcher::create();
    w.refresh(&vec![app_window(7, rect(0, 0, 800, 600))]);
    w.on_removal(true);
    assert!(w.restore(&vec![false]).is_empty());
    assert_eq!(w.cached_ids(), vec![7]);
}

#[test]
fn prune_removes_one_window() {
    let mut c = WindowCache::new();
    c.replace(vec![snap(1, rect(0, 0, 1, 1)), snap(2, rect(0, 0, 2, 2)), snap(3, rect(0, 0, 3, 3))]);
    c.prune(2);
    assert_eq!(c.ids(), vec![1, 3]);
    c.prune(42);
    assert_eq!(c.ids(), vec![1, 3]);
    let mut w = WindowWatcher::create();
    w.refresh(&vec![app_window(5, rect(0, 0, 1, 1)), app_window(6, rect(0, 0, 1, 1))]);
    w.prune(5);
    assert_eq!(w.cached_ids(), vec![6]);
}

#[test]
fn capture_keeps_visible_uncloaked_non_popup_windows_once() {
    let r = rect(0, 0, 10, 10);
    let windows = vec![
        app_window(1, r),
        EnumeratedWindow { id: 2, visible: false, style: 0, cloaked: 0, rect: r },
        EnumeratedWindow { id: 3, visible: true, style: POPUP_STYLE | 0x10, cloaked: 0, rect: r },
        EnumeratedWindow { id: 4, visible: true, style: 0x00CF_0000, cloaked: 2, rect: r },
        EnumeratedWindow { id: 5, visible: true, style: 0x00CF_0000, cloaked: 0, rect: r },
        app_window(1, rect(5, 5, 6, 6)),
    ];
    assert_eq!(capture(&windows), vec![snap(1, r), snap(5, r)]);
    assert!(is_app_window_exec(&windows[4]));
    assert!(!is_app_window_exec(&windows[2]));
    assert!(capture(&vec![]).is_empty());
}

#[test]
fn move_request_sizes_from_edges() {
    let s = snap(8, rect(-100, 50, 700, 650));
    assert_eq!(s.move_request(), MoveRequest { id: 8, x: -100, y: 50, width: 800, height: 600 });
    let wide = rect(i32::MIN, 0, i32::MAX, 10);
    assert_eq!(wide.width(), i32::MAX);
    assert_eq!(wide.height(), 10);
    let inverted = rect(i32::MAX, 0, i32::MIN, -20);
    assert_eq!(inverted.width(), i32::MIN);
    assert_eq!(inverted.height(), -20);
}

#[test]
fn subscriptions_are_released_once() {
    let mut s = Subscriptions::new();
    assert!(!s.is_held());
    assert_eq!(s.release(), None);
    assert_eq!(s.hold(11, 22), Ok(()));
    assert_eq!(s.hold(33, 44), Err(()));
    assert!(s.is_held());
    assert_eq!(s.release(), Some((11, 22)));
    assert_eq!(s.release(), None);
    assert!(!s.is_held());
}
