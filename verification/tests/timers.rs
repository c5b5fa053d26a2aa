use nwg_controls::animation_timer::{AnimationThread, AnimationTimer, InnerTimer, TimerEvent, ONE_MILLISECOND};
use nwg_controls::control_handle::{ControlHandle, DestroyRequest};
use nwg_controls::error::NwgError;
use nwg_controls::timer::{Timer, TimerSetup};
use nwg_controls::notice::{Notice, NoticeSender};

fn timer(interval_ms: u128, max_tick: Option<u64>, lifetime_ms: Option<u128>, hwnd: usize) -> InnerTimer {
    InnerTimer {
        interval: interval_ms * ONE_MILLISECOND,
        last_tick: 0,
        lifetime: lifetime_ms.map(|l| l * ONE_MILLISECOND),
        birthtime: 0,
        max_tick,
        current_tick: 0,
        active: true,
        hwnd,
    }
}

fn ms(v: u128) -> u128 {
    v * ONE_MILLISECOND
}

#[test]
fn timer_ticks_only_once_its_interval_has_passed() {
    let mut thread = AnimationThread::new();
    let id = thread.add_timer(timer(10, None, None, 7));
    assert_eq!(id, 0);
    assert!(thread.scan(ms(5)).is_empty());
    assert!(thread.scan(ms(10)).is_empty());
    assert_eq!(thread.scan(ms(11)), vec![TimerEvent::Tick { id: 0, hwnd: 7 }]);
    let t = thread.timers[0].unwrap();
    assert_eq!(t.current_tick, 1);
    assert_eq!(t.last_tick, ms(11));
    assert!(thread.scan(ms(15)).is_empty());
}

#[test]
fn timer_stops_itself_at_its_max_tick() {
    let mut thread = AnimationThread::new();
    let id = thread.add_timer(timer(10, Some(2), None, 3));
    assert_eq!(thread.scan(ms(11)), vec![TimerEvent::Tick { id, hwnd: 3 }]);
    assert_eq!(
        thread.scan(ms(22)),
        vec![TimerEvent::Tick { id, hwnd: 3 }, TimerEvent::Stop { id, hwnd: 3 }]
    );
    assert!(!thread.timers[0].unwrap().active);
    assert!(thread.scan(ms(100)).is_empty());
}

#[test]
fn timer_stops_itself_when_its_lifetime_runs_out() {
    let mut thread = AnimationThread::new();
    let id = thread.add_timer(timer(100, None, Some(30), 9));
    assert!(thread.scan(ms(30)).is_empty());
    assert_eq!(thread.scan(ms(31)), vec![TimerEvent::Stop { id, hwnd: 9 }]);
    assert!(thread.scan(ms(500)).is_empty());
}

#[test]
fn stopped_timer_is_silent_until_restarted() {
    let mut thread = AnimationThread::new();
    let id = thread.add_timer(timer(10, None, None, 1));
    thread.stop_timer(id);
    assert!(thread.scan(ms(50)).is_empty());
    thread.reset_timer(id, ms(50));
    let t = thread.timers[0].unwrap();
    assert!(t.active);
    assert_eq!(t.birthtime, ms(50));
    assert_eq!(t.current_tick, 0);
    assert_eq!(thread.scan(ms(61)), vec![TimerEvent::Tick { id, hwnd: 1 }]);
}

#[test]
fn removed_timer_slot_is_reused() {
    let mut thread = AnimationThread::new();
    let a = thread.add_timer(timer(10, None, None, 1));
    let b = thread.add_timer(timer(10, None, None, 2));
    let c = thread.add_timer(timer(10, None, None, 3));
    assert_eq!((a, b, c), (0, 1, 2));
    thread.remove_timer(b);
    assert!(thread.timers[1].is_none());
    let d = thread.add_timer(timer(20, None, None, 4));
    assert_eq!(d, 1);
    assert_eq!(thread.timers[1].unwrap().hwnd, 4);
    assert_eq!(thread.timers[0].unwrap().hwnd, 1);
    assert_eq!(thread.timers[2].unwrap().hwnd, 3);
    let e = thread.add_timer(timer(20, None, None, 5));
    assert_eq!(e, 3);
}

#[test]
fn update_timer_changes_only_what_is_given() {
    let mut thread = AnimationThread::new();
    let id = thread.add_timer(timer(10, Some(4), None, 1));
    thread.update_timer(id, Some(ms(25)), None, Some(None));
    let t = thread.timers[0].unwrap();
    assert_eq!(t.interval, ms(25));
    assert_eq!(t.lifetime, None);
    assert_eq!(t.max_tick, None);
    assert_eq!(t.hwnd, 1);
}

#[test]
fn scan_sends_messages_in_slot_order() {
    let mut thread = AnimationThread::new();
    thread.add_timer(timer(10, None, None, 1));
    thread.add_timer(timer(20, None, None, 2));
    thread.add_timer(timer(5, Some(1), None, 3));
    assert_eq!(
        thread.scan(ms(21)),
        vec![
            TimerEvent::Tick { id: 0, hwnd: 1 },
            TimerEvent::Tick { id: 1, hwnd: 2 },
            TimerEvent::Tick { id: 2, hwnd: 3 },
            TimerEvent::Stop { id: 2, hwnd: 3 },
        ]
    );
}

#[test]
fn animation_timer_builder_needs_a_window_parent() {
    let mut thread = AnimationThread::new();
    let mut out = AnimationTimer { handle: ControlHandle::NoHandle };
    match AnimationTimer::builder().build(&mut out, &mut thread, 0) {
        Err(NwgError::NoParent(name)) => assert_eq!(name, "Timer"),
        _ => panic!("a timer without parent must be refused"),
    }
    match AnimationTimer::builder().parent(ControlHandle::Hwnd(1)).interval(999_999).build(&mut out, &mut thread, 0) {
        Err(NwgError::ControlCreationError(s)) => assert_eq!(s, "Timer interval cannot be smaller than 1 ms"),
        _ => panic!("an interval under one millisecond must be refused"),
    }
    assert!(thread.timers.is_empty());
    let r = AnimationTimer::builder().parent(ControlHandle::Hwnd(42)).build(&mut out, &mut thread, ms(3));
    assert!(r.is_ok());
    assert_eq!(out.timer_window(), Some(42));
    let t = thread.timers[0].unwrap();
    assert_eq!(t.interval, 16 * ONE_MILLISECOND);
    assert_eq!(t.hwnd, 42);
    assert_eq!(t.birthtime, ms(3));
}

#[test]
fn animation_timer_start_stop_and_release() {
    let mut thread = AnimationThread::new();
    let mut out = AnimationTimer { handle: ControlHandle::NoHandle };
    AnimationTimer::builder()
        .parent(ControlHandle::Hwnd(8))
        .interval(ms(10))
        .active(false)
        .build(&mut out, &mut thread, 0)
        .unwrap();
    assert!(thread.scan(ms(50)).is_empty());
    out.start(&mut thread, ms(50));
    assert_eq!(thread.scan(ms(61)).len(), 1);
    out.stop(&mut thread);
    assert!(thread.scan(ms(90)).is_empty());
    out.release(&mut thread);
    assert!(thread.timers[0].is_none());
}

#[test]
fn system_timer_starts_stopped_with_a_default_interval() {
    let b = Timer::builder();
    assert!(b.stopped);
    assert_eq!(b.interval, 100);
    let mut out = Timer::default();
    let setup = b.interval(250).stopped(false).parent(ControlHandle::Hwnd(5)).build(&mut out).unwrap();
    assert_eq!(setup, TimerSetup { parent: 5, interval: 250, stopped: false, release: DestroyRequest::Nothing });
    match Timer::builder().parent(ControlHandle::Menu(1, 2)).build(&mut out) {
        Err(NwgError::ControlCreationError(s)) => assert_eq!(s, "Wrong parent type"),
        _ => panic!("a menu is no timer parent"),
    }
}

#[test]
fn system_timer_start_uses_current_interval() {
    let mut t = Timer { handle: ControlHandle::Timer(4, 9), interval: 100 };
    t.set_interval(30);
    assert_eq!(t.start(true), (4, 9, 30));
    assert_eq!(t.stop(true), (4, 9));
    assert!(t.valid(true));
    assert!(!t.valid(false));
    assert!(!Timer::default().valid(true));
}

#[test]
fn notice_sender_names_window_and_id() {
    let mut n = Notice { handle: ControlHandle::Notice(11, 3) };
    assert_eq!(n.sender(true), NoticeSender { hwnd: 11, id: 3 });
    assert_eq!(n.sender(true).notice(), (11, 3, 11));
    n.set_window_handle(ControlHandle::Hwnd(12));
    assert!(matches!(n.handle, ControlHandle::Notice(12, 3)));
    assert!(matches!(n.window_handle(true), Some(ControlHandle::Hwnd(12))));
    assert!(n.window_handle(false).is_none());
    assert_eq!(Notice::builder().parent(ControlHandle::Hwnd(2)).build(&n).unwrap(), 2);
}

#[test]
fn scan_keeps_timers_in_their_slots() {
    let mut thread = AnimationThread::new();
    thread.add_timer(timer(10, Some(1), None, 1));
    let b = thread.add_timer(timer(10, None, None, 2));
    thread.add_timer(timer(30, None, Some(5), 3));
    thread.remove_timer(b);
    thread.scan(ms(11));
    thread.scan(ms(50));
    assert_eq!(thread.timers.len(), 3);
    assert!(thread.timers[1].is_none());
    let first = thread.timers[0].unwrap();
    let third = thread.timers[2].unwrap();
    assert_eq!((first.hwnd, first.interval, first.max_tick), (1, ms(10), Some(1)));
    assert_eq!((third.hwnd, third.interval, third.lifetime), (3, ms(30), Some(ms(5))));
    assert!(!first.active);
    assert!(!third.active);
}

#[test]
fn rebuilding_an_animation_timer_releases_its_old_slot() {
    let mut thread = AnimationThread::new();
    let mut out = AnimationTimer { handle: ControlHandle::NoHandle };
    AnimationTimer::builder().parent(ControlHandle::Hwnd(4)).build(&mut out, &mut thread, 0).unwrap();
    assert_eq!(out.handle, ControlHandle::Timer(4, 0));
    AnimationTimer::builder().parent(ControlHandle::Hwnd(5)).build(&mut out, &mut thread, 0).unwrap();
    assert_eq!(out.handle, ControlHandle::Timer(5, 1));
    assert!(thread.timers[0].is_none());
    assert_eq!(thread.timers[1].unwrap().hwnd, 5);
    let r = AnimationTimer::builder().build(&mut out, &mut thread, 0);
    assert!(r.is_err());
    assert_eq!(out.handle, ControlHandle::Timer(5, 1));
    assert_eq!(thread.timers[1].unwrap().hwnd, 5);
}

#[test]
fn animation_timer_is_valid_while_bound_and_alive() {
    let unbound = AnimationTimer { handle: ControlHandle::NoHandle };
    assert!(!unbound.valid(true));
    let bound = AnimationTimer { handle: ControlHandle::Timer(3, 0) };
    assert!(bound.valid(true));
    assert!(!bound.valid(false));
}

#[test]
fn live_timer_ids_stay_distinct() {
    let mut thread = AnimationThread::new();
    let a = thread.add_timer(timer(10, None, None, 1));
    let b = thread.add_timer(timer(10, None, None, 2));
    thread.stop_timer(a);
    thread.reset_timer(b, ms(5));
    thread.scan(ms(40));
    let c = thread.add_timer(timer(20, None, None, 3));
    assert_ne!(a, b);
    assert_ne!(c, a);
    assert_ne!(c, b);
    assert_eq!(thread.timers[a as usize].unwrap().hwnd, 1);
    assert_eq!(thread.timers[c as usize].unwrap().hwnd, 3);
}

#[test]
fn adding_then_removing_a_timer_restores_the_table() {
    let mut thread = AnimationThread::new();
    thread.add_timer(timer(10, None, None, 1));
    let before = thread.timers.clone();
    let id = thread.add_timer(timer(10, None, None, 2));
    thread.remove_timer(id);
    assert_eq!(thread.timers.len(), before.len() + 1);
    assert_eq!(thread.timers[0].unwrap().hwnd, before[0].unwrap().hwnd);
    assert!(thread.timers[1].is_none());
}
