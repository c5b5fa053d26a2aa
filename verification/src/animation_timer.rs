//! The animation timer engine.
//!
//! Every animation timer lives in one table of timer slots that a single
//! worker thread scans about once per millisecond. The table, the slot
//! allocation and the decision taken for each timer at each scan are here;
//! the worker thread, its lock, its clock and the delivery of the
//! `OnTimerTick` / `OnTimerStop` messages to the parent window stand outside.
//!
//! Durations and instants are nanosecond counts: an instant is the number of
//! nanoseconds elapsed since a fixed origin chosen by the caller.
use vstd::prelude::*;
use crate::control_handle::{ControlHandle, handle_eq};
use crate::error::NwgError;

verus! {

/// One millisecond, in nanoseconds: the smallest accepted timer interval.
pub const ONE_MILLISECOND: u128 = 1_000_000;

/// The state of one animation timer.
#[derive(Copy, Clone, Debug)]
pub struct InnerTimer {
    /// Time between two ticks
    pub interval: u128,
    /// Instant of the last tick (or of the creation)
    pub last_tick: u128,
    /// The timer stops itself once this much time has passed since `birthtime`
    pub lifetime: Option<u128>,
    /// Instant the timer was created or last restarted
    pub birthtime: u128,
    /// The timer stops itself after this many ticks
    pub max_tick: Option<u64>,
    /// Ticks sent since the last restart
    pub current_tick: u64,
    /// If the timer is running
    pub active: bool,
    /// The window that receives the timer messages
    pub hwnd: usize,
}

/// A message that the worker thread sends to a timer's window.
#[derive(Copy, Clone, Debug, PartialEq, Eq, Structural)]
pub enum TimerEvent {
    /// `OnTimerTick` for the timer `id`
    Tick { id: u32, hwnd: usize },
    /// `OnTimerStop` for the timer `id`: it stopped itself
    Stop { id: u32, hwnd: usize },
}

/// The table of every animation timer. The index of a slot is the timer id.
pub struct AnimationThread {
    pub timers: Vec<Option<InnerTimer>>,
}

/// Time elapsed from `since` to `now`; zero when `now` is earlier.
pub open spec fn elapsed(since: u128, now: u128) -> int {
    if now >= since { now - since } else { 0 }
}

/// The stop decision taken on a running timer whose lifetime may have run out.
pub open spec fn lifetime_step(id: u32, t: InnerTimer, now: u128, ev: Seq<TimerEvent>) -> (InnerTimer, Seq<TimerEvent>) {
    match t.lifetime {
        Some(lf) => if elapsed(t.birthtime, now) > lf {
            (InnerTimer { active: false, ..t }, ev.push(TimerEvent::Stop { id, hwnd: t.hwnd }))
        } else {
            (t, ev)
        },
        None => (t, ev),
    }
}

/// What one scan of the worker thread does to the timer `id` at instant `now`:
/// its new state and the messages sent for it, in order.
pub open spec fn timer_step(id: u32, t: InnerTimer, now: u128) -> (InnerTimer, Seq<TimerEvent>) {
    if !t.active {
        (t, Seq::empty())
    } else if elapsed(t.last_tick, now) > t.interval {
        let ticked = InnerTimer { last_tick: now, current_tick: (t.current_tick + 1) as u64, ..t };
        let ev = seq![TimerEvent::Tick { id, hwnd: t.hwnd }];
        if t.max_tick == Some(ticked.current_tick) {
            (InnerTimer { active: false, ..ticked }, ev.push(TimerEvent::Stop { id, hwnd: t.hwnd }))
        } else {
            lifetime_step(id, ticked, now, ev)
        }
    } else {
        lifetime_step(id, t, now, Seq::empty())
    }
}

/// One scan applied to a slot of the table.
pub open spec fn slot_step(id: u32, s: Option<InnerTimer>, now: u128) -> (Option<InnerTimer>, Seq<TimerEvent>) {
    match s {
        Some(t) => {
            let r = timer_step(id, t, now);
            (Some(r.0), r.1)
        },
        None => (None, Seq::empty()),
    }
}

/// The messages sent by one scan over the first `n` slots, in slot order.
pub open spec fn scan_events(timers: Seq<Option<InnerTimer>>, now: u128, n: nat) -> Seq<TimerEvent>
    decreases n,
{
    if n == 0 {
        Seq::empty()
    } else {
        scan_events(timers, now, (n - 1) as nat) + slot_step((n - 1) as u32, timers[n - 1], now).1
    }
}

/// The table after one scan.
pub open spec fn scan_timers(timers: Seq<Option<InnerTimer>>, now: u128) -> Seq<Option<InnerTimer>> {
    Seq::new(timers.len(), |i: int| slot_step(i as u32, timers[i], now).0)
}

/// `id` is the slot that adding a timer to `timers` takes: the first free slot,
/// or a new slot at the end when none is free.
pub open spec fn is_first_free(timers: Seq<Option<InnerTimer>>, id: int) -> bool {
    &&& 0 <= id <= timers.len()
    &&& forall|j: int| 0 <= j < id ==> (#[trigger] timers[j]) is Some
    &&& id < timers.len() ==> timers[id] is None
}

/// The table after a timer is added in the slot `id`.
pub open spec fn add_spec(timers: Seq<Option<InnerTimer>>, id: int, inner: InnerTimer) -> Seq<Option<InnerTimer>> {
    if id < timers.len() { timers.update(id, Some(inner)) } else { timers.push(Some(inner)) }
}

/// The table after the timer `id` is restarted at `now`.
pub open spec fn reset_spec(timers: Seq<Option<InnerTimer>>, id: u32, now: u128) -> Seq<Option<InnerTimer>> {
    if id < timers.len() && timers[id as int] is Some {
        let t = timers[id as int].unwrap();
        timers.update(id as int, Some(InnerTimer { active: true, birthtime: now, current_tick: 0, ..t }))
    } else {
        timers
    }
}

/// The table after the settings of the timer `id` are updated.
pub open spec fn update_spec(
    timers: Seq<Option<InnerTimer>>,
    id: u32,
    interval: Option<u128>,
    lifetime: Option<Option<u128>>,
    max_tick: Option<Option<u64>>,
) -> Seq<Option<InnerTimer>> {
    if id < timers.len() && timers[id as int] is Some {
        let t = timers[id as int].unwrap();
        let t1 = match interval { Some(v) => InnerTimer { interval: v, ..t }, None => t };
        let t2 = match lifetime { Some(v) => InnerTimer { lifetime: v, ..t1 }, None => t1 };
        let t3 = match max_tick { Some(v) => InnerTimer { max_tick: v, ..t2 }, None => t2 };
        timers.update(id as int, Some(t3))
    } else {
        timers
    }
}

/// The table after the timer `id` is stopped.
pub open spec fn stop_spec(timers: Seq<Option<InnerTimer>>, id: u32) -> Seq<Option<InnerTimer>> {
    if id < timers.len() && timers[id as int] is Some {
        let t = timers[id as int].unwrap();
        timers.update(id as int, Some(InnerTimer { active: false, ..t }))
    } else {
        timers
    }
}

/// The table after the timer `id` is removed: its slot becomes free.
pub open spec fn remove_spec(timers: Seq<Option<InnerTimer>>, id: u32) -> Seq<Option<InnerTimer>> {
    if id < timers.len() { timers.update(id as int, None) } else { timers }
}

/// The table after the timer bound to `handle` is released: its slot becomes free. A
/// handle that is not a timer releases nothing.
pub open spec fn release_spec(timers: Seq<Option<InnerTimer>>, handle: ControlHandle) -> Seq<Option<InnerTimer>> {
    match handle {
        ControlHandle::Timer(_, id) => remove_spec(timers, id),
        _ => timers,
    }
}

/// Every running timer can still count one more tick.
pub open spec fn ticks_bounded(timers: Seq<Option<InnerTimer>>) -> bool {
    forall|i: int| 0 <= i < timers.len() && (#[trigger] timers[i]) is Some ==> timers[i].unwrap().current_tick < u64::MAX
}

/// Time elapsed from `since` to `now`, zero when `now` is earlier.
pub fn elapsed_since(since: u128, now: u128) -> (r: u128)
    ensures
        r == elapsed(since, now),
{
    if now >= since { now - since } else { 0 }
}

/// Applies the lifetime check of a scan to the running timer `t`.
fn check_lifetime(id: u32, t: InnerTimer, now: u128, events: &mut Vec<TimerEvent>) -> (r: InnerTimer)
    ensures
        (r, final(events)@) == lifetime_step(id, t, now, old(events)@),
{
    match t.lifetime {
        Some(lf) => {
            if elapsed_since(t.birthtime, now) > lf {
                events.push(TimerEvent::Stop { id, hwnd: t.hwnd });
                InnerTimer { active: false, ..t }
            } else {
                t
            }
        },
        None => t,
    }
}

/// What one scan does to the timer `id`: returns its new state and appends the
/// messages sent for it to `events`.
pub fn step_timer(id: u32, t: InnerTimer, now: u128, events: &mut Vec<TimerEvent>) -> (r: InnerTimer)
    requires
        t.active ==> t.current_tick < u64::MAX,
    ensures
        r == timer_step(id, t, now).0,
        final(events)@ == old(events)@ + timer_step(id, t, now).1,
{
    let ghost start = events@;
    if !t.active {
        assert(events@ == start + Seq::<TimerEvent>::empty());
        return t;
    }
    if elapsed_since(t.last_tick, now) > t.interval {
        let ticked = InnerTimer { last_tick: now, current_tick: t.current_tick + 1, ..t };
        let mut ev: Vec<TimerEvent> = Vec::new();
        ev.push(TimerEvent::Tick { id, hwnd: t.hwnd });
        let r = if t.max_tick == Some(ticked.current_tick) {
            ev.push(TimerEvent::Stop { id, hwnd: t.hwnd });
            InnerTimer { active: false, ..ticked }
        } else {
            check_lifetime(id, ticked, now, &mut ev)
        };
        events.append(&mut ev);
        r
    } else {
        let mut ev: Vec<TimerEvent> = Vec::new();
        let r = check_lifetime(id, t, now, &mut ev);
        events.append(&mut ev);
        r
    }
}

impl AnimationThread {
    /// The table is small enough for every slot index to be a timer id.
    pub open spec fn wf(&self) -> bool {
        self.timers@.len() <= u32::MAX as nat + 1
    }

    /// An empty table
    pub fn new() -> (r: AnimationThread)
        ensures
            r.timers@ == Seq::<Option<InnerTimer>>::empty(),
            r.wf(),
    {
        AnimationThread { timers: Vec::new() }
    }

    /// Adds a timer in the first free slot, or in a new slot at the end, and returns its id.
    pub fn add_timer(&mut self, inner: InnerTimer) -> (id: u32)
        requires
            old(self).timers@.len() < u32::MAX,
        ensures
            is_first_free(old(self).timers@, id as int),
            final(self).timers@ == add_spec(old(self).timers@, id as int, inner),
            final(self).wf(),
    {
        let len = self.timers.len();
        let mut i: usize = 0;
        while i < len
            invariant
                len == self.timers@.len(),
                self.timers@ == old(self).timers@,
                len < u32::MAX,
                0 <= i <= len,
                forall|j: int| 0 <= j < i ==> (#[trigger] self.timers@[j]) is Some,
            decreases len - i,
        {
            if self.timers[i].is_none() {
                self.timers.set(i, Some(inner));
                return i as u32;
            }
            i = i + 1;
        }
        self.timers.push(Some(inner));
        (self.timers.len() - 1) as u32
    }

    /// Restarts the timer `id`: it becomes active, its lifetime counts from `now`
    /// and its tick count goes back to zero. Does nothing for an unknown id.
    pub fn reset_timer(&mut self, id: u32, now: u128)
        ensures
            final(self).timers@ == reset_spec(old(self).timers@, id, now),
    {
        if (id as usize) < self.timers.len() {
            if let Some(t) = self.timers[id as usize] {
                self.timers.set(id as usize, Some(InnerTimer { active: true, birthtime: now, current_tick: 0, ..t }));
            }
        }
    }

    /// Changes the settings of the timer `id` that are given. Does nothing for an unknown id.
    pub fn update_timer(
        &mut self,
        id: u32,
        interval: Option<u128>,
        lifetime: Option<Option<u128>>,
        max_tick: Option<Option<u64>>,
    )
        ensures
            final(self).timers@ == update_spec(old(self).timers@, id, interval, lifetime, max_tick),
    {
        if (id as usize) < self.timers.len() {
            if let Some(t) = self.timers[id as usize] {
                let mut t = t;
                if let Some(v) = interval {
                    t.interval = v;
                }
                if let Some(v) = lifetime {
                    t.lifetime = v;
                }
                if let Some(v) = max_tick {
                    t.max_tick = v;
                }
                self.timers.set(id as usize, Some(t));
            }
        }
    }

    /// Stops the timer `id`. Does nothing for an unknown id.
    pub fn stop_timer(&mut self, id: u32)
        ensures
            final(self).timers@ == stop_spec(old(self).timers@, id),
    {
        if (id as usize) < self.timers.len() {
            if let Some(t) = self.timers[id as usize] {
                self.timers.set(id as usize, Some(InnerTimer { active: false, ..t }));
            }
        }
    }

    /// Frees the slot of the timer `id`. Does nothing for an unknown id.
    pub fn remove_timer(&mut self, id: u32)
        ensures
            final(self).timers@ == remove_spec(old(self).timers@, id),
    {
        if (id as usize) < self.timers.len() {
            self.timers.set(id as usize, None);
        }
    }

    /// One scan of the worker thread at instant `now`: updates every timer and
    /// returns the messages to send, in slot order.
    pub fn scan(&mut self, now: u128) -> (events: Vec<TimerEvent>)
        requires
            old(self).wf(),
            ticks_bounded(old(self).timers@),
        ensures
            final(self).timers@ == scan_timers(old(self).timers@, now),
            events@ == scan_events(old(self).timers@, now, old(self).timers@.len()),
            final(self).wf(),
    {
        let ghost start = self.timers@;
        let len = self.timers.len();
        let mut events: Vec<TimerEvent> = Vec::new();
        let mut i: usize = 0;
        while i < len
            invariant
                len == start.len(),
                len <= u32::MAX as nat + 1,
                self.timers@.len() == len,
                ticks_bounded(start),
                0 <= i <= len,
                forall|j: int| 0 <= j < i ==> #[trigger] self.timers@[j] == slot_step(j as u32, start[j], now).0,
                forall|j: int| i <= j < len ==> #[trigger] self.timers@[j] == start[j],
                events@ == scan_events(start, now, i as nat),
            decreases len - i,
        {
            let slot = self.timers[i];
            let ghost before = events@;
            match slot {
                Some(t) => {
                    assert(start[i as int] is Some);
                    let r = step_timer(i as u32, t, now, &mut events);
                    self.timers.set(i, Some(r));
                },
                None => {},
            }
            assert(scan_events(start, now, (i + 1) as nat) == scan_events(start, now, i as nat) + slot_step(i as u32, start[i as int], now).1);
            i = i + 1;
        }
        assert(self.timers@ =~= scan_timers(start, now));
        events
    }
}


/// A freed slot is reused: once the timer `id` is removed, and every slot before it is
/// taken, the next timer added takes the id `id` again.
pub proof fn lemma_removed_slot_is_reused(timers: Seq<Option<InnerTimer>>, id: u32)
    requires
        id < timers.len(),
        forall|j: int| 0 <= j < id ==> (#[trigger] timers[j]) is Some,
    ensures
        is_first_free(remove_spec(timers, id), id as int),
{
    let r = remove_spec(timers, id);
    assert forall|j: int| 0 <= j < id implies (#[trigger] r[j]) is Some by {
        assert(r[j] == timers[j]);
    }
}

/// Adding a timer changes no other timer, and the new timer is found under its id.
pub proof fn lemma_add_keeps_other_timers(timers: Seq<Option<InnerTimer>>, id: int, inner: InnerTimer)
    requires
        is_first_free(timers, id),
    ensures
        add_spec(timers, id, inner)[id] == Some(inner),
        forall|j: int| 0 <= j < timers.len() && j != id ==> #[trigger] add_spec(timers, id, inner)[j] == timers[j],
        add_spec(timers, id, inner).len() == if id < timers.len() { timers.len() } else { timers.len() + 1 },
{
}

/// The ids of live timers are distinct: a timer that holds a slot keeps it when another
/// timer is added, the new timer gets another id, and it is found under that id.
pub proof fn lemma_live_ids_distinct(timers: Seq<Option<InnerTimer>>, live: int, id: int, inner: InnerTimer)
    requires
        0 <= live < timers.len(),
        timers[live] is Some,
        is_first_free(timers, id),
    ensures
        id != live,
        add_spec(timers, id, inner)[live] == timers[live],
        add_spec(timers, id, inner)[id] == Some(inner),
{
}

/// A timer that holds a slot keeps it through every change of the table but its own
/// removal: starting, stopping or changing any timer, removing another one, adding one, or
/// a scan. With `lemma_live_ids_distinct`, the ids of the live timers stay distinct
/// whatever the calls in between.
pub proof fn lemma_live_slot_stays_live(
    timers: Seq<Option<InnerTimer>>,
    live: int,
    other: u32,
    now: u128,
    interval: Option<u128>,
    lifetime: Option<Option<u128>>,
    max_tick: Option<Option<u64>>,
    id: int,
    inner: InnerTimer,
)
    requires
        0 <= live < timers.len(),
        timers[live] is Some,
        is_first_free(timers, id),
    ensures
        reset_spec(timers, other, now)[live] is Some,
        stop_spec(timers, other)[live] is Some,
        update_spec(timers, other, interval, lifetime, max_tick)[live] is Some,
        other != live ==> remove_spec(timers, other)[live] is Some,
        add_spec(timers, id, inner)[live] is Some,
        scan_timers(timers, now)[live] is Some,
        reset_spec(timers, other, now).len() == timers.len(),
        stop_spec(timers, other).len() == timers.len(),
        update_spec(timers, other, interval, lifetime, max_tick).len() == timers.len(),
        remove_spec(timers, other).len() == timers.len(),
        scan_timers(timers, now).len() == timers.len(),
{
    lemma_scan_keeps_slots(timers, now, live);
}

/// Adding a timer and then removing it gives back the table it was added to, at most
/// followed by one free slot.
pub proof fn lemma_add_then_remove(timers: Seq<Option<InnerTimer>>, id: u32, inner: InnerTimer)
    requires
        is_first_free(timers, id as int),
    ensures
        ({
            let r = remove_spec(add_spec(timers, id as int, inner), id);
            &&& timers.len() <= r.len() <= timers.len() + 1
            &&& forall|k: int| 0 <= k < timers.len() ==> #[trigger] r[k] == timers[k]
            &&& forall|k: int| timers.len() <= k < r.len() ==> (#[trigger] r[k]) is None
        }),
{
}

/// A timer that is not running sends nothing and is left as it is by a scan.
pub proof fn lemma_inactive_timer_is_silent(id: u32, t: InnerTimer, now: u128)
    requires
        !t.active,
    ensures
        timer_step(id, t, now) == (t, Seq::<TimerEvent>::empty()),
{
}

/// Once stopped by the user, a timer sends no message until it is started again.
pub proof fn lemma_stopped_timer_is_silent(timers: Seq<Option<InnerTimer>>, id: u32, now: u128)
    requires
        id < timers.len(),
    ensures
        slot_step(id, stop_spec(timers, id)[id as int], now).1 == Seq::<TimerEvent>::empty(),
        slot_step(id, stop_spec(timers, id)[id as int], now).0 == stop_spec(timers, id)[id as int],
{
}

/// A scan sends `OnTimerStop` at most once for a timer; it is sent exactly when a
/// running timer stops itself, and it is the last message of that timer in the scan.
pub proof fn lemma_stop_sent_once(id: u32, t: InnerTimer, now: u128)
    requires
        t.active,
        t.current_tick < u64::MAX,
    ensures
        ({
            let (r, ev) = timer_step(id, t, now);
            &&& ev.len() <= 2
            &&& (!r.active <==> (ev.len() > 0 && ev.last() == TimerEvent::Stop { id, hwnd: t.hwnd }))
            &&& forall|k: int| 0 <= k < ev.len() - 1 ==> ev[k] == TimerEvent::Tick { id, hwnd: t.hwnd }
        }),
{
}

/// A timer with a tick limit never sends more ticks than the limit, and stops itself
/// when it reaches it.
pub proof fn lemma_max_tick_respected(id: u32, t: InnerTimer, now: u128, m: u64)
    requires
        t.active,
        t.max_tick == Some(m),
        t.current_tick < m,
    ensures
        ({
            let (r, ev) = timer_step(id, t, now);
            &&& r.current_tick <= m
            &&& r.current_tick == m ==> !r.active
        }),
{
}

/// A running timer whose lifetime has run out is stopped by the next scan.
pub proof fn lemma_lifetime_respected(id: u32, t: InnerTimer, now: u128, lf: u128)
    requires
        t.active,
        t.current_tick < u64::MAX,
        t.lifetime == Some(lf),
        elapsed(t.birthtime, now) > lf,
    ensures
        !timer_step(id, t, now).0.active,
{
}

/// A running timer whose interval has passed sends one tick, counts it and restarts its
/// interval at `now`; otherwise it sends no tick and its count and last tick stay.
pub proof fn lemma_tick_when_interval_passed(id: u32, t: InnerTimer, now: u128)
    requires
        t.active,
        t.current_tick < u64::MAX,
    ensures
        ({
            let (r, ev) = timer_step(id, t, now);
            if elapsed(t.last_tick, now) > t.interval {
                &&& ev.len() >= 1
                &&& ev[0] == TimerEvent::Tick { id, hwnd: t.hwnd }
                &&& r.current_tick == t.current_tick + 1
                &&& r.last_tick == now
            } else {
                &&& forall|k: int| 0 <= k < ev.len() ==> ev[k] == TimerEvent::Stop { id, hwnd: t.hwnd }
                &&& r.current_tick == t.current_tick
                &&& r.last_tick == t.last_tick
            }
        }),
{
}

/// Restarting a timer keeps its settings: its interval, its lifetime, its tick limit, its
/// window and the instant of its last tick stay as they were; only its state, its birth
/// time and its tick count change. Every other slot, and the size of the table, stay too.
pub proof fn lemma_restart_keeps_settings(timers: Seq<Option<InnerTimer>>, id: u32, now: u128)
    requires
        id < timers.len(),
        timers[id as int] is Some,
    ensures
        ({
            let before = timers[id as int].unwrap();
            let after = reset_spec(timers, id, now)[id as int].unwrap();
            &&& after.interval == before.interval
            &&& after.lifetime == before.lifetime
            &&& after.max_tick == before.max_tick
            &&& after.hwnd == before.hwnd
            &&& after.last_tick == before.last_tick
        }),
        reset_spec(timers, id, now).len() == timers.len(),
        forall|j: int| 0 <= j < timers.len() && j != id ==> #[trigger] reset_spec(timers, id, now)[j] == timers[j],
{
}

/// Changing the settings of a timer changes only those given, and stopping a timer
/// changes only its state: everything else about it, and every other slot, stays.
pub proof fn lemma_update_and_stop_change_only_what_they_say(
    timers: Seq<Option<InnerTimer>>,
    id: u32,
    interval: Option<u128>,
    lifetime: Option<Option<u128>>,
    max_tick: Option<Option<u64>>,
)
    requires
        id < timers.len(),
        timers[id as int] is Some,
    ensures
        ({
            let before = timers[id as int].unwrap();
            let after = update_spec(timers, id, interval, lifetime, max_tick)[id as int].unwrap();
            &&& after.interval == (match interval { Some(v) => v, None => before.interval })
            &&& after.lifetime == (match lifetime { Some(v) => v, None => before.lifetime })
            &&& after.max_tick == (match max_tick { Some(v) => v, None => before.max_tick })
            &&& after.active == before.active
            &&& after.birthtime == before.birthtime
            &&& after.current_tick == before.current_tick
            &&& after.last_tick == before.last_tick
            &&& after.hwnd == before.hwnd
        }),
        ({
            let before = timers[id as int].unwrap();
            let after = stop_spec(timers, id)[id as int].unwrap();
            &&& !after.active
            &&& after == (InnerTimer { active: false, ..before })
        }),
        forall|j: int| 0 <= j < timers.len() && j != id ==>
            #[trigger] update_spec(timers, id, interval, lifetime, max_tick)[j] == timers[j]
            && stop_spec(timers, id)[j] == timers[j],
        update_spec(timers, id, interval, lifetime, max_tick).len() == timers.len(),
        stop_spec(timers, id).len() == timers.len(),
{
}

/// A restarted timer with a lifetime stops itself once the lifetime has passed since the
/// restart: the first scan after that sends its stop message and leaves it inactive.
pub proof fn lemma_restarted_timer_stops_at_its_lifetime(timers: Seq<Option<InnerTimer>>, id: u32, now: u128, later: u128)
    requires
        id < timers.len(),
        timers[id as int] is Some,
        timers[id as int].unwrap().lifetime matches Some(lf) && later >= now && later - now > lf,
        timers[id as int].unwrap().current_tick < u64::MAX,
    ensures
        ({
            let t = reset_spec(timers, id, now)[id as int].unwrap();
            let (after, events) = timer_step(id, t, later);
            &&& !after.active
            &&& events.len() > 0
            &&& events.last() == (TimerEvent::Stop { id, hwnd: timers[id as int].unwrap().hwnd })
        }),
{
}

/// Starting a timer makes it run from zero ticks with its lifetime counted from `now`.
pub proof fn lemma_start_restarts(timers: Seq<Option<InnerTimer>>, id: u32, now: u128)
    requires
        id < timers.len(),
        timers[id as int] is Some,
    ensures
        reset_spec(timers, id, now)[id as int] is Some,
        reset_spec(timers, id, now)[id as int].unwrap().active,
        reset_spec(timers, id, now)[id as int].unwrap().current_tick == 0,
        reset_spec(timers, id, now)[id as int].unwrap().birthtime == now,
{
}

/// A scan keeps every timer in its slot: a free slot stays free, a taken slot stays taken by
/// the same timer (same window, interval, lifetime and tick limit), so timer ids stay valid
/// from one scan to the next.
pub proof fn lemma_scan_keeps_slots(timers: Seq<Option<InnerTimer>>, now: u128, i: int)
    requires
        0 <= i < timers.len(),
    ensures
        scan_timers(timers, now).len() == timers.len(),
        scan_timers(timers, now)[i] is Some <==> timers[i] is Some,
        timers[i] is Some ==> {
            let before = timers[i].unwrap();
            let after = scan_timers(timers, now)[i].unwrap();
            &&& after.hwnd == before.hwnd
            &&& after.interval == before.interval
            &&& after.lifetime == before.lifetime
            &&& after.max_tick == before.max_tick
            &&& after.birthtime == before.birthtime
        },
{
}

/// An animation timer: an invisible component that sends `OnTimerTick` to its parent window
/// at the selected interval, and `OnTimerStop` when it stops itself.
pub struct AnimationTimer {
    pub handle: ControlHandle,
}

/// Builder of an `AnimationTimer`.
pub struct AnimationTimerBuilder {
    pub parent: Option<ControlHandle>,
    pub interval: u128,
    pub max_tick: Option<u64>,
    pub lifetime: Option<u128>,
    pub active: bool,
}

impl Default for AnimationTimer {
    fn default() -> (r: AnimationTimer)
        ensures
            r.handle == ControlHandle::NoHandle,
    {
        AnimationTimer { handle: ControlHandle::NoHandle }
    }
}

impl PartialEq for AnimationTimer {
    fn eq(&self, other: &Self) -> (r: bool) {
        self.handle == other.handle
    }
}

impl vstd::std_specs::cmp::PartialEqSpecImpl for AnimationTimer {
    open spec fn obeys_eq_spec() -> bool {
        true
    }

    open spec fn eq_spec(&self, other: &AnimationTimer) -> bool {
        handle_eq(self.handle, other.handle)
    }
}

impl Eq for AnimationTimer {}

impl AnimationTimer {
    /// A builder with no parent, an interval of 1000/60 ms (16 ms), no lifetime,
    /// no tick limit, and not active
    pub fn builder() -> (b: AnimationTimerBuilder)
        ensures
            b.parent is None,
            b.interval == 16 * ONE_MILLISECOND,
            b.max_tick is None,
            b.lifetime is None,
            !b.active,
    {
        AnimationTimerBuilder {
            parent: None,
            interval: (1000u128 / 60) * ONE_MILLISECOND,
            max_tick: None,
            lifetime: None,
            active: false,
        }
    }

    /// The parent window of a bound timer, `None` for a timer that is not yet built.
    /// The timer is usable while this window is valid.
    pub fn timer_window(&self) -> (r: Option<usize>)
        requires
            !(self.handle is NoHandle) ==> self.handle is Timer,
        ensures
            r == (match self.handle {
                ControlHandle::Timer(h, _) => Some(h),
                _ => None::<usize>,
            }),
    {
        match self.handle {
            ControlHandle::Timer(h, _) => Some(h),
            _ => None,
        }
    }

    /// Whether the timer can be used: it is bound, and its parent window is still alive
    /// (`window_alive`, as the system reports it for `timer_window`)
    pub fn valid(&self, window_alive: bool) -> (r: bool)
        requires
            self.handle is NoHandle || self.handle is Timer,
        ensures
            r == (self.handle is Timer && window_alive),
    {
        match self.handle {
            ControlHandle::Timer(_, _) => window_alive,
            _ => false,
        }
    }

    /// Starts the timer. If the timer is already running this resets it:
    /// the lifetime and the tick count start over from `now`.
    pub fn start(&self, thread: &mut AnimationThread, now: u128)
        requires
            self.handle is Timer,
        ensures
            final(thread).timers@ == reset_spec(old(thread).timers@, self.handle->Timer_1, now),
    {
        let (_, id) = self.handle.timer().unwrap();
        thread.reset_timer(id, now);
    }

    /// Stops the timer. If the timer is already stopped, this does nothing.
    pub fn stop(&self, thread: &mut AnimationThread)
        requires
            self.handle is Timer,
        ensures
            final(thread).timers@ == stop_spec(old(thread).timers@, self.handle->Timer_1),
    {
        let (_, id) = self.handle.timer().unwrap();
        thread.stop_timer(id);
    }

    /// Sets the interval of the timer
    pub fn set_interval(&self, thread: &mut AnimationThread, i: u128)
        requires
            self.handle is Timer,
        ensures
            final(thread).timers@ == update_spec(old(thread).timers@, self.handle->Timer_1, Some(i), None, None),
    {
        let (_, id) = self.handle.timer().unwrap();
        thread.update_timer(id, Some(i), None, None);
    }

    /// Sets the lifetime of the timer
    pub fn set_lifetime(&self, thread: &mut AnimationThread, life: Option<u128>)
        requires
            self.handle is Timer,
        ensures
            final(thread).timers@ == update_spec(old(thread).timers@, self.handle->Timer_1, None, Some(life), None),
    {
        let (_, id) = self.handle.timer().unwrap();
        thread.update_timer(id, None, Some(life), None);
    }

    /// Sets the maximum tick count of the timer
    pub fn set_max_tick(&self, thread: &mut AnimationThread, max_tick: Option<u64>)
        requires
            self.handle is Timer,
        ensures
            final(thread).timers@ == update_spec(old(thread).timers@, self.handle->Timer_1, None, None, Some(max_tick)),
    {
        let (_, id) = self.handle.timer().unwrap();
        thread.update_timer(id, None, None, Some(max_tick));
    }

    /// Releases the slot of a timer that is dropped
    pub fn release(&self, thread: &mut AnimationThread)
        ensures
            final(thread).timers@ == release_spec(old(thread).timers@, self.handle),
    {
        match self.handle {
            ControlHandle::Timer(_, id) => thread.remove_timer(id),
            _ => {},
        }
    }
}

/// The error of building an animation timer, if any.
pub open spec fn timer_build_error(b: AnimationTimerBuilder) -> Option<NwgErrorKind> {
    match b.parent {
        None => Some(NwgErrorKind::NoParent),
        Some(p) => if !(p is Hwnd) {
            Some(NwgErrorKind::WrongParent)
        } else if b.interval < ONE_MILLISECOND {
            Some(NwgErrorKind::IntervalTooSmall)
        } else {
            None
        },
    }
}

/// The reasons an animation timer cannot be built.
#[derive(Copy, Clone, Debug, PartialEq, Eq, Structural)]
pub enum NwgErrorKind {
    NoParent,
    WrongParent,
    IntervalTooSmall,
}

impl AnimationTimerBuilder {
    pub fn parent(self, p: ControlHandle) -> (b: AnimationTimerBuilder)
        ensures
            b == (AnimationTimerBuilder { parent: Some(p), ..self }),
    {
        AnimationTimerBuilder { parent: Some(p), ..self }
    }

    pub fn interval(self, interval: u128) -> (b: AnimationTimerBuilder)
        ensures
            b == (AnimationTimerBuilder { interval, ..self }),
    {
        AnimationTimerBuilder { interval, ..self }
    }

    pub fn max_tick(self, max_tick: Option<u64>) -> (b: AnimationTimerBuilder)
        ensures
            b == (AnimationTimerBuilder { max_tick, ..self }),
    {
        AnimationTimerBuilder { max_tick, ..self }
    }

    pub fn lifetime(self, lifetime: Option<u128>) -> (b: AnimationTimerBuilder)
        ensures
            b == (AnimationTimerBuilder { lifetime, ..self }),
    {
        AnimationTimerBuilder { lifetime, ..self }
    }

    pub fn active(self, active: bool) -> (b: AnimationTimerBuilder)
        ensures
            b == (AnimationTimerBuilder { active, ..self }),
    {
        AnimationTimerBuilder { active, ..self }
    }

    /// Registers a new timer in `thread`, created at `now`, and binds `out` to it; the
    /// timer `out` was bound to before is released once the new one is registered.
    /// Fails without a parent, with a parent that is not a window, or with an interval
    /// under one millisecond; on failure neither `out` nor `thread` changes.
    pub fn build(self, out: &mut AnimationTimer, thread: &mut AnimationThread, now: u128) -> (r: Result<(), NwgError>)
        requires
            old(thread).timers@.len() < u32::MAX,
        ensures
            r is Ok <==> timer_build_error(self) is None,
            match timer_build_error(self) {
                Some(NwgErrorKind::NoParent) => r matches Err(NwgError::NoParent(s)) && s@ == "Timer"@,
                Some(NwgErrorKind::WrongParent) => r matches Err(NwgError::ControlCreationError(s)) && s@ == "Wrong parent type"@,
                Some(NwgErrorKind::IntervalTooSmall) => r matches Err(NwgError::ControlCreationError(s))
                    && s@ == "Timer interval cannot be smaller than 1 ms"@,
                None => true,
            },
            r is Err ==> *final(out) == *old(out) && final(thread).timers@ == old(thread).timers@,
            r is Ok ==> {
                let parent = self.parent.unwrap()->Hwnd_0;
                let inner = InnerTimer {
                    interval: self.interval,
                    last_tick: now,
                    lifetime: self.lifetime,
                    birthtime: now,
                    max_tick: self.max_tick,
                    current_tick: 0,
                    active: self.active,
                    hwnd: parent,
                };
                &&& final(out).handle matches ControlHandle::Timer(h, id)
                &&& h == parent
                &&& is_first_free(old(thread).timers@, id as int)
                &&& final(thread).timers@
                    == release_spec(add_spec(old(thread).timers@, id as int, inner), old(out).handle)
            },
    {
        let parent = match self.parent {
            Some(p) => match p.hwnd() {
                Some(handle) => handle,
                None => { return Err(NwgError::control_create("Wrong parent type")); },
            },
            None => { return Err(NwgError::no_parent("Timer")); },
        };

        if self.interval < ONE_MILLISECOND {
            return Err(NwgError::control_create("Timer interval cannot be smaller than 1 ms"));
        }

        let inner = InnerTimer {
            interval: self.interval,
            last_tick: now,
            lifetime: self.lifetime,
            birthtime: now,
            max_tick: self.max_tick,
            current_tick: 0,
            active: self.active,
            hwnd: parent,
        };

        let id = thread.add_timer(inner);
        out.release(thread);
        *out = AnimationTimer { handle: ControlHandle::Timer(parent, id) };
        Ok(())
    }
}

/// The handle of a control
impl<'a> From<&'a AnimationTimer> for ControlHandle {
    fn from(control: &'a AnimationTimer) -> (r: ControlHandle) {
        control.handle
    }
}

impl<'a> vstd::std_specs::convert::FromSpecImpl<&'a AnimationTimer> for ControlHandle {
    open spec fn obeys_from_spec() -> bool {
        true
    }

    open spec fn from_spec(control: &'a AnimationTimer) -> ControlHandle {
        control.handle
    }
}

} // verus!
