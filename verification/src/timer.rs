//! Timer: the system timer bound to a window and an id, with its interval.
use vstd::prelude::*;
use crate::control_handle::{ControlHandle, handle_eq, DestroyRequest, destroy_request_of};
use crate::control_base::require_window_parent;
use crate::error::NwgError;

verus! {

/// A system timer: its handle names its window and its id
pub struct Timer {
    pub handle: ControlHandle,
    pub interval: u32,
}

/// What creating a timer takes: its window, its interval in milliseconds, and whether
/// it starts stopped
#[derive(Clone, Copy, Debug, PartialEq, Eq, Structural)]
pub struct TimerSetup {
    pub parent: usize,
    pub interval: u32,
    pub stopped: bool,
    /// What to release of the control that `out` held before: building resets it to an
    /// empty control
    pub release: DestroyRequest,
}

/// Builder of a `Timer`
pub struct TimerBuilder {
    pub parent: Option<ControlHandle>,
    pub interval: u32,
    pub stopped: bool,
}

impl Default for Timer {
    fn default() -> (r: Timer)
        ensures
            r.handle == ControlHandle::NoHandle,
            r.interval == 0,
    {
        Timer { handle: ControlHandle::NoHandle, interval: 0 }
    }
}

impl PartialEq for Timer {
    fn eq(&self, other: &Self) -> (r: bool) {
        self.handle == other.handle
    }
}

impl vstd::std_specs::cmp::PartialEqSpecImpl for Timer {
    open spec fn obeys_eq_spec() -> bool {
        true
    }

    open spec fn eq_spec(&self, other: &Timer) -> bool {
        handle_eq(self.handle, other.handle)
    }
}

impl Timer {
    /// A timer starts stopped, with an interval of 100 milliseconds, unless told otherwise
    pub fn builder() -> (b: TimerBuilder)
        ensures
            b.parent is None,
            b.interval == 100,
            b.stopped,
    {
        TimerBuilder { parent: None, interval: 100, stopped: true }
    }

    /// Whether the timer can be used: it is bound, and its window is still alive
    /// (`window_alive`, as the system reports it)
    pub fn valid(&self, window_alive: bool) -> (r: bool)
        requires
            self.handle is NoHandle || self.handle is Timer,
        ensures
            r == (self.handle is Timer && window_alive),
    {
        match self.handle {
            ControlHandle::Timer(_, _) => window_alive,
            _ => false,
        }
    }

    /// The interval of the timer, in milliseconds
    pub fn interval(&self) -> (r: u32)
        ensures
            r == self.interval,
    {
        self.interval
    }

    /// Sets the interval of the timer; it is used the next time the timer starts
    pub fn set_interval(&mut self, i: u32)
        ensures
            final(self).handle == old(self).handle,
            final(self).interval == i,
    {
        self.interval = i;
    }

    /// The (window, id) pair of the timer to stop, which must be bound to a live window
    pub fn stop(&self, window_alive: bool) -> (r: (usize, u32))
        requires
            self.handle is Timer,
            window_alive,
        ensures
            r == (self.handle->Timer_0, self.handle->Timer_1),
    {
        match self.handle {
            ControlHandle::Timer(hwnd, id) => (hwnd, id),
            _ => (0, 0),
        }
    }

    /// The (window, id, interval) triple of the timer to start, which must be bound to a
    /// live window
    pub fn start(&self, window_alive: bool) -> (r: (usize, u32, u32))
        requires
            self.handle is Timer,
            window_alive,
        ensures
            r == (self.handle->Timer_0, self.handle->Timer_1, self.interval),
    {
        match self.handle {
            ControlHandle::Timer(hwnd, id) => (hwnd, id, self.interval),
            _ => (0, 0, self.interval),
        }
    }
}

impl TimerBuilder {
    pub fn interval(self, interval: u32) -> (b: TimerBuilder)
        ensures
            b == (TimerBuilder { interval: interval, ..self }),
    {
        TimerBuilder { interval, ..self }
    }

    pub fn stopped(self, stop: bool) -> (b: TimerBuilder)
        ensures
            b == (TimerBuilder { stopped: stop, ..self }),
    {
        TimerBuilder { stopped: stop, ..self }
    }

    pub fn parent(self, p: ControlHandle) -> (b: TimerBuilder)
        ensures
            b == (TimerBuilder { parent: Some(p), ..self }),
    {
        TimerBuilder { parent: Some(p), ..self }
    }

    /// What creating the timer takes; the parent must be a window
    pub fn build(self, out: &mut Timer) -> (r: Result<TimerSetup, NwgError>)
        ensures
            r is Ok ==> final(out).handle == ControlHandle::NoHandle
                && r->Ok_0.release == destroy_request_of(old(out).handle)
                && final(out).interval == 0,
            r is Err ==> *final(out) == *old(out),
            match self.parent {
                Some(ControlHandle::Hwnd(h)) => r == Ok::<TimerSetup, NwgError>(
                    TimerSetup { parent: h, interval: self.interval, stopped: self.stopped,
                        release: destroy_request_of(old(out).handle) }),
                Some(_) => r matches Err(NwgError::ControlCreationError(s)) && s@ == "Wrong parent type"@,
                None => r matches Err(NwgError::NoParent(s)) && s@ == "Timer"@,
            },
    {
        match require_window_parent(self.parent, "Timer") {
            Ok(parent) => {
                let release = out.handle.destroy();
                out.interval = 0;
                Ok(TimerSetup { release, parent, interval: self.interval, stopped: self.stopped })
            },
            Err(e) => Err(e),
        }
    }
}

/// The handle of a control
impl<'a> From<&'a Timer> for ControlHandle {
    fn from(control: &'a Timer) -> (r: ControlHandle) {
        control.handle
    }
}

impl<'a> vstd::std_specs::convert::FromSpecImpl<&'a Timer> for ControlHandle {
    open spec fn obeys_from_spec() -> bool {
        true
    }

    open spec fn from_spec(control: &'a Timer) -> ControlHandle {
        control.handle
    }
}

} // verus!
