//! Progress bar: its style flags, its states, and the style changes it makes.
use vstd::prelude::*;
use crate::control_handle::{ControlHandle, handle_eq, DestroyRequest, destroy_request_of};
use crate::control_base::{HwndBuilder, hwnd_params, require_parent, resolve_flags, opt_str_view};
use crate::error::NwgError;
use std::ops::Range;
use crate::styles::{WS_VISIBLE, WS_DISABLED, WS_CHILD, PBS_VERTICAL, PBS_MARQUEE};

verus! {

pub const VISIBLE: u32 = WS_VISIBLE;
pub const DISABLED: u32 = WS_DISABLED;
pub const VERTICAL: u32 = PBS_VERTICAL;
pub const MARQUEE: u32 = PBS_MARQUEE;

/// The progress bar flags: a combination of the constants above.
pub type ProgressBarFlags = u32;

/// `PBST_NORMAL`, `PBST_ERROR`, `PBST_PAUSED`: the states of a progress bar
pub const PBST_NORMAL: i32 = 0x0001;
pub const PBST_ERROR: i32 = 0x0002;
pub const PBST_PAUSED: i32 = 0x0003;

#[derive(Copy, Clone, Debug, PartialEq, Eq, Structural)]
pub enum ProgressBarState {
    Normal,
    Error,
    Paused,
}

/// The state value of a progress bar state
pub open spec fn bar_state_code(s: ProgressBarState) -> i32 {
    match s {
        ProgressBarState::Normal => PBST_NORMAL,
        ProgressBarState::Error => PBST_ERROR,
        ProgressBarState::Paused => PBST_PAUSED,
    }
}

/// A progress bar
pub struct ProgressBar {
    pub handle: ControlHandle,
}

/// What building a progress bar sets up: the window to create, then its state, step, position,
/// range and marquee, in that order.
#[derive(Debug)]
pub struct ProgressBarSetup {
    pub window: HwndBuilder,
    pub state: ProgressBarState,
    pub step: u32,
    pub pos: u32,
    pub range: Range<u32>,
    pub marquee_enable: bool,
    pub marquee_update: u32,
    /// What to release of the control that `out` held before: building resets it to an
    /// empty control
    pub release: DestroyRequest,
}

/// Builder of a `ProgressBar`
pub struct ProgressBarBuilder {
    pub size: (i32, i32),
    pub position: (i32, i32),
    pub flags: Option<ProgressBarFlags>,
    pub ex_flags: u32,
    pub state: ProgressBarState,
    pub step: u32,
    pub pos: u32,
    pub range: Range<u32>,
    pub marquee_enable: bool,
    pub marquee_update: u32,
    pub parent: Option<ControlHandle>,
}

impl Default for ProgressBar {
    fn default() -> (r: ProgressBar)
        ensures
            r.handle == ControlHandle::NoHandle,
    {
        ProgressBar { handle: ControlHandle::NoHandle }
    }
}

impl PartialEq for ProgressBar {
    fn eq(&self, other: &Self) -> (r: bool) {
        self.handle == other.handle
    }
}

impl vstd::std_specs::cmp::PartialEqSpecImpl for ProgressBar {
    open spec fn obeys_eq_spec() -> bool {
        true
    }

    open spec fn eq_spec(&self, other: &ProgressBar) -> bool {
        handle_eq(self.handle, other.handle)
    }
}

impl ProgressBar {
    /// The value sent to move the bar by `v`
    pub fn advance_delta(&self, v: u32) -> (r: usize)
        ensures
            r == v as usize,
    {
        v as usize
    }

    /// The step of the bar, from the answer of the control
    pub fn step(&self, answer: isize) -> (r: u32)
        ensures
            r == answer as u32,
    {
        answer as u32
    }

    /// The value sent to set the step of the bar
    pub fn set_step(&self, s: u32) -> (r: usize)
        ensures
            r == s as usize,
    {
        s as usize
    }

    /// The position of the bar, from the answer of the control
    pub fn pos(&self, answer: isize) -> (r: u32)
        ensures
            r == answer as u32,
    {
        answer as u32
    }

    /// The value sent to set the position of the bar
    pub fn set_pos(&self, p: u32) -> (r: usize)
        ensures
            r == p as usize,
    {
        p as usize
    }

    /// The (low, high) pair sent to set the range of the bar
    pub fn set_range(&self, range: Range<u32>) -> (r: (usize, isize))
        ensures
            r == (range.start as usize, range.end as isize),
    {
        (range.start as usize, range.end as isize)
    }

    /// The (enable, interval) pair sent to turn the marquee on or off
    pub fn set_marquee(&self, enable: bool, update_interval: u32) -> (r: (usize, isize))
        ensures
            r == (if enable { 1usize } else { 0usize }, update_interval as isize),
    {
        (if enable { 1 } else { 0 }, update_interval as isize)
    }

    /// A builder of a 100x40 bar in the normal state, with a step of 1, at position 0,
    /// in the range 0..100, without marquee
    pub fn builder() -> (b: ProgressBarBuilder)
        ensures
            b.size == (100i32, 40i32),
            b.position == (0i32, 0i32),
            b.flags is None,
            b.ex_flags == 0,
            b.state == ProgressBarState::Normal,
            b.step == 1,
            b.pos == 0,
            b.range == (Range { start: 0u32, end: 100u32 }),
            !b.marquee_enable,
            b.marquee_update == 0,
            b.parent is None,
    {
        ProgressBarBuilder {
            size: (100, 40),
            position: (0, 0),
            flags: None,
            ex_flags: 0,
            state: ProgressBarState::Normal,
            step: 1,
            pos: 0,
            range: Range { start: 0, end: 100 },
            marquee_enable: false,
            marquee_update: 0,
            parent: None,
        }
    }

    /// The state that the bar reports as `state`; the bar reports no other value
    pub fn state(&self, state: i32) -> (r: ProgressBarState)
        requires
            PBST_NORMAL <= state <= PBST_PAUSED,
        ensures
            bar_state_code(r) == state,
    {
        if state == PBST_NORMAL {
            ProgressBarState::Normal
        } else if state == PBST_ERROR {
            ProgressBarState::Error
        } else {
            ProgressBarState::Paused
        }
    }

    /// The state value sent to the bar to set the state `state`
    pub fn set_state(&self, state: ProgressBarState) -> (r: i32)
        ensures
            r == bar_state_code(state),
    {
        match state {
            ProgressBarState::Normal => PBST_NORMAL,
            ProgressBarState::Error => PBST_ERROR,
            ProgressBarState::Paused => PBST_PAUSED,
        }
    }

    /// The style of a bar whose style is `style` once the flags `styles` are added
    pub fn add_flags(&self, style: u32, styles: ProgressBarFlags) -> (r: u32)
        ensures
            r == style | styles,
    {
        style | styles
    }

    /// The style of a bar whose style is `style` once the flags `styles` are removed
    pub fn remove_flags(&self, style: u32, styles: ProgressBarFlags) -> (r: u32)
        ensures
            r == style & !styles,
    {
        style & !styles
    }

    /// The range of the bar from its low and high limits
    pub fn range(&self, low: u32, high: u32) -> (r: Range<u32>)
        ensures
            r == (Range { start: low, end: high }),
    {
        Range { start: low, end: high }
    }

    /// Winapi class name used during control creation
    pub fn class_name(&self) -> (r: &'static str)
        ensures
            r@ == "msctls_progress32"@,
    {
        "msctls_progress32"
    }

    /// Winapi base flags used during window creation
    pub fn flags(&self) -> (r: u32)
        ensures
            r == WS_VISIBLE,
    {
        WS_VISIBLE
    }

    /// Winapi flags required by the control
    pub fn forced_flags(&self) -> (r: u32)
        ensures
            r == WS_CHILD,
    {
        WS_CHILD
    }
}

impl ProgressBarBuilder {
    pub fn flags(self, flags: ProgressBarFlags) -> (b: ProgressBarBuilder)
        ensures
            b == (ProgressBarBuilder { flags: Some(flags), ..self }),
    {
        ProgressBarBuilder { flags: Some(flags), ..self }
    }

    pub fn ex_flags(self, flags: u32) -> (b: ProgressBarBuilder)
        ensures
            b == (ProgressBarBuilder { ex_flags: flags, ..self }),
    {
        ProgressBarBuilder { ex_flags: flags, ..self }
    }

    pub fn size(self, size: (i32, i32)) -> (b: ProgressBarBuilder)
        ensures
            b == (ProgressBarBuilder { size: size, ..self }),
    {
        ProgressBarBuilder { size: size, ..self }
    }

    pub fn position(self, pos: (i32, i32)) -> (b: ProgressBarBuilder)
        ensures
            b == (ProgressBarBuilder { position: pos, ..self }),
    {
        ProgressBarBuilder { position: pos, ..self }
    }

    pub fn state(self, state: ProgressBarState) -> (b: ProgressBarBuilder)
        ensures
            b == (ProgressBarBuilder { state: state, ..self }),
    {
        ProgressBarBuilder { state: state, ..self }
    }

    pub fn step(self, step: u32) -> (b: ProgressBarBuilder)
        ensures
            b == (ProgressBarBuilder { step: step, ..self }),
    {
        ProgressBarBuilder { step: step, ..self }
    }

    pub fn pos(self, pos: u32) -> (b: ProgressBarBuilder)
        ensures
            b == (ProgressBarBuilder { pos: pos, ..self }),
    {
        ProgressBarBuilder { pos: pos, ..self }
    }

    pub fn range(self, range: Range<u32>) -> (b: ProgressBarBuilder)
        ensures
            b == (ProgressBarBuilder { range: range, ..self }),
    {
        ProgressBarBuilder { range: range, ..self }
    }

    pub fn marquee(self, enable: bool) -> (b: ProgressBarBuilder)
        ensures
            b == (ProgressBarBuilder { marquee_enable: enable, ..self }),
    {
        ProgressBarBuilder { marquee_enable: enable, ..self }
    }

    pub fn marquee_update(self, update_interval: u32) -> (b: ProgressBarBuilder)
        ensures
            b == (ProgressBarBuilder { marquee_update: update_interval, ..self }),
    {
        ProgressBarBuilder { marquee_update: update_interval, ..self }
    }

    pub fn parent(self, p: ControlHandle) -> (b: ProgressBarBuilder)
        ensures
            b == (ProgressBarBuilder { parent: Some(p), ..self }),
    {
        ProgressBarBuilder { parent: Some(p), ..self }
    }

    /// The window to create for the control; fails without a parent.
    pub fn build(&self, out: &mut ProgressBar) -> (r: Result<ProgressBarSetup, NwgError>)
        ensures
            r is Ok ==> final(out).handle == ControlHandle::NoHandle
                && r->Ok_0.release == destroy_request_of(old(out).handle),
            r is Err ==> *final(out) == *old(out),
            self.parent is None <==> r is Err,
            self.parent is None ==> (r matches Err(NwgError::NoParent(s)) && s@ == "Progress Bar"@),
            r matches Ok(s) ==> {
                &&& opt_str_view(s.window.class_name) == Some("msctls_progress32"@)
                &&& s.window.forced_flags == WS_CHILD
                &&& s.window.flags == Some((match self.flags { Some(f) => f, None => WS_VISIBLE }))
                &&& s.window.ex_flags == Some(self.ex_flags)
                &&& s.window.size == Some(self.size)
                &&& s.window.pos == Some(self.position)
                &&& opt_str_view(s.window.text) == None::<Seq<char>>
                &&& s.window.parent == (match self.parent.unwrap() { ControlHandle::Hwnd(h) => Some(h), _ => None::<usize> })
                &&& s.state == self.state
                &&& s.step == self.step
                &&& s.pos == self.pos
                &&& s.range == self.range
                &&& s.marquee_enable == self.marquee_enable
                &&& s.marquee_update == self.marquee_update
            },
    {
        let flags = resolve_flags(self.flags, out.flags());
        let parent = match require_parent(self.parent, "Progress Bar") {
            Ok(p) => p,
            Err(e) => { return Err(e); },
        };
        let release = out.handle.destroy();
        Ok(ProgressBarSetup {
            release,
            window: hwnd_params(out.class_name(), out.forced_flags(), flags, self.ex_flags, self.size, self.position, None, parent),
            state: self.state,
            step: self.step,
            pos: self.pos,
            range: Range { start: self.range.start, end: self.range.end },
            marquee_enable: self.marquee_enable,
            marquee_update: self.marquee_update,
        })
    }
}

/// Reading back a bar state gives the state that was set.
pub proof fn lemma_bar_state_round_trip(s: ProgressBarState)
    ensures
        PBST_NORMAL <= bar_state_code(s) <= PBST_PAUSED,
        forall|t: ProgressBarState| bar_state_code(t) == bar_state_code(s) ==> t == s,
{
}

/// Removing flags undoes adding them, except for the flags that were already set:
/// the bits outside `flags` never change, and the bits of `flags` end up cleared.
pub proof fn lemma_add_remove_flags(style: u32, flags: u32)
    ensures
        (style | flags) & !flags == style & !flags,
        (style | flags) & flags == flags,
        (style & !flags) & flags == 0,
        (style & !flags) | (style & flags) == style,
{
    assert((style | flags) & !flags == style & !flags) by (bit_vector);
    assert((style | flags) & flags == flags) by (bit_vector);
    assert((style & !flags) & flags == 0) by (bit_vector);
    assert((style & !flags) | (style & flags) == style) by (bit_vector);
}

/// The handle of a control
impl<'a> From<&'a ProgressBar> for ControlHandle {
    fn from(control: &'a ProgressBar) -> (r: ControlHandle) {
        control.handle
    }
}

impl<'a> vstd::std_specs::convert::FromSpecImpl<&'a ProgressBar> for ControlHandle {
    open spec fn obeys_from_spec() -> bool {
        true
    }

    open spec fn from_spec(control: &'a ProgressBar) -> ControlHandle {
        control.handle
    }
}

} // verus!
