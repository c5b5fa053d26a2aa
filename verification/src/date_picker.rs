//! Date picker: the date values it exchanges with the control, their encoding as system
//! times, and what building one sets up.
use vstd::prelude::*;
use crate::control_handle::{ControlHandle, handle_eq, DestroyRequest, destroy_request_of};
use crate::control_base::{HwndBuilder, hwnd_params, require_parent, resolve_flags, opt_str_view};
use crate::error::NwgError;
use crate::styles::{WS_VISIBLE, WS_DISABLED, WS_TABSTOP, WS_CHILD};

verus! {

/// The date picker is immediatly visible after creation
pub const VISIBLE: u32 = WS_VISIBLE;
/// The date picker cannot be interacted with by the user. It also has a grayed out look.
pub const DISABLED: u32 = WS_DISABLED;
/// The control can be selected using tab navigation
pub const TAB_STOP: u32 = WS_TABSTOP;

/// The date picker flags: a combination of the constants above.
pub type DatePickerFlags = u32;

/// The date picker shows a check box to leave the date unset
pub const DTS_SHOWNONE: u32 = 0x0002;
/// The control holds a date
pub const GDT_VALID: isize = 0;
/// The control holds no date
pub const GDT_NONE: isize = 1;
/// The lower bound of a range is given
pub const GDTR_MIN: usize = 0x0001;
/// The upper bound of a range is given
pub const GDTR_MAX: usize = 0x0002;
/// The check box of the control is checked
pub const STATE_SYSTEM_CHECKED: u32 = 0x00000010;

/// A date that can be passed to a date time picker control.
#[derive(Clone, Copy, PartialEq, Eq, Structural, Debug)]
pub struct DatePickerValue {
    pub year: u16,
    pub month: u16,
    pub day: u16,
}

/// A system time, as the control reads and writes it
#[derive(Clone, Copy, PartialEq, Eq, Structural, Debug)]
pub struct SystemTime {
    pub year: u16,
    pub month: u16,
    pub day_of_week: u16,
    pub day: u16,
    pub hour: u16,
    pub minute: u16,
    pub second: u16,
    pub milliseconds: u16,
}

/// The system time of a date: the date at midnight
pub open spec fn system_time_of(d: DatePickerValue) -> SystemTime {
    SystemTime { year: d.year, month: d.month, day_of_week: 0, day: d.day, hour: 0, minute: 0, second: 0, milliseconds: 0 }
}

/// The date of a system time
pub open spec fn date_of(t: SystemTime) -> DatePickerValue {
    DatePickerValue { year: t.year, month: t.month, day: t.day }
}

/// The system time sent for a date
pub fn to_system_time(d: DatePickerValue) -> (r: SystemTime)
    ensures
        r == system_time_of(d),
{
    SystemTime { year: d.year, month: d.month, day_of_week: 0, day: d.day, hour: 0, minute: 0, second: 0, milliseconds: 0 }
}

/// The date read from a system time
pub fn from_system_time(t: SystemTime) -> (r: DatePickerValue)
    ensures
        r == date_of(t),
{
    DatePickerValue { year: t.year, month: t.month, day: t.day }
}

/// A date and time picker (DTP) control
pub struct DatePicker {
    pub handle: ControlHandle,
}

/// What building a date picker sets up: the window to create, then the font (the one
/// given, or the default font when `None`), the date, the range, the format and the focus.
#[derive(Debug)]
pub struct DatePickerSetup {
    pub window: HwndBuilder,
    pub font: Option<usize>,
    pub date: Option<DatePickerValue>,
    pub range: Option<[DatePickerValue; 2]>,
    pub format: Option<String>,
    pub focus: bool,
    /// What to release of the control that `out` held before: building resets it to an
    /// empty control
    pub release: DestroyRequest,
}

/// Builder of a `DatePicker`
pub struct DatePickerBuilder<'a> {
    pub size: (i32, i32),
    pub position: (i32, i32),
    pub flags: Option<DatePickerFlags>,
    pub ex_flags: u32,
    pub font: Option<usize>,
    pub focus: bool,
    pub parent: Option<ControlHandle>,
    pub date: Option<DatePickerValue>,
    pub format: Option<&'a str>,
    pub range: Option<[DatePickerValue; 2]>,
}

impl Default for DatePicker {
    fn default() -> (r: DatePicker)
        ensures
            r.handle == ControlHandle::NoHandle,
    {
        DatePicker { handle: ControlHandle::NoHandle }
    }
}

impl PartialEq for DatePicker {
    fn eq(&self, other: &Self) -> (r: bool) {
        self.handle == other.handle
    }
}

impl vstd::std_specs::cmp::PartialEqSpecImpl for DatePicker {
    open spec fn obeys_eq_spec() -> bool {
        true
    }

    open spec fn eq_spec(&self, other: &DatePicker) -> bool {
        handle_eq(self.handle, other.handle)
    }
}

impl DatePicker {
    /// The format sent to the control: the format given, or none to use the default
    /// format of the system
    pub fn set_format(&self, format: Option<&str>) -> (r: Option<String>)
        ensures
            opt_str_view(r) == (match format { Some(f) => Some(f@), None => None::<Seq<char>> }),
    {
        match format {
            Some(f) => Some(f.to_owned()),
            None => None,
        }
    }

    pub fn builder<'a>() -> (b: DatePickerBuilder<'a>)
        ensures
            b.size == (100i32, 25i32),
            b.position == (0i32, 0i32),
            !b.focus,
            b.flags is None,
            b.ex_flags == 0,
            b.font is None,
            b.parent is None,
            b.date is None,
            b.format is None,
            b.range is None,
    {
        DatePickerBuilder {
            size: (100, 25),
            position: (0, 0),
            focus: false,
            flags: None,
            ex_flags: 0,
            font: None,
            parent: None,
            date: None,
            format: None,
            range: None,
        }
    }

    /// Whether the check box of the control is checked, from the check state that the
    /// control reports
    pub fn checked(&self, state_check: u32) -> (r: bool)
        ensures
            r == (state_check == STATE_SYSTEM_CHECKED),
    {
        state_check == STATE_SYSTEM_CHECKED
    }

    /// The date of the control, from the answer `r` of the control and the system time it
    /// filled: none unless the control holds a date
    pub fn value(&self, r: isize, syst: SystemTime) -> (v: Option<DatePickerValue>)
        ensures
            v == if r == GDT_VALID { Some(date_of(syst)) } else { None::<DatePickerValue> },
    {
        if r == GDT_VALID {
            Some(from_system_time(syst))
        } else {
            None
        }
    }

    /// What is sent to set the date of the control: the date, or no date to clear its
    /// check box
    pub fn set_value(&self, date: Option<DatePickerValue>) -> (r: (isize, Option<SystemTime>))
        ensures
            r == (match date {
                Some(d) => (GDT_VALID, Some(system_time_of(d))),
                None => (GDT_NONE, None::<SystemTime>),
            }),
    {
        match date {
            Some(d) => (GDT_VALID, Some(to_system_time(d))),
            None => (GDT_NONE, None),
        }
    }

    /// The range of the control, from the two system times it filled
    pub fn range(&self, tr: [SystemTime; 2]) -> (r: [DatePickerValue; 2])
        ensures
            r@ == seq![date_of(tr@[0]), date_of(tr@[1])],
    {
        [from_system_time(tr[0]), from_system_time(tr[1])]
    }

    /// What is sent to set the range of the control: both bounds, inclusive
    pub fn set_range(&self, r: &[DatePickerValue; 2]) -> (s: (usize, [SystemTime; 2]))
        ensures
            s.0 == GDTR_MIN | GDTR_MAX,
            s.1@ == seq![system_time_of(r@[0]), system_time_of(r@[1])],
    {
        (GDTR_MIN | GDTR_MAX, [to_system_time(r[0]), to_system_time(r[1])])
    }

    /// Winapi class name used during control creation
    pub fn class_name(&self) -> (r: &'static str)
        ensures
            r@ == "SysDateTimePick32"@,
    {
        "SysDateTimePick32"
    }

    /// Winapi base flags used during window creation
    pub fn flags(&self) -> (r: u32)
        ensures
            r == WS_VISIBLE | WS_TABSTOP,
    {
        WS_VISIBLE | WS_TABSTOP
    }

    /// Winapi flags required by the control
    pub fn forced_flags(&self) -> (r: u32)
        ensures
            r == WS_CHILD | DTS_SHOWNONE,
    {
        WS_CHILD | DTS_SHOWNONE
    }
}

impl<'a> DatePickerBuilder<'a> {
    pub fn flags(self, flags: DatePickerFlags) -> (b: DatePickerBuilder<'a>)
        ensures
            b == (DatePickerBuilder { flags: Some(flags), ..self }),
    {
        DatePickerBuilder { flags: Some(flags), ..self }
    }

    pub fn ex_flags(self, flags: u32) -> (b: DatePickerBuilder<'a>)
        ensures
            b == (DatePickerBuilder { ex_flags: flags, ..self }),
    {
        DatePickerBuilder { ex_flags: flags, ..self }
    }

    pub fn size(self, size: (i32, i32)) -> (b: DatePickerBuilder<'a>)
        ensures
            b == (DatePickerBuilder { size: size, ..self }),
    {
        DatePickerBuilder { size: size, ..self }
    }

    pub fn position(self, pos: (i32, i32)) -> (b: DatePickerBuilder<'a>)
        ensures
            b == (DatePickerBuilder { position: pos, ..self }),
    {
        DatePickerBuilder { position: pos, ..self }
    }

    pub fn font(self, font: Option<usize>) -> (b: DatePickerBuilder<'a>)
        ensures
            b == (DatePickerBuilder { font: font, ..self }),
    {
        DatePickerBuilder { font: font, ..self }
    }

    pub fn parent(self, p: ControlHandle) -> (b: DatePickerBuilder<'a>)
        ensures
            b == (DatePickerBuilder { parent: Some(p), ..self }),
    {
        DatePickerBuilder { parent: Some(p), ..self }
    }

    pub fn date(self, date: Option<DatePickerValue>) -> (b: DatePickerBuilder<'a>)
        ensures
            b == (DatePickerBuilder { date: date, ..self }),
    {
        DatePickerBuilder { date: date, ..self }
    }

    pub fn format(self, format: Option<&'a str>) -> (b: DatePickerBuilder<'a>)
        ensures
            b == (DatePickerBuilder { format: format, ..self }),
    {
        DatePickerBuilder { format: format, ..self }
    }

    pub fn range(self, range: Option<[DatePickerValue; 2]>) -> (b: DatePickerBuilder<'a>)
        ensures
            b == (DatePickerBuilder { range: range, ..self }),
    {
        DatePickerBuilder { range: range, ..self }
    }

    pub fn focus(self, focus: bool) -> (b: DatePickerBuilder<'a>)
        ensures
            b == (DatePickerBuilder { focus: focus, ..self }),
    {
        DatePickerBuilder { focus: focus, ..self }
    }

    /// What building the date picker sets up: the window with the chosen flags (or the
    /// default ones), then each setting that was given; fails without a parent.
    pub fn build(&self, out: &mut DatePicker) -> (r: Result<DatePickerSetup, NwgError>)
        ensures
            r is Ok ==> final(out).handle == ControlHandle::NoHandle
                && r->Ok_0.release == destroy_request_of(old(out).handle),
            r is Err ==> *final(out) == *old(out),
            self.parent is None <==> r is Err,
            self.parent is None ==> (r matches Err(NwgError::NoParent(s)) && s@ == "DatePicker"@),
            r matches Ok(s) ==> {
                &&& opt_str_view(s.window.class_name) == Some("SysDateTimePick32"@)
                &&& s.window.forced_flags == WS_CHILD | DTS_SHOWNONE
                &&& s.window.flags == Some(match self.flags { Some(f) => f, None => WS_VISIBLE | WS_TABSTOP })
                &&& s.window.ex_flags == Some(self.ex_flags)
                &&& s.window.size == Some(self.size)
                &&& s.window.pos == Some(self.position)
                &&& s.window.text is None
                &&& s.window.parent == (match self.parent.unwrap() { ControlHandle::Hwnd(h) => Some(h), _ => None::<usize> })
                &&& s.font == self.font
                &&& s.date == self.date
                &&& s.range == self.range
                &&& opt_str_view(s.format) == (match self.format { Some(f) => Some(f@), None => None::<Seq<char>> })
                &&& s.focus == self.focus
            },
    {
        let flags = resolve_flags(self.flags, out.flags());
        let parent = match require_parent(self.parent, "DatePicker") {
            Ok(p) => p,
            Err(e) => { return Err(e); },
        };
        let window = hwnd_params(out.class_name(), out.forced_flags(), flags, self.ex_flags, self.size, self.position, None, parent);
        let format = match self.format {
            Some(f) => Some(f.to_owned()),
            None => None,
        };
        let release = out.handle.destroy();
        Ok(DatePickerSetup {
            release,
            window,
            font: self.font,
            date: self.date,
            range: self.range,
            format,
            focus: self.focus,
        })
    }
}

/// Reading back a date that was set gives that date.
pub proof fn lemma_date_round_trip(d: DatePickerValue)
    ensures
        date_of(system_time_of(d)) == d,
{
}

/// The handle of a control
impl<'a> From<&'a DatePicker> for ControlHandle {
    fn from(control: &'a DatePicker) -> (r: ControlHandle) {
        control.handle
    }
}

impl<'a> vstd::std_specs::convert::FromSpecImpl<&'a DatePicker> for ControlHandle {
    open spec fn obeys_from_spec() -> bool {
        true
    }

    open spec fn from_spec(control: &'a DatePicker) -> ControlHandle {
        control.handle
    }
}

} // verus!
