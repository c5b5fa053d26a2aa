//! Tooltip: the tools it registers, its decorations and delays, and what building one
//! sets up.
use vstd::prelude::*;
use crate::control_handle::{ControlHandle, handle_eq, DestroyRequest, destroy_request_of};
use crate::control_base::{ControlBase, HwndBuilder, opt_str_view};

verus! {

/// The tooltip pops up: it is a window of its own
pub const WS_POPUP: u32 = 0x80000000;
/// The tooltip shows even when its owner is not active
pub const TTS_ALWAYSTIP: u32 = 0x01;
/// The tooltip keeps ampersands in its text
pub const TTS_NOPREFIX: u32 = 0x02;
/// The tool is identified by the window handle of its owner
pub const TTF_IDISHWND: u32 = 0x0001;
/// The tooltip follows the messages of its owner
pub const TTF_SUBCLASS: u32 = 0x0010;
/// The delay before the tooltip appears
pub const TTDT_INITIAL: usize = 3;

/// The standard icons of a tooltip title
#[derive(Copy, Clone, Debug, PartialEq, Eq, Structural)]
pub enum TooltipIcon {
    NoIcon,
    Info,
    Warning,
    Error,
    InfoLarge,
    WarningLarge,
    ErrorLarge,
}

/// The code of a standard icon
pub open spec fn icon_code(i: TooltipIcon) -> usize {
    match i {
        TooltipIcon::NoIcon => 0,
        TooltipIcon::Info => 1,
        TooltipIcon::Warning => 2,
        TooltipIcon::Error => 3,
        TooltipIcon::InfoLarge => 4,
        TooltipIcon::WarningLarge => 5,
        TooltipIcon::ErrorLarge => 6,
    }
}

/// The window handle of a tool's owner
pub open spec fn owner_window(owner: ControlHandle) -> usize {
    match owner {
        ControlHandle::Hwnd(h) => h,
        _ => 0,
    }
}

/// A tool of the tooltip: the flags and the identifier sent for it
#[derive(Copy, Clone, Debug, PartialEq, Eq, Structural)]
pub struct ToolInfo {
    pub flags: u32,
    pub hwnd: usize,
    pub id: usize,
}

/// The title of a tooltip, with an icon of its own or a standard one
#[derive(Debug)]
pub enum TooltipDecoration {
    Icon(String, usize),
    Standard(String, TooltipIcon),
}

/// What building a tooltip sets up: the window to create, its decoration when one was
/// given, then the tools with a text and the tools whose text is asked when shown.
#[derive(Debug)]
pub struct TooltipSetup<'a> {
    pub window: HwndBuilder,
    pub decoration: Option<TooltipDecoration>,
    pub register: Vec<(ControlHandle, &'a str)>,
    pub register_cb: Vec<ControlHandle>,
    /// What to release of the tooltip that was built before: building resets it
    pub release: DestroyRequest,
}

/// A tooltip: a manager of the tips shown over several controls
pub struct Tooltip {
    pub handle: ControlHandle,
}

/// Builder of a `Tooltip`
pub struct TooltipBuilder<'a> {
    pub title: Option<&'a str>,
    pub ico: Option<usize>,
    pub default_ico: Option<TooltipIcon>,
    pub register: Vec<(ControlHandle, &'a str)>,
    pub register_cb: Vec<ControlHandle>,
}

impl Default for Tooltip {
    fn default() -> (r: Tooltip)
        ensures
            r.handle == ControlHandle::NoHandle,
    {
        Tooltip { handle: ControlHandle::NoHandle }
    }
}

impl PartialEq for Tooltip {
    fn eq(&self, other: &Self) -> (r: bool) {
        self.handle == other.handle
    }
}

impl vstd::std_specs::cmp::PartialEqSpecImpl for Tooltip {
    open spec fn obeys_eq_spec() -> bool {
        true
    }

    open spec fn eq_spec(&self, other: &Tooltip) -> bool {
        handle_eq(self.handle, other.handle)
    }
}

impl TooltipIcon {
    /// The code sent for the standard icon
    pub fn code(&self) -> (r: usize)
        ensures
            r == icon_code(*self),
    {
        match self {
            TooltipIcon::NoIcon => 0,
            TooltipIcon::Info => 1,
            TooltipIcon::Warning => 2,
            TooltipIcon::Error => 3,
            TooltipIcon::InfoLarge => 4,
            TooltipIcon::WarningLarge => 5,
            TooltipIcon::ErrorLarge => 6,
        }
    }
}

impl Tooltip {
    pub fn builder<'a>() -> (b: TooltipBuilder<'a>)
        ensures
            b.title is None,
            b.ico is None,
            b.default_ico is None,
            b.register@.len() == 0,
            b.register_cb@.len() == 0,
    {
        TooltipBuilder { title: None, ico: None, default_ico: None, register: Vec::new(), register_cb: Vec::new() }
    }

    /// The tool sent to register, change or remove the tip of `owner`, which must be
    /// bound to a window
    pub fn tool(&self, owner: &ControlHandle) -> (r: ToolInfo)
        requires
            owner is Hwnd,
        ensures
            r.flags == TTF_IDISHWND | TTF_SUBCLASS,
            r.hwnd == owner_window(*owner),
            r.id == owner_window(*owner),
    {
        let h = match owner {
            ControlHandle::Hwnd(h) => *h,
            _ => 0,
        };
        ToolInfo { flags: TTF_IDISHWND | TTF_SUBCLASS, hwnd: h, id: h }
    }

    /// The size of the buffer the tip text is read into: 200 characters unless given
    pub fn text_buffer_size(&self, buffer_size: Option<usize>) -> (r: usize)
        ensures
            r == (match buffer_size { Some(s) => s, None => 200 }),
    {
        match buffer_size {
            Some(s) => s,
            None => 200,
        }
    }

    /// The icon code sent with a title decorated by a standard icon
    pub fn set_default_decoration(&self, icon: TooltipIcon) -> (r: usize)
        ensures
            r == icon_code(icon),
    {
        icon.code()
    }

    /// The delay and its value sent to set the time before the tip shows: the longest
    /// delay when none is given
    pub fn set_delay_time(&self, delay: Option<u16>) -> (r: (usize, isize))
        ensures
            r == (TTDT_INITIAL, (match delay { Some(d) => d, None => u16::MAX }) as isize),
    {
        let value: u16 = match delay {
            Some(d) => d,
            None => u16::MAX,
        };
        (TTDT_INITIAL, value as isize)
    }

    /// The delay before the tip shows, from the answer of the control
    pub fn delay_time(&self, answer: isize) -> (r: u16)
        ensures
            r == answer as u16,
    {
        answer as u16
    }

    /// The number of tools, from the answer of the control
    pub fn count(&self, answer: isize) -> (r: usize)
        ensures
            r == answer as usize,
    {
        answer as usize
    }

    /// The value sent to enable (1) or disable (0) the tooltip
    pub fn set_enabled(&self, v: bool) -> (r: usize)
        ensures
            r == if v { 1usize } else { 0usize },
    {
        if v { 1 } else { 0 }
    }

    /// Winapi class name used during control creation
    pub fn class_name(&self) -> (r: &'static str)
        ensures
            r@ == "tooltips_class32"@,
    {
        "tooltips_class32"
    }

    /// Winapi base flags used during window creation
    pub fn flags(&self) -> (r: u32)
        ensures
            r == 0,
    {
        0
    }

    /// Winapi flags required by the control
    pub fn forced_flags(&self) -> (r: u32)
        ensures
            r == WS_POPUP | TTS_ALWAYSTIP | TTS_NOPREFIX,
    {
        WS_POPUP | TTS_ALWAYSTIP | TTS_NOPREFIX
    }
}

impl<'a> TooltipBuilder<'a> {
    pub fn register(self, widget: ControlHandle, text: &'a str) -> (b: TooltipBuilder<'a>)
        ensures
            b.title == self.title,
            b.ico == self.ico,
            b.default_ico == self.default_ico,
            b.register@ == self.register@.push((widget, text)),
            b.register_cb@ == self.register_cb@,
    {
        let mut b = self;
        b.register.push((widget, text));
        b
    }

    pub fn register_callback(self, widget: ControlHandle) -> (b: TooltipBuilder<'a>)
        ensures
            b.title == self.title,
            b.ico == self.ico,
            b.default_ico == self.default_ico,
            b.register@ == self.register@,
            b.register_cb@ == self.register_cb@.push(widget),
    {
        let mut b = self;
        b.register_cb.push(widget);
        b
    }

    pub fn decoration(self, title: Option<&'a str>, ico: Option<usize>) -> (b: TooltipBuilder<'a>)
        ensures
            b == (TooltipBuilder { title: title, ico: ico, ..self }),
    {
        TooltipBuilder { title, ico, ..self }
    }

    pub fn default_decoration(self, title: Option<&'a str>, ico: Option<TooltipIcon>) -> (b: TooltipBuilder<'a>)
        ensures
            b == (TooltipBuilder { title: title, default_ico: ico, ..self }),
    {
        TooltipBuilder { title, default_ico: ico, ..self }
    }

    /// What building the tooltip sets up. A title, an icon or a standard icon given makes
    /// a decoration: the title (empty when none) with the icon when one is given, else
    /// with the standard icon, else with no icon.
    pub fn build(self, tooltip: &mut Tooltip) -> (r: TooltipSetup<'a>)
        ensures
            final(tooltip).handle == ControlHandle::NoHandle,
            r.release == destroy_request_of(old(tooltip).handle),
            opt_str_view(r.window.class_name) == Some("tooltips_class32"@),
            r.window.forced_flags == WS_POPUP | TTS_ALWAYSTIP | TTS_NOPREFIX,
            r.window.flags == Some(0u32),
            r.window.ex_flags is None,
            r.window.size is None,
            r.window.pos is None,
            r.window.text is None,
            r.window.parent is None,
            r.decoration is Some <==> (self.title is Some || self.ico is Some || self.default_ico is Some),
            r.decoration matches Some(d) ==> {
                let title = match self.title { Some(t) => t@, None => Seq::<char>::empty() };
                match self.ico {
                    Some(i) => d matches TooltipDecoration::Icon(t, j) && t@ == title && j == i,
                    None => d matches TooltipDecoration::Standard(t, s) && t@ == title
                        && s == (match self.default_ico { Some(s) => s, None => TooltipIcon::NoIcon }),
                }
            },
            r.register@ == self.register@,
            r.register_cb@ == self.register_cb@,
    {
        let release = tooltip.handle.destroy();
        let window = ControlBase::build_hwnd()
            .class_name(Some(tooltip.class_name()))
            .forced_flags(tooltip.forced_flags())
            .flags(tooltip.flags());
        let decoration = if self.title.is_some() || self.ico.is_some() || self.default_ico.is_some() {
            let title: String = match self.title {
                Some(t) => t.to_owned(),
                None => String::new(),
            };
            match self.ico {
                Some(ico) => Some(TooltipDecoration::Icon(title, ico)),
                None => match self.default_ico {
                    Some(ico) => Some(TooltipDecoration::Standard(title, ico)),
                    None => Some(TooltipDecoration::Standard(title, TooltipIcon::NoIcon)),
                },
            }
        } else {
            None
        };
        TooltipSetup { window, decoration, register: self.register, register_cb: self.register_cb, release }
    }
}

/// Each standard icon has a code of its own, and every code is one a tooltip knows.
pub proof fn lemma_icon_codes_distinct(a: TooltipIcon, b: TooltipIcon)
    ensures
        icon_code(a) == icon_code(b) ==> a == b,
        icon_code(a) <= 6,
{
}

/// The handle of a control
impl<'a> From<&'a Tooltip> for ControlHandle {
    fn from(control: &'a Tooltip) -> (r: ControlHandle) {
        control.handle
    }
}

impl<'a> vstd::std_specs::convert::FromSpecImpl<&'a Tooltip> for ControlHandle {
    open spec fn obeys_from_spec() -> bool {
        true
    }

    open spec fn from_spec(control: &'a Tooltip) -> ControlHandle {
        control.handle
    }
}

} // verus!
