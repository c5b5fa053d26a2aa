//! Tray notification: the icon of an application in the system tray, and the data it
//! sends to add, change and show it.
use vstd::prelude::*;
use crate::control_handle::{ControlHandle, handle_eq};
use crate::error::NwgError;

verus! {

pub const NIF_MESSAGE: u32 = 0x00000001;
pub const NIF_ICON: u32 = 0x00000002;
pub const NIF_TIP: u32 = 0x00000004;
pub const NIF_STATE: u32 = 0x00000008;
pub const NIF_INFO: u32 = 0x00000010;
pub const NIF_REALTIME: u32 = 0x00000040;
pub const NIF_SHOWTIP: u32 = 0x00000080;
pub const NIS_HIDDEN: u32 = 0x00000001;

/// No icon in the balloon
pub const NO_ICON: u32 = 0x00000000;
/// An information icon
pub const INFO_ICON: u32 = 0x00000001;
/// A warning icon
pub const WARNING_ICON: u32 = 0x00000002;
/// An error icon
pub const ERROR_ICON: u32 = 0x00000003;
/// The icon of the application
pub const USER_ICON: u32 = 0x00000004;
/// The balloon makes no sound
pub const SILENT: u32 = 0x00000010;
/// A large icon
pub const LARGE_ICON: u32 = 0x00000020;
/// The balloon is not shown during quiet time
pub const QUIET: u32 = 0x00000080;

/// The tray notification flags: a combination of the constants above.
pub type TrayNotificationFlags = u32;

/// The length of the tip buffer, of the info buffer and of the info title buffer
pub const TIP_LEN: usize = 128;
pub const INFO_LEN: usize = 256;
pub const TITLE_LEN: usize = 64;

/// The smaller of two numbers
pub open spec fn min_nat(a: nat, b: nat) -> nat {
    if a <= b { a } else { b }
}

/// A fixed text buffer of `size` units holding the first `keep` units of `text` (or all
/// of it when shorter), then zeros
pub open spec fn fixed_text_spec(text: Seq<u16>, size: nat, keep: nat) -> Seq<u16> {
    Seq::new(size, |i: int| if i < min_nat(text.len(), keep) { text[i] } else { 0u16 })
}

/// A fixed text buffer of `size` units holding the first `keep` units of `text`, then
/// zeros; the units kept must fit in the buffer
pub fn fixed_text(text: &[u16], size: usize, keep: usize) -> (r: Vec<u16>)
    requires
        min_nat(text@.len(), keep as nat) <= size,
    ensures
        r@ == fixed_text_spec(text@, size as nat, keep as nat),
{
    let length = if text.len() >= keep { keep } else { text.len() };
    let mut out: Vec<u16> = Vec::new();
    let mut i: usize = 0;
    while i < size
        invariant
            i <= size,
            length == min_nat(text@.len(), keep as nat),
            length <= size,
            length <= text@.len(),
            out@.len() == i,
            forall|k: int| 0 <= k < i ==> #[trigger] out@[k] == (if k < length { text@[k] } else { 0u16 }),
        decreases size - i,
    {
        if i < length {
            out.push(text[i]);
        } else {
            out.push(0);
        }
        i = i + 1;
    }
    assert(out@ =~= fixed_text_spec(text@, size as nat, keep as nat));
    out
}

/// The data sent to the system tray about an icon of the window `hwnd`
#[derive(Debug)]
pub struct NotifyData {
    pub hwnd: usize,
    pub flags: u32,
    pub state: u32,
    pub state_mask: u32,
    pub icon: usize,
    pub tip: Vec<u16>,
    pub info: Vec<u16>,
    pub info_title: Vec<u16>,
    pub info_flags: u32,
    pub balloon_icon: usize,
}

/// The data that names the icon of the window `hwnd` and changes nothing: every buffer
/// empty
pub open spec fn is_default_data(d: NotifyData, hwnd: usize) -> bool {
    &&& d.hwnd == hwnd
    &&& d.flags == 0
    &&& d.state == 0
    &&& d.state_mask == 0
    &&& d.icon == 0
    &&& d.tip@ == Seq::new(TIP_LEN as nat, |i: int| 0u16)
    &&& d.info@ == Seq::new(INFO_LEN as nat, |i: int| 0u16)
    &&& d.info_title@ == Seq::new(TITLE_LEN as nat, |i: int| 0u16)
    &&& d.info_flags == 0
    &&& d.balloon_icon == 0
}

/// The icon of an application in the system tray, named by its window
pub struct TrayNotification {
    pub handle: ControlHandle,
}

/// Builder of a `TrayNotification`. The texts are given as UTF-16.
pub struct TrayNotificationBuilder<'a> {
    pub parent: Option<ControlHandle>,
    pub icon: Option<usize>,
    pub tip: Option<&'a [u16]>,
    pub info: Option<&'a [u16]>,
    pub info_title: Option<&'a [u16]>,
    pub flags: TrayNotificationFlags,
    pub balloon_icon: Option<usize>,
    pub realtime: bool,
    pub callback: bool,
    pub visible: bool,
}

impl Default for TrayNotification {
    fn default() -> (r: TrayNotification)
        ensures
            r.handle == ControlHandle::NoHandle,
    {
        TrayNotification { handle: ControlHandle::NoHandle }
    }
}

impl PartialEq for TrayNotification {
    fn eq(&self, other: &Self) -> (r: bool) {
        self.handle == other.handle
    }
}

impl vstd::std_specs::cmp::PartialEqSpecImpl for TrayNotification {
    open spec fn obeys_eq_spec() -> bool {
        true
    }

    open spec fn eq_spec(&self, other: &TrayNotification) -> bool {
        handle_eq(self.handle, other.handle)
    }
}

/// A buffer of `n` zeros
fn zeros(n: usize) -> (r: Vec<u16>)
    ensures
        r@ == Seq::new(n as nat, |i: int| 0u16),
{
    let mut out: Vec<u16> = Vec::new();
    let mut i: usize = 0;
    while i < n
        invariant
            i <= n,
            out@.len() == i,
            forall|k: int| 0 <= k < i ==> #[trigger] out@[k] == 0u16,
        decreases n - i,
    {
        out.push(0);
        i = i + 1;
    }
    assert(out@ =~= Seq::new(n as nat, |i: int| 0u16));
    out
}

impl TrayNotification {
    pub fn builder<'a>() -> (b: TrayNotificationBuilder<'a>)
        ensures
            b.parent is None,
            b.icon is None,
            b.balloon_icon is None,
            b.tip is None,
            b.info is None,
            b.info_title is None,
            b.flags == NO_ICON,
            !b.realtime,
            b.callback,
            b.visible,
    {
        TrayNotificationBuilder {
            parent: None,
            icon: None,
            balloon_icon: None,
            tip: None,
            info: None,
            info_title: None,
            flags: NO_ICON,
            realtime: false,
            callback: true,
            visible: true,
        }
    }

    /// The data that names the icon and changes nothing
    pub fn notify_default(&self) -> (r: NotifyData)
        requires
            self.handle is SystemTray,
        ensures
            is_default_data(r, self.handle->SystemTray_0),
    {
        let hwnd = match self.handle {
            ControlHandle::SystemTray(h) => h,
            _ => 0,
        };
        NotifyData {
            hwnd,
            flags: 0,
            state: 0,
            state_mask: 0,
            icon: 0,
            tip: zeros(TIP_LEN),
            info: zeros(INFO_LEN),
            info_title: zeros(TITLE_LEN),
            info_flags: 0,
            balloon_icon: 0,
        }
    }

    /// The data sent to show or hide the icon
    pub fn set_visibility(&self, v: bool) -> (r: NotifyData)
        requires
            self.handle is SystemTray,
        ensures
            r.hwnd == self.handle->SystemTray_0,
            r.flags == NIF_STATE,
            r.icon == 0,
            r.tip@ == Seq::new(TIP_LEN as nat, |i: int| 0u16),
            r.info@ == Seq::new(INFO_LEN as nat, |i: int| 0u16),
            r.info_title@ == Seq::new(TITLE_LEN as nat, |i: int| 0u16),
            r.info_flags == 0,
            r.balloon_icon == 0,
            r.state == if v { 0u32 } else { NIS_HIDDEN },
            r.state_mask == NIS_HIDDEN,
    {
        let mut data = self.notify_default();
        data.flags = data.flags | NIF_STATE;
        assert(0u32 | 8u32 == 8u32) by (bit_vector);
        data.state = if v { 0 } else { NIS_HIDDEN };
        data.state_mask = NIS_HIDDEN;
        data
    }

    /// The data sent to change the tip of the icon: the tip, cut to 127 units
    pub fn set_tip(&self, tip: &[u16]) -> (r: NotifyData)
        requires
            self.handle is SystemTray,
        ensures
            r.hwnd == self.handle->SystemTray_0,
            r.flags == NIF_TIP | NIF_SHOWTIP,
            r.tip@ == fixed_text_spec(tip@, TIP_LEN as nat, 127),
            r.info@ == Seq::new(INFO_LEN as nat, |i: int| 0u16),
            r.info_title@ == Seq::new(TITLE_LEN as nat, |i: int| 0u16),
            r.icon == 0,
            r.state == 0,
            r.state_mask == 0,
            r.info_flags == 0,
            r.balloon_icon == 0,
    {
        let mut data = self.notify_default();
        data.flags = NIF_TIP | NIF_SHOWTIP;
        data.tip = fixed_text(tip, TIP_LEN, 127);
        data
    }

    /// The data sent to give the focus back to the tray
    pub fn set_focus(&self) -> (r: NotifyData)
        requires
            self.handle is SystemTray,
        ensures
            is_default_data(r, self.handle->SystemTray_0),
    {
        self.notify_default()
    }

    /// The data sent to change the icon
    pub fn set_icon(&self, icon: usize) -> (r: NotifyData)
        requires
            self.handle is SystemTray,
        ensures
            r.hwnd == self.handle->SystemTray_0,
            r.flags == NIF_ICON,
            r.icon == icon,
            r.tip@ == Seq::new(TIP_LEN as nat, |i: int| 0u16),
            r.info@ == Seq::new(INFO_LEN as nat, |i: int| 0u16),
            r.info_title@ == Seq::new(TITLE_LEN as nat, |i: int| 0u16),
            r.state == 0,
            r.state_mask == 0,
            r.info_flags == 0,
            r.balloon_icon == 0,
    {
        let mut data = self.notify_default();
        data.flags = NIF_ICON;
        data.icon = icon;
        data
    }

    /// The data sent to show a balloon: its text cut to 255 units, its title cut to 63
    /// units, its flags (no icon and silent by default) and its icon
    pub fn show(&self, text: &[u16], title: Option<&[u16]>, flags: Option<TrayNotificationFlags>, icon: Option<usize>) -> (r: NotifyData)
        requires
            self.handle is SystemTray,
        ensures
            r.hwnd == self.handle->SystemTray_0,
            r.flags == NIF_INFO,
            r.info_flags == (match flags { Some(f) => f, None => NO_ICON | SILENT }),
            r.balloon_icon == (match icon { Some(i) => i, None => 0usize }),
            r.info@ == fixed_text_spec(text@, INFO_LEN as nat, 255),
            r.info_title@ == (match title {
                Some(t) => fixed_text_spec(t@, TITLE_LEN as nat, 63),
                None => Seq::new(TITLE_LEN as nat, |i: int| 0u16),
            }),
            r.tip@ == Seq::new(TIP_LEN as nat, |i: int| 0u16),
            r.icon == 0,
            r.state == 0,
            r.state_mask == 0,
    {
        let mut data = self.notify_default();
        data.flags = NIF_INFO;
        data.info_flags = match flags {
            Some(f) => f,
            None => NO_ICON | SILENT,
        };
        data.balloon_icon = match icon {
            Some(i) => i,
            None => 0,
        };
        data.info = fixed_text(text, INFO_LEN, 255);
        match title {
            Some(t) => { data.info_title = fixed_text(t, TITLE_LEN, 63); },
            None => {},
        }
        data
    }
}

/// The (flags, info flags, state) of a new tray icon: its icon always; its balloon with
/// its flags when it has an info text; its tip when it has one; realtime, a callback
/// message and a hidden state when asked
pub open spec fn add_flags_spec(info: bool, tip: bool, info_bits: u32, realtime: bool, callback: bool, visible: bool) -> (u32, u32, u32) {
    let f1 = NIF_ICON | (if info { NIF_INFO } else { 0 });
    let f2 = f1 | (if tip { NIF_TIP | NIF_SHOWTIP } else { 0 });
    let f3 = f2 | (if realtime { NIF_REALTIME } else { 0 });
    let f4 = f3 | (if callback { NIF_MESSAGE } else { 0 });
    let f5 = f4 | (if !visible { NIF_STATE } else { 0 });
    (f5, if info { info_bits } else { 0 }, if !visible { NIS_HIDDEN } else { 0 })
}

impl<'a> TrayNotificationBuilder<'a> {
    pub fn parent(self, p: ControlHandle) -> (b: TrayNotificationBuilder<'a>)
        ensures
            b == (TrayNotificationBuilder { parent: Some(p), ..self }),
    {
        TrayNotificationBuilder { parent: Some(p), ..self }
    }

    pub fn icon(self, ico: Option<usize>) -> (b: TrayNotificationBuilder<'a>)
        ensures
            b == (TrayNotificationBuilder { icon: ico, ..self }),
    {
        TrayNotificationBuilder { icon: ico, ..self }
    }

    pub fn realtime(self, r: bool) -> (b: TrayNotificationBuilder<'a>)
        ensures
            b == (TrayNotificationBuilder { realtime: r, ..self }),
    {
        TrayNotificationBuilder { realtime: r, ..self }
    }

    pub fn callback(self, cb: bool) -> (b: TrayNotificationBuilder<'a>)
        ensures
            b == (TrayNotificationBuilder { callback: cb, ..self }),
    {
        TrayNotificationBuilder { callback: cb, ..self }
    }

    pub fn visible(self, v: bool) -> (b: TrayNotificationBuilder<'a>)
        ensures
            b == (TrayNotificationBuilder { visible: v, ..self }),
    {
        TrayNotificationBuilder { visible: v, ..self }
    }

    pub fn balloon_icon(self, ico: Option<usize>) -> (b: TrayNotificationBuilder<'a>)
        ensures
            b == (TrayNotificationBuilder { balloon_icon: ico, ..self }),
    {
        TrayNotificationBuilder { balloon_icon: ico, ..self }
    }

    pub fn flags(self, flags: TrayNotificationFlags) -> (b: TrayNotificationBuilder<'a>)
        ensures
            b == (TrayNotificationBuilder { flags: flags, ..self }),
    {
        TrayNotificationBuilder { flags, ..self }
    }

    pub fn tip(self, tip: Option<&'a [u16]>) -> (b: TrayNotificationBuilder<'a>)
        ensures
            b == (TrayNotificationBuilder { tip: tip, ..self }),
    {
        TrayNotificationBuilder { tip, ..self }
    }

    pub fn info(self, info: Option<&'a [u16]>) -> (b: TrayNotificationBuilder<'a>)
        ensures
            b == (TrayNotificationBuilder { info: info, ..self }),
    {
        TrayNotificationBuilder { info, ..self }
    }

    pub fn info_title(self, title: Option<&'a [u16]>) -> (b: TrayNotificationBuilder<'a>)
        ensures
            b == (TrayNotificationBuilder { info_title: title, ..self }),
    {
        TrayNotificationBuilder { info_title: title, ..self }
    }

    /// The data sent to add the icon to the tray, which `out` is then bound to. The parent
    /// must be a window; a tray icon is created with an icon (required). The tip is cut to
    /// 127 units, the info text to 255 and the info title to 63. On an error `out` is left
    /// as it was.
    pub fn build(&self, out: &mut TrayNotification) -> (r: Result<NotifyData, NwgError>)
        requires
            self.parent matches Some(ControlHandle::Hwnd(_)) ==> self.icon is Some,
        ensures
            r is Ok ==> final(out).handle == ControlHandle::SystemTray(r->Ok_0.hwnd),
            r is Err ==> *final(out) == *old(out),
            match self.parent {
                Some(ControlHandle::Hwnd(h)) => r matches Ok(d) && {
                    let (flags, info_flags, state) = add_flags_spec(self.info is Some, self.tip is Some,
                        self.flags, self.realtime, self.callback, self.visible);
                    &&& d.hwnd == h
                    &&& d.flags == flags
                    &&& d.info_flags == info_flags
                    &&& d.state == state
                    &&& d.state_mask == state
                    &&& d.icon == self.icon.unwrap()
                    &&& d.balloon_icon == (match (self.info, self.balloon_icon) {
                        (Some(_), Some(i)) => i,
                        _ => 0usize,
                    })
                    &&& d.tip@ == (match self.tip {
                        Some(t) => fixed_text_spec(t@, TIP_LEN as nat, 127),
                        None => Seq::new(TIP_LEN as nat, |i: int| 0u16),
                    })
                    &&& d.info@ == (match self.info {
                        Some(t) => fixed_text_spec(t@, INFO_LEN as nat, 255),
                        None => Seq::new(INFO_LEN as nat, |i: int| 0u16),
                    })
                    &&& d.info_title@ == (match (self.info, self.info_title) {
                        (Some(_), Some(t)) => fixed_text_spec(t@, TITLE_LEN as nat, 63),
                        _ => Seq::new(TITLE_LEN as nat, |i: int| 0u16),
                    })
                },
                Some(_) => r matches Err(NwgError::ControlCreationError(s))
                    && s@ == "TrayNotification must be window-like control."@,
                None => r matches Err(NwgError::NoParent(s)) && s@ == "Button"@,
            },
    {
        let mut flags: u32 = NIF_ICON;
        let mut info_flags: u32 = 0;
        let mut state: u32 = 0;
        if self.info.is_some() {
            flags = flags | NIF_INFO;
            info_flags = info_flags | self.flags;
        }
        if self.tip.is_some() {
            flags = flags | (NIF_TIP | NIF_SHOWTIP);
        }
        if self.realtime {
            flags = flags | NIF_REALTIME;
        }
        if self.callback {
            flags = flags | NIF_MESSAGE;
        }
        if !self.visible {
            state = state | NIS_HIDDEN;
            flags = flags | NIF_STATE;
        }
        proof {
            assert(forall|a: u32| #![auto] a | 0u32 == a) by (bit_vector);
            assert(forall|a: u32| #![auto] 0u32 | a == a) by (bit_vector);
        }
        let parent = match self.parent {
            Some(p) => match p.hwnd() {
                Some(handle) => handle,
                None => { return Err(NwgError::control_create("TrayNotification must be window-like control.")); },
            },
            None => { return Err(NwgError::no_parent("Button")); },
        };
        let icon = match self.icon {
            Some(i) => i,
            None => 0,
        };
        let balloon_icon = match (self.info, self.balloon_icon) {
            (Some(_), Some(i)) => i,
            _ => 0,
        };
        let tip = match self.tip {
            Some(t) => fixed_text(t, TIP_LEN, 127),
            None => zeros(TIP_LEN),
        };
        let info = match self.info {
            Some(t) => fixed_text(t, INFO_LEN, 255),
            None => zeros(INFO_LEN),
        };
        let info_title = match (self.info, self.info_title) {
            (Some(_), Some(t)) => fixed_text(t, TITLE_LEN, 63),
            _ => zeros(TITLE_LEN),
        };
        *out = TrayNotification { handle: ControlHandle::SystemTray(parent) };
        Ok(NotifyData { hwnd: parent, flags, state, state_mask: state, icon, tip, info, info_title, info_flags, balloon_icon })
    }
}

/// A text that fits its buffer is kept whole, followed by zeros; a longer one keeps only
/// its beginning, as much as the buffer can hold, and still ends with a zero. The buffer
/// always starts with the text: each unit kept is the unit of the text at the same place.
pub proof fn lemma_fixed_text_truncates(text: Seq<u16>, size: nat, keep: nat)
    requires
        keep < size,
    ensures
        fixed_text_spec(text, size, keep).len() == size,
        text.len() <= keep ==> fixed_text_spec(text, size, keep).subrange(0, text.len() as int) =~= text,
        fixed_text_spec(text, size, keep)[size - 1] == 0u16,
        forall|i: int| 0 <= i < text.len() && i < keep ==> #[trigger] fixed_text_spec(text, size, keep)[i] == text[i],
        forall|i: int| (i >= text.len() || i >= keep) && 0 <= i < size ==> #[trigger] fixed_text_spec(text, size, keep)[i] == 0u16,
        text.len() > keep ==> fixed_text_spec(text, size, keep).subrange(0, keep as int) =~= text.subrange(0, keep as int),
{
}

/// The handle of a control
impl<'a> From<&'a TrayNotification> for ControlHandle {
    fn from(control: &'a TrayNotification) -> (r: ControlHandle) {
        control.handle
    }
}

impl<'a> vstd::std_specs::convert::FromSpecImpl<&'a TrayNotification> for ControlHandle {
    open spec fn obeys_from_spec() -> bool {
        true
    }

    open spec fn from_spec(control: &'a TrayNotification) -> ControlHandle {
        control.handle
    }
}

} // verus!
