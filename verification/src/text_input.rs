//! Text input: a single line edit control, its style, its password character and
//! the layout that centers its line vertically.
use vstd::prelude::*;
use std::ops::Range;
use crate::control_handle::{ControlHandle, handle_eq, DestroyRequest, destroy_request_of};
use crate::control_base::{HwndBuilder, hwnd_params, require_parent, resolve_flags, opt_str_view};
use crate::error::NwgError;
use crate::label::{HTextAlign, Rect, LabelBackground, label_background, half_toward_zero, fits_i32, COLOR_WINDOW};
use crate::color::rgb_spec;
use crate::styles::{WS_VISIBLE, WS_DISABLED, WS_TABSTOP, WS_CHILD, WS_BORDER, ES_AUTOHSCROLL, ES_READONLY};

verus! {

pub const ES_LEFT: u32 = 0x0000;
pub const ES_CENTER: u32 = 0x0001;
pub const ES_RIGHT: u32 = 0x0002;
pub const ES_NUMBER: u32 = 0x2000;

/// The text input is immediatly visible after creation
pub const VISIBLE: u32 = WS_VISIBLE;
/// The text input cannot be interacted with by the user
pub const DISABLED: u32 = WS_DISABLED;
/// Only digits can be typed
pub const NUMBER: u32 = ES_NUMBER;
/// The text scrolls when it is longer than the control
pub const AUTO_SCROLL: u32 = ES_AUTOHSCROLL;
/// The control can be selected using tab navigation
pub const TAB_STOP: u32 = WS_TABSTOP;

/// The text input flags: a combination of the constants above.
pub type TextInputFlags = u32;

/// A value is a character: at most `0x10FFFF` and not a surrogate
pub open spec fn is_char_value(v: u32) -> bool {
    v <= 0xD7FF || (0xE000 <= v && v <= 0x10FFFF)
}

/// The character of a value, none when it is not one (`char::from_u32`)
#[verifier::external_body]
fn char_from_u32(v: u32) -> (r: Option<char>)
    ensures
        r is Some <==> is_char_value(v),
        r matches Some(c) ==> c as u32 == v,
{
    char::from_u32(v)
}

/// The style of a text input created with `flags` and the alignment `align`: the bits of
/// the alignment are added, and a right aligned text does not scroll.
pub open spec fn text_input_style(flags: u32, align: HTextAlign) -> u32 {
    match align {
        HTextAlign::Left => flags | ES_LEFT,
        HTextAlign::Center => flags | ES_CENTER,
        HTextAlign::Right => (flags | ES_RIGHT) & !ES_AUTOHSCROLL,
    }
}

/// The client area of a text input whose window is `window_height` high and whose line
/// of text is `client_height` high: the space left is taken out of both sides, four
/// pixels less each (rounded toward zero).
pub open spec fn text_input_nc_spec(rect: Rect, window_height: int, client_height: int) -> Rect {
    let center = half_toward_zero(window_height - client_height) - 4;
    Rect { top: (rect.top + center) as i32, bottom: (rect.bottom - center) as i32, ..rect }
}

/// The client area proposed for a text input's window, centered on its line of text
pub fn text_input_nc_rect(rect: Rect, window_height: i32, client_height: i32) -> (r: Rect)
    requires
        fits_i32(window_height - client_height),
        ({
            let center = half_toward_zero(window_height - client_height) - 4;
            fits_i32(rect.top + center) && fits_i32(rect.bottom - center)
        }),
    ensures
        r == text_input_nc_spec(rect, window_height as int, client_height as int),
{
    let diff = window_height - client_height;
    let center = (diff / 2) - 4;
    Rect { top: rect.top + center, bottom: rect.bottom - center, ..rect }
}

/// What building a text input sets up: the window to create, then its background brush,
/// its limit (when not 0), its password character, read only, focus, its font (the one
/// given, or the default font when `None`) and its placeholder text, each when given
#[derive(Debug)]
pub struct TextInputSetup {
    pub window: HwndBuilder,
    pub background: LabelBackground,
    pub limit: Option<usize>,
    pub password: Option<char>,
    pub readonly: bool,
    pub focus: bool,
    pub font: Option<usize>,
    pub placeholder_text: Option<String>,
    /// What to release of the control that `out` held before: building resets it to an
    /// empty control
    pub release: DestroyRequest,
}

/// A single line edit control
pub struct TextInput {
    pub handle: ControlHandle,
    pub background_brush: Option<usize>,
}

/// Builder of a `TextInput`
pub struct TextInputBuilder<'a> {
    pub text: &'a str,
    pub placeholder_text: Option<&'a str>,
    pub size: (i32, i32),
    pub position: (i32, i32),
    pub flags: Option<TextInputFlags>,
    pub ex_flags: u32,
    pub limit: usize,
    pub password: Option<char>,
    pub align: HTextAlign,
    pub readonly: bool,
    pub font: Option<usize>,
    pub parent: Option<ControlHandle>,
    pub background_color: Option<[u8; 3]>,
    pub focus: bool,
}

impl Default for TextInput {
    fn default() -> (r: TextInput)
        ensures
            r.handle == ControlHandle::NoHandle,
            r.background_brush is None,
    {
        TextInput { handle: ControlHandle::NoHandle, background_brush: None }
    }
}

impl PartialEq for TextInput {
    fn eq(&self, other: &Self) -> (r: bool) {
        self.handle == other.handle
    }
}

impl vstd::std_specs::cmp::PartialEqSpecImpl for TextInput {
    open spec fn obeys_eq_spec() -> bool {
        true
    }

    open spec fn eq_spec(&self, other: &TextInput) -> bool {
        handle_eq(self.handle, other.handle)
    }
}

impl TextInput {
    pub fn builder<'a>() -> (b: TextInputBuilder<'a>)
        ensures
            b.text@ == ""@,
            b.placeholder_text is None,
            b.size == (100i32, 25i32),
            b.position == (0i32, 0i32),
            b.flags is None,
            b.ex_flags == 0,
            b.limit == 0,
            b.password is None,
            b.align == HTextAlign::Left,
            !b.readonly,
            !b.focus,
            b.font is None,
            b.parent is None,
            b.background_color is None,
    {
        proof {
            reveal_strlit("");
        }
        TextInputBuilder {
            text: "",
            placeholder_text: None,
            size: (100, 25),
            position: (0, 0),
            flags: None,
            ex_flags: 0,
            limit: 0,
            password: None,
            align: HTextAlign::Left,
            readonly: false,
            focus: false,
            font: None,
            parent: None,
            background_color: None,
        }
    }

    /// The password character, from the value the control reports: none for 0 or for a
    /// value that is no character
    pub fn password_char(&self, raw: u32) -> (r: Option<char>)
        ensures
            r is Some <==> (raw != 0 && is_char_value(raw)),
            r matches Some(c) ==> c as u32 == raw,
    {
        if raw == 0 {
            None
        } else {
            char_from_u32(raw)
        }
    }

    /// The value sent to set the password character: 0 for none
    pub fn set_password_char(&self, c: Option<char>) -> (r: usize)
        ensures
            r == (match c { Some(c) => c as usize, None => 0usize }),
    {
        match c {
            Some(c) => c as usize,
            None => 0,
        }
    }

    /// The limit of the text, from the answer of the control
    pub fn limit(&self, answer: isize) -> (r: u32)
        ensures
            r == answer as u32,
    {
        answer as u32
    }

    /// Whether the text was modified, from the answer of the control
    pub fn modified(&self, answer: isize) -> (r: bool)
        ensures
            r == (answer != 0),
    {
        answer != 0
    }

    /// The value sent to mark the text as modified (1) or not (0)
    pub fn set_modified(&self, e: bool) -> (r: usize)
        ensures
            r == if e { 1usize } else { 0usize },
    {
        if e { 1 } else { 0 }
    }

    /// The selection, from the start and the end the control filled
    pub fn selection(&self, start: u32, end: u32) -> (r: Range<u32>)
        ensures
            r.start == start,
            r.end == end,
    {
        start..end
    }

    /// The (start, end) pair sent to set the selection
    pub fn set_selection(&self, r: Range<u32>) -> (s: (usize, isize))
        ensures
            s == (r.start as usize, r.end as isize),
    {
        (r.start as usize, r.end as isize)
    }

    /// The length of the text, from the answer of the control
    pub fn len(&self, answer: isize) -> (r: u32)
        ensures
            r == answer as u32,
    {
        answer as u32
    }

    /// Whether the text is read only, from the style of the window
    pub fn readonly(&self, style: u32) -> (r: bool)
        ensures
            r == (style & ES_READONLY == ES_READONLY),
    {
        style & ES_READONLY == ES_READONLY
    }

    /// The value sent to make the text read only (1) or not (0)
    pub fn set_readonly(&self, r: bool) -> (v: usize)
        ensures
            v == if r { 1usize } else { 0usize },
    {
        if r { 1 } else { 0 }
    }

    /// The placeholder text sent: empty when none is given
    pub fn set_placeholder_text(&self, v: Option<&str>) -> (r: String)
        ensures
            r@ == (match v { Some(t) => t@, None => Seq::<char>::empty() }),
    {
        match v {
            Some(t) => t.to_owned(),
            None => String::new(),
        }
    }

    /// The brush that paints the strips around the line of text: a solid brush of the
    /// background color, or the window color
    pub fn non_client_background(&self, bg: Option<[u8; 3]>) -> (r: LabelBackground)
        ensures
            r == (match bg {
                Some(c) => LabelBackground::Solid(rgb_spec(c[0], c[1], c[2])),
                None => LabelBackground::System(COLOR_WINDOW),
            }),
    {
        label_background(bg)
    }

    /// Winapi class name used during control creation
    pub fn class_name(&self) -> (r: &'static str)
        ensures
            r@ == "EDIT"@,
    {
        "EDIT"
    }

    /// Winapi base flags used during window creation
    pub fn flags(&self) -> (r: u32)
        ensures
            r == WS_VISIBLE,
    {
        WS_VISIBLE
    }

    /// Winapi flags required by the control
    pub fn forced_flags(&self) -> (r: u32)
        ensures
            r == WS_BORDER | WS_TABSTOP | ES_AUTOHSCROLL | WS_CHILD,
    {
        WS_BORDER | WS_TABSTOP | ES_AUTOHSCROLL | WS_CHILD
    }
}

impl<'a> TextInputBuilder<'a> {
    pub fn flags(self, flags: TextInputFlags) -> (b: TextInputBuilder<'a>)
        ensures
            b == (TextInputBuilder { flags: Some(flags), ..self }),
    {
        TextInputBuilder { flags: Some(flags), ..self }
    }

    pub fn ex_flags(self, flags: u32) -> (b: TextInputBuilder<'a>)
        ensures
            b == (TextInputBuilder { ex_flags: flags, ..self }),
    {
        TextInputBuilder { ex_flags: flags, ..self }
    }

    pub fn text(self, text: &'a str) -> (b: TextInputBuilder<'a>)
        ensures
            b == (TextInputBuilder { text: text, ..self }),
    {
        TextInputBuilder { text: text, ..self }
    }

    pub fn placeholder_text(self, placeholder_text: Option<&'a str>) -> (b: TextInputBuilder<'a>)
        ensures
            b == (TextInputBuilder { placeholder_text: placeholder_text, ..self }),
    {
        TextInputBuilder { placeholder_text: placeholder_text, ..self }
    }

    pub fn size(self, size: (i32, i32)) -> (b: TextInputBuilder<'a>)
        ensures
            b == (TextInputBuilder { size: size, ..self }),
    {
        TextInputBuilder { size: size, ..self }
    }

    pub fn position(self, pos: (i32, i32)) -> (b: TextInputBuilder<'a>)
        ensures
            b == (TextInputBuilder { position: pos, ..self }),
    {
        TextInputBuilder { position: pos, ..self }
    }

    pub fn limit(self, limit: usize) -> (b: TextInputBuilder<'a>)
        ensures
            b == (TextInputBuilder { limit: limit, ..self }),
    {
        TextInputBuilder { limit: limit, ..self }
    }

    pub fn password(self, psw: Option<char>) -> (b: TextInputBuilder<'a>)
        ensures
            b == (TextInputBuilder { password: psw, ..self }),
    {
        TextInputBuilder { password: psw, ..self }
    }

    pub fn align(self, align: HTextAlign) -> (b: TextInputBuilder<'a>)
        ensures
            b == (TextInputBuilder { align: align, ..self }),
    {
        TextInputBuilder { align: align, ..self }
    }

    pub fn readonly(self, read: bool) -> (b: TextInputBuilder<'a>)
        ensures
            b == (TextInputBuilder { readonly: read, ..self }),
    {
        TextInputBuilder { readonly: read, ..self }
    }

    pub fn font(self, font: Option<usize>) -> (b: TextInputBuilder<'a>)
        ensures
            b == (TextInputBuilder { font: font, ..self }),
    {
        TextInputBuilder { font: font, ..self }
    }

    pub fn background_color(self, color: Option<[u8; 3]>) -> (b: TextInputBuilder<'a>)
        ensures
            b == (TextInputBuilder { background_color: color, ..self }),
    {
        TextInputBuilder { background_color: color, ..self }
    }

    pub fn focus(self, focus: bool) -> (b: TextInputBuilder<'a>)
        ensures
            b == (TextInputBuilder { focus: focus, ..self }),
    {
        TextInputBuilder { focus: focus, ..self }
    }

    pub fn parent(self, p: ControlHandle) -> (b: TextInputBuilder<'a>)
        ensures
            b == (TextInputBuilder { parent: Some(p), ..self }),
    {
        TextInputBuilder { parent: Some(p), ..self }
    }

    /// What building the text input sets up: the window with the chosen flags (or the
    /// default ones) aligned as asked (see `text_input_style`); fails without a parent.
    pub fn build(&self, out: &mut TextInput) -> (r: Result<TextInputSetup, NwgError>)
        ensures
            r is Ok ==> final(out).handle == ControlHandle::NoHandle
                && r->Ok_0.release == destroy_request_of(old(out).handle)
                && final(out).background_brush is None,
            r is Err ==> *final(out) == *old(out),
            self.parent is None <==> r is Err,
            self.parent is None ==> (r matches Err(NwgError::NoParent(s)) && s@ == "TextInput"@),
            r matches Ok(s) ==> {
                &&& opt_str_view(s.window.class_name) == Some("EDIT"@)
                &&& s.window.forced_flags == WS_BORDER | WS_TABSTOP | ES_AUTOHSCROLL | WS_CHILD
                &&& s.window.flags == Some(text_input_style(match self.flags { Some(f) => f, None => WS_VISIBLE }, self.align))
                &&& s.window.ex_flags == Some(self.ex_flags)
                &&& s.window.size == Some(self.size)
                &&& s.window.pos == Some(self.position)
                &&& opt_str_view(s.window.text) == Some(self.text@)
                &&& s.window.parent == (match self.parent.unwrap() { ControlHandle::Hwnd(h) => Some(h), _ => None::<usize> })
                &&& s.background == (match self.background_color {
                    Some(c) => LabelBackground::Solid(rgb_spec(c[0], c[1], c[2])),
                    None => LabelBackground::System(COLOR_WINDOW),
                })
                &&& s.limit == if self.limit > 0 { Some(self.limit) } else { None::<usize> }
                &&& s.password == self.password
                &&& s.readonly == self.readonly
                &&& s.focus == self.focus
                &&& s.font == self.font
                &&& opt_str_view(s.placeholder_text) == (match self.placeholder_text { Some(t) => Some(t@), None => None::<Seq<char>> })
            },
    {
        let mut flags = resolve_flags(self.flags, out.flags());
        match self.align {
            HTextAlign::Left => { flags = flags | ES_LEFT; },
            HTextAlign::Center => { flags = flags | ES_CENTER; },
            HTextAlign::Right => {
                flags = flags | ES_RIGHT;
                flags = flags & !ES_AUTOHSCROLL;
            },
        }
        let parent = match require_parent(self.parent, "TextInput") {
            Ok(p) => p,
            Err(e) => { return Err(e); },
        };
        let window = hwnd_params(out.class_name(), out.forced_flags(), flags, self.ex_flags, self.size, self.position, Some(self.text), parent);
        let placeholder_text = match self.placeholder_text {
            Some(t) => Some(t.to_owned()),
            None => None,
        };
        let release = out.handle.destroy();
        out.background_brush = None;
        Ok(TextInputSetup {
            release,
            window,
            background: out.non_client_background(self.background_color),
            limit: if self.limit > 0 { Some(self.limit) } else { None },
            password: self.password,
            readonly: self.readonly,
            focus: self.focus,
            font: self.font,
            placeholder_text,
        })
    }
}

/// The line of a text input is centered in its window: the proposed client area loses as
/// much at the top as at the bottom, that amount is half the height the window has beyond
/// the text (rounded toward zero) less 4, and the sides stay as proposed.
pub proof fn lemma_text_input_centered(rect: Rect, window_height: i32, client_height: i32)
    requires
        fits_i32(window_height - client_height),
        fits_i32(rect.top + half_toward_zero(window_height - client_height) - 4),
        fits_i32(rect.bottom - (half_toward_zero(window_height - client_height) - 4)),
    ensures
        ({
            let r = text_input_nc_spec(rect, window_height as int, client_height as int);
            let cut = r.top - rect.top;
            let spare = window_height - client_height;
            &&& rect.bottom - r.bottom == cut
            &&& r.left == rect.left
            &&& r.right == rect.right
            &&& spare >= 0 ==> 2 * (cut + 4) <= spare < 2 * (cut + 4) + 2
            &&& spare < 0 ==> 2 * (cut + 4) - 2 < spare <= 2 * (cut + 4)
            &&& (r.bottom - r.top) == (rect.bottom - rect.top) - 2 * cut
        }),
{
}

/// A right aligned text input never scrolls its text; the other alignments keep every
/// bit of the flags.
pub proof fn lemma_right_align_no_scroll(flags: u32)
    ensures
        text_input_style(flags, HTextAlign::Right) & ES_AUTOHSCROLL == 0,
        text_input_style(flags, HTextAlign::Right) & ES_RIGHT == ES_RIGHT,
        text_input_style(flags, HTextAlign::Left) == flags,
        text_input_style(flags, HTextAlign::Center) & flags == flags,
{
    assert(((flags | 2u32) & !0x80u32) & 0x80u32 == 0) by (bit_vector);
    assert(((flags | 2u32) & !0x80u32) & 2u32 == 2u32) by (bit_vector);
    assert(flags | 0u32 == flags) by (bit_vector);
    assert((flags | 1u32) & flags == flags) by (bit_vector);
}

/// The handle of a control
impl<'a> From<&'a TextInput> for ControlHandle {
    fn from(control: &'a TextInput) -> (r: ControlHandle) {
        control.handle
    }
}

impl<'a> vstd::std_specs::convert::FromSpecImpl<&'a TextInput> for ControlHandle {
    open spec fn obeys_from_spec() -> bool {
        true
    }

    open spec fn from_spec(control: &'a TextInput) -> ControlHandle {
        control.handle
    }
}

} // verus!
