//! Multi-line edit controls: the newline conversions they apply to their text
//! and the arithmetic of their scrolling.
//!
//! Windows edit controls separate lines with "\r\n". The controls convert
//! unix-style newlines with the `newline_converter` crate before setting text,
//! and count characters on the unix-style text.
use vstd::prelude::*;
use std::ops::Range;
use crate::control_handle::{ControlHandle, handle_eq, DestroyRequest, destroy_request_of};
use crate::control_base::{HwndBuilder, hwnd_params, require_parent, resolve_flags, opt_str_view};
use crate::error::NwgError;
use crate::styles::{WS_VISIBLE, WS_DISABLED, WS_TABSTOP, WS_CHILD, WS_BORDER, WS_VSCROLL, WS_HSCROLL,
    ES_AUTOVSCROLL, ES_AUTOHSCROLL, ES_MULTILINE, ES_WANTRETURN, ES_READONLY};

verus! {

/// The text box has a vertical scrollbar
pub const VSCROLL: u32 = WS_VSCROLL;
/// The text box has a horizontal scrollbar
pub const HSCROLL: u32 = WS_HSCROLL;
/// The text box automatically scrolls vertically when the caret is near the borders
pub const AUTOVSCROLL: u32 = ES_AUTOVSCROLL;
/// The text box automatically scrolls horizontally when the caret is near the borders
pub const AUTOHSCROLL: u32 = ES_AUTOHSCROLL;
/// The text box is immediatly visible after creation
pub const VISIBLE: u32 = WS_VISIBLE;
/// The text box cannot be interacted with by the user. It also has a grayed out look.
pub const DISABLED: u32 = WS_DISABLED;
/// The text box can be selected using tab navigation
pub const TAB_STOP: u32 = WS_TABSTOP;

/// The text box flags: a combination of the constants of this module.
pub type TextBoxFlags = u32;

/// The text with every "\r\n" turned into "\n"; a lone '\r' stays.
pub open spec fn dos2unix_spec(s: Seq<char>) -> Seq<char>
    decreases s.len(),
{
    if s.len() == 0 {
        s
    } else if s.len() >= 2 && s[0] == '\r' && s[1] == '\n' {
        dos2unix_spec(s.drop_first())
    } else {
        seq![s[0]] + dos2unix_spec(s.drop_first())
    }
}

/// The text with a '\r' inserted before every '\n' that does not follow a '\r';
/// `after_cr` tells whether the text follows a '\r'.
pub open spec fn unix2dos_after(s: Seq<char>, after_cr: bool) -> Seq<char>
    decreases s.len(),
{
    if s.len() == 0 {
        s
    } else {
        (if s[0] == '\n' && !after_cr { seq!['\r', '\n'] } else { seq![s[0]] }) + unix2dos_after(s.drop_first(), s[0] == '\r')
    }
}

/// The text with every unix newline ("\n" not preceded by '\r') turned into "\r\n".
pub open spec fn unix2dos_spec(s: Seq<char>) -> Seq<char> {
    unix2dos_after(s, false)
}

/// The number of characters of a text once its "\r\n" are counted as one: that
/// number, or 0 when it does not fit in a `u32`.
pub open spec fn text_len_spec(s: Seq<char>) -> u32 {
    let n = dos2unix_spec(s).len();
    if n <= u32::MAX { n as u32 } else { 0 }
}

/// `newline_converter::dos2unix`: removes the '\r' of every "\r\n" pair and keeps
/// every other character, in order.
#[verifier::external_body]
fn dos2unix(s: &str) -> (r: String)
    ensures
        r@ == dos2unix_spec(s@),
{
    newline_converter::dos2unix(s).into_owned()
}

/// `newline_converter::unix2dos`: inserts a '\r' before every '\n' that is not
/// already preceded by '\r' and keeps every other character, in order.
#[verifier::external_body]
pub(crate) fn unix2dos(s: &str) -> (r: String)
    ensures
        r@ == unix2dos_spec(s@),
{
    newline_converter::unix2dos(s).into_owned()
}

/// The length of the text of an edit control, counting "\r\n" as one character;
/// 0 when the count does not fit in a `u32`.
pub fn text_len(text: &str) -> (r: u32)
    ensures
        r == text_len_spec(text@),
{
    let unix = dos2unix(text);
    let n = unix.as_str().unicode_len();
    if n <= u32::MAX as usize { n as u32 } else { 0 }
}

/// The text of an edit control after `v` is appended to its text `text`, unix newlines
/// of `v` converted.
pub fn append_text(text: &str, v: &str) -> (r: String)
    ensures
        r@ == text@ + unix2dos_spec(v@),
{
    let converted = unix2dos(v);
    let mut r = text.to_owned();
    r.append(converted.as_str());
    r
}

/// The text of an edit control after `v` and a newline are appended to its text `text`,
/// unix newlines of `v` converted.
pub fn appendln_text(text: &str, v: &str) -> (r: String)
    ensures
        r@ == text@ + unix2dos_spec(v@) + seq!['\r', '\n'],
{
    let mut r = append_text(text, v);
    r.append("\r\n");
    proof {
        reveal_strlit("\r\n");
    }
    r
}

/// The two scrolls that bring a control with `lines` lines to its last line:
/// back to the top, then down to the last line.
pub fn last_line_scrolls(lines: i32) -> (r: (i32, i32))
    requires
        lines >= i32::MIN + 2,
    ensures
        r.0 == -lines,
        r.1 == lines - 2,
{
    assert(lines * -1 == -lines) by (nonlinear_arith);
    (lines * -1, lines - 2)
}

/// A multi-line edit control
pub struct TextBox {
    pub handle: ControlHandle,
}

/// What building a text box sets up: the window to create, then its limit (when not 0), read
/// only, the focus, and its font (the one given, or the default font when `None`).
#[derive(Debug)]
pub struct TextBoxSetup {
    pub window: HwndBuilder,
    pub limit: Option<usize>,
    pub readonly: bool,
    pub focus: bool,
    pub font: Option<usize>,
    /// What to release of the control that `out` held before: building resets it to an
    /// empty control
    pub release: DestroyRequest,
}

/// Builder of a `TextBox`
pub struct TextBoxBuilder<'a> {
    pub text: &'a str,
    pub size: (i32, i32),
    pub position: (i32, i32),
    pub flags: Option<TextBoxFlags>,
    pub ex_flags: u32,
    pub limit: usize,
    pub readonly: bool,
    pub focus: bool,
    pub font: Option<usize>,
    pub parent: Option<ControlHandle>,
}

impl Default for TextBox {
    fn default() -> (r: TextBox)
        ensures
            r.handle == ControlHandle::NoHandle,
    {
        TextBox { handle: ControlHandle::NoHandle }
    }
}

impl PartialEq for TextBox {
    fn eq(&self, other: &Self) -> (r: bool) {
        self.handle == other.handle
    }
}

impl vstd::std_specs::cmp::PartialEqSpecImpl for TextBox {
    open spec fn obeys_eq_spec() -> bool {
        true
    }

    open spec fn eq_spec(&self, other: &TextBox) -> bool {
        handle_eq(self.handle, other.handle)
    }
}

impl TextBox {
    /// The limit of the text, from the answer of the control
    pub fn limit(&self, answer: isize) -> (r: u32)
        ensures
            r == answer as u32,
    {
        answer as u32
    }

    /// The value sent to mark the text as modified (1) or not (0)
    pub fn set_modified(&self, e: bool) -> (r: usize)
        ensures
            r == if e { 1usize } else { 0usize },
    {
        if e { 1 } else { 0 }
    }

    /// The selection, from the start and the end the control filled
    pub fn selection(&self, start: u32, end: u32) -> (r: Range<u32>)
        ensures
            r.start == start,
            r.end == end,
    {
        start..end
    }

    /// The (start, end) pair sent to set the selection
    pub fn set_selection(&self, r: Range<u32>) -> (s: (usize, isize))
        ensures
            s == (r.start as usize, r.end as isize),
    {
        (r.start as usize, r.end as isize)
    }

    /// The number of lines, from the answer of the control (1 for an empty text)
    pub fn linecount(&self, answer: isize) -> (r: i32)
        ensures
            r == answer as i32,
    {
        answer as i32
    }

    /// The number of lines sent to scroll `v` lines
    pub fn scroll(&self, v: i32) -> (r: isize)
        ensures
            r == v as isize,
    {
        v as isize
    }

    /// The value sent to make the text read only (1) or not (0)
    pub fn set_readonly(&self, r: bool) -> (v: usize)
        ensures
            v == if r { 1usize } else { 0usize },
    {
        if r { 1 } else { 0 }
    }

    pub fn builder<'a>() -> (b: TextBoxBuilder<'a>)
        ensures
            b.text@ == ""@,
            b.size == (100i32, 25i32),
            b.position == (0i32, 0i32),
            b.flags is None,
            b.ex_flags == 0,
            b.limit == 0,
            !b.readonly,
            !b.focus,
            b.font is None,
            b.parent is None,
    {
        TextBoxBuilder {
            text: "",
            size: (100, 25),
            position: (0, 0),
            flags: None,
            ex_flags: 0,
            limit: 0,
            readonly: false,
            focus: false,
            font: None,
            parent: None,
        }
    }

    /// The length of the control's text `text`, counting "\r\n" as one character
    pub fn len(&self, text: &str) -> (r: u32)
        ensures
            r == text_len_spec(text@),
    {
        text_len(text)
    }

    /// The two scrolls that bring the control, which has `lines` lines, to its last line
    pub fn scroll_lastline(&self, lines: i32) -> (r: (i32, i32))
        requires
            lines >= i32::MIN + 2,
        ensures
            r.0 == -lines,
            r.1 == lines - 2,
    {
        last_line_scrolls(lines)
    }

    /// True if a control with the window style `style` is read only
    pub fn readonly(&self, style: u32) -> (r: bool)
        ensures
            r == (style & ES_READONLY == ES_READONLY),
    {
        style & ES_READONLY == ES_READONLY
    }

    /// True if the control reports `reply` to the question whether it was modified
    pub fn modified(&self, reply: isize) -> (r: bool)
        ensures
            r == (reply != 0),
    {
        reply != 0
    }

    /// The text to set so that the control shows `v` with its unix newlines converted
    pub fn set_text_unix2dos(&self, v: &str) -> (r: String)
        ensures
            r@ == unix2dos_spec(v@),
    {
        unix2dos(v)
    }

    /// The text of the control, whose text is `text`, after `v` is appended
    pub fn append(&self, text: &str, v: &str) -> (r: String)
        ensures
            r@ == text@ + unix2dos_spec(v@),
    {
        append_text(text, v)
    }

    /// The text of the control, whose text is `text`, after `v` and a newline are appended
    pub fn appendln(&self, text: &str, v: &str) -> (r: String)
        ensures
            r@ == text@ + unix2dos_spec(v@) + seq!['\r', '\n'],
    {
        appendln_text(text, v)
    }

    /// Winapi class name used during control creation
    pub fn class_name(&self) -> (r: &'static str)
        ensures
            r@ == "EDIT"@,
    {
        "EDIT"
    }

    /// Winapi base flags used during window creation
    pub fn flags(&self) -> (r: u32)
        ensures
            r == WS_VISIBLE | ES_AUTOVSCROLL | ES_AUTOHSCROLL | WS_TABSTOP | WS_VSCROLL | WS_HSCROLL,
    {
        WS_VISIBLE | ES_AUTOVSCROLL | ES_AUTOHSCROLL | WS_TABSTOP | WS_VSCROLL | WS_HSCROLL
    }

    /// Winapi flags required by the control
    pub fn forced_flags(&self) -> (r: u32)
        ensures
            r == WS_BORDER | WS_CHILD | ES_MULTILINE | ES_WANTRETURN,
    {
        WS_BORDER | WS_CHILD | ES_MULTILINE | ES_WANTRETURN
    }
}

impl<'a> TextBoxBuilder<'a> {
    pub fn flags(self, flags: TextBoxFlags) -> (b: TextBoxBuilder<'a>)
        ensures
            b == (TextBoxBuilder { flags: Some(flags), ..self }),
    {
        TextBoxBuilder { flags: Some(flags), ..self }
    }

    pub fn ex_flags(self, flags: u32) -> (b: TextBoxBuilder<'a>)
        ensures
            b == (TextBoxBuilder { ex_flags: flags, ..self }),
    {
        TextBoxBuilder { ex_flags: flags, ..self }
    }

    pub fn text(self, text: &'a str) -> (b: TextBoxBuilder<'a>)
        ensures
            b == (TextBoxBuilder { text, ..self }),
    {
        TextBoxBuilder { text, ..self }
    }

    pub fn size(self, size: (i32, i32)) -> (b: TextBoxBuilder<'a>)
        ensures
            b == (TextBoxBuilder { size, ..self }),
    {
        TextBoxBuilder { size, ..self }
    }

    pub fn position(self, pos: (i32, i32)) -> (b: TextBoxBuilder<'a>)
        ensures
            b == (TextBoxBuilder { position: pos, ..self }),
    {
        TextBoxBuilder { position: pos, ..self }
    }

    pub fn limit(self, limit: usize) -> (b: TextBoxBuilder<'a>)
        ensures
            b == (TextBoxBuilder { limit, ..self }),
    {
        TextBoxBuilder { limit, ..self }
    }

    pub fn readonly(self, read: bool) -> (b: TextBoxBuilder<'a>)
        ensures
            b == (TextBoxBuilder { readonly: read, ..self }),
    {
        TextBoxBuilder { readonly: read, ..self }
    }

    pub fn font(self, font: Option<usize>) -> (b: TextBoxBuilder<'a>)
        ensures
            b == (TextBoxBuilder { font, ..self }),
    {
        TextBoxBuilder { font, ..self }
    }

    pub fn focus(self, focus: bool) -> (b: TextBoxBuilder<'a>)
        ensures
            b == (TextBoxBuilder { focus, ..self }),
    {
        TextBoxBuilder { focus, ..self }
    }

    pub fn parent(self, p: ControlHandle) -> (b: TextBoxBuilder<'a>)
        ensures
            b == (TextBoxBuilder { parent: Some(p), ..self }),
    {
        TextBoxBuilder { parent: Some(p), ..self }
    }

    /// The window to create for the text box; fails without a parent.
    pub fn build(&self, out: &mut TextBox) -> (r: Result<TextBoxSetup, NwgError>)
        ensures
            r is Ok ==> final(out).handle == ControlHandle::NoHandle
                && r->Ok_0.release == destroy_request_of(old(out).handle),
            r is Err ==> *final(out) == *old(out),
            self.parent is None <==> r is Err,
            self.parent is None ==> (r matches Err(NwgError::NoParent(s)) && s@ == "TextBox"@),
            r matches Ok(s) ==> {
                &&& opt_str_view(s.window.class_name) == Some("EDIT"@)
                &&& s.window.forced_flags == WS_BORDER | WS_CHILD | ES_MULTILINE | ES_WANTRETURN
                &&& s.window.flags == Some(match self.flags {
                    Some(f) => f,
                    None => WS_VISIBLE | ES_AUTOVSCROLL | ES_AUTOHSCROLL | WS_TABSTOP | WS_VSCROLL | WS_HSCROLL,
                })
                &&& s.window.ex_flags == Some(self.ex_flags)
                &&& s.window.size == Some(self.size)
                &&& s.window.pos == Some(self.position)
                &&& opt_str_view(s.window.text) == Some(self.text@)
                &&& s.window.parent == (match self.parent.unwrap() { ControlHandle::Hwnd(h) => Some(h), _ => None::<usize> })
                &&& s.limit == if self.limit > 0 { Some(self.limit) } else { None::<usize> }
                &&& s.readonly == self.readonly
                &&& s.focus == self.focus
                &&& s.font == self.font
            },
    {
        let flags = resolve_flags(self.flags, out.flags());
        let parent = match require_parent(self.parent, "TextBox") {
            Ok(p) => p,
            Err(e) => { return Err(e); },
        };
        let release = out.handle.destroy();
        Ok(TextBoxSetup {
            release,
            window: hwnd_params(out.class_name(), out.forced_flags(), flags, self.ex_flags, self.size, self.position, Some(self.text), parent),
            limit: if self.limit > 0 { Some(self.limit) } else { None },
            readonly: self.readonly,
            focus: self.focus,
            font: self.font,
        })
    }
}


proof fn lemma_d2u_prefix(c: char, y: Seq<char>)
    ensures
        dos2unix_spec(seq![c] + y) == if c == '\r' && y.len() >= 1 && y[0] == '\n' {
            dos2unix_spec(y)
        } else {
            seq![c] + dos2unix_spec(y)
        },
{
    let s = seq![c] + y;
    assert(s.drop_first() =~= y);
    assert(s[0] == c);
    if y.len() >= 1 {
        assert(s[1] == y[0]);
    }
}

/// Converting unix newlines, then counting "\r\n" as one character, gives back what
/// counting the text itself gives: `dos2unix(unix2dos(s)) == dos2unix(s)`.
pub proof fn lemma_dos2unix_unix2dos_after(s: Seq<char>, after_cr: bool)
    ensures
        dos2unix_spec(unix2dos_after(s, after_cr)) == dos2unix_spec(s),
    decreases s.len(),
{
    if s.len() == 0 {
        return;
    }
    let rest = s.drop_first();
    let c = s[0];
    lemma_dos2unix_unix2dos_after(rest, c == '\r');
    let y = unix2dos_after(rest, c == '\r');
    assert(s =~= seq![c] + rest);
    lemma_d2u_prefix(c, rest);
    if c == '\n' && !after_cr {
        assert(unix2dos_after(s, after_cr) =~= seq!['\r'] + (seq!['\n'] + y));
        lemma_d2u_prefix('\r', seq!['\n'] + y);
        assert((seq!['\n'] + y)[0] == '\n');
        lemma_d2u_prefix('\n', y);
    } else {
        assert(unix2dos_after(s, after_cr) =~= seq![c] + y);
        lemma_d2u_prefix(c, y);
        if c == '\r' {
            if rest.len() >= 1 {
                assert(y.len() >= 1);
                if rest[0] == '\n' {
                    assert(y[0] == '\n');
                } else {
                    assert(y[0] == rest[0]);
                }
            } else {
                assert(y.len() == 0);
            }
        }
    }
}

/// A text without '\r' is left as it is by `dos2unix`.
pub proof fn lemma_dos2unix_without_cr(s: Seq<char>)
    requires
        forall|i: int| 0 <= i < s.len() ==> s[i] != '\r',
    ensures
        dos2unix_spec(s) == s,
    decreases s.len(),
{
    if s.len() > 0 {
        let rest = s.drop_first();
        assert forall|i: int| 0 <= i < rest.len() implies rest[i] != '\r' by {
            assert(rest[i] == s[i + 1]);
        }
        lemma_dos2unix_without_cr(rest);
        assert(s =~= seq![s[0]] + rest);
    }
}

/// The length of a text set with `set_text_unix2dos` (or appended) counts each newline
/// once: it is the length of the text given, when that text holds no '\r' and fits
/// in a `u32`.
pub proof fn lemma_len_after_unix2dos(v: Seq<char>)
    ensures
        text_len_spec(unix2dos_spec(v)) == text_len_spec(v),
        (forall|i: int| 0 <= i < v.len() ==> v[i] != '\r') && v.len() <= u32::MAX ==> text_len_spec(unix2dos_spec(v)) == v.len(),
{
    lemma_dos2unix_unix2dos_after(v, false);
    if forall|i: int| 0 <= i < v.len() ==> v[i] != '\r' {
        lemma_dos2unix_without_cr(v);
    }
}

/// The handle of a control
impl<'a> From<&'a TextBox> for ControlHandle {
    fn from(control: &'a TextBox) -> (r: ControlHandle) {
        control.handle
    }
}

impl<'a> vstd::std_specs::convert::FromSpecImpl<&'a TextBox> for ControlHandle {
    open spec fn obeys_from_spec() -> bool {
        true
    }

    open spec fn from_spec(control: &'a TextBox) -> ControlHandle {
        control.handle
    }
}

} // verus!
