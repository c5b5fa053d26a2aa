//! Rich edit control: its style flags, its character and paragraph formats, and
//! the text operations it shares with the text box.
use vstd::prelude::*;
use std::ops::Range;
use crate::control_handle::{ControlHandle, handle_eq, DestroyRequest, destroy_request_of};
use crate::control_base::{HwndBuilder, hwnd_params, require_parent, resolve_flags, opt_str_view};
use crate::error::NwgError;
use crate::color::{rgb_spec, color_to_rgb};
use crate::text_box::{unix2dos, text_len, text_len_spec, append_text, appendln_text, last_line_scrolls, unix2dos_spec};
use crate::styles::{WS_VISIBLE, WS_DISABLED, WS_TABSTOP, WS_CHILD, WS_BORDER, WS_VSCROLL, WS_HSCROLL,
    ES_AUTOVSCROLL, ES_AUTOHSCROLL, ES_MULTILINE, ES_WANTRETURN, ES_READONLY, ES_SAVESEL};

verus! {

/// The text box has a vertical scrollbar
pub const VSCROLL: u32 = WS_VSCROLL;
/// The text box has a horizontal scrollbar
pub const HSCROLL: u32 = WS_HSCROLL;
/// The rich text box automatically scrolls vertically
pub const AUTOVSCROLL: u32 = ES_AUTOVSCROLL;
/// The rich text box automatically scrolls horizontally
pub const AUTOHSCROLL: u32 = ES_AUTOHSCROLL;
/// The rich text box is immediatly visible after creation
pub const VISIBLE: u32 = WS_VISIBLE;
/// The rich text box cannot be interacted with by the user. It also has a grayed out look.
pub const DISABLED: u32 = WS_DISABLED;
/// The rich text box can be selected using tab navigation
pub const TAB_STOP: u32 = WS_TABSTOP;
/// Keep the selected text when the control lose focus
pub const SAVE_SELECTION: u32 = ES_SAVESEL;

/// The rich text box flags: a combination of the constants above.
pub type RichTextBoxFlags = u32;

/// Characters are bold.
pub const BOLD: u32 = 0x0001;
/// Characters are italic.
pub const ITALIC: u32 = 0x0002;
/// Characters are underlined.
pub const UNDERLINE: u32 = 0x0004;
/// Characters are struck.
pub const STRIKEOUT: u32 = 0x0008;
/// Characters use the default system color
pub const AUTOCOLOR: u32 = 0x40000000;

/// The effets that can be applied to the text of a rich edit control:
/// a combination of `BOLD`, `ITALIC`, `UNDERLINE`, `STRIKEOUT`, `AUTOCOLOR`.
pub type CharEffects = u32;

/// `EM_SETBKGNDCOLOR`: the message that sets the background color of a rich edit control
pub const EM_SETBKGNDCOLOR: u32 = 1091;

#[derive(Copy, Clone, Debug)]
pub enum UnderlineType {
    /// No underline
    NoUnderline,
    Solid,
    Dash,
    DashDot,
    DashDotDot,
    Dotted,
    DoubleSolid,
    Wave,
}

/// Contains information about character formatting in a rich edit control
#[derive(Clone, Debug, Default)]
pub struct CharFormat {
    /// Character effects (bold, italics, strikeout, etc)
    pub effects: Option<CharEffects>,
    /// Character height, in twips (1/1440 of an inch or 1/20 of a printer's point).
    pub height: Option<i32>,
    /// Character offset, in twips, from the baseline.
    pub y_offset: Option<i32>,
    /// Text color. This member is ignored if the AUTOCOLOR character effect is specified.
    pub text_color: Option<[u8; 3]>,
    /// The font family name
    pub font_face_name: Option<String>,
    /// Text underline type. Does not work with effects
    pub underline_type: Option<UnderlineType>,
}

/// Options used for bulleted or numbered paragraphs.
#[derive(Copy, Clone, Debug)]
pub enum ParaNumbering {
    /// No paragraph numbering or bullets.
    NoNumbering,
    /// Insert a bullet at the beginning of each selected paragraph.
    Bullet,
    /// Use Arabic numbers (0, 1, 2, and so on).
    Arabic,
    /// Use lowercase letters (a, b, c, and so on).
    LcLetter,
    /// Use lowercase Roman letters (i, ii, iii, and so on).
    LcRoman,
    /// Use uppercase letters (A, B, C, and so on).
    UcLetter,
    /// Use uppercase Roman letters (I, II, III, and so on).
    UcRoman,
    /// Uses a sequence of characters beginning with the Unicode character specified
    CharSeq(char),
}

/// Numbering style used with the numbering paragraphs. Used with `ParamNumbering`
#[derive(Copy, Clone, Debug)]
pub enum ParaNumberingStyle {
    /// Follows the number with a right parenthesis
    Paren,
    /// Encloses the number in parentheses
    Parens,
    /// Follows the number with a period
    Period,
    /// Display only the number
    Plain,
    /// Continues a numbered lsit without applying the next number of bullet
    NoNumber,
    /// Starts a new number using the value of `ParaNumbering::CharSeq(char)`
    NewNumber,
}

/// Paragraph alignment
#[derive(Copy, Clone, Debug)]
pub enum ParaAlignment {
    /// Paragraphs are aligned with the left margin.
    Left,
    /// Paragraphs are aligned with the right margin.
    Right,
    /// Paragraphs are centered.
    Center,
    /// Paragraphs are justified.
    Justify,
    /// Paragraphs are justified by expanding the blanks alone.
    FullInterword,
}

/// Type of line spacing
#[derive(Copy, Clone, Debug)]
pub enum ParaLineSpacing {
    /// Single spacing.
    Single,
    /// One-and-a-half spacing.
    OneAndHalf,
    /// Double spacing.
    Double,
    /// Value in twips. Less than single spacing displays single-spaced text
    SingleOr(i32),
    /// Value in twips. The control uses the exact spacing specified.
    Exact(i32),
    /// The value of `value` / 20 is the spacing, in lines, from one line to the next.
    Exact20(i32),
}

/// Contains information about paragraph formatting in a rich edit control
#[derive(Clone, Debug, Default)]
pub struct ParaFormat {
    /// Options used for bulleted or numbered paragraphs.
    pub numbering: Option<ParaNumbering>,
    /// Numbering style used with numbered paragraphs.
    pub numbering_style: Option<ParaNumberingStyle>,
    /// Minimum space between a paragraph number and the paragraph text, in twips.
    pub numbering_tab: Option<u16>,
    /// Paragraph alignment
    pub alignment: Option<ParaAlignment>,
    /// Size of the spacing above the paragraph, in twips.
    pub space_before: Option<i32>,
    /// Specifies the size of the spacing below the paragraph, in twips.
    pub space_after: Option<i32>,
    /// Indentation of the paragraph's first line, in twips.
    pub start_indent: Option<i32>,
    /// Indentation of the right side of the paragraph, relative to the right margin, in twips.
    pub right_indent: Option<i32>,
    /// Indentation of the second and subsequent lines, relative to the first line, in twips.
    pub offset: Option<i32>,
    /// Line spacing.
    pub line_spacing: Option<ParaLineSpacing>,
    /// Displays text using right-to-left (or left-to-right if set to false)
    pub rtl: Option<bool>,
}

/// A rich edit control
pub struct RichTextBox {
    pub handle: ControlHandle,
}

/// What building a rich text box sets up: the window to create, then its limit (when not 0),
/// read only, its font (the one given, or the default font when `None`), and the focus.
#[derive(Debug)]
pub struct RichTextBoxSetup {
    pub window: HwndBuilder,
    pub limit: Option<usize>,
    pub readonly: bool,
    pub font: Option<usize>,
    pub focus: bool,
    /// What to release of the control that `out` held before: building resets it to an
    /// empty control
    pub release: DestroyRequest,
}

/// Builder of a `RichTextBox`
pub struct RichTextBoxBuilder<'a> {
    pub text: &'a str,
    pub size: (i32, i32),
    pub position: (i32, i32),
    pub flags: Option<RichTextBoxFlags>,
    pub ex_flags: u32,
    pub limit: usize,
    pub readonly: bool,
    pub focus: bool,
    pub font: Option<usize>,
    pub parent: Option<ControlHandle>,
}

impl Default for RichTextBox {
    fn default() -> (r: RichTextBox)
        ensures
            r.handle == ControlHandle::NoHandle,
    {
        RichTextBox { handle: ControlHandle::NoHandle }
    }
}

impl PartialEq for RichTextBox {
    fn eq(&self, other: &Self) -> (r: bool) {
        self.handle == other.handle
    }
}

impl vstd::std_specs::cmp::PartialEqSpecImpl for RichTextBox {
    open spec fn obeys_eq_spec() -> bool {
        true
    }

    open spec fn eq_spec(&self, other: &RichTextBox) -> bool {
        handle_eq(self.handle, other.handle)
    }
}

impl RichTextBox {
    /// The limit of the text, from the answer of the control
    pub fn limit(&self, answer: isize) -> (r: u32)
        ensures
            r == answer as u32,
    {
        answer as u32
    }

    /// The value sent to mark the text as modified (1) or not (0)
    pub fn set_modified(&self, e: bool) -> (r: usize)
        ensures
            r == if e { 1usize } else { 0usize },
    {
        if e { 1 } else { 0 }
    }

    /// The selection, from the start and the end the control filled
    pub fn selection(&self, start: u32, end: u32) -> (r: Range<u32>)
        ensures
            r.start == start,
            r.end == end,
    {
        start..end
    }

    /// The (start, end) pair sent to set the selection
    pub fn set_selection(&self, r: Range<u32>) -> (s: (usize, isize))
        ensures
            s == (r.start as usize, r.end as isize),
    {
        (r.start as usize, r.end as isize)
    }

    /// The number of lines, from the answer of the control (1 for an empty text)
    pub fn linecount(&self, answer: isize) -> (r: i32)
        ensures
            r == answer as i32,
    {
        answer as i32
    }

    /// The number of lines sent to scroll `v` lines
    pub fn scroll(&self, v: i32) -> (r: isize)
        ensures
            r == v as isize,
    {
        v as isize
    }

    /// The value sent to make the text read only (1) or not (0)
    pub fn set_readonly(&self, r: bool) -> (v: usize)
        ensures
            v == if r { 1usize } else { 0usize },
    {
        if r { 1 } else { 0 }
    }

    pub fn builder<'a>() -> (b: RichTextBoxBuilder<'a>)
        ensures
            b.text@ == ""@,
            b.size == (100i32, 25i32),
            b.position == (0i32, 0i32),
            b.flags is None,
            b.ex_flags == 0,
            b.limit == 0,
            !b.readonly,
            !b.focus,
            b.font is None,
            b.parent is None,
    {
        RichTextBoxBuilder {
            text: "",
            size: (100, 25),
            position: (0, 0),
            flags: None,
            ex_flags: 0,
            limit: 0,
            readonly: false,
            focus: false,
            font: None,
            parent: None,
        }
    }

    /// The packed color sent with `EM_SETBKGNDCOLOR` to set the background color `color`
    pub fn set_background_color(&self, color: [u8; 3]) -> (r: u32)
        ensures
            r == rgb_spec(color[0], color[1], color[2]),
    {
        color_to_rgb(color)
    }

    /// The length of the control's text `text`, counting "\r\n" as one character
    pub fn len(&self, text: &str) -> (r: u32)
        ensures
            r == text_len_spec(text@),
    {
        text_len(text)
    }

    /// The two scrolls that bring the control, which has `lines` lines, to its last line
    pub fn scroll_lastline(&self, lines: i32) -> (r: (i32, i32))
        requires
            lines >= i32::MIN + 2,
        ensures
            r.0 == -lines,
            r.1 == lines - 2,
    {
        last_line_scrolls(lines)
    }

    /// True if a control with the window style `style` is read only
    pub fn readonly(&self, style: u32) -> (r: bool)
        ensures
            r == (style & ES_READONLY == ES_READONLY),
    {
        style & ES_READONLY == ES_READONLY
    }

    /// True if the control reports `reply` to the question whether it was modified
    pub fn modified(&self, reply: isize) -> (r: bool)
        ensures
            r == (reply != 0),
    {
        reply != 0
    }

    /// The text to set so that the control shows `v` with its unix newlines converted
    pub fn set_text_unix2dos(&self, v: &str) -> (r: String)
        ensures
            r@ == unix2dos_spec(v@),
    {
        unix2dos(v)
    }

    /// The text of the control, whose text is `text`, after `v` is appended
    pub fn append(&self, text: &str, v: &str) -> (r: String)
        ensures
            r@ == text@ + unix2dos_spec(v@),
    {
        append_text(text, v)
    }

    /// The text of the control, whose text is `text`, after `v` and a newline are appended
    pub fn appendln(&self, text: &str, v: &str) -> (r: String)
        ensures
            r@ == text@ + unix2dos_spec(v@) + seq!['\r', '\n'],
    {
        appendln_text(text, v)
    }

    /// Winapi class name used during control creation
    pub fn class_name(&self) -> (r: &'static str)
        ensures
            r@ == "RICHEDIT50W"@,
    {
        "RICHEDIT50W"
    }

    /// Winapi base flags used during window creation
    pub fn flags(&self) -> (r: u32)
        ensures
            r == WS_VISIBLE | ES_AUTOVSCROLL | ES_AUTOHSCROLL | WS_TABSTOP | WS_VSCROLL | WS_HSCROLL | ES_SAVESEL,
    {
        WS_VISIBLE | ES_AUTOVSCROLL | ES_AUTOHSCROLL | WS_TABSTOP | WS_VSCROLL | WS_HSCROLL | ES_SAVESEL
    }

    /// Winapi flags required by the control
    pub fn forced_flags(&self) -> (r: u32)
        ensures
            r == WS_BORDER | WS_CHILD | ES_MULTILINE | ES_WANTRETURN,
    {
        WS_BORDER | WS_CHILD | ES_MULTILINE | ES_WANTRETURN
    }
}

impl<'a> RichTextBoxBuilder<'a> {
    pub fn flags(self, flags: RichTextBoxFlags) -> (b: RichTextBoxBuilder<'a>)
        ensures
            b == (RichTextBoxBuilder { flags: Some(flags), ..self }),
    {
        RichTextBoxBuilder { flags: Some(flags), ..self }
    }

    pub fn ex_flags(self, flags: u32) -> (b: RichTextBoxBuilder<'a>)
        ensures
            b == (RichTextBoxBuilder { ex_flags: flags, ..self }),
    {
        RichTextBoxBuilder { ex_flags: flags, ..self }
    }

    pub fn text(self, text: &'a str) -> (b: RichTextBoxBuilder<'a>)
        ensures
            b == (RichTextBoxBuilder { text, ..self }),
    {
        RichTextBoxBuilder { text, ..self }
    }

    pub fn size(self, size: (i32, i32)) -> (b: RichTextBoxBuilder<'a>)
        ensures
            b == (RichTextBoxBuilder { size, ..self }),
    {
        RichTextBoxBuilder { size, ..self }
    }

    pub fn position(self, pos: (i32, i32)) -> (b: RichTextBoxBuilder<'a>)
        ensures
            b == (RichTextBoxBuilder { position: pos, ..self }),
    {
        RichTextBoxBuilder { position: pos, ..self }
    }

    pub fn limit(self, limit: usize) -> (b: RichTextBoxBuilder<'a>)
        ensures
            b == (RichTextBoxBuilder { limit, ..self }),
    {
        RichTextBoxBuilder { limit, ..self }
    }

    pub fn readonly(self, read: bool) -> (b: RichTextBoxBuilder<'a>)
        ensures
            b == (RichTextBoxBuilder { readonly: read, ..self }),
    {
        RichTextBoxBuilder { readonly: read, ..self }
    }

    pub fn font(self, font: Option<usize>) -> (b: RichTextBoxBuilder<'a>)
        ensures
            b == (RichTextBoxBuilder { font, ..self }),
    {
        RichTextBoxBuilder { font, ..self }
    }

    pub fn focus(self, focus: bool) -> (b: RichTextBoxBuilder<'a>)
        ensures
            b == (RichTextBoxBuilder { focus, ..self }),
    {
        RichTextBoxBuilder { focus, ..self }
    }

    pub fn parent(self, p: ControlHandle) -> (b: RichTextBoxBuilder<'a>)
        ensures
            b == (RichTextBoxBuilder { parent: Some(p), ..self }),
    {
        RichTextBoxBuilder { parent: Some(p), ..self }
    }

    /// The window to create for the rich text box; fails without a parent.
    pub fn build(&self, out: &mut RichTextBox) -> (r: Result<RichTextBoxSetup, NwgError>)
        ensures
            r is Ok ==> final(out).handle == ControlHandle::NoHandle
                && r->Ok_0.release == destroy_request_of(old(out).handle),
            r is Err ==> *final(out) == *old(out),
            self.parent is None <==> r is Err,
            self.parent is None ==> (r matches Err(NwgError::NoParent(s)) && s@ == "RichTextBox"@),
            r matches Ok(s) ==> {
                &&& opt_str_view(s.window.class_name) == Some("RICHEDIT50W"@)
                &&& s.window.forced_flags == WS_BORDER | WS_CHILD | ES_MULTILINE | ES_WANTRETURN
                &&& s.window.flags == Some(match self.flags {
                    Some(f) => f,
                    None => WS_VISIBLE | ES_AUTOVSCROLL | ES_AUTOHSCROLL | WS_TABSTOP | WS_VSCROLL | WS_HSCROLL | ES_SAVESEL,
                })
                &&& s.window.ex_flags == Some(self.ex_flags)
                &&& s.window.size == Some(self.size)
                &&& s.window.pos == Some(self.position)
                &&& opt_str_view(s.window.text) == Some(self.text@)
                &&& s.window.parent == (match self.parent.unwrap() { ControlHandle::Hwnd(h) => Some(h), _ => None::<usize> })
                &&& s.limit == if self.limit > 0 { Some(self.limit) } else { None::<usize> }
                &&& s.readonly == self.readonly
                &&& s.font == self.font
                &&& s.focus == self.focus
            },
    {
        let flags = resolve_flags(self.flags, out.flags());
        let parent = match require_parent(self.parent, "RichTextBox") {
            Ok(p) => p,
            Err(e) => { return Err(e); },
        };
        let release = out.handle.destroy();
        Ok(RichTextBoxSetup {
            release,
            window: hwnd_params(out.class_name(), out.forced_flags(), flags, self.ex_flags, self.size, self.position, Some(self.text), parent),
            limit: if self.limit > 0 { Some(self.limit) } else { None },
            readonly: self.readonly,
            font: self.font,
            focus: self.focus,
        })
    }
}

/// The handle of a control
impl<'a> From<&'a RichTextBox> for ControlHandle {
    fn from(control: &'a RichTextBox) -> (r: ControlHandle) {
        control.handle
    }
}

impl<'a> vstd::std_specs::convert::FromSpecImpl<&'a RichTextBox> for ControlHandle {
    open spec fn obeys_from_spec() -> bool {
        true
    }

    open spec fn from_spec(control: &'a RichTextBox) -> ControlHandle {
        control.handle
    }
}

} // verus!
