//! Tabs container and tabs: the bookkeeping that numbers the tabs of a container,
//! shows the selected one, and fits the tabs inside the container.
//!
//! Each tab stores its position in its container as a 1-based number in its window
//! data; the container shows the tab whose number follows the selected index.
use vstd::prelude::*;
use crate::control_handle::{ControlHandle, handle_eq, DestroyRequest, destroy_request_of};
use crate::control_base::{HwndBuilder, hwnd_params, require_parent, resolve_flags, opt_str_view};
use crate::error::NwgError;
use crate::styles::{WS_VISIBLE, WS_DISABLED, WS_CHILD, WS_CLIPCHILDREN};

verus! {

/// `WS_EX_CONTROLPARENT`: the user can navigate among the window's children with the tab key
pub const WS_EX_CONTROLPARENT: u32 = 0x00010000;

/// The window class of the system tab control (`WC_TABCONTROL`)
pub const WC_TABCONTROL: &'static str = "SysTabControl32";

pub const VISIBLE: u32 = WS_VISIBLE;
pub const DISABLED: u32 = WS_DISABLED;

/// The tabs container flags: a combination of the constants above.
pub type TabsContainerFlags = u32;

/// The border the container keeps around its tabs, in pixels
pub const BORDER_SIZE: u32 = 11;

/// Where the tabs of a container go when it is resized
#[derive(Copy, Clone, Debug, PartialEq, Eq, Structural)]
pub struct TabsLayout {
    pub width: u32,
    pub height: u32,
    pub tab_offset_y: u32,
}

/// The layout of the tabs of a container `width` by `height` (logical pixels) whose tab
/// headers are `text_height` high: the headers take `text_height` plus the border, the
/// width loses the border when it can, and the height loses the headers and the border,
/// never going below zero.
pub open spec fn tabs_layout_spec(width: u32, height: u32, text_height: i32) -> TabsLayout {
    let tab_height = (text_height as u32 + BORDER_SIZE) as u32;
    TabsLayout {
        width: if width > BORDER_SIZE { (width - BORDER_SIZE) as u32 } else { width },
        height: if height > tab_height {
            (height - if tab_height + BORDER_SIZE <= height { tab_height + BORDER_SIZE } else { height as int }) as u32
        } else {
            height
        },
        tab_offset_y: tab_height,
    }
}

/// The layout of the tabs of a resized container
pub fn tabs_layout(width: u32, height: u32, text_height: i32) -> (r: TabsLayout)
    requires
        text_height as u32 + 2 * BORDER_SIZE <= u32::MAX,
    ensures
        r == tabs_layout_spec(width, height, text_height),
{
    let tab_height = text_height as u32 + BORDER_SIZE;
    let mut w = width;
    let mut h = height;
    if w > BORDER_SIZE {
        w = w - BORDER_SIZE;
    }
    if h > tab_height {
        let cut = if tab_height + BORDER_SIZE <= h { tab_height + BORDER_SIZE } else { h };
        h = h - cut;
    }
    TabsLayout { width: w, height: h, tab_offset_y: tab_height }
}

/// The number a new tab takes in a container whose tabs carry the numbers `tab_numbers`:
/// one past the largest, or 0 for an empty container.
pub open spec fn next_tab_number_spec(tab_numbers: Seq<usize>) -> nat
    decreases tab_numbers.len(),
{
    if tab_numbers.len() == 0 {
        0
    } else {
        let rest = next_tab_number_spec(tab_numbers.drop_last());
        let here = tab_numbers.last() + 1;
        if here > rest { here as nat } else { rest }
    }
}

/// The number a new tab takes in a container whose tabs carry the numbers `tab_numbers`
pub fn next_tab_number(tab_numbers: &[usize]) -> (r: usize)
    requires
        forall|i: int| 0 <= i < tab_numbers@.len() ==> tab_numbers@[i] < usize::MAX,
    ensures
        r == next_tab_number_spec(tab_numbers@),
{
    let mut count: usize = 0;
    let mut i: usize = 0;
    while i < tab_numbers.len()
        invariant
            0 <= i <= tab_numbers@.len(),
            forall|k: int| 0 <= k < tab_numbers@.len() ==> tab_numbers@[k] < usize::MAX,
            count == next_tab_number_spec(tab_numbers@.subrange(0, i as int)),
        decreases tab_numbers@.len() - i,
    {
        assert(tab_numbers@.subrange(0, i as int + 1).drop_last() =~= tab_numbers@.subrange(0, i as int));
        let here = tab_numbers[i] + 1;
        if here > count {
            count = here;
        }
        i = i + 1;
    }
    assert(tab_numbers@.subrange(0, tab_numbers@.len() as int) =~= tab_numbers@);
    count
}

/// True if the tab numbered `tab_number` is the one shown when the tab at `selected`
/// (0-based, or -1 for none) is selected
pub fn tab_visible(tab_number: i32, selected: i32) -> (r: bool)
    requires
        selected < i32::MAX,
    ensures
        r == (tab_number == selected + 1),
{
    tab_number == selected + 1
}

/// The index, in its container, of a tab whose stored number is `tab_number`
pub fn tab_item_index(tab_number: isize) -> (r: usize)
    requires
        tab_number > isize::MIN,
    ensures
        r == (tab_number - 1) as usize,
{
    (tab_number - 1) as usize
}

/// Where a tab numbered `index` goes in a container `w` by `h`: its size, its position,
/// and whether it is shown (the first tab is)
#[derive(Copy, Clone, Debug, PartialEq, Eq, Structural)]
pub struct TabPlacement {
    pub width: u32,
    pub height: u32,
    pub x: i32,
    pub y: i32,
    pub show: bool,
}

/// The placement of a new tab numbered `index` in a container `w` by `h`
pub fn tab_init_placement(w: u32, h: u32, index: usize) -> (r: TabPlacement)
    requires
        w >= 11,
        h >= 33,
    ensures
        r == (TabPlacement { width: (w - 11) as u32, height: (h - 33) as u32, x: 5, y: 25, show: index == 1 }),
{
    TabPlacement { width: w - 11, height: h - 33, x: 5, y: 25, show: index == 1 }
}

/// A tabs container
pub struct TabsContainer {
    pub handle: ControlHandle,
}

/// What building a tabs container sets up: the window to create, then its font (the one given,
/// or the default font when `None`).
#[derive(Debug)]
pub struct TabsContainerSetup {
    pub window: HwndBuilder,
    pub font: Option<usize>,
    /// What to release of the control that `out` held before: building resets it to an
    /// empty control
    pub release: DestroyRequest,
}

/// Builder of a `TabsContainer`
pub struct TabsContainerBuilder {
    pub size: (i32, i32),
    pub position: (i32, i32),
    pub parent: Option<ControlHandle>,
    pub font: Option<usize>,
    pub flags: Option<TabsContainerFlags>,
    pub ex_flags: u32,
}

/// A tab of a tabs container
pub struct Tab {
    pub handle: ControlHandle,
}

/// Builder of a `Tab`
pub struct TabBuilder<'a> {
    pub text: &'a str,
    pub parent: Option<ControlHandle>,
}

impl Default for TabsContainer {
    fn default() -> (r: TabsContainer)
        ensures
            r.handle == ControlHandle::NoHandle,
    {
        TabsContainer { handle: ControlHandle::NoHandle }
    }
}

impl PartialEq for TabsContainer {
    fn eq(&self, other: &Self) -> (r: bool) {
        self.handle == other.handle
    }
}

impl vstd::std_specs::cmp::PartialEqSpecImpl for TabsContainer {
    open spec fn obeys_eq_spec() -> bool {
        true
    }

    open spec fn eq_spec(&self, other: &TabsContainer) -> bool {
        handle_eq(self.handle, other.handle)
    }
}
impl Default for Tab {
    fn default() -> (r: Tab)
        ensures
            r.handle == ControlHandle::NoHandle,
    {
        Tab { handle: ControlHandle::NoHandle }
    }
}

impl PartialEq for Tab {
    fn eq(&self, other: &Self) -> (r: bool) {
        self.handle == other.handle
    }
}

impl vstd::std_specs::cmp::PartialEqSpecImpl for Tab {
    open spec fn obeys_eq_spec() -> bool {
        true
    }

    open spec fn eq_spec(&self, other: &Tab) -> bool {
        handle_eq(self.handle, other.handle)
    }
}

impl TabsContainer {
    /// The selected tab, from the answer of the control
    pub fn selected_tab(&self, answer: isize) -> (r: usize)
        ensures
            r == answer as usize,
    {
        answer as usize
    }

    /// The index sent to select a tab, and the selection each tab then compares its
    /// number with to know whether it is shown (see `tab_visible`)
    pub fn set_selected_tab(&self, index: usize) -> (r: (usize, i32))
        ensures
            r == (index, index as i32),
    {
        (index, index as i32)
    }

    /// The number of tabs, from the answer of the control
    pub fn tab_count(&self, answer: isize) -> (r: usize)
        ensures
            r == answer as usize,
    {
        answer as usize
    }

    pub fn builder() -> (b: TabsContainerBuilder)
        ensures
            b.size == (300i32, 300i32),
            b.position == (0i32, 0i32),
            b.parent is None,
            b.font is None,
            b.flags is None,
            b.ex_flags == 0,
    {
        TabsContainerBuilder { size: (300, 300), position: (0, 0), parent: None, font: None, flags: None, ex_flags: 0 }
    }

    /// Winapi class name used during control creation
    pub fn class_name(&self) -> (r: &'static str)
        ensures
            r@ == "SysTabControl32"@,
    {
        "SysTabControl32"
    }

    /// Winapi base flags used during window creation
    pub fn flags(&self) -> (r: u32)
        ensures
            r == WS_VISIBLE,
    {
        WS_VISIBLE
    }

    /// Winapi flags required by the control
    pub fn forced_flags(&self) -> (r: u32)
        ensures
            r == WS_CHILD | WS_CLIPCHILDREN,
    {
        WS_CHILD | WS_CLIPCHILDREN
    }
}

impl TabsContainerBuilder {
    pub fn flags(self, flags: TabsContainerFlags) -> (b: TabsContainerBuilder)
        ensures
            b == (TabsContainerBuilder { flags: Some(flags), ..self }),
    {
        TabsContainerBuilder { flags: Some(flags), ..self }
    }

    pub fn ex_flags(self, flags: u32) -> (b: TabsContainerBuilder)
        ensures
            b == (TabsContainerBuilder { ex_flags: flags, ..self }),
    {
        TabsContainerBuilder { ex_flags: flags, ..self }
    }

    pub fn size(self, size: (i32, i32)) -> (b: TabsContainerBuilder)
        ensures
            b == (TabsContainerBuilder { size: size, ..self }),
    {
        TabsContainerBuilder { size: size, ..self }
    }

    pub fn position(self, pos: (i32, i32)) -> (b: TabsContainerBuilder)
        ensures
            b == (TabsContainerBuilder { position: pos, ..self }),
    {
        TabsContainerBuilder { position: pos, ..self }
    }

    pub fn parent(self, p: ControlHandle) -> (b: TabsContainerBuilder)
        ensures
            b == (TabsContainerBuilder { parent: Some(p), ..self }),
    {
        TabsContainerBuilder { parent: Some(p), ..self }
    }

    pub fn font(self, font: Option<usize>) -> (b: TabsContainerBuilder)
        ensures
            b == (TabsContainerBuilder { font: font, ..self }),
    {
        TabsContainerBuilder { font: font, ..self }
    }

    /// The window to create for the container: it always lets the tab key move
    /// among its children; fails without a parent.
    pub fn build(&self, out: &mut TabsContainer) -> (r: Result<TabsContainerSetup, NwgError>)
        ensures
            r is Ok ==> final(out).handle == ControlHandle::NoHandle
                && r->Ok_0.release == destroy_request_of(old(out).handle),
            r is Err ==> *final(out) == *old(out),
            self.parent is None <==> r is Err,
            self.parent is None ==> (r matches Err(NwgError::NoParent(s)) && s@ == "TabsContainer"@),
            r matches Ok(s) ==> {
                &&& opt_str_view(s.window.class_name) == Some("SysTabControl32"@)
                &&& s.window.forced_flags == WS_CHILD | WS_CLIPCHILDREN
                &&& s.window.flags == Some(match self.flags { Some(f) => f, None => WS_VISIBLE })
                &&& s.window.ex_flags == Some(WS_EX_CONTROLPARENT | self.ex_flags)
                &&& s.window.size == Some(self.size)
                &&& s.window.pos == Some(self.position)
                &&& s.window.text is None
                &&& s.window.parent == (match self.parent.unwrap() { ControlHandle::Hwnd(h) => Some(h), _ => None::<usize> })
                &&& s.font == self.font
            },
    {
        let flags = resolve_flags(self.flags, out.flags());
        let parent = match require_parent(self.parent, "TabsContainer") {
            Ok(p) => p,
            Err(e) => { return Err(e); },
        };
        let release = out.handle.destroy();
        Ok(TabsContainerSetup {
            release,
            window: hwnd_params(out.class_name(), out.forced_flags(), flags, WS_EX_CONTROLPARENT | self.ex_flags, self.size, self.position, None, parent),
            font: self.font,
        })
    }
}

impl Tab {
    /// The image sent for the tab: -1 for none
    pub fn set_image_index(&self, index: Option<i32>) -> (r: i32)
        ensures
            r == (match index { Some(i) => i, None => -1i32 }),
    {
        match index {
            Some(i) => i,
            None => -1,
        }
    }

    /// The image of the tab: it is not read back from the control, so it is always none
    pub fn image_index(&self) -> (r: Option<i32>)
        ensures
            r is None,
    {
        None
    }

    pub fn builder<'a>() -> (b: TabBuilder<'a>)
        ensures
            b.text@ == "Tab"@,
            b.parent is None,
    {
        TabBuilder { text: "Tab", parent: None }
    }

    /// Winapi class name used during control creation
    pub fn class_name(&self) -> (r: &'static str)
        ensures
            r@ == "NWG_TAB"@,
    {
        "NWG_TAB"
    }

    /// Winapi base flags used during window creation
    pub fn flags(&self) -> (r: u32)
        ensures
            r == 0,
    {
        0
    }

    /// Winapi flags required by the control
    pub fn forced_flags(&self) -> (r: u32)
        ensures
            r == WS_CHILD,
    {
        WS_CHILD
    }
}

impl<'a> TabBuilder<'a> {
    pub fn text(self, text: &'a str) -> (b: TabBuilder<'a>)
        ensures
            b == (TabBuilder { text: text, ..self }),
    {
        TabBuilder { text: text, ..self }
    }

    pub fn parent(self, p: ControlHandle) -> (b: TabBuilder<'a>)
        ensures
            b == (TabBuilder { parent: Some(p), ..self }),
    {
        TabBuilder { parent: Some(p), ..self }
    }

    /// The window to create for the tab. The parent must be a window of the tab control
    /// class; `parent_class` is the class name of the parent window.
    pub fn build(&self, out: &mut Tab, parent_class: &String) -> (res: (Result<HwndBuilder, NwgError>, DestroyRequest))
        ensures
            self.parent is None ==> *final(out) == *old(out) && res.1 == DestroyRequest::Nothing,
            self.parent is Some ==> final(out).handle == ControlHandle::NoHandle
                && res.1 == destroy_request_of(old(out).handle),
            res.0 is Ok <==> (self.parent matches Some(ControlHandle::Hwnd(_)) && parent_class@ == "SysTabControl32"@),
            self.parent is None ==> (res.0 matches Err(NwgError::NoParent(s)) && s@ == "Tab"@),
            self.parent is Some && res.0 is Err ==> (res.0 matches Err(NwgError::ControlCreationError(s))
                && s@ == "Tab requires a TabsContainer parent."@),
            res.0 matches Ok(b) ==> {
                &&& opt_str_view(b.class_name) == Some("NWG_TAB"@)
                &&& b.forced_flags == WS_CHILD
                &&& b.flags == Some(0u32)
                &&& b.ex_flags == Some(WS_EX_CONTROLPARENT)
                &&& b.size is None
                &&& b.pos is None
                &&& opt_str_view(b.text) == Some(self.text@)
                &&& b.parent == Some(self.parent.unwrap()->Hwnd_0)
            },
    {
        let parent = match require_parent(self.parent, "Tab") {
            Ok(p) => p,
            Err(e) => { return (Err(e), DestroyRequest::Nothing); },
        };
        let release = out.handle.destroy();
        let tab_class = WC_TABCONTROL.to_owned();
        let is_tab_container = match parent {
            ControlHandle::Hwnd(_) => *parent_class == tab_class,
            _ => false,
        };
        if !is_tab_container {
            return (Err(NwgError::control_create("Tab requires a TabsContainer parent.")), release);
        }
        proof {
            reveal_strlit("SysTabControl32");
        }
        (Ok(crate::control_base::ControlBase::build_hwnd()
            .class_name(Some(out.class_name()))
            .forced_flags(out.forced_flags())
            .ex_flags(WS_EX_CONTROLPARENT)
            .flags(out.flags())
            .text(self.text)
            .parent(Some(parent))), release)
    }
}

/// A new tab takes a number larger than every number already taken.
pub proof fn lemma_next_tab_number_is_fresh(tab_numbers: Seq<usize>)
    requires
        forall|i: int| 0 <= i < tab_numbers.len() ==> tab_numbers[i] < usize::MAX,
    ensures
        forall|i: int| 0 <= i < tab_numbers.len() ==> tab_numbers[i] < next_tab_number_spec(tab_numbers),
    decreases tab_numbers.len(),
{
    if tab_numbers.len() > 0 {
        let rest = tab_numbers.drop_last();
        lemma_next_tab_number_is_fresh(rest);
        assert forall|i: int| 0 <= i < tab_numbers.len() implies tab_numbers[i] < next_tab_number_spec(tab_numbers) by {
            if i < tab_numbers.len() - 1 {
                assert(tab_numbers[i] == rest[i]);
            }
        }
    }
}

/// The tabs of a resized container never get larger than the container.
pub proof fn lemma_tabs_fit(width: u32, height: u32, text_height: i32)
    requires
        text_height as u32 + 2 * BORDER_SIZE <= u32::MAX,
    ensures
        tabs_layout_spec(width, height, text_height).width <= width,
        tabs_layout_spec(width, height, text_height).height <= height,
{
}

/// The handle of a control
impl<'a> From<&'a TabsContainer> for ControlHandle {
    fn from(control: &'a TabsContainer) -> (r: ControlHandle) {
        control.handle
    }
}

impl<'a> vstd::std_specs::convert::FromSpecImpl<&'a TabsContainer> for ControlHandle {
    open spec fn obeys_from_spec() -> bool {
        true
    }

    open spec fn from_spec(control: &'a TabsContainer) -> ControlHandle {
        control.handle
    }
}

/// The handle of a control
impl<'a> From<&'a Tab> for ControlHandle {
    fn from(control: &'a Tab) -> (r: ControlHandle) {
        control.handle
    }
}

impl<'a> vstd::std_specs::convert::FromSpecImpl<&'a Tab> for ControlHandle {
    open spec fn obeys_from_spec() -> bool {
        true
    }

    open spec fn from_spec(control: &'a Tab) -> ControlHandle {
        control.handle
    }
}

} // verus!
