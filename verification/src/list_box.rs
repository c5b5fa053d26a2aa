//! List box: the collection of items behind the control, kept in step with what the
//! control displays, its single or multiple selection, and what building one sets up.
use vstd::prelude::*;
use crate::control_handle::{ControlHandle, handle_eq, DestroyRequest, destroy_request_of};
use crate::control_base::{HwndBuilder, hwnd_params, require_parent, resolve_flags, opt_str_view};
use crate::error::NwgError;
use crate::styles::{WS_VISIBLE, WS_DISABLED, WS_TABSTOP, WS_CHILD, WS_BORDER, WS_VSCROLL, LBS_NOTIFY,
    LBS_MULTIPLESEL, LBS_NOSEL};

verus! {

/// No flags. Equivalent to a invisible listbox.
pub const NONE: u32 = 0;
/// The listbox is immediatly visible after creation
pub const VISIBLE: u32 = WS_VISIBLE;
/// The listbox cannot be interacted with by the user. It also has a grayed out look.
pub const DISABLED: u32 = WS_DISABLED;
/// It is possible for the user to select more than 1 item at a time
pub const MULTI_SELECT: u32 = LBS_MULTIPLESEL;
/// It is impossible for the user to select the listbox items
pub const NO_SELECT: u32 = LBS_NOSEL;
/// The control can be selected using tab navigation
pub const TAB_STOP: u32 = WS_TABSTOP;

/// The list box flags: a combination of the constants above.
pub type ListBoxFlags = u32;

/// The answer of a list box that has no such item or no selection
pub const LB_ERR: isize = -1;
/// The list box keeps the text of its items
pub const LBS_HASSTRINGS: u32 = 0x0040;

/// A list box: its handle and the collection of items it displays
pub struct ListBox<D> {
    pub handle: ControlHandle,
    pub collection: Vec<D>,
}

/// How the selection is set once the list box is created: each index of a multiple
/// selection list box is added to its selection, the single selection of the others is
/// set to the index given (`usize::MAX` for none).
#[derive(Debug)]
pub enum ListBoxSelection {
    Multi(Vec<usize>),
    Single(usize),
}

/// What building a list box sets up: the window to create, then the font (the one given,
/// or the default font when `None`), the collection, the selection, the focus, and
/// whether the control is disabled.
#[derive(Debug)]
pub struct ListBoxSetup<D> {
    pub window: HwndBuilder,
    pub font: Option<usize>,
    pub collection: Option<Vec<D>>,
    pub selection: ListBoxSelection,
    pub focus: bool,
    pub disable: bool,
    /// What to release of the control that `out` held before: building resets it to an
    /// empty control
    pub release: DestroyRequest,
}

/// Builder of a `ListBox`
pub struct ListBoxBuilder<D> {
    pub size: (i32, i32),
    pub position: (i32, i32),
    pub enabled: bool,
    pub focus: bool,
    pub flags: Option<ListBoxFlags>,
    pub ex_flags: u32,
    pub font: Option<usize>,
    pub collection: Option<Vec<D>>,
    pub selected_index: Option<usize>,
    pub multi_selection: Vec<usize>,
    pub parent: Option<ControlHandle>,
}

impl<D> Default for ListBox<D> {
    fn default() -> (r: ListBox<D>)
        ensures
            r.handle == ControlHandle::NoHandle,
            r.collection@ == Seq::<D>::empty(),
    {
        ListBox { handle: ControlHandle::NoHandle, collection: Vec::new() }
    }
}

impl<D> PartialEq for ListBox<D> {
    fn eq(&self, other: &Self) -> (r: bool) {
        self.handle == other.handle
    }
}

impl<D> vstd::std_specs::cmp::PartialEqSpecImpl for ListBox<D> {
    open spec fn obeys_eq_spec() -> bool {
        true
    }

    open spec fn eq_spec(&self, other: &ListBox<D>) -> bool {
        handle_eq(self.handle, other.handle)
    }
}

impl<D> ListBox<D> {
    pub fn builder() -> (b: ListBoxBuilder<D>)
        ensures
            b.size == (100i32, 300i32),
            b.position == (0i32, 0i32),
            b.enabled,
            !b.focus,
            b.flags is None,
            b.ex_flags == 0,
            b.font is None,
            b.collection is None,
            b.selected_index is None,
            b.multi_selection@ == Seq::<usize>::empty(),
            b.parent is None,
    {
        ListBoxBuilder {
            size: (100, 300),
            position: (0, 0),
            enabled: true,
            focus: false,
            flags: None,
            ex_flags: 0,
            font: None,
            collection: None,
            selected_index: None,
            multi_selection: Vec::new(),
            parent: None,
        }
    }

    /// Add an item at the end of the collection
    pub fn push(&mut self, item: D)
        ensures
            final(self).handle == old(self).handle,
            final(self).collection@ == old(self).collection@.push(item),
    {
        self.collection.push(item);
    }

    /// Insert an item in the collection at `index`; `usize::MAX` adds it at the end.
    /// Returns the index sent to the control.
    pub fn insert(&mut self, index: usize, item: D) -> (r: usize)
        requires
            index == usize::MAX || index <= old(self).collection@.len(),
        ensures
            final(self).handle == old(self).handle,
            final(self).collection@ == if index == usize::MAX {
                old(self).collection@.push(item)
            } else {
                old(self).collection@.insert(index as int, item)
            },
            r == index,
    {
        if index == usize::MAX {
            self.collection.push(item);
        } else {
            self.collection.insert(index, item);
        }
        index
    }

    /// Remove the item at `index` and return it
    pub fn remove(&mut self, index: usize) -> (r: D)
        requires
            index < old(self).collection@.len(),
        ensures
            final(self).handle == old(self).handle,
            r == old(self).collection@[index as int],
            final(self).collection@ == old(self).collection@.remove(index as int),
    {
        self.collection.remove(index)
    }

    /// The selected item of a single selection list box, from the index the control
    /// reports: none on `LB_ERR`
    pub fn selection(&self, index: isize) -> (r: Option<usize>)
        ensures
            r == if index == LB_ERR { None::<usize> } else { Some(index as usize) },
    {
        if index == LB_ERR { None } else { Some(index as usize) }
    }

    /// The number of selected items, from the count the control reports: 0 on `LB_ERR`
    /// (a single selection list box)
    pub fn multi_selection_len(&self, count: isize) -> (r: usize)
        ensures
            r == if count == LB_ERR { 0usize } else { count as usize },
    {
        if count == LB_ERR { 0 } else { count as usize }
    }

    /// The selected items of a multiple selection list box, from the count the control
    /// reports and the indices it filled: none on `LB_ERR`
    pub fn multi_selection(&self, count: isize, filled: &[u32]) -> (r: Vec<usize>)
        ensures
            count == LB_ERR ==> r@.len() == 0,
            count != LB_ERR ==> {
                &&& r@.len() == filled@.len()
                &&& forall|i: int| 0 <= i < r@.len() ==> #[trigger] r@[i] == filled@[i] as usize
            },
    {
        let mut out: Vec<usize> = Vec::new();
        if count == LB_ERR {
            return out;
        }
        let mut i: usize = 0;
        while i < filled.len()
            invariant
                i <= filled@.len(),
                out@.len() == i,
                forall|k: int| 0 <= k < i ==> #[trigger] out@[k] == filled@[k] as usize,
            decreases filled@.len() - i,
        {
            out.push(filled[i] as usize);
            i = i + 1;
        }
        out
    }

    /// The text of the selected item, from the index the control reports and the text it
    /// gave for that item: none on `LB_ERR`
    pub fn selection_string(&self, index: isize, text: String) -> (r: Option<String>)
        ensures
            r is Some <==> index != LB_ERR,
            r matches Some(t) ==> t@ == text@,
    {
        if index == LB_ERR { None } else { Some(text) }
    }

    /// The index sent to select an item: `usize::MAX` clears the selection
    pub fn set_selection(&self, index: Option<usize>) -> (r: usize)
        ensures
            r == (match index { Some(i) => i, None => usize::MAX }),
    {
        match index {
            Some(i) => i,
            None => usize::MAX,
        }
    }

    /// The (select, index) pair sent to add the item `index` to the selection
    pub fn multi_add_selection(&self, index: usize) -> (r: (usize, usize))
        ensures
            r == (1usize, index),
    {
        (1, index)
    }

    /// The (select, index) pair sent to remove the item `index` from the selection
    pub fn multi_remove_selection(&self, index: usize) -> (r: (usize, usize))
        ensures
            r == (0usize, index),
    {
        (0, index)
    }

    /// The (select, index) pair sent to unselect every item: index -1 stands for all
    pub fn unselect_all(&self) -> (r: (usize, isize))
        ensures
            r == (0usize, -1isize),
    {
        (0, -1)
    }

    /// The (select, index) pair sent to select every item: index -1 stands for all
    pub fn select_all(&self) -> (r: (usize, isize))
        ensures
            r == (1usize, -1isize),
    {
        (1, -1)
    }

    /// The (first, last) pair sent to select a range of items
    pub fn multi_select_range(&self, range: std::ops::Range<usize>) -> (r: (usize, usize))
        ensures
            r == (range.start, range.end),
    {
        (range.start, range.end)
    }

    /// The (first, last) pair sent to unselect a range of items: the bounds are swapped
    pub fn multi_unselect_range(&self, range: std::ops::Range<usize>) -> (r: (usize, usize))
        ensures
            r == (range.end, range.start),
    {
        (range.end, range.start)
    }

    /// The item selected by a search on its text, from the index the control reports:
    /// none when the search found nothing
    pub fn set_selection_string(&self, index: isize) -> (r: Option<usize>)
        ensures
            r == if index == LB_ERR { None::<usize> } else { Some(index as usize) },
    {
        if index == LB_ERR { None } else { Some(index as usize) }
    }

    /// Whether an item is selected, from the answer of the control (negative on error)
    pub fn selected(&self, answer: isize) -> (r: bool)
        ensures
            r == (answer > 0),
    {
        answer > 0
    }

    /// The item count and the storage, in bytes, reserved before the collection is
    /// displayed again: ten bytes of text per item
    pub fn sync(&self) -> (r: (usize, usize))
        requires
            self.collection@.len() * 10 <= usize::MAX,
        ensures
            r == (self.collection@.len() as usize, (self.collection@.len() * 10) as usize),
    {
        let n = self.collection.len();
        (n, 10 * n)
    }

    /// Set the collection of the list box. Return the old collection
    pub fn set_collection(&mut self, mut col: Vec<D>) -> (r: Vec<D>)
        ensures
            final(self).handle == old(self).handle,
            final(self).collection@ == col@,
            r@ == old(self).collection@,
    {
        std::mem::swap(&mut self.collection, &mut col);
        col
    }

    /// Clears the collection. Same as `set_collection(Vec::new())`
    pub fn clear(&mut self)
        ensures
            final(self).handle == old(self).handle,
            final(self).collection@ == Seq::<D>::empty(),
    {
        self.set_collection(Vec::new());
    }

    /// The number of items the control displays, from its answer
    pub fn len(&self, count: isize) -> (r: usize)
        ensures
            r == count as usize,
    {
        count as usize
    }

    /// Winapi class name used during control creation
    pub fn class_name(&self) -> (r: &'static str)
        ensures
            r@ == "ListBox"@,
    {
        "ListBox"
    }

    /// Winapi base flags used during window creation
    pub fn flags(&self) -> (r: u32)
        ensures
            r == WS_VISIBLE | WS_TABSTOP,
    {
        WS_VISIBLE | WS_TABSTOP
    }

    /// Winapi flags required by the control
    pub fn forced_flags(&self) -> (r: u32)
        ensures
            r == LBS_HASSTRINGS | LBS_NOTIFY | WS_BORDER | WS_CHILD | WS_VSCROLL,
    {
        LBS_HASSTRINGS | LBS_NOTIFY | WS_BORDER | WS_CHILD | WS_VSCROLL
    }
}

impl<D> ListBoxBuilder<D> {
    pub fn flags(self, flags: ListBoxFlags) -> (b: ListBoxBuilder<D>)
        ensures
            b == (ListBoxBuilder { flags: Some(flags), ..self }),
    {
        ListBoxBuilder { flags: Some(flags), ..self }
    }

    pub fn ex_flags(self, flags: u32) -> (b: ListBoxBuilder<D>)
        ensures
            b == (ListBoxBuilder { ex_flags: flags, ..self }),
    {
        ListBoxBuilder { ex_flags: flags, ..self }
    }

    pub fn size(self, size: (i32, i32)) -> (b: ListBoxBuilder<D>)
        ensures
            b == (ListBoxBuilder { size: size, ..self }),
    {
        ListBoxBuilder { size: size, ..self }
    }

    pub fn position(self, pos: (i32, i32)) -> (b: ListBoxBuilder<D>)
        ensures
            b == (ListBoxBuilder { position: pos, ..self }),
    {
        ListBoxBuilder { position: pos, ..self }
    }

    pub fn font(self, font: Option<usize>) -> (b: ListBoxBuilder<D>)
        ensures
            b == (ListBoxBuilder { font: font, ..self }),
    {
        ListBoxBuilder { font: font, ..self }
    }

    pub fn parent(self, p: ControlHandle) -> (b: ListBoxBuilder<D>)
        ensures
            b == (ListBoxBuilder { parent: Some(p), ..self }),
    {
        ListBoxBuilder { parent: Some(p), ..self }
    }

    pub fn collection(self, collection: Vec<D>) -> (b: ListBoxBuilder<D>)
        ensures
            b == (ListBoxBuilder { collection: Some(collection), ..self }),
    {
        ListBoxBuilder { collection: Some(collection), ..self }
    }

    pub fn selected_index(self, index: Option<usize>) -> (b: ListBoxBuilder<D>)
        ensures
            b == (ListBoxBuilder { selected_index: index, ..self }),
    {
        ListBoxBuilder { selected_index: index, ..self }
    }

    pub fn multi_selection(self, select: Vec<usize>) -> (b: ListBoxBuilder<D>)
        ensures
            b == (ListBoxBuilder { multi_selection: select, ..self }),
    {
        ListBoxBuilder { multi_selection: select, ..self }
    }

    pub fn enabled(self, enabled: bool) -> (b: ListBoxBuilder<D>)
        ensures
            b == (ListBoxBuilder { enabled: enabled, ..self }),
    {
        ListBoxBuilder { enabled: enabled, ..self }
    }

    pub fn focus(self, focus: bool) -> (b: ListBoxBuilder<D>)
        ensures
            b == (ListBoxBuilder { focus: focus, ..self }),
    {
        ListBoxBuilder { focus: focus, ..self }
    }

    /// What building the list box sets up: the window with the chosen flags (or the
    /// default ones), the collection when given, the multiple selection when the flags
    /// allow it and the single selection otherwise; fails without a parent.
    pub fn build(self, out: &mut ListBox<D>) -> (r: Result<ListBoxSetup<D>, NwgError>)
        ensures
            r is Ok ==> final(out).handle == ControlHandle::NoHandle
                && r->Ok_0.release == destroy_request_of(old(out).handle)
                && final(out).collection@.len() == 0,
            r is Err ==> *final(out) == *old(out),
            self.parent is None <==> r is Err,
            self.parent is None ==> (r matches Err(NwgError::NoParent(s)) && s@ == "ListBox"@),
            r matches Ok(s) ==> {
                let flags = match self.flags { Some(f) => f, None => WS_VISIBLE | WS_TABSTOP };
                &&& opt_str_view(s.window.class_name) == Some("ListBox"@)
                &&& s.window.forced_flags == LBS_HASSTRINGS | LBS_NOTIFY | WS_BORDER | WS_CHILD | WS_VSCROLL
                &&& s.window.flags == Some(flags)
                &&& s.window.ex_flags == Some(self.ex_flags)
                &&& s.window.size == Some(self.size)
                &&& s.window.pos == Some(self.position)
                &&& s.window.text is None
                &&& s.window.parent == (match self.parent.unwrap() { ControlHandle::Hwnd(h) => Some(h), _ => None::<usize> })
                &&& s.font == self.font
                &&& s.collection == self.collection
                &&& (flags & LBS_MULTIPLESEL == LBS_MULTIPLESEL ==> (s.selection matches ListBoxSelection::Multi(v) && v@ == self.multi_selection@))
                &&& (flags & LBS_MULTIPLESEL != LBS_MULTIPLESEL ==> s.selection == ListBoxSelection::Single(match self.selected_index { Some(i) => i, None => usize::MAX }))
                &&& s.focus == self.focus
                &&& s.disable == !self.enabled
            },
    {
        let flags = resolve_flags(self.flags, out.flags());
        let parent = match require_parent(self.parent, "ListBox") {
            Ok(p) => p,
            Err(e) => { return Err(e); },
        };
        let window = hwnd_params(out.class_name(), out.forced_flags(), flags, self.ex_flags, self.size, self.position, None, parent);
        let selection = if flags & LBS_MULTIPLESEL == LBS_MULTIPLESEL {
            ListBoxSelection::Multi(self.multi_selection)
        } else {
            ListBoxSelection::Single(out.set_selection(self.selected_index))
        };
        let release = out.handle.destroy();
        out.collection = Vec::new();
        Ok(ListBoxSetup {
            release,
            window,
            font: self.font,
            collection: self.collection,
            selection,
            focus: self.focus,
            disable: !self.enabled,
        })
    }
}

/// The handle of a control
impl<'a, D> From<&'a ListBox<D>> for ControlHandle {
    fn from(control: &'a ListBox<D>) -> (r: ControlHandle) {
        control.handle
    }
}

impl<'a, D> vstd::std_specs::convert::FromSpecImpl<&'a ListBox<D>> for ControlHandle {
    open spec fn obeys_from_spec() -> bool {
        true
    }

    open spec fn from_spec(control: &'a ListBox<D>) -> ControlHandle {
        control.handle
    }
}

} // verus!
