//! List view: its styles, its column and item descriptions, and the requests it makes
//! to insert, update and read columns and items.
use vstd::prelude::*;
use crate::control_handle::{ControlHandle, handle_eq};
use crate::control_base::{HwndBuilder, ControlBase, require_parent, resolve_flags, opt_str_view};
use crate::error::NwgError;
use crate::color::{rgb_spec, color_to_rgb, rgb_to_color};
use crate::styles::{WS_VISIBLE, WS_DISABLED, WS_TABSTOP, WS_CHILD, WS_BORDER, LVS_ICON, LVS_REPORT, LVS_SMALLICON,
    LVS_LIST, LVS_SINGLESEL, LVS_SHOWSELALWAYS, LVS_NOCOLUMNHEADER};

verus! {

/// The list view is immediatly visible after creation
pub const VISIBLE: u32 = WS_VISIBLE;
/// The list view cannot be interacted with by the user.
pub const DISABLED: u32 = WS_DISABLED;
/// The control can be selected using tab navigation
pub const TAB_STOP: u32 = WS_TABSTOP;
/// Only one item can be selected
pub const SINGLE_SELECTION: u32 = LVS_SINGLESEL;
/// Shows the selected list view item when the control is not in focus
pub const ALWAYS_SHOW_SELECTION: u32 = LVS_SHOWSELALWAYS;
/// Remove the headers in Detailed view
pub const NO_HEADER: u32 = LVS_NOCOLUMNHEADER;

/// The list view flags: a combination of the constants above.
pub type ListViewFlags = u32;

/// The list view extended flags
pub const EX_NONE: u32 = 0;
pub const EX_GRID: u32 = 0x00000001;
pub const EX_BORDER_SELECT: u32 = 0x00008000;
pub const EX_AUTO_COLUMN_SIZE: u32 = 0x10000000;
pub const EX_FULL_ROW_SELECT: u32 = 0x00000020;
pub const EX_HEADER_DRAG_DROP: u32 = 0x00000010;
pub const EX_HEADER_IN_ALL_VIEW: u32 = 0x02000000;

/// The list view extended flags: a combination of the `EX_` constants above.
pub type ListViewExFlags = u32;

/// The format flags of a list view column
pub const COLUMN_LEFT: u32 = 0x0000;
pub const COLUMN_RIGHT: u32 = 0x0001;
pub const COLUMN_CENTER: u32 = 0x0002;
pub const COLUMN_JUSTIFY_MASK: u32 = 0x0003;
pub const COLUMN_IMAGE: u32 = 0x0800;
pub const COLUMN_IMAGE_RIGHT: u32 = 0x1000;
pub const COLUMN_IMAGE_COL: u32 = 0x8000;

/// The format flags of a list view column: a combination of the `COLUMN_` constants above.
pub type ListViewColumnFlags = u32;

/// The fields of a column request: format, width, text
pub const LVCF_FMT: u32 = 0x0001;
pub const LVCF_WIDTH: u32 = 0x0002;
pub const LVCF_TEXT: u32 = 0x0004;

/// The fields of an item request: text, image, state
pub const LVIF_TEXT: u32 = 0x00000001;
pub const LVIF_IMAGE: u32 = 0x00000002;
pub const LVIF_STATE: u32 = 0x00000008;

/// The selected state of an item
pub const LVIS_SELECTED: u32 = 0x0002;

/// The image lists of a list view
pub const LVSIL_NORMAL: i32 = 0;
pub const LVSIL_SMALL: i32 = 1;
pub const LVSIL_STATE: i32 = 2;
pub const LVSIL_GROUPHEADER: i32 = 3;

#[derive(Copy, Clone, Debug, PartialEq, Eq, Structural)]
pub enum ListViewStyle {
    Simple,
    Detailed,
    Icon,
    SmallIcon,
}

#[derive(Copy, Clone, Debug, PartialEq, Eq, Structural)]
pub enum ListViewImageListType {
    /// Normal sized icons
    Normal,
    /// Small icons
    Small,
    /// State icons
    State,
    /// Group header list (not yet implemented)
    GroupHeader,
}

/// The style bits of a list view style
pub open spec fn style_bits(s: ListViewStyle) -> u32 {
    match s {
        ListViewStyle::Simple => LVS_LIST,
        ListViewStyle::Detailed => LVS_REPORT,
        ListViewStyle::Icon => LVS_ICON,
        ListViewStyle::SmallIcon => LVS_SMALLICON,
    }
}

impl ListViewStyle {
    /// The list view style of the window style `bits`: its two lowest bits
    pub fn from_bits(bits: u32) -> (r: ListViewStyle)
        ensures
            style_bits(r) == bits & 0b11,
    {
        assert(bits & 0b11 < 4) by (bit_vector);
        let bits = bits & 0b11;
        if bits == LVS_ICON {
            ListViewStyle::Icon
        } else if bits == LVS_REPORT {
            ListViewStyle::Detailed
        } else if bits == LVS_SMALLICON {
            ListViewStyle::SmallIcon
        } else {
            ListViewStyle::Simple
        }
    }

    /// The style bits of the list view style
    pub fn bits(&self) -> (r: u32)
        ensures
            r == style_bits(*self),
    {
        match self {
            ListViewStyle::Simple => LVS_LIST,
            ListViewStyle::Detailed => LVS_REPORT,
            ListViewStyle::Icon => LVS_ICON,
            ListViewStyle::SmallIcon => LVS_SMALLICON,
        }
    }
}

impl ListViewImageListType {
    /// The image list number of the type
    pub fn to_raw(&self) -> (r: i32)
        ensures
            r == (match *self {
                ListViewImageListType::Normal => LVSIL_NORMAL,
                ListViewImageListType::Small => LVSIL_SMALL,
                ListViewImageListType::State => LVSIL_STATE,
                ListViewImageListType::GroupHeader => LVSIL_GROUPHEADER,
            }),
    {
        match self {
            ListViewImageListType::Normal => LVSIL_NORMAL,
            ListViewImageListType::Small => LVSIL_SMALL,
            ListViewImageListType::State => LVSIL_STATE,
            ListViewImageListType::GroupHeader => LVSIL_GROUPHEADER,
        }
    }
}

/// Represents a column in a detailed list view
#[derive(Default, Clone, Debug)]
pub struct InsertListViewColumn {
    /// Index of the column
    pub index: Option<i32>,
    /// Format of the column
    pub fmt: Option<i32>,
    /// Width of the column in pixels
    pub width: Option<i32>,
    /// Text of the column to insert
    pub text: Option<String>,
}

/// The data of a list view column
#[derive(Default, Clone, Debug)]
pub struct ListViewColumn {
    pub fmt: i32,
    pub width: i32,
    pub text: String,
}

/// Represents a list view item parameters
#[derive(Default, Clone, Debug)]
pub struct InsertListViewItem {
    /// Index of the item to be inserted. If None, the item is added at the end of the list
    pub index: Option<i32>,
    /// Index of the column
    pub column_index: i32,
    /// Text of the item to insert
    pub text: Option<String>,
    /// Index of the image in the image list. Icons are only supported at column 0
    pub image: Option<i32>,
}

/// The data of a list view item
#[derive(Default, Clone, Debug)]
pub struct ListViewItem {
    pub row_index: i32,
    pub column_index: i32,
    pub text: String,
    /// If the item is currently selected
    pub selected: bool,
    pub image: i32,
}

/// A request to insert or change a column
#[derive(Debug)]
pub struct ColumnRequest {
    /// The fields given
    pub mask: u32,
    pub fmt: i32,
    pub width: i32,
    /// The text, when it is given
    pub text: Option<String>,
    /// The column
    pub index: usize,
}

/// A request to insert or change an item
#[derive(Debug)]
pub struct ItemRequest {
    /// The fields given
    pub mask: u32,
    pub row: i32,
    pub column: i32,
    pub image: i32,
    /// The text, when it is given
    pub text: Option<String>,
    /// Insert a new item (true) or change an existing one (false)
    pub insert: bool,
}

/// What inserting an item does: an empty item first fills the row when a sub item is
/// inserted in a row that has no item, then the item itself
#[derive(Debug)]
pub struct InsertItemPlan {
    pub fill_row: Option<ItemRequest>,
    pub item: ItemRequest,
}

/// The image mask of an item description: the image field when an image is given
pub fn check_image_mask(i: &InsertListViewItem) -> (r: u32)
    ensures
        r == if i.image is Some { LVIF_IMAGE } else { 0 },
{
    if i.image.is_some() { LVIF_IMAGE } else { 0 }
}

/// The image of an item description, 0 when none is given
pub fn check_image(i: &InsertListViewItem) -> (r: i32)
    ensures
        r == (match i.image { Some(v) => v, None => 0 }),
{
    match i.image {
        Some(v) => v,
        None => 0,
    }
}

/// The text given, as an owned string
fn clone_text(t: &Option<String>) -> (r: Option<String>)
    ensures
        opt_str_view(r) == opt_str_view(*t),
{
    match t {
        Some(s) => Some(s.clone()),
        None => None,
    }
}

/// The row an item description goes to: the given index, or past the end
pub open spec fn insert_row_spec(i: InsertListViewItem) -> i32 {
    match i.index {
        Some(r) => r,
        None => i32::MAX,
    }
}

/// The data of the item found at (`row_index`, `column_index`), with the text read from
/// the control, its state and its image
pub fn build_list_view_image(row_index: usize, column_index: usize, state: u32, text: String, image: i32) -> (r: ListViewItem)
    ensures
        r.row_index == row_index as i32,
        r.column_index == column_index as i32,
        r.text@ == text@,
        r.selected == (state & LVIS_SELECTED == LVIS_SELECTED),
        r.image == image,
{
    ListViewItem {
        row_index: row_index as i32,
        column_index: column_index as i32,
        text,
        selected: state & LVIS_SELECTED == LVIS_SELECTED,
        image,
    }
}

/// A list view
pub struct ListView {
    pub handle: ControlHandle,
}

/// What building a list view sets up: the window to create, then its item count (when
/// not 0), the focus, its extended style, its background color and its text color (packed),
/// each when given
#[derive(Debug)]
pub struct ListViewSetup {
    pub window: HwndBuilder,
    pub item_count: Option<u32>,
    pub focus: bool,
    pub ex_flags: Option<u32>,
    pub background: Option<u32>,
    pub text_color: Option<u32>,
}

/// Builder of a `ListView`
pub struct ListViewBuilder {
    pub size: (i32, i32),
    pub position: (i32, i32),
    pub background_color: Option<[u8; 3]>,
    pub text_color: Option<[u8; 3]>,
    pub focus: bool,
    pub flags: Option<ListViewFlags>,
    pub ex_flags: Option<ListViewExFlags>,
    pub style: ListViewStyle,
    pub item_count: u32,
    pub parent: Option<ControlHandle>,
}

impl Default for ListView {
    fn default() -> (r: ListView)
        ensures
            r.handle == ControlHandle::NoHandle,
    {
        ListView { handle: ControlHandle::NoHandle }
    }
}

impl PartialEq for ListView {
    fn eq(&self, other: &Self) -> (r: bool) {
        self.handle == other.handle
    }
}

impl vstd::std_specs::cmp::PartialEqSpecImpl for ListView {
    open spec fn obeys_eq_spec() -> bool {
        true
    }

    open spec fn eq_spec(&self, other: &ListView) -> bool {
        handle_eq(self.handle, other.handle)
    }
}

impl ListView {
    /// The selected column, from the answer of the control
    pub fn selected_column(&self, answer: isize) -> (r: usize)
        ensures
            r == answer as usize,
    {
        answer as usize
    }

    /// The index sent to select a column
    pub fn set_selected_column(&self, index: usize) -> (r: usize)
        ensures
            r == index,
    {
        index
    }

    /// The number of selected items, from the answer of the control
    pub fn selected_count(&self, answer: isize) -> (r: usize)
        ensures
            r == answer as usize,
    {
        answer as usize
    }

    /// Whether the column exists, from the answer of the control to a read of it
    pub fn has_column(&self, answer: isize) -> (r: bool)
        ensures
            r == (answer != 0),
    {
        answer != 0
    }

    /// Whether the item is visible, from the answer of the control
    pub fn item_is_visible(&self, answer: isize) -> (r: bool)
        ensures
            r == (answer == 1),
    {
        answer == 1
    }

    /// Whether the item exists, from the answer of the control to a read of it
    pub fn has_item(&self, answer: isize) -> (r: bool)
        ensures
            r == (answer == 1),
    {
        answer == 1
    }

    /// Whether the item was removed, from the answer of the control
    pub fn remove_item(&self, answer: isize) -> (r: bool)
        ensures
            r == (answer == 1),
    {
        answer == 1
    }

    /// The number of items, from the answer of the control
    pub fn len(&self, answer: isize) -> (r: usize)
        ensures
            r == answer as usize,
    {
        answer as usize
    }

    /// One step of counting the columns: the control is asked the width of the column
    /// `count`; a width of 0 means there is no such column and the count is done (`None`),
    /// any other width counts the column and asks for the next one.
    pub fn column_len_step(&self, count: usize, width: isize) -> (r: Option<usize>)
        requires
            count < usize::MAX,
        ensures
            r == if width != 0 { Some((count + 1) as usize) } else { None::<usize> },
    {
        if width != 0 { Some(count + 1) } else { None }
    }

    /// One step of listing the selected items: when the control found a next selected item
    /// (`found` not 0) its index is added and the search goes on; otherwise it stops.
    pub fn selected_items_step(&self, indices: &mut Vec<usize>, found: isize, item: i32) -> (more: bool)
        ensures
            more == (found != 0),
            final(indices)@ == if found != 0 { old(indices)@.push(item as usize) } else { old(indices)@ },
    {
        if found != 0 {
            indices.push(item as usize);
            true
        } else {
            false
        }
    }

    /// The count sent to reserve room for `n` items
    pub fn set_item_count(&self, n: u32) -> (r: usize)
        ensures
            r == n as usize,
    {
        n as usize
    }

    /// The value sent to turn the redrawing of the control on (1) or off (0)
    pub fn set_redraw(&self, enabled: bool) -> (r: usize)
        ensures
            r == if enabled { 1usize } else { 0usize },
    {
        if enabled { 1 } else { 0 }
    }

    pub fn builder() -> (b: ListViewBuilder)
        ensures
            b.size == (300i32, 300i32),
            b.position == (0i32, 0i32),
            b.background_color is None,
            b.text_color is None,
            !b.focus,
            b.flags is None,
            b.ex_flags is None,
            b.style == ListViewStyle::Simple,
            b.parent is None,
            b.item_count == 0,
    {
        ListViewBuilder {
            size: (300, 300),
            position: (0, 0),
            background_color: None,
            text_color: None,
            focus: false,
            flags: None,
            ex_flags: None,
            style: ListViewStyle::Simple,
            parent: None,
            item_count: 0,
        }
    }

    /// The packed color sent to set the text color
    pub fn set_text_color(&self, r: u8, g: u8, b: u8) -> (c: u32)
        ensures
            c == rgb_spec(r, g, b),
    {
        crate::color::rgb(r, g, b)
    }

    /// The text color from the packed color the control reports
    pub fn text_color(&self, col: u32) -> (c: [u8; 3])
        ensures
            c[0] == col % 256,
            c[1] == (col / 256) % 256,
            c[2] == (col / 65536) % 256,
    {
        rgb_to_color(col)
    }

    /// The packed color sent to set the background color
    pub fn set_background_color(&self, r: u8, g: u8, b: u8) -> (c: u32)
        ensures
            c == rgb_spec(r, g, b),
    {
        crate::color::rgb(r, g, b)
    }

    /// The background color from the packed color the control reports
    pub fn background_color(&self, col: u32) -> (c: [u8; 3])
        ensures
            c[0] == col % 256,
            c[1] == (col / 256) % 256,
            c[2] == (col / 65536) % 256,
    {
        rgb_to_color(col)
    }

    /// The request that inserts a column, for a list view in the style `style` that has
    /// `column_count` columns: only a detailed list view has columns. The text defaults to
    /// empty, the format to 0 (and is only sent when given), the width to 100 pixels, and
    /// the column goes at the end.
    pub fn insert_column(&self, insert: InsertListViewColumn, style: ListViewStyle, column_count: usize) -> (r: Option<ColumnRequest>)
        ensures
            r is Some <==> style == ListViewStyle::Detailed,
            r matches Some(c) ==> {
                &&& c.mask == LVCF_TEXT | LVCF_WIDTH | (if insert.fmt is Some { LVCF_FMT } else { 0 })
                &&& c.fmt == (match insert.fmt { Some(f) => f, None => 0 })
                &&& c.width == (match insert.width { Some(w) => w, None => 100 })
                &&& opt_str_view(c.text) == Some(match insert.text { Some(t) => t@, None => Seq::<char>::empty() })
                &&& c.index == (match insert.index { Some(i) => i, None => column_count as i32 }) as usize
            },
    {
        match style {
            ListViewStyle::Detailed => {},
            _ => { return None; },
        }
        let mut mask = LVCF_TEXT | LVCF_WIDTH;
        if insert.fmt.is_some() {
            mask = mask | LVCF_FMT;
        }
        assert(LVCF_TEXT | LVCF_WIDTH | 0 == LVCF_TEXT | LVCF_WIDTH) by (bit_vector);
        let text = match insert.text {
            Some(t) => t,
            None => String::new(),
        };
        let col_count = column_count as i32;
        let index = match insert.index {
            Some(i) => i,
            None => col_count,
        };
        Some(ColumnRequest {
            mask,
            fmt: match insert.fmt { Some(f) => f, None => 0 },
            width: match insert.width { Some(w) => w, None => 100 },
            text: Some(text),
            index: index as usize,
        })
    }

    /// The request that changes the column `index`, when the list view has such a column:
    /// only the fields given are sent
    pub fn update_column(&self, index: usize, column: InsertListViewColumn, has_column: bool) -> (r: Option<ColumnRequest>)
        ensures
            r is Some <==> has_column,
            r matches Some(c) ==> {
                &&& c.mask == (if column.text is Some { LVCF_TEXT } else { 0 })
                    | (if column.width is Some { LVCF_WIDTH } else { 0 })
                    | (if column.fmt is Some { LVCF_FMT } else { 0 })
                &&& c.fmt == (match column.fmt { Some(f) => f, None => 0 })
                &&& c.width == (match column.width { Some(w) => w, None => 0 })
                &&& opt_str_view(c.text) == opt_str_view(column.text)
                &&& c.index == index
            },
    {
        if !has_column {
            return None;
        }
        let mut mask: u32 = 0;
        if column.text.is_some() {
            mask = mask | LVCF_TEXT;
        }
        if column.width.is_some() {
            mask = mask | LVCF_WIDTH;
        }
        if column.fmt.is_some() {
            mask = mask | LVCF_FMT;
        }
        assert(0u32 | 0u32 == 0u32) by (bit_vector);
        assert(forall|a: u32| #![auto] 0u32 | a == a) by (bit_vector);
        assert(forall|a: u32| #![auto] a | 0u32 == a) by (bit_vector);
        Some(ColumnRequest {
            mask,
            fmt: match column.fmt { Some(f) => f, None => 0 },
            width: match column.width { Some(w) => w, None => 0 },
            text: column.text,
            index,
        })
    }

    /// The column read from the control, when `found`
    pub fn column(&self, found: bool, fmt: i32, width: i32, text: String) -> (r: Option<ListViewColumn>)
        ensures
            r is Some <==> found,
            r matches Some(c) ==> c.fmt == fmt && c.width == width && c.text@ == text@,
    {
        if found { Some(ListViewColumn { fmt, width, text }) } else { None }
    }

    /// The row an item description is inserted at
    pub fn insert_row(&self, insert: &InsertListViewItem) -> (r: i32)
        ensures
            r == insert_row_spec(*insert),
    {
        match insert.index {
            Some(r) => r,
            None => i32::MAX,
        }
    }

    /// The requests that insert an item; `row_has_item` tells whether the row it goes to
    /// already has an item. A sub item (column > 0) in an empty row first fills the row
    /// with an empty item; the first column is inserted, the others are set.
    pub fn insert_item(&self, insert: InsertListViewItem, row_has_item: bool) -> (r: InsertItemPlan)
        ensures
            ({
                let row = insert_row_spec(insert);
                &&& r.fill_row is Some <==> (insert.column_index > 0 && !row_has_item)
                &&& r.fill_row matches Some(f) ==> {
                    &&& f.mask == LVIF_TEXT
                    &&& f.row == row
                    &&& f.column == 0
                    &&& f.image == 0
                    &&& opt_str_view(f.text) == Some(Seq::<char>::empty())
                    &&& f.insert
                }
                &&& r.item.mask == LVIF_TEXT | (if insert.image is Some { LVIF_IMAGE } else { 0 })
                &&& r.item.row == row
                &&& r.item.column == insert.column_index
                &&& r.item.image == (match insert.image { Some(v) => v, None => 0 })
                &&& opt_str_view(r.item.text) == Some(match insert.text { Some(t) => t@, None => Seq::<char>::empty() })
                &&& r.item.insert == (insert.column_index == 0)
            }),
    {
        let row_insert = self.insert_row(&insert);
        let column_insert = insert.column_index;
        let fill_row = if column_insert > 0 && !row_has_item {
            assert(LVIF_TEXT | 0 == LVIF_TEXT) by (bit_vector);
            Some(ItemRequest { mask: LVIF_TEXT | 0, row: row_insert, column: 0, image: 0, text: Some(String::new()), insert: true })
        } else {
            None
        };
        let mask = LVIF_TEXT | check_image_mask(&insert);
        let image = check_image(&insert);
        let text = match insert.text {
            Some(t) => t,
            None => String::new(),
        };
        InsertItemPlan {
            fill_row,
            item: ItemRequest { mask, row: row_insert, column: column_insert, image, text: Some(text), insert: column_insert == 0 },
        }
    }

    /// The request that changes the item at `row_index`, when the row has an item:
    /// the image when given, the text when given
    pub fn update_item(&self, row_index: usize, data: InsertListViewItem, row_has_item: bool) -> (r: Option<ItemRequest>)
        ensures
            r is Some <==> row_has_item,
            r matches Some(i) ==> {
                &&& i.mask == (if data.image is Some { LVIF_IMAGE } else { 0 }) | (if data.text is Some { LVIF_TEXT } else { 0 })
                &&& i.row == row_index as i32
                &&& i.column == data.column_index
                &&& i.image == (match data.image { Some(v) => v, None => 0 })
                &&& opt_str_view(i.text) == opt_str_view(data.text)
                &&& !i.insert
            },
    {
        if !row_has_item {
            return None;
        }
        let mut mask = check_image_mask(&data);
        if data.text.is_some() {
            mask = mask | LVIF_TEXT;
        }
        assert(forall|a: u32| #![auto] a | 0u32 == a) by (bit_vector);
        let image = check_image(&data);
        Some(ItemRequest { mask, row: row_index as i32, column: data.column_index, image, text: data.text, insert: false })
    }

    /// The item read from the control at (`row_index`, `column_index`), when `found`
    pub fn item(&self, row_index: usize, column_index: usize, found: bool, state: u32, text: String, image: i32) -> (r: Option<ListViewItem>)
        ensures
            r is Some <==> found,
            r matches Some(i) ==> {
                &&& i.row_index == row_index as i32
                &&& i.column_index == column_index as i32
                &&& i.text@ == text@
                &&& i.selected == (state & LVIS_SELECTED == LVIS_SELECTED)
                &&& i.image == image
            },
    {
        if !found {
            return None;
        }
        Some(build_list_view_image(row_index, column_index, state, text, image))
    }

    /// The state sent to select or unselect an item
    pub fn select_item(&self, selected: bool) -> (r: u32)
        ensures
            r == if selected { LVIS_SELECTED } else { 0 },
    {
        if selected { LVIS_SELECTED } else { 0 }
    }

    /// The first selected item, from the control's answer `found` and the item it named
    pub fn selected_item(&self, found: isize, item: i32) -> (r: Option<usize>)
        ensures
            r == if found != 0 { Some(item as usize) } else { None::<usize> },
    {
        if found != 0 { Some(item as usize) } else { None }
    }

    /// The item descriptions that insert `insert` into one row: the given row, or a new
    /// row past the `len` items of the list view, one column each from the first.
    pub fn insert_items_row(&self, row_index: Option<i32>, len: usize, insert: &[InsertListViewItem]) -> (r: Vec<InsertListViewItem>)
        requires
            insert@.len() <= i32::MAX,
        ensures
            r@.len() == insert@.len(),
            forall|i: int| 0 <= i < r@.len() ==> {
                &&& (#[trigger] r@[i]).index == Some(match row_index { Some(x) => x, None => len as i32 })
                &&& r@[i].column_index == i
                &&& opt_str_view(r@[i].text) == opt_str_view(insert@[i].text)
                &&& r@[i].image == insert@[i].image
            },
    {
        let row = match row_index {
            Some(x) => Some(x),
            None => Some(len as i32),
        };
        let mut out: Vec<InsertListViewItem> = Vec::new();
        let mut column_index: i32 = 0;
        let mut i: usize = 0;
        while i < insert.len()
            invariant
                0 <= i <= insert@.len(),
                insert@.len() <= i32::MAX,
                column_index == i,
                out@.len() == i,
                row == Some(match row_index { Some(x) => x, None => len as i32 }),
                forall|k: int| 0 <= k < i ==> {
                    &&& (#[trigger] out@[k]).index == row
                    &&& out@[k].column_index == k
                    &&& opt_str_view(out@[k].text) == opt_str_view(insert@[k].text)
                    &&& out@[k].image == insert@[k].image
                },
            decreases insert@.len() - i,
        {
            let item = InsertListViewItem {
                index: row,
                column_index,
                text: clone_text(&insert[i].text),
                image: insert[i].image,
            };
            out.push(item);
            column_index = column_index + 1;
            i = i + 1;
        }
        out
    }

    /// The list view style of a control whose window style is `style`
    pub fn list_style(&self, style: u32) -> (r: ListViewStyle)
        ensures
            style_bits(r) == style & 0b11,
    {
        ListViewStyle::from_bits(style)
    }

    /// The window style of a control whose style is `old_style` once its list view style
    /// becomes `style`
    pub fn set_list_style(&self, old_style: u32, style: ListViewStyle) -> (r: u32)
        ensures
            r == (old_style & !0b11u32) | style_bits(style),
    {
        (old_style & !0b11u32) | style.bits()
    }

    /// The spacing value sent to set the icon spacing (`MAKELONG(dx, dy)`)
    pub fn set_icon_spacing(&self, dx: u16, dy: u16) -> (r: i32)
        ensures
            r == ((dx as u32) | ((dy as u32) << 16u32)) as i32,
    {
        ((dx as u32) | ((dy as u32) << 16u32)) as i32
    }

    /// Winapi class name used during control creation
    pub fn class_name(&self) -> (r: &'static str)
        ensures
            r@ == "SysListView32"@,
    {
        "SysListView32"
    }

    /// Winapi base flags used during window creation
    pub fn flags(&self) -> (r: u32)
        ensures
            r == WS_VISIBLE | WS_TABSTOP | LVS_SHOWSELALWAYS,
    {
        WS_VISIBLE | WS_TABSTOP | LVS_SHOWSELALWAYS
    }

    /// Winapi flags required by the control
    pub fn forced_flags(&self) -> (r: u32)
        ensures
            r == WS_CHILD | WS_BORDER | LVS_NOCOLUMNHEADER,
    {
        WS_CHILD | WS_BORDER | LVS_NOCOLUMNHEADER
    }
}

impl ListViewBuilder {
    pub fn parent(self, p: ControlHandle) -> (b: ListViewBuilder)
        ensures
            b == (ListViewBuilder { parent: Some(p), ..self }),
    {
        ListViewBuilder { parent: Some(p), ..self }
    }

    pub fn flags(self, flags: ListViewFlags) -> (b: ListViewBuilder)
        ensures
            b == (ListViewBuilder { flags: Some(flags), ..self }),
    {
        ListViewBuilder { flags: Some(flags), ..self }
    }

    pub fn ex_flags(self, flags: ListViewExFlags) -> (b: ListViewBuilder)
        ensures
            b == (ListViewBuilder { ex_flags: Some(flags), ..self }),
    {
        ListViewBuilder { ex_flags: Some(flags), ..self }
    }

    pub fn size(self, size: (i32, i32)) -> (b: ListViewBuilder)
        ensures
            b == (ListViewBuilder { size: size, ..self }),
    {
        ListViewBuilder { size: size, ..self }
    }

    pub fn position(self, position: (i32, i32)) -> (b: ListViewBuilder)
        ensures
            b == (ListViewBuilder { position: position, ..self }),
    {
        ListViewBuilder { position: position, ..self }
    }

    pub fn background_color(self, color: [u8; 3]) -> (b: ListViewBuilder)
        ensures
            b == (ListViewBuilder { background_color: Some(color), ..self }),
    {
        ListViewBuilder { background_color: Some(color), ..self }
    }

    pub fn text_color(self, color: [u8; 3]) -> (b: ListViewBuilder)
        ensures
            b == (ListViewBuilder { text_color: Some(color), ..self }),
    {
        ListViewBuilder { text_color: Some(color), ..self }
    }

    pub fn item_count(self, count: u32) -> (b: ListViewBuilder)
        ensures
            b == (ListViewBuilder { item_count: count, ..self }),
    {
        ListViewBuilder { item_count: count, ..self }
    }

    pub fn list_style(self, style: ListViewStyle) -> (b: ListViewBuilder)
        ensures
            b == (ListViewBuilder { style: style, ..self }),
    {
        ListViewBuilder { style: style, ..self }
    }

    pub fn focus(self, focus: bool) -> (b: ListViewBuilder)
        ensures
            b == (ListViewBuilder { focus: focus, ..self }),
    {
        ListViewBuilder { focus: focus, ..self }
    }

    /// The window to create for the list view: the chosen flags (or the default ones)
    /// with the bits of the list style added, an empty text; fails without a parent.
    pub fn build(&self, out: &ListView) -> (r: Result<ListViewSetup, NwgError>)
        ensures
            self.parent is None <==> r is Err,
            self.parent is None ==> (r matches Err(NwgError::NoParent(s)) && s@ == "ListView"@),
            r matches Ok(s) ==> {
                &&& opt_str_view(s.window.class_name) == Some("SysListView32"@)
                &&& s.window.forced_flags == WS_CHILD | WS_BORDER | LVS_NOCOLUMNHEADER
                &&& s.window.flags == Some((match self.flags {
                    Some(f) => f,
                    None => WS_VISIBLE | WS_TABSTOP | LVS_SHOWSELALWAYS,
                }) | style_bits(self.style))
                &&& s.window.ex_flags is None
                &&& s.window.size == Some(self.size)
                &&& s.window.pos == Some(self.position)
                &&& opt_str_view(s.window.text) == Some(Seq::<char>::empty())
                &&& s.window.parent == (match self.parent.unwrap() { ControlHandle::Hwnd(h) => Some(h), _ => None::<usize> })
                &&& s.item_count == if self.item_count > 0 { Some(self.item_count) } else { None::<u32> }
                &&& s.focus == self.focus
                &&& s.ex_flags == self.ex_flags
                &&& s.background == (match self.background_color { Some(c) => Some(rgb_spec(c[0], c[1], c[2])), None => None::<u32> })
                &&& s.text_color == (match self.text_color { Some(c) => Some(rgb_spec(c[0], c[1], c[2])), None => None::<u32> })
            },
    {
        let flags = resolve_flags(self.flags, out.flags()) | self.style.bits();
        let parent = match require_parent(self.parent, "ListView") {
            Ok(p) => p,
            Err(e) => { return Err(e); },
        };
        let b = ControlBase::build_hwnd()
            .class_name(Some(out.class_name()))
            .forced_flags(out.forced_flags())
            .flags(flags)
            .size(self.size)
            .position(self.position)
            .text("")
            .parent(Some(parent));
        proof {
            reveal_strlit("");
        }
        let background = match self.background_color {
            Some(c) => Some(out.set_background_color(c[0], c[1], c[2])),
            None => None,
        };
        let text_color = match self.text_color {
            Some(c) => Some(out.set_text_color(c[0], c[1], c[2])),
            None => None,
        };
        Ok(ListViewSetup {
            window: b,
            item_count: if self.item_count > 0 { Some(self.item_count) } else { None },
            focus: self.focus,
            ex_flags: self.ex_flags,
            background,
            text_color,
        })
    }
}

impl From<String> for InsertListViewItem {
    fn from(i: String) -> (r: InsertListViewItem) {
        InsertListViewItem { index: None, column_index: 0, text: Some(i), image: None }
    }
}

impl vstd::std_specs::convert::FromSpecImpl<String> for InsertListViewItem {
    open spec fn obeys_from_spec() -> bool {
        true
    }

    open spec fn from_spec(i: String) -> InsertListViewItem {
        InsertListViewItem { index: None, column_index: 0, text: Some(i), image: None }
    }
}

impl From<String> for InsertListViewColumn {
    fn from(i: String) -> (r: InsertListViewColumn) {
        InsertListViewColumn { index: None, fmt: None, width: Some(100), text: Some(i) }
    }
}

impl vstd::std_specs::convert::FromSpecImpl<String> for InsertListViewColumn {
    open spec fn obeys_from_spec() -> bool {
        true
    }

    open spec fn from_spec(i: String) -> InsertListViewColumn {
        InsertListViewColumn { index: None, fmt: None, width: Some(100), text: Some(i) }
    }
}

/// Reading back the style of a list view gives the style that was set, whatever its
/// other style bits, and setting a style keeps every other bit.
pub proof fn lemma_list_style_round_trip(old_style: u32, s: ListViewStyle)
    ensures
        ((old_style & !0b11u32) | style_bits(s)) & 0b11 == style_bits(s),
        forall|t: ListViewStyle| style_bits(t) == style_bits(s) ==> t == s,
        ((old_style & !0b11u32) | style_bits(s)) & !0b11u32 == old_style & !0b11u32,
{
    let b = style_bits(s);
    assert(b < 4);
    assert(b < 4 ==> ((old_style & !3u32) | b) & 3u32 == b) by (bit_vector);
    assert(b < 4 ==> ((old_style & !3u32) | b) & !3u32 == old_style & !3u32) by (bit_vector);
}

/// The handle of a control
impl<'a> From<&'a ListView> for ControlHandle {
    fn from(control: &'a ListView) -> (r: ControlHandle) {
        control.handle
    }
}

impl<'a> vstd::std_specs::convert::FromSpecImpl<&'a ListView> for ControlHandle {
    open spec fn obeys_from_spec() -> bool {
        true
    }

    open spec fn from_spec(control: &'a ListView) -> ControlHandle {
        control.handle
    }
}

} // verus!
