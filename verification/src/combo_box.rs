//! Combo box: the collection of items behind the control, kept in step with what the
//! control displays, and the selection it reports.
use vstd::prelude::*;
use crate::control_handle::{ControlHandle, handle_eq};
use crate::display_order::{
    sort_by_keys, keys_sorted, keyed, keys_sorted_exec, upper_bound, bytes_le,
    lemma_insert_keeps_sorted, lemma_insert_to_multiset,
};
use crate::styles::{WS_VISIBLE, WS_CHILD, WS_BORDER};

verus! {

/// The answer of a combo box that has no such item or no selection
pub const CB_ERR: isize = -1;
/// The combo box shows a drop down list that cannot be edited
pub const CBS_DROPDOWNLIST: u32 = 0x0003;
/// The combo box keeps the text of its items in order
pub const CBS_SORT: u32 = 0x0100;

/// The index sent to clear the selection
pub open spec fn no_selection() -> usize {
    usize::MAX
}

/// A combo box: its handle, the collection of items it displays, and whether the control
/// was created with `CBS_SORT`
pub struct ComboBox<D> {
    pub handle: ControlHandle,
    pub collection: Vec<D>,
    pub sorted: bool,
}

impl<D> Default for ComboBox<D> {
    fn default() -> (r: ComboBox<D>)
        ensures
            r.handle == ControlHandle::NoHandle,
            r.items() == Seq::<D>::empty(),
            !r.sorted,
    {
        ComboBox { handle: ControlHandle::NoHandle, collection: Vec::new(), sorted: false }
    }
}

impl<D> PartialEq for ComboBox<D> {
    fn eq(&self, other: &Self) -> (r: bool) {
        self.handle == other.handle
    }
}

impl<D> vstd::std_specs::cmp::PartialEqSpecImpl for ComboBox<D> {
    open spec fn obeys_eq_spec() -> bool {
        true
    }

    open spec fn eq_spec(&self, other: &ComboBox<D>) -> bool {
        handle_eq(self.handle, other.handle)
    }
}

impl<D> ComboBox<D> {
    /// The items of the collection, in order
    pub open spec fn items(&self) -> Seq<D> {
        self.collection@
    }

    /// A combo box bound to `handle` that displays `collection`, created without `CBS_SORT`
    pub fn new(handle: ControlHandle, collection: Vec<D>) -> (r: ComboBox<D>)
        ensures
            r.handle == handle,
            r.items() == collection@,
            !r.sorted,
    {
        ComboBox { handle, collection, sorted: false }
    }

    /// A combo box bound to `handle` that displays `collection`, created with the window
    /// style `style`: it is sorted when the style holds `CBS_SORT`
    pub fn with_style(handle: ControlHandle, collection: Vec<D>, style: u32) -> (r: ComboBox<D>)
        ensures
            r.handle == handle,
            r.items() == collection@,
            r.sorted == (style & CBS_SORT != 0),
    {
        ComboBox { handle, collection, sorted: style & CBS_SORT != 0 }
    }

    /// Sort the collection by the displayed text of its items, given as `keys` (the text of
    /// each item, in the order of the collection). Returns the texts in their new order,
    /// which is the order in which the control displays them again.
    pub fn sort(&mut self, keys: Vec<Vec<u8>>) -> (r: Vec<Vec<u8>>)
        requires
            keys@.len() == old(self).items().len(),
        ensures
            final(self).handle == old(self).handle,
            final(self).sorted == old(self).sorted,
            final(self).items().len() == old(self).items().len(),
            r@.len() == old(self).items().len(),
            keys_sorted(r@),
            keyed(r@, final(self).items()).to_multiset() =~= keyed(keys@, old(self).items()).to_multiset(),
    {
        let mut col: Vec<D> = Vec::new();
        std::mem::swap(&mut col, &mut self.collection);
        let (sorted, sorted_keys) = sort_by_keys(col, keys);
        self.collection = sorted;
        sorted_keys
    }

    /// The value sent to show (1) or hide (0) the drop down
    pub fn dropdown(&self, v: bool) -> (r: usize)
        ensures
            r == if v { 1usize } else { 0usize },
    {
        if v { 1 } else { 0 }
    }

    /// The selected item, from the index the control reports: none on `CB_ERR`
    pub fn selection(&self, index: isize) -> (r: Option<usize>)
        ensures
            r == if index == CB_ERR { None::<usize> } else { Some(index as usize) },
    {
        if index == CB_ERR { None } else { Some(index as usize) }
    }

    /// The text of the selected item, from the index the control reports and the text it
    /// gave for that item: none on `CB_ERR`
    pub fn selection_string(&self, index: isize, text: String) -> (r: Option<String>)
        ensures
            r is Some <==> index != CB_ERR,
            r matches Some(t) ==> t@ == text@,
    {
        if index == CB_ERR { None } else { Some(text) }
    }

    /// The index sent to select an item: `usize::MAX` clears the selection
    pub fn set_selection(&self, index: Option<usize>) -> (r: usize)
        ensures
            r == (match index { Some(i) => i, None => no_selection() }),
    {
        match index {
            Some(i) => i,
            None => usize::MAX,
        }
    }

    /// The item selected by a search on its text, from the index the control reports:
    /// none when the search found nothing
    pub fn set_selection_string(&self, index: isize) -> (r: Option<usize>)
        ensures
            r == if index == CB_ERR { None::<usize> } else { Some(index as usize) },
    {
        if index == CB_ERR { None } else { Some(index as usize) }
    }

    /// Add an item to the collection, given the displayed text of each item (`keys`, in the
    /// order of the collection) and that of the new one (`key`). A combo box without
    /// `CBS_SORT` adds it at the end. A sorted one puts it after every item whose text comes
    /// before it or equals it and before the others, when the texts are in order; when they
    /// are not, it sorts the whole collection. Returns the texts in their new order.
    pub fn push(&mut self, item: D, keys: Vec<Vec<u8>>, key: Vec<u8>) -> (r: Vec<Vec<u8>>)
        requires
            keys@.len() == old(self).items().len(),
        ensures
            final(self).handle == old(self).handle,
            final(self).sorted == old(self).sorted,
            r@.len() == final(self).items().len(),
            final(self).items().len() == old(self).items().len() + 1,
            !old(self).sorted ==> final(self).items() == old(self).items().push(item)
                && r@ == keys@.push(key),
            old(self).sorted ==> keys_sorted(r@),
            old(self).sorted ==> keyed(r@, final(self).items()).to_multiset()
                =~= keyed(keys@.push(key), old(self).items().push(item)).to_multiset(),
            old(self).sorted && keys_sorted(keys@) ==> exists|p: int|
                0 <= p <= old(self).items().len()
                && final(self).items() == old(self).items().insert(p, item)
                && r@ == keys@.insert(p, key)
                && (forall|q: int| 0 <= q < p ==> bytes_le(#[trigger] keys@[q]@, key@))
                && (forall|q: int| p <= q < keys@.len() ==> bytes_le(key@, #[trigger] keys@[q]@)),
    {
        let mut keys = keys;
        if !self.sorted {
            self.collection.push(item);
            keys.push(key);
            return keys;
        }
        if keys_sorted_exec(&keys) {
            let ghost old_items = self.collection@;
            let ghost old_keys = keys@;
            let p = upper_bound(&keys, &key);
            self.collection.insert(p, item);
            keys.insert(p, key);
            proof {
                lemma_insert_keeps_sorted(old_keys, p as int, key);
                let pair = (key@, item);
                assert(keyed(keys@, self.collection@) =~= keyed(old_keys, old_items).insert(p as int, pair));
                assert(keyed(old_keys.push(key), old_items.push(item)) =~= keyed(old_keys, old_items).push(pair));
                lemma_insert_to_multiset(keyed(old_keys, old_items), p as int, pair);
                let before = keyed(old_keys, old_items);
                assert(before.insert(before.len() as int, pair) =~= before.push(pair));
                lemma_insert_to_multiset(before, before.len() as int, pair);
            }
            keys
        } else {
            let mut col: Vec<D> = Vec::new();
            std::mem::swap(&mut col, &mut self.collection);
            col.push(item);
            keys.push(key);
            let (sorted, sorted_keys) = sort_by_keys(col, keys);
            self.collection = sorted;
            sorted_keys
        }
    }

    /// Insert an item in the collection at `index`; `usize::MAX` adds it at the end.
    /// Returns the index sent to the control.
    pub fn insert(&mut self, index: usize, item: D) -> (r: usize)
        requires
            index == usize::MAX || index <= old(self).items().len(),
        ensures
            final(self).handle == old(self).handle,
            final(self).sorted == old(self).sorted,
            final(self).items() == if index == usize::MAX {
                old(self).items().push(item)
            } else {
                old(self).items().insert(index as int, item)
            },
            r == index,
    {
        if index == usize::MAX {
            self.collection.push(item);
        } else {
            self.collection.insert(index, item);
        }
        index
    }

    /// Set the collection of the combo box. Return the old collection
    pub fn set_collection(&mut self, mut col: Vec<D>) -> (r: Vec<D>)
        ensures
            final(self).handle == old(self).handle,
            final(self).sorted == old(self).sorted,
            final(self).items() == col@,
            r@ == old(self).items(),
    {
        std::mem::swap(&mut self.collection, &mut col);
        col
    }

    /// Read access to the collection
    pub fn collection(&self) -> (r: &Vec<D>)
        ensures
            r@ == self.items(),
    {
        &self.collection
    }

    /// Winapi class name used during control creation
    pub fn class_name(&self) -> (r: Option<&'static str>)
        ensures
            r matches Some(s) && s@ == "COMBOBOX"@,
    {
        Some("COMBOBOX")
    }

    /// Winapi base flags used during window creation, and base extended flags
    pub fn flags(&self) -> (r: (u32, u32))
        ensures
            r == (WS_VISIBLE, 0u32),
    {
        (WS_VISIBLE, 0)
    }

    /// Winapi flags required by the control
    pub fn forced_flags(&self) -> (r: u32)
        ensures
            r == CBS_DROPDOWNLIST | WS_CHILD | WS_BORDER,
    {
        CBS_DROPDOWNLIST | WS_CHILD | WS_BORDER
    }
}

/// The handle of a control
impl<'a, D> From<&'a ComboBox<D>> for ControlHandle {
    fn from(control: &'a ComboBox<D>) -> (r: ControlHandle) {
        control.handle
    }
}

impl<'a, D> vstd::std_specs::convert::FromSpecImpl<&'a ComboBox<D>> for ControlHandle {
    open spec fn obeys_from_spec() -> bool {
        true
    }

    open spec fn from_spec(control: &'a ComboBox<D>) -> ControlHandle {
        control.handle
    }
}

} // verus!
