use nwg_controls::combo_box::{ComboBox, CB_ERR, CBS_SORT};
use nwg_controls::list_box::{ListBox, ListBoxSelection, LB_ERR, MULTI_SELECT};
use nwg_controls::display_order::{sort_by_keys, bytes_le_exec};
use nwg_controls::control_handle::ControlHandle;
use nwg_controls::error::NwgError;
use nwg_controls::list_view::{ListView, ListViewStyle, InsertListViewColumn, InsertListViewItem, check_image, check_image_mask,
    LVCF_FMT, LVCF_TEXT, LVCF_WIDTH, LVIF_IMAGE, LVIF_TEXT, LVIS_SELECTED};
use nwg_controls::styles::{LVS_REPORT, LVS_LIST};

fn keys(items: &[&str]) -> Vec<Vec<u8>> {
    items.iter().map(|s| s.as_bytes().to_vec()).collect()
}

#[test]
fn byte_order_is_string_order() {
    let pairs = [("a", "b"), ("ab", "a"), ("", "a"), ("abc", "abd"), ("Z", "a"), ("same", "same")];
    for (x, y) in pairs.iter() {
        let expected = x <= y;
        assert_eq!(bytes_le_exec(&x.as_bytes().to_vec(), &y.as_bytes().to_vec()), expected, "{} <= {}", x, y);
    }
}

#[test]
fn sort_by_keys_orders_items_with_their_keys() {
    let items = vec![3u32, 1, 2, 4];
    let k = keys(&["pear", "apple", "fig", "apple"]);
    let (sorted, sorted_keys) = sort_by_keys(items, k);
    assert_eq!(sorted_keys, keys(&["apple", "apple", "fig", "pear"]));
    assert_eq!(sorted[2], 2);
    assert_eq!(sorted[3], 3);
    let mut firsts = vec![sorted[0], sorted[1]];
    firsts.sort();
    assert_eq!(firsts, vec![1, 4]);
}

#[test]
fn sort_by_keys_of_nothing() {
    let (sorted, sorted_keys) = sort_by_keys(Vec::<u8>::new(), Vec::new());
    assert!(sorted.is_empty());
    assert!(sorted_keys.is_empty());
}

#[test]
fn combo_box_sort_by_displayed_text() {
    let mut cb = ComboBox::new(ControlHandle::Hwnd(1), vec![30, 100, 4]);
    let shown = cb.sort(keys(&["30", "100", "4"]));
    assert_eq!(cb.collection(), &vec![100, 30, 4]);
    assert_eq!(shown, keys(&["100", "30", "4"]));
}

#[test]
fn combo_box_insert_at_max_pushes() {
    let mut cb: ComboBox<&str> = ComboBox::default();
    assert_eq!(cb.push("a", vec![], b"a".to_vec()), keys(&["a"]));
    assert_eq!(cb.insert(usize::MAX, "c"), usize::MAX);
    cb.insert(1, "b");
    assert_eq!(cb.collection(), &vec!["a", "b", "c"]);
    let old = cb.set_collection(vec!["x"]);
    assert_eq!(old, vec!["a", "b", "c"]);
    let back = cb.set_collection(old);
    assert_eq!(back, vec!["x"]);
    assert_eq!(cb.collection(), &vec!["a", "b", "c"]);
}

#[test]
fn combo_box_push_keeps_a_sorted_box_in_order() {
    let mut cb = ComboBox::with_style(ControlHandle::Hwnd(1), vec![1, 3], CBS_SORT);
    assert!(cb.sorted);
    let shown = cb.push(2, keys(&["1", "3"]), b"2".to_vec());
    assert_eq!(cb.collection(), &vec![1, 2, 3]);
    assert_eq!(shown, keys(&["1", "2", "3"]));
    let shown = cb.push(10, keys(&["1", "2", "3"]), b"10".to_vec());
    assert_eq!(cb.collection(), &vec![1, 10, 2, 3]);
    assert_eq!(shown, keys(&["1", "10", "2", "3"]));
    let mut plain = ComboBox::with_style(ControlHandle::Hwnd(1), vec![3], 0);
    assert!(!plain.sorted);
    plain.push(1, keys(&["3"]), b"1".to_vec());
    assert_eq!(plain.collection(), &vec![3, 1]);
}

#[test]
fn combo_box_push_sorts_an_unordered_sorted_box() {
    let mut cb = ComboBox::with_style(ControlHandle::Hwnd(1), vec![9, 1], CBS_SORT);
    let shown = cb.push(5, keys(&["9", "1"]), b"5".to_vec());
    assert_eq!(cb.collection(), &vec![1, 5, 9]);
    assert_eq!(shown, keys(&["1", "5", "9"]));
}

#[test]
fn combo_box_selection_answers() {
    let cb: ComboBox<u8> = ComboBox::default();
    assert_eq!(cb.selection(CB_ERR), None);
    assert_eq!(cb.selection(2), Some(2));
    assert_eq!(cb.set_selection(None), usize::MAX);
    assert_eq!(cb.set_selection(Some(4)), 4);
    assert_eq!(cb.selection_string(CB_ERR, String::from("x")), None);
    assert_eq!(cb.selection_string(0, String::from("x")), Some(String::from("x")));
    assert_eq!(cb.set_selection_string(CB_ERR), None);
    assert_eq!(cb.class_name(), Some("COMBOBOX"));
}

#[test]
fn list_box_collection_operations() {
    let mut lb: ListBox<u32> = ListBox::default();
    lb.push(1);
    lb.push(3);
    lb.insert(1, 2);
    lb.insert(usize::MAX, 4);
    assert_eq!(lb.collection, vec![1, 2, 3, 4]);
    assert_eq!(lb.remove(0), 1);
    assert_eq!(lb.collection, vec![2, 3, 4]);
    assert_eq!(lb.sync(), (3, 30));
    lb.clear();
    assert!(lb.collection.is_empty());
}

#[test]
fn list_box_selection_answers() {
    let lb: ListBox<u32> = ListBox::default();
    assert_eq!(lb.multi_selection_len(LB_ERR), 0);
    assert_eq!(lb.multi_selection_len(3), 3);
    assert!(lb.multi_selection(LB_ERR, &[1, 2]).is_empty());
    assert_eq!(lb.multi_selection(2, &[4, 9]), vec![4, 9]);
    assert!(lb.selected(1));
    assert!(!lb.selected(0));
    assert!(!lb.selected(LB_ERR));
    assert_eq!(lb.multi_select_range(2..5), (2, 5));
    assert_eq!(lb.multi_unselect_range(2..5), (5, 2));
    assert_eq!(lb.unselect_all(), (0, -1));
}

#[test]
fn list_box_build_selection_follows_flags() {
    let mut out: ListBox<u32> = ListBox::default();
    let single = ListBox::<u32>::builder()
        .selected_index(Some(2))
        .collection(vec![1, 2, 3])
        .parent(ControlHandle::Hwnd(1))
        .build(&mut out)
        .unwrap();
    assert!(matches!(single.selection, ListBoxSelection::Single(2)));
    assert_eq!(single.collection, Some(vec![1, 2, 3]));
    let multi = ListBox::<u32>::builder()
        .flags(MULTI_SELECT)
        .multi_selection(vec![0, 2])
        .enabled(false)
        .parent(ControlHandle::Hwnd(1))
        .build(&mut out)
        .unwrap();
    match multi.selection {
        ListBoxSelection::Multi(v) => assert_eq!(v, vec![0, 2]),
        _ => panic!("a multiple selection list box selects each index"),
    }
    assert!(multi.disable);
    match ListBox::<u32>::builder().build(&mut out) {
        Err(NwgError::NoParent(s)) => assert_eq!(s, "ListBox"),
        _ => panic!("a list box without parent must be refused"),
    }
}

#[test]
fn list_view_columns_only_in_detailed_style() {
    let lv = ListView::default();
    let col = InsertListViewColumn { index: None, fmt: None, width: None, text: Some(String::from("Name")) };
    assert!(lv.insert_column(col, ListViewStyle::Simple, 0).is_none());
    let col = InsertListViewColumn { index: None, fmt: Some(1), width: None, text: None };
    let req = lv.insert_column(col, ListViewStyle::Detailed, 3).unwrap();
    assert_eq!(req.mask, LVCF_TEXT | LVCF_WIDTH | LVCF_FMT);
    assert_eq!(req.width, 100);
    assert_eq!(req.index, 3);
    assert_eq!(req.text.as_deref(), Some(""));
    let upd = lv.update_column(1, InsertListViewColumn { index: None, fmt: None, width: Some(40), text: None }, true).unwrap();
    assert_eq!(upd.mask, LVCF_WIDTH);
    assert!(lv.update_column(1, InsertListViewColumn::default(), false).is_none());
}

#[test]
fn list_view_sub_item_fills_empty_row() {
    let lv = ListView::default();
    let item = InsertListViewItem { index: Some(2), column_index: 1, text: Some(String::from("x")), image: Some(3) };
    assert_eq!(check_image(&item), 3);
    assert_eq!(check_image_mask(&item), LVIF_IMAGE);
    let plan = lv.insert_item(item, false);
    let fill = plan.fill_row.unwrap();
    assert_eq!((fill.row, fill.column, fill.mask), (2, 0, LVIF_TEXT));
    assert!(fill.insert);
    assert_eq!(plan.item.mask, LVIF_TEXT | LVIF_IMAGE);
    assert!(!plan.item.insert);
    let first = InsertListViewItem { index: None, column_index: 0, text: None, image: None };
    let plan = lv.insert_item(first, false);
    assert!(plan.fill_row.is_none());
    assert_eq!(plan.item.row, i32::MAX);
    assert!(plan.item.insert);
}

#[test]
fn list_view_style_round_trip() {
    let lv = ListView::default();
    let s = lv.set_list_style(0x1000_0000 | LVS_LIST, ListViewStyle::Detailed);
    assert_eq!(s, 0x1000_0000 | LVS_REPORT);
    assert_eq!(lv.list_style(s), ListViewStyle::Detailed);
    assert_eq!(lv.select_item(true), LVIS_SELECTED);
    assert_eq!(lv.selected_item(0, 4), None);
    assert_eq!(lv.selected_item(1, 4), Some(4));
    let row = lv.insert_items_row(None, 5, &[InsertListViewItem::from(String::from("a")), InsertListViewItem::from(String::from("b"))]);
    assert_eq!(row.len(), 2);
    assert_eq!(row[1].index, Some(5));
    assert_eq!(row[1].column_index, 1);
}

#[test]
fn list_view_counting_steps() {
    let lv = ListView::default();
    let mut count = 0usize;
    let widths = [100isize, 50, 0, 70];
    let mut i = 0;
    while let Some(next) = lv.column_len_step(count, widths[i]) {
        count = next;
        i += 1;
    }
    assert_eq!(count, 2);
    let mut indices = Vec::new();
    assert!(lv.selected_items_step(&mut indices, 1, 4));
    assert!(lv.selected_items_step(&mut indices, 1, 7));
    assert!(!lv.selected_items_step(&mut indices, 0, 9));
    assert_eq!(indices, vec![4, 7]);
    assert!(lv.has_item(1));
    assert!(!lv.remove_item(0));
}
