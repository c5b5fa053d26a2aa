use nwg_controls::text_box::{TextBox, text_len, append_text, appendln_text, last_line_scrolls};
use nwg_controls::rich_text_box::RichTextBox;
use nwg_controls::control_handle::ControlHandle;
use nwg_controls::error::NwgError;

#[test]
fn text_length_counts_crlf_once() {
    assert_eq!(text_len("a\r\nb"), 3);
    assert_eq!(text_len("a\nb"), 3);
    assert_eq!(text_len("a\rb"), 3);
    assert_eq!(text_len(""), 0);
    assert_eq!(text_len("é\r\n"), 2);
}

#[test]
fn set_text_converts_unix_newlines() {
    let tb = TextBox::default();
    assert_eq!(tb.set_text_unix2dos("a\nb"), "a\r\nb");
    assert_eq!(tb.set_text_unix2dos("a\r\nb"), "a\r\nb");
    assert_eq!(tb.set_text_unix2dos("\n\n"), "\r\n\r\n");
}

#[test]
fn append_converts_only_the_new_text() {
    assert_eq!(append_text("x\n", "y\nz"), "x\ny\r\nz");
    assert_eq!(appendln_text("x", "y"), "xy\r\n");
    let tb = TextBox::default();
    assert_eq!(tb.appendln("", "a\nb"), "a\r\nb\r\n");
}

#[test]
fn length_after_conversion_is_length_of_text() {
    let tb = TextBox::default();
    let v = "one\ntwo\nthree";
    assert_eq!(tb.len(&tb.set_text_unix2dos(v)), v.chars().count() as u32);
}

#[test]
fn scroll_to_last_line() {
    assert_eq!(last_line_scrolls(10), (-10, 8));
    let tb = TextBox::default();
    assert_eq!(tb.scroll_lastline(3), (-3, 1));
}

#[test]
fn text_box_build() {
    let mut tb = TextBox::default();
    let s = TextBox::builder().text("hi").limit(5).readonly(true).parent(ControlHandle::Hwnd(3)).build(&mut tb).unwrap();
    assert_eq!(s.window.text.as_deref(), Some("hi"));
    assert_eq!(s.limit, Some(5));
    assert!(s.readonly);
    match TextBox::builder().build(&mut tb) {
        Err(NwgError::NoParent(s)) => assert_eq!(s, "TextBox"),
        _ => panic!("a text box without parent must be refused"),
    }
    let mut rt = RichTextBox::default();
    let r = RichTextBox::builder().parent(ControlHandle::Hwnd(3)).build(&mut rt).unwrap();
    assert_eq!(r.window.class_name.as_deref(), Some("RICHEDIT50W"));
    assert_eq!(r.limit, None);
}
