use nwg_controls::control_handle::{ControlHandle, DestroyRequest};
use nwg_controls::error::{NwgError, SystemError};
use nwg_controls::control_base::bind_created;
use nwg_controls::styles::{WS_VISIBLE, WS_TABSTOP, WS_CHILD, WS_BORDER, WS_CAPTION, WS_SYSMENU, BS_AUTO3STATE,
    BS_AUTOCHECKBOX, BS_NOTIFY, SS_CENTER, SS_NOPREFIX, SS_NOTIFY};
use nwg_controls::check_box::{CheckBox, CheckBoxState};
use nwg_controls::radio_button::{RadioButton, RadioButtonState};
use nwg_controls::label::{Label, Rect, VTextAlign, HTextAlign, LabelBackground, label_nc_rect, label_line_count,
    label_client_height, label_background, label_measure, non_client_action, NonClientAction, WM_NCCALCSIZE, WM_NCPAINT};
use nwg_controls::color::{rgb, rgb_to_color, get_r_value, get_g_value, get_b_value, background_brush_reply, WM_CTLCOLORSTATIC};
use nwg_controls::number_select::{NumberSelect, number_select_layout};
use nwg_controls::extern_canvas::ExternCanvas;
use nwg_controls::text_input::{TextInput, ES_RIGHT};
use nwg_controls::tooltip::{Tooltip, TooltipIcon, TooltipDecoration};
use nwg_controls::image_frame::{ImageFrame, WS_EX_TRANSPARENT};
use nwg_controls::image_button::ImageButton;
use nwg_controls::frame::Frame;
use nwg_controls::tabs::{WS_EX_CONTROLPARENT, tabs_layout, next_tab_number, tab_init_placement, Tab};
use nwg_controls::scroll_bar::{ScrollInfo, scroll_pos, scroll_message, wheel_message, WM_MOUSEWHEEL, SB_LINEDOWN, SB_LINEUP, SB_PAGEDOWN, SB_TOP,
    SB_BOTTOM, WM_VSCROLL, WM_HSCROLL};
use nwg_controls::progress_bar::{ProgressBar, ProgressBarState};
use nwg_controls::date_picker::{DatePicker, DatePickerValue, SystemTime, GDT_VALID, GDT_NONE};
use nwg_controls::canvas::{CanvasDraw, CanvasError, StrokeStyle, StrokeStyleProperties, CapStyle, LineJoin, DashStyle,
    ExtendMode, Gamma, D2DERR_RECREATE_TARGET, D2DERR_WRONG_FACTORY, Canvas};
use nwg_controls::tray_notification::{TrayNotification, fixed_text, NIF_ICON, NIF_INFO, NIF_MESSAGE, NIF_TIP,
    NIF_SHOWTIP, NIF_STATE, NIS_HIDDEN, WARNING_ICON};
use nwg_controls::status_bar::StatusBar;
use nwg_controls::track_bar::TrackBar;
use nwg_controls::write_text::{WriteFactory, WriteTextFormat, WriteTextFormatBuilder, WriteError};
use nwg_controls::fancy_window::FancyWindow;
use nwg_controls::rich_label::RichLabel;
use nwg_controls::tab_nav::{TabNavigation, WM_KEYDOWN, VK_TAB};
use nwg_controls::message_window::MessageWindow;

#[test]
fn handles_compare_by_kind_and_object() {
    assert!(ControlHandle::Hwnd(1) == ControlHandle::Hwnd(1));
    assert!(ControlHandle::Hwnd(1) != ControlHandle::Hwnd(2));
    assert!(ControlHandle::Menu(1, 5) == ControlHandle::Menu(2, 5));
    assert!(ControlHandle::MenuItem(1, 7) == ControlHandle::MenuItem(9, 7));
    assert!(ControlHandle::Timer(1, 7) != ControlHandle::Timer(2, 7));
    assert!(ControlHandle::NoHandle == ControlHandle::NoHandle);
    assert!(ControlHandle::NoHandle != ControlHandle::Hwnd(0));
    assert!(ControlHandle::Hwnd(3) != ControlHandle::SystemTray(3));
}

#[test]
fn destroy_releases_once() {
    let mut h = ControlHandle::Menu(4, 6);
    assert_eq!(h.destroy(), DestroyRequest::Menu(6));
    assert!(h.blank());
    assert_eq!(h.destroy(), DestroyRequest::Nothing);
    let mut w = ControlHandle::Hwnd(10);
    assert_eq!(w.destroy(), DestroyRequest::Window(10));
    let mut item = ControlHandle::MenuItem(4, 2);
    assert_eq!(item.destroy(), DestroyRequest::MenuItem(4, 2));
    let mut t = ControlHandle::Timer(4, 2);
    assert_eq!(t.destroy(), DestroyRequest::Nothing);
}

#[test]
fn handle_accessors() {
    assert_eq!(ControlHandle::Hwnd(5).hwnd(), Some(5));
    assert_eq!(ControlHandle::Menu(1, 2).hwnd(), None);
    assert_eq!(ControlHandle::Menu(1, 2).hmenu(), Some((1, 2)));
    assert_eq!(ControlHandle::MenuItem(1, 2).hmenu_item(), Some((1, 2)));
    assert_eq!(ControlHandle::Timer(3, 4).timer(), Some((3, 4)));
    assert_eq!(ControlHandle::Notice(3, 4).notice(), Some((3, 4)));
    assert_eq!(ControlHandle::SystemTray(8).tray(), Some(8));
    let cb = CheckBox { handle: ControlHandle::Hwnd(77) };
    assert!(ControlHandle::from(&cb) == ControlHandle::Hwnd(77));
}

#[test]
fn rgb_packs_low_byte_first() {
    assert_eq!(rgb(1, 2, 3), 0x030201);
    assert_eq!(rgb(255, 0, 0), 0xFF);
    assert_eq!(rgb_to_color(0x00A0B0C0), [0xC0, 0xB0, 0xA0]);
    let c = rgb(12, 34, 56);
    assert_eq!((get_r_value(c), get_g_value(c), get_b_value(c)), (12, 34, 56));
}

#[test]
fn background_brush_answers_only_its_control() {
    assert_eq!(background_brush_reply(WM_CTLCOLORSTATIC, 5, 5, 99), Some(99));
    assert_eq!(background_brush_reply(WM_CTLCOLORSTATIC, 6, 5, 99), None);
    assert_eq!(background_brush_reply(0x0133, 5, 5, 99), None);
}

#[test]
fn check_box_build_makes_two_state_box_unless_tristate() {
    let mut out = CheckBox::default();
    let setup = CheckBox::builder().parent(ControlHandle::Hwnd(1)).build(&mut out).unwrap();
    assert_eq!(setup.window.flags, Some(WS_VISIBLE | WS_TABSTOP | BS_AUTOCHECKBOX));
    assert_eq!(setup.window.forced_flags, BS_NOTIFY | WS_CHILD);
    assert_eq!(setup.window.class_name.as_deref(), Some("BUTTON"));
    assert_eq!(setup.window.text.as_deref(), Some("A checkbox"));
    assert_eq!(setup.window.parent, Some(1));
    assert_eq!(setup.check_state, 0);
    let tri = CheckBox::builder()
        .flags(WS_VISIBLE | BS_AUTO3STATE)
        .check_state(CheckBoxState::Indeterminate)
        .background_color(Some([1, 2, 3]))
        .parent(ControlHandle::Hwnd(1))
        .build(&mut out)
        .unwrap();
    assert_eq!(tri.window.flags, Some(WS_VISIBLE | BS_AUTO3STATE));
    assert_eq!(tri.check_state, 2);
    assert_eq!(tri.background, Some(0x030201));
    match CheckBox::builder().build(&mut out) {
        Err(NwgError::NoParent(s)) => assert_eq!(s, "CheckBox"),
        _ => panic!("a check box without parent must be refused"),
    }
}

#[test]
fn check_box_states_round_trip() {
    let cb = CheckBox::default();
    for s in [CheckBoxState::Checked, CheckBoxState::Unchecked, CheckBoxState::Indeterminate] {
        assert_eq!(cb.check_state(cb.set_check_state(s)), s);
    }
    assert!(cb.tristate(WS_VISIBLE | BS_AUTO3STATE));
    assert!(!cb.tristate(WS_VISIBLE | BS_AUTOCHECKBOX));
    let rb = RadioButton::default();
    for s in [RadioButtonState::Checked, RadioButtonState::Unchecked] {
        assert_eq!(rb.check_state(rb.set_check_state(s)), s);
    }
}

#[test]
fn label_centers_its_text() {
    let rect = Rect { left: 0, top: 0, right: 100, bottom: 40 };
    let r = label_nc_rect(rect, 40, 16, VTextAlign::Center);
    assert_eq!((r.top, r.bottom), (11, 29));
    let r = label_nc_rect(rect, 40, 16, VTextAlign::Top);
    assert_eq!((r.top, r.bottom), (0, 16));
    let r = label_nc_rect(rect, 40, 16, VTextAlign::Bottom);
    assert_eq!((r.top, r.bottom), (24, 40));
    assert_eq!((r.left, r.right), (0, 100));
}

#[test]
fn label_counts_lines_and_height() {
    let text: Vec<u16> = "a\nb\nc".encode_utf16().collect();
    assert_eq!(label_line_count(&text), 3);
    assert_eq!(label_line_count(&[]), 1);
    assert_eq!(label_client_height(16, 3), 48);
    assert!(matches!(label_background(None), LabelBackground::System(5)));
    assert!(matches!(label_background(Some([1, 0, 0])), LabelBackground::Solid(1)));
}

#[test]
fn label_build_adds_alignment_style() {
    let mut out = Label::default();
    let s = Label::builder().h_align(HTextAlign::Center).parent(ControlHandle::Hwnd(2)).build(&mut out).unwrap();
    assert_eq!(s.window.flags, Some(WS_VISIBLE | SS_NOPREFIX | SS_CENTER));
    assert_eq!(s.window.forced_flags, WS_CHILD | SS_NOTIFY);
    assert_eq!(s.v_align, VTextAlign::Center);
}

#[test]
fn number_select_layout_of_default_size() {
    let l = number_select_layout((100, 25));
    assert_eq!(l.edit_size, (81, 25));
    assert_eq!(l.up_size, (20, 13));
    assert_eq!(l.up_position, (80, -1));
    assert_eq!(l.down_size, (20, 13));
    assert_eq!(l.down_position, (80, 11));
    let out = NumberSelect::default();
    match NumberSelect::builder().build(&out) {
        Err(NwgError::NoParent(s)) => assert_eq!(s, "NumberSelect"),
        _ => panic!("a number select without parent must be refused"),
    }
}

#[test]
fn extern_canvas_with_parent_is_a_child() {
    let mut out = ExternCanvas::default();
    let top = ExternCanvas::builder().build(&mut out);
    assert_eq!(top.window.flags, Some(0x00CF0000 | WS_VISIBLE));
    assert_eq!(top.window.text.as_deref(), Some("New Canvas"));
    let child = ExternCanvas::builder().parent(Some(ControlHandle::Hwnd(3))).build(&mut out);
    let f = child.window.flags.unwrap();
    assert_eq!(f & WS_CHILD, WS_CHILD);
    assert_eq!(f & (WS_CAPTION | WS_SYSMENU), 0);
    assert_eq!(f & WS_VISIBLE, WS_VISIBLE);
    assert_eq!(child.window.parent, Some(3));
    let bound = ExternCanvas { handle: ControlHandle::Hwnd(21) };
    assert_eq!(bound.raw_window_handle(400), (21, 400));
    assert_eq!(out.raw_window_handle(400), (0, 0));
}

#[test]
fn text_input_right_alignment_drops_scrolling() {
    let mut out = TextInput::default();
    let s = TextInput::builder()
        .align(HTextAlign::Right)
        .flags(WS_VISIBLE | 0x0080)
        .limit(12)
        .parent(ControlHandle::Hwnd(1))
        .build(&mut out)
        .unwrap();
    assert_eq!(s.window.flags, Some(WS_VISIBLE | ES_RIGHT));
    assert_eq!(s.limit, Some(12));
    let d = TextInput::builder().parent(ControlHandle::Hwnd(1)).build(&mut out).unwrap();
    assert_eq!(d.limit, None);
    assert_eq!(d.window.text.as_deref(), Some(""));
}

#[test]
fn text_input_password_char_from_raw_value() {
    let t = TextInput::default();
    assert_eq!(t.password_char(0), None);
    assert_eq!(t.password_char(0x2A), Some('*'));
    assert_eq!(t.password_char(0xD800), None);
    assert_eq!(t.set_password_char(Some('*')), 0x2A);
    assert_eq!(t.set_password_char(None), 0);
}

#[test]
fn tooltip_decoration_prefers_given_icon() {
    let mut tt = Tooltip::default();
    let plain = Tooltip::builder().build(&mut tt);
    assert!(plain.decoration.is_none());
    assert!(plain.window.parent.is_none());
    let titled = Tooltip::builder().default_decoration(Some("Hi"), None).build(&mut tt);
    match titled.decoration {
        Some(TooltipDecoration::Standard(t, TooltipIcon::NoIcon)) => assert_eq!(t, "Hi"),
        _ => panic!("a title alone shows no icon"),
    }
    let icon = Tooltip::builder().decoration(None, Some(12)).default_decoration(None, Some(TooltipIcon::Error)).build(&mut tt);
    match icon.decoration {
        Some(TooltipDecoration::Icon(t, 12)) => assert_eq!(t, ""),
        _ => panic!("an icon of its own wins"),
    }
    assert_eq!(tt.set_default_decoration(TooltipIcon::ErrorLarge), 6);
    assert_eq!(tt.set_delay_time(None), (3, 65535));
    let reg = Tooltip::builder().register(ControlHandle::Hwnd(1), "one").register_callback(ControlHandle::Hwnd(2)).build(&mut tt);
    assert_eq!(reg.register.len(), 1);
    assert_eq!(reg.register_cb.len(), 1);
}

#[test]
fn image_frame_and_button_build() {
    let f = ImageFrame::default();
    let s = ImageFrame::builder().image(Some(5)).background_color(Some([0, 0, 1])).parent(ControlHandle::Hwnd(1)).build(&f).unwrap();
    assert_eq!(s.window.ex_flags, Some(WS_EX_TRANSPARENT));
    assert_eq!(s.image, Some(5));
    assert_eq!(s.background, Some(0x010000));
    assert_eq!(f.image(0), None);
    assert_eq!(f.set_image(None), (0, 0));
    let b = ImageButton::default();
    assert!(matches!(ImageButton::builder().build(&b), Err(SystemError::ControlWithoutParent)));
    assert_eq!(b.image(50, 3), Some(50));
    assert_eq!(b.image(50, 0), None);
}

#[test]
fn frame_holds_controls() {
    let mut f = Frame::default();
    let s = Frame::builder().ex_flags(0x8).parent(ControlHandle::Hwnd(1)).build(&mut f).unwrap();
    assert_eq!(s.window.ex_flags, Some(WS_EX_CONTROLPARENT | 0x8));
    assert_eq!(s.window.flags, Some(WS_VISIBLE | WS_BORDER));
    assert!(s.enabled);
}

#[test]
fn tabs_layout_and_numbers() {
    let l = tabs_layout(300, 300, 14);
    assert_eq!((l.width, l.height, l.tab_offset_y), (289, 264, 25));
    let small = tabs_layout(5, 20, 14);
    assert_eq!((small.width, small.height), (5, 20));
    assert_eq!(next_tab_number(&[]), 0);
    assert_eq!(next_tab_number(&[1, 5, 3]), 6);
    let p = tab_init_placement(300, 300, 1);
    assert_eq!((p.width, p.height, p.x, p.y, p.show), (289, 267, 5, 25, true));
    let mut tab = Tab::default();
    let cls = String::from("SysTabControl32");
    assert!(Tab::builder().parent(ControlHandle::Hwnd(1)).build(&mut tab, &cls).0.is_ok());
    let other = String::from("BUTTON");
    match Tab::builder().parent(ControlHandle::Hwnd(1)).build(&mut tab, &other).0 {
        Err(NwgError::ControlCreationError(s)) => assert_eq!(s, "Tab requires a TabsContainer parent."),
        _ => panic!("a tab needs a tabs container"),
    }
}

#[test]
fn scroll_bar_positions() {
    let si = ScrollInfo { min: 0, max: 100, page: 10, pos: 50, track_pos: 70 };
    assert_eq!(scroll_pos(si, SB_LINEDOWN, true), 51);
    assert_eq!(scroll_pos(si, SB_LINEUP, true), 49);
    assert_eq!(scroll_pos(si, SB_PAGEDOWN, true), 60);
    assert_eq!(scroll_pos(si, SB_TOP, true), 0);
    assert_eq!(scroll_pos(si, SB_BOTTOM, true), 100);
    assert_eq!(scroll_pos(si, SB_BOTTOM, false), 50);
    assert_eq!(scroll_message(WM_VSCROLL, 5, 9, 9, si), (Some(70), None));
    assert_eq!(scroll_message(WM_HSCROLL, 1, 8, 9, si), (None, None));
    assert_eq!(wheel_message(WM_MOUSEWHEEL, 120 << 16, si), (Some(si.pos - 1), Some(0)));
    assert_eq!(wheel_message(WM_MOUSEWHEEL, 0xFF88 << 16, si), (Some(si.pos + 1), Some(0)));
    assert_eq!(wheel_message(WM_VSCROLL, 120 << 16, si), (None, None));
}

#[test]
fn progress_bar_state_round_trip() {
    let pb = ProgressBar::default();
    for s in [ProgressBarState::Normal, ProgressBarState::Error, ProgressBarState::Paused] {
        assert_eq!(pb.state(pb.set_state(s)), s);
    }
    assert_eq!(pb.remove_flags(pb.add_flags(0x10000000, 0x8), 0x8), 0x10000000);
}

#[test]
fn date_picker_values() {
    let dp = DatePicker::default();
    let v = DatePickerValue { year: 2000, month: 10, day: 5 };
    let (code, st) = dp.set_value(Some(v));
    assert_eq!(code, GDT_VALID);
    let st = st.unwrap();
    assert_eq!((st.year, st.month, st.day, st.hour), (2000, 10, 5, 0));
    assert_eq!(dp.value(GDT_VALID, st), Some(v));
    assert_eq!(dp.value(GDT_NONE, st), None);
    assert_eq!(dp.set_value(None), (GDT_NONE, None));
    let zero = SystemTime { year: 0, month: 0, day_of_week: 0, day: 0, hour: 0, minute: 0, second: 0, milliseconds: 0 };
    let r = dp.range([st, zero]);
    assert_eq!(r[0], v);
    assert_eq!(dp.set_range(&[v, v]).0, 3);
    assert!(dp.checked(0x10));
    assert!(!dp.checked(0));
}

#[test]
fn date_picker_build_keeps_settings() {
    let mut dp = DatePicker::default();
    let v = DatePickerValue { year: 2012, month: 1, day: 2 };
    let s = DatePicker::builder()
        .date(Some(v))
        .format(Some("'YEAR: 'yyyy"))
        .range(Some([v, v]))
        .parent(ControlHandle::Hwnd(3))
        .build(&mut dp)
        .unwrap();
    assert_eq!(s.date, Some(v));
    assert_eq!(s.format.as_deref(), Some("'YEAR: 'yyyy"));
    assert_eq!(s.window.forced_flags, WS_CHILD | 0x0002);
    match DatePicker::builder().build(&mut dp) {
        Err(NwgError::NoParent(s)) => assert_eq!(s, "DatePicker"),
        _ => panic!("a date picker without parent must be refused"),
    }
}

#[test]
fn canvas_end_draw_codes() {
    assert_eq!(CanvasDraw::new(1).end_draw(0), Ok(()));
    assert_eq!(CanvasDraw::new(1).end_draw(D2DERR_RECREATE_TARGET), Err(CanvasError::RecreateTarget));
    assert_eq!(CanvasDraw::new(1).end_draw(0x88990012u32 as i32), Err(CanvasError::WrongFactory));
    assert_eq!(D2DERR_WRONG_FACTORY, 0x88990012u32 as i32);
    assert_eq!(CanvasDraw::new(1).end_draw(-5), Err(CanvasError::Other(-5)));
    let c = Canvas { handle: ControlHandle::Hwnd(2), renderer: 44 };
    assert_eq!(c.begin_draw().render_target, 44);
    assert!(matches!(Canvas::builder().build(&c), Err(SystemError::ControlWithoutParent)));
}

#[test]
fn stroke_style_sends_each_cap_by_its_own_property() {
    let prop = StrokeStyleProperties {
        start_cap: CapStyle::Round,
        end_cap: CapStyle::Square,
        dash_cap: CapStyle::Triangle,
        line_join: LineJoin::Bevel,
        dash_style: DashStyle::DashDotDot,
    };
    let codes = StrokeStyle::new(&prop);
    assert_eq!((codes.start_cap, codes.end_cap, codes.dash_cap), (2, 1, 3));
    assert_eq!(codes.line_join, 1);
    assert_eq!(codes.dash_style, 4);
    let p = StrokeStyle::from_style(DashStyle::Dot);
    assert_eq!(StrokeStyle::new(&p).dash_style, 2);
    assert_eq!(ExtendMode::from_code(ExtendMode::Mirror.code()), ExtendMode::Mirror);
    assert_eq!(ExtendMode::from_code(9), ExtendMode::Clamp);
    assert_eq!(Gamma::from_code(1), Gamma::_1_0);
}

#[test]
fn tray_text_is_cut_to_its_buffer() {
    let long: Vec<u16> = vec![65; 200];
    let tip = fixed_text(&long, 128, 127);
    assert_eq!(tip.len(), 128);
    assert_eq!(tip[126], 65);
    assert_eq!(tip[127], 0);
    let short: Vec<u16> = vec![66, 67];
    let buf = fixed_text(&short, 8, 7);
    assert_eq!(buf, vec![66, 67, 0, 0, 0, 0, 0, 0]);
}

#[test]
fn tray_notification_build_flags() {
    let tip: Vec<u16> = vec![72, 105, 0];
    let info: Vec<u16> = vec![73, 0];
    let mut tray_icon = TrayNotification { handle: ControlHandle::NoHandle };
    let data = TrayNotification::builder()
        .parent(ControlHandle::Hwnd(5))
        .icon(Some(9))
        .tip(Some(&tip))
        .info(Some(&info))
        .flags(WARNING_ICON)
        .visible(false)
        .build(&mut tray_icon)
        .unwrap();
    assert_eq!(tray_icon.handle, ControlHandle::SystemTray(5));
    assert_eq!(data.flags, NIF_ICON | NIF_INFO | NIF_TIP | NIF_SHOWTIP | NIF_MESSAGE | NIF_STATE);
    assert_eq!(data.info_flags, WARNING_ICON);
    assert_eq!((data.state, data.state_mask), (NIS_HIDDEN, NIS_HIDDEN));
    assert_eq!(data.icon, 9);
    assert_eq!(&data.tip[0..3], &[72, 105, 0]);
    let mut unbound = TrayNotification { handle: ControlHandle::NoHandle };
    match TrayNotification::builder().icon(Some(1)).build(&mut unbound) {
        Err(NwgError::NoParent(s)) => assert_eq!(s, "Button"),
        _ => panic!("a tray icon without parent must be refused"),
    }
    assert_eq!(unbound.handle, ControlHandle::NoHandle);
    let tray = TrayNotification { handle: ControlHandle::SystemTray(5) };
    let hide = tray.set_visibility(false);
    assert_eq!((hide.flags, hide.state), (NIF_STATE, NIS_HIDDEN));
    let show = tray.show(&info, None, None, None);
    assert_eq!(show.info_flags, 0x10);
}

#[test]
fn tray_title_is_cut_to_63_units() {
    let title: Vec<u16> = vec![84; 70];
    let text: Vec<u16> = vec![73];
    let tray = TrayNotification { handle: ControlHandle::SystemTray(5) };
    let shown = tray.show(&text, Some(&title), None, None);
    assert_eq!(shown.info_title.len(), 64);
    assert_eq!(shown.info_title[62], 84);
    assert_eq!(shown.info_title[63], 0);
    let exact: Vec<u16> = vec![85; 64];
    let mut out = TrayNotification { handle: ControlHandle::NoHandle };
    let data = TrayNotification::builder()
        .parent(ControlHandle::Hwnd(3))
        .icon(Some(1))
        .info(Some(&text))
        .info_title(Some(&exact))
        .build(&mut out)
        .unwrap();
    assert_eq!(data.info_title[62], 85);
    assert_eq!(data.info_title[63], 0);
    assert_eq!(out.handle, ControlHandle::SystemTray(3));
}

#[test]
fn status_bar_and_track_bar() {
    let mut sb = StatusBar::default();
    let s = StatusBar::builder().text("ready").parent(ControlHandle::Hwnd(1)).build(&mut sb).unwrap();
    assert_eq!(s.text, "ready");
    assert_eq!(sb.text_buffer_len(0x0005_0007), 8);
    assert!(sb.parent_resize_forwards(0x0005));
    let mut tb = TrackBar::default();
    let t = TrackBar::builder().range(Some(0..100)).pos(Some(10)).parent(ControlHandle::Hwnd(1)).build(&mut tb).unwrap();
    assert_eq!(t.range, Some((0, 100)));
    assert_eq!(t.pos, Some(10));
    assert_eq!(tb.set_selection_range_pos(3..9), ((0, 9), (1, 3)));
}

#[test]
fn write_text_format_needs_family_and_locale() {
    let fact = WriteFactory::new(0, 7).unwrap();
    assert!(matches!(WriteTextFormat::builder(&fact).build(), Err(WriteError::MissingParameter("family"))));
    assert!(matches!(WriteTextFormat::builder(&fact).family("Arial").locale(None).build(), Err(WriteError::MissingParameter("locale"))));
    let q = WriteTextFormat::builder(&fact).family("Arial").build().unwrap();
    assert_eq!(q.family, "Arial");
    assert_eq!(q.locale, "en-us");
    assert_eq!(q.font_weight, 400);
    assert!(matches!(WriteTextFormatBuilder::finish(-1, 0), Err(WriteError::Unknown(-1))));
    assert!(matches!(WriteFactory::new(-2, 0), Err(WriteError::Unknown(-2))));
}

#[test]
fn small_windows_and_navigation() {
    let fw = FancyWindow::default();
    let (style, attrs) = fw.init_layered(0x100);
    assert_eq!(style, 0x80100);
    assert_eq!((attrs.color_key, attrs.alpha, attrs.flags), (0, 255, 1));
    let rl = RichLabel::default();
    assert_eq!(rl.event_reply(0x0201), Some(0));
    assert_eq!(rl.event_reply(0x000F), None);
    let nav = TabNavigation::builder().parent(ControlHandle::Hwnd(1)).push(ControlHandle::Hwnd(2)).builder(4);
    assert_eq!(nav.id, 4);
    assert_eq!(nav.children.len(), 2);
    assert_eq!(nav.key_reply(WM_KEYDOWN, VK_TAB), Some(0));
    assert_eq!(nav.key_reply(WM_KEYDOWN, 0x0D), None);
    let mut mw = MessageWindow::default();
    MessageWindow::builder().build(&mut mw, 66);
    assert!(mw.handle == ControlHandle::Hwnd(66));
}

#[test]
fn label_message_actions() {
    assert_eq!(non_client_action(WM_NCCALCSIZE, 0), (NonClientAction::Ignore, None));
    assert_eq!(non_client_action(WM_NCCALCSIZE, 1), (NonClientAction::CalcSize, None));
    assert_eq!(non_client_action(WM_NCPAINT, 0), (NonClientAction::Paint, None));
    assert_eq!(non_client_action(0x0005, 0), (NonClientAction::Refresh, None));
    assert_eq!(non_client_action(0x000F, 0), (NonClientAction::Ignore, None));
}

#[test]
fn label_measures_sample_or_text() {
    assert_eq!(label_measure(0, &[0], 0), (vec![75, 121], 1));
    let buf: Vec<u16> = vec![104, 10, 105, 0];
    assert_eq!(label_measure(3, &buf, 0), (vec![75, 121], 1));
    assert_eq!(label_measure(3, &buf, 3), (vec![104, 10], 2));
}

#[test]
fn bound_check_box_packs_its_background_color() {
    let cb = CheckBox { handle: ControlHandle::Hwnd(77) };
    assert_eq!(cb.hook_background_color([0x10, 0x20, 0x30]), 0x302010);
}

#[test]
fn rebuilding_an_extern_canvas_resets_it_and_releases_its_window() {
    let mut out = ExternCanvas { handle: ControlHandle::Hwnd(21) };
    let setup = ExternCanvas::builder().build(&mut out);
    assert_eq!(setup.release, DestroyRequest::Window(21));
    assert_eq!(out.handle, ControlHandle::NoHandle);
    assert!(out.bind(Ok(30)).is_ok());
    assert_eq!(out.handle, ControlHandle::Hwnd(30));
    let again = ExternCanvas::builder().build(&mut out);
    assert_eq!(again.release, DestroyRequest::Window(30));
    match out.bind(Err(NwgError::control_create("no window"))) {
        Err(NwgError::ControlCreationError(s)) => assert_eq!(s, "no window"),
        _ => panic!("a failed creation must be reported"),
    }
    assert_eq!(out.handle, ControlHandle::NoHandle);
}

#[test]
fn rebuilding_a_control_resets_it_unless_refused() {
    let mut out = CheckBox { handle: ControlHandle::Hwnd(8) };
    assert!(CheckBox::builder().build(&mut out).is_err());
    assert_eq!(out.handle, ControlHandle::Hwnd(8));
    let s = CheckBox::builder().parent(ControlHandle::Hwnd(1)).build(&mut out).unwrap();
    assert_eq!(s.release, DestroyRequest::Window(8));
    assert_eq!(out.handle, ControlHandle::NoHandle);
    assert!(bind_created(&mut out.handle, Ok(9)).is_ok());
    assert_eq!(out.handle, ControlHandle::Hwnd(9));
    assert!(bind_created(&mut out.handle, Err(NwgError::control_create("x"))).is_err());
    assert_eq!(out.handle, ControlHandle::Hwnd(9));
    let mut tab = Tab { handle: ControlHandle::Hwnd(4) };
    let other = String::from("BUTTON");
    let (r, release) = Tab::builder().parent(ControlHandle::Hwnd(1)).build(&mut tab, &other);
    assert!(r.is_err());
    assert_eq!(release, DestroyRequest::Window(4));
    assert_eq!(tab.handle, ControlHandle::NoHandle);
}
