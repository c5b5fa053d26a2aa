//! The controls of native-windows-gui, verified: the handle model, the builder and style
//! logic of each control, the animation timer engine, and the text, layout and value
//! conversions that the controls perform around their system calls.

pub mod control_handle;
pub mod control_base;
pub mod error;
pub mod styles;
pub mod color;
pub mod display_order;

pub mod animation_timer;
pub mod canvas;
pub mod check_box;
pub mod combo_box;
pub mod date_picker;
pub mod extern_canvas;
pub mod fancy_window;
pub mod frame;
pub mod image_button;
pub mod image_frame;
pub mod label;
pub mod list_box;
pub mod list_view;
pub mod menu;
pub mod message_window;
pub mod notice;
pub mod number_select;
pub mod progress_bar;
pub mod radio_button;
pub mod rich_label;
pub mod rich_text_box;
pub mod scroll_bar;
pub mod status_bar;
pub mod tab_nav;
pub mod tabs;
pub mod text_box;
pub mod text_input;
pub mod timer;
pub mod tooltip;
pub mod track_bar;
pub mod tray_notification;
pub mod write_text;
