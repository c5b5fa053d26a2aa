//! Window style values of the Windows SDK used by the controls (`winuser.h`,
//! `commctrl.h`). They are fixed by the system's ABI.
use vstd::prelude::*;

verus! {

pub const WS_VISIBLE: u32 = 0x10000000;
pub const WS_DISABLED: u32 = 0x08000000;
pub const WS_TABSTOP: u32 = 0x00010000;
pub const WS_CHILD: u32 = 0x40000000;
pub const WS_BORDER: u32 = 0x00800000;
pub const WS_VSCROLL: u32 = 0x00200000;
pub const WS_HSCROLL: u32 = 0x00100000;
pub const WS_CAPTION: u32 = 0x00C00000;
pub const WS_SYSMENU: u32 = 0x00080000;
pub const WS_MINIMIZEBOX: u32 = 0x00020000;
pub const WS_MAXIMIZEBOX: u32 = 0x00010000;
pub const WS_THICKFRAME: u32 = 0x00040000;
pub const WS_CLIPCHILDREN: u32 = 0x02000000;
pub const WS_CLIPSIBLINGS: u32 = 0x04000000;
pub const WS_MAXIMIZE: u32 = 0x01000000;
pub const WS_MINIMIZE: u32 = 0x20000000;
pub const WS_OVERLAPPEDWINDOW: u32 = 0x00CF0000;

pub const BS_AUTOCHECKBOX: u32 = 0x00000003;
pub const BS_AUTO3STATE: u32 = 0x00000006;
pub const BS_AUTORADIOBUTTON: u32 = 0x00000009;
pub const BS_PUSHLIKE: u32 = 0x00001000;
pub const BS_NOTIFY: u32 = 0x00004000;
pub const BS_GROUPBOX: u32 = 0x00000007;

pub const SS_LEFT: u32 = 0x00000000;
pub const SS_CENTER: u32 = 0x00000001;
pub const SS_RIGHT: u32 = 0x00000002;
pub const SS_NOPREFIX: u32 = 0x00000080;
pub const SS_NOTIFY: u32 = 0x00000100;
pub const SS_WORDELLIPSIS: u32 = 0x0000C000;

pub const ES_MULTILINE: u32 = 0x0004;
pub const ES_AUTOVSCROLL: u32 = 0x0040;
pub const ES_AUTOHSCROLL: u32 = 0x0080;
pub const ES_READONLY: u32 = 0x0800;
pub const ES_WANTRETURN: u32 = 0x1000;
pub const ES_SAVESEL: u32 = 32768;

pub const PBS_VERTICAL: u32 = 0x04;
pub const PBS_MARQUEE: u32 = 0x08;

pub const LBS_NOTIFY: u32 = 0x0001;
pub const LBS_MULTIPLESEL: u32 = 0x0008;
pub const LBS_NOSEL: u32 = 0x4000;

pub const LVS_ICON: u32 = 0x0000;
pub const LVS_REPORT: u32 = 0x0001;
pub const LVS_SMALLICON: u32 = 0x0002;
pub const LVS_LIST: u32 = 0x0003;
pub const LVS_SINGLESEL: u32 = 0x0004;
pub const LVS_SHOWSELALWAYS: u32 = 0x0008;
pub const LVS_NOCOLUMNHEADER: u32 = 0x4000;

} // verus!
