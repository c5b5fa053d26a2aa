//! The `COLORREF` encoding of RGB colors used by the controls: the red, green and
//! blue bytes packed in the low three bytes of a 32-bit value
//! (the `RGB`, `GetRValue`, `GetGValue`, `GetBValue` macros of `wingdi.h`).
use vstd::prelude::*;

verus! {

/// The packed value of a color: `r | g << 8 | b << 16`
pub open spec fn rgb_spec(r: u8, g: u8, b: u8) -> u32 {
    (r as u32 + (g as u32) * 256 + (b as u32) * 65536) as u32
}

/// Packs a color
pub fn rgb(r: u8, g: u8, b: u8) -> (c: u32)
    ensures
        c == rgb_spec(r, g, b),
{
    let c = (r as u32) | ((g as u32) << 8u32) | ((b as u32) << 16u32);
    assert(((r as u32) | ((g as u32) << 8u32) | ((b as u32) << 16u32)) == (r as u32) + (g as u32) * 256 + (b as u32) * 65536) by (bit_vector);
    c
}

/// The red byte of a packed color
pub fn get_r_value(c: u32) -> (r: u8)
    ensures
        r == c % 256,
{
    let v = c & 0xff;
    assert(c & 0xff == c % 256) by (bit_vector);
    v as u8
}

/// The green byte of a packed color
pub fn get_g_value(c: u32) -> (g: u8)
    ensures
        g == (c / 256) % 256,
{
    let v = (c >> 8u32) & 0xff;
    assert((c >> 8u32) & 0xff == (c / 256) % 256) by (bit_vector);
    v as u8
}

/// The blue byte of a packed color
pub fn get_b_value(c: u32) -> (b: u8)
    ensures
        b == (c / 65536) % 256,
{
    let v = (c >> 16u32) & 0xff;
    assert((c >> 16u32) & 0xff == (c / 65536) % 256) by (bit_vector);
    v as u8
}

/// The packed value of a color given as `[r, g, b]`
pub fn color_to_rgb(c: [u8; 3]) -> (v: u32)
    ensures
        v == rgb_spec(c[0], c[1], c[2]),
{
    rgb(c[0], c[1], c[2])
}

/// The `[r, g, b]` color of a packed value
pub fn rgb_to_color(v: u32) -> (c: [u8; 3])
    ensures
        c[0] == v % 256,
        c[1] == (v / 256) % 256,
        c[2] == (v / 65536) % 256,
{
    [get_r_value(v), get_g_value(v), get_b_value(v)]
}

/// Reading back a packed color gives its three bytes.
pub proof fn lemma_rgb_round_trip(r: u8, g: u8, b: u8)
    ensures
        rgb_spec(r, g, b) % 256 == r,
        (rgb_spec(r, g, b) / 256) % 256 == g,
        (rgb_spec(r, g, b) / 65536) % 256 == b,
{
    assert(((r as u32) + (g as u32) * 256 + (b as u32) * 65536) % 256 == r as u32) by (nonlinear_arith);
    assert((((r as u32) + (g as u32) * 256 + (b as u32) * 65536) / 256) % 256 == g as u32) by (nonlinear_arith);
    assert((((r as u32) + (g as u32) * 256 + (b as u32) * 65536) / 65536) % 256 == b as u32) by (nonlinear_arith);
}

/// A packed color uses only the low three bytes, and every such value is the packing
/// of its own bytes.
pub proof fn lemma_rgb_unpack_pack(v: u32)
    requires
        v < 0x1000000,
    ensures
        rgb_spec((v % 256) as u8, ((v / 256) % 256) as u8, ((v / 65536) % 256) as u8) == v,
{
    assert(v < 0x1000000 ==> (v % 256) + ((v / 256) % 256) * 256 + ((v / 65536) % 256) * 65536 == v) by (nonlinear_arith);
}

/// The message a control sends its parent to ask the brush of its background
pub const WM_CTLCOLORSTATIC: u32 = 0x0138;

/// The answer of the parent of a control painted on a colored background to the message
/// `msg` about the child window `child`: the brush, when the message asks the background
/// of that control (`handle`); no answer otherwise.
pub fn background_brush_reply(msg: u32, child: usize, handle: usize, brush: isize) -> (r: Option<isize>)
    ensures
        r == if msg == WM_CTLCOLORSTATIC && child == handle { Some(brush) } else { None::<isize> },
{
    if msg == WM_CTLCOLORSTATIC && child == handle {
        Some(brush)
    } else {
        None
    }
}

} // verus!
