use vstd::prelude::*;

verus! {

/// The grey level used for both the colour key and the first opacity of a toast.
pub const KEY_LEVEL: u8 = 126;

/// A `COLORREF` value: red in the low byte, then green, then blue.
pub open spec fn color_ref(r: u8, g: u8, b: u8) -> u32 {
    (r as int + g as int * 256 + b as int * 65536) as u32
}

/// Packs three colour components into a `COLORREF` value.
pub fn make_color_ref(r: u8, g: u8, b: u8) -> (c: u32)
    ensures
        c == color_ref(r, g, b),
        c as int == r as int + g as int * 256 + b as int * 65536,
{
    let (r32, g32, b32) = (r as u32, g as u32, b as u32);
    assert(r32 | (g32 << 8) | (b32 << 16) == r32 + g32 * 256 + b32 * 65536) by (bit_vector)
        requires
            r32 < 256,
            g32 < 256,
            b32 < 256,
    ;
    r32 | (g32 << 8) | (b32 << 16)
}

} // verus!
