//! The texture that covers the mesh: two by two texels.

use vstd::prelude::*;

verus! {

/// Width of the texture, in texels.
pub const TEXTURE_WIDTH: u16 = 2;

/// Height of the texture, in texels.
pub const TEXTURE_HEIGHT: u16 = 2;

/// The texels, row by row, each with its red, green, blue and alpha part.
pub open spec fn texel_colors() -> Seq<Seq<u8>> {
    seq![
        seq![0xdbu8, 0x45, 0x00, 0x00],
        seq![0x45u8, 0x75, 0x00, 0x3b],
        seq![0x00u8, 0x00, 0x00, 0x00],
        seq![0x00u8, 0xff, 0x00, 0x00],
    ]
}

/// The parts of each texel in `texels`, in order.
pub open spec fn colors(texels: Seq<[u8; 4]>) -> Seq<Seq<u8>> {
    texels.map_values(|texel: [u8; 4]| texel@)
}

/// The texture's contents: one texel for each place in the texture.
pub fn texels() -> (data: [[u8; 4]; 4])
    ensures
        colors(data@) == texel_colors(),
        data@.len() == TEXTURE_WIDTH * TEXTURE_HEIGHT,
{
    let data = [
        [0xdb, 0x45, 0x00, 0x00],
        [0x45, 0x75, 0x00, 0x3b],
        [0x00, 0x00, 0x00, 0x00],
        [0x00, 0xff, 0x00, 0x00],
    ];
    assert(colors(data@) =~~= texel_colors());
    data
}

} // verus!
