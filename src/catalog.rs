//! The catalog of the ten digit glyphs.
use vstd::prelude::*;

verus! {

/// Width of each glyph bitmap, in pixels.
pub const IMAGE_WIDTH: u32 = 80;

/// Height of each glyph bitmap, in pixels.
pub const IMAGE_HEIGHT: u32 = 100;

/// Two bytes per pixel (16-bit colour).
pub const BYTES_PER_PIXEL: u32 = 2;

/// Size in bytes of one glyph's pixel buffer.
pub const DATA_SIZE: u32 = 16000;

/// Tag of the true-colour pixel encoding that every glyph uses.
pub const COLOR_FORMAT_TRUE_COLOR: u8 = 4;

/// Number of glyphs in the catalog, one per decimal digit.
pub const GLYPH_COUNT: usize = 10;

/// Describes one displayable glyph bitmap.
///
/// `buffer` names the compiled-in raw pixel buffer that the descriptor points
/// at: buffer `d` holds the artwork of digit `d`.
#[derive(Clone, Copy, Debug, PartialEq, Eq, Structural)]
pub struct ImageDescriptor {
    pub color_format: u8,
    pub width: u32,
    pub height: u32,
    pub data_size: u32,
    pub buffer: u8,
}

/// The descriptor of the glyph for digit `d`.
pub open spec fn glyph_spec(d: nat) -> ImageDescriptor {
    ImageDescriptor {
        color_format: COLOR_FORMAT_TRUE_COLOR,
        width: IMAGE_WIDTH,
        height: IMAGE_HEIGHT,
        data_size: DATA_SIZE,
        buffer: d as u8,
    }
}

/// A well-formed catalog: exactly ten entries, entry `d` describing digit `d`.
pub open spec fn catalog_wf(c: Seq<ImageDescriptor>) -> bool {
    &&& c.len() == GLYPH_COUNT
    &&& forall|d: int| 0 <= d < c.len() ==> #[trigger] c[d] == glyph_spec(d as nat)
}

/// Builds the descriptor for digit `d`.
pub fn glyph(d: u8) -> (r: ImageDescriptor)
    requires
        d < 10,
    ensures
        r == glyph_spec(d as nat),
{
    assert(IMAGE_WIDTH * IMAGE_HEIGHT * BYTES_PER_PIXEL == DATA_SIZE);
    ImageDescriptor {
        color_format: COLOR_FORMAT_TRUE_COLOR,
        width: IMAGE_WIDTH,
        height: IMAGE_HEIGHT,
        data_size: IMAGE_WIDTH * IMAGE_HEIGHT * BYTES_PER_PIXEL,
        buffer: d,
    }
}

/// Builds the ten descriptors, in digit order.
pub fn build_catalog() -> (r: Vec<ImageDescriptor>)
    ensures
        catalog_wf(r@),
{
    let mut c: Vec<ImageDescriptor> = Vec::new();
    let mut d: u8 = 0;
    while d < 10
        invariant
            d <= 10,
            c@.len() == d as int,
            forall|i: int| 0 <= i < c@.len() ==> #[trigger] c@[i] == glyph_spec(i as nat),
        decreases 10 - d,
    {
        c.push(glyph(d));
        d = d + 1;
    }
    c
}

/// The ten catalog entries are pairwise distinct, each shows the glyph of its
/// own digit, and all share the same size and pixel encoding.
pub proof fn lemma_catalog_entries_distinct(c: Seq<ImageDescriptor>)
    requires
        catalog_wf(c),
    ensures
        forall|i: int, j: int| 0 <= i < c.len() && 0 <= j < c.len() && i != j ==> c[i] != c[j],
        forall|i: int| 0 <= i < c.len() ==> {
            &&& (#[trigger] c[i]).buffer == i
            &&& c[i].width == IMAGE_WIDTH
            &&& c[i].height == IMAGE_HEIGHT
            &&& c[i].data_size == IMAGE_WIDTH * IMAGE_HEIGHT * BYTES_PER_PIXEL
            &&& c[i].color_format == COLOR_FORMAT_TRUE_COLOR
        },
{
    assert forall|i: int, j: int| 0 <= i < c.len() && 0 <= j < c.len() && i != j implies c[i] != c[j] by {
        assert(c[i].buffer == i);
        assert(c[j].buffer == j);
    }
}

} // verus!
