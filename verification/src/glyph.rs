//! The glyph source: a monospace rasterizer that maps a character to a
//! fixed-size bitmap of per-pixel intensities, falling back to a replacement
//! glyph for characters the font does not carry.

use vstd::prelude::*;

verus! {

/// Width in pixels of every rasterized glyph.
pub const CHAR_RASTER_WIDTH: usize = 7;

/// Height in pixels of every rasterized glyph.
pub const CHAR_RASTER_HEIGHT: usize = 16;

/// The replacement character rendered when the font lacks a glyph.
pub const BACKUP_CHAR: char = '\u{fffd}';

/// A rasterized glyph: rows of per-pixel intensities, one byte per pixel.
pub struct Glyph {
    /// The intensity rows, top to bottom.
    pub rows: Vec<Vec<u8>>,
    /// Width in pixels, the same for every glyph of a mono font.
    pub width: usize,
}

impl Glyph {
    /// A full glyph box: the fixed raster height of rows, each of the fixed
    /// raster width.
    pub open spec fn wf(self) -> bool {
        &&& self.width == CHAR_RASTER_WIDTH
        &&& self.rows@.len() == CHAR_RASTER_HEIGHT
        &&& forall|i: int| 0 <= i < self.rows@.len() ==> self.rows@[i]@.len() == CHAR_RASTER_WIDTH
    }

    /// The rows as a sequence of intensity sequences.
    pub open spec fn intensities(self) -> Seq<Seq<u8>> {
        self.rows@.map_values(|row: Vec<u8>| row@)
    }

    /// A glyph box of zero intensities, used to blank a glyph-sized area.
    pub fn blank() -> (g: Glyph)
        ensures
            g.wf(),
            forall|i: int, j: int|
                0 <= i < CHAR_RASTER_HEIGHT && 0 <= j < CHAR_RASTER_WIDTH
                    ==> g.intensities()[i][j] == 0u8,
    {
        let mut rows: Vec<Vec<u8>> = Vec::new();
        let mut i: usize = 0;
        while i < CHAR_RASTER_HEIGHT
            invariant
                i <= CHAR_RASTER_HEIGHT,
                rows@.len() == i,
                forall|a: int| 0 <= a < i ==> rows@[a]@.len() == CHAR_RASTER_WIDTH,
                forall|a: int, b: int|
                    0 <= a < i && 0 <= b < CHAR_RASTER_WIDTH ==> rows@[a]@[b] == 0u8,
            decreases CHAR_RASTER_HEIGHT - i,
        {
            let mut row: Vec<u8> = Vec::new();
            let mut j: usize = 0;
            while j < CHAR_RASTER_WIDTH
                invariant
                    j <= CHAR_RASTER_WIDTH,
                    row@.len() == j,
                    forall|b: int| 0 <= b < j ==> row@[b] == 0u8,
                decreases CHAR_RASTER_WIDTH - j,
            {
                row.push(0u8);
                j = j + 1;
            }
            rows.push(row);
            i = i + 1;
        }
        Glyph { rows, width: CHAR_RASTER_WIDTH }
    }
}

/// The per-pixel intensities the rasterizer produces for a character (those
/// of the replacement character where the font lacks a glyph). A fixed
/// function of the character alone: the font data is compiled in.
pub uninterp spec fn glyph_rows(c: char) -> Seq<Seq<u8>>;

/// Relies on noto_sans_mono_bitmap::get_raster: returns the pre-rasterized
/// glyph of a character at one font weight and raster height, or None for a
/// character the font lacks, in which case the replacement character (which
/// the compiled font contains) is rasterized instead. The raster is
/// documented as height-many rows of width-many intensity bytes, with the
/// width the same for every character of a mono font.
#[verifier::external_body]
pub(crate) fn get_char_raster(c: char) -> (g: Glyph)
    ensures
        g.wf(),
        g.intensities() == glyph_rows(c),
{
    let get = |ch: char| {
        noto_sans_mono_bitmap::get_raster(
            ch,
            noto_sans_mono_bitmap::FontWeight::Regular,
            noto_sans_mono_bitmap::RasterHeight::Size16,
        )
    };
    let raster = get(c).unwrap_or_else(|| get(BACKUP_CHAR).expect("replacement glyph present"));
    Glyph {
        rows: raster.raster().iter().map(|row| row.to_vec()).collect(),
        width: raster.width(),
    }
}

} // verus!
