//! The fixed nine-entry colour palette and the per-pixel byte layout.
//!
//! Each palette entry is derived from a single hardware intensity value: a
//! four-byte template replicates the intensity across the red, green and blue
//! channels as the colour calls for. An RGB framebuffer uses the template
//! directly, a BGR framebuffer swaps the first and third channel, and a
//! single-channel framebuffer thresholds the intensity into an on/off
//! sentinel.

use vstd::prelude::*;

verus! {

/// The closed palette: nine fixed colours, selected by ordinal.
#[derive(Clone, Copy, PartialEq, Eq, Structural, Debug)]
pub enum Colors {
    /// Intensity on all three channels.
    White,
    /// Intensity on the red channel only.
    Red,
    /// Intensity on the green channel only.
    Green,
    /// Intensity on the blue channel only.
    Blue,
    /// Intensity on green and blue.
    Cyan,
    /// Intensity on red and blue.
    Magenta,
    /// Intensity on red and green.
    Yellow,
    /// Full intensity on red, two thirds on green.
    Orange,
    /// Half intensity on red and blue.
    Purple,
}

/// How the framebuffer lays out one pixel.
#[derive(Clone, Copy, PartialEq, Eq, Structural, Debug)]
pub enum PixelFormat {
    /// One byte each of red, green, blue.
    Rgb,
    /// One byte each of blue, green, red.
    Bgr,
    /// A single greyscale byte.
    U8,
    /// Anything else; rendering cannot proceed on such a framebuffer.
    Unsupported,
}

/// Intensities above this threshold count as "on" for a single-channel
/// framebuffer.
pub const MONO_THRESHOLD: u8 = 200;

/// The byte written for an "on" pixel of a single-channel framebuffer.
pub const MONO_ON: u8 = 0xf;

/// Two thirds of the intensity, the green share of the orange entry.
pub open spec fn orange_mid(i: u8) -> u8 {
    (i * 2 / 3) as u8
}

/// Half of the intensity, the red and blue share of the purple entry.
pub open spec fn half(i: u8) -> u8 {
    (i / 2) as u8
}

/// The greyscale byte of a single-channel framebuffer: on above the
/// threshold, off at or below it.
pub open spec fn mono_byte(i: u8) -> u8 {
    if i > MONO_THRESHOLD {
        MONO_ON
    } else {
        0u8
    }
}

/// The four-byte RGB template of a palette entry at one intensity.
pub open spec fn rgb_template(c: Colors, i: u8) -> Seq<u8> {
    match c {
        Colors::White => seq![i, i, i, 0u8],
        Colors::Red => seq![i, 0u8, 0u8, 0u8],
        Colors::Green => seq![0u8, i, 0u8, 0u8],
        Colors::Blue => seq![0u8, 0u8, i, 0u8],
        Colors::Cyan => seq![0u8, i, i, 0u8],
        Colors::Magenta => seq![i, 0u8, i, 0u8],
        Colors::Yellow => seq![i, i, 0u8, 0u8],
        Colors::Orange => seq![i, orange_mid(i), 0u8, 0u8],
        Colors::Purple => seq![half(i), 0u8, half(i), 0u8],
    }
}

/// A template with its first and third channel swapped.
pub open spec fn bgr_of(t: Seq<u8>) -> Seq<u8> {
    seq![t[2], t[1], t[0], t[3]]
}

/// The four bytes written for one glyph pixel, before truncation to the
/// framebuffer's bytes per pixel.
pub open spec fn pixel_bytes(fmt: PixelFormat, c: Colors, i: u8) -> Seq<u8> {
    match fmt {
        PixelFormat::Rgb => rgb_template(c, i),
        PixelFormat::Bgr => bgr_of(rgb_template(c, i)),
        PixelFormat::U8 => seq![mono_byte(i), 0u8, 0u8, 0u8],
        PixelFormat::Unsupported => seq![0u8, 0u8, 0u8, 0u8],
    }
}

/// The ordinal of a palette entry in the template matrix.
pub open spec fn color_ordinal(c: Colors) -> int {
    match c {
        Colors::White => 0,
        Colors::Red => 1,
        Colors::Green => 2,
        Colors::Blue => 3,
        Colors::Cyan => 4,
        Colors::Magenta => 5,
        Colors::Yellow => 6,
        Colors::Orange => 7,
        Colors::Purple => 8,
    }
}

/// Zero intensity blanks every supported format: all four template bytes
/// are zero, whatever the colour.
pub proof fn lemma_zero_intensity(fmt: PixelFormat, c: Colors)
    requires
        !(fmt is Unsupported),
    ensures
        forall|j: int| 0 <= j < 4 ==> pixel_bytes(fmt, c, 0u8)[j] == 0u8,
{
    assert(orange_mid(0u8) == 0u8);
    assert(half(0u8) == 0u8);
}

/// The ordinal of a palette entry, as the executable index.
pub fn color_index(c: Colors) -> (i: usize)
    ensures
        i == color_ordinal(c),
        i < 9,
{
    match c {
        Colors::White => 0,
        Colors::Red => 1,
        Colors::Green => 2,
        Colors::Blue => 3,
        Colors::Cyan => 4,
        Colors::Magenta => 5,
        Colors::Yellow => 6,
        Colors::Orange => 7,
        Colors::Purple => 8,
    }
}

/// Swaps the first and third byte of each row of the template matrix,
/// turning the RGB templates into BGR ones.
pub fn swap_elements(matrix: &[[u8; 4]; 9]) -> (r: [[u8; 4]; 9])
    ensures
        forall|i: int| 0 <= i < 9 ==> #[trigger] r@[i]@ == bgr_of(matrix@[i]@),
{
    let mut swapped_matrix: [[u8; 4]; 9] = [[0; 4]; 9];
    let mut i: usize = 0;
    while i < 9
        invariant
            i <= 9,
            forall|k: int| 0 <= k < i ==> #[trigger] swapped_matrix@[k]@ == bgr_of(matrix@[k]@),
        decreases 9 - i,
    {
        let row: [u8; 4] = matrix[i];
        swapped_matrix[i] = [row[2], row[1], row[0], row[3]];
        i = i + 1;
    }
    swapped_matrix
}

/// The bytes that one pixel of a glyph receives: the RGB template, its BGR
/// swap, or the thresholded single-channel byte, as the format calls for.
pub fn resolve_color(fmt: PixelFormat, color: Colors, intensity: u8) -> (r: [u8; 4])
    requires
        !(fmt is Unsupported),
    ensures
        r@ == pixel_bytes(fmt, color, intensity),
{
    let two_thirds: u8 = ((intensity as u32) * 2 / 3) as u8;
    let colors_rgb: [[u8; 4]; 9] = [
        [intensity, intensity, intensity, 0],
        [intensity, 0, 0, 0],
        [0, intensity, 0, 0],
        [0, 0, intensity, 0],
        [0, intensity, intensity, 0],
        [intensity, 0, intensity, 0],
        [intensity, intensity, 0, 0],
        [intensity, two_thirds, 0, 0],
        [intensity / 2, 0, intensity / 2, 0],
    ];
    let colors_bgr: [[u8; 4]; 9] = swap_elements(&colors_rgb);
    let idx: usize = color_index(color);
    match fmt {
        PixelFormat::Rgb => {
            let r = colors_rgb[idx];
            proof {
                assert(r@ =~= rgb_template(color, intensity));
            }
            r
        },
        PixelFormat::Bgr => {
            let r = colors_bgr[idx];
            proof {
                assert(colors_rgb@[color_ordinal(color)]@ =~= rgb_template(color, intensity));
                assert(r@ =~= bgr_of(rgb_template(color, intensity)));
            }
            r
        },
        PixelFormat::U8 => {
            let on: u8 = if intensity > MONO_THRESHOLD {
                MONO_ON
            } else {
                0
            };
            let r = [on, 0, 0, 0];
            proof {
                assert(r@ =~= pixel_bytes(fmt, color, intensity));
            }
            r
        },
        PixelFormat::Unsupported => vstd::pervasive::unreached(),
    }
}

} // verus!
