//! The pixel console: exclusive owner of a raw framebuffer byte region,
//! converting characters to coloured pixels at a cursor position, with line
//! wrap, clear-on-overflow and backspace.

use vstd::prelude::*;

use crate::glyph::{get_char_raster, glyph_rows, Glyph, CHAR_RASTER_HEIGHT, CHAR_RASTER_WIDTH};
use crate::palette::{pixel_bytes, resolve_color, Colors, PixelFormat};

verus! {

/// Additional vertical space between lines.
pub const LINE_SPACING: usize = 2;

/// Additional horizontal space between characters.
pub const LETTER_SPACING: usize = 0;

/// Padding from the border, so the font is not too close to it.
pub const BORDER_PADDING: usize = 1;

/// The framebuffer geometry the boot loader reports: fixed for the session.
#[derive(Clone, Copy, PartialEq, Eq, Structural, Debug)]
pub struct FrameBufferInfo {
    /// Visible width in pixels.
    pub width: usize,
    /// Visible height in pixels.
    pub height: usize,
    /// Pixels per row in memory, at least the width.
    pub stride: usize,
    /// Bytes each pixel occupies.
    pub bytes_per_pixel: usize,
    /// How the bytes of one pixel are laid out.
    pub pixel_format: PixelFormat,
}

impl FrameBufferInfo {
    /// A geometry the console can render on: room for at least one glyph
    /// beside and below the border padding, a supported pixel format, and
    /// sizes whose products and small sums stay within the machine word.
    pub open spec fn valid(self) -> bool {
        &&& BORDER_PADDING + CHAR_RASTER_WIDTH <= self.width
        &&& BORDER_PADDING + CHAR_RASTER_HEIGHT <= self.height
        &&& self.width <= self.stride
        &&& 1 <= self.bytes_per_pixel <= 4
        &&& !(self.pixel_format is Unsupported)
        &&& self.height * self.stride * self.bytes_per_pixel <= usize::MAX
        &&& self.width + CHAR_RASTER_WIDTH + LINE_SPACING <= usize::MAX
    }
}

/// The first byte of the pixel at column `x`, row `y`.
pub open spec fn pixel_byte_offset(info: FrameBufferInfo, x: int, y: int) -> int {
    (y * info.stride + x) * info.bytes_per_pixel
}

/// Whether byte `k` of the framebuffer belongs to the glyph-sized pixel box
/// whose top-left pixel is `(x0, y0)`.
pub open spec fn in_glyph_box(info: FrameBufferInfo, x0: int, y0: int, k: int) -> bool {
    exists|dy: int, dx: int|
        0 <= dy < CHAR_RASTER_HEIGHT && 0 <= dx < CHAR_RASTER_WIDTH
            && #[trigger] pixel_byte_offset(info, x0 + dx, y0 + dy) <= k < pixel_byte_offset(
            info,
            x0 + dx,
            y0 + dy,
        ) + info.bytes_per_pixel
}

/// The byte range of a pixel within the framebuffer stays within the region
/// the geometry promises.
pub proof fn lemma_pixel_offset_in_bounds(info: FrameBufferInfo, x: int, y: int)
    requires
        info.valid(),
        0 <= x < info.stride,
        0 <= y < info.height,
    ensures
        0 <= pixel_byte_offset(info, x, y),
        pixel_byte_offset(info, x, y) + info.bytes_per_pixel <= info.height * info.stride
            * info.bytes_per_pixel,
        y * info.stride + x < info.height * info.stride,
        info.height * info.stride <= info.height * info.stride * info.bytes_per_pixel,
{
    assert(0 <= (y * info.stride + x) * info.bytes_per_pixel && y * info.stride + x
        < info.height * info.stride && (y * info.stride + x) * info.bytes_per_pixel
        + info.bytes_per_pixel <= info.height * info.stride * info.bytes_per_pixel
        && info.height * info.stride <= info.height * info.stride * info.bytes_per_pixel) by (nonlinear_arith)
        requires
            0 <= x < info.stride,
            0 <= y < info.height,
            1 <= info.bytes_per_pixel,
    ;
}

/// Distinct pixels occupy disjoint byte ranges: the earlier pixel (row
/// first, then column) ends at or before the later one begins.
pub proof fn lemma_pixel_offset_distinct(
    info: FrameBufferInfo,
    x1: int,
    y1: int,
    x2: int,
    y2: int,
)
    requires
        1 <= info.bytes_per_pixel,
        0 <= x1 < info.stride,
        0 <= x2 < info.stride,
        0 <= y1,
        0 <= y2,
        y1 < y2 || (y1 == y2 && x1 < x2),
    ensures
        pixel_byte_offset(info, x1, y1) + info.bytes_per_pixel <= pixel_byte_offset(info, x2, y2),
{
    assert((y1 * info.stride + x1) * info.bytes_per_pixel + info.bytes_per_pixel <= (y2
        * info.stride + x2) * info.bytes_per_pixel) by (nonlinear_arith)
        requires
            0 <= x1 < info.stride,
            0 <= x2 < info.stride,
            0 <= y1,
            0 <= y2,
            1 <= info.bytes_per_pixel,
            y1 < y2 || (y1 == y2 && x1 < x2),
    ;
}

/// A byte of one pixel's range lies outside the range of any other pixel.
pub proof fn lemma_pixel_bytes_disjoint(
    info: FrameBufferInfo,
    x1: int,
    y1: int,
    x2: int,
    y2: int,
    k: int,
)
    requires
        1 <= info.bytes_per_pixel,
        0 <= x1 < info.stride,
        0 <= x2 < info.stride,
        0 <= y1,
        0 <= y2,
        !(x1 == x2 && y1 == y2),
        pixel_byte_offset(info, x1, y1) <= k < pixel_byte_offset(info, x1, y1)
            + info.bytes_per_pixel,
    ensures
        !(pixel_byte_offset(info, x2, y2) <= k < pixel_byte_offset(info, x2, y2)
            + info.bytes_per_pixel),
{
    if y1 < y2 || (y1 == y2 && x1 < x2) {
        lemma_pixel_offset_distinct(info, x1, y1, x2, y2);
    } else {
        lemma_pixel_offset_distinct(info, x2, y2, x1, y1);
    }
}

/// Logs text to a pixel-based framebuffer that it exclusively owns.
pub struct FrameBufferWriter {
    /// The framebuffer byte region.
    pub framebuffer: Vec<u8>,
    /// The geometry, fixed for the session.
    pub info: FrameBufferInfo,
    /// Horizontal pixel position of the cursor.
    pub x_pos: usize,
    /// Vertical pixel position of the cursor.
    pub y_pos: usize,
    /// Horizontal anchor: the last explicitly set position, the backspace floor.
    pub x: usize,
    /// Vertical anchor: the last explicitly set position.
    pub y: usize,
    /// The palette entry text is currently drawn with.
    pub color: Colors,
}

impl FrameBufferWriter {
    /// The console invariant: a valid geometry, a buffer at least as large
    /// as the geometry promises, and horizontal positions within the width.
    pub open spec fn wf(self) -> bool {
        &&& self.info.valid()
        &&& self.framebuffer@.len() >= self.info.height * self.info.stride
            * self.info.bytes_per_pixel
        &&& self.x_pos <= self.info.width
        &&& self.x <= self.info.width
    }

    /// How `clear` relates the state before to the state after: cursor back
    /// at the border-padding origin, every framebuffer byte zero, and the
    /// geometry, the anchor and the colour untouched.
    pub open spec fn clear_rel(pre: Self, post: Self) -> bool {
        &&& post.info == pre.info
        &&& post.x == pre.x
        &&& post.y == pre.y
        &&& post.color == pre.color
        &&& post.x_pos == BORDER_PADDING
        &&& post.y_pos == BORDER_PADDING
        &&& post.framebuffer@.len() == pre.framebuffer@.len()
        &&& forall|k: int| 0 <= k < post.framebuffer@.len() ==> post.framebuffer@[k] == 0u8
    }

    /// Creates the console: takes ownership of the framebuffer region,
    /// places cursor and anchor at the top-left border offset, and
    /// zero-fills the whole buffer.
    pub fn new(framebuffer: Vec<u8>, info: FrameBufferInfo) -> (w: FrameBufferWriter)
        requires
            info.valid(),
            framebuffer@.len() >= info.height * info.stride * info.bytes_per_pixel,
        ensures
            w.wf(),
            w.info == info,
            w.x_pos == BORDER_PADDING,
            w.y_pos == BORDER_PADDING,
            w.x == BORDER_PADDING,
            w.y == BORDER_PADDING,
            w.color is White,
            w.framebuffer@.len() == framebuffer@.len(),
            forall|k: int| 0 <= k < w.framebuffer@.len() ==> w.framebuffer@[k] == 0u8,
    {
        let mut logger = FrameBufferWriter {
            framebuffer,
            info,
            x_pos: 0,
            y_pos: 0,
            x: BORDER_PADDING,
            y: BORDER_PADDING,
            color: Colors::White,
        };
        logger.clear();
        logger
    }

    fn newline(&mut self)
        requires
            old(self).wf(),
            old(self).y_pos + CHAR_RASTER_HEIGHT + LINE_SPACING <= usize::MAX,
        ensures
            final(self).wf(),
            *final(self) == (FrameBufferWriter {
                x_pos: BORDER_PADDING,
                y_pos: (old(self).y_pos + CHAR_RASTER_HEIGHT + LINE_SPACING) as usize,
                ..*old(self)
            }),
    {
        self.y_pos = self.y_pos + CHAR_RASTER_HEIGHT + LINE_SPACING;
        self.carriage_return()
    }

    fn carriage_return(&mut self)
        requires
            old(self).wf(),
        ensures
            final(self).wf(),
            *final(self) == (FrameBufferWriter { x_pos: BORDER_PADDING, ..*old(self) }),
    {
        self.x_pos = BORDER_PADDING;
    }

    /// Visible width of the console in pixels.
    pub fn width(&self) -> (r: usize)
        ensures
            r == self.info.width,
    {
        self.info.width
    }

    /// Visible height of the console in pixels.
    pub fn height(&self) -> (r: usize)
        ensures
            r == self.info.height,
    {
        self.info.height
    }

    #[allow(non_snake_case)]
    fn checkValidStartPosition(&mut self, x: usize, y: usize) -> (r: bool)
        ensures
            *final(self) == *old(self),
            r == (x <= old(self).info.width && y <= old(self).info.height),
    {
        if (x > self.info.width) || (y > self.info.height) {
            false
        } else {
            true
        }
    }

    /// Moves cursor and anchor to `(x, y)` and selects the colour, together,
    /// when the position lies within the console; out-of-range positions
    /// leave the console untouched.
    #[allow(non_snake_case)]
    pub fn setChange(&mut self, x: usize, y: usize, color: Colors)
        requires
            old(self).wf(),
        ensures
            final(self).wf(),
            x <= old(self).info.width && y <= old(self).info.height ==> *final(self)
                == (FrameBufferWriter { x_pos: x, y_pos: y, x, y, color, ..*old(self) }),
            !(x <= old(self).info.width && y <= old(self).info.height) ==> *final(self) == *old(self),
    {
        if self.checkValidStartPosition(x, y) {
            self.x_pos = x;
            self.y_pos = y;
            self.color = color;
            self.x = x;
            self.y = y;
        }
    }

    /// Erases all text: zero-fills the framebuffer and resets the cursor to
    /// the border-padding origin. Also the documented bottom-edge overflow
    /// policy, which deliberately destroys prior content.
    pub fn clear(&mut self)
        requires
            old(self).wf(),
        ensures
            final(self).wf(),
            Self::clear_rel(*old(self), *final(self)),
    {
        self.x_pos = BORDER_PADDING;
        self.y_pos = BORDER_PADDING;
        let n: usize = self.framebuffer.len();
        let mut k: usize = 0;
        while k < n
            invariant
                n == self.framebuffer@.len(),
                k <= n,
                self.info == old(self).info,
                self.x == old(self).x,
                self.y == old(self).y,
                self.color == old(self).color,
                self.x_pos == BORDER_PADDING,
                self.y_pos == BORDER_PADDING,
                old(self).wf(),
                self.info.valid(),
                forall|j: int| 0 <= j < k ==> self.framebuffer@[j] == 0u8,
            decreases n - k,
        {
            self.framebuffer.set(k, 0);
            k = k + 1;
        }
    }

    /// Writes one pixel: exactly `bytes_per_pixel` bytes of the resolved
    /// colour template at the pixel's byte offset, leaving every other byte
    /// as it was. On a real memory-mapped framebuffer a volatile read-back
    /// of the first written byte would follow; an owned buffer needs none.
    pub fn write_pixel(&mut self, x: usize, y: usize, intensity: u8)
        requires
            old(self).wf(),
            x < old(self).info.stride,
            y < old(self).info.height,
        ensures
            final(self).wf(),
            *final(self) == (FrameBufferWriter { framebuffer: final(self).framebuffer, ..*old(self) }),
            final(self).framebuffer@.len() == old(self).framebuffer@.len(),
            forall|j: int|
                0 <= j < old(self).info.bytes_per_pixel ==> final(self).framebuffer@[pixel_byte_offset(
                    old(self).info,
                    x as int,
                    y as int,
                ) + j] == pixel_bytes(old(self).info.pixel_format, old(self).color, intensity)[j],
            forall|k: int|
                0 <= k < old(self).framebuffer@.len() && !(pixel_byte_offset(
                    old(self).info,
                    x as int,
                    y as int,
                ) <= k < pixel_byte_offset(old(self).info, x as int, y as int)
                    + old(self).info.bytes_per_pixel) ==> final(self).framebuffer@[k] == old(
                    self,
                ).framebuffer@[k],
    {
        let info = self.info;
        let color: [u8; 4] = resolve_color(info.pixel_format, self.color, intensity);
        proof {
            lemma_pixel_offset_in_bounds(info, x as int, y as int);
        }
        let pixel_offset: usize = y * info.stride + x;
        let bytes_per_pixel: usize = info.bytes_per_pixel;
        let byte_offset: usize = pixel_offset * bytes_per_pixel;
        let mut j: usize = 0;
        while j < bytes_per_pixel
            invariant
                j <= bytes_per_pixel,
                old(self).wf(),
                self.info == old(self).info,
                self.x_pos == old(self).x_pos,
                self.y_pos == old(self).y_pos,
                self.x == old(self).x,
                self.y == old(self).y,
                self.color == old(self).color,
                info == old(self).info,
                bytes_per_pixel == info.bytes_per_pixel,
                byte_offset == pixel_byte_offset(info, x as int, y as int),
                byte_offset + bytes_per_pixel <= self.framebuffer@.len(),
                byte_offset + bytes_per_pixel <= usize::MAX,
                self.framebuffer@.len() == old(self).framebuffer@.len(),
                color@ == pixel_bytes(info.pixel_format, old(self).color, intensity),
                forall|jj: int|
                    0 <= jj < j ==> self.framebuffer@[byte_offset + jj] == color@[jj],
                forall|k: int|
                    0 <= k < old(self).framebuffer@.len() && !(byte_offset <= k < byte_offset
                        + bytes_per_pixel) ==> self.framebuffer@[k] == old(self).framebuffer@[k],
            decreases bytes_per_pixel - j,
        {
            self.framebuffer.set(byte_offset + j, color[j]);
            j = j + 1;
        }
    }

    /// Whether the cursor sits within the first few pixel columns of the
    /// anchor, on the anchored line: backspace then snaps the cursor back
    /// to the anchor and stops — nothing can be erased before the anchor.
    pub open spec fn backspace_is_noop(self) -> bool {
        (self.x_pos == self.x || self.x_pos == self.x + 1 || self.x_pos == self.x + 2)
            && self.y_pos == self.y
    }

    /// Backspace erases the previous glyph when the cursor has at least one
    /// glyph's width of horizontal room since the border.
    pub open spec fn backspace_erases(self) -> bool {
        !self.backspace_is_noop() && self.x_pos >= BORDER_PADDING + CHAR_RASTER_WIDTH
    }

    /// Backspace climbs one text line, parking the caret at the console
    /// width, when there is no horizontal room and the cursor is off the top
    /// line.
    pub open spec fn backspace_lines_up(self) -> bool {
        !self.backspace_is_noop() && self.x_pos < BORDER_PADDING + CHAR_RASTER_WIDTH
            && self.y_pos != BORDER_PADDING
    }

    /// What a backspace needs of the cursor: an erased glyph box must lie
    /// within the console, and climbing a line must have a full line above.
    pub open spec fn backspace_pre(self) -> bool {
        &&& (self.backspace_erases() ==> self.y_pos + CHAR_RASTER_HEIGHT <= self.info.height)
        &&& (self.backspace_lines_up() ==> self.y_pos >= CHAR_RASTER_HEIGHT + LINE_SPACING)
    }

    /// How `backspace` relates the state before to the state after. The
    /// anchor is the backspace floor and is never moved; at the anchor the
    /// cursor snaps back to it, elsewhere the erase starts from the cursor.
    pub open spec fn backspace_rel(pre: Self, post: Self) -> bool {
        &&& post.info == pre.info
        &&& post.color == pre.color
        &&& post.x == pre.x
        &&& post.y == pre.y
        &&& post.framebuffer@.len() == pre.framebuffer@.len()
        &&& if pre.backspace_is_noop() {
            &&& post.x_pos == pre.x
            &&& post.y_pos == pre.y_pos
            &&& post.framebuffer@ == pre.framebuffer@
        } else if pre.backspace_erases() {
            &&& post.x_pos == pre.x_pos - CHAR_RASTER_WIDTH
            &&& post.y_pos == pre.y_pos
            &&& (forall|dy: int, dx: int, j: int|
                0 <= dy < CHAR_RASTER_HEIGHT && 0 <= dx < CHAR_RASTER_WIDTH && 0 <= j
                    < pre.info.bytes_per_pixel ==> #[trigger] post.framebuffer@[pixel_byte_offset(
                    pre.info,
                    pre.x_pos - CHAR_RASTER_WIDTH + dx,
                    pre.y_pos + dy,
                ) + j] == 0u8)
            &&& (forall|k: int|
                0 <= k < pre.framebuffer@.len() && !in_glyph_box(
                    pre.info,
                    pre.x_pos - CHAR_RASTER_WIDTH,
                    pre.y_pos as int,
                    k,
                ) ==> post.framebuffer@[k] == pre.framebuffer@[k])
        } else if pre.backspace_lines_up() {
            &&& post.x_pos == pre.info.width
            &&& post.y_pos == pre.y_pos - (CHAR_RASTER_HEIGHT + LINE_SPACING)
            &&& post.framebuffer@ == pre.framebuffer@
        } else {
            &&& post.x_pos == pre.x_pos
            &&& post.y_pos == pre.y_pos
            &&& post.framebuffer@ == pre.framebuffer@
        }
    }

    /// The glyph-sized box at `(x0, y0)` holds the palette bytes of the
    /// given intensities, and every byte outside the box kept its value.
    pub open spec fn glyph_box_drawn(
        pre: Self,
        post: Self,
        x0: int,
        y0: int,
        rows: Seq<Seq<u8>>,
    ) -> bool {
        &&& (forall|dy: int, dx: int, j: int|
            0 <= dy < CHAR_RASTER_HEIGHT && 0 <= dx < CHAR_RASTER_WIDTH && 0 <= j
                < pre.info.bytes_per_pixel ==> post.framebuffer@[pixel_byte_offset(
                pre.info,
                x0 + dx,
                y0 + dy,
            ) + j] == pixel_bytes(pre.info.pixel_format, pre.color, rows[dy][dx])[j])
        &&& (forall|k: int|
            0 <= k < pre.framebuffer@.len() && !in_glyph_box(pre.info, x0, y0, k)
                ==> post.framebuffer@[k] == pre.framebuffer@[k])
    }

    /// Draws a glyph-sized box of intensities with its top-left pixel at
    /// `(x0, y0)`, one pixel at a time.
    fn blit_box(&mut self, x0: usize, y0: usize, glyph: &Glyph)
        requires
            old(self).wf(),
            glyph.wf(),
            x0 + CHAR_RASTER_WIDTH <= old(self).info.stride,
            y0 + CHAR_RASTER_HEIGHT <= old(self).info.height,
        ensures
            final(self).wf(),
            *final(self) == (FrameBufferWriter {
                framebuffer: final(self).framebuffer,
                ..*old(self)
            }),
            final(self).framebuffer@.len() == old(self).framebuffer@.len(),
            Self::glyph_box_drawn(
                *old(self),
                *final(self),
                x0 as int,
                y0 as int,
                glyph.intensities(),
            ),
    {
        let mut dy: usize = 0;
        while dy < CHAR_RASTER_HEIGHT
            invariant
                old(self).wf(),
                glyph.wf(),
                x0 + CHAR_RASTER_WIDTH <= old(self).info.stride,
                y0 + CHAR_RASTER_HEIGHT <= old(self).info.height,
                dy <= CHAR_RASTER_HEIGHT,
                self.wf(),
                *self == (FrameBufferWriter { framebuffer: self.framebuffer, ..*old(self) }),
                self.framebuffer@.len() == old(self).framebuffer@.len(),
                forall|ddy: int, ddx: int, j: int|
                    0 <= ddy < dy && 0 <= ddx < CHAR_RASTER_WIDTH && 0 <= j < old(
                        self,
                    ).info.bytes_per_pixel ==> self.framebuffer@[pixel_byte_offset(
                        old(self).info,
                        x0 + ddx,
                        y0 + ddy,
                    ) + j] == pixel_bytes(
                        old(self).info.pixel_format,
                        old(self).color,
                        glyph.intensities()[ddy][ddx],
                    )[j],
                forall|k: int|
                    0 <= k < old(self).framebuffer@.len() && !in_glyph_box(
                        old(self).info,
                        x0 as int,
                        y0 as int,
                        k,
                    ) ==> self.framebuffer@[k] == old(self).framebuffer@[k],
            decreases CHAR_RASTER_HEIGHT - dy,
        {
            let mut dx: usize = 0;
            while dx < CHAR_RASTER_WIDTH
                invariant
                    old(self).wf(),
                    glyph.wf(),
                    x0 + CHAR_RASTER_WIDTH <= old(self).info.stride,
                    y0 + CHAR_RASTER_HEIGHT <= old(self).info.height,
                    dy < CHAR_RASTER_HEIGHT,
                    dx <= CHAR_RASTER_WIDTH,
                    self.wf(),
                    *self == (FrameBufferWriter { framebuffer: self.framebuffer, ..*old(self) }),
                    self.framebuffer@.len() == old(self).framebuffer@.len(),
                    forall|ddy: int, ddx: int, j: int|
                        0 <= ddy < dy && 0 <= ddx < CHAR_RASTER_WIDTH && 0 <= j < old(
                            self,
                        ).info.bytes_per_pixel ==> self.framebuffer@[pixel_byte_offset(
                            old(self).info,
                            x0 + ddx,
                            y0 + ddy,
                        ) + j] == pixel_bytes(
                            old(self).info.pixel_format,
                            old(self).color,
                            glyph.intensities()[ddy][ddx],
                        )[j],
                    forall|ddx: int, j: int|
                        0 <= ddx < dx && 0 <= j < old(self).info.bytes_per_pixel
                            ==> self.framebuffer@[pixel_byte_offset(
                            old(self).info,
                            x0 + ddx,
                            y0 + dy,
                        ) + j] == pixel_bytes(
                            old(self).info.pixel_format,
                            old(self).color,
                            glyph.intensities()[dy as int][ddx],
                        )[j],
                    forall|k: int|
                        0 <= k < old(self).framebuffer@.len() && !in_glyph_box(
                            old(self).info,
                            x0 as int,
                            y0 as int,
                            k,
                        ) ==> self.framebuffer@[k] == old(self).framebuffer@[k],
                decreases CHAR_RASTER_WIDTH - dx,
            {
                let row: &Vec<u8> = &glyph.rows[dy];
                let intensity: u8 = row[dx];
                let px: usize = x0 + dx;
                let py: usize = y0 + dy;
                let ghost prev = *self;
                self.write_pixel(px, py, intensity);
                proof {
                    let info = old(self).info;
                    let bpp = info.bytes_per_pixel as int;
                    let cx = x0 + dx as int;
                    let cy = y0 + dy as int;
                    assert forall|ddy: int, ddx: int, j: int|
                        0 <= ddy < dy && 0 <= ddx < CHAR_RASTER_WIDTH && 0 <= j < bpp implies
                        self.framebuffer@[pixel_byte_offset(info, x0 + ddx, y0 + ddy) + j]
                            == pixel_bytes(
                            info.pixel_format,
                            old(self).color,
                            glyph.intensities()[ddy][ddx],
                        )[j] by {
                        lemma_pixel_offset_in_bounds(info, x0 + ddx, y0 + ddy);
                        lemma_pixel_bytes_disjoint(
                            info,
                            x0 + ddx,
                            y0 + ddy,
                            cx,
                            cy,
                            pixel_byte_offset(info, x0 + ddx, y0 + ddy) + j,
                        );
                    }
                    assert forall|ddx: int, j: int| 0 <= ddx < dx && 0 <= j < bpp implies
                        self.framebuffer@[pixel_byte_offset(info, x0 + ddx, y0 + dy) + j]
                            == pixel_bytes(
                            info.pixel_format,
                            old(self).color,
                            glyph.intensities()[dy as int][ddx],
                        )[j] by {
                        lemma_pixel_offset_in_bounds(info, x0 + ddx, y0 + dy);
                        lemma_pixel_bytes_disjoint(
                            info,
                            x0 + ddx,
                            y0 + dy,
                            cx,
                            cy,
                            pixel_byte_offset(info, x0 + ddx, y0 + dy) + j,
                        );
                    }
                    assert forall|k: int|
                        0 <= k < old(self).framebuffer@.len() && !in_glyph_box(
                            info,
                            x0 as int,
                            y0 as int,
                            k,
                        ) implies self.framebuffer@[k] == old(self).framebuffer@[k] by {
                        if pixel_byte_offset(info, cx, cy) <= k < pixel_byte_offset(info, cx, cy)
                            + bpp {
                            assert(0 <= (dy as int) < CHAR_RASTER_HEIGHT);
                            assert(0 <= (dx as int) < CHAR_RASTER_WIDTH);
                            assert(in_glyph_box(info, x0 as int, y0 as int, k));
                        }
                    }
                    assert(glyph.intensities()[dy as int][dx as int] == intensity);
                }
                dx = dx + 1;
            }
            dy = dy + 1;
        }
    }

    /// Blits a rendered glyph at the cursor and advances the cursor by the
    /// glyph's width plus the letter spacing.
    fn write_rendered_char(&mut self, rendered_char: &Glyph)
        requires
            old(self).wf(),
            rendered_char.wf(),
            old(self).x_pos + CHAR_RASTER_WIDTH <= old(self).info.width,
            old(self).y_pos + CHAR_RASTER_HEIGHT <= old(self).info.height,
        ensures
            final(self).wf(),
            final(self).x_pos == old(self).x_pos + CHAR_RASTER_WIDTH + LETTER_SPACING,
            *final(self) == (FrameBufferWriter {
                framebuffer: final(self).framebuffer,
                x_pos: final(self).x_pos,
                ..*old(self)
            }),
            final(self).framebuffer@.len() == old(self).framebuffer@.len(),
            Self::glyph_box_drawn(
                *old(self),
                *final(self),
                old(self).x_pos as int,
                old(self).y_pos as int,
                rendered_char.intensities(),
            ),
    {
        let x0 = self.x_pos;
        let y0 = self.y_pos;
        self.blit_box(x0, y0, rendered_char);
        self.x_pos = self.x_pos + rendered_char.width + LETTER_SPACING;
    }

    /// What writing one character needs of the cursor, per branch: a line
    /// feed advances the vertical position one line, an ordinary character
    /// at most one forced line feed plus the bottom-edge check, so each
    /// needs that much headroom in the machine word; a carriage return
    /// needs nothing; a backspace needs its own conditions.
    pub open spec fn write_char_pre(self, c: char) -> bool {
        &&& (c == '\n' ==> self.y_pos + CHAR_RASTER_HEIGHT + LINE_SPACING <= usize::MAX)
        &&& (c != '\n' && c != '\r' && c != '\x08' ==> self.y_pos + 2 * (CHAR_RASTER_HEIGHT
            + LINE_SPACING) <= usize::MAX)
        &&& (c == '\x08' ==> self.backspace_pre())
    }

    /// How printing an ordinary character relates the state before to the
    /// state after: one forced line feed when the glyph would cross the
    /// right edge, a full clear when it would cross the bottom edge, then
    /// the glyph drawn at the resulting cursor, which advances by the
    /// glyph's width.
    pub open spec fn print_char_rel(pre: Self, post: Self, c: char) -> bool {
        let wrapped = pre.x_pos + CHAR_RASTER_WIDTH >= pre.info.width;
        let y1 = if wrapped {
            pre.y_pos + CHAR_RASTER_HEIGHT + LINE_SPACING
        } else {
            pre.y_pos as int
        };
        let cleared = y1 + CHAR_RASTER_HEIGHT + BORDER_PADDING >= pre.info.height;
        let x0 = if wrapped || cleared {
            BORDER_PADDING as int
        } else {
            pre.x_pos as int
        };
        let y0 = if cleared {
            BORDER_PADDING as int
        } else {
            y1
        };
        &&& post.info == pre.info
        &&& post.color == pre.color
        &&& post.x == pre.x
        &&& post.y == pre.y
        &&& post.x_pos == x0 + CHAR_RASTER_WIDTH + LETTER_SPACING
        &&& post.y_pos == y0
        &&& post.framebuffer@.len() == pre.framebuffer@.len()
        &&& (forall|dy: int, dx: int, j: int|
            0 <= dy < CHAR_RASTER_HEIGHT && 0 <= dx < CHAR_RASTER_WIDTH && 0 <= j
                < pre.info.bytes_per_pixel ==> #[trigger] post.framebuffer@[pixel_byte_offset(
                pre.info,
                x0 + dx,
                y0 + dy,
            ) + j] == pixel_bytes(pre.info.pixel_format, pre.color, glyph_rows(c)[dy][dx])[j])
        &&& (forall|k: int|
            0 <= k < pre.framebuffer@.len() && !in_glyph_box(pre.info, x0, y0, k)
                ==> #[trigger] post.framebuffer@[k] == (if cleared {
                0u8
            } else {
                pre.framebuffer@[k]
            }))
    }

    /// How `write_char` relates the state before to the state after, for
    /// every character: line feed, carriage return, backspace, or an
    /// ordinary character that is rasterized and drawn.
    pub open spec fn write_char_rel(pre: Self, post: Self, c: char) -> bool {
        if c == '\n' {
            post == (FrameBufferWriter {
                x_pos: BORDER_PADDING,
                y_pos: (pre.y_pos + CHAR_RASTER_HEIGHT + LINE_SPACING) as usize,
                ..pre
            })
        } else if c == '\r' {
            post == (FrameBufferWriter { x_pos: BORDER_PADDING, ..pre })
        } else if c == '\x08' {
            Self::backspace_rel(pre, post)
        } else {
            Self::print_char_rel(pre, post, c)
        }
    }

    /// Deletes the last character printed: at the anchor — the floor below
    /// which nothing can be erased — the cursor snaps back to it and stops;
    /// with horizontal room it erases one glyph's bounding box back from
    /// the cursor; otherwise it climbs one text line, parking the caret at
    /// the console width (the true length of the previous line is not
    /// retained; this approximation is deliberate).
    pub fn backspace(&mut self)
        requires
            old(self).wf(),
            old(self).backspace_pre(),
        ensures
            final(self).wf(),
            Self::backspace_rel(*old(self), *final(self)),
    {
        if (self.x_pos == self.x || self.x_pos == self.x + 1 || self.x_pos == self.x + 2)
            && self.y_pos == self.y {
            self.x_pos = self.x;
        } else {
            if self.x_pos >= BORDER_PADDING + CHAR_RASTER_WIDTH {
                self.x_pos = self.x_pos - CHAR_RASTER_WIDTH;
                let x0 = self.x_pos;
                let y0 = self.y_pos;
                let blank = Glyph::blank();
                self.blit_box(x0, y0, &blank);
                proof {
                    crate::palette::lemma_zero_intensity(
                        old(self).info.pixel_format,
                        old(self).color,
                    );
                    let info = old(self).info;
                    assert forall|dy: int, dx: int, j: int|
                        0 <= dy < CHAR_RASTER_HEIGHT && 0 <= dx < CHAR_RASTER_WIDTH && 0 <= j
                            < info.bytes_per_pixel implies #[trigger] self.framebuffer@[pixel_byte_offset(
                        info,
                        old(self).x_pos - CHAR_RASTER_WIDTH + dx,
                        old(self).y_pos + dy,
                    ) + j] == 0u8 by {
                        let ix = x0 as int + dx;
                        let iy = y0 as int + dy;
                        assert(self.framebuffer@[pixel_byte_offset(info, ix, iy) + j]
                            == pixel_bytes(
                            info.pixel_format,
                            old(self).color,
                            blank.intensities()[dy][dx],
                        )[j]);
                        assert(blank.intensities()[dy][dx] == 0u8);
                        assert(pixel_byte_offset(info, ix, iy) == pixel_byte_offset(
                            info,
                            old(self).x_pos - CHAR_RASTER_WIDTH + dx,
                            old(self).y_pos + dy,
                        ));
                    }
                    assert forall|k: int|
                        0 <= k < old(self).framebuffer@.len() && !in_glyph_box(
                            info,
                            old(self).x_pos - CHAR_RASTER_WIDTH,
                            old(self).y_pos as int,
                            k,
                        ) implies self.framebuffer@[k] == old(self).framebuffer@[k] by {
                        assert(x0 as int == old(self).x_pos - CHAR_RASTER_WIDTH);
                        assert(y0 as int == old(self).y_pos as int);
                    }
                }
            } else if self.y_pos != BORDER_PADDING {
                self.y_pos = self.y_pos - (CHAR_RASTER_HEIGHT + LINE_SPACING);
                let w = self.width();
                self.x_pos = w;
            }
        }
    }

    /// Writes a single character. A line feed advances the cursor one text
    /// line and returns it to the border padding; a carriage return only
    /// returns it; a backspace deletes; any other character is rasterized
    /// and drawn, after at most one forced line feed at the right edge and
    /// a full clear at the bottom edge.
    pub fn write_char(&mut self, c: char)
        requires
            old(self).wf(),
            old(self).write_char_pre(c),
        ensures
            final(self).wf(),
            Self::write_char_rel(*old(self), *final(self), c),
    {
        match c {
            '\n' => self.newline(),
            '\r' => self.carriage_return(),
            '\x08' => self.backspace(),
            _ => {
                let new_xpos = self.x_pos + CHAR_RASTER_WIDTH;
                if new_xpos >= self.info.width {
                    self.newline();
                }
                let new_ypos = self.y_pos + CHAR_RASTER_HEIGHT + BORDER_PADDING;
                if new_ypos >= self.info.height {
                    self.clear();
                }
                let glyph = get_char_raster(c);
                self.write_rendered_char(&glyph);
                proof {
                    assert(glyph.intensities() == glyph_rows(c));
                }
            },
        }
    }

    /// Every character of the sequence can be written in turn: each write
    /// leaves a state that meets the needs of the next.
    pub open spec fn can_write_seq(self, cs: Seq<char>) -> bool
        decreases cs.len(),
    {
        cs.len() == 0 || {
            &&& self.write_char_pre(cs[0])
            &&& (forall|mid: FrameBufferWriter|
                (#[trigger] Self::write_char_rel(self, mid, cs[0])) && mid.wf()
                    ==> mid.can_write_seq(cs.drop_first()))
        }
    }

    /// The state after writing the characters in sequence order, one
    /// `write_char` at a time.
    pub open spec fn write_str_rel(pre: Self, post: Self, cs: Seq<char>) -> bool
        decreases cs.len(),
    {
        if cs.len() == 0 {
            post == pre
        } else {
            exists|mid: FrameBufferWriter|
                (#[trigger] Self::write_char_rel(pre, mid, cs[0])) && mid.wf()
                    && Self::write_str_rel(mid, post, cs.drop_first())
        }
    }

    /// Extending a written sequence by one more character keeps the
    /// sequence-writing relation.
    proof fn lemma_write_str_rel_snoc(pre: Self, mid: Self, post: Self, cs: Seq<char>, c: char)
        requires
            Self::write_str_rel(pre, mid, cs),
            Self::write_char_rel(mid, post, c),
            mid.wf(),
            post.wf(),
        ensures
            Self::write_str_rel(pre, post, cs.push(c)),
        decreases cs.len(),
    {
        if cs.len() == 0 {
            assert(mid == pre);
            assert(cs.push(c)[0] == c);
            assert(cs.push(c).drop_first() =~= Seq::<char>::empty());
            assert(Self::write_str_rel(post, post, cs.push(c).drop_first()));
            assert(Self::write_char_rel(pre, post, cs.push(c)[0]));
            assert(Self::write_str_rel(pre, post, cs.push(c)));
        } else {
            let mid1 = choose|m: FrameBufferWriter|
                (#[trigger] Self::write_char_rel(pre, m, cs[0])) && m.wf()
                    && Self::write_str_rel(m, mid, cs.drop_first());
            Self::lemma_write_str_rel_snoc(mid1, mid, post, cs.drop_first(), c);
            assert(cs.push(c)[0] == cs[0]);
            assert(cs.push(c).drop_first() =~= cs.drop_first().push(c));
            assert(Self::write_str_rel(mid1, post, cs.push(c).drop_first()));
            assert(Self::write_char_rel(pre, mid1, cs.push(c)[0]));
            assert(exists|m: FrameBufferWriter|
                (#[trigger] Self::write_char_rel(pre, m, cs.push(c)[0])) && m.wf()
                    && Self::write_str_rel(m, post, cs.push(c).drop_first()));
            assert(cs.push(c).len() != 0);
            assert(Self::write_str_rel(pre, post, cs.push(c)));
        }
    }

    /// Writes each character of the string in sequence order; writing has
    /// no failure mode.
    pub fn write_str(&mut self, s: &str)
        requires
            old(self).wf(),
            old(self).can_write_seq(s@),
        ensures
            final(self).wf(),
            Self::write_str_rel(*old(self), *final(self), s@),
    {
        let n: usize = s.unicode_len();
        let mut i: usize = 0;
        proof {
            assert(s@.take(0) =~= Seq::<char>::empty());
            assert(s@.skip(0) =~= s@);
        }
        while i < n
            invariant
                n == s@.len(),
                i <= n,
                self.wf(),
                Self::write_str_rel(*old(self), *self, s@.take(i as int)),
                self.can_write_seq(s@.skip(i as int)),
            decreases n - i,
        {
            let c: char = s.get_char(i);
            let ghost pre_step = *self;
            proof {
                assert(s@.skip(i as int)[0] == s@[i as int]);
            }
            self.write_char(c);
            proof {
                assert(Self::write_char_rel(pre_step, *self, s@.skip(i as int)[0]));
                assert((*self).can_write_seq(s@.skip(i as int).drop_first()));
                assert(s@.skip(i as int).drop_first() =~= s@.skip(i as int + 1));
                Self::lemma_write_str_rel_snoc(*old(self), pre_step, *self, s@.take(i as int), c);
                assert(s@.take(i as int).push(c) =~= s@.take(i as int + 1));
            }
            i = i + 1;
        }
        proof {
            assert(s@.take(n as int) =~= s@);
        }
    }

    /// Clearing is idempotent: a second clear reproduces exactly the state
    /// the first produced — the same all-zero framebuffer and the same
    /// cursor at the border-padding origin.
    pub proof fn lemma_clear_idempotent(w0: Self, w1: Self, w2: Self)
        requires
            Self::clear_rel(w0, w1),
            Self::clear_rel(w1, w2),
        ensures
            w2.x_pos == w1.x_pos,
            w2.y_pos == w1.y_pos,
            w2.x == w1.x,
            w2.y == w1.y,
            w2.color == w1.color,
            w2.info == w1.info,
            w2.framebuffer@ == w1.framebuffer@,
    {
        assert(w2.framebuffer@ =~= w1.framebuffer@);
    }

    /// A character whose width would cross the right edge forces exactly
    /// one line feed before it is drawn — one line's advance, never two —
    /// and the glyph lands at the border padding.
    pub proof fn lemma_overflow_wraps_once(pre: Self, post: Self, c: char)
        requires
            c != '\n' && c != '\r' && c != '\x08',
            Self::write_char_rel(pre, post, c),
            pre.x_pos + CHAR_RASTER_WIDTH >= pre.info.width,
            pre.y_pos + 2 * CHAR_RASTER_HEIGHT + LINE_SPACING + BORDER_PADDING < pre.info.height,
        ensures
            post.y_pos == pre.y_pos + CHAR_RASTER_HEIGHT + LINE_SPACING,
            post.x_pos == BORDER_PADDING + CHAR_RASTER_WIDTH + LETTER_SPACING,
    {
    }

    /// Backspace after at least one full glyph — the cursor away from the
    /// anchor, with horizontal room — moves the cursor back by exactly one
    /// glyph width and zeroes that glyph's bounding box.
    pub proof fn lemma_backspace_erases_one_glyph(pre: Self, post: Self)
        requires
            Self::backspace_rel(pre, post),
            pre.backspace_erases(),
        ensures
            post.x_pos == pre.x_pos - CHAR_RASTER_WIDTH,
            post.y_pos == pre.y_pos,
            forall|dy: int, dx: int, j: int|
                0 <= dy < CHAR_RASTER_HEIGHT && 0 <= dx < CHAR_RASTER_WIDTH && 0 <= j
                    < pre.info.bytes_per_pixel ==> #[trigger] post.framebuffer@[pixel_byte_offset(
                    pre.info,
                    pre.x_pos - CHAR_RASTER_WIDTH + dx,
                    pre.y_pos + dy,
                ) + j] == 0u8,
    {
    }


    /// A character sequence without backspaces can always be written, given
    /// vertical headroom in the machine word for its line feeds.
    pub proof fn lemma_can_write_no_backspace(w: Self, cs: Seq<char>)
        requires
            w.wf(),
            forall|i: int| 0 <= i < cs.len() ==> cs[i] != '\x08',
            w.y_pos + (cs.len() + 2) * (CHAR_RASTER_HEIGHT + LINE_SPACING) <= usize::MAX,
        ensures
            w.can_write_seq(cs),
        decreases cs.len(),
    {
        if cs.len() > 0 {
            assert(cs[0] != '\x08');
            assert(w.y_pos + 2 * (CHAR_RASTER_HEIGHT + LINE_SPACING) <= usize::MAX)
                by (nonlinear_arith)
                requires
                    w.y_pos + (cs.len() + 2) * (CHAR_RASTER_HEIGHT + LINE_SPACING) <= usize::MAX,
                    cs.len() >= 1,
            ;
            assert(w.write_char_pre(cs[0]));
            assert forall|mid: FrameBufferWriter|
                (#[trigger] Self::write_char_rel(w, mid, cs[0]))
                    && mid.wf() implies mid.can_write_seq(cs.drop_first()) by {
                assert(mid.y_pos <= w.y_pos + (CHAR_RASTER_HEIGHT + LINE_SPACING));
                assert forall|i: int|
                    0 <= i < cs.drop_first().len() implies cs.drop_first()[i] != '\x08' by {
                    assert(cs.drop_first()[i] == cs[i + 1]);
                }
                assert(mid.y_pos + (cs.drop_first().len() + 2) * (CHAR_RASTER_HEIGHT
                    + LINE_SPACING) <= usize::MAX) by (nonlinear_arith)
                    requires
                        mid.y_pos <= w.y_pos + (CHAR_RASTER_HEIGHT + LINE_SPACING),
                        w.y_pos + (cs.len() + 2) * (CHAR_RASTER_HEIGHT + LINE_SPACING)
                            <= usize::MAX,
                        cs.drop_first().len() == cs.len() - 1,
                        cs.len() >= 1,
                ;
                Self::lemma_can_write_no_backspace(mid, cs.drop_first());
            }
        }
    }


    /// Backspace at the anchor position is a no-op beyond snapping the
    /// cursor to the anchor: nothing is erased, the framebuffer and the
    /// anchor stay as they were, and the cursor cannot retreat past the
    /// anchor.
    pub proof fn lemma_backspace_at_anchor_is_noop(pre: Self, post: Self)
        requires
            Self::backspace_rel(pre, post),
            pre.backspace_is_noop(),
        ensures
            post.x_pos == pre.x,
            post.x == pre.x,
            post.y_pos == pre.y_pos,
            post.framebuffer@ == pre.framebuffer@,
    {
    }
}

} // verus!
