//! Drawing to the linear framebuffer of the chosen video mode: pixels, glyphs
//! of the firmware's bitmap font, and a text cursor.
//!
//! A [`Screen`] holds the framebuffer memory as bytes. Contracts speak of
//! those bytes: what is written where, and that nothing else changes.

use vstd::prelude::*;
use vstd::string::StrSliceExecFns;
use crate::vbe::FramebufferInfo;

verus! {

/// Bytes of one glyph in the font: sixteen rows of eight pixels.
pub const GLYPH_BYTES: usize = 16;

/// Bytes of the whole font: 256 glyphs.
pub const FONT_BYTES: usize = 0x1000;

/// Width of a character cell in pixels.
pub const CELL_WIDTH: u16 = 8;

/// Height of a character cell in pixels.
pub const CELL_HEIGHT: u16 = 16;

/// The only depth that can be drawn to.
pub const SUPPORTED_DEPTH: u8 = 24;

/// A color by its red, green and blue parts.
#[derive(Clone, Copy, Debug, PartialEq, Eq, Structural)]
pub struct Color {
    pub r: u8,
    pub g: u8,
    pub b: u8,
}

impl Color {
    /// Pure red.
    pub fn red() -> (c: Color)
        ensures
            c == (Color { r: 0xff, g: 0, b: 0 }),
    {
        Color { r: 0xff, g: 0, b: 0 }
    }

    /// Pure green.
    pub fn green() -> (c: Color)
        ensures
            c == (Color { r: 0, g: 0xff, b: 0 }),
    {
        Color { r: 0, g: 0xff, b: 0 }
    }

    /// Pure blue.
    pub fn blue() -> (c: Color)
        ensures
            c == (Color { r: 0, g: 0, b: 0xff }),
    {
        Color { r: 0, g: 0, b: 0xff }
    }

    /// White, the color of text.
    pub fn white() -> (c: Color)
        ensures
            c == (Color { r: 0xff, g: 0xff, b: 0xff }),
    {
        Color { r: 0xff, g: 0xff, b: 0xff }
    }

    /// The color with the given parts.
    pub fn new(r: u8, g: u8, b: u8) -> (c: Color)
        ensures
            c == (Color { r, g, b }),
    {
        Color { r, g, b }
    }
}

/// Why a drawing request was refused.
#[derive(Clone, Copy, Debug, PartialEq, Eq, Structural)]
pub enum DrawError {
    /// The pixel or the character cell lies outside the screen.
    OutOfRange,
    /// The mode does not have 24 bits per pixel.
    UnsupportedDepth,
    /// No font has been loaded.
    NoFont,
    /// The cursor is past the last character cell; scrolling is not done.
    ScreenFull,
    /// The memory or the font handed over does not fit the mode.
    BadGeometry,
}

impl DrawError {
    /// The short text shown when the error is fatal.
    pub fn diagnostic(&self) -> (r: &'static str)
        ensures
            r@ == (match *self {
                DrawError::OutOfRange => "Bad position"@,
                DrawError::UnsupportedDepth => "bits per pixel not supported"@,
                DrawError::NoFont => "No font set"@,
                DrawError::ScreenFull => "Scrolling not implemented"@,
                DrawError::BadGeometry => "framebuffer does not fit the mode"@,
            }),
    {
        match self {
            DrawError::OutOfRange => "Bad position",
            DrawError::UnsupportedDepth => "bits per pixel not supported",
            DrawError::NoFont => "No font set",
            DrawError::ScreenFull => "Scrolling not implemented",
            DrawError::BadGeometry => "framebuffer does not fit the mode",
        }
    }
}

/// Offset of the first byte of pixel (`x`, `y`) from the start of the
/// framebuffer.
pub open spec fn pixel_offset(info: FramebufferInfo, x: int, y: int) -> int {
    y * info.bytes_per_scan_line + x * (info.bits_per_pixel / 8)
}

/// The memory after one pixel of 24 bits was written at `offset`: its blue,
/// green and red parts, in this order.
pub open spec fn put_pixel(memory: Seq<u8>, offset: int, color: Color) -> Seq<u8> {
    memory.update(offset, color.b).update(offset + 1, color.g).update(offset + 2, color.r)
}

/// The memory holds every row of the mode, and a row of 24-bit pixels fits
/// between the start of one row and the start of the next.
pub open spec fn memory_fits(info: FramebufferInfo, len: int) -> bool {
    &&& len == info.height * info.bytes_per_scan_line
    &&& info.bits_per_pixel == SUPPORTED_DEPTH ==> 3 * info.width <= info.bytes_per_scan_line
}

/// Bit `shift`, counted from the least significant, of row `row` of a glyph
/// is set.
pub open spec fn glyph_bit(font: Seq<u8>, glyph: u8, row: int, shift: int) -> bool {
    (font[glyph as int * 16 + row] >> (shift as u8)) & 1u8 != 0
}

/// Offset of the pixel that shows bit `k % 8` of row `k / 8` of the glyph in
/// character cell (`x`, `y`): the most significant bit is the leftmost pixel.
pub open spec fn glyph_pixel_offset(info: FramebufferInfo, x: u16, y: u16, k: int) -> int {
    pixel_offset(info, 8 * x + 7 - k % 8, 16 * y + k / 8)
}

/// The memory after the first `count` bits of a glyph, row by row and within
/// a row from the least significant bit, were drawn into character cell
/// (`x`, `y`): a white pixel for each bit that is set.
pub open spec fn draw_glyph(
    memory: Seq<u8>,
    info: FramebufferInfo,
    font: Seq<u8>,
    x: u16,
    y: u16,
    glyph: u8,
    count: int,
) -> Seq<u8>
    decreases count,
{
    if count <= 0 {
        memory
    } else {
        let before = draw_glyph(memory, info, font, x, y, glyph, count - 1);
        if glyph_bit(font, glyph, (count - 1) / 8, (count - 1) % 8) {
            put_pixel(
                before,
                glyph_pixel_offset(info, x, y, count - 1),
                Color { r: 0xff, g: 0xff, b: 0xff },
            )
        } else {
            before
        }
    }
}

/// Some bit of the sixteen rows of a glyph is set: drawing the glyph sets a
/// pixel.
pub open spec fn glyph_has_bit(font: Seq<u8>, glyph: u8) -> bool {
    exists|k: int| 0 <= k < 128 && #[trigger] glyph_bit(font, glyph, k / 8, k % 8)
}

/// Character cell (`x`, `y`) lies on the screen.
pub open spec fn cell_on_screen(info: FramebufferInfo, x: u16, y: u16) -> bool {
    (x + 1) * 8 <= info.width && (y + 1) * 16 <= info.height
}

/// Byte `i` of the framebuffer memory belongs to a pixel of a mode with 24
/// bits per pixel, and not to the unused end of a row.
pub open spec fn is_pixel_byte(info: FramebufferInfo, i: int) -> bool {
    &&& 0 <= i < info.height * info.bytes_per_scan_line
    &&& info.bytes_per_scan_line > 0
    &&& i % (info.bytes_per_scan_line as int) < 3 * info.width
}

/// The part of a color held by byte `part` of a pixel: blue, green, red.
pub open spec fn pixel_part(color: Color, part: int) -> u8 {
    if part == 0 {
        color.b
    } else if part == 1 {
        color.g
    } else {
        color.r
    }
}

/// The memory after every pixel of the rows from `from` up to, not
/// including, `to` was set to `color`; the unused ends of rows, and all other
/// rows, are as they were.
pub open spec fn painted(
    memory: Seq<u8>,
    info: FramebufferInfo,
    color: Color,
    from: int,
    to: int,
) -> Seq<u8> {
    Seq::new(
        memory.len(),
        |i: int|
            if is_pixel_byte(info, i) && from * info.bytes_per_scan_line <= i < to
                * info.bytes_per_scan_line {
                pixel_part(color, (i % (info.bytes_per_scan_line as int)) % 3)
            } else {
                memory[i]
            },
    )
}

/// The glyph that stands for a character: the character itself if it is
/// ASCII, else a question mark.
pub open spec fn glyph_for(c: char) -> u8 {
    if (c as u32) < 128 {
        c as u8
    } else {
        0x3F
    }
}

/// What a [`Screen`] is: the mode, the bytes of its framebuffer, the bytes of
/// the font if one is loaded, and the cursor.
pub struct Surface {
    pub info: FramebufferInfo,
    pub pixels: Seq<u8>,
    pub font: Option<Seq<u8>>,
    pub cursor: nat,
}

impl Surface {
    /// Character cells per row.
    pub open spec fn columns(self) -> nat {
        (self.info.width / 8) as nat
    }

    /// Rows of character cells.
    pub open spec fn rows(self) -> nat {
        (self.info.height / 16) as nat
    }

    /// Why pixel (`x`, `y`) cannot be set, if it cannot: it is outside the
    /// screen, or else the depth is not supported.
    pub open spec fn pixel_error(self, x: u16, y: u16) -> Option<DrawError> {
        if x >= self.info.width || y >= self.info.height {
            Some(DrawError::OutOfRange)
        } else if self.info.bits_per_pixel != SUPPORTED_DEPTH {
            Some(DrawError::UnsupportedDepth)
        } else {
            None
        }
    }

    /// The surface after pixel (`x`, `y`) was set to `color`; unchanged if it
    /// cannot be set.
    pub open spec fn with_pixel(self, x: u16, y: u16, color: Color) -> Surface {
        if self.pixel_error(x, y) is Some {
            self
        } else {
            Surface {
                pixels: put_pixel(self.pixels, pixel_offset(self.info, x as int, y as int), color),
                ..self
            }
        }
    }

    /// Why glyph `c` cannot be drawn into cell (`x`, `y`), if it cannot: the
    /// cell is not on the screen, or else there is no font, or else the glyph
    /// sets a pixel and the depth is not supported. A glyph that sets no
    /// pixel can be drawn at any depth.
    pub open spec fn glyph_error(self, x: u16, y: u16, c: u8) -> Option<DrawError> {
        if !cell_on_screen(self.info, x, y) {
            Some(DrawError::OutOfRange)
        } else if self.font is None {
            Some(DrawError::NoFont)
        } else if self.info.bits_per_pixel != SUPPORTED_DEPTH && glyph_has_bit(
            self.font.unwrap(),
            c,
        ) {
            Some(DrawError::UnsupportedDepth)
        } else {
            None
        }
    }

    /// The surface after glyph `c` was drawn into cell (`x`, `y`); unchanged
    /// if it cannot be drawn.
    pub open spec fn with_glyph(self, x: u16, y: u16, c: u8) -> Surface {
        if self.glyph_error(x, y, c) is Some {
            self
        } else {
            Surface {
                pixels: draw_glyph(self.pixels, self.info, self.font.unwrap(), x, y, c, 128),
                ..self
            }
        }
    }

    /// Why a character cannot be typed, if it cannot: the screen is full, or
    /// the character is not a line feed and its glyph cannot be drawn into
    /// the cell at the cursor.
    pub open spec fn type_error(self, c: char) -> Option<DrawError> {
        if self.cursor >= self.columns() * self.rows() {
            Some(DrawError::ScreenFull)
        } else if c == '\n' {
            None
        } else {
            self.glyph_error(
                (self.cursor % self.columns()) as u16,
                (self.cursor / self.columns()) as u16,
                glyph_for(c),
            )
        }
    }

    /// The surface after `c` was typed at the cursor. A full screen moves the
    /// cursor back by one row of cells, if it can, and draws nothing; a line
    /// feed moves the cursor to the start of the next row of cells; any other
    /// character is drawn into the cell at the cursor, which then moves on by
    /// one. Any other failure changes nothing.
    pub open spec fn type_char(self, c: char) -> Surface {
        if self.cursor >= self.columns() * self.rows() {
            Surface {
                cursor: if self.cursor >= self.columns() {
                    (self.cursor - self.columns()) as nat
                } else {
                    self.cursor
                },
                ..self
            }
        } else if c == '\n' {
            Surface {
                cursor: (self.cursor + self.columns() - self.cursor % self.columns()) as nat,
                ..self
            }
        } else if self.type_error(c) is Some {
            self
        } else {
            Surface {
                cursor: self.cursor + 1,
                ..self.with_glyph(
                    (self.cursor % self.columns()) as u16,
                    (self.cursor / self.columns()) as u16,
                    glyph_for(c),
                )
            }
        }
    }

    /// The surface after the characters of `text` were typed in order, up to
    /// and including the first that cannot be typed.
    pub open spec fn type_str(self, text: Seq<char>) -> Surface
        decreases text.len(),
    {
        if text.len() == 0 {
            self
        } else if self.type_error(text[0]) is Some {
            self.type_char(text[0])
        } else {
            self.type_char(text[0]).type_str(text.drop_first())
        }
    }

    /// Why `text` cannot be typed in full, if it cannot: the error of the
    /// first character that cannot be typed.
    pub open spec fn type_str_error(self, text: Seq<char>) -> Option<DrawError>
        decreases text.len(),
    {
        if text.len() == 0 {
            None
        } else if self.type_error(text[0]) is Some {
            self.type_error(text[0])
        } else {
            self.type_char(text[0]).type_str_error(text.drop_first())
        }
    }
}

impl View for Screen {
    type V = Surface;

    open spec fn view(&self) -> Surface {
        Surface {
            info: self.info,
            pixels: self.pixels@,
            font: match self.font {
                Some(font) => Some(font@),
                None => None,
            },
            cursor: self.cursor as nat,
        }
    }
}

/// The video mode in use, its framebuffer memory, the font and the text
/// cursor.
#[derive(Debug)]
pub struct Screen {
    /// The mode in use.
    pub info: FramebufferInfo,
    /// The framebuffer memory, row after row.
    pub pixels: Vec<u8>,
    /// The bitmap font, once loaded: sixteen bytes for each of 256 glyphs.
    pub font: Option<Vec<u8>>,
    /// Number of the character cell the next character goes to.
    pub cursor: usize,
}

impl Screen {
    /// The memory fits the mode and the font, if there is one, is whole.
    pub open spec fn wf(self) -> bool {
        &&& memory_fits(self.info, self.pixels@.len() as int)
        &&& self.font matches Some(font) ==> font@.len() == FONT_BYTES
    }

    /// Makes a screen of a mode, the memory of its framebuffer and, if it was
    /// read already, the font. Refused exactly when the memory does not fit
    /// the mode or the font is not 4096 bytes long.
    pub fn new(info: FramebufferInfo, pixels: Vec<u8>, font: Option<Vec<u8>>) -> (r: Result<
        Screen,
        DrawError,
    >)
        ensures
            match r {
                Ok(screen) => {
                    &&& screen.wf()
                    &&& screen.info == info
                    &&& screen.pixels == pixels
                    &&& screen.font == font
                    &&& screen.cursor == 0
                },
                Err(e) => e == DrawError::BadGeometry && !(Screen {
                    info,
                    pixels,
                    font,
                    cursor: 0,
                }).wf(),
            },
    {
        let rows: u64 = info.height as u64;
        let stride: u64 = info.bytes_per_scan_line as u64;
        proof {
            lemma_product_bound(info.height as int, info.bytes_per_scan_line as int);
        }
        if pixels.len() as u64 != rows * stride {
            return Err(DrawError::BadGeometry);
        }
        if info.bits_per_pixel == SUPPORTED_DEPTH && 3 * (info.width as u64) > stride {
            return Err(DrawError::BadGeometry);
        }
        let font_ok: bool = match &font {
            None => true,
            Some(f) => f.len() == FONT_BYTES,
        };
        if !font_ok {
            return Err(DrawError::BadGeometry);
        }
        Ok(Screen { info, pixels, font, cursor: 0 })
    }

    /// Decides [`Screen::wf`].
    pub fn is_wf(&self) -> (r: bool)
        ensures
            r == self.wf(),
    {
        proof {
            lemma_product_bound(self.info.height as int, self.info.bytes_per_scan_line as int);
        }
        let stride: u64 = self.info.bytes_per_scan_line as u64;
        let font_ok: bool = match &self.font {
            None => true,
            Some(f) => f.len() == FONT_BYTES,
        };
        self.pixels.len() as u64 == self.info.height as u64 * stride && (self.info.bits_per_pixel
            != SUPPORTED_DEPTH || 3 * (self.info.width as u64) <= stride) && font_ok
    }

    /// Pixels per row.
    pub fn width(&self) -> (r: u16)
        ensures
            r == self.info.width,
    {
        self.info.width
    }

    /// Rows of pixels.
    pub fn height(&self) -> (r: u16)
        ensures
            r == self.info.height,
    {
        self.info.height
    }

    /// Character cells per row.
    pub fn width_char(&self) -> (r: u16)
        ensures
            r == self.info.width / 8,
    {
        self.info.width / CELL_WIDTH
    }

    /// Rows of character cells.
    pub fn height_char(&self) -> (r: u16)
        ensures
            r == self.info.height / 16,
    {
        self.info.height / CELL_HEIGHT
    }

    /// Physical address of the first byte of pixel (`x`, `y`).
    pub fn get_pixel_address(&self, x: u16, y: u16) -> (r: u64)
        ensures
            r == self.info.framebuffer + pixel_offset(self.info, x as int, y as int),
    {
        proof {
            lemma_product_bound(y as int, self.info.bytes_per_scan_line as int);
            lemma_product_bound(x as int, self.info.bits_per_pixel as int / 8);
        }
        let y_offset: u64 = y as u64 * self.info.bytes_per_scan_line as u64;
        let x_offset: u64 = x as u64 * (self.info.bits_per_pixel as u64 / 8);
        self.info.framebuffer as u64 + y_offset + x_offset
    }

    /// Sets pixel (`x`, `y`) to `color`: three bytes at the pixel's offset,
    /// blue first, then green, then red. Refused, with the screen untouched,
    /// when the pixel is outside the screen, and else when the mode does not
    /// have 24 bits per pixel.
    pub fn set_pixel(&mut self, x: u16, y: u16, color: &Color) -> (r: Result<(), DrawError>)
        requires
            old(self).wf(),
        ensures
            final(self).wf(),
            final(self).info == old(self).info,
            final(self).font == old(self).font,
            final(self).cursor == old(self).cursor,
            r == (if x >= old(self).info.width || y >= old(self).info.height {
                Err::<(), DrawError>(DrawError::OutOfRange)
            } else if old(self).info.bits_per_pixel != SUPPORTED_DEPTH {
                Err::<(), DrawError>(DrawError::UnsupportedDepth)
            } else {
                Ok::<(), DrawError>(())
            }),
            r is Err ==> final(self).pixels@ == old(self).pixels@,
            r is Ok ==> final(self).pixels@ == put_pixel(
                old(self).pixels@,
                pixel_offset(old(self).info, x as int, y as int),
                *color,
            ),
            r is Ok ==> 0 <= pixel_offset(old(self).info, x as int, y as int) && pixel_offset(
                old(self).info,
                x as int,
                y as int,
            ) + 3 <= old(self).pixels@.len(),
    {
        if x >= self.info.width || y >= self.info.height {
            return Err(DrawError::OutOfRange);
        }
        if self.info.bits_per_pixel != SUPPORTED_DEPTH {
            return Err(DrawError::UnsupportedDepth);
        }
        proof {
            lemma_pixel_in_memory(self.info, self.pixels@.len() as int, x as int, y as int);
            lemma_product_bound(y as int, self.info.bytes_per_scan_line as int);
        }
        let row_start: u64 = y as u64 * self.info.bytes_per_scan_line as u64;
        let offset: usize = (row_start + x as u64 * 3) as usize;
        self.pixels.set(offset, color.b);
        self.pixels.set(offset + 1, color.g);
        self.pixels.set(offset + 2, color.r);
        Ok(())
    }

    /// Hands the screen the font read from the firmware. Refused, with the
    /// screen untouched, exactly when the font is not 4096 bytes long.
    pub fn set_font(&mut self, font: Vec<u8>) -> (r: Result<(), DrawError>)
        requires
            old(self).wf(),
        ensures
            final(self).wf(),
            final(self).info == old(self).info,
            final(self).pixels == old(self).pixels,
            final(self).cursor == old(self).cursor,
            font@.len() == FONT_BYTES ==> r is Ok && final(self).font == Some(font),
            font@.len() != FONT_BYTES ==> r == Err::<(), DrawError>(DrawError::BadGeometry)
                && final(self).font == old(self).font,
    {
        if font.len() != FONT_BYTES {
            return Err(DrawError::BadGeometry);
        }
        self.font = Some(font);
        Ok(())
    }

    /// Draws glyph `c` of the font into character cell (`x`, `y`): each set
    /// bit of its sixteen rows becomes a white pixel, and no other pixel is
    /// touched. Refused, with the screen untouched, when the cell is not on
    /// the screen, else when no font is loaded, else when the glyph has a set
    /// bit and the mode does not have 24 bits per pixel. A glyph without a
    /// set bit is drawn at any depth, and draws nothing.
    pub fn set_char(&mut self, x: u16, y: u16, c: u8) -> (r: Result<(), DrawError>)
        requires
            old(self).wf(),
        ensures
            final(self).wf(),
            final(self)@ == old(self)@.with_glyph(x, y, c),
            final(self).info == old(self).info,
            final(self).cursor == old(self).cursor,
            final(self)@.font == old(self)@.font,
            r == (if !cell_on_screen(old(self).info, x, y) {
                Err::<(), DrawError>(DrawError::OutOfRange)
            } else if old(self).font is None {
                Err::<(), DrawError>(DrawError::NoFont)
            } else if old(self).info.bits_per_pixel != SUPPORTED_DEPTH && glyph_has_bit(
                old(self).font.unwrap()@,
                c,
            ) {
                Err::<(), DrawError>(DrawError::UnsupportedDepth)
            } else {
                Ok::<(), DrawError>(())
            }),
            r is Err ==> final(self).pixels@ == old(self).pixels@,
            r is Ok ==> final(self).pixels@ == draw_glyph(
                old(self).pixels@,
                old(self).info,
                old(self).font.unwrap()@,
                x,
                y,
                c,
                128,
            ),
            r is Ok && old(self).info.bits_per_pixel != SUPPORTED_DEPTH ==> final(self).pixels@
                == old(self).pixels@,
    {
        proof {
            if self.font is Some && !glyph_has_bit(self.font.unwrap()@, c) {
                lemma_blank_glyph_draws_nothing(
                    self.pixels@,
                    self.info,
                    self.font.unwrap()@,
                    x,
                    y,
                    c,
                    128,
                );
            }
        }
        FrameBuffer::set_char(self, x, y, c)
    }

    /// Sets every pixel of the rows from `from` up to, not including, `to`.
    fn paint_rows(&mut self, from: u16, to: u16, color: &Color)
        requires
            old(self).wf(),
            old(self).info.bits_per_pixel == SUPPORTED_DEPTH,
            from <= to <= old(self).info.height,
        ensures
            final(self).wf(),
            final(self).info == old(self).info,
            final(self).font == old(self).font,
            final(self).cursor == old(self).cursor,
            final(self).pixels@ == painted(
                old(self).pixels@,
                old(self).info,
                *color,
                from as int,
                to as int,
            ),
    {
        let ghost start = self.pixels@;
        let ghost info = self.info;
        let stride: usize = self.info.bytes_per_scan_line as usize;
        let row_bytes: usize = 3 * self.info.width as usize;
        proof {
            lemma_product_bound(from as int, stride as int);
            lemma_product_bound(to as int, stride as int);
            lemma_product_bound(info.height as int, stride as int);
            assert(from * stride <= to * stride <= info.height * stride) by (nonlinear_arith)
                requires
                    0 <= from <= to <= info.height,
                    0 <= stride,
            ;
        }
        let end: usize = to as usize * stride;
        let mut i: usize = from as usize * stride;
        while i < end
            invariant
                from * stride <= i <= end,
                end == to * stride,
                end <= start.len(),
                self.pixels@.len() == start.len(),
                start.len() == info.height * info.bytes_per_scan_line,
                stride == info.bytes_per_scan_line,
                row_bytes == 3 * info.width,
                self.info == info,
                self.font == old(self).font,
                self.cursor == old(self).cursor,
                self.wf(),
                forall|j: int|
                    0 <= j < i ==> self.pixels@[j] == painted(
                        start,
                        info,
                        *color,
                        from as int,
                        to as int,
                    )[j],
                forall|j: int| i <= j < start.len() ==> self.pixels@[j] == start[j],
            decreases end - i,
        {
            let column: usize = i % stride;
            if column < row_bytes {
                let part: usize = column % 3;
                let value: u8 = if part == 0 {
                    color.b
                } else if part == 1 {
                    color.g
                } else {
                    color.r
                };
                self.pixels.set(i, value);
            }
            i += 1;
        }
        assert(self.pixels@ =~= painted(start, info, *color, from as int, to as int));
    }

    /// Sets every pixel of the screen to `color`. Refused, with the screen
    /// untouched, exactly when the mode does not have 24 bits per pixel.
    pub fn fill(&mut self, color: &Color) -> (r: Result<(), DrawError>)
        requires
            old(self).wf(),
        ensures
            final(self).wf(),
            final(self).info == old(self).info,
            final(self).font == old(self).font,
            final(self).cursor == old(self).cursor,
            r == (if old(self).info.bits_per_pixel == SUPPORTED_DEPTH {
                Ok::<(), DrawError>(())
            } else {
                Err::<(), DrawError>(DrawError::UnsupportedDepth)
            }),
            r is Err ==> final(self).pixels@ == old(self).pixels@,
            r is Ok ==> final(self).pixels@ == painted(
                old(self).pixels@,
                old(self).info,
                *color,
                0,
                old(self).info.height as int,
            ),
    {
        if self.info.bits_per_pixel != SUPPORTED_DEPTH {
            return Err(DrawError::UnsupportedDepth);
        }
        let rows: u16 = self.info.height;
        self.paint_rows(0, rows, color);
        Ok(())
    }

    /// Sets every pixel of row `y` to `color`. Refused, with the screen
    /// untouched, when the row is outside the screen, and else when the mode
    /// does not have 24 bits per pixel.
    pub fn hline(&mut self, y: u16, color: &Color) -> (r: Result<(), DrawError>)
        requires
            old(self).wf(),
        ensures
            final(self).wf(),
            final(self).info == old(self).info,
            final(self).font == old(self).font,
            final(self).cursor == old(self).cursor,
            r == (if y >= old(self).info.height {
                Err::<(), DrawError>(DrawError::OutOfRange)
            } else if old(self).info.bits_per_pixel != SUPPORTED_DEPTH {
                Err::<(), DrawError>(DrawError::UnsupportedDepth)
            } else {
                Ok::<(), DrawError>(())
            }),
            r is Err ==> final(self).pixels@ == old(self).pixels@,
            r is Ok ==> final(self).pixels@ == painted(
                old(self).pixels@,
                old(self).info,
                *color,
                y as int,
                y + 1,
            ),
    {
        if y >= self.info.height {
            return Err(DrawError::OutOfRange);
        }
        if self.info.bits_per_pixel != SUPPORTED_DEPTH {
            return Err(DrawError::UnsupportedDepth);
        }
        self.paint_rows(y, y + 1, color);
        Ok(())
    }

    /// Moves the cursor to the first cell and makes every pixel black.
    /// Refused, with the screen untouched, exactly when the mode does not have
    /// 24 bits per pixel.
    pub fn reset(&mut self) -> (r: Result<(), DrawError>)
        requires
            old(self).wf(),
        ensures
            final(self).wf(),
            final(self).info == old(self).info,
            final(self).font == old(self).font,
            r == (if old(self).info.bits_per_pixel == SUPPORTED_DEPTH {
                Ok::<(), DrawError>(())
            } else {
                Err::<(), DrawError>(DrawError::UnsupportedDepth)
            }),
            r is Err ==> final(self).pixels@ == old(self).pixels@ && final(self).cursor == old(
                self,
            ).cursor,
            r is Ok ==> final(self).pixels@ == painted(
                old(self).pixels@,
                old(self).info,
                Color { r: 0, g: 0, b: 0 },
                0,
                old(self).info.height as int,
            ) && final(self).cursor == 0,
    {
        let black: Color = Color::new(0, 0, 0);
        match self.fill(&black) {
            Err(e) => Err(e),
            Ok(_) => {
                self.cursor = 0;
                Ok(())
            },
        }
    }

    /// Types `c` at the cursor: a line feed moves the cursor to the start of
    /// the next row of cells; any other character is drawn into the cell at
    /// the cursor, which then moves on by one. A character that is not ASCII
    /// is drawn as a question mark.
    pub fn write_char_impl(&mut self, c: char) -> (r: Result<(), DrawError>)
        requires
            old(self).wf(),
        ensures
            final(self).wf(),
            final(self)@ == old(self)@.type_char(c),
            r == (match old(self)@.type_error(c) {
                Some(e) => Err::<(), DrawError>(e),
                None => Ok::<(), DrawError>(()),
            }),
    {
        let columns: usize = self.width_char() as usize;
        let rows: usize = self.height_char() as usize;
        proof {
            lemma_product_bound(columns as int, rows as int);
        }
        let mut char_idx: usize = self.cursor;
        if char_idx >= columns * rows {
            if char_idx >= columns {
                char_idx -= columns;
            }
            self.cursor = char_idx;
            assert(self@ =~= old(self)@.type_char(c));
            return Err(DrawError::ScreenFull);
        }
        assert(columns > 0 && rows > 0) by (nonlinear_arith)
            requires
                char_idx < columns * rows,
                char_idx >= 0,
        ;
        if c == '\n' {
            char_idx += columns - char_idx % columns;
            self.cursor = char_idx;
            assert(self@ =~= old(self)@.type_char(c));
            return Ok(());
        }
        let y: usize = char_idx / columns;
        let x: usize = char_idx % columns;
        assert(y < rows) by (nonlinear_arith)
            requires
                char_idx < columns * rows,
                y == char_idx / columns,
                columns > 0,
        ;
        let glyph: u8 = if (c as u32) < 128 {
            c as u8
        } else {
            0x3F
        };
        match self.set_char(x as u16, y as u16, glyph) {
            Err(e) => {
                assert(self@ =~= old(self)@.type_char(c));
                Err(e)
            },
            Ok(_) => {
                self.cursor = char_idx + 1;
                assert(self@ =~= old(self)@.type_char(c));
                Ok(())
            },
        }
    }

    /// Types the characters of `text` in order and stops at the first that
    /// cannot be typed.
    pub fn write_str(&mut self, text: &str) -> (r: Result<(), DrawError>)
        requires
            old(self).wf(),
        ensures
            final(self).wf(),
            final(self)@ == old(self)@.type_str(text@),
            r == (match old(self)@.type_str_error(text@) {
                Some(e) => Err::<(), DrawError>(e),
                None => Ok::<(), DrawError>(()),
            }),
    {
        let n: usize = text.unicode_len();
        let mut i: usize = 0;
        assert(text@.skip(0) =~= text@);
        while i < n
            invariant
                i <= n,
                n == text@.len(),
                self.wf(),
                old(self)@.type_str(text@) == self@.type_str(text@.skip(i as int)),
                old(self)@.type_str_error(text@) == self@.type_str_error(text@.skip(i as int)),
            decreases n - i,
        {
            let c: char = text.get_char(i);
            proof {
                let rest = text@.skip(i as int);
                assert(rest[0] == c);
                assert(rest.drop_first() =~= text@.skip(i + 1));
            }
            match self.write_char_impl(c) {
                Err(e) => {
                    return Err(e);
                },
                Ok(_) => {},
            }
            i += 1;
        }
        Ok(())
    }
}

/// Something that pixels and glyphs can be drawn to.
pub trait FrameBuffer {
    /// What is drawn to.
    spec fn surface(&self) -> Surface;

    /// The value is fit to be drawn to.
    spec fn ready(&self) -> bool;

    /// Pixels per row.
    fn width(&self) -> (r: u16)
        ensures
            r == self.surface().info.width,
    ;

    /// Rows of pixels.
    fn height(&self) -> (r: u16)
        ensures
            r == self.surface().info.height,
    ;

    /// Sets pixel (`x`, `y`) to `c`, or refuses and changes nothing.
    fn set_pixel(&mut self, x: u16, y: u16, c: &Color) -> (r: Result<(), DrawError>)
        requires
            old(self).ready(),
        ensures
            final(self).ready(),
            final(self).surface() == old(self).surface().with_pixel(x, y, *c),
            r == (match old(self).surface().pixel_error(x, y) {
                Some(e) => Err::<(), DrawError>(e),
                None => Ok::<(), DrawError>(()),
            }),
    ;

    /// The bitmap font, if one is loaded: sixteen bytes for each of 256
    /// glyphs.
    fn font(&self) -> (r: Option<&Vec<u8>>)
        requires
            self.ready(),
        ensures
            match r {
                Some(font) => self.surface().font == Some(font@) && font@.len() == FONT_BYTES,
                None => self.surface().font is None,
            },
    ;

    /// Draws glyph `c` into character cell (`x`, `y`) by setting a white
    /// pixel for each set bit of the glyph, or refuses and changes nothing. A
    /// glyph without a set bit sets no pixel and is drawn at any depth.
    fn set_char(&mut self, x: u16, y: u16, c: u8) -> (r: Result<(), DrawError>)
        requires
            old(self).ready(),
        ensures
            final(self).ready(),
            final(self).surface() == old(self).surface().with_glyph(x, y, c),
            r == (match old(self).surface().glyph_error(x, y, c) {
                Some(e) => Err::<(), DrawError>(e),
                None => Ok::<(), DrawError>(()),
            }),
    {
        let ghost start = self.surface();
        if (x as u32 + 1) * 8 > self.width() as u32 || (y as u32 + 1) * 16 > self.height() as u32 {
            return Err(DrawError::OutOfRange);
        }
        if self.font().is_none() {
            return Err(DrawError::NoFont);
        }
        let ghost font = start.font.unwrap();
        let white: Color = Color::white();
        let offset: usize = c as usize * GLYPH_BYTES;
        let mut row: usize = 0;
        while row < 16
            invariant
                row <= 16,
                self.ready(),
                start == old(self).surface(),
                start.font == Some(font),
                cell_on_screen(start.info, x, y),
                offset == c * 16,
                white == (Color { r: 0xff, g: 0xff, b: 0xff }),
                self.surface() == (Surface {
                    pixels: draw_glyph(start.pixels, start.info, font, x, y, c, row * 8),
                    ..start
                }),
                start.info.bits_per_pixel != SUPPORTED_DEPTH ==> self.surface() == start,
                start.info.bits_per_pixel != SUPPORTED_DEPTH ==> forall|j: int|
                    0 <= j < row * 8 ==> !#[trigger] glyph_bit(font, c, j / 8, j % 8),
            decreases 16 - row,
        {
            let mask: u8 = match self.font() {
                Some(f) => f[offset + row],
                None => 0,
            };
            let mut shift: u8 = 0;
            while shift < 8
                invariant
                    shift <= 8,
                    row < 16,
                    self.ready(),
                    start == old(self).surface(),
                    start.font == Some(font),
                    cell_on_screen(start.info, x, y),
                    mask == font[c * 16 + row],
                    white == (Color { r: 0xff, g: 0xff, b: 0xff }),
                    self.surface() == (Surface {
                        pixels: draw_glyph(
                            start.pixels,
                            start.info,
                            font,
                            x,
                            y,
                            c,
                            row * 8 + shift,
                        ),
                        ..start
                    }),
                    start.info.bits_per_pixel != SUPPORTED_DEPTH ==> self.surface() == start,
                    start.info.bits_per_pixel != SUPPORTED_DEPTH ==> forall|j: int|
                        0 <= j < row * 8 + shift ==> !#[trigger] glyph_bit(font, c, j / 8, j % 8),
                decreases 8 - shift,
            {
                let ghost k: int = row * 8 + shift;
                assert(k / 8 == row && k % 8 == shift);
                if (mask >> shift) & 1 != 0 {
                    assert(glyph_bit(font, c, k / 8, k % 8));
                    let x_px: u16 = 8 * x + 7 - shift as u16;
                    let y_px: u16 = 16 * y + row as u16;
                    match self.set_pixel(x_px, y_px, &white) {
                        Err(e) => {
                            assert(glyph_has_bit(font, c));
                            return Err(e);
                        },
                        Ok(_) => {},
                    }
                }
                shift += 1;
            }
            row += 1;
        }
        assert(start.info.bits_per_pixel != SUPPORTED_DEPTH ==> !glyph_has_bit(font, c));
        Ok(())
    }
}

impl FrameBuffer for Screen {
    open spec fn surface(&self) -> Surface {
        self@
    }

    open spec fn ready(&self) -> bool {
        self.wf()
    }

    fn width(&self) -> (r: u16) {
        self.info.width
    }

    fn height(&self) -> (r: u16) {
        self.info.height
    }

    fn set_pixel(&mut self, x: u16, y: u16, c: &Color) -> (r: Result<(), DrawError>) {
        let r = Screen::set_pixel(self, x, y, c);
        assert(self@ =~= old(self)@.with_pixel(x, y, *c));
        r
    }

    fn font(&self) -> (r: Option<&Vec<u8>>) {
        self.font.as_ref()
    }
}

/// The product of two numbers of 16 bits fits 32 bits.
pub proof fn lemma_product_bound(a: int, b: int)
    by (nonlinear_arith)
    requires
        0 <= a <= 0xFFFF,
        0 <= b <= 0xFFFF,
    ensures
        0 <= a * b <= 0xFFFE_0001,
{
}

/// The three bytes of a pixel on the screen lie within its row of the
/// framebuffer memory.
pub proof fn lemma_pixel_in_memory(info: FramebufferInfo, len: int, x: int, y: int)
    requires
        memory_fits(info, len),
        info.bits_per_pixel == SUPPORTED_DEPTH,
        0 <= x < info.width,
        0 <= y < info.height,
    ensures
        pixel_offset(info, x, y) == y * info.bytes_per_scan_line + 3 * x,
        y * info.bytes_per_scan_line <= pixel_offset(info, x, y),
        pixel_offset(info, x, y) + 3 <= (y + 1) * info.bytes_per_scan_line,
        (y + 1) * info.bytes_per_scan_line <= len,
{
    let stride = info.bytes_per_scan_line as int;
    assert(info.bits_per_pixel / 8 == 3);
    assert((y + 1) * stride == y * stride + stride) by (nonlinear_arith);
    assert((y + 1) * stride <= info.height * stride) by (nonlinear_arith)
        requires
            y + 1 <= info.height,
            0 <= stride,
    ;
    assert(0 <= y * stride) by (nonlinear_arith)
        requires
            0 <= y,
            0 <= stride,
    ;
}

/// Writing a pixel writes exactly three bytes, blue, green, red, at its
/// offset and leaves every other byte as it was.
pub proof fn lemma_put_pixel(memory: Seq<u8>, offset: int, color: Color, i: int)
    requires
        0 <= offset,
        offset + 3 <= memory.len(),
        0 <= i < memory.len(),
    ensures
        put_pixel(memory, offset, color).len() == memory.len(),
        put_pixel(memory, offset, color)[i] == (if i == offset {
            color.b
        } else if i == offset + 1 {
            color.g
        } else if i == offset + 2 {
            color.r
        } else {
            memory[i]
        }),
{
}

/// Two pixels on the screen that share a byte are the same pixel, and the
/// byte is the same part of it.
pub proof fn lemma_pixels_apart(
    info: FramebufferInfo,
    len: int,
    x1: int,
    y1: int,
    part1: int,
    x2: int,
    y2: int,
    part2: int,
)
    requires
        memory_fits(info, len),
        info.bits_per_pixel == SUPPORTED_DEPTH,
        0 <= x1 < info.width,
        0 <= y1 < info.height,
        0 <= part1 < 3,
        0 <= x2 < info.width,
        0 <= y2 < info.height,
        0 <= part2 < 3,
        pixel_offset(info, x1, y1) + part1 == pixel_offset(info, x2, y2) + part2,
    ensures
        x1 == x2,
        y1 == y2,
        part1 == part2,
{
    lemma_pixel_in_memory(info, len, x1, y1);
    lemma_pixel_in_memory(info, len, x2, y2);
    let stride = info.bytes_per_scan_line as int;
    if y1 < y2 {
        assert((y1 + 1) * stride <= y2 * stride) by (nonlinear_arith)
            requires
                y1 + 1 <= y2,
                0 <= stride,
        ;
    } else if y2 < y1 {
        assert((y2 + 1) * stride <= y1 * stride) by (nonlinear_arith)
            requires
                y2 + 1 <= y1,
                0 <= stride,
        ;
    }
}

/// Pixel (`8 * x + 7 - k % 8`, `16 * y + k / 8`), which shows bit `k` of a
/// glyph in a cell on the screen, is on the screen.
pub proof fn lemma_glyph_pixel_on_screen(info: FramebufferInfo, x: u16, y: u16, k: int)
    requires
        cell_on_screen(info, x, y),
        0 <= k < 128,
    ensures
        0 <= 8 * x + 7 - k % 8 < info.width,
        0 <= 16 * y + k / 8 < info.height,
{
}

/// A glyph without a set bit draws nothing, whatever the mode.
pub proof fn lemma_blank_glyph_draws_nothing(
    memory: Seq<u8>,
    info: FramebufferInfo,
    font: Seq<u8>,
    x: u16,
    y: u16,
    glyph: u8,
    count: int,
)
    requires
        !glyph_has_bit(font, glyph),
        count <= 128,
    ensures
        draw_glyph(memory, info, font, x, y, glyph, count) == memory,
    decreases count,
{
    if count > 0 {
        let k = count - 1;
        assert(!glyph_bit(font, glyph, k / 8, k % 8));
        lemma_blank_glyph_draws_nothing(memory, info, font, x, y, glyph, k);
    }
}

/// Some set bit among the first `count` bits of the glyph is shown by a pixel
/// that holds byte `i`.
pub open spec fn glyph_covers(
    info: FramebufferInfo,
    font: Seq<u8>,
    x: u16,
    y: u16,
    glyph: u8,
    count: int,
    i: int,
) -> bool {
    exists|k: int|
        0 <= k < count && #[trigger] glyph_bit(font, glyph, k / 8, k % 8) && glyph_pixel_offset(
            info,
            x,
            y,
            k,
        ) <= i < glyph_pixel_offset(info, x, y, k) + 3
}

/// Drawing a glyph turns the bytes of the pixels of its set bits to 0xff and
/// leaves every other byte of the framebuffer as it was.
pub proof fn lemma_draw_glyph_bytes(
    memory: Seq<u8>,
    info: FramebufferInfo,
    font: Seq<u8>,
    x: u16,
    y: u16,
    glyph: u8,
    count: int,
    i: int,
)
    requires
        memory_fits(info, memory.len() as int),
        info.bits_per_pixel == SUPPORTED_DEPTH,
        cell_on_screen(info, x, y),
        0 <= count <= 128,
        0 <= i < memory.len(),
    ensures
        draw_glyph(memory, info, font, x, y, glyph, count).len() == memory.len(),
        draw_glyph(memory, info, font, x, y, glyph, count)[i] == (if glyph_covers(
            info,
            font,
            x,
            y,
            glyph,
            count,
            i,
        ) {
            0xffu8
        } else {
            memory[i]
        }),
    decreases count,
{
    if count > 0 {
        let k = count - 1;
        lemma_draw_glyph_bytes(memory, info, font, x, y, glyph, k, i);
        let before = draw_glyph(memory, info, font, x, y, glyph, k);
        let offset = glyph_pixel_offset(info, x, y, k);
        lemma_glyph_pixel_on_screen(info, x, y, k);
        lemma_pixel_in_memory(info, memory.len() as int, 8 * x + 7 - k % 8, 16 * y + k / 8);
        let white = Color { r: 0xff, g: 0xff, b: 0xff };
        lemma_put_pixel(before, offset, white, i);
        let was = glyph_covers(info, font, x, y, glyph, k, i);
        let now = glyph_covers(info, font, x, y, glyph, count, i);
        let hit = glyph_bit(font, glyph, k / 8, k % 8) && offset <= i < offset + 3;
        if was {
            let j = choose|j: int|
                0 <= j < k && #[trigger] glyph_bit(font, glyph, j / 8, j % 8) && glyph_pixel_offset(
                    info,
                    x,
                    y,
                    j,
                ) <= i < glyph_pixel_offset(info, x, y, j) + 3;
            assert(0 <= j < count && glyph_bit(font, glyph, j / 8, j % 8));
            assert(now);
        }
        if hit {
            assert(0 <= k < count && glyph_bit(font, glyph, k / 8, k % 8));
            assert(now);
        }
        if now && !was {
            let j = choose|j: int|
                0 <= j < count && #[trigger] glyph_bit(font, glyph, j / 8, j % 8)
                    && glyph_pixel_offset(info, x, y, j) <= i < glyph_pixel_offset(info, x, y, j)
                    + 3;
            if j < k {
                assert(0 <= j < k && glyph_bit(font, glyph, j / 8, j % 8));
                assert(was);
            }
            assert(hit);
        }
    } else {
        assert(!glyph_covers(info, font, x, y, glyph, count, i));
    }
}

/// What a drawn glyph looks like, pixel by pixel: inside the cell a pixel is
/// white where the glyph has a set bit, the most significant bit of a row
/// being its leftmost pixel; every other pixel of the screen, inside the cell
/// or outside, is as it was.
pub proof fn lemma_draw_glyph_pixels(
    memory: Seq<u8>,
    info: FramebufferInfo,
    font: Seq<u8>,
    x: u16,
    y: u16,
    glyph: u8,
    px: int,
    py: int,
    part: int,
)
    requires
        memory_fits(info, memory.len() as int),
        info.bits_per_pixel == SUPPORTED_DEPTH,
        cell_on_screen(info, x, y),
        0 <= px < info.width,
        0 <= py < info.height,
        0 <= part < 3,
    ensures
        ({
            let drawn = draw_glyph(memory, info, font, x, y, glyph, 128);
            let at = pixel_offset(info, px, py) + part;
            let in_cell = 8 * x <= px < 8 * x + 8 && 16 * y <= py < 16 * y + 16;
            &&& 0 <= at < memory.len()
            &&& drawn[at] == (if in_cell && glyph_bit(font, glyph, py - 16 * y, 7 - (px - 8 * x)) {
                0xffu8
            } else {
                memory[at]
            })
        }),
{
    let len = memory.len() as int;
    let at = pixel_offset(info, px, py) + part;
    lemma_pixel_in_memory(info, len, px, py);
    assert(0 <= py * info.bytes_per_scan_line) by (nonlinear_arith)
        requires
            0 <= py,
            0 <= info.bytes_per_scan_line,
    ;
    lemma_draw_glyph_bytes(memory, info, font, x, y, glyph, 128, at);
    let in_cell = 8 * x <= px < 8 * x + 8 && 16 * y <= py < 16 * y + 16;
    let lit = in_cell && glyph_bit(font, glyph, py - 16 * y, 7 - (px - 8 * x));
    let covered = glyph_covers(info, font, x, y, glyph, 128, at);
    if lit {
        let k = (py - 16 * y) * 8 + (7 - (px - 8 * x));
        assert(k / 8 == py - 16 * y && k % 8 == 7 - (px - 8 * x));
        assert(0 <= k < 128 && glyph_bit(font, glyph, k / 8, k % 8));
        assert(glyph_pixel_offset(info, x, y, k) == pixel_offset(info, px, py));
        assert(covered);
    }
    if covered {
        let k = choose|k: int|
            0 <= k < 128 && #[trigger] glyph_bit(font, glyph, k / 8, k % 8) && glyph_pixel_offset(
                info,
                x,
                y,
                k,
            ) <= at < glyph_pixel_offset(info, x, y, k) + 3;
        lemma_glyph_pixel_on_screen(info, x, y, k);
        let kx = 8 * x + 7 - k % 8;
        let ky = 16 * y + k / 8;
        lemma_pixels_apart(info, len, px, py, part, kx, ky, at - glyph_pixel_offset(info, x, y, k));
        assert(lit);
    }
}

/// What painted rows look like, pixel by pixel: every pixel of a painted
/// row has the color, and every pixel of another row is as it was.
pub proof fn lemma_painted_pixels(
    memory: Seq<u8>,
    info: FramebufferInfo,
    color: Color,
    from: int,
    to: int,
    px: int,
    py: int,
    part: int,
)
    requires
        memory_fits(info, memory.len() as int),
        info.bits_per_pixel == SUPPORTED_DEPTH,
        0 <= from <= to <= info.height,
        0 <= px < info.width,
        0 <= py < info.height,
        0 <= part < 3,
    ensures
        0 <= pixel_offset(info, px, py) + part < memory.len(),
        painted(memory, info, color, from, to)[pixel_offset(info, px, py) + part] == (if from <= py
            < to {
            pixel_part(color, part)
        } else {
            memory[pixel_offset(info, px, py) + part]
        }),
{
    let len = memory.len() as int;
    let stride = info.bytes_per_scan_line as int;
    lemma_pixel_in_memory(info, len, px, py);
    assert(0 <= py * stride) by (nonlinear_arith)
        requires
            0 <= py,
            0 <= stride,
    ;
    let at = pixel_offset(info, px, py) + part;
    vstd::arithmetic::div_mod::lemma_fundamental_div_mod_converse(at, stride, py, 3 * px + part);
    assert(is_pixel_byte(info, at));
    assert((3 * px + part) % 3 == part);
    if py < from {
        assert((py + 1) * stride <= from * stride) by (nonlinear_arith)
            requires
                py + 1 <= from,
                0 <= stride,
        ;
    } else if py >= to {
        assert(to * stride <= py * stride) by (nonlinear_arith)
            requires
                to <= py,
                0 <= stride,
        ;
    } else {
        assert(from * stride <= py * stride) by (nonlinear_arith)
            requires
                from <= py,
                0 <= stride,
        ;
        assert((py + 1) * stride <= to * stride) by (nonlinear_arith)
            requires
                py + 1 <= to,
                0 <= stride,
        ;
    }
}

} // verus!
