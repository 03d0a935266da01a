use vstd::prelude::*;
use vstd::string::StringSliceAdditionalSpecFns;

verus! {

/// Geometry of a linear framebuffer.
#[derive(Debug, Clone, Copy)]
pub struct FramebufferInfo {
    pub base_addr: usize,
    pub width: usize,
    pub height: usize,
    pub pitch: usize,
    pub bpp: u8,
}

#[derive(Debug, Clone, Copy, PartialEq, Eq, Structural)]
pub struct Color {
    pub r: u8,
    pub g: u8,
    pub b: u8,
    pub a: u8,
}

impl Color {
    pub fn new(r: u8, g: u8, b: u8, a: u8) -> (c: Self)
        ensures
            c == (Color { r, g, b, a }),
    {
        Self { r, g, b, a }
    }

    pub fn black() -> (c: Self)
        ensures
            c == (Color { r: 0, g: 0, b: 0, a: 255 }),
    {
        Self::new(0, 0, 0, 255)
    }

    pub fn white() -> (c: Self)
        ensures
            c == (Color { r: 255, g: 255, b: 255, a: 255 }),
    {
        Self::new(255, 255, 255, 255)
    }

    pub fn red() -> (c: Self)
        ensures
            c == (Color { r: 255, g: 0, b: 0, a: 255 }),
    {
        Self::new(255, 0, 0, 255)
    }

    pub fn green() -> (c: Self)
        ensures
            c == (Color { r: 0, g: 255, b: 0, a: 255 }),
    {
        Self::new(0, 255, 0, 255)
    }

    pub fn blue() -> (c: Self)
        ensures
            c == (Color { r: 0, g: 0, b: 255, a: 255 }),
    {
        Self::new(0, 0, 255, 255)
    }
}

/// Bytes per pixel.
pub open spec fn bytes_pp(info: FramebufferInfo) -> int {
    (info.bpp / 8) as int
}

/// Pixel depths that `set_pixel` writes.
pub open spec fn writable_depth(bpp: u8) -> bool {
    bpp == 32 || bpp == 24 || bpp == 16 || bpp == 8
}

/// First byte of pixel `(x, y)`.
pub open spec fn pixel_offset(info: FramebufferInfo, x: int, y: int) -> int {
    y * info.pitch + x * bytes_pp(info)
}

/// Size of one buffer in bytes.
pub open spec fn buffer_size(info: FramebufferInfo) -> int {
    info.pitch * info.height
}

/// Writing pixel `(x, y)` stays within the buffer and within `usize`.
pub open spec fn pixel_ok(info: FramebufferInfo, x: int, y: int) -> bool {
    x < info.width && y < info.height ==> {
        &&& pixel_offset(info, x, y) <= usize::MAX
        &&& writable_depth(info.bpp) ==> pixel_offset(info, x, y) + bytes_pp(info) <= buffer_size(info)
    }
}

/// 16-bit 5-6-5 encoding of a colour.
pub open spec fn rgb565(c: Color) -> u16 {
    (((c.r as u16 >> 3u16) << 11u16) | ((c.g as u16 >> 2u16) << 5u16)) | (c.b as u16 >> 3u16)
}

/// `buf` after pixel `(x, y)` is set to `c`.
pub open spec fn pixel_written(buf: Seq<u8>, info: FramebufferInfo, x: int, y: int, c: Color) -> Seq<u8> {
    if x < 0 || y < 0 || x >= info.width || y >= info.height {
        buf
    } else {
        let off = pixel_offset(info, x, y);
        if info.bpp == 32 {
            buf.update(off, c.b).update(off + 1, c.g).update(off + 2, c.r).update(off + 3, c.a)
        } else if info.bpp == 24 {
            buf.update(off, c.b).update(off + 1, c.g).update(off + 2, c.r)
        } else if info.bpp == 16 {
            buf.update(off, rgb565(c) as u8).update(off + 1, (rgb565(c) >> 8u16) as u8)
        } else if info.bpp == 8 {
            buf.update(off, c.r)
        } else {
            buf
        }
    }
}

proof fn lemma_565_fields(r: u8, g: u8, b: u8, w: u16)
    by (bit_vector)
    requires
        w == (((r as u16 >> 3u16) << 11u16) | ((g as u16 >> 2u16) << 5u16)) | (b as u16 >> 3u16),
    ensures
        ((w >> 8u16) as u8) >> 3u8 == r >> 3u8,
        ((((w >> 8u16) as u8) & 7u8) << 3u8) | ((w as u8) >> 5u8) == g >> 2u8,
        (w as u8) & 0x1Fu8 == b >> 3u8,
{
}

/// At 16 bits per pixel, setting an on-screen pixel stores its colour as a
/// little-endian 5-6-5 word: the top five bits of red in bits 11 to 15,
/// the top six bits of green in bits 5 to 10 and the top five bits of blue
/// in bits 0 to 4, each field taken from its own channel only. At 8 bits
/// per pixel the byte holds red.
pub proof fn lemma_low_depth_encoding(buf: Seq<u8>, info: FramebufferInfo, x: int, y: int, c: Color)
    requires
        0 <= x < info.width,
        0 <= y < info.height,
        0 <= pixel_offset(info, x, y),
        pixel_offset(info, x, y) + bytes_pp(info) <= buf.len(),
    ensures
        info.bpp == 16 ==> {
            let off = pixel_offset(info, x, y);
            let lo = pixel_written(buf, info, x, y, c)[off];
            let hi = pixel_written(buf, info, x, y, c)[off + 1];
            &&& hi >> 3u8 == c.r >> 3u8
            &&& ((hi & 7u8) << 3u8) | (lo >> 5u8) == c.g >> 2u8
            &&& lo & 0x1Fu8 == c.b >> 3u8
        },
        info.bpp == 8 ==> pixel_written(buf, info, x, y, c)[pixel_offset(info, x, y)] == c.r,
{
    lemma_565_fields(c.r, c.g, c.b, rgb565(c));
}

/// The colour that pixel `(x, y)` of `buf` holds, for depths that can be read.
pub open spec fn pixel_read(buf: Seq<u8>, info: FramebufferInfo, x: int, y: int) -> Option<Color> {
    let off = pixel_offset(info, x, y);
    if x >= info.width || y >= info.height {
        None
    } else if info.bpp == 32 {
        Some(Color { b: buf[off], g: buf[off + 1], r: buf[off + 2], a: buf[off + 3] })
    } else if info.bpp == 24 {
        Some(Color { b: buf[off], g: buf[off + 1], r: buf[off + 2], a: 255 })
    } else {
        None
    }
}

/// Paints row `row` of a block: cells `0..ncols` of it, at `(x0 + col, y)`,
/// each with the colour that `f` gives (or left alone where `f` gives none).
pub open spec fn paint_row(
    buf: Seq<u8>,
    info: FramebufferInfo,
    x0: int,
    y: int,
    row: int,
    ncols: int,
    f: spec_fn(int, int) -> Option<Color>,
) -> Seq<u8>
    decreases ncols,
{
    if ncols <= 0 {
        buf
    } else {
        let b = paint_row(buf, info, x0, y, row, ncols - 1, f);
        match f(ncols - 1, row) {
            Some(c) => pixel_written(b, info, x0 + ncols - 1, y, c),
            None => b,
        }
    }
}

/// Paints a block of `nrows` by `ncols` pixels at `(x0, y0)`, row by row.
pub open spec fn paint(
    buf: Seq<u8>,
    info: FramebufferInfo,
    x0: int,
    y0: int,
    ncols: int,
    nrows: int,
    f: spec_fn(int, int) -> Option<Color>,
) -> Seq<u8>
    decreases nrows,
{
    if nrows <= 0 {
        buf
    } else {
        paint_row(paint(buf, info, x0, y0, ncols, nrows - 1, f), info, x0, y0 + nrows - 1, nrows - 1, ncols, f)
    }
}

/// Every pixel of the block can be written.
pub open spec fn block_ok(info: FramebufferInfo, x0: int, y0: int, ncols: int, nrows: int) -> bool {
    forall|c: int, r: int| 0 <= c < ncols && 0 <= r < nrows ==> #[trigger] pixel_ok(info, x0 + c, y0 + r)
}

pub open spec fn min(a: int, b: int) -> int {
    if a < b {
        a
    } else {
        b
    }
}

/// Number of rows that a block of `h` rows at `y` keeps on screen.
pub open spec fn clipped(start: int, len: int, limit: int) -> int {
    if start >= limit {
        0
    } else {
        min(len, limit - start)
    }
}

/// The source pixel of a blit: RGB or RGBA bytes at `off`.
pub open spec fn source_pixel(data: Seq<u8>, off: int, bytes: int) -> Option<Color> {
    if bytes == 3 {
        Some(Color { r: data[off], g: data[off + 1], b: data[off + 2], a: 255 })
    } else if bytes == 4 {
        Some(Color { r: data[off], g: data[off + 1], b: data[off + 2], a: data[off + 3] })
    } else {
        None
    }
}

/// The colour of cell `(col, row)` of a glyph drawn from `font`.
pub open spec fn glyph_color(font: Seq<u8>, ch: u8, col: int, row: int, fg: Color, bg: Color) -> Color {
    if font[ch * 16 + row] & (0x80u8 >> (col as u8)) != 0 {
        fg
    } else {
        bg
    }
}

/// A linear framebuffer, with an optional back buffer that drawing goes to.
pub struct Framebuffer {
    info: FramebufferInfo,
    front: Vec<u8>,
    back: Option<Vec<u8>>,
    back_addr: usize,
    double_buffered: bool,
}

impl Framebuffer {
    pub closed spec fn wf(&self) -> bool {
        &&& self.front.len() == buffer_size(self.info)
        &&& self.back matches Some(b) ==> b.len() == buffer_size(self.info)
        &&& self.double_buffered <==> self.back is Some
    }

    pub closed spec fn spec_info(&self) -> FramebufferInfo {
        self.info
    }

    pub closed spec fn front_bytes(&self) -> Seq<u8> {
        self.front@
    }

    pub closed spec fn back_bytes(&self) -> Option<Seq<u8>> {
        match self.back {
            Some(b) => Some(b@),
            None => None,
        }
    }

    pub closed spec fn is_double_buffered(&self) -> bool {
        self.double_buffered
    }

    /// The buffer that drawing goes to and reading comes from.
    pub open spec fn active(&self) -> Seq<u8> {
        match self.back_bytes() {
            Some(b) => if self.is_double_buffered() { b } else { self.front_bytes() },
            None => self.front_bytes(),
        }
    }

    /// A framebuffer for `info`, whose front buffer holds `front`: the
    /// bytes that the screen memory holds now.
    pub fn new(info: FramebufferInfo, front: Vec<u8>) -> (fb: Self)
        requires
            info.pitch * info.height <= isize::MAX,
            front@.len() == info.pitch * info.height,
        ensures
            fb.wf(),
            fb.spec_info() == info,
            fb.front_bytes() == front@,
            fb.back_bytes() is None,
            !fb.is_double_buffered(),
    {
        Self { info, front, back: None, back_addr: 0, double_buffered: false }
    }

    /// A well-formed framebuffer holds one screen's worth of bytes in each
    /// of its buffers.
    pub proof fn lemma_buffer_lengths(&self)
        requires
            self.wf(),
        ensures
            self.front_bytes().len() == buffer_size(self.spec_info()),
            self.back_bytes() matches Some(b) ==> b.len() == buffer_size(self.spec_info()),
            self.active().len() == buffer_size(self.spec_info()),
            self.is_double_buffered() <==> self.back_bytes() is Some,
    {
    }

    /// On a well-formed framebuffer whose rows are at least as long as their
    /// pixels, every on-screen pixel, block and glyph lies within the buffer.
    pub proof fn lemma_layout(&self)
        requires
            self.wf(),
            rows_disjoint(self.spec_info()),
        ensures
            forall|x: int, y: int| 0 <= x && 0 <= y ==> #[trigger] pixel_ok(self.spec_info(), x, y),
            forall|x0: int, y0: int, ncols: int, nrows: int|
                0 <= x0 && 0 <= y0 ==> #[trigger] block_ok(self.spec_info(), x0, y0, ncols, nrows),
            forall|x: int, y: int| 0 <= x && 0 <= y ==> #[trigger] glyph_ok(self.spec_info(), x, y),
    {
        assert(self.front@.len() == self.front.len());
        lemma_layout_ok(self.info);
    }

    /// On a well-formed framebuffer of 24 or 32 bits per pixel whose rows
    /// are at least as long as their pixels, a pixel set on screen reads
    /// back as `read_back` of its colour and every other on-screen pixel
    /// reads as before.
    pub proof fn lemma_set_pixel_law(&self, x: int, y: int, c: Color, x2: int, y2: int)
        requires
            self.wf(),
            rows_disjoint(self.spec_info()),
            self.spec_info().bpp == 32 || self.spec_info().bpp == 24,
            0 <= x < self.spec_info().width,
            0 <= y < self.spec_info().height,
            0 <= x2 < self.spec_info().width,
            0 <= y2 < self.spec_info().height,
            x != x2 || y != y2,
        ensures
            pixel_read(pixel_written(self.active(), self.spec_info(), x, y, c), self.spec_info(), x, y)
                == Some(read_back(self.spec_info(), c)),
            pixel_read(pixel_written(self.active(), self.spec_info(), x, y, c), self.spec_info(), x2, y2)
                == pixel_read(self.active(), self.spec_info(), x2, y2),
    {
        self.lemma_layout();
        assert(pixel_ok(self.spec_info(), x, y));
        assert(pixel_ok(self.spec_info(), x2, y2));
        lemma_pixel_roundtrip(self.active(), self.spec_info(), x, y, c);
        lemma_write_keeps_other_pixels(self.active(), self.spec_info(), x, y, c, x2, y2);
    }

    /// On a well-formed framebuffer of 24 or 32 bits per pixel, a pixel set
    /// on screen reads back as `read_back` of its colour.
    pub proof fn lemma_set_pixel_reads_back(&self, x: int, y: int, c: Color)
        requires
            self.wf(),
            0 <= x < self.spec_info().width,
            0 <= y < self.spec_info().height,
            pixel_ok(self.spec_info(), x, y),
            self.spec_info().bpp == 32 || self.spec_info().bpp == 24,
        ensures
            pixel_read(pixel_written(self.active(), self.spec_info(), x, y, c), self.spec_info(), x, y)
                == Some(read_back(self.spec_info(), c)),
    {
        lemma_pixel_roundtrip(self.active(), self.spec_info(), x, y, c);
    }

    pub fn info(&self) -> (r: &FramebufferInfo)
        ensures
            *r == self.spec_info(),
    {
        &self.info
    }

    pub fn width(&self) -> (r: usize)
        ensures
            r == self.spec_info().width,
    {
        self.info.width
    }

    pub fn height(&self) -> (r: usize)
        ensures
            r == self.spec_info().height,
    {
        self.info.height
    }

    /// Sets pixel `(x, y)` of the active buffer; off-screen pixels and
    /// depths other than 8, 16, 24 and 32 bits leave it unchanged.
    pub fn set_pixel(&mut self, x: usize, y: usize, color: Color)
        requires
            old(self).wf(),
            pixel_ok(old(self).spec_info(), x as int, y as int),
        ensures
            final(self).wf(),
            final(self).spec_info() == old(self).spec_info(),
            final(self).is_double_buffered() == old(self).is_double_buffered(),
            final(self).active() == pixel_written(old(self).active(), old(self).spec_info(),
                x as int, y as int, color),
            old(self).is_double_buffered() ==> final(self).front_bytes() == old(self).front_bytes(),
            !old(self).is_double_buffered() ==> final(self).back_bytes() == old(self).back_bytes(),
    {
        if x >= self.info.width || y >= self.info.height {
            return;
        }
        if self.double_buffered && self.back.is_some() {
            let mut b = self.back.take().unwrap();
            write_pixel(&mut b, self.info, x, y, color);
            self.back = Some(b);
        } else {
            write_pixel(&mut self.front, self.info, x, y, color);
        }
    }

    /// Pixel `(x, y)` of the active buffer, for 24 and 32 bit depths.
    pub fn pixel(&self, x: usize, y: usize) -> (r: Option<Color>)
        requires
            self.wf(),
            pixel_ok(self.spec_info(), x as int, y as int),
        ensures
            r == pixel_read(self.active(), self.spec_info(), x as int, y as int),
    {
        if x >= self.info.width || y >= self.info.height {
            return None;
        }
        proof {
            lemma_offset_parts(self.info, x as int, y as int);
        }
        let offset = y * self.info.pitch + x * ((self.info.bpp / 8) as usize);
        let buf = if self.double_buffered && self.back.is_some() {
            self.back.as_ref().unwrap()
        } else {
            &self.front
        };
        if self.info.bpp == 32 {
            Some(Color { b: buf[offset], g: buf[offset + 1], r: buf[offset + 2], a: buf[offset + 3] })
        } else if self.info.bpp == 24 {
            Some(Color { b: buf[offset], g: buf[offset + 1], r: buf[offset + 2], a: 255 })
        } else {
            None
        }
    }

    /// Paints the `ncols` by `nrows` block at `(x0, y0)` with `color`, row
    /// by row from the top and each row from the left.
    fn paint_block(
        &mut self,
        x0: usize,
        y0: usize,
        ncols: usize,
        nrows: usize,
        color: Color,
    )
        requires
            old(self).wf(),
            x0 + ncols <= usize::MAX,
            y0 + nrows <= usize::MAX,
            block_ok(old(self).spec_info(), x0 as int, y0 as int, ncols as int, nrows as int),
        ensures
            final(self).wf(),
            final(self).spec_info() == old(self).spec_info(),
            final(self).is_double_buffered() == old(self).is_double_buffered(),
            final(self).active() == paint(old(self).active(), old(self).spec_info(), x0 as int,
                y0 as int, ncols as int, nrows as int, |c: int, r: int| Some(color)),
            old(self).is_double_buffered() ==> final(self).front_bytes() == old(self).front_bytes(),
            !old(self).is_double_buffered() ==> final(self).back_bytes() == old(self).back_bytes(),
    {
        let ghost f = |c: int, r: int| Some(color);
        let ghost start = self.active();
        let mut row: usize = 0;
        while row < nrows
            invariant
                row <= nrows,
                self.wf(),
                self.spec_info() == old(self).spec_info(),
                self.is_double_buffered() == old(self).is_double_buffered(),
                start == old(self).active(),
                x0 + ncols <= usize::MAX,
                y0 + nrows <= usize::MAX,
                block_ok(self.spec_info(), x0 as int, y0 as int, ncols as int, nrows as int),
                f == (|c: int, r: int| Some(color)),
                self.active() == paint(start, self.spec_info(), x0 as int, y0 as int, ncols as int, row as int, f),
                old(self).is_double_buffered() ==> self.front_bytes() == old(self).front_bytes(),
                !old(self).is_double_buffered() ==> self.back_bytes() == old(self).back_bytes(),
            decreases nrows - row,
        {
            let mut col: usize = 0;
            let ghost before = self.active();
            while col < ncols
                invariant
                    col <= ncols,
                    row < nrows,
                    self.wf(),
                    self.spec_info() == old(self).spec_info(),
                    self.is_double_buffered() == old(self).is_double_buffered(),
                    x0 + ncols <= usize::MAX,
                    y0 + nrows <= usize::MAX,
                    block_ok(self.spec_info(), x0 as int, y0 as int, ncols as int, nrows as int),
                    f == (|c: int, r: int| Some(color)),
                    self.active() == paint_row(before, self.spec_info(), x0 as int, y0 + row,
                        row as int, col as int, f),
                    old(self).is_double_buffered() ==> self.front_bytes() == old(self).front_bytes(),
                    !old(self).is_double_buffered() ==> self.back_bytes() == old(self).back_bytes(),
                decreases ncols - col,
            {
                assert(pixel_ok(self.spec_info(), x0 + col, y0 + row));
                self.set_pixel(x0 + col, y0 + row, color);
                col = col + 1;
            }
            row = row + 1;
        }
    }

    /// Fills the on-screen part of the `w` by `h` rectangle at `(x, y)`.
    pub fn fill_rect(&mut self, x: usize, y: usize, w: usize, h: usize, color: Color)
        requires
            old(self).wf(),
            x + w <= usize::MAX,
            y + h <= usize::MAX,
            block_ok(old(self).spec_info(), x as int, y as int,
                min(x + w, old(self).spec_info().width as int) - x,
                min(y + h, old(self).spec_info().height as int) - y),
        ensures
            final(self).wf(),
            final(self).spec_info() == old(self).spec_info(),
            final(self).is_double_buffered() == old(self).is_double_buffered(),
            final(self).active() == paint(old(self).active(), old(self).spec_info(), x as int,
                y as int, min(x + w, old(self).spec_info().width as int) - x,
                min(y + h, old(self).spec_info().height as int) - y, |c: int, r: int| Some(color)),
            old(self).is_double_buffered() ==> final(self).front_bytes() == old(self).front_bytes(),
            !old(self).is_double_buffered() ==> final(self).back_bytes() == old(self).back_bytes(),
    {
        let x_end = if x + w < self.info.width { x + w } else { self.info.width };
        let y_end = if y + h < self.info.height { y + h } else { self.info.height };
        let ncols: usize = if x_end > x { x_end - x } else { 0 };
        let nrows: usize = if y_end > y { y_end - y } else { 0 };
        proof {
            if ncols == 0 || nrows == 0 {
                lemma_paint_empty(self.active(), self.info, x as int, y as int,
                    min(x + w, self.info.width as int) - x, min(y + h, self.info.height as int) - y,
                    |c: int, r: int| Some(color));
                lemma_paint_empty(self.active(), self.info, x as int, y as int,
                    ncols as int, nrows as int, |c: int, r: int| Some(color));
            }
            assert forall|c: int, r: int| 0 <= c < ncols && 0 <= r < nrows implies
                #[trigger] pixel_ok(self.info, x + c, y + r) by {
                assert(0 <= c < min(x + w, self.info.width as int) - x);
            }
        }
        self.paint_block(x, y, ncols, nrows, color);
    }

    /// Fills the whole screen with `color`.
    pub fn clear(&mut self, color: Color)
        requires
            old(self).wf(),
            block_ok(old(self).spec_info(), 0, 0, old(self).spec_info().width as int,
                old(self).spec_info().height as int),
        ensures
            final(self).wf(),
            final(self).spec_info() == old(self).spec_info(),
            final(self).is_double_buffered() == old(self).is_double_buffered(),
            final(self).active() == paint(old(self).active(), old(self).spec_info(), 0, 0,
                old(self).spec_info().width as int, old(self).spec_info().height as int,
                |c: int, r: int| Some(color)),
            old(self).is_double_buffered() ==> final(self).front_bytes() == old(self).front_bytes(),
            !old(self).is_double_buffered() ==> final(self).back_bytes() == old(self).back_bytes(),
    {
        let w = self.info.width;
        let h = self.info.height;
        self.fill_rect(0, 0, w, h, color);
    }

    /// Copies a `w` by `h` block of RGB (3 bytes) or RGBA (4 bytes) pixels,
    /// as many bytes per pixel as the screen has, to `(x, y)`; rows and
    /// columns off the screen are skipped, and other depths draw nothing.
    pub fn blit(&mut self, data: &[u8], x: usize, y: usize, w: usize, h: usize)
        requires
            old(self).wf(),
            blit_ok(old(self).spec_info(), data@.len() as int, x as int, y as int, w as int, h as int),
        ensures
            final(self).wf(),
            final(self).spec_info() == old(self).spec_info(),
            final(self).is_double_buffered() == old(self).is_double_buffered(),
            final(self).active() == paint(old(self).active(), old(self).spec_info(), x as int,
                y as int, clipped(x as int, w as int, old(self).spec_info().width as int),
                clipped(y as int, h as int, old(self).spec_info().height as int),
                |c: int, r: int| source_pixel(data@, (r * w + c) * bytes_pp(old(self).spec_info()),
                    bytes_pp(old(self).spec_info()))),
            old(self).is_double_buffered() ==> final(self).front_bytes() == old(self).front_bytes(),
            !old(self).is_double_buffered() ==> final(self).back_bytes() == old(self).back_bytes(),
    {
        let bpp: usize = (self.info.bpp / 8) as usize;
        let ghost info = self.info;
        let ghost f = |c: int, r: int| source_pixel(data@, (r * w + c) * bytes_pp(info), bytes_pp(info));
        let ghost start = self.active();
        let ghost nrows = clipped(y as int, h as int, info.height as int);
        let ghost ncols = clipped(x as int, w as int, info.width as int);
        let mut row: usize = 0;
        while row < h
            invariant_except_break
                row <= nrows,
                self.wf(),
                self.spec_info() == info,
                self.is_double_buffered() == old(self).is_double_buffered(),
                old(self).is_double_buffered() ==> self.front_bytes() == old(self).front_bytes(),
                !old(self).is_double_buffered() ==> self.back_bytes() == old(self).back_bytes(),
                start == old(self).active(),
                bpp == bytes_pp(info),
                blit_ok(info, data@.len() as int, x as int, y as int, w as int, h as int),
                nrows == clipped(y as int, h as int, info.height as int),
                ncols == clipped(x as int, w as int, info.width as int),
                f == (|c: int, r: int| source_pixel(data@, (r * w + c) * bytes_pp(info), bytes_pp(info))),
                self.active() == paint(start, info, x as int, y as int, ncols, row as int, f),
            ensures
                self.wf(),
                self.spec_info() == info,
                self.is_double_buffered() == old(self).is_double_buffered(),
                old(self).is_double_buffered() ==> self.front_bytes() == old(self).front_bytes(),
                !old(self).is_double_buffered() ==> self.back_bytes() == old(self).back_bytes(),
                self.active() == paint(start, info, x as int, y as int, ncols, nrows, f),
            decreases h - row,
        {
            if y + row >= self.info.height {
                break;
            }
            let ghost before = self.active();
            let mut col: usize = 0;
            while col < w
                invariant_except_break
                    col <= ncols,
                    row < nrows,
                    self.wf(),
                    self.spec_info() == info,
                    self.is_double_buffered() == old(self).is_double_buffered(),
                    old(self).is_double_buffered() ==> self.front_bytes() == old(self).front_bytes(),
                    !old(self).is_double_buffered() ==> self.back_bytes() == old(self).back_bytes(),
                    bpp == bytes_pp(info),
                    blit_ok(info, data@.len() as int, x as int, y as int, w as int, h as int),
                    nrows == clipped(y as int, h as int, info.height as int),
                    ncols == clipped(x as int, w as int, info.width as int),
                    f == (|c: int, r: int| source_pixel(data@, (r * w + c) * bytes_pp(info), bytes_pp(info))),
                    self.active() == paint_row(before, info, x as int, y + row, row as int, col as int, f),
                ensures
                    self.wf(),
                    self.spec_info() == info,
                    self.is_double_buffered() == old(self).is_double_buffered(),
                    old(self).is_double_buffered() ==> self.front_bytes() == old(self).front_bytes(),
                    !old(self).is_double_buffered() ==> self.back_bytes() == old(self).back_bytes(),
                    self.active() == paint_row(before, info, x as int, y + row, row as int, ncols, f),
                decreases w - col,
            {
                if x + col >= self.info.width {
                    break;
                }
                proof {
                    lemma_blit_cell(info, data@.len() as int, x as int, y as int, w as int, h as int,
                        col as int, row as int);
                }
                let src_offset = (row * w + col) * bpp;
                if bpp == 3 {
                    let pixel = Color { r: data[src_offset], g: data[src_offset + 1], b: data[src_offset + 2], a: 255 };
                    self.set_pixel(x + col, y + row, pixel);
                } else if bpp == 4 {
                    let pixel = Color {
                        r: data[src_offset],
                        g: data[src_offset + 1],
                        b: data[src_offset + 2],
                        a: data[src_offset + 3],
                    };
                    self.set_pixel(x + col, y + row, pixel);
                }
                col = col + 1;
            }
            row = row + 1;
        }
    }

    /// Turns on drawing to the back buffer at `back_buffer_addr`, whose
    /// memory holds `back_contents` now; without an address nothing changes.
    pub fn enable_double_buffer(&mut self, back_buffer_addr: Option<usize>, back_contents: Vec<u8>)
        requires
            old(self).wf(),
            back_buffer_addr is Some ==> back_contents@.len() == buffer_size(old(self).spec_info()),
        ensures
            final(self).wf(),
            final(self).spec_info() == old(self).spec_info(),
            final(self).front_bytes() == old(self).front_bytes(),
            back_buffer_addr is None ==> final(self).back_bytes() == old(self).back_bytes()
                && final(self).is_double_buffered() == old(self).is_double_buffered(),
            back_buffer_addr is Some ==> final(self).back_bytes() == Some(back_contents@)
                && final(self).is_double_buffered(),
    {
        let addr = match back_buffer_addr {
            Some(a) => a,
            None => return,
        };
        self.back = Some(back_contents);
        self.back_addr = addr;
        self.double_buffered = true;
    }

    /// The bytes of the front buffer, the one the screen shows.
    pub fn front(&self) -> (r: &[u8])
        ensures
            r@ == self.front_bytes(),
    {
        self.front.as_slice()
    }

    /// Makes the pixel writes made so far visible to the device before any
    /// later access; the buffers are left as they are.
    pub fn flush(&self) {
        full_fence();
    }

    /// Copies the back buffer to the front buffer when double buffered.
    pub fn swap_buffers(&mut self)
        requires
            old(self).wf(),
        ensures
            final(self).wf(),
            final(self).spec_info() == old(self).spec_info(),
            final(self).back_bytes() == old(self).back_bytes(),
            final(self).is_double_buffered() == old(self).is_double_buffered(),
            old(self).is_double_buffered() ==> final(self).front_bytes() == old(self).back_bytes()->0,
            !old(self).is_double_buffered() ==> final(self).front_bytes() == old(self).front_bytes(),
    {
        if !self.double_buffered {
            return;
        }
        match &self.back {
            Some(back) => {
                let n = self.front.len();
                let mut i: usize = 0;
                while i < n
                    invariant
                        i <= n,
                        self.info == old(self).info,
                        self.double_buffered == old(self).double_buffered,
                        self.back == old(self).back,
                        self.back == Some(*back),
                        n == self.front@.len(),
                        n == back@.len(),
                        forall|k: int| 0 <= k < i ==> self.front@[k] == back@[k],
                    decreases n - i,
                {
                    self.front[i] = back[i];
                    i = i + 1;
                }
                assert(self.front@ =~= back@);
            },
            None => {},
        }
    }

    /// Draws character `ch` of an 8 by 16 `font` at `(x, y)` in `fg` on
    /// `bg`; a glyph that does not fit on the screen is not drawn.
    pub fn draw_char(&mut self, x: usize, y: usize, ch: u8, fg: Color, bg: Color, font: &[u8; 4096])
        requires
            old(self).wf(),
            x + 8 <= usize::MAX,
            y + 16 <= usize::MAX,
            glyph_ok(old(self).spec_info(), x as int, y as int),
        ensures
            final(self).wf(),
            final(self).spec_info() == old(self).spec_info(),
            final(self).is_double_buffered() == old(self).is_double_buffered(),
            final(self).active() == draw_char_spec(old(self).active(), old(self).spec_info(), x as int,
                y as int, ch, fg, bg, font@),
            old(self).is_double_buffered() ==> final(self).front_bytes() == old(self).front_bytes(),
            !old(self).is_double_buffered() ==> final(self).back_bytes() == old(self).back_bytes(),
    {
        if x + 8 > self.info.width || y + 16 > self.info.height {
            return;
        }
        let ghost info = self.info;
        let ghost f = |c: int, r: int| Some(glyph_color(font@, ch, c, r, fg, bg));
        let ghost start = self.active();
        let glyph_offset = (ch as usize) * 16;
        let mut row: usize = 0;
        while row < 16
            invariant
                row <= 16,
                x + 8 <= info.width,
                y + 16 <= info.height,
                glyph_offset == ch * 16,
                self.wf(),
                self.spec_info() == info,
                self.is_double_buffered() == old(self).is_double_buffered(),
                old(self).is_double_buffered() ==> self.front_bytes() == old(self).front_bytes(),
                !old(self).is_double_buffered() ==> self.back_bytes() == old(self).back_bytes(),
                start == old(self).active(),
                glyph_ok(info, x as int, y as int),
                f == (|c: int, r: int| Some(glyph_color(font@, ch, c, r, fg, bg))),
                self.active() == paint(start, info, x as int, y as int, 8, row as int, f),
            decreases 16 - row,
        {
            let byte = font[glyph_offset + row];
            let ghost before = self.active();
            let mut col: usize = 0;
            while col < 8
                invariant
                    col <= 8,
                    row < 16,
                    x + 8 <= info.width,
                    y + 16 <= info.height,
                    glyph_offset == ch * 16,
                    byte == font@[ch * 16 + row],
                    self.wf(),
                    self.spec_info() == info,
                    self.is_double_buffered() == old(self).is_double_buffered(),
                    old(self).is_double_buffered() ==> self.front_bytes() == old(self).front_bytes(),
                    !old(self).is_double_buffered() ==> self.back_bytes() == old(self).back_bytes(),
                    glyph_ok(info, x as int, y as int),
                    f == (|c: int, r: int| Some(glyph_color(font@, ch, c, r, fg, bg))),
                    self.active() == paint_row(before, info, x as int, y + row, row as int, col as int, f),
                decreases 8 - col,
            {
                assert(pixel_ok(info, x + col, y + row));
                if byte & (0x80u8 >> (col as u8)) != 0 {
                    self.set_pixel(x + col, y + row, fg);
                } else {
                    self.set_pixel(x + col, y + row, bg);
                }
                col = col + 1;
            }
            row = row + 1;
        }
    }

    /// Draws the bytes of `s` as glyphs side by side, 8 pixels apart.
    pub fn draw_string(&mut self, x: usize, y: usize, s: &str, fg: Color, bg: Color, font: &[u8; 4096])
        requires
            old(self).wf(),
            s.spec_bytes().len() > 0 ==> x + 8 * s.spec_bytes().len() <= usize::MAX && y + 16 <= usize::MAX,
            forall|i: int| 0 <= i < s.spec_bytes().len() ==> #[trigger] glyph_ok(old(self).spec_info(), x + 8 * i, y as int),
        ensures
            final(self).wf(),
            final(self).spec_info() == old(self).spec_info(),
            final(self).is_double_buffered() == old(self).is_double_buffered(),
            final(self).active() == draw_string_spec(old(self).active(), old(self).spec_info(), x as int,
                y as int, s.spec_bytes(), fg, bg, font@),
            old(self).is_double_buffered() ==> final(self).front_bytes() == old(self).front_bytes(),
            !old(self).is_double_buffered() ==> final(self).back_bytes() == old(self).back_bytes(),
    {
        let bytes = s.as_bytes();
        let mut i: usize = 0;
        let ghost start = self.active();
        while i < bytes.len()
            invariant
                i <= bytes@.len(),
                bytes@ == s.spec_bytes(),
                bytes@.len() > 0 ==> x + 8 * bytes@.len() <= usize::MAX && y + 16 <= usize::MAX,
                forall|k: int| 0 <= k < bytes@.len() ==> #[trigger] glyph_ok(self.spec_info(), x + 8 * k, y as int),
                self.wf(),
                self.spec_info() == old(self).spec_info(),
                self.is_double_buffered() == old(self).is_double_buffered(),
                old(self).is_double_buffered() ==> self.front_bytes() == old(self).front_bytes(),
                !old(self).is_double_buffered() ==> self.back_bytes() == old(self).back_bytes(),
                start == old(self).active(),
                self.active() == draw_string_spec(start, self.spec_info(), x as int, y as int,
                    bytes@.take(i as int), fg, bg, font@),
            decreases bytes@.len() - i,
        {
            assert(glyph_ok(self.spec_info(), x + 8 * i, y as int));
            self.draw_char(x + i * 8, y, bytes[i], fg, bg, font);
            proof {
                assert(bytes@.take(i + 1).drop_last() =~= bytes@.take(i as int));
            }
            i = i + 1;
        }
        proof {
            assert(bytes@.take(i as int) =~= bytes@);
        }
    }
}

/// A glyph at `(x, y)` that fits on the screen has every pixel writable.
pub open spec fn glyph_ok(info: FramebufferInfo, x: int, y: int) -> bool {
    x + 8 <= info.width && y + 16 <= info.height ==> block_ok(info, x, y, 8, 16)
}

/// The active buffer after `draw_char`.
pub open spec fn draw_char_spec(
    buf: Seq<u8>,
    info: FramebufferInfo,
    x: int,
    y: int,
    ch: u8,
    fg: Color,
    bg: Color,
    font: Seq<u8>,
) -> Seq<u8> {
    if x + 8 > info.width || y + 16 > info.height {
        buf
    } else {
        paint(buf, info, x, y, 8, 16, |c: int, r: int| Some(glyph_color(font, ch, c, r, fg, bg)))
    }
}

/// The active buffer after `draw_string`.
pub open spec fn draw_string_spec(
    buf: Seq<u8>,
    info: FramebufferInfo,
    x: int,
    y: int,
    s: Seq<u8>,
    fg: Color,
    bg: Color,
    font: Seq<u8>,
) -> Seq<u8>
    decreases s.len(),
{
    if s.len() == 0 {
        buf
    } else {
        draw_char_spec(draw_string_spec(buf, info, x, y, s.drop_last(), fg, bg, font), info,
            x + 8 * (s.len() - 1), y, s.last(), fg, bg, font)
    }
}

/// Drawing a string draws its first byte's glyph at `(x, y)` and then the
/// rest of the string from 8 pixels further right.
pub proof fn lemma_draw_string_first(
    buf: Seq<u8>,
    info: FramebufferInfo,
    x: int,
    y: int,
    s: Seq<u8>,
    fg: Color,
    bg: Color,
    font: Seq<u8>,
)
    requires
        s.len() > 0,
    ensures
        draw_string_spec(buf, info, x, y, s, fg, bg, font) == draw_string_spec(
            draw_char_spec(buf, info, x, y, s[0], fg, bg, font),
            info,
            x + 8,
            y,
            s.drop_first(),
            fg,
            bg,
            font,
        ),
    decreases s.len(),
{
    let first = draw_char_spec(buf, info, x, y, s[0], fg, bg, font);
    if s.len() == 1 {
        assert(s.drop_last() =~= Seq::<u8>::empty());
        assert(s.drop_first() =~= Seq::<u8>::empty());
        assert(draw_string_spec(buf, info, x, y, s.drop_last(), fg, bg, font) == buf);
        assert(draw_string_spec(first, info, x + 8, y, s.drop_first(), fg, bg, font) == first);
        assert(s.last() == s[0]);
    } else {
        lemma_draw_string_first(buf, info, x, y, s.drop_last(), fg, bg, font);
        assert(s.drop_last().drop_first() =~= s.drop_first().drop_last());
        assert(s.drop_last()[0] == s[0]);
        assert(s.drop_first().last() == s.last());
        assert(draw_string_spec(first, info, x + 8, y, s.drop_first(), fg, bg, font) == draw_char_spec(
            draw_string_spec(first, info, x + 8, y, s.drop_first().drop_last(), fg, bg, font),
            info,
            x + 8 + 8 * (s.drop_first().len() - 1),
            y,
            s.drop_first().last(),
            fg,
            bg,
            font,
        ));
    }
}

/// Every on-screen cell of a blit can be written and read from `data`.
pub open spec fn blit_ok(info: FramebufferInfo, len: int, x: int, y: int, w: int, h: int) -> bool {
    let ncols = clipped(x, w, info.width as int);
    let nrows = clipped(y, h, info.height as int);
    &&& block_ok(info, x, y, ncols, nrows)
    &&& forall|c: int, r: int| 0 <= c < ncols && 0 <= r < nrows ==>
        #[trigger] blit_source_ok(len, r * w + c, bytes_pp(info))
}

/// Calls `std::sync::atomic::fence` with sequentially consistent ordering;
/// it has no result and no effect on any value Verus sees.
#[verifier::external_body]
fn full_fence() {
    std::sync::atomic::fence(std::sync::atomic::Ordering::SeqCst);
}

/// The source bytes of one blitted pixel lie within `data`.
pub open spec fn blit_source_ok(len: int, index: int, bytes: int) -> bool {
    &&& index <= usize::MAX
    &&& index * bytes <= usize::MAX
    &&& (bytes == 3 || bytes == 4) ==> index * bytes + bytes <= len
}

proof fn lemma_blit_cell(info: FramebufferInfo, len: int, x: int, y: int, w: int, h: int, c: int, r: int)
    requires
        blit_ok(info, len, x, y, w, h),
        0 <= c < clipped(x, w, info.width as int),
        0 <= r < clipped(y, h, info.height as int),
        x >= 0,
        w >= 0,
    ensures
        pixel_ok(info, x + c, y + r),
        0 <= r * w,
        r * w + c <= usize::MAX,
        blit_source_ok(len, r * w + c, bytes_pp(info)),
{
    assert(blit_source_ok(len, r * w + c, bytes_pp(info)));
    assert(pixel_ok(info, x + c, y + r));
    vstd::arithmetic::mul::lemma_mul_nonnegative(r, w);
    vstd::arithmetic::mul::lemma_mul_nonnegative(r * w + c, bytes_pp(info));
    if bytes_pp(info) >= 1 {
        vstd::arithmetic::mul::lemma_mul_inequality(1, bytes_pp(info), r * w + c);
    }
}

proof fn lemma_paint_empty(
    buf: Seq<u8>,
    info: FramebufferInfo,
    x0: int,
    y0: int,
    ncols: int,
    nrows: int,
    f: spec_fn(int, int) -> Option<Color>,
)
    requires
        ncols <= 0 || nrows <= 0,
    ensures
        paint(buf, info, x0, y0, ncols, nrows, f) == buf,
    decreases nrows,
{
    if nrows > 0 {
        lemma_paint_empty(buf, info, x0, y0, ncols, nrows - 1, f);
    }
}

proof fn lemma_offset_parts(info: FramebufferInfo, x: int, y: int)
    requires
        x >= 0,
        y >= 0,
        x < info.width,
        y < info.height,
        pixel_ok(info, x, y),
    ensures
        0 <= y * info.pitch,
        0 <= x * bytes_pp(info),
        y * info.pitch <= usize::MAX,
        x * bytes_pp(info) <= usize::MAX,
{
    vstd::arithmetic::mul::lemma_mul_nonnegative(y, info.pitch as int);
    vstd::arithmetic::mul::lemma_mul_nonnegative(x, bytes_pp(info));
}

fn write_pixel(buf: &mut Vec<u8>, info: FramebufferInfo, x: usize, y: usize, color: Color)
    requires
        old(buf)@.len() == buffer_size(info),
        x < info.width,
        y < info.height,
        pixel_ok(info, x as int, y as int),
    ensures
        final(buf)@ == pixel_written(old(buf)@, info, x as int, y as int, color),
{
    proof {
        lemma_offset_parts(info, x as int, y as int);
    }
    let n = buf.len();
    let bpp = info.bpp;
    let offset = y * info.pitch + x * ((bpp / 8) as usize);
    if bpp == 32 {
        buf[offset] = color.b;
        buf[offset + 1] = color.g;
        buf[offset + 2] = color.r;
        buf[offset + 3] = color.a;
    } else if bpp == 24 {
        buf[offset] = color.b;
        buf[offset + 1] = color.g;
        buf[offset + 2] = color.r;
    } else if bpp == 16 {
        let rgb: u16 = (((color.r as u16 >> 3u16) << 11u16) | ((color.g as u16 >> 2u16) << 5u16))
            | (color.b as u16 >> 3u16);
        buf[offset] = #[verifier::truncate] (rgb as u8);
        buf[offset + 1] = #[verifier::truncate] ((rgb >> 8u16) as u8);
    } else if bpp == 8 {
        buf[offset] = color.r;
    }
}

/// A pixel written at 32 bits per pixel reads back as the same colour, and
/// at 24 bits with full alpha.
pub proof fn lemma_pixel_roundtrip(buf: Seq<u8>, info: FramebufferInfo, x: int, y: int, c: Color)
    requires
        0 <= x < info.width,
        0 <= y < info.height,
        buf.len() == buffer_size(info),
        pixel_ok(info, x, y),
        info.bpp == 32 || info.bpp == 24,
    ensures
        info.bpp == 32 ==> pixel_read(pixel_written(buf, info, x, y, c), info, x, y) == Some(c),
        info.bpp == 24 ==> pixel_read(pixel_written(buf, info, x, y, c), info, x, y) == Some(
            Color { a: 255, ..c },
        ),
{
}

/// Rows are at least as long as their pixels, so distinct pixels own
/// distinct bytes.
pub open spec fn rows_disjoint(info: FramebufferInfo) -> bool {
    info.width * bytes_pp(info) <= info.pitch
}

proof fn lemma_offset_bound(pitch: int, height: int, width: int, b: int, x: int, y: int)
    by (nonlinear_arith)
    requires
        0 <= x < width,
        0 <= y < height,
        0 <= b,
        0 <= pitch,
        width * b <= pitch,
    ensures
        0 <= y * pitch + x * b,
        y * pitch + x * b + b <= pitch * height,
{
    assert(x * b + b <= width * b);
    assert(y * pitch + pitch <= height * pitch);
}

/// When rows are at least as long as their pixels and the buffer fits in
/// memory, every on-screen pixel, and so every block of on-screen pixels
/// (a glyph, the visible part of a blit), lies within the buffer.
pub proof fn lemma_layout_ok(info: FramebufferInfo)
    requires
        rows_disjoint(info),
        buffer_size(info) <= usize::MAX,
    ensures
        forall|x: int, y: int| 0 <= x && 0 <= y ==> #[trigger] pixel_ok(info, x, y),
        forall|x0: int, y0: int, ncols: int, nrows: int|
            0 <= x0 && 0 <= y0 ==> #[trigger] block_ok(info, x0, y0, ncols, nrows),
        forall|x: int, y: int| 0 <= x && 0 <= y ==> #[trigger] glyph_ok(info, x, y),
{
    assert forall|x: int, y: int| 0 <= x && 0 <= y implies #[trigger] pixel_ok(info, x, y) by {
        if x < info.width && y < info.height {
            lemma_offset_bound(info.pitch as int, info.height as int, info.width as int, bytes_pp(info), x, y);
        }
    }
}

/// The colour that a pixel written with `c` reads back as.
pub open spec fn read_back(info: FramebufferInfo, c: Color) -> Color {
    if info.bpp == 32 {
        c
    } else {
        Color { a: 255, ..c }
    }
}

/// The bytes of two distinct on-screen pixels do not overlap.
proof fn lemma_pixels_disjoint(info: FramebufferInfo, x: int, y: int, x2: int, y2: int)
    requires
        rows_disjoint(info),
        0 <= x < info.width,
        0 <= y < info.height,
        0 <= x2 < info.width,
        0 <= y2 < info.height,
        x != x2 || y != y2,
    ensures
        pixel_offset(info, x, y) + bytes_pp(info) <= pixel_offset(info, x2, y2)
            || pixel_offset(info, x2, y2) + bytes_pp(info) <= pixel_offset(info, x, y),
{
    let b = bytes_pp(info);
    let p = info.pitch as int;
    let w = info.width as int;
    assert(b >= 0);
    if y == y2 {
        if x < x2 {
            vstd::arithmetic::mul::lemma_mul_inequality(x + 1, x2, b);
            vstd::arithmetic::mul::lemma_mul_is_distributive_add_other_way(b, x, 1);
        } else {
            vstd::arithmetic::mul::lemma_mul_inequality(x2 + 1, x, b);
            vstd::arithmetic::mul::lemma_mul_is_distributive_add_other_way(b, x2, 1);
        }
    } else {
        let (lo_x, lo_y, hi_x, hi_y) = if y < y2 { (x, y, x2, y2) } else { (x2, y2, x, y) };
        assert(lo_y + 1 <= hi_y);
        vstd::arithmetic::mul::lemma_mul_inequality(lo_y + 1, hi_y, p);
        vstd::arithmetic::mul::lemma_mul_is_distributive_add_other_way(p, lo_y, 1);
        vstd::arithmetic::mul::lemma_mul_inequality(lo_x + 1, w, b);
        vstd::arithmetic::mul::lemma_mul_is_distributive_add_other_way(b, lo_x, 1);
        vstd::arithmetic::mul::lemma_mul_nonnegative(hi_x, b);
        assert(lo_y * p + lo_x * b + b <= hi_y * p + hi_x * b);
    }
}

/// Writing one pixel leaves every other on-screen pixel reading as before.
pub proof fn lemma_write_keeps_other_pixels(
    buf: Seq<u8>,
    info: FramebufferInfo,
    x: int,
    y: int,
    c: Color,
    x2: int,
    y2: int,
)
    requires
        buf.len() == buffer_size(info),
        info.bpp == 32 || info.bpp == 24,
        rows_disjoint(info),
        0 <= x < info.width,
        0 <= y < info.height,
        0 <= x2 < info.width,
        0 <= y2 < info.height,
        pixel_ok(info, x, y),
        pixel_ok(info, x2, y2),
        x != x2 || y != y2,
    ensures
        pixel_read(pixel_written(buf, info, x, y, c), info, x2, y2) == pixel_read(buf, info, x2, y2),
{
    lemma_pixels_disjoint(info, x, y, x2, y2);
}

/// Painting a row leaves the buffer's length alone.
proof fn lemma_paint_row_len(
    buf: Seq<u8>,
    info: FramebufferInfo,
    x0: int,
    y: int,
    row: int,
    ncols: int,
    f: spec_fn(int, int) -> Option<Color>,
)
    requires
        buf.len() == buffer_size(info),
        info.bpp == 32 || info.bpp == 24,
        0 <= x0,
        0 <= y,
        forall|c: int| 0 <= c < ncols ==> #[trigger] pixel_ok(info, x0 + c, y),
    ensures
        paint_row(buf, info, x0, y, row, ncols, f).len() == buf.len(),
    decreases ncols,
{
    if ncols > 0 {
        lemma_paint_row_len(buf, info, x0, y, row, ncols - 1, f);
        assert(pixel_ok(info, x0 + (ncols - 1), y));
    }
}

/// What a pixel of a row painted with one colour reads: the colour inside
/// the painted part of the row, what it read before elsewhere.
proof fn lemma_paint_row_reads(
    buf: Seq<u8>,
    info: FramebufferInfo,
    x0: int,
    y: int,
    row: int,
    ncols: int,
    f: spec_fn(int, int) -> Option<Color>,
    color: Color,
    px: int,
    py: int,
)
    requires
        buf.len() == buffer_size(info),
        info.bpp == 32 || info.bpp == 24,
        rows_disjoint(info),
        forall|c: int, r: int| #[trigger] f(c, r) == Some(color),
        0 <= x0,
        x0 + ncols <= info.width,
        0 <= y < info.height,
        forall|c: int| 0 <= c < ncols ==> #[trigger] pixel_ok(info, x0 + c, y),
        0 <= px < info.width,
        0 <= py < info.height,
        pixel_ok(info, px, py),
    ensures
        pixel_read(paint_row(buf, info, x0, y, row, ncols, f), info, px, py) == if py == y && x0 <= px
            < x0 + ncols {
            Some(read_back(info, color))
        } else {
            pixel_read(buf, info, px, py)
        },
    decreases ncols,
{
    if ncols > 0 {
        lemma_paint_row_reads(buf, info, x0, y, row, ncols - 1, f, color, px, py);
        lemma_paint_row_len(buf, info, x0, y, row, ncols - 1, f);
        let b = paint_row(buf, info, x0, y, row, ncols - 1, f);
        assert(f(ncols - 1, row) == Some(color));
        assert(pixel_ok(info, x0 + ncols - 1, y));
        if px == x0 + ncols - 1 && py == y {
            lemma_pixel_roundtrip(b, info, px, py, color);
        } else {
            lemma_write_keeps_other_pixels(b, info, x0 + ncols - 1, y, color, px, py);
        }
    }
}

/// Painting a block leaves the buffer's length alone.
proof fn lemma_paint_len(
    buf: Seq<u8>,
    info: FramebufferInfo,
    x0: int,
    y0: int,
    ncols: int,
    nrows: int,
    f: spec_fn(int, int) -> Option<Color>,
)
    requires
        buf.len() == buffer_size(info),
        info.bpp == 32 || info.bpp == 24,
        0 <= x0,
        0 <= y0,
        block_ok(info, x0, y0, ncols, nrows),
    ensures
        paint(buf, info, x0, y0, ncols, nrows, f).len() == buf.len(),
    decreases nrows,
{
    if nrows > 0 {
        assert(block_ok(info, x0, y0, ncols, nrows - 1));
        lemma_paint_len(buf, info, x0, y0, ncols, nrows - 1, f);
        assert forall|c: int| 0 <= c < ncols implies #[trigger] pixel_ok(info, x0 + c, y0 + nrows - 1) by {
            assert(pixel_ok(info, x0 + c, y0 + (nrows - 1)));
        }
        lemma_paint_row_len(paint(buf, info, x0, y0, ncols, nrows - 1, f), info, x0, y0 + nrows - 1,
            nrows - 1, ncols, f);
    }
}

/// A rectangle filled with one colour reads back as that colour, at 24 and
/// 32 bits per pixel (with full alpha at 24), and every pixel outside it
/// reads as before.
pub proof fn lemma_fill_reads_back(
    buf: Seq<u8>,
    info: FramebufferInfo,
    x0: int,
    y0: int,
    ncols: int,
    nrows: int,
    f: spec_fn(int, int) -> Option<Color>,
    color: Color,
    px: int,
    py: int,
)
    requires
        buf.len() == buffer_size(info),
        info.bpp == 32 || info.bpp == 24,
        rows_disjoint(info),
        forall|c: int, r: int| #[trigger] f(c, r) == Some(color),
        0 <= x0,
        0 <= y0,
        x0 + ncols <= info.width,
        y0 + nrows <= info.height,
        block_ok(info, x0, y0, ncols, nrows),
        0 <= px < info.width,
        0 <= py < info.height,
        pixel_ok(info, px, py),
    ensures
        pixel_read(paint(buf, info, x0, y0, ncols, nrows, f), info, px, py) == if x0 <= px < x0 + ncols
            && y0 <= py < y0 + nrows {
            Some(read_back(info, color))
        } else {
            pixel_read(buf, info, px, py)
        },
    decreases nrows,
{
    if nrows > 0 {
        assert(block_ok(info, x0, y0, ncols, nrows - 1));
        lemma_fill_reads_back(buf, info, x0, y0, ncols, nrows - 1, f, color, px, py);
        lemma_paint_len(buf, info, x0, y0, ncols, nrows - 1, f);
        assert forall|c: int| 0 <= c < ncols implies #[trigger] pixel_ok(info, x0 + c, y0 + nrows - 1) by {
            assert(pixel_ok(info, x0 + c, y0 + (nrows - 1)));
        }
        lemma_paint_row_reads(paint(buf, info, x0, y0, ncols, nrows - 1, f), info, x0, y0 + nrows - 1,
            nrows - 1, ncols, f, color, px, py);
    }
}

} // verus!
