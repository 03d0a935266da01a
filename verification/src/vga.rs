use vstd::prelude::*;
use vstd::string::StringSliceAdditionalSpecFns;

verus! {

/// Physical address of the colour text buffer.
pub const VGA_TEXT_BASE: usize = 0xB8000;
pub const VGA_COLS: usize = 80;
pub const VGA_ROWS: usize = 25;

pub const CRT_INDEX: u16 = 0x3D4;
pub const CRT_DATA: u16 = 0x3D5;
pub const MISC_OUT: u16 = 0x3C2;
pub const SEQUENCER_INDEX: u16 = 0x3C4;
pub const SEQUENCER_DATA: u16 = 0x3C5;
pub const GC_INDEX: u16 = 0x3CE;
pub const GC_DATA: u16 = 0x3CF;
pub const AC_INDEX: u16 = 0x3C0;
pub const AC_DATA: u16 = 0x3C1;
pub const DAC_WRITE: u16 = 0x3C8;
pub const DAC_DATA: u16 = 0x3C9;

/// Number of columns between two tab stops.
pub const TAB_STOP: usize = 8;

#[derive(Debug, Clone, Copy, PartialEq, Eq, Structural)]
pub enum VgaMode {
    Text80x25,
    Text80x50,
    Graphics320x200x256,
    Graphics640x480x16,
}

/// The sixteen text-mode colours, in palette order.
#[derive(Debug, Clone, Copy, PartialEq, Eq, Structural)]
pub enum Color {
    Black,
    Blue,
    Green,
    Cyan,
    Red,
    Magenta,
    Brown,
    LightGray,
    DarkGray,
    LightBlue,
    LightGreen,
    LightCyan,
    LightRed,
    LightMagenta,
    Yellow,
    White,
}

impl Color {
    /// Palette index of the colour.
    pub open spec fn index(self) -> u8 {
        match self {
            Color::Black => 0,
            Color::Blue => 1,
            Color::Green => 2,
            Color::Cyan => 3,
            Color::Red => 4,
            Color::Magenta => 5,
            Color::Brown => 6,
            Color::LightGray => 7,
            Color::DarkGray => 8,
            Color::LightBlue => 9,
            Color::LightGreen => 10,
            Color::LightCyan => 11,
            Color::LightRed => 12,
            Color::LightMagenta => 13,
            Color::Yellow => 14,
            Color::White => 15,
        }
    }

    /// The colour whose palette index is `val`, if there is one.
    pub open spec fn from_index(val: u8) -> Option<Color> {
        if val == 0 {
            Some(Color::Black)
        } else if val == 1 {
            Some(Color::Blue)
        } else if val == 2 {
            Some(Color::Green)
        } else if val == 3 {
            Some(Color::Cyan)
        } else if val == 4 {
            Some(Color::Red)
        } else if val == 5 {
            Some(Color::Magenta)
        } else if val == 6 {
            Some(Color::Brown)
        } else if val == 7 {
            Some(Color::LightGray)
        } else if val == 8 {
            Some(Color::DarkGray)
        } else if val == 9 {
            Some(Color::LightBlue)
        } else if val == 10 {
            Some(Color::LightGreen)
        } else if val == 11 {
            Some(Color::LightCyan)
        } else if val == 12 {
            Some(Color::LightRed)
        } else if val == 13 {
            Some(Color::LightMagenta)
        } else if val == 14 {
            Some(Color::Yellow)
        } else if val == 15 {
            Some(Color::White)
        } else {
            None
        }
    }

    /// Palette index of the colour.
    pub fn value(self) -> (r: u8)
        ensures
            r == self.index(),
            r < 16,
    {
        match self {
            Color::Black => 0,
            Color::Blue => 1,
            Color::Green => 2,
            Color::Cyan => 3,
            Color::Red => 4,
            Color::Magenta => 5,
            Color::Brown => 6,
            Color::LightGray => 7,
            Color::DarkGray => 8,
            Color::LightBlue => 9,
            Color::LightGreen => 10,
            Color::LightCyan => 11,
            Color::LightRed => 12,
            Color::LightMagenta => 13,
            Color::Yellow => 14,
            Color::White => 15,
        }
    }

    /// The colour with palette index `val`; `None` for `val >= 16`.
    pub fn from_u8(val: u8) -> (r: Option<Self>)
        ensures
            r == Color::from_index(val),
            r is Some <==> val < 16,
            r matches Some(c) ==> c.index() == val,
    {
        match val {
            0 => Some(Self::Black),
            1 => Some(Self::Blue),
            2 => Some(Self::Green),
            3 => Some(Self::Cyan),
            4 => Some(Self::Red),
            5 => Some(Self::Magenta),
            6 => Some(Self::Brown),
            7 => Some(Self::LightGray),
            8 => Some(Self::DarkGray),
            9 => Some(Self::LightBlue),
            10 => Some(Self::LightGreen),
            11 => Some(Self::LightCyan),
            12 => Some(Self::LightRed),
            13 => Some(Self::LightMagenta),
            14 => Some(Self::Yellow),
            15 => Some(Self::White),
            _ => None,
        }
    }
}

/// Every colour is found again from its palette index.
/// The sixteen text-mode colours in palette order: the eight dark ones,
/// then their bright versions.
pub open spec fn palette() -> Seq<Color> {
    seq![
        Color::Black, Color::Blue, Color::Green, Color::Cyan, Color::Red, Color::Magenta,
        Color::Brown, Color::LightGray, Color::DarkGray, Color::LightBlue, Color::LightGreen,
        Color::LightCyan, Color::LightRed, Color::LightMagenta, Color::Yellow, Color::White,
    ]
}

/// Palette index `i` below 16 names the `i`-th colour of the palette and
/// that colour's index is `i`; no colour has an index of 16 or more.
pub proof fn lemma_palette(i: u8)
    ensures
        i < 16 ==> Color::from_index(i) == Some(palette()[i as int]) && palette()[i as int].index() == i,
        i >= 16 ==> Color::from_index(i) is None,
{
}

pub proof fn lemma_color_index_roundtrip(c: Color)
    ensures
        Color::from_index(c.index()) == Some(c),
        c.index() < 16,
{
}

/// Attribute byte: background in bits 4..7, foreground in bits 0..3, blink in bit 7.
pub open spec fn attr_spec(fg: u8, bg: u8, blink: bool) -> u8 {
    ((bg << 4u8) | fg) | (if blink { 0x80u8 } else { 0u8 })
}

fn make_attr(fg: Color, bg: Color, blink: bool) -> (r: u8)
    ensures
        r == attr_spec(fg.index(), bg.index(), blink),
{
    let b: u8 = if blink { 0x80 } else { 0 };
    ((bg.value() << 4u8) | fg.value()) | b
}

/// A character cell together with its colours.
#[derive(Debug, Clone, Copy, PartialEq, Eq, Structural)]
pub struct VgaChar {
    pub ch: u8,
    pub fg: Color,
    pub bg: Color,
    pub blink: bool,
}

/// The 16-bit word that the text buffer holds for `c`.
pub open spec fn word_spec(c: VgaChar) -> u16 {
    (c.ch as u16) | ((attr_spec(c.fg.index(), c.bg.index(), c.blink) as u16) << 8u16)
}

/// The character that a cell holding `word` reads back as.
pub open spec fn char_of_word(word: u16) -> VgaChar {
    let attr = (word >> 8u16) as u8;
    VgaChar {
        ch: word as u8,
        fg: match Color::from_index(attr & 0x0Fu8) {
            Some(c) => c,
            None => Color::LightGray,
        },
        bg: match Color::from_index((attr >> 4u8) & 0x07u8) {
            Some(c) => c,
            None => Color::Black,
        },
        blink: attr & 0x80u8 != 0,
    }
}

/// What a written character becomes when read back: the background keeps
/// its low three bits, and a bright background shows up as blinking.
pub open spec fn stored_char(c: VgaChar) -> VgaChar {
    VgaChar {
        ch: c.ch,
        fg: c.fg,
        bg: match Color::from_index(c.bg.index() & 0x07u8) {
            Some(b) => b,
            None => Color::Black,
        },
        blink: c.blink || c.bg.index() >= 8,
    }
}

proof fn lemma_word_bits(ch: u8, fg: u8, bg: u8, blink: bool)
    by (bit_vector)
    requires
        fg < 16,
        bg < 16,
    ensures
        (((ch as u16) | (((((bg << 4u8) | fg) | (if blink { 0x80u8 } else { 0u8 })) as u16) << 8u16)) as u8) == ch,
        ((((ch as u16) | (((((bg << 4u8) | fg) | (if blink { 0x80u8 } else { 0u8 })) as u16) << 8u16)) >> 8u16) as u8)
            == (((bg << 4u8) | fg) | (if blink { 0x80u8 } else { 0u8 })),
        ((((bg << 4u8) | fg) | (if blink { 0x80u8 } else { 0u8 })) & 0x0Fu8) == fg,
        (((((bg << 4u8) | fg) | (if blink { 0x80u8 } else { 0u8 })) >> 4u8) & 0x07u8) == bg & 0x07u8,
        (((((bg << 4u8) | fg) | (if blink { 0x80u8 } else { 0u8 })) & 0x80u8) != 0) == (blink || bg >= 8),
        bg & 0x07u8 < 8,
{
}

/// Reading a cell back gives the written character, up to what the
/// attribute byte can hold.
pub proof fn lemma_word_roundtrip(c: VgaChar)
    ensures
        char_of_word(word_spec(c)) == stored_char(c),
{
    lemma_word_bits(c.ch, c.fg.index(), c.bg.index(), c.blink);
    lemma_color_index_roundtrip(c.fg);
}

/// A character whose background is one of the eight dark colours reads
/// back exactly as written.
pub proof fn lemma_stored_char_dark_bg(c: VgaChar)
    requires
        c.bg.index() < 8,
    ensures
        stored_char(c) == c,
{
    let b = c.bg.index();
    assert(b & 0x07u8 == b) by (bit_vector)
        requires
            b < 8u8,
    ;
    lemma_color_index_roundtrip(c.bg);
}

impl VgaChar {
    pub fn new(ch: u8, fg: Color, bg: Color) -> (r: Self)
        ensures
            r == (VgaChar { ch, fg, bg, blink: false }),
    {
        Self { ch, fg, bg, blink: false }
    }

    /// A light grey space on black.
    pub fn space() -> (r: Self)
        ensures
            r == space_char(),
    {
        Self::new(32u8, Color::LightGray, Color::Black)
    }

    pub fn to_word(self) -> (r: u16)
        ensures
            r == word_spec(self),
    {
        (self.ch as u16) | ((make_attr(self.fg, self.bg, self.blink) as u16) << 8u16)
    }
}

pub open spec fn space_char() -> VgaChar {
    VgaChar { ch: 32, fg: Color::LightGray, bg: Color::Black, blink: false }
}

/// The character that `print` puts for a plain byte.
pub open spec fn plain_char(b: u8) -> VgaChar {
    VgaChar { ch: b, fg: Color::LightGray, bg: Color::Black, blink: false }
}

/// Contents of a text screen and its cursor.
pub struct Screen {
    pub cells: Seq<u16>,
    pub x: int,
    pub y: int,
}

/// `cells` after a character cell is written, when the position is on screen.
pub open spec fn cells_written(cells: Seq<u16>, rows: int, cols: int, row: int, col: int, w: u16) -> Seq<u16> {
    if 0 <= row < rows && 0 <= col < cols {
        cells.update(row * cols + col, w)
    } else {
        cells
    }
}

/// `cells` moved up by one row, with a blank last row.
pub open spec fn cells_scrolled(cells: Seq<u16>, cols: int) -> Seq<u16> {
    Seq::new(
        cells.len(),
        |i: int|
            if i + cols < cells.len() {
                cells[i + cols]
            } else {
                word_spec(space_char())
            },
    )
}

/// A line feed: to the start of the next row, scrolling at the bottom.
pub open spec fn screen_newline(s: Screen, rows: int, cols: int) -> Screen {
    if s.y + 1 >= rows {
        Screen { cells: cells_scrolled(s.cells, cols), x: 0, y: rows - 1 }
    } else {
        Screen { cells: s.cells, x: 0, y: s.y + 1 }
    }
}

/// The effect of printing one byte.
pub open spec fn screen_put(s: Screen, rows: int, cols: int, b: u8) -> Screen {
    if b == 10 {
        screen_newline(s, rows, cols)
    } else if b == 13 {
        Screen { x: 0, ..s }
    } else if b == 9 {
        let next = (s.x / (TAB_STOP as int) + 1) * (TAB_STOP as int);
        Screen { x: if next < cols - 1 { next } else { cols - 1 }, ..s }
    } else {
        let s1 = if s.x >= cols { screen_newline(s, rows, cols) } else { s };
        Screen {
            cells: cells_written(s1.cells, rows, cols, s1.y, s1.x, word_spec(plain_char(b))),
            x: s1.x + 1,
            y: s1.y,
        }
    }
}

/// Printing byte `b` on screen `s` stays within what the screen can do: a
/// line feed, or a wrap to the next row, needs a row to move to, and a tab
/// needs a column to stop at and a stop that a machine word holds.
pub open spec fn put_defined(s: Screen, rows: int, cols: int, b: u8) -> bool {
    if b == 10 {
        rows >= 1
    } else if b == 13 {
        true
    } else if b == 9 {
        cols >= 1 && (s.x / (TAB_STOP as int) + 1) * (TAB_STOP as int) <= usize::MAX
    } else {
        s.x >= cols ==> rows >= 1
    }
}

/// Every byte of `bytes`, printed one after the other from `s`, meets
/// `put_defined` on the screen it is printed on.
pub open spec fn print_defined(s: Screen, rows: int, cols: int, bytes: Seq<u8>) -> bool {
    forall|i: int| 0 <= i < bytes.len() ==> #[trigger] put_defined(screen_print(s, rows, cols, bytes.take(i)), rows, cols, bytes[i])
}

/// With a row and a column to move to, printing keeps the cursor on or
/// just past the last column.
pub proof fn lemma_print_x_bound(s: Screen, rows: int, cols: int, bytes: Seq<u8>)
    requires
        rows >= 1,
        cols >= 1,
        0 <= s.x <= cols,
    ensures
        0 <= screen_print(s, rows, cols, bytes).x <= cols,
    decreases bytes.len(),
{
    if bytes.len() > 0 {
        lemma_print_x_bound(s, rows, cols, bytes.drop_last());
    }
}

/// The effect of printing a sequence of bytes, one after the other.
pub open spec fn screen_print(s: Screen, rows: int, cols: int, bytes: Seq<u8>) -> Screen
    decreases bytes.len(),
{
    if bytes.len() == 0 {
        s
    } else {
        screen_put(screen_print(s, rows, cols, bytes.drop_last()), rows, cols, bytes.last())
    }
}

/// A text-mode screen: a row-major buffer of character words and a cursor.
pub struct VgaTextMode {
    base: usize,
    buffer: Vec<u16>,
    cursor_x: usize,
    cursor_y: usize,
    rows: usize,
    cols: usize,
}

proof fn lemma_cell_in_range(rows: int, cols: int, row: int, col: int)
    requires
        0 <= row < rows,
        0 <= col < cols,
    ensures
        0 <= row * cols + col < rows * cols,
        row * cols + cols <= rows * cols,
{
    vstd::arithmetic::mul::lemma_mul_inequality(row + 1, rows, cols);
    vstd::arithmetic::mul::lemma_mul_is_distributive_add_other_way(cols, row, 1);
    vstd::arithmetic::mul::lemma_mul_nonnegative(row, cols);
}

proof fn lemma_cols_bound(rows: int, cols: int)
    by (nonlinear_arith)
    requires
        rows >= 1,
        cols >= 0,
        rows * cols <= isize::MAX / 2,
    ensures
        cols <= isize::MAX / 2,
{
}

proof fn lemma_last_row(rows: int, cols: int)
    by (nonlinear_arith)
    requires
        rows >= 1,
        cols >= 0,
    ensures
        (rows - 1) * cols + cols == rows * cols,
        0 <= (rows - 1) * cols,
{
}

impl VgaTextMode {
    pub closed spec fn wf(&self) -> bool {
        &&& self.buffer.len() == self.rows * self.cols
        &&& self.rows * self.cols <= isize::MAX / 2
        &&& (self.cursor_x <= self.cols || (self.cols == 0 && self.cursor_x == 1))
        &&& (self.cursor_y < self.rows || self.cursor_y == 0)
    }

    pub closed spec fn spec_rows(&self) -> int {
        self.rows as int
    }

    pub closed spec fn spec_cols(&self) -> int {
        self.cols as int
    }

    pub closed spec fn spec_base(&self) -> usize {
        self.base
    }

    /// Buffer contents and cursor.
    pub closed spec fn screen(&self) -> Screen {
        Screen { cells: self.buffer@, x: self.cursor_x as int, y: self.cursor_y as int }
    }

    /// A screen of `rows` by `cols` cells whose buffer starts at `base`;
    /// `contents` are the words the buffer holds now, row by row, and the
    /// cursor starts at the top left.
    pub fn new(base: usize, rows: usize, cols: usize, contents: Vec<u16>) -> (r: Self)
        requires
            rows * cols <= isize::MAX / 2,
            contents@.len() == rows * cols,
        ensures
            r.wf(),
            r.spec_rows() == rows,
            r.spec_cols() == cols,
            r.spec_base() == base,
            r.screen().x == 0,
            r.screen().y == 0,
            r.screen().cells == contents@,
    {
        Self { base, buffer: contents, cursor_x: 0, cursor_y: 0, rows, cols }
    }

    /// The standard 80 by 25 colour text screen, whose buffer holds
    /// `contents`.
    pub fn new_80x25(contents: Vec<u16>) -> (r: Self)
        requires
            contents@.len() == VGA_ROWS * VGA_COLS,
        ensures
            r.wf(),
            r.spec_rows() == VGA_ROWS,
            r.spec_cols() == VGA_COLS,
            r.spec_base() == VGA_TEXT_BASE,
            r.screen().x == 0,
            r.screen().y == 0,
            r.screen().cells == contents@,
            r.screen().cells.len() == VGA_ROWS * VGA_COLS,
    {
        Self::new(VGA_TEXT_BASE, VGA_ROWS, VGA_COLS, contents)
    }

    /// A well-formed screen holds one word per cell.
    pub proof fn lemma_cells_len(&self)
        requires
            self.wf(),
        ensures
            self.screen().cells.len() == self.spec_rows() * self.spec_cols(),
            0 <= self.screen().x,
            self.screen().x <= self.spec_cols() || (self.spec_cols() == 0 && self.screen().x == 1),
            self.screen().y < self.spec_rows() || self.screen().y == 0,
    {
    }

    /// On a well-formed screen, a character with a dark background that is
    /// written on screen reads back exactly.
    pub proof fn lemma_write_read_exact(&self, row: int, col: int, ch: VgaChar)
        requires
            self.wf(),
            0 <= row < self.spec_rows(),
            0 <= col < self.spec_cols(),
            ch.bg.index() < 8,
        ensures
            char_of_word(
                cells_written(self.screen().cells, self.spec_rows(), self.spec_cols(), row, col,
                    word_spec(ch))[row * self.spec_cols() + col],
            ) == ch,
    {
        lemma_read_after_write(self.screen().cells, self.spec_rows(), self.spec_cols(), row, col, ch);
        lemma_stored_char_dark_bg(ch);
    }

    /// Printing one plain byte with the cursor inside a row puts the byte
    /// under the cursor, in light grey on black, and moves the cursor right.
    pub proof fn lemma_print_plain_byte(&self, b: u8)
        requires
            self.wf(),
            self.spec_rows() >= 1,
            self.screen().x < self.spec_cols(),
            b != 9 && b != 10 && b != 13,
        ensures
            ({
                let s = self.screen();
                let after = screen_print(s, self.spec_rows(), self.spec_cols(), seq![b]);
                &&& after.x == s.x + 1
                &&& after.y == s.y
                &&& after.cells == s.cells.update(s.y * self.spec_cols() + s.x, word_spec(plain_char(b)))
                &&& char_of_word(after.cells[s.y * self.spec_cols() + s.x]) == plain_char(b)
            }),
    {
        let s = self.screen();
        let bytes = seq![b];
        assert(bytes.drop_last() =~= Seq::<u8>::empty());
        assert(screen_print(s, self.spec_rows(), self.spec_cols(), bytes.drop_last()) == s);
        lemma_cell_in_range(self.spec_rows(), self.spec_cols(), s.y, s.x);
        lemma_stored_char_dark_bg(plain_char(b));
        lemma_word_roundtrip(plain_char(b));
    }

    /// Printing one plain byte with the cursor past the end of the last row
    /// scrolls the screen once and puts the byte at the start of the last
    /// row.
    pub proof fn lemma_print_plain_byte_at_bottom(&self, b: u8)
        requires
            self.wf(),
            self.spec_rows() >= 1,
            self.spec_cols() >= 1,
            self.screen().x == self.spec_cols(),
            self.screen().y == self.spec_rows() - 1,
            b != 9 && b != 10 && b != 13,
        ensures
            ({
                let s = self.screen();
                let rows = self.spec_rows();
                let cols = self.spec_cols();
                let after = screen_print(s, rows, cols, seq![b]);
                &&& after.x == 1
                &&& after.y == rows - 1
                &&& after.cells == cells_scrolled(s.cells, cols).update((rows - 1) * cols, word_spec(plain_char(b)))
                &&& char_of_word(after.cells[(rows - 1) * cols]) == plain_char(b)
            }),
    {
        let s = self.screen();
        let bytes = seq![b];
        assert(bytes.drop_last() =~= Seq::<u8>::empty());
        assert(screen_print(s, self.spec_rows(), self.spec_cols(), bytes.drop_last()) == s);
        lemma_cell_in_range(self.spec_rows(), self.spec_cols(), self.spec_rows() - 1, 0);
        lemma_stored_char_dark_bg(plain_char(b));
        lemma_word_roundtrip(plain_char(b));
    }

    /// On a screen with at least one row and one column, every string can
    /// be printed.
    pub proof fn lemma_print_defined(&self, bytes: Seq<u8>)
        requires
            self.wf(),
            self.spec_rows() >= 1,
            self.spec_cols() >= 1,
        ensures
            print_defined(self.screen(), self.spec_rows(), self.spec_cols(), bytes),
    {
        let rows = self.spec_rows();
        let cols = self.spec_cols();
        lemma_cols_bound(rows, cols);
        assert forall|i: int| 0 <= i < bytes.len() implies #[trigger] put_defined(
            screen_print(self.screen(), rows, cols, bytes.take(i)), rows, cols, bytes[i]) by {
            lemma_print_x_bound(self.screen(), rows, cols, bytes.take(i));
        }
    }

    pub fn base(&self) -> (r: usize)
        ensures
            r == self.spec_base(),
    {
        self.base
    }

    pub fn rows(&self) -> (r: usize)
        ensures
            r == self.spec_rows(),
    {
        self.rows
    }

    pub fn cols(&self) -> (r: usize)
        ensures
            r == self.spec_cols(),
    {
        self.cols
    }

    /// The buffer word at position `i`, for copying the screen to video memory.
    pub fn word_at(&self, i: usize) -> (r: u16)
        requires
            i < self.screen().cells.len(),
        ensures
            r == self.screen().cells[i as int],
    {
        self.buffer[i]
    }

    /// Writes `ch` at `(row, col)`; a position off the screen is ignored.
    pub fn write_char(&mut self, row: usize, col: usize, ch: VgaChar)
        requires
            old(self).wf(),
        ensures
            final(self).wf(),
            final(self).spec_rows() == old(self).spec_rows(),
            final(self).spec_cols() == old(self).spec_cols(),
            final(self).spec_base() == old(self).spec_base(),
            final(self).screen() == (Screen {
                cells: cells_written(old(self).screen().cells, old(self).spec_rows(),
                    old(self).spec_cols(), row as int, col as int, word_spec(ch)),
                ..old(self).screen()
            }),
    {
        if row >= self.rows || col >= self.cols {
            return;
        }
        proof {
            lemma_cell_in_range(self.rows as int, self.cols as int, row as int, col as int);
        }
        let idx = row * self.cols + col;
        self.buffer[idx] = ch.to_word();
    }

    /// The character at `(row, col)`; `None` off the screen.
    pub fn read_char(&self, row: usize, col: usize) -> (r: Option<VgaChar>)
        requires
            self.wf(),
        ensures
            row >= self.spec_rows() || col >= self.spec_cols() ==> r is None,
            row < self.spec_rows() && col < self.spec_cols() ==> r == Some(
                char_of_word(self.screen().cells[row * self.spec_cols() + col]),
            ),
    {
        if row >= self.rows || col >= self.cols {
            return None;
        }
        proof {
            lemma_cell_in_range(self.rows as int, self.cols as int, row as int, col as int);
        }
        let idx = row * self.cols + col;
        let word = self.buffer[idx];
        let ch = word as u8;
        let attr = (word >> 8u16) as u8;
        let blink = attr & 0x80u8 != 0;
        let bg = Color::from_u8((attr >> 4u8) & 0x07u8);
        let fg = Color::from_u8(attr & 0x0Fu8);
        let fg = match fg {
            Some(c) => c,
            None => Color::LightGray,
        };
        let bg = match bg {
            Some(c) => c,
            None => Color::Black,
        };
        Some(VgaChar { ch, fg, bg, blink })
    }

    /// Moves every row up by one and blanks the last row.
    pub fn scroll(&mut self)
        requires
            old(self).wf(),
            old(self).spec_rows() >= 1,
        ensures
            final(self).wf(),
            final(self).spec_rows() == old(self).spec_rows(),
            final(self).spec_cols() == old(self).spec_cols(),
            final(self).spec_base() == old(self).spec_base(),
            final(self).screen() == (Screen {
                cells: cells_scrolled(old(self).screen().cells, old(self).spec_cols()),
                ..old(self).screen()
            }),
    {
        let ghost old_cells = self.buffer@;
        let cols = self.cols;
        proof {
            lemma_last_row(self.rows as int, cols as int);
        }
        let last: usize = (self.rows - 1) * cols;
        let total: usize = self.rows * cols;
        let mut i: usize = 0;
        while i < last
            invariant
                i <= last,
                last + cols == total,
                self.rows == old(self).rows,
                self.cols == cols,
                self.base == old(self).base,
                self.cursor_x == old(self).cursor_x,
                self.cursor_y == old(self).cursor_y,
                total == old_cells.len(),
                self.buffer@.len() == total,
                forall|k: int| 0 <= k < i ==> self.buffer@[k] == old_cells[k + cols],
                forall|k: int| i <= k < total ==> self.buffer@[k] == old_cells[k],
            decreases last - i,
        {
            let w = self.buffer[i + cols];
            self.buffer[i] = w;
            i = i + 1;
        }
        let space = VgaChar::space().to_word();
        let mut j: usize = last;
        while j < total
            invariant
                last <= j <= total,
                last + cols == total,
                self.rows == old(self).rows,
                self.cols == cols,
                self.base == old(self).base,
                self.cursor_x == old(self).cursor_x,
                self.cursor_y == old(self).cursor_y,
                total == old_cells.len(),
                self.buffer@.len() == total,
                space == word_spec(space_char()),
                forall|k: int| 0 <= k < last ==> self.buffer@[k] == old_cells[k + cols],
                forall|k: int| last <= k < j ==> self.buffer@[k] == space,
            decreases total - j,
        {
            self.buffer[j] = space;
            j = j + 1;
        }
        assert(self.buffer@ =~= cells_scrolled(old_cells, cols as int));
    }

    /// Fills the whole screen with light grey spaces on `bg`.
    pub fn clear(&mut self, bg: Color)
        requires
            old(self).wf(),
        ensures
            final(self).wf(),
            final(self).spec_rows() == old(self).spec_rows(),
            final(self).spec_cols() == old(self).spec_cols(),
            final(self).spec_base() == old(self).spec_base(),
            final(self).screen().x == old(self).screen().x,
            final(self).screen().y == old(self).screen().y,
            final(self).screen().cells == Seq::new(
                old(self).screen().cells.len(),
                |i: int| word_spec(VgaChar { ch: 32, fg: Color::LightGray, bg, blink: false }),
            ),
    {
        let space = VgaChar { ch: 32u8, fg: Color::LightGray, bg, blink: false };
        let word = space.to_word();
        let n = self.rows * self.cols;
        let mut i: usize = 0;
        while i < n
            invariant
                i <= n,
                n == self.buffer@.len(),
                self.rows == old(self).rows,
                self.cols == old(self).cols,
                self.base == old(self).base,
                self.cursor_x == old(self).cursor_x,
                self.cursor_y == old(self).cursor_y,
                forall|k: int| 0 <= k < i ==> self.buffer@[k] == word,
            decreases n - i,
        {
            self.buffer[i] = word;
            i = i + 1;
        }
        assert(self.buffer@ =~= Seq::new(n as nat, |i: int| word));
    }

    /// Cursor position as `(row, column)`.
    pub fn cursor_pos(&self) -> (r: (usize, usize))
        ensures
            r.0 == self.screen().y,
            r.1 == self.screen().x,
    {
        (self.cursor_y, self.cursor_x)
    }

    /// The two words that the CRT controller is given for a cursor at
    /// `(row, col)`: the high and the low part of the linear position.
    pub fn cursor_registers(&self, row: usize, col: usize) -> (r: (u16, u16))
        requires
            row * self.spec_cols() + col <= usize::MAX,
        ensures
            r.0 == ((row * self.spec_cols() + col) as u16) >> 8u16,
            r.1 == (row * self.spec_cols() + col) as u16,
    {
        let pos = (row * self.cols + col) as u16;
        (pos >> 8u16, pos)
    }

    fn newline(&mut self)
        requires
            old(self).wf(),
            old(self).spec_rows() >= 1,
        ensures
            final(self).wf(),
            final(self).spec_rows() == old(self).spec_rows(),
            final(self).spec_cols() == old(self).spec_cols(),
            final(self).spec_base() == old(self).spec_base(),
            final(self).screen() == screen_newline(old(self).screen(), old(self).spec_rows(),
                old(self).spec_cols()),
    {
        if self.cursor_y + 1 >= self.rows {
            self.scroll();
            self.cursor_x = 0;
            self.cursor_y = self.rows - 1;
        } else {
            self.cursor_x = 0;
            self.cursor_y = self.cursor_y + 1;
        }
    }

    /// Whether `byte` can be printed at the cursor now: a line feed, or a
    /// wrap to the next row, needs a row, and a tab a column.
    pub fn can_put(&self, byte: u8) -> (r: bool)
        requires
            self.wf(),
        ensures
            r == put_defined(self.screen(), self.spec_rows(), self.spec_cols(), byte),
    {
        if byte == 10u8 {
            self.rows >= 1
        } else if byte == 13u8 {
            true
        } else if byte == 9u8 {
            self.cols >= 1 && self.cursor_x / TAB_STOP < usize::MAX / TAB_STOP
        } else {
            self.cursor_x < self.cols || self.rows >= 1
        }
    }

    /// Prints one byte at the cursor, as `print` does for each byte.
    pub fn put_byte(&mut self, byte: u8)
        requires
            old(self).wf(),
            put_defined(old(self).screen(), old(self).spec_rows(), old(self).spec_cols(), byte),
        ensures
            final(self).wf(),
            final(self).spec_rows() == old(self).spec_rows(),
            final(self).spec_cols() == old(self).spec_cols(),
            final(self).spec_base() == old(self).spec_base(),
            final(self).screen() == screen_put(old(self).screen(), old(self).spec_rows(),
                old(self).spec_cols(), byte),
    {
        if byte == 10u8 {
            self.newline();
        } else if byte == 13u8 {
            self.cursor_x = 0;
        } else if byte == 9u8 {
            let next = (self.cursor_x / TAB_STOP + 1) * TAB_STOP;
            let last_col = self.cols - 1;
            self.cursor_x = if next < last_col { next } else { last_col };
        } else {
            if self.cursor_x >= self.cols {
                self.newline();
            }
            let ch = VgaChar { ch: byte, fg: Color::LightGray, bg: Color::Black, blink: false };
            self.write_char(self.cursor_y, self.cursor_x, ch);
            self.cursor_x = self.cursor_x + 1;
        }
    }

    /// Prints `s` at the cursor: line feed, carriage return and tab move the
    /// cursor, every other byte is written in light grey on black, and the
    /// screen scrolls when the cursor passes the last row.
    pub fn print(&mut self, s: &str)
        requires
            old(self).wf(),
            print_defined(old(self).screen(), old(self).spec_rows(), old(self).spec_cols(), s.spec_bytes()),
        ensures
            final(self).wf(),
            final(self).spec_rows() == old(self).spec_rows(),
            final(self).spec_cols() == old(self).spec_cols(),
            final(self).spec_base() == old(self).spec_base(),
            final(self).screen() == screen_print(old(self).screen(), old(self).spec_rows(),
                old(self).spec_cols(), s.spec_bytes()),
    {
        let bytes = s.as_bytes();
        let ghost start = self.screen();
        let mut i: usize = 0;
        while i < bytes.len()
            invariant
                i <= bytes@.len(),
                bytes@ == s.spec_bytes(),
                self.wf(),
                self.spec_rows() == old(self).spec_rows(),
                self.spec_cols() == old(self).spec_cols(),
                self.spec_base() == old(self).spec_base(),
                print_defined(start, self.spec_rows(), self.spec_cols(), bytes@),
                start == old(self).screen(),
                self.screen() == screen_print(start, self.spec_rows(), self.spec_cols(),
                    bytes@.take(i as int)),
            decreases bytes@.len() - i,
        {
            let b = bytes[i];
            assert(put_defined(screen_print(start, self.spec_rows(), self.spec_cols(), bytes@.take(i as int)),
                self.spec_rows(), self.spec_cols(), bytes@[i as int]));
            self.put_byte(b);
            proof {
                assert(bytes@.take(i + 1).drop_last() =~= bytes@.take(i as int));
            }
            i = i + 1;
        }
        proof {
            assert(bytes@.take(i as int) =~= bytes@);
        }
    }
}

/// Sequencer clock-mode value for 80x50 text: the half-clock bit cleared.
pub fn seq_clock_mode_for_80x50(sr1: u16) -> (r: u16)
    ensures
        r == sr1 & !0x20u16,
{
    sr1 & !0x20u16
}

/// CRT vertical-display-end value for 80x50 text: bit 7 cleared.
pub fn crt_display_end_for_80x50(cr12: u16) -> (r: u16)
    ensures
        r == cr12 & !0x80u16,
{
    cr12 & !0x80u16
}

/// A character written on the screen reads back as `stored_char` of it.
pub proof fn lemma_read_after_write(cells: Seq<u16>, rows: int, cols: int, row: int, col: int, ch: VgaChar)
    requires
        cells.len() == rows * cols,
        0 <= row < rows,
        0 <= col < cols,
    ensures
        char_of_word(cells_written(cells, rows, cols, row, col, word_spec(ch))[row * cols + col])
            == stored_char(ch),
{
    lemma_cell_in_range(rows, cols, row, col);
    lemma_word_roundtrip(ch);
}

} // verus!
