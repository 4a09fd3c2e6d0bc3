//! The 80 by 25 text console of protected mode.
//!
//! A [`Writer`] holds the cells of the text buffer and the position of the
//! next character. Whoever owns the video memory copies the cells there.

use vstd::prelude::*;
use vstd::string::StrSliceExecFns;

verus! {

/// Physical address of the text buffer.
pub const TEXT_ADDRESS: usize = 0xB8000;

/// Lines of the console.
pub const MAX_LINES: usize = 25;

/// Columns of the console.
pub const MAX_COLUMNS: usize = 80;

/// Cells of the console.
pub const BUFFER_SIZE: usize = 2000;

/// The cell that shows nothing: a space, white on black.
pub const BLANK_CELL: u16 = 0x0f20;

/// The sixteen colors of text mode.
#[derive(Clone, Copy, Debug, PartialEq, Eq, Structural)]
pub enum Color {
    Black,
    Blue,
    Green,
    Cyan,
    Red,
    Magenta,
    Brown,
    LightGray,
    DarkGray,
    LightBlue,
    LightGreen,
    LightCyan,
    LightRed,
    LightMagenta,
    Yellow,
    White,
}

impl Color {
    /// The number of the color, 0 to 15.
    pub open spec fn spec_val(self) -> u8 {
        match self {
            Color::Black => 0,
            Color::Blue => 1,
            Color::Green => 2,
            Color::Cyan => 3,
            Color::Red => 4,
            Color::Magenta => 5,
            Color::Brown => 6,
            Color::LightGray => 7,
            Color::DarkGray => 8,
            Color::LightBlue => 9,
            Color::LightGreen => 10,
            Color::LightCyan => 11,
            Color::LightRed => 12,
            Color::LightMagenta => 13,
            Color::Yellow => 14,
            Color::White => 15,
        }
    }

    /// The number of the color, 0 to 15.
    pub fn val(&self) -> (r: u8)
        ensures
            r == self.spec_val(),
            r < 16,
    {
        match self {
            Color::Black => 0,
            Color::Blue => 1,
            Color::Green => 2,
            Color::Cyan => 3,
            Color::Red => 4,
            Color::Magenta => 5,
            Color::Brown => 6,
            Color::LightGray => 7,
            Color::DarkGray => 8,
            Color::LightBlue => 9,
            Color::LightGreen => 10,
            Color::LightCyan => 11,
            Color::LightRed => 12,
            Color::LightMagenta => 13,
            Color::Yellow => 14,
            Color::White => 15,
        }
    }
}

/// Foreground and background of a character.
#[derive(Clone, Copy, Debug, PartialEq, Eq, Structural)]
pub struct TextColor {
    pub fg: Color,
    pub bg: Color,
}

impl TextColor {
    /// The attribute byte: background in the high nibble, foreground in the
    /// low one.
    pub open spec fn spec_color(self) -> u8 {
        self.fg.spec_val() | (self.bg.spec_val() << 4)
    }

    /// The cell that shows `c` in this color: attribute byte above the
    /// character.
    pub open spec fn cell(self, c: u8) -> u16 {
        ((self.spec_color() as u16) << 8) | (c as u16)
    }

    /// The text color with the given foreground and background.
    pub fn new(foreground: Color, background: Color) -> (r: TextColor)
        ensures
            r == (TextColor { fg: foreground, bg: background }),
    {
        TextColor { fg: foreground, bg: background }
    }

    /// The cell that shows `c` in this color.
    pub fn get_u16(&self, c: u8) -> (r: u16)
        ensures
            r == self.cell(c),
    {
        ((self.color() as u16) << 8) | (c as u16)
    }

    /// The attribute byte.
    pub fn color(&self) -> (r: u8)
        ensures
            r == self.spec_color(),
    {
        self.fg.val() | (self.bg.val() << 4)
    }
}

impl Default for TextColor {
    /// White on black.
    fn default() -> (r: TextColor)
        ensures
            r == (TextColor { fg: Color::White, bg: Color::Black }),
    {
        TextColor { fg: Color::White, bg: Color::Black }
    }
}

/// Position of the first cell of the line after the one that holds `index`.
pub open spec fn next_line(index: int) -> int {
    index - index % 80 + 80
}

/// The cells after the console scrolled by one line: every line moves up by
/// one and the last line is blank.
pub open spec fn scrolled(cells: Seq<u16>) -> Seq<u16> {
    Seq::new(2000, |i: int| if i < 1920 { cells[i + 80] } else { BLANK_CELL })
}

/// What a [`Writer`] is: the cells, the position of the next character and the
/// color in use.
pub struct Console {
    pub cells: Seq<u16>,
    pub index: nat,
    pub color: TextColor,
}

impl Console {
    /// The console after `c` was printed. A full console scrolls first. A
    /// line feed moves to the start of the next line; any other character is
    /// placed at the position, which then moves on by one.
    pub open spec fn print(self, c: u8) -> Console {
        let cells = if self.index >= 2000 {
            scrolled(self.cells)
        } else {
            self.cells
        };
        let index = if self.index >= 2000 {
            1920
        } else {
            self.index as int
        };
        if c != 0x0A {
            Console {
                cells: cells.update(index, self.color.cell(c)),
                index: (index + 1) as nat,
                ..self
            }
        } else {
            Console { cells, index: next_line(index) as nat, ..self }
        }
    }

    /// The byte printed for a character: the character itself if it is
    /// ASCII, else a question mark.
    pub open spec fn byte_for(c: char) -> u8 {
        if (c as u32) < 128 {
            c as u8
        } else {
            0x3F
        }
    }

    /// The console after the characters of `text` were printed in order.
    pub open spec fn print_str(self, text: Seq<char>) -> Console
        decreases text.len(),
    {
        if text.len() == 0 {
            self
        } else {
            self.print(Self::byte_for(text[0])).print_str(text.drop_first())
        }
    }
}

/// The text console.
#[derive(Debug)]
pub struct Writer {
    /// Color of the characters printed next.
    pub color: TextColor,
    /// The cells, line after line.
    pub cells: Vec<u16>,
    /// Position of the next character; 2000 when the console is full.
    pub index: usize,
}

impl View for Writer {
    type V = Console;

    open spec fn view(&self) -> Console {
        Console { cells: self.cells@, index: self.index as nat, color: self.color }
    }
}

impl Writer {
    /// The writer holds all 2000 cells and its position is on the console or
    /// just past its end.
    pub open spec fn wf(self) -> bool {
        self.cells@.len() == BUFFER_SIZE && self.index <= BUFFER_SIZE
    }

    /// Decides [`Writer::wf`].
    pub fn is_wf(&self) -> (r: bool)
        ensures
            r == self.wf(),
    {
        self.cells.len() == BUFFER_SIZE && self.index <= BUFFER_SIZE
    }

    /// A blank console in the default color, white on black.
    pub fn new() -> (r: Writer)
        ensures
            r.wf(),
            r.index == 0,
            r.color == (TextColor { fg: Color::White, bg: Color::Black }),
            forall|i: int| 0 <= i < 2000 ==> r.cells@[i] == BLANK_CELL,
    {
        let mut cells: Vec<u16> = Vec::new();
        let mut i: usize = 0;
        while i < BUFFER_SIZE
            invariant
                i <= 2000,
                cells@.len() == i,
                forall|j: int| 0 <= j < i ==> cells@[j] == BLANK_CELL,
            decreases 2000 - i,
        {
            cells.push(BLANK_CELL);
            i += 1;
        }
        Writer { color: TextColor::default(), cells, index: 0 }
    }

    /// Sets the color of the characters printed from now on.
    pub fn set_color(&mut self, color: TextColor)
        ensures
            final(self).color == color,
            final(self).cells == old(self).cells,
            final(self).index == old(self).index,
    {
        self.color = color;
    }

    /// Blanks every cell and moves to the first.
    pub fn clear_screen(&mut self)
        requires
            old(self).wf(),
        ensures
            final(self).wf(),
            final(self).index == 0,
            final(self).color == old(self).color,
            forall|i: int| 0 <= i < 2000 ==> final(self).cells@[i] == BLANK_CELL,
    {
        let mut i: usize = 0;
        while i < BUFFER_SIZE
            invariant
                i <= 2000,
                self.cells@.len() == 2000,
                self.index == old(self).index,
                self.color == old(self).color,
                forall|j: int| 0 <= j < i ==> self.cells@[j] == BLANK_CELL,
            decreases 2000 - i,
        {
            self.cells.set(i, BLANK_CELL);
            i += 1;
        }
        self.index = 0;
    }

    /// Moves every line up by one, blanks the last line, and moves to the
    /// start of the last line.
    pub fn scroll(&mut self)
        requires
            old(self).wf(),
        ensures
            final(self).wf(),
            final(self).cells@ == scrolled(old(self).cells@),
            final(self).index == 1920,
            final(self).color == old(self).color,
    {
        let ghost start = self.cells@;
        let mut i: usize = 0;
        while i < BUFFER_SIZE - MAX_COLUMNS
            invariant
                i <= 1920,
                self.cells@.len() == 2000,
                start.len() == 2000,
                self.color == old(self).color,
                forall|j: int| 0 <= j < i ==> self.cells@[j] == start[j + 80],
                forall|j: int| i <= j < 2000 ==> self.cells@[j] == start[j],
            decreases 1920 - i,
        {
            let cell: u16 = self.cells[i + MAX_COLUMNS];
            self.cells.set(i, cell);
            i += 1;
        }
        while i < BUFFER_SIZE
            invariant
                1920 <= i <= 2000,
                self.cells@.len() == 2000,
                start.len() == 2000,
                self.color == old(self).color,
                forall|j: int| 0 <= j < 1920 ==> self.cells@[j] == start[j + 80],
                forall|j: int| 1920 <= j < i ==> self.cells@[j] == BLANK_CELL,
            decreases 2000 - i,
        {
            self.cells.set(i, BLANK_CELL);
            i += 1;
        }
        self.index = BUFFER_SIZE - MAX_COLUMNS;
        assert(self.cells@ =~= scrolled(start));
    }

    /// Prints one character at the position.
    pub fn print_char(&mut self, c: u8)
        requires
            old(self).wf(),
        ensures
            final(self).wf(),
            final(self)@ == old(self)@.print(c),
    {
        if self.index >= BUFFER_SIZE {
            self.scroll();
        }
        let index: usize = self.index;
        if c != 0x0A {
            let cell: u16 = self.color.get_u16(c);
            self.cells.set(index, cell);
            self.index = index + 1;
        } else {
            self.index = index - (index % MAX_COLUMNS) + MAX_COLUMNS;
        }
        assert(self@ =~= old(self)@.print(c));
    }

    /// Prints the characters of `text` in order; a character that is not
    /// ASCII is printed as a question mark.
    pub fn write_str(&mut self, text: &str)
        requires
            old(self).wf(),
        ensures
            final(self).wf(),
            final(self)@ == old(self)@.print_str(text@),
    {
        let n: usize = text.unicode_len();
        let mut i: usize = 0;
        assert(text@.skip(0) =~= text@);
        while i < n
            invariant
                i <= n,
                n == text@.len(),
                self.wf(),
                old(self)@.print_str(text@) == self@.print_str(text@.skip(i as int)),
            decreases n - i,
        {
            let c: char = text.get_char(i);
            proof {
                let rest = text@.skip(i as int);
                assert(rest[0] == c);
                assert(rest.drop_first() =~= text@.skip(i + 1));
            }
            if (c as u32) < 128 {
                self.print_char(c as u8);
            } else {
                self.print_char(0x3F);
            }
            i += 1;
        }
    }
}

/// Printing never leaves the console: the position stays within the 2000
/// cells or just past them, whatever is printed.
pub proof fn lemma_print_stays_on_console(console: Console, c: u8)
    requires
        console.cells.len() == 2000,
        console.index <= 2000,
    ensures
        console.print(c).cells.len() == 2000,
        console.print(c).index <= 2000,
        c != 0x0A && console.index < 2000 ==> console.print(c).cells[console.index as int]
            == console.color.cell(c),
{
}

} // verus!
