//! The 80x25 text-mode screen: colours, character cells, and a writer that
//! prints on the bottom row and scrolls.
use vstd::prelude::*;
use vstd::string::StringSliceAdditionalSpecFns;

verus! {

pub const BUFFER_HEIGHT: usize = 25;

pub const BUFFER_WIDTH: usize = 80;

/// Number of cells on the screen.
pub const BUFFER_CELLS: usize = 2000;

/// The sixteen text-mode colours.
#[derive(Clone, Copy, Debug, PartialEq, Eq)]
pub enum Color {
    Black,
    Blue,
    Green,
    Cyan,
    Red,
    Magenta,
    Brown,
    LightGrey,
    DarkGrey,
    LightBlue,
    LightGreen,
    LightCyan,
    LightRed,
    LightMagenta,
    LightBrown,
    White,
}

impl Color {
    pub open spec fn spec_value(self) -> u8 {
        match self {
            Color::Black => 0,
            Color::Blue => 1,
            Color::Green => 2,
            Color::Cyan => 3,
            Color::Red => 4,
            Color::Magenta => 5,
            Color::Brown => 6,
            Color::LightGrey => 7,
            Color::DarkGrey => 8,
            Color::LightBlue => 9,
            Color::LightGreen => 10,
            Color::LightCyan => 11,
            Color::LightRed => 12,
            Color::LightMagenta => 13,
            Color::LightBrown => 14,
            Color::White => 15,
        }
    }

    /// The colour number, 0 to 15.
    pub fn as_u8(self) -> (r: u8)
        ensures
            r == self.spec_value(),
            r < 16,
    {
        match self {
            Color::Black => 0,
            Color::Blue => 1,
            Color::Green => 2,
            Color::Cyan => 3,
            Color::Red => 4,
            Color::Magenta => 5,
            Color::Brown => 6,
            Color::LightGrey => 7,
            Color::DarkGrey => 8,
            Color::LightBlue => 9,
            Color::LightGreen => 10,
            Color::LightCyan => 11,
            Color::LightRed => 12,
            Color::LightMagenta => 13,
            Color::LightBrown => 14,
            Color::White => 15,
        }
    }
}

/// Colours of a cell: background in the high four bits, foreground in the
/// low four.
#[derive(Clone, Copy, Debug, PartialEq, Eq)]
pub struct CharStyle(pub u8);

impl CharStyle {
    pub fn new(background: Color, foreground: Color) -> (r: CharStyle)
        ensures
            r.0 == background.spec_value() * 16 + foreground.spec_value(),
    {
        let b = background.as_u8();
        let f = foreground.as_u8();
        assert((b << 4u8) | f == b * 16 + f) by (bit_vector)
            requires
                b < 16,
                f < 16,
        ;
        CharStyle((b << 4u8) | f)
    }
}

/// White on black.
pub open spec fn default_style() -> CharStyle {
    CharStyle(15)
}

/// One screen cell: a character byte and its colours.
#[derive(Clone, Copy, Debug, PartialEq, Eq)]
pub struct Char {
    pub char: u8,
    pub style: CharStyle,
}

impl Char {
    /// The cell for `char`, of which only the low byte is kept.
    pub fn new(char: char, style: CharStyle) -> (r: Char)
        ensures
            r.char == (char as u32 % 256) as u8,
            r.style == style,
    {
        let c = char as u32;
        Char { char: (c % 256) as u8, style }
    }
}

/// A blank cell: a space in `style`.
pub open spec fn blank(style: CharStyle) -> Char {
    Char { char: 0x20, style }
}

/// The screen contents, row after row.
#[derive(Clone, Debug)]
pub struct Buffer {
    chars: Vec<Char>,
}

impl View for Buffer {
    type V = Seq<Char>;

    closed spec fn view(&self) -> Seq<Char> {
        self.chars@
    }
}

impl Buffer {
    pub open spec fn wf(&self) -> bool {
        self@.len() == BUFFER_CELLS
    }

    /// A screen of blank white-on-black cells.
    pub fn new() -> (r: Buffer)
        ensures
            r.wf(),
            forall|i: int| 0 <= i < BUFFER_CELLS ==> r@[i] == blank(default_style()),
    {
        let mut chars: Vec<Char> = Vec::new();
        while chars.len() < BUFFER_CELLS
            invariant
                chars.len() <= BUFFER_CELLS,
                forall|i: int| 0 <= i < chars.len() ==> chars@[i] == blank(default_style()),
            decreases BUFFER_CELLS - chars.len(),
        {
            chars.push(Char { char: 0x20, style: CharStyle(15) });
        }
        Buffer { chars }
    }

    /// Puts `char` in column `x` of row `y`.
    pub fn write(&mut self, char: Char, x: usize, y: usize)
        requires
            old(self).wf(),
            x < BUFFER_WIDTH,
            y < BUFFER_HEIGHT,
        ensures
            final(self)@ == old(self)@.update(y * 80 + x, char),
    {
        self.chars.set(y * BUFFER_WIDTH + x, char);
    }

    /// The cell in column `x` of row `y`.
    pub fn read(&self, x: usize, y: usize) -> (r: Char)
        requires
            self.wf(),
            x < BUFFER_WIDTH,
            y < BUFFER_HEIGHT,
        ensures
            r == self@[y * 80 + x],
    {
        self.chars[y * BUFFER_WIDTH + x]
    }
}

/// The screen after every row moved up one and the bottom row was blanked
/// in `style`.
pub open spec fn scrolled(cells: Seq<Char>, style: CharStyle) -> Seq<Char> {
    Seq::new(
        2000,
        |i: int|
            if i < 1920 {
                cells[i + 80]
            } else {
                blank(style)
            },
    )
}

/// Screen and cursor column after printing byte `byte`: a newline scrolls;
/// another byte goes in the bottom row at the cursor, after a scroll when
/// the row is full.
pub open spec fn put_byte(cells: Seq<Char>, col: nat, style: CharStyle, byte: u8) -> (Seq<Char>, nat) {
    if byte == 10 {
        (scrolled(cells, style), 0)
    } else {
        let (c1, col1) = if col >= 80 {
            (scrolled(cells, style), 0nat)
        } else {
            (cells, col)
        };
        (c1.update(1920 + col1 as int, Char { char: byte, style }), col1 + 1)
    }
}

/// The byte printed for `b`: printable ASCII and newline as they are,
/// anything else as a filled square.
pub open spec fn printable(b: u8) -> u8 {
    if (0x20 <= b <= 0x7e) || b == 10 {
        b
    } else {
        0xfe
    }
}

/// Screen and cursor after printing `bytes` in order.
pub open spec fn put_bytes(cells: Seq<Char>, col: nat, style: CharStyle, bytes: Seq<u8>) -> (
    Seq<Char>,
    nat,
)
    decreases bytes.len(),
{
    if bytes.len() == 0 {
        (cells, col)
    } else {
        let (c, k) = put_bytes(cells, col, style, bytes.drop_last());
        put_byte(c, k, style, printable(bytes.last()))
    }
}

/// Prints on the bottom row of a screen, scrolling up at each new line.
#[derive(Debug)]
pub struct Writer {
    buffer: Buffer,
    column_cursor: usize,
    style: CharStyle,
}

impl Writer {
    pub closed spec fn cells(&self) -> Seq<Char> {
        self.buffer@
    }

    pub closed spec fn column(&self) -> nat {
        self.column_cursor as nat
    }

    pub closed spec fn spec_style(&self) -> CharStyle {
        self.style
    }

    pub open spec fn wf(&self) -> bool {
        self.cells().len() == BUFFER_CELLS && self.column() <= BUFFER_WIDTH
    }

    /// A writer on `buffer`, white on black, at column 0.
    pub fn new(buffer: Buffer) -> (r: Writer)
        requires
            buffer.wf(),
        ensures
            r.wf(),
            r.cells() == buffer@,
            r.column() == 0,
            r.spec_style() == default_style(),
    {
        Writer { buffer, column_cursor: 0, style: CharStyle(15) }
    }

    /// The screen contents.
    pub fn buffer(&self) -> (r: &Buffer)
        ensures
            r@ == self.cells(),
    {
        &self.buffer
    }

    /// Prints `s` byte by byte; a byte that is neither printable ASCII nor
    /// a newline prints as a filled square.
    pub fn write_string(&mut self, s: &str)
        requires
            old(self).wf(),
        ensures
            final(self).wf(),
            final(self).spec_style() == old(self).spec_style(),
            (final(self).cells(), final(self).column()) == put_bytes(
                old(self).cells(),
                old(self).column(),
                old(self).spec_style(),
                s.spec_bytes(),
            ),
    {
        let bytes = s.as_bytes();
        let ghost b = s.spec_bytes();
        let mut i: usize = 0;
        while i < bytes.len()
            invariant
                bytes@ == b,
                0 <= i <= bytes@.len(),
                self.wf(),
                self.spec_style() == old(self).spec_style(),
                (self.cells(), self.column()) == put_bytes(
                    old(self).cells(),
                    old(self).column(),
                    old(self).spec_style(),
                    b.take(i as int),
                ),
            decreases bytes@.len() - i,
        {
            let byte = bytes[i];
            proof {
                assert(b.take(i as int + 1).drop_last() =~= b.take(i as int));
                assert(b.take(i as int + 1).last() == byte);
            }
            if (0x20 <= byte && byte <= 0x7e) || byte == 10 {
                self.write_byte(byte);
            } else {
                self.write_byte(0xfe);
            }
            i = i + 1;
        }
        assert(b.take(bytes@.len() as int) =~= b);
    }

    /// Prints one byte: a newline scrolls; another byte goes at the cursor
    /// in the bottom row, after a scroll when the row is full.
    pub fn write_byte(&mut self, byte: u8)
        requires
            old(self).wf(),
        ensures
            final(self).wf(),
            final(self).spec_style() == old(self).spec_style(),
            (final(self).cells(), final(self).column()) == put_byte(
                old(self).cells(),
                old(self).column(),
                old(self).spec_style(),
                byte,
            ),
    {
        if byte == 10 {
            self.new_line();
        } else {
            if self.column_cursor >= BUFFER_WIDTH {
                self.new_line();
            }
            let row = BUFFER_HEIGHT - 1;
            let col = self.column_cursor;
            let style = self.style;
            self.buffer.write(Char { char: byte, style }, col, row);
            self.column_cursor = self.column_cursor + 1;
        }
    }

    fn clear_row(&mut self, row: usize)
        requires
            old(self).wf(),
            row < BUFFER_HEIGHT,
        ensures
            final(self).wf(),
            final(self).column() == old(self).column(),
            final(self).spec_style() == old(self).spec_style(),
            final(self).cells() == Seq::new(
                2000,
                |i: int|
                    if row * 80 <= i < row * 80 + 80 {
                        blank(old(self).spec_style())
                    } else {
                        old(self).cells()[i]
                    },
            ),
    {
        let blank = Char { char: 0x20, style: self.style };
        let mut col: usize = 0;
        while col < BUFFER_WIDTH
            invariant
                self.wf(),
                col <= BUFFER_WIDTH,
                row < BUFFER_HEIGHT,
                self.column() == old(self).column(),
                self.spec_style() == old(self).spec_style(),
                blank == crate::vga::blank(old(self).spec_style()),
                forall|i: int|
                    0 <= i < 2000 ==> #[trigger] self.cells()[i] == if row * 80 <= i < row * 80
                        + col {
                        blank
                    } else {
                        old(self).cells()[i]
                    },
            decreases BUFFER_WIDTH - col,
        {
            self.buffer.write(blank, col, row);
            col = col + 1;
        }
        assert(self.cells() =~= Seq::new(
            2000,
            |i: int|
                if row * 80 <= i < row * 80 + 80 {
                    crate::vga::blank(old(self).spec_style())
                } else {
                    old(self).cells()[i]
                },
        ));
    }

    /// Moves every row up one, blanks the bottom row, and puts the cursor
    /// at column 0.
    pub fn new_line(&mut self)
        requires
            old(self).wf(),
        ensures
            final(self).wf(),
            final(self).spec_style() == old(self).spec_style(),
            final(self).cells() == scrolled(old(self).cells(), old(self).spec_style()),
            final(self).column() == 0,
    {
        let mut row: usize = 1;
        while row < BUFFER_HEIGHT
            invariant
                self.wf(),
                1 <= row <= BUFFER_HEIGHT,
                self.column() == old(self).column(),
                self.spec_style() == old(self).spec_style(),
                forall|i: int|
                    0 <= i < 2000 ==> #[trigger] self.cells()[i] == if i < (row - 1) * 80 {
                        old(self).cells()[i + 80]
                    } else {
                        old(self).cells()[i]
                    },
            decreases BUFFER_HEIGHT - row,
        {
            let mut col: usize = 0;
            while col < BUFFER_WIDTH
                invariant
                    self.wf(),
                    1 <= row < BUFFER_HEIGHT,
                    col <= BUFFER_WIDTH,
                    self.column() == old(self).column(),
                    self.spec_style() == old(self).spec_style(),
                    forall|i: int|
                        0 <= i < 2000 ==> #[trigger] self.cells()[i] == if i < (row - 1) * 80
                            + col {
                            old(self).cells()[i + 80]
                        } else {
                            old(self).cells()[i]
                        },
                decreases BUFFER_WIDTH - col,
            {
                let char = self.buffer.read(col, row);
                self.buffer.write(char, col, row - 1);
                col = col + 1;
            }
            row = row + 1;
        }
        self.clear_row(BUFFER_HEIGHT - 1);
        self.column_cursor = 0;
        assert(self.cells() =~= scrolled(old(self).cells(), old(self).spec_style()));
    }
}

} // verus!
