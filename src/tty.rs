//! A text terminal on the screen: a cursor that moves over the rows, a
//! current style, and line handling.
use crate::vga::{blank, default_style, Buffer, Char, CharStyle, Color, BUFFER_HEIGHT, BUFFER_WIDTH};
use vstd::prelude::*;
use vstd::std_specs::iter::IteratorSpec;

verus! {

broadcast use vstd::string::group_string_axioms;

/// Cursor position and cells of a terminal.
pub struct TtyState {
    pub cells: Seq<Char>,
    pub row: nat,
    pub column: nat,
}

/// The state after printing `byte` in `style`, or `None` when the cell it
/// goes in is off the screen: a newline moves to the start of the next
/// row; another byte goes at the cursor, on the next row when the current
/// one is full.
pub open spec fn tty_put_byte(s: TtyState, style: CharStyle, byte: u8) -> Option<TtyState> {
    if byte == 10 {
        if s.row < usize::MAX {
            Some(TtyState { cells: s.cells, row: s.row + 1, column: 0 })
        } else {
            None
        }
    } else {
        let (r, c) = if s.column >= 80 {
            (s.row + 1, 0nat)
        } else {
            (s.row, s.column)
        };
        if r < 25 && s.row < usize::MAX {
            Some(
                TtyState {
                    cells: s.cells.update((r * 80 + c) as int, Char { char: byte, style }),
                    row: r,
                    column: c + 1,
                },
            )
        } else {
            None
        }
    }
}

/// The state after printing each character of `cs` by its low byte, or
/// `None` when one of them falls off the screen.
pub open spec fn tty_put_chars(s: TtyState, style: CharStyle, cs: Seq<char>) -> Option<TtyState>
    decreases cs.len(),
{
    if cs.len() == 0 {
        Some(s)
    } else {
        match tty_put_chars(s, style, cs.drop_last()) {
            Some(t) => tty_put_byte(t, style, (cs.last() as u32 % 256) as u8),
            None => None,
        }
    }
}

/// A terminal that writes into a screen buffer at its cursor.
#[derive(Debug)]
pub struct Tty {
    row: usize,
    column: usize,
    style: CharStyle,
    buffer: Buffer,
}

impl Tty {
    pub closed spec fn state(&self) -> TtyState {
        TtyState { cells: self.buffer@, row: self.row as nat, column: self.column as nat }
    }

    pub closed spec fn spec_style(&self) -> CharStyle {
        self.style
    }

    pub open spec fn wf(&self) -> bool {
        &&& self.state().cells.len() == 2000
        &&& self.state().column <= 80
    }

    /// A blank white-on-black screen with the cursor at the top left.
    pub fn new() -> (r: Tty)
        ensures
            r.wf(),
            r.state().row == 0,
            r.state().column == 0,
            r.spec_style() == default_style(),
            forall|i: int| 0 <= i < 2000 ==> r.state().cells[i] == blank(default_style()),
    {
        Tty { row: 0, column: 0, style: CharStyle(15), buffer: Buffer::new() }
    }

    /// The screen contents.
    pub fn buffer(&self) -> (r: &Buffer)
        ensures
            r@ == self.state().cells,
    {
        &self.buffer
    }

    pub fn style(&self) -> (r: CharStyle)
        ensures
            r == self.spec_style(),
    {
        self.style
    }

    pub fn set_style(&mut self, background: Color, foreground: Color) -> (r: &mut Self)
        ensures
            r.spec_style().0 == background.spec_value() * 16 + foreground.spec_value(),
            r.state() == old(self).state(),
            *final(self) == *final(r),
    {
        self.style = CharStyle::new(background, foreground);
        self
    }

    pub fn row(&self) -> (r: usize)
        ensures
            r == self.state().row,
    {
        self.row
    }

    pub fn set_row(&mut self, row: usize) -> (r: &mut Self)
        ensures
            r.state() == (TtyState { row: row as nat, ..old(self).state() }),
            r.spec_style() == old(self).spec_style(),
            *final(self) == *final(r),
    {
        self.row = row;
        self
    }

    pub fn column(&self) -> (r: usize)
        ensures
            r == self.state().column,
    {
        self.column
    }

    pub fn set_column(&mut self, column: usize) -> (r: &mut Self)
        ensures
            r.state() == (TtyState { column: column as nat, ..old(self).state() }),
            r.spec_style() == old(self).spec_style(),
            *final(self) == *final(r),
    {
        self.column = column;
        self
    }

    /// Blanks the bottom row in white on black.
    pub fn clear_last_line(&mut self) -> (r: &mut Self)
        requires
            old(self).wf(),
        ensures
            r.wf(),
            r.spec_style() == old(self).spec_style(),
            r.state().row == old(self).state().row,
            r.state().column == old(self).state().column,
            r.state().cells == Seq::new(
                2000,
                |i: int|
                    if 1920 <= i {
                        Char { char: 0x20, style: CharStyle(15) }
                    } else {
                        old(self).state().cells[i]
                    },
            ),
            *final(self) == *final(r),
    {
        let c = Char::new(' ', CharStyle::new(Color::Black, Color::White));
        self.fill_row(BUFFER_HEIGHT - 1, c);
        self
    }

    fn fill_row(&mut self, row: usize, c: Char)
        requires
            old(self).wf(),
            row < BUFFER_HEIGHT,
        ensures
            final(self).wf(),
            final(self).spec_style() == old(self).spec_style(),
            final(self).state().row == old(self).state().row,
            final(self).state().column == old(self).state().column,
            final(self).state().cells == Seq::new(
                2000,
                |i: int|
                    if row * 80 <= i < row * 80 + 80 {
                        c
                    } else {
                        old(self).state().cells[i]
                    },
            ),
    {
        let mut x: usize = 0;
        while x < BUFFER_WIDTH
            invariant
                self.wf(),
                x <= BUFFER_WIDTH,
                row < BUFFER_HEIGHT,
                self.spec_style() == old(self).spec_style(),
                self.state().row == old(self).state().row,
                self.state().column == old(self).state().column,
                forall|i: int|
                    0 <= i < 2000 ==> #[trigger] self.state().cells[i] == if row * 80 <= i < row
                        * 80 + x {
                        c
                    } else {
                        old(self).state().cells[i]
                    },
            decreases BUFFER_WIDTH - x,
        {
            self.buffer.write(c, x, row);
            x = x + 1;
        }
        assert(self.state().cells =~= Seq::new(
            2000,
            |i: int|
                if row * 80 <= i < row * 80 + 80 {
                    c
                } else {
                    old(self).state().cells[i]
                },
        ));
    }

    /// Prints the low byte of `char`.
    pub fn write_char(&mut self, char: char) -> (r: &mut Self)
        requires
            old(self).wf(),
            tty_put_byte(old(self).state(), old(self).spec_style(), (char as u32 % 256) as u8).is_some(),
        ensures
            r.wf(),
            r.spec_style() == old(self).spec_style(),
            Some(r.state()) == tty_put_byte(
                old(self).state(),
                old(self).spec_style(),
                (char as u32 % 256) as u8,
            ),
            *final(self) == *final(r),
    {
        let c = char as u32;
        self.write_byte((c % 256) as u8);
        self
    }

    /// Prints `byte`: a newline moves to the start of the next row; another
    /// byte goes at the cursor, on the next row when the current one is
    /// full.
    pub fn write_byte(&mut self, byte: u8) -> (r: &mut Self)
        requires
            old(self).wf(),
            tty_put_byte(old(self).state(), old(self).spec_style(), byte).is_some(),
        ensures
            r.wf(),
            r.spec_style() == old(self).spec_style(),
            Some(r.state()) == tty_put_byte(old(self).state(), old(self).spec_style(), byte),
            *final(self) == *final(r),
    {
        if byte == 10 {
            self.new_line();
        } else {
            if self.column >= BUFFER_WIDTH {
                self.new_line();
            }
            let c = Char { char: byte, style: self.style };
            self.buffer.write(c, self.column, self.row);
            self.column = self.column + 1;
        }
        self
    }

    /// Erases the character left of the cursor and moves back onto it.
    pub fn clear_char(&mut self) -> (r: &mut Self)
        requires
            old(self).wf(),
            old(self).state().column >= 1,
            old(self).state().row < 25,
        ensures
            r.wf(),
            r.spec_style() == old(self).spec_style(),
            r.state() == (TtyState {
                cells: old(self).state().cells.update(
                    old(self).state().row * 80 + old(self).state().column - 1,
                    blank(old(self).spec_style()),
                ),
                row: old(self).state().row,
                column: (old(self).state().column - 1) as nat,
            }),
            *final(self) == *final(r),
    {
        let c = Char::new(' ', self.style);
        self.buffer.write(c, self.column - 1, self.row);
        self.column = self.column - 1;
        self
    }

    /// Moves the cursor to the start of the next row.
    pub fn new_line(&mut self) -> (r: &mut Self)
        requires
            old(self).wf(),
            old(self).state().row < usize::MAX,
        ensures
            r.wf(),
            r.spec_style() == old(self).spec_style(),
            r.state() == (TtyState {
                cells: old(self).state().cells,
                row: old(self).state().row + 1,
                column: 0,
            }),
            *final(self) == *final(r),
    {
        self.column = 0;
        self.row = self.row + 1;
        self
    }

    /// Moves every row up one, blanks the bottom row, and puts the cursor
    /// at column 0.
    pub fn scroll(&mut self) -> (r: &mut Self)
        requires
            old(self).wf(),
        ensures
            r.wf(),
            r.spec_style() == old(self).spec_style(),
            r.state() == (TtyState {
                cells: crate::vga::scrolled(old(self).state().cells, old(self).spec_style()),
                row: old(self).state().row,
                column: 0,
            }),
            *final(self) == *final(r),
    {
        let mut row: usize = 1;
        while row < BUFFER_HEIGHT
            invariant
                self.wf(),
                1 <= row <= BUFFER_HEIGHT,
                self.state().row == old(self).state().row,
                self.state().column == old(self).state().column,
                self.spec_style() == old(self).spec_style(),
                forall|i: int|
                    0 <= i < 2000 ==> #[trigger] self.state().cells[i] == if i < (row - 1) * 80 {
                        old(self).state().cells[i + 80]
                    } else {
                        old(self).state().cells[i]
                    },
            decreases BUFFER_HEIGHT - row,
        {
            let mut col: usize = 0;
            while col < BUFFER_WIDTH
                invariant
                    self.wf(),
                    1 <= row < BUFFER_HEIGHT,
                    col <= BUFFER_WIDTH,
                    self.state().row == old(self).state().row,
                    self.state().column == old(self).state().column,
                    self.spec_style() == old(self).spec_style(),
                    forall|i: int|
                        0 <= i < 2000 ==> #[trigger] self.state().cells[i] == if i < (row - 1)
                            * 80 + col {
                            old(self).state().cells[i + 80]
                        } else {
                            old(self).state().cells[i]
                        },
                decreases BUFFER_WIDTH - col,
            {
                let char = self.buffer.read(col, row);
                self.buffer.write(char, col, row - 1);
                col = col + 1;
            }
            row = row + 1;
        }
        self.clear_row(BUFFER_HEIGHT - 1);
        self.column = 0;
        assert(self.state().cells =~= crate::vga::scrolled(
            old(self).state().cells,
            old(self).spec_style(),
        ));
        self
    }

    /// Blanks row `row` in the current style.
    pub fn clear_row(&mut self, row: usize) -> (r: &mut Self)
        requires
            old(self).wf(),
            row < BUFFER_HEIGHT,
        ensures
            r.wf(),
            r.spec_style() == old(self).spec_style(),
            r.state().row == old(self).state().row,
            r.state().column == old(self).state().column,
            r.state().cells == Seq::new(
                2000,
                |i: int|
                    if row * 80 <= i < row * 80 + 80 {
                        blank(old(self).spec_style())
                    } else {
                        old(self).state().cells[i]
                    },
            ),
            *final(self) == *final(r),
    {
        let blank = Char::new(' ', self.style);
        self.fill_row(row, blank);
        self
    }

    /// Prints each character of `s` by its low byte.
    pub fn write_str(&mut self, s: &str) -> (r: &mut Self)
        requires
            old(self).wf(),
            tty_put_chars(old(self).state(), old(self).spec_style(), s@).is_some(),
        ensures
            r.wf(),
            r.spec_style() == old(self).spec_style(),
            Some(r.state()) == tty_put_chars(old(self).state(), old(self).spec_style(), s@),
            *final(self) == *final(r),
    {
        let mut chars = s.chars();
        let ghost mut k: int = 0;
        proof {
            assert(s@.take(s@.len() as int) =~= s@);
            assert(s@.take(0) =~= Seq::<char>::empty());
            assert(s@.skip(0) =~= s@);
            lemma_put_chars_prefix(old(self).state(), old(self).spec_style(), s@, s@.len() as int);
        }
        loop
            invariant
                0 <= k <= s@.len(),
                chars.remaining() == s@.skip(k),
                chars.obeys_prophetic_iter_laws(),
                self.wf(),
                self.spec_style() == old(self).spec_style(),
                Some(self.state()) == tty_put_chars(
                    old(self).state(),
                    old(self).spec_style(),
                    s@.take(k),
                ),
                forall|j: int|
                    0 <= j <= s@.len() ==> #[trigger] tty_put_chars(
                        old(self).state(),
                        old(self).spec_style(),
                        s@.take(j),
                    ).is_some(),
            ensures
                self.wf(),
                self.spec_style() == old(self).spec_style(),
                Some(self.state()) == tty_put_chars(old(self).state(), old(self).spec_style(), s@),
            decreases s@.len() - k,
        {
            match chars.next() {
                Some(c) => {
                    proof {
                        assert(s@.skip(k)[0] == s@[k]);
                        assert(s@.take(k + 1).drop_last() =~= s@.take(k));
                        assert(s@.take(k + 1).last() == c);
                        assert(s@.skip(k).drop_first() =~= s@.skip(k + 1));
                        assert(tty_put_chars(
                            old(self).state(),
                            old(self).spec_style(),
                            s@.take(k + 1),
                        ).is_some());
                    }
                    self.write_char(c);
                    proof {
                        k = k + 1;
                    }
                },
                None => {
                    assert(s@.take(k) =~= s@);
                    break;
                },
            }
        }
        self
    }

    /// Clears row `row` and prints `str` from its start.
    pub fn write_row(&mut self, str: &str, row: usize) -> (r: &mut Self)
        requires
            old(self).wf(),
            row < BUFFER_HEIGHT,
            tty_put_chars(
                TtyState {
                    cells: Seq::new(
                        2000,
                        |i: int|
                            if row * 80 <= i < row * 80 + 80 {
                                blank(old(self).spec_style())
                            } else {
                                old(self).state().cells[i]
                            },
                    ),
                    row: row as nat,
                    column: 0,
                },
                old(self).spec_style(),
                str@,
            ).is_some(),
        ensures
            r.wf(),
            r.spec_style() == old(self).spec_style(),
            Some(r.state()) == tty_put_chars(
                TtyState {
                    cells: Seq::new(
                        2000,
                        |i: int|
                            if row * 80 <= i < row * 80 + 80 {
                                blank(old(self).spec_style())
                            } else {
                                old(self).state().cells[i]
                            },
                    ),
                    row: row as nat,
                    column: 0,
                },
                old(self).spec_style(),
                str@,
            ),
            *final(self) == *final(r),
    {
        self.clear_row(row);
        self.set_column(0);
        self.set_row(row);
        self.write_str(str);
        self
    }
}

/// When printing a sequence stays on the screen, so does printing each of
/// its prefixes, and the states stay within the screen.
proof fn lemma_put_chars_prefix(s: TtyState, style: CharStyle, cs: Seq<char>, n: int)
    requires
        0 <= n <= cs.len(),
    ensures
        tty_put_chars(s, style, cs.take(n)).is_some() ==> forall|j: int|
            0 <= j <= n ==> #[trigger] tty_put_chars(s, style, cs.take(j)).is_some(),
    decreases n,
{
    if n > 0 {
        assert(cs.take(n).drop_last() =~= cs.take(n - 1));
        lemma_put_chars_prefix(s, style, cs, n - 1);
    }
}

} // verus!
