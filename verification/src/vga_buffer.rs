//! Text-mode display driver: colors, character cells and the writer that
//! prints bytes into the screen buffer with wrapping and scrolling.

use vstd::prelude::*;
use vstd::string::StringSliceAdditionalSpecFns;
use volatile::Volatile;
use crate::screen::{Screen, LINE_FEED, PLACEHOLDER};

verus! {

/// Number of text rows of the display.
pub const BUFFER_HEIGHT: usize = 25;

/// Number of text columns of the display.
pub const BUFFER_WIDTH: usize = 80;

/// The sixteen colors of the text-mode palette, in palette order.
#[derive(Debug, Clone, Copy, PartialEq, Eq, Structural)]
pub enum Color {
    Black,
    Blue,
    Green,
    Cyan,
    Red,
    Magenta,
    Brown,
    LightGray,
    DarkGray,
    LightBlue,
    LightGreen,
    LightCyan,
    LightRed,
    Pink,
    Yellow,
    White,
}

impl Color {
    /// The four-bit palette index of the color.
    pub open spec fn spec_code(self) -> u8 {
        match self {
            Color::Black => 0,
            Color::Blue => 1,
            Color::Green => 2,
            Color::Cyan => 3,
            Color::Red => 4,
            Color::Magenta => 5,
            Color::Brown => 6,
            Color::LightGray => 7,
            Color::DarkGray => 8,
            Color::LightBlue => 9,
            Color::LightGreen => 10,
            Color::LightCyan => 11,
            Color::LightRed => 12,
            Color::Pink => 13,
            Color::Yellow => 14,
            Color::White => 15,
        }
    }

    /// The four-bit palette index of the color.
    #[verifier::when_used_as_spec(spec_code)]
    pub fn code(self) -> (code: u8)
        ensures
            code == self.spec_code(),
            code < 16,
    {
        match self {
            Color::Black => 0,
            Color::Blue => 1,
            Color::Green => 2,
            Color::Cyan => 3,
            Color::Red => 4,
            Color::Magenta => 5,
            Color::Brown => 6,
            Color::LightGray => 7,
            Color::DarkGray => 8,
            Color::LightBlue => 9,
            Color::LightGreen => 10,
            Color::LightCyan => 11,
            Color::LightRed => 12,
            Color::Pink => 13,
            Color::Yellow => 14,
            Color::White => 15,
        }
    }
}

/// One character cell of the display: the character and its attribute.
#[derive(Debug, Clone, Copy, PartialEq, Eq, Structural)]
pub struct ScreenChar {
    pub ascii_character: u8,
    pub color_code: ColorCode,
}

/// A packed display attribute: foreground color in the low nibble, background
/// color in the high nibble.
#[derive(Debug, Clone, Copy, PartialEq, Eq, Structural)]
pub struct ColorCode(u8);

impl View for ColorCode {
    type V = u8;

    /// The attribute byte as the display reads it.
    closed spec fn view(&self) -> u8 {
        self.0
    }
}

impl ColorCode {
    /// Packs a foreground and a background color into one attribute byte.
    pub fn new(foreground: Color, background: Color) -> (code: ColorCode)
        ensures
            code@ == background.code() * 16 + foreground.code(),
            code@ & 0x0f == foreground.code(),
            code@ >> 4 == background.code(),
    {
        let fg: u8 = foreground.code();
        let bg: u8 = background.code();
        assert((bg << 4 | fg) == bg * 16 + fg && (bg << 4 | fg) & 0x0f == fg && (bg << 4 | fg) >> 4
            == bg) by (bit_vector)
            requires
                fg < 16,
                bg < 16,
        ;
        ColorCode(bg << 4 | fg)
    }

    /// The attribute byte as the display reads it.
    pub fn as_u8(self) -> (byte: u8)
        ensures
            byte == self@,
    {
        self.0
    }
}

/// `volatile::Volatile`: a value that is read and written with accesses that
/// the compiler may neither drop nor reorder. Verus sees nothing inside it.
#[verifier::external_type_specification]
#[verifier::external_body]
#[verifier::reject_recursive_types(T)]
pub struct ExVolatile<T: Copy>(Volatile<T>);

/// The two bytes that a display cell holds: the character, then the attribute.
/// The display only reads its memory, so a cell holds what was last written
/// to it.
pub uninterp spec fn cell_bytes(cell: Volatile<[u8; 2]>) -> Seq<u8>;

/// Calls `Volatile::read`, a volatile load of the wrapped value. Trusted to
/// return the two bytes that the cell holds.
#[verifier::external_body]
fn cell_read(cell: &Volatile<[u8; 2]>) -> (bytes: [u8; 2])
    ensures
        bytes@ == cell_bytes(*cell),
{
    cell.read()
}

/// Calls `Volatile::write`, a volatile store of the given value. Trusted to
/// leave the cell holding exactly the two bytes written, and not to panic.
#[verifier::external_body]
fn cell_write(cell: &mut Volatile<[u8; 2]>, bytes: [u8; 2])
    ensures
        cell_bytes(*final(cell)) == bytes@,
    no_unwind
{
    cell.write(bytes)
}

/// The screen buffer as the display hardware lays it out: 25 rows of 80 cells,
/// row after row, each cell the character byte followed by the attribute
/// byte. Arrays and the volatile cell add nothing to the size of what they
/// hold, so a buffer is exactly the 4000 bytes of the display's memory.
pub type Buffer = [[Volatile<[u8; 2]>; BUFFER_WIDTH]; BUFFER_HEIGHT];

/// The character cell that a buffer cell shows.
pub closed spec fn cell_char(cell: Volatile<[u8; 2]>) -> ScreenChar {
    ScreenChar { ascii_character: cell_bytes(cell)[0], color_code: ColorCode(cell_bytes(cell)[1]) }
}

/// The grid of character cells that a buffer shows.
pub open spec fn buffer_rows(buffer: Buffer) -> Seq<Seq<ScreenChar>> {
    Seq::new(
        BUFFER_HEIGHT as nat,
        |r: int| Seq::new(BUFFER_WIDTH as nat, |c: int| cell_char(buffer[r][c])),
    )
}

/// A teletype on the screen buffer: characters go to the bottom row, and the
/// screen scrolls up when the row is full or a line ends.
pub struct Writer {
    column_position: usize,
    color_code: ColorCode,
    buffer: &'static mut Buffer,
}

impl View for Writer {
    type V = Screen;

    closed spec fn view(&self) -> Screen {
        Screen {
            rows: buffer_rows(*self.buffer),
            column: self.column_position as int,
            color_code: self.color_code,
        }
    }
}

impl Writer {
    #[verifier::type_invariant]
    spec fn cursor_in_range(self) -> bool {
        self.column_position <= BUFFER_WIDTH
    }

    /// A writer on `buffer` that starts at the left of the bottom row and
    /// leaves the buffer's contents as they are.
    pub fn new(color_code: ColorCode, buffer: &'static mut Buffer) -> (writer: Writer)
        ensures
            writer@ == (Screen {
                rows: buffer_rows(*old(buffer)),
                column: 0,
                color_code,
            }),
            writer@.wf(),
    {
        Writer { column_position: 0, color_code, buffer }
    }

    /// The column where the next character goes.
    pub fn column_position(&self) -> (column: usize)
        ensures
            column == self@.column,
            column <= BUFFER_WIDTH,
    {
        proof {
            use_type_invariant(self);
        }
        self.column_position
    }

    /// The attribute given to the characters written next.
    pub fn color_code(&self) -> (color_code: ColorCode)
        ensures
            color_code == self@.color_code,
    {
        self.color_code
    }

    /// The character cell at the given row and column.
    pub fn read_char(&self, row: usize, col: usize) -> (cell: ScreenChar)
        requires
            row < BUFFER_HEIGHT,
            col < BUFFER_WIDTH,
        ensures
            cell == self@.rows[row as int][col as int],
    {
        let bytes = cell_read(&self.buffer[row][col]);
        ScreenChar { ascii_character: bytes[0], color_code: ColorCode(bytes[1]) }
    }

    fn write_cell(&mut self, row: usize, col: usize, cell: ScreenChar)
        requires
            row < BUFFER_HEIGHT,
            col < BUFFER_WIDTH,
        ensures
            final(self)@ == (Screen {
                rows: old(self)@.rows.update(
                    row as int,
                    old(self)@.rows[row as int].update(col as int, cell),
                ),
                ..old(self)@
            }),
    {
        proof {
            use_type_invariant(&*self);
        }
        cell_write(&mut self.buffer[row][col], [cell.ascii_character, cell.color_code.0]);
        assert(self@.rows =~~= old(self)@.rows.update(
            row as int,
            old(self)@.rows[row as int].update(col as int, cell),
        ));
    }

    /// Blanks row `row`: every cell becomes a space in the current attribute.
    pub fn clear_row(&mut self, row: usize)
        requires
            row < BUFFER_HEIGHT,
        ensures
            final(self)@ == old(self)@.clear_row(row as int),
            final(self)@.wf(),
    {
        proof {
            use_type_invariant(&*self);
        }
        let blank = ScreenChar { ascii_character: 0x20, color_code: self.color_code };
        for col in 0..BUFFER_WIDTH
            invariant
                row < BUFFER_HEIGHT,
                blank == old(self)@.blank(),
                self@.column == old(self)@.column,
                self@.color_code == old(self)@.color_code,
                self@.rows.len() == BUFFER_HEIGHT,
                forall|r: int|
                    0 <= r < BUFFER_HEIGHT && r != row ==> self@.rows[r] == old(self)@.rows[r],
                self@.rows[row as int].len() == BUFFER_WIDTH,
                forall|c: int|
                    0 <= c < BUFFER_WIDTH ==> self@.rows[row as int][c] == if c < col {
                        blank
                    } else {
                        old(self)@.rows[row as int][c]
                    },
        {
            self.write_cell(row, col, blank);
        }
        assert(self@.rows =~~= old(self)@.clear_row(row as int).rows);
    }

    /// Scrolls the screen up by one line and puts the cursor at the start of
    /// the blank bottom row.
    fn new_line(&mut self)
        ensures
            final(self)@ == old(self)@.new_line(),
    {
        for row in 1..BUFFER_HEIGHT
            invariant
                self@.column == old(self)@.column,
                self@.color_code == old(self)@.color_code,
                self@.rows.len() == BUFFER_HEIGHT,
                forall|r: int|
                    0 <= r < BUFFER_HEIGHT ==> (#[trigger] self@.rows[r]).len() == BUFFER_WIDTH,
                forall|r: int, c: int|
                    0 <= r < BUFFER_HEIGHT && 0 <= c < BUFFER_WIDTH ==> self@.rows[r][c] == if r
                        < row - 1 {
                        old(self)@.rows[r + 1][c]
                    } else {
                        old(self)@.rows[r][c]
                    },
        {
            for col in 0..BUFFER_WIDTH
                invariant
                    1 <= row < BUFFER_HEIGHT,
                    self@.column == old(self)@.column,
                    self@.color_code == old(self)@.color_code,
                    self@.rows.len() == BUFFER_HEIGHT,
                    forall|r: int|
                        0 <= r < BUFFER_HEIGHT ==> (#[trigger] self@.rows[r]).len()
                            == BUFFER_WIDTH,
                    forall|r: int, c: int|
                        0 <= r < BUFFER_HEIGHT && 0 <= c < BUFFER_WIDTH ==> self@.rows[r][c]
                            == if r < row - 1 || (r == row - 1 && c < col) {
                            old(self)@.rows[r + 1][c]
                        } else {
                            old(self)@.rows[r][c]
                        },
            {
                let character = self.read_char(row, col);
                self.write_cell(row - 1, col, character);
            }
        }
        self.clear_row(BUFFER_HEIGHT - 1);
        self.column_position = 0;
        assert(self@.rows =~~= old(self)@.new_line().rows);
    }

    /// Writes one byte: a line feed ends the line, any other byte is shown at
    /// the cursor, on a fresh line if the bottom row is full.
    pub fn write_byte(&mut self, byte: u8)
        ensures
            final(self)@ == old(self)@.write_byte(byte),
            final(self)@.wf(),
    {
        proof {
            use_type_invariant(&*self);
        }
        if byte == LINE_FEED {
            self.new_line();
        } else {
            if self.column_position >= BUFFER_WIDTH {
                self.new_line();
            }
            let row = BUFFER_HEIGHT - 1;
            let col = self.column_position;
            let color_code = self.color_code;
            self.write_cell(row, col, ScreenChar { ascii_character: byte, color_code });
            self.column_position += 1;
        }
    }

    /// Writes the bytes of `s` in order; a byte that is neither printable
    /// ASCII nor a line feed is shown as the placeholder glyph.
    pub fn write_string(&mut self, s: &str)
        ensures
            final(self)@ == old(self)@.write_string(s.spec_bytes()),
            final(self)@.wf(),
    {
        proof {
            use_type_invariant(&*self);
        }
        let bytes = s.as_bytes();
        for i in 0..bytes.len()
            invariant
                bytes@ == s.spec_bytes(),
                self@ == old(self)@.write_string(bytes@.take(i as int)),
                self@.wf(),
        {
            let byte = bytes[i];
            assert(bytes@.take(i + 1).drop_last() =~= bytes@.take(i as int));
            if (0x20 <= byte && byte <= 0x7e) || byte == LINE_FEED {
                self.write_byte(byte);
            } else {
                self.write_byte(PLACEHOLDER);
            }
        }
        assert(bytes@.take(bytes@.len() as int) =~= bytes@);
    }
}

impl core::fmt::Write for Writer {
    /// Writes `s` to the screen; this never fails.
    fn write_str(&mut self, s: &str) -> (result: core::fmt::Result)
        ensures
            result is Ok,
            final(self)@ == old(self)@.write_string(s.spec_bytes()),
            final(self)@.wf(),
    {
        self.write_string(s);
        Ok(())
    }
}

/// `core::fmt::Error`, the error of formatted output. Writing to the screen
/// never makes one.
#[verifier::external_type_specification]
#[verifier::external_body]
pub struct ExFmtError(core::fmt::Error);

} // verus!
