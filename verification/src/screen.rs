//! The mathematical model of the display: a grid of character cells with a
//! cursor on the bottom row, and what each writer operation does to it.

use vstd::prelude::*;
use crate::vga_buffer::{ColorCode, ScreenChar, BUFFER_HEIGHT, BUFFER_WIDTH};

verus! {

/// The line-feed byte.
pub const LINE_FEED: u8 = 0x0a;

/// The glyph shown in place of a byte that the display cannot print.
pub const PLACEHOLDER: u8 = 0xfe;

/// Whether `byte` is a printable ASCII character (space through tilde).
pub open spec fn is_printable(byte: u8) -> bool {
    0x20 <= byte <= 0x7e
}

/// The byte that is handed to the display for an input byte: printable bytes
/// and line feeds pass, every other byte becomes the placeholder glyph.
pub open spec fn glyph(byte: u8) -> u8 {
    if is_printable(byte) || byte == LINE_FEED {
        byte
    } else {
        PLACEHOLDER
    }
}

/// The state of the display as a writer sees it.
pub struct Screen {
    /// The cells, top row first, each row left to right.
    pub rows: Seq<Seq<ScreenChar>>,
    /// The column of the bottom row where the next character goes.
    pub column: int,
    /// The attribute given to the characters written next.
    pub color_code: ColorCode,
}

impl Screen {
    /// The grid has the display's dimensions and the cursor is within the
    /// bottom row or just past its end.
    pub open spec fn wf(self) -> bool {
        &&& self.rows.len() == BUFFER_HEIGHT
        &&& forall|r: int|
            0 <= r < BUFFER_HEIGHT ==> (#[trigger] self.rows[r]).len() == BUFFER_WIDTH
        &&& 0 <= self.column <= BUFFER_WIDTH
    }

    /// A space in the current attribute.
    pub open spec fn blank(self) -> ScreenChar {
        ScreenChar { ascii_character: 0x20, color_code: self.color_code }
    }

    /// A row of blanks in the current attribute.
    pub open spec fn blank_row(self) -> Seq<ScreenChar> {
        Seq::new(BUFFER_WIDTH as nat, |c: int| self.blank())
    }

    /// The screen with row `row` blanked.
    pub open spec fn clear_row(self, row: int) -> Screen {
        Screen { rows: self.rows.update(row, self.blank_row()), ..self }
    }

    /// The screen scrolled up by one line: the top row is gone, every other
    /// row has moved up, the bottom row is blank and the cursor is at its
    /// start.
    pub open spec fn new_line(self) -> Screen {
        Screen {
            rows: self.rows.subrange(1, BUFFER_HEIGHT as int).push(self.blank_row()),
            column: 0,
            color_code: self.color_code,
        }
    }

    /// Whether writing `byte` scrolls the screen: a line feed always does, any
    /// other byte does when the bottom row is full.
    pub open spec fn scrolls_on(self, byte: u8) -> bool {
        byte == LINE_FEED || self.column >= BUFFER_WIDTH
    }

    /// The screen with `character` put at the cursor and the cursor advanced.
    pub open spec fn put(self, character: u8) -> Screen {
        let bottom = BUFFER_HEIGHT - 1;
        let cell = ScreenChar { ascii_character: character, color_code: self.color_code };
        Screen {
            rows: self.rows.update(bottom, self.rows[bottom].update(self.column, cell)),
            column: self.column + 1,
            color_code: self.color_code,
        }
    }

    /// The screen after one byte has been written.
    pub open spec fn write_byte(self, byte: u8) -> Screen {
        let start = if self.scrolls_on(byte) {
            self.new_line()
        } else {
            self
        };
        if byte == LINE_FEED {
            start
        } else {
            start.put(byte)
        }
    }

    /// The screen after the bytes of a string have been written in order,
    /// each one replaced by its glyph.
    pub open spec fn write_string(self, bytes: Seq<u8>) -> Screen
        decreases bytes.len(),
    {
        if bytes.len() == 0 {
            self
        } else {
            self.write_string(bytes.drop_last()).write_byte(glyph(bytes.last()))
        }
    }

    /// How often the screen scrolls while the bytes of a string are written.
    pub open spec fn scroll_count(self, bytes: Seq<u8>) -> nat
        decreases bytes.len(),
    {
        if bytes.len() == 0 {
            0
        } else {
            let before = self.write_string(bytes.drop_last());
            let last: nat = if before.scrolls_on(glyph(bytes.last())) {
                1
            } else {
                0
            };
            self.scroll_count(bytes.drop_last()) + last
        }
    }
}

/// Whether every byte of `bytes` is printable ASCII.
pub open spec fn all_printable(bytes: Seq<u8>) -> bool {
    forall|i: int| 0 <= i < bytes.len() ==> is_printable(#[trigger] bytes[i])
}

/// Every byte but the last of an all-printable sequence is printable too.
proof fn lemma_all_printable_front(bytes: Seq<u8>)
    requires
        all_printable(bytes),
        bytes.len() > 0,
    ensures
        all_printable(bytes.drop_last()),
{
    let front = bytes.drop_last();
    assert forall|i: int| 0 <= i < front.len() implies is_printable(#[trigger] front[i]) by {
        assert(front[i] == bytes[i]);
    }
}

/// Writing a byte keeps the screen well formed: the grid keeps its
/// dimensions and the cursor stays within the bottom row or just past it.
pub proof fn lemma_write_byte_wf(screen: Screen, byte: u8)
    requires
        screen.wf(),
    ensures
        screen.write_byte(byte).wf(),
        screen.write_byte(byte).color_code == screen.color_code,
{
}

/// Writing a string keeps the screen well formed, whatever its bytes are.
pub proof fn lemma_write_string_wf(screen: Screen, bytes: Seq<u8>)
    requires
        screen.wf(),
    ensures
        screen.write_string(bytes).wf(),
        screen.write_string(bytes).color_code == screen.color_code,
    decreases bytes.len(),
{
    if bytes.len() > 0 {
        lemma_write_string_wf(screen, bytes.drop_last());
        lemma_write_byte_wf(screen.write_string(bytes.drop_last()), glyph(bytes.last()));
    }
}

/// Whether a cell's character is one that `write_string` puts on the screen:
/// a printable byte or the placeholder glyph.
pub open spec fn is_shown(cell: ScreenChar) -> bool {
    is_printable(cell.ascii_character) || cell.ascii_character == PLACEHOLDER
}

/// Whether every cell of the screen holds a printable byte or the
/// placeholder glyph.
pub open spec fn all_shown(screen: Screen) -> bool {
    forall|r: int, c: int|
        0 <= r < BUFFER_HEIGHT && 0 <= c < BUFFER_WIDTH ==> is_shown(#[trigger] screen.rows[r][c])
}

/// Unsupported bytes never reach the display: on a screen of printable bytes
/// and placeholders, writing any string leaves only printable bytes and
/// placeholders.
pub proof fn lemma_write_string_shows_glyphs(screen: Screen, bytes: Seq<u8>)
    requires
        screen.wf(),
        all_shown(screen),
    ensures
        all_shown(screen.write_string(bytes)),
    decreases bytes.len(),
{
    if bytes.len() > 0 {
        let before = screen.write_string(bytes.drop_last());
        lemma_write_string_shows_glyphs(screen, bytes.drop_last());
        lemma_write_string_wf(screen, bytes.drop_last());
        let scrolled = before.new_line();
        assert(all_shown(scrolled)) by {
            assert forall|r: int, c: int|
                0 <= r < BUFFER_HEIGHT && 0 <= c < BUFFER_WIDTH implies is_shown(
                #[trigger] scrolled.rows[r][c],
            ) by {
                if r < BUFFER_HEIGHT - 1 {
                    assert(scrolled.rows[r][c] == before.rows[r + 1][c]);
                }
            }
        }
    }
}

/// Writing two strings one after the other is writing their concatenation,
/// and the scrolls add up.
pub proof fn lemma_write_string_concat(screen: Screen, first: Seq<u8>, second: Seq<u8>)
    ensures
        screen.write_string(first + second) == screen.write_string(first).write_string(second),
        screen.scroll_count(first + second) == screen.scroll_count(first) + screen.write_string(
            first,
        ).scroll_count(second),
    decreases second.len(),
{
    if second.len() == 0 {
        assert(first + second =~= first);
    } else {
        assert((first + second).drop_last() =~= first + second.drop_last());
        assert((first + second).last() == second.last());
        lemma_write_string_concat(screen, first, second.drop_last());
    }
}

/// Every scroll moves the rows up by one: after any bytes have been written,
/// a row that was above the bottom row before stands as many rows higher as
/// the screen scrolled, unchanged, as long as that place is on the screen.
pub proof fn lemma_scrolls_shift_rows(screen: Screen, bytes: Seq<u8>)
    requires
        screen.wf(),
    ensures
        forall|r: int|
            0 <= r && r + screen.scroll_count(bytes) < BUFFER_HEIGHT - 1
                ==> #[trigger] screen.write_string(bytes).rows[r] == screen.rows[r
                + screen.scroll_count(bytes)],
    decreases bytes.len(),
{
    if bytes.len() > 0 {
        let front = bytes.drop_last();
        let before = screen.write_string(front);
        let after = screen.write_string(bytes);
        let scrolls = screen.scroll_count(bytes);
        lemma_scrolls_shift_rows(screen, front);
        lemma_write_string_wf(screen, front);
        assert forall|r: int|
            0 <= r && r + scrolls < BUFFER_HEIGHT - 1 implies #[trigger] after.rows[r]
            == screen.rows[r + scrolls] by {
            assert(before.rows[r + scrolls - screen.scroll_count(front)] == screen.rows[r
                + scrolls]);
        }
    }
}

/// After a line feed the cursor is at the start of the bottom row, whatever
/// was written before it.
pub proof fn lemma_line_feed_resets_column(screen: Screen, bytes: Seq<u8>)
    ensures
        screen.write_string(bytes.push(LINE_FEED)).column == 0,
        screen.write_string(bytes.push(LINE_FEED)) == screen.write_string(bytes).new_line(),
{
    assert(bytes.push(LINE_FEED).drop_last() =~= bytes);
}

/// Printable bytes that fit into the rest of the bottom row are shown there
/// in order, in the current attribute, without a scroll; every other cell
/// stays as it was, and the cursor ends just behind them.
pub proof fn lemma_line_fits(screen: Screen, line: Seq<u8>)
    requires
        screen.wf(),
        all_printable(line),
        screen.column + line.len() <= BUFFER_WIDTH,
    ensures
        screen.write_string(line).wf(),
        screen.write_string(line).column == screen.column + line.len(),
        screen.write_string(line).color_code == screen.color_code,
        screen.scroll_count(line) == 0,
        forall|r: int|
            0 <= r < BUFFER_HEIGHT - 1 ==> #[trigger] screen.write_string(line).rows[r]
                == screen.rows[r],
        forall|c: int|
            0 <= c < BUFFER_WIDTH ==> #[trigger] screen.write_string(line).rows[BUFFER_HEIGHT
                - 1][c] == if screen.column <= c < screen.column + line.len() {
                ScreenChar {
                    ascii_character: line[c - screen.column],
                    color_code: screen.color_code,
                }
            } else {
                screen.rows[BUFFER_HEIGHT - 1][c]
            },
    decreases line.len(),
{
    if line.len() > 0 {
        lemma_all_printable_front(line);
        lemma_line_fits(screen, line.drop_last());
        assert(is_printable(line[line.len() - 1]));
    }
}

/// Reading back a printed line: when printable bytes that fit into one row
/// are written from the start of the bottom row and the line is then ended,
/// the row above the bottom shows exactly those bytes, column by column.
pub proof fn lemma_line_round_trip(screen: Screen, line: Seq<u8>)
    requires
        screen.wf(),
        screen.column == 0,
        all_printable(line),
        line.len() <= BUFFER_WIDTH,
    ensures
        forall|i: int|
            0 <= i < line.len() ==> screen.write_string(line).rows[BUFFER_HEIGHT
                - 1][i].ascii_character == #[trigger] line[i],
        forall|i: int|
            0 <= i < line.len() ==> screen.write_string(line.push(LINE_FEED)).rows[BUFFER_HEIGHT
                - 2][i].ascii_character == #[trigger] line[i],
        screen.write_string(line.push(LINE_FEED)).rows[BUFFER_HEIGHT - 1] == screen.blank_row(),
        screen.write_string(line.push(LINE_FEED)).column == 0,
{
    lemma_line_fits(screen, line);
    lemma_line_feed_resets_column(screen, line);
}

/// The number of scrolls while `count` printable bytes are written, the first
/// of them at column `column`: one for each time a byte arrives at a full row.
pub open spec fn wrap_scrolls(column: int, count: int) -> int {
    (column + count - 1) / (BUFFER_WIDTH as int)
}

/// Wrapping: while printable bytes are written without a line feed, the
/// screen scrolls once each time a byte arrives at a full bottom row, and at
/// no other time. Counted from the start of the bottom row that is one scroll
/// for every 80 bytes that came before the last one.
pub proof fn lemma_wrap_scroll_count(screen: Screen, bytes: Seq<u8>)
    requires
        screen.wf(),
        all_printable(bytes),
        bytes.len() > 0,
    ensures
        screen.scroll_count(bytes) == wrap_scrolls(screen.column, bytes.len() as int),
        screen.write_string(bytes).column == screen.column + bytes.len() - BUFFER_WIDTH
            * screen.scroll_count(bytes),
        1 <= screen.write_string(bytes).column <= BUFFER_WIDTH,
    decreases bytes.len(),
{
    let front = bytes.drop_last();
    assert(is_printable(bytes[bytes.len() - 1]));
    if front.len() > 0 {
        lemma_all_printable_front(bytes);
        lemma_wrap_scroll_count(screen, front);
    } else {
        assert(screen.write_string(front) == screen);
        assert(screen.scroll_count(front) == 0);
    }
}

/// The row in which the byte at position `position` stands once the byte at
/// position `last` has been written, both counted from the start of the
/// bottom row on which the text began: the bottom row for the positions of
/// the last row's worth of text, one row higher for each 80 positions before.
pub open spec fn wrapped_row(position: int, last: int) -> int {
    BUFFER_HEIGHT - 1 - (last / (BUFFER_WIDTH as int) - position / (BUFFER_WIDTH as int))
}

/// Where wrapped text ends up. After printable bytes have been written
/// without a line feed, byte `i`, which went to position `column + i`, stands
/// in column `(column + i) % 80` of the row that `wrapped_row` gives, in the
/// current attribute, as long as that row is still on the screen.
pub proof fn lemma_wrap_layout(screen: Screen, bytes: Seq<u8>)
    requires
        screen.wf(),
        all_printable(bytes),
        bytes.len() > 0,
    ensures
        forall|i: int|
            0 <= i < bytes.len() && 0 <= wrapped_row(
                screen.column + i,
                screen.column + bytes.len() - 1,
            ) ==> screen.write_string(bytes).rows[wrapped_row(
                screen.column + i,
                screen.column + bytes.len() - 1,
            )][(screen.column + i) % (BUFFER_WIDTH as int)] == (ScreenChar {
                ascii_character: #[trigger] bytes[i],
                color_code: screen.color_code,
            }),
    decreases bytes.len(),
{
    let front = bytes.drop_last();
    let n = bytes.len() as int;
    let c = screen.column;
    let before = screen.write_string(front);
    let after = screen.write_string(bytes);
    assert(is_printable(bytes[n - 1]));
    lemma_wrap_scroll_count(screen, bytes);
    lemma_write_string_wf(screen, front);
    if front.len() > 0 {
        lemma_all_printable_front(bytes);
        lemma_wrap_layout(screen, front);
        lemma_wrap_scroll_count(screen, front);
        assert forall|i: int|
            0 <= i < n && 0 <= wrapped_row(c + i, c + n - 1) implies after.rows[wrapped_row(
            c + i,
            c + n - 1,
        )][(c + i) % 80] == (ScreenChar {
            ascii_character: #[trigger] bytes[i],
            color_code: screen.color_code,
        }) by {
            if i < n - 1 {
                assert(front[i] == bytes[i]);
                assert(before.rows[wrapped_row(c + i, c + n - 2)][(c + i) % 80] == (ScreenChar {
                    ascii_character: bytes[i],
                    color_code: screen.color_code,
                }));
            }
        }
    }
}

/// The bottom row always shows the line being written: whatever was printed
/// before, once a line feed has ended it, printable bytes that fit into one
/// row stand at the left of the bottom row, and the rest of that row is
/// blank.
pub proof fn lemma_latest_line_on_bottom(screen: Screen, earlier: Seq<u8>, line: Seq<u8>)
    requires
        screen.wf(),
        all_printable(line),
        line.len() <= BUFFER_WIDTH,
    ensures
        screen.write_string(earlier.push(LINE_FEED) + line).wf(),
        screen.write_string(earlier.push(LINE_FEED) + line).column == line.len(),
        forall|c: int|
            0 <= c < BUFFER_WIDTH ==> #[trigger] screen.write_string(
                earlier.push(LINE_FEED) + line,
            ).rows[BUFFER_HEIGHT - 1][c] == if c < line.len() {
                ScreenChar { ascii_character: line[c], color_code: screen.color_code }
            } else {
                screen.blank()
            },
{
    lemma_write_string_concat(screen, earlier.push(LINE_FEED), line);
    lemma_line_feed_resets_column(screen, earlier);
    lemma_write_string_wf(screen, earlier);
    let fresh = screen.write_string(earlier.push(LINE_FEED));
    assert(fresh.wf());
    lemma_line_fits(fresh, line);
}

} // verus!
