//! The text console of the VGA adapter: 25 rows of 80 character cells, written
//! at the bottom row and scrolled upwards.

use volatile::Volatile;
use vstd::prelude::*;
use vstd::string::StringSliceAdditionalSpecFns;

verus! {

/// `volatile::Volatile`: a cell that is read and written with volatile
/// accesses. The verifier sees nothing inside a cell; what it holds goes by
/// the name `cell_value`.
#[verifier::external_type_specification]
#[verifier::external_body]
#[verifier::reject_recursive_types(T)]
pub struct ExVolatile<T: Copy>(Volatile<T>);

pub const BUFFER_WIDTH: usize = 80;

pub const BUFFER_HEIGHT: usize = 25;

/// The line feed, which starts a new line.
pub const LINE_FEED: u8 = 0x0A;

/// The space, which fills a cleared row.
pub const SPACE: u8 = 0x20;

/// What is written in place of a byte that cannot be printed.
pub const UNPRINTABLE: u8 = 0xfe;

/// The sixteen colours of the text mode.
#[derive(Clone, Copy, Debug, PartialEq, Eq, Structural)]
pub enum Color {
    Black,
    Blue,
    Green,
    Cyan,
    Red,
    Magenta,
    Brown,
    LightGray,
    DarkGray,
    LightBlue,
    LightGreen,
    LightCyan,
    LightRed,
    Pink,
    Yellow,
    White,
}

impl Color {
    /// The number of the colour, 0 to 15.
    pub open spec fn number(self) -> u8 {
        match self {
            Color::Black => 0,
            Color::Blue => 1,
            Color::Green => 2,
            Color::Cyan => 3,
            Color::Red => 4,
            Color::Magenta => 5,
            Color::Brown => 6,
            Color::LightGray => 7,
            Color::DarkGray => 8,
            Color::LightBlue => 9,
            Color::LightGreen => 10,
            Color::LightCyan => 11,
            Color::LightRed => 12,
            Color::Pink => 13,
            Color::Yellow => 14,
            Color::White => 15,
        }
    }

    /// The number of the colour, 0 to 15.
    pub fn value(self) -> (r: u8)
        ensures
            r == self.number(),
    {
        match self {
            Color::Black => 0,
            Color::Blue => 1,
            Color::Green => 2,
            Color::Cyan => 3,
            Color::Red => 4,
            Color::Magenta => 5,
            Color::Brown => 6,
            Color::LightGray => 7,
            Color::DarkGray => 8,
            Color::LightBlue => 9,
            Color::LightGreen => 10,
            Color::LightCyan => 11,
            Color::LightRed => 12,
            Color::Pink => 13,
            Color::Yellow => 14,
            Color::White => 15,
        }
    }
}

/// The colours of a cell: the background in the upper four bits, the
/// foreground in the lower four.
#[derive(Clone, Copy, Debug, PartialEq, Eq, Structural)]
pub struct ColorCode(pub u8);

proof fn lemma_cell_packing(background: u8, foreground: u8, character: u8, color: u8)
    by (bit_vector)
    requires
        background <= 15,
        foreground <= 15,
    ensures
        background << 4 | foreground == background * 16 + foreground,
        (character as u16) | (color as u16) << 8 == character + color * 256,
{
}

impl ColorCode {
    /// The colour code of `foreground` on `background`.
    pub fn new(background: Color, foreground: Color) -> (r: ColorCode)
        ensures
            r.0 == background.number() * 16 + foreground.number(),
    {
        let background_number: u8 = background.value();
        let foreground_number: u8 = foreground.value();
        proof {
            lemma_cell_packing(background_number, foreground_number, 0, 0);
        }
        ColorCode(background_number << 4 | foreground_number)
    }
}

/// A character of the screen with its colours.
#[derive(Clone, Copy, Debug, PartialEq, Eq, Structural)]
pub struct ScreenChar {
    pub ascii_character: u8,
    pub color: ColorCode,
}

/// The two bytes of a character cell as one little-endian number: the
/// character in the low byte, the colours in the high byte.
pub open spec fn cell_bits(ascii_character: u8, color: ColorCode) -> u16 {
    (ascii_character + color.0 * 256) as u16
}

impl ScreenChar {
    /// The character `ascii_character` in the colours `color`.
    pub fn new(ascii_character: u8, color: ColorCode) -> (r: Self)
        ensures
            r.ascii_character == ascii_character,
            r.color == color,
    {
        ScreenChar { ascii_character, color }
    }

    /// The two bytes of the cell as one little-endian number.
    pub fn to_bits(&self) -> (r: u16)
        ensures
            r == cell_bits(self.ascii_character, self.color),
    {
        proof {
            lemma_cell_packing(0, 0, self.ascii_character, self.color.0);
        }
        (self.ascii_character as u16) | (self.color.0 as u16) << 8
    }
}

/// The cells of the screen, row by row.
pub type ScreenBuffer = [[Volatile<u16>; BUFFER_WIDTH]; BUFFER_HEIGHT];

/// What a cell of the screen holds: the value that was last written to it.
pub uninterp spec fn cell_value(cell: Volatile<u16>) -> u16;

/// Calls `Volatile::read`, which loads the value in the cell with a volatile
/// read. Taken on trust: the result is what the cell holds.
#[verifier::external_body]
fn cell_read(cell: &Volatile<u16>) -> (r: u16)
    ensures
        r == cell_value(*cell),
{
    cell.read()
}

/// Calls `Volatile::write`, which stores `value` in the cell with a volatile
/// write. Taken on trust: afterwards the cell holds `value`.
#[verifier::external_body]
fn cell_write(cell: &mut Volatile<u16>, value: u16)
    ensures
        cell_value(*final(cell)) == value,
{
    cell.write(value)
}

/// What the screen shows: for each of the 25 rows, what each of its 80 cells
/// holds.
pub open spec fn screen(buffer: ScreenBuffer) -> Seq<Seq<u16>> {
    Seq::new(25, |row: int| Seq::new(80, |col: int| cell_value(buffer@[row]@[col])))
}

/// The cell at `row` and `col`.
pub fn read_cell(buffer: &ScreenBuffer, row: usize, col: usize) -> (r: u16)
    requires
        row < BUFFER_HEIGHT,
        col < BUFFER_WIDTH,
    ensures
        r == screen(*buffer)[row as int][col as int],
{
    cell_read(&buffer[row][col])
}

/// Writes `value` to the cell at `row` and `col`, and to no other.
pub fn write_cell(buffer: &mut ScreenBuffer, row: usize, col: usize, value: u16)
    requires
        row < BUFFER_HEIGHT,
        col < BUFFER_WIDTH,
    ensures
        screen(*final(buffer)) == screen(*old(buffer)).update(
            row as int,
            screen(*old(buffer))[row as int].update(col as int, value),
        ),
{
    cell_write(&mut buffer[row][col], value);
    assert(screen(*buffer) =~~= screen(*old(buffer)).update(
        row as int,
        screen(*old(buffer))[row as int].update(col as int, value),
    ));
}

/// The screen and the column at which the next character goes.
pub struct Console {
    pub cells: Seq<Seq<u16>>,
    pub x_pos: int,
}

/// A space in the colours `color`.
pub open spec fn blank(color: ColorCode) -> u16 {
    cell_bits(SPACE, color)
}

/// The screen with row `row` filled with blanks.
pub open spec fn cleared_row(cells: Seq<Seq<u16>>, row: int, color: ColorCode) -> Seq<Seq<u16>> {
    cells.update(row, Seq::new(80, |col: int| blank(color)))
}

/// The screen moved up by one row: from column 1 on, each row but the last
/// takes the cells of the row below it, and the last row is filled with
/// blanks. Column 0 of the rows above the last stays as it is.
pub open spec fn scrolled(cells: Seq<Seq<u16>>, color: ColorCode) -> Seq<Seq<u16>> {
    Seq::new(
        25,
        |row: int|
            Seq::new(
                80,
                |col: int|
                    if row == 24 {
                        blank(color)
                    } else if col >= 1 {
                        cells[row + 1][col]
                    } else {
                        cells[row][col]
                    },
            ),
    )
}

/// The console after a new line: the screen moved up, the column back at 1.
pub open spec fn after_new_line(console: Console, color: ColorCode) -> Console {
    Console { cells: scrolled(console.cells, color), x_pos: 1 }
}

/// The console after one byte is written. A line feed starts a new line. Any
/// other byte goes to the bottom row at the column of the console, after a
/// new line if the row is full, and moves the column on by one.
pub open spec fn after_byte(console: Console, color: ColorCode, byte: u8) -> Console {
    if byte == LINE_FEED {
        after_new_line(console, color)
    } else {
        let start = if console.x_pos >= 80 {
            after_new_line(console, color)
        } else {
            console
        };
        Console {
            cells: start.cells.update(
                24,
                start.cells[24].update(start.x_pos, cell_bits(byte, color)),
            ),
            x_pos: start.x_pos + 1,
        }
    }
}

/// What is written for a byte of a text: the byte itself if it is printable
/// or a line feed, and the byte `0xfe` in its place if it is not.
pub open spec fn shown(byte: u8) -> u8 {
    if (0x20 <= byte <= 0x7e) || byte == LINE_FEED {
        byte
    } else {
        UNPRINTABLE
    }
}

/// The console after the bytes of a text are written, one after the other.
pub open spec fn after_bytes(console: Console, color: ColorCode, bytes: Seq<u8>) -> Console
    decreases bytes.len(),
{
    if bytes.len() == 0 {
        console
    } else {
        after_byte(after_bytes(console, color, bytes.drop_last()), color, shown(bytes.last()))
    }
}

/// Writes text to the bottom row of a screen, in one pair of colours.
#[derive(Clone, Copy, Debug)]
pub struct Writer {
    pub x_pos: usize,
    pub color_code: ColorCode,
}

impl Writer {
    /// The console that the writer and the screen make up.
    pub open spec fn console(&self, buffer: ScreenBuffer) -> Console {
        Console { cells: screen(buffer), x_pos: self.x_pos as int }
    }

    /// A writer in the colours `color_code` that starts at column 1.
    pub fn new(color_code: ColorCode) -> (r: Writer)
        ensures
            r.x_pos == 1,
            r.color_code == color_code,
    {
        Writer { x_pos: 1, color_code }
    }

    /// Writes one byte. A line feed starts a new line. Any other byte goes to
    /// the bottom row at the writer's column, after a new line if the row is
    /// full.
    pub fn write_byte(&mut self, buffer: &mut ScreenBuffer, byte: u8)
        ensures
            final(self).color_code == old(self).color_code,
            final(self).console(*final(buffer)) == after_byte(
                old(self).console(*old(buffer)),
                old(self).color_code,
                byte,
            ),
    {
        match byte {
            LINE_FEED => self.new_line(buffer),
            byte => {
                if self.x_pos >= BUFFER_WIDTH {
                    self.new_line(buffer);
                }
                let y_pos: usize = BUFFER_HEIGHT - 1;
                let color = self.color_code;
                write_cell(buffer, y_pos, self.x_pos, ScreenChar::new(byte, color).to_bits());
                self.x_pos += 1;
            },
        }
    }

    /// Writes the bytes of `s` one after the other, each byte that is neither
    /// printable nor a line feed as the byte `0xfe`.
    pub fn write_bytes(&mut self, buffer: &mut ScreenBuffer, s: &str)
        ensures
            final(self).color_code == old(self).color_code,
            final(self).console(*final(buffer)) == after_bytes(
                old(self).console(*old(buffer)),
                old(self).color_code,
                s.spec_bytes(),
            ),
    {
        let bytes = s.as_bytes();
        let ghost start = self.console(*buffer);
        let ghost color = self.color_code;
        let mut i: usize = 0;
        while i < bytes.len()
            invariant
                i <= bytes.len(),
                bytes@ == s.spec_bytes(),
                self.color_code == color,
                self.console(*buffer) == after_bytes(start, color, bytes@.take(i as int)),
            decreases bytes.len() - i,
        {
            let byte: u8 = bytes[i];
            proof {
                assert(bytes@.take(i + 1).drop_last() =~= bytes@.take(i as int));
            }
            match byte {
                0x20..=0x7e | LINE_FEED => self.write_byte(buffer, byte),
                _ => self.write_byte(buffer, UNPRINTABLE),
            }
            i += 1;
        }
        proof {
            assert(bytes@.take(i as int) =~= bytes@);
        }
    }

    /// Starts a new line: moves the screen up by one row, clears the bottom
    /// row, and puts the column back to 1.
    pub fn new_line(&mut self, buffer: &mut ScreenBuffer)
        ensures
            final(self).color_code == old(self).color_code,
            final(self).console(*final(buffer)) == after_new_line(
                old(self).console(*old(buffer)),
                old(self).color_code,
            ),
    {
        let ghost before = screen(*buffer);
        let mut y: usize = 1;
        while y < BUFFER_HEIGHT
            invariant
                1 <= y <= BUFFER_HEIGHT,
                forall|row: int, col: int|
                    0 <= row < 25 && 0 <= col < 80 ==> #[trigger] screen(*buffer)[row][col] == (
                    if row < y - 1 && col >= 1 {
                        before[row + 1][col]
                    } else {
                        before[row][col]
                    }),
            decreases BUFFER_HEIGHT - y,
        {
            let mut x: usize = 1;
            while x < BUFFER_WIDTH
                invariant
                    1 <= y < BUFFER_HEIGHT,
                    1 <= x <= BUFFER_WIDTH,
                    forall|row: int, col: int|
                        0 <= row < 25 && 0 <= col < 80 ==> #[trigger] screen(*buffer)[row][col] == (
                        if (row < y - 1 && col >= 1) || (row == y - 1 && 1 <= col < x) {
                            before[row + 1][col]
                        } else {
                            before[row][col]
                        }),
                decreases BUFFER_WIDTH - x,
            {
                let character = read_cell(buffer, y, x);
                write_cell(buffer, y - 1, x, character);
                x += 1;
            }
            y += 1;
        }
        self.clear_row(buffer, BUFFER_HEIGHT - 1);
        self.x_pos = 1;
        assert(screen(*buffer) =~~= scrolled(before, self.color_code));
    }

    /// Fills row `y` with blanks in the writer's colours.
    pub fn clear_row(&self, buffer: &mut ScreenBuffer, y: usize)
        requires
            y < BUFFER_HEIGHT,
        ensures
            screen(*final(buffer)) == cleared_row(screen(*old(buffer)), y as int, self.color_code),
    {
        let ghost before = screen(*buffer);
        let whitespace = ScreenChar::new(SPACE, self.color_code);
        let mut x: usize = 0;
        while x < BUFFER_WIDTH
            invariant
                y < BUFFER_HEIGHT,
                x <= BUFFER_WIDTH,
                whitespace.ascii_character == SPACE,
                whitespace.color == self.color_code,
                forall|row: int, col: int|
                    0 <= row < 25 && 0 <= col < 80 ==> #[trigger] screen(*buffer)[row][col] == (
                    if row == y && col < x {
                        blank(self.color_code)
                    } else {
                        before[row][col]
                    }),
            decreases BUFFER_WIDTH - x,
        {
            write_cell(buffer, y, x, whitespace.to_bits());
            x += 1;
        }
        assert(screen(*buffer) =~~= cleared_row(before, y as int, self.color_code));
    }
}

} // verus!
