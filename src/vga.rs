//! The text-mode console: a 25 x 80 grid of character cells, written left to
//! right and scrolled up when full. The grid here is the screen's contents;
//! copying it to the video memory and moving the hardware cursor is left to
//! the caller.
use vstd::prelude::*;
use vstd::string::StringSliceAdditionalSpecFns;

verus! {

/// Rows of the screen.
pub const VGA_BUFFER_HEIGHT: usize = 25;
/// Columns of the screen.
pub const VGA_BUFFER_WIDTH: usize = 80;
/// Cells of the screen.
pub const VGA_CELLS: usize = 2000;

/// The sixteen text-mode colours.
#[derive(Debug, Clone, Copy, PartialEq, Eq, Structural)]
pub enum VGAColor {
    Black,
    Blue,
    Green,
    Cyan,
    Red,
    Magenta,
    Brown,
    White,
    Gray,
    LightBlue,
    LightGreen,
    LightCyan,
    LightRed,
    LightMagenta,
    Yellow,
    BrightWhite,
}

impl VGAColor {
    /// The 4-bit hardware code of the colour.
    pub open spec fn spec_code(self) -> u8 {
        match self {
            VGAColor::Black => 0,
            VGAColor::Blue => 1,
            VGAColor::Green => 2,
            VGAColor::Cyan => 3,
            VGAColor::Red => 4,
            VGAColor::Magenta => 5,
            VGAColor::Brown => 6,
            VGAColor::White => 7,
            VGAColor::Gray => 8,
            VGAColor::LightBlue => 9,
            VGAColor::LightGreen => 10,
            VGAColor::LightCyan => 11,
            VGAColor::LightRed => 12,
            VGAColor::LightMagenta => 13,
            VGAColor::Yellow => 14,
            VGAColor::BrightWhite => 15,
        }
    }

    /// The 4-bit hardware code of the colour.
    pub fn code(self) -> (r: u8)
        ensures
            r == self.spec_code(),
    {
        match self {
            VGAColor::Black => 0,
            VGAColor::Blue => 1,
            VGAColor::Green => 2,
            VGAColor::Cyan => 3,
            VGAColor::Red => 4,
            VGAColor::Magenta => 5,
            VGAColor::Brown => 6,
            VGAColor::White => 7,
            VGAColor::Gray => 8,
            VGAColor::LightBlue => 9,
            VGAColor::LightGreen => 10,
            VGAColor::LightCyan => 11,
            VGAColor::LightRed => 12,
            VGAColor::LightMagenta => 13,
            VGAColor::Yellow => 14,
            VGAColor::BrightWhite => 15,
        }
    }
}

/// A colour attribute: background in the high nibble, foreground in the low one.
#[derive(Debug, Clone, Copy, PartialEq, Eq, Structural)]
pub struct VGAColorCode(pub u8);

impl VGAColorCode {
    /// The attribute of foreground `fg` on background `bg`.
    pub fn new(fg: VGAColor, bg: VGAColor) -> (r: Self)
        ensures
            r.0 == bg.spec_code() * 16 + fg.spec_code(),
    {
        let b = bg.code();
        let f = fg.code();
        proof {
            assert(b < 16 && f < 16 ==> (b << 4u8) | f == b * 16 + f) by (bit_vector);
        }
        VGAColorCode((b << 4) | f)
    }
}

/// One cell of the screen.
#[derive(Debug, Clone, Copy, PartialEq, Eq, Structural)]
pub struct VGAChar {
    /// The character.
    pub ascii_character: u8,
    /// Its colours.
    pub color_code: VGAColorCode,
}

/// The screen's contents, row by row, with the row and column of the next character.
pub type ScreenState = (Seq<VGAChar>, int, int);

/// `c` with every row moved up one and the last row blanked, keeping colours.
pub open spec fn scrolled(c: Seq<VGAChar>) -> Seq<VGAChar> {
    Seq::new(
        VGA_CELLS as nat,
        |i: int|
            if i < VGA_CELLS - VGA_BUFFER_WIDTH {
                c[i + VGA_BUFFER_WIDTH]
            } else {
                VGAChar { ascii_character: 0x20, color_code: c[i].color_code }
            },
    )
}

/// The state after a line break: the next row, or a scroll on the last row.
pub open spec fn after_new_line(s: ScreenState) -> ScreenState {
    if s.1 + 1 == VGA_BUFFER_HEIGHT {
        (scrolled(s.0), s.1, 0)
    } else {
        (s.0, s.1 + 1, 0)
    }
}

/// `c` with character `b` in cell `k`, keeping its colour.
pub open spec fn put(c: Seq<VGAChar>, k: int, b: u8) -> Seq<VGAChar> {
    c.update(k, VGAChar { ascii_character: b, color_code: c[k].color_code })
}

/// The state after writing byte `b`: a line break for a newline; otherwise
/// the character goes to the next cell, after a line break when the cursor
/// is in the last column.
pub open spec fn after_byte(s: ScreenState, b: u8) -> ScreenState {
    if b == 0x0a {
        after_new_line(s)
    } else if s.2 + 1 == VGA_BUFFER_WIDTH {
        let n = after_new_line(s);
        (put(n.0, n.1 * VGA_BUFFER_WIDTH, b), n.1, 1)
    } else {
        (put(s.0, s.1 * VGA_BUFFER_WIDTH + s.2, b), s.1, s.2 + 1)
    }
}

/// The byte shown for `b`: printable ASCII and newline as they are, anything
/// else as a block.
pub open spec fn shown(b: u8) -> u8 {
    if (0x20 <= b && b <= 0x7e) || b == 0x0a {
        b
    } else {
        0xfe
    }
}

/// The state after writing `bytes` one by one.
pub open spec fn after_bytes(s: ScreenState, bytes: Seq<u8>) -> ScreenState
    decreases bytes.len(),
{
    if bytes.len() == 0 {
        s
    } else {
        after_byte(after_bytes(s, bytes.drop_last()), shown(bytes.last()))
    }
}

/// The console.
pub struct VGAWriter {
    column_pos: usize,
    row_pos: usize,
    color_code: VGAColorCode,
    chars: [VGAChar; 2000],
}

impl VGAWriter {
    /// The cursor is on the screen and the grid has every cell.
    pub closed spec fn well_formed(self) -> bool {
        &&& self.row_pos < VGA_BUFFER_HEIGHT
        &&& self.column_pos < VGA_BUFFER_WIDTH
        &&& self.chars@.len() == VGA_CELLS
    }

    /// The cells, the row and the column of the next character.
    pub closed spec fn state(self) -> ScreenState {
        (self.chars@, self.row_pos as int, self.column_pos as int)
    }

    /// The colours that new writes to the whole screen use.
    pub closed spec fn color(self) -> VGAColorCode {
        self.color_code
    }

    /// A blank screen in foreground `fg` on background `bg`, the cursor at the top left.
    pub fn new(fg: VGAColor, bg: VGAColor) -> (r: Self)
        ensures
            r.well_formed(),
            r.state().0.len() == VGA_CELLS,
            r.state().1 == 0,
            r.state().2 == 0,
            r.color().0 == bg.spec_code() * 16 + fg.spec_code(),
            forall|i: int|
                0 <= i < VGA_CELLS ==> #[trigger] r.state().0[i] == (VGAChar {
                    ascii_character: 0x20,
                    color_code: r.color(),
                }),
    {
        let color_code = VGAColorCode::new(fg, bg);
        let blank = VGAChar { ascii_character: 0x20, color_code };
        let chars = [blank; 2000];
        assert(forall|j: int| 0 <= j < VGA_CELLS ==> #[trigger] chars@[j] == blank);
        VGAWriter { column_pos: 0, row_pos: 0, color_code, chars }
    }

    /// The cell at `row`, `col`.
    pub fn cell(&self, row: usize, col: usize) -> (r: VGAChar)
        requires
            self.well_formed(),
            row < VGA_BUFFER_HEIGHT,
            col < VGA_BUFFER_WIDTH,
        ensures
            r == self.state().0[row * VGA_BUFFER_WIDTH + col],
    {
        self.chars[row * VGA_BUFFER_WIDTH + col]
    }

    /// The position of the hardware cursor: the cell of the next character.
    pub fn cursor_offset(&self) -> (r: usize)
        requires
            self.well_formed(),
        ensures
            r == self.state().1 * VGA_BUFFER_WIDTH + self.state().2,
            r < VGA_CELLS,
    {
        self.row_pos * VGA_BUFFER_WIDTH + self.column_pos
    }

    /// Paints the whole screen in foreground `fg` on background `bg`.
    pub fn update_colors(&mut self, fg: VGAColor, bg: VGAColor)
        requires
            old(self).well_formed(),
        ensures
            final(self).well_formed(),
            final(self).color().0 == bg.spec_code() * 16 + fg.spec_code(),
            final(self).state().1 == old(self).state().1,
            final(self).state().2 == old(self).state().2,
            final(self).state().0.len() == old(self).state().0.len(),
            forall|i: int|
                0 <= i < old(self).state().0.len() ==> #[trigger] final(self).state().0[i] == (
                VGAChar {
                    ascii_character: old(self).state().0[i].ascii_character,
                    color_code: final(self).color(),
                }),
    {
        let color_code = VGAColorCode::new(fg, bg);
        self.color_code = color_code;
        let ghost before = self.chars@;
        let mut i: usize = 0;
        while i < VGA_CELLS
            invariant
                0 <= i <= VGA_CELLS,
                self.chars@.len() == VGA_CELLS,
                before.len() == VGA_CELLS,
                self.color_code == color_code,
                self.row_pos < VGA_BUFFER_HEIGHT,
                self.column_pos < VGA_BUFFER_WIDTH,
                self.row_pos == old(self).row_pos,
                self.column_pos == old(self).column_pos,
                before == old(self).chars@,
                forall|j: int|
                    0 <= j < i ==> #[trigger] self.chars@[j] == (VGAChar {
                        ascii_character: before[j].ascii_character,
                        color_code: color_code,
                    }),
                forall|j: int| i <= j < VGA_CELLS ==> #[trigger] self.chars@[j] == before[j],
            decreases VGA_CELLS - i,
        {
            let c = self.chars[i];
            self.chars[i] = VGAChar { ascii_character: c.ascii_character, color_code };
            i = i + 1;
        }
    }

    /// Writes `bytes`, showing a block for each byte that is neither
    /// printable ASCII nor a newline.
    pub fn write_string(&mut self, bytes: &str)
        requires
            old(self).well_formed(),
        ensures
            final(self).well_formed(),
            final(self).state() == after_bytes(old(self).state(), bytes.spec_bytes()),
            final(self).color() == old(self).color(),
    {
        let b = bytes.as_bytes();
        let mut i: usize = 0;
        while i < b.len()
            invariant
                0 <= i <= b@.len(),
                b@ == bytes.spec_bytes(),
                self.well_formed(),
                self.state() == after_bytes(old(self).state(), b@.subrange(0, i as int)),
                self.color() == old(self).color(),
            decreases b@.len() - i,
        {
            let byte = b[i];
            proof {
                assert(b@.subrange(0, i + 1).drop_last() =~= b@.subrange(0, i as int));
                assert(b@.subrange(0, i + 1).last() == byte);
            }
            if (0x20 <= byte && byte <= 0x7e) || byte == 0x0a {
                self.write_byte(byte);
            } else {
                self.write_byte(0xfe);
            }
            i = i + 1;
        }
        assert(b@.subrange(0, b@.len() as int) =~= b@);
    }

    /// Writes one byte: a newline breaks the line, any other byte goes to
    /// the next cell.
    pub fn write_byte(&mut self, byte: u8)
        requires
            old(self).well_formed(),
        ensures
            final(self).well_formed(),
            final(self).state() == after_byte(old(self).state(), byte),
            final(self).color() == old(self).color(),
    {
        if byte == 0x0a {
            self.new_line();
        } else {
            if self.column_pos + 1 == VGA_BUFFER_WIDTH {
                self.new_line();
                let k = self.row_pos * VGA_BUFFER_WIDTH + self.column_pos;
                let c = self.chars[k];
                self.chars[k] = VGAChar { ascii_character: byte, color_code: c.color_code };
            } else {
                let k = self.row_pos * VGA_BUFFER_WIDTH + self.column_pos;
                let c = self.chars[k];
                self.chars[k] = VGAChar { ascii_character: byte, color_code: c.color_code };
            }
            self.column_pos = self.column_pos + 1;
        }
    }

    /// Moves to the start of the next row, scrolling on the last row.
    pub fn new_line(&mut self)
        requires
            old(self).well_formed(),
        ensures
            final(self).well_formed(),
            final(self).state() == after_new_line(old(self).state()),
            final(self).color() == old(self).color(),
    {
        if self.row_pos + 1 == VGA_BUFFER_HEIGHT {
            self.scroll();
            self.column_pos = 0;
        } else {
            self.row_pos = self.row_pos + 1;
            self.column_pos = 0;
        }
    }

    /// Moves every row up one and blanks the last row.
    pub fn scroll(&mut self)
        requires
            old(self).well_formed(),
        ensures
            final(self).well_formed(),
            final(self).state() == (scrolled(old(self).state().0), old(self).state().1, old(
                self,
            ).state().2),
            final(self).color() == old(self).color(),
    {
        let ghost before = self.chars@;
        let mut i: usize = 0;
        while i < VGA_CELLS - VGA_BUFFER_WIDTH
            invariant
                0 <= i <= VGA_CELLS - VGA_BUFFER_WIDTH,
                self.chars@.len() == VGA_CELLS,
                before.len() == VGA_CELLS,
                self.row_pos == old(self).row_pos,
                self.column_pos == old(self).column_pos,
                self.color_code == old(self).color_code,
                self.row_pos < VGA_BUFFER_HEIGHT,
                self.column_pos < VGA_BUFFER_WIDTH,
                before == old(self).chars@,
                forall|j: int| 0 <= j < i ==> #[trigger] self.chars@[j] == before[j + VGA_BUFFER_WIDTH],
                forall|j: int| i <= j < VGA_CELLS ==> #[trigger] self.chars@[j] == before[j],
            decreases VGA_CELLS - VGA_BUFFER_WIDTH - i,
        {
            let c = self.chars[i + VGA_BUFFER_WIDTH];
            self.chars[i] = c;
            i = i + 1;
        }
        let mut x: usize = VGA_CELLS - VGA_BUFFER_WIDTH;
        while x < VGA_CELLS
            invariant
                VGA_CELLS - VGA_BUFFER_WIDTH <= x <= VGA_CELLS,
                self.chars@.len() == VGA_CELLS,
                before.len() == VGA_CELLS,
                self.row_pos == old(self).row_pos,
                self.column_pos == old(self).column_pos,
                self.color_code == old(self).color_code,
                self.row_pos < VGA_BUFFER_HEIGHT,
                self.column_pos < VGA_BUFFER_WIDTH,
                before == old(self).chars@,
                forall|j: int|
                    0 <= j < VGA_CELLS - VGA_BUFFER_WIDTH ==> #[trigger] self.chars@[j]
                        == before[j + VGA_BUFFER_WIDTH],
                forall|j: int|
                    VGA_CELLS - VGA_BUFFER_WIDTH <= j < x ==> #[trigger] self.chars@[j] == (VGAChar {
                        ascii_character: 0x20,
                        color_code: before[j].color_code,
                    }),
                forall|j: int| x <= j < VGA_CELLS ==> #[trigger] self.chars@[j] == before[j],
            decreases VGA_CELLS - x,
        {
            let c = self.chars[x];
            self.chars[x] = VGAChar { ascii_character: 0x20, color_code: c.color_code };
            x = x + 1;
        }
        assert(self.chars@ =~= scrolled(before));
    }
}

} // verus!
