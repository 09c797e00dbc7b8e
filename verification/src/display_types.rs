//! Display values shared by the kernel and user programs: device operations,
//! device statistics and the character cell.
//!
//! A character cell is one byte of text with its attribute bits.
use vstd::prelude::*;

verus! {

/// Operations of the pixel display device.
#[derive(PartialEq, Eq, Structural, Clone, Copy, Debug)]
pub enum DisplayOperation {
    GetStat,
}

/// Size of the pixel display.
#[derive(PartialEq, Eq, Structural, Clone, Copy, Debug)]
pub struct DisplayStat {
    pub width: u32,
    pub height: u32,
}

/// Operations of the character display device.
#[derive(PartialEq, Eq, Structural, Clone, Copy, Debug)]
pub enum DisplayCharOperation {
    GetStat,
}

/// Size of the character display, in cells.
#[derive(PartialEq, Eq, Structural, Clone, Copy, Debug)]
pub struct DisplayCharStat {
    pub rows: u32,
    pub cols: u32,
}

impl DisplayOperation {
    /// The operation whose wire number is `n`, if any.
    pub fn try_from_primitive(n: usize) -> (res: Option<DisplayOperation>)
        ensures
            res is Some <==> n == 0,
    {
        if n == 0 {
            Some(DisplayOperation::GetStat)
        } else {
            None
        }
    }

    /// The wire number of this operation.
    pub fn to_usize(self) -> (n: usize)
        ensures
            n == 0,
    {
        match self {
            DisplayOperation::GetStat => 0,
        }
    }
}

impl DisplayCharOperation {
    /// The operation whose wire number is `n`, if any.
    pub fn try_from_primitive(n: usize) -> (res: Option<DisplayCharOperation>)
        ensures
            res is Some <==> n == 0,
    {
        if n == 0 {
            Some(DisplayCharOperation::GetStat)
        } else {
            None
        }
    }

    /// The wire number of this operation.
    pub fn to_usize(self) -> (n: usize)
        ensures
            n == 0,
    {
        match self {
            DisplayCharOperation::GetStat => 0,
        }
    }
}

/// How a display's memory is laid out.
#[derive(PartialEq, Eq, Structural, Clone, Copy, Debug)]
pub enum BufferMode {
    /// One bit per pixel, each row padded to whole bytes.
    Pixel,
    /// One cell per character.
    Character,
}

/// Bytes of a display buffer: in pixel mode the rows of
/// `pixel_width` bits rounded up to bytes, times `pixel_height`; in
/// character mode `char_rows * char_cols` cells of `cell_size` bytes.
pub open spec fn buffer_size_of(
    mode: BufferMode,
    pixel_width: u32,
    pixel_height: u32,
    char_rows: u32,
    char_cols: u32,
    cell_size: usize,
) -> int {
    match mode {
        BufferMode::Pixel => (pixel_width + 7) / 8 * pixel_height,
        BufferMode::Character => char_rows * char_cols * cell_size,
    }
}

/// Bytes of a display buffer for the given mode and sizes.
pub fn display_buffer_size(
    mode: BufferMode,
    pixel_width: u32,
    pixel_height: u32,
    char_rows: u32,
    char_cols: u32,
    cell_size: usize,
) -> (n: usize)
    requires
        mode == BufferMode::Pixel ==> (pixel_width + 7) / 8 * pixel_height <= u32::MAX,
        mode == BufferMode::Character ==> char_rows * char_cols <= u32::MAX
            && char_rows * char_cols * cell_size <= usize::MAX,
    ensures
        n == buffer_size_of(mode, pixel_width, pixel_height, char_rows, char_cols, cell_size),
{
    match mode {
        BufferMode::Pixel => {
            let bytes_per_row: u32 = pixel_width / 8 + if pixel_width % 8 != 0 {
                1u32
            } else {
                0u32
            };
            assert(bytes_per_row == (pixel_width + 7) / 8);
            (bytes_per_row * pixel_height) as usize
        },
        BufferMode::Character => {
            let cells: u32 = char_rows * char_cols;
            cells as usize * cell_size
        },
    }
}

/// The attribute bit that shows a cell in inverted colours.
pub const INVERT_BIT: u8 = 1;

/// Attribute bits of a character cell.
#[derive(PartialEq, Eq, Structural, Clone, Copy, Debug)]
pub struct CharAttributes {
    pub bits: u8,
}

/// The attributes after the invert bit was set to `on`.
pub open spec fn with_invert(a: CharAttributes, on: bool) -> CharAttributes {
    if on {
        CharAttributes { bits: a.bits | INVERT_BIT }
    } else {
        CharAttributes { bits: a.bits & !INVERT_BIT }
    }
}

impl CharAttributes {
    /// No attribute set.
    pub fn empty() -> (a: CharAttributes)
        ensures
            a.bits == 0,
    {
        CharAttributes { bits: 0 }
    }

    /// Whether the invert bit is set.
    pub fn invert(&self) -> (b: bool)
        ensures
            b == (self.bits & INVERT_BIT != 0),
    {
        self.bits & INVERT_BIT != 0
    }

    /// Sets the invert bit when `on`, clears it otherwise; other bits stay.
    pub fn set_invert(&mut self, on: bool)
        ensures
            *final(self) == with_invert(*old(self), on),
    {
        if on {
            self.bits = self.bits | INVERT_BIT;
        } else {
            self.bits = self.bits & !INVERT_BIT;
        }
    }
}

/// One cell of the character display.
#[derive(PartialEq, Eq, Structural, Clone, Copy, Debug)]
pub struct CharCell {
    pub glyph: u8,
    pub attrs: CharAttributes,
}

/// The cell that shows byte `b` with no attribute.
pub open spec fn cell_of(b: u8) -> CharCell {
    CharCell { glyph: b, attrs: CharAttributes { bits: 0 } }
}

/// The blank cell written where nothing is shown.
pub open spec fn space_cell() -> CharCell {
    cell_of(32)
}

/// The cell of an all-zero display buffer.
pub open spec fn nul_cell() -> CharCell {
    cell_of(0)
}

impl CharCell {
    /// The cell that shows byte `b` with no attribute.
    pub fn from_u8_lossy(b: u8) -> (c: CharCell)
        ensures
            c == cell_of(b),
    {
        CharCell { glyph: b, attrs: CharAttributes { bits: 0 } }
    }
}

/// The cells that show the bytes of `s`, one cell per byte.
pub open spec fn cells_of(s: Seq<u8>) -> Seq<CharCell> {
    Seq::new(s.len(), |i: int| cell_of(s[i]))
}

/// Whether every byte of `s` is ASCII.
pub open spec fn all_ascii(s: Seq<u8>) -> bool {
    forall|i: int| 0 <= i < s.len() ==> s[i] < 128
}

/// The cells that show the ASCII text `bytes`, one cell per byte; `None`
/// when the text holds a byte that is not ASCII.
pub fn char_cells(bytes: &[u8]) -> (cells: Option<Vec<CharCell>>)
    ensures
        cells is Some <==> all_ascii(bytes@),
        cells matches Some(c) ==> c@ == cells_of(bytes@),
{
    let mut cells: Vec<CharCell> = Vec::new();
    let mut i: usize = 0;
    while i < bytes.len()
        invariant
            0 <= i <= bytes@.len(),
            all_ascii(bytes@.subrange(0, i as int)),
            cells@ == cells_of(bytes@.subrange(0, i as int)),
        decreases bytes@.len() - i,
    {
        if bytes[i] >= 128 {
            return None;
        }
        cells.push(CharCell::from_u8_lossy(bytes[i]));
        i = i + 1;
        assert(cells@ =~= cells_of(bytes@.subrange(0, i as int)));
        assert forall|j: int| 0 <= j < i implies bytes@.subrange(0, i as int)[j] < 128 by {
            if j < i - 1 {
                assert(bytes@.subrange(0, i - 1)[j] == bytes@[j]);
            }
        }
    }
    assert(bytes@.subrange(0, bytes@.len() as int) =~= bytes@);
    Some(cells)
}

} // verus!
