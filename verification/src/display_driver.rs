//! Kernel display driver logic: the display's mode and the sizes it
//! implies, the mode packets to send, and the order in which a character
//! frame buffer is sent row by row.
use vstd::prelude::*;
use crate::display_types::{DisplayCharStat, DisplayStat};

verus! {

/// Width and height in pixels of a glyph of the display's font.
pub const FONT_SIZE: u32 = 8;

/// A pixel resolution of the display.
#[derive(PartialEq, Eq, Structural, Clone, Copy, Debug)]
pub enum DisplayModeResolution {
    R160x120,
}

/// Pixel width of a resolution.
pub open spec fn res_width(r: DisplayModeResolution) -> u32 {
    match r {
        DisplayModeResolution::R160x120 => 160,
    }
}

/// Pixel height of a resolution.
pub open spec fn res_height(r: DisplayModeResolution) -> u32 {
    match r {
        DisplayModeResolution::R160x120 => 120,
    }
}

impl DisplayModeResolution {
    /// Pixel width.
    pub fn width(&self) -> (w: u32)
        ensures
            w == res_width(*self),
    {
        match self {
            DisplayModeResolution::R160x120 => 160,
        }
    }

    /// Pixel height.
    pub fn height(&self) -> (h: u32)
        ensures
            h == res_height(*self),
    {
        match self {
            DisplayModeResolution::R160x120 => 120,
        }
    }
}

/// A display mode: a resolution, and whether text cells are drawn.
#[derive(PartialEq, Eq, Structural, Clone, Copy, Debug)]
pub struct DisplayMode {
    pub resolution: DisplayModeResolution,
    pub chars: bool,
}

impl DisplayMode {
    /// The mode with the given resolution and text setting.
    pub fn new(resolution: DisplayModeResolution, chars: bool) -> (m: DisplayMode)
        ensures
            m.resolution == resolution,
            m.chars == chars,
    {
        DisplayMode { resolution, chars }
    }

    /// Whether text cells are drawn.
    pub fn chars_enabled(&self) -> (b: bool)
        ensures
            b == self.chars,
    {
        self.chars
    }
}

/// A packet of the display's control protocol.
#[derive(PartialEq, Eq, Structural, Clone, Copy, Debug)]
pub enum ControlPacket {
    /// Switch to a mode.
    SetMode(DisplayMode),
    /// The cells that follow fill the given text row.
    WriteRowChars(u16),
}

/// Pixel size reported to user programs.
pub fn display_stat() -> (s: DisplayStat)
    ensures
        s == (DisplayStat { width: 160, height: 120 }),
{
    DisplayStat { width: 160, height: 120 }
}

/// Character size reported to user programs.
pub fn display_char_stat() -> (s: DisplayCharStat)
    ensures
        s == (DisplayCharStat { rows: 15, cols: 20 }),
{
    DisplayCharStat { rows: 15, cols: 20 }
}

/// Pixel size of a mode.
pub open spec fn pixel_stat_of(m: DisplayMode) -> DisplayStat {
    DisplayStat { width: res_width(m.resolution), height: res_height(m.resolution) }
}

/// Character size of a mode: one cell per font glyph, none when text is off.
pub open spec fn char_stat_of(m: DisplayMode) -> Option<DisplayCharStat> {
    if m.chars {
        Some(
            DisplayCharStat {
                rows: res_height(m.resolution) / 8,
                cols: res_width(m.resolution) / 8,
            },
        )
    } else {
        None
    }
}

/// The mode the display is put in when the driver starts.
pub open spec fn start_mode() -> DisplayMode {
    DisplayMode { resolution: DisplayModeResolution::R160x120, chars: true }
}

/// One text row to send: its index on the wire and the cells it takes from
/// the frame buffer.
#[derive(PartialEq, Eq, Structural, Clone, Copy, Debug)]
pub struct FlushRow {
    pub row: u16,
    pub start: usize,
    pub end: usize,
}

/// What the driver knows of the display: its mode and the sizes it implies.
pub struct DisplayDriver {
    mode: DisplayMode,
    pixel_stat: DisplayStat,
    char_stat: Option<DisplayCharStat>,
}

impl DisplayDriver {
    /// The display's mode.
    pub closed spec fn spec_mode(&self) -> DisplayMode {
        self.mode
    }

    /// The pixel size last computed.
    pub closed spec fn spec_pixel_stat(&self) -> DisplayStat {
        self.pixel_stat
    }

    /// The character size last computed.
    pub closed spec fn spec_char_stat(&self) -> Option<DisplayCharStat> {
        self.char_stat
    }

    /// The driver after reset: the start mode, the packet that sets it, and
    /// the sizes of that mode.
    pub fn init() -> (r: (DisplayDriver, ControlPacket))
        ensures
            r.0.spec_mode() == start_mode(),
            r.1 == ControlPacket::SetMode(start_mode()),
            r.0.spec_pixel_stat() == pixel_stat_of(start_mode()),
            r.0.spec_char_stat() == char_stat_of(start_mode()),
    {
        let mut d = DisplayDriver {
            mode: DisplayMode::new(DisplayModeResolution::R160x120, true),
            pixel_stat: DisplayStat { width: 640, height: 320 },
            char_stat: None,
        };
        let packet = d.reset();
        (d, packet)
    }

    /// Puts the driver back in the start mode and returns the packet that
    /// sets it.
    pub fn reset(&mut self) -> (packet: ControlPacket)
        ensures
            final(self).spec_mode() == start_mode(),
            packet == ControlPacket::SetMode(start_mode()),
            final(self).spec_pixel_stat() == pixel_stat_of(start_mode()),
            final(self).spec_char_stat() == char_stat_of(start_mode()),
    {
        self.mode = DisplayMode::new(DisplayModeResolution::R160x120, true);
        let packet = ControlPacket::SetMode(self.mode);
        self.update_stats();
        packet
    }

    /// Recomputes the sizes from the mode.
    pub fn update_stats(&mut self)
        ensures
            final(self).spec_mode() == old(self).spec_mode(),
            final(self).spec_pixel_stat() == pixel_stat_of(old(self).spec_mode()),
            final(self).spec_char_stat() == char_stat_of(old(self).spec_mode()),
    {
        let res = self.mode.resolution;
        self.pixel_stat = DisplayStat { width: res.width(), height: res.height() };
        self.char_stat = if self.mode.chars_enabled() {
            Some(
                DisplayCharStat {
                    rows: self.pixel_stat.height / FONT_SIZE,
                    cols: self.pixel_stat.width / FONT_SIZE,
                },
            )
        } else {
            None
        };
    }

    /// The pixel size.
    pub fn get_stat(&self) -> (s: DisplayStat)
        ensures
            s == self.spec_pixel_stat(),
    {
        self.pixel_stat
    }

    /// The character size, when text is drawn.
    pub fn get_char_stat(&self) -> (s: Option<DisplayCharStat>)
        ensures
            s == self.spec_char_stat(),
    {
        self.char_stat
    }

    /// The packet that asks the display for `new_mode`; the sizes are then
    /// recomputed from the mode the driver keeps, which this call does not
    /// change.
    pub fn set_mode(&mut self, new_mode: DisplayMode) -> (packet: ControlPacket)
        ensures
            packet == ControlPacket::SetMode(new_mode),
            final(self).spec_mode() == old(self).spec_mode(),
            final(self).spec_pixel_stat() == pixel_stat_of(old(self).spec_mode()),
            final(self).spec_char_stat() == char_stat_of(old(self).spec_mode()),
    {
        let packet = ControlPacket::SetMode(new_mode);
        self.update_stats();
        packet
    }

    /// The rows in which a character frame buffer of `buff_len` cells is
    /// sent, top to bottom: each row is announced by `WriteRowChars` with its
    /// index, then its cells follow. Nothing is sent when text is off.
    pub fn flush_char(&self, buff_len: usize) -> (rows: Vec<FlushRow>)
        requires
            self.spec_char_stat() matches Some(s) ==> buff_len == s.rows * s.cols,
        ensures
            self.spec_char_stat() is None ==> rows@.len() == 0,
            self.spec_char_stat() matches Some(s) ==> {
                &&& rows@.len() == s.rows
                &&& forall|i: int|
                    0 <= i < s.rows ==> #[trigger] rows@[i] == (FlushRow {
                        row: i as u16,
                        start: (i * s.cols) as usize,
                        end: (i * s.cols + s.cols) as usize,
                    })
            },
    {
        let mut out: Vec<FlushRow> = Vec::new();
        match self.char_stat {
            Some(stat) => {
                let rows = stat.rows as usize;
                let cols = stat.cols as usize;
                let mut row_i: usize = 0;
                while row_i < rows
                    invariant
                        rows == stat.rows,
                        cols == stat.cols,
                        buff_len == rows * cols,
                        0 <= row_i <= rows,
                        out@.len() == row_i,
                        forall|i: int|
                            0 <= i < row_i ==> #[trigger] out@[i] == (FlushRow {
                                row: i as u16,
                                start: (i * cols) as usize,
                                end: (i * cols + cols) as usize,
                            }),
                    decreases rows - row_i,
                {
                    proof {
                        lemma_row_fits(row_i as int, rows as int, cols as int);
                    }
                    let row_start = row_i * cols;
                    out.push(FlushRow { row: row_i as u16, start: row_start, end: row_start + cols });
                    row_i = row_i + 1;
                }
            },
            None => {},
        }
        out
    }
}

/// A row of a buffer of `rows * cols` cells ends inside it.
proof fn lemma_row_fits(r: int, rows: int, cols: int)
    by (nonlinear_arith)
    requires
        0 <= r < rows,
        0 <= cols,
    ensures
        r * cols + cols <= rows * cols,
        0 <= r * cols,
{
}

/// The driver's start mode gives exactly the sizes that the kernel reports
/// to user programs.
pub proof fn law_start_mode_matches_reported_stats()
    ensures
        pixel_stat_of(start_mode()) == (DisplayStat { width: 160, height: 120 }),
        char_stat_of(start_mode()) == Some(DisplayCharStat { rows: 15, cols: 20 }),
{
}

} // verus!
