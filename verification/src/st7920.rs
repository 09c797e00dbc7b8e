//! ST7920 graphic LCD over SPI: the byte frames of its serial protocol and
//! the operations that initialise, clear and update it. A cached copy of
//! the shown image lets an update skip the rows that did not change.
//!
//! The operations are returned in order; performing them on the bus, the
//! chip-select pin and the delay source is the caller's part.
use vstd::prelude::*;

verus! {

/// Width of the display in pixels.
pub const WIDTH: usize = 128;

/// Height of the display in pixels.
pub const HEIGHT: usize = 64;

/// Bytes per pixel row.
pub const ROW_SIZE: usize = 16;

/// Bytes of a whole image.
pub const BUFFER_SIZE: usize = 1024;

/// One step of talking to the display.
#[derive(PartialEq, Eq, Structural, Clone, Copy, Debug)]
pub enum St7920Op {
    /// Send an instruction byte (framed by `command_frame`).
    Command(u8),
    /// Send a data byte (framed by `data_frame`).
    Data(u8),
    /// Wait this many milliseconds.
    DelayMs(u32),
    /// Select the display.
    CsHigh,
    /// Deselect the display.
    CsLow,
}

/// The serial frame of an instruction byte: sync byte, high nibble, low
/// nibble; each is followed by a 50 microsecond wait.
pub fn command_frame(byte: u8) -> (f: [u8; 3])
    ensures
        f@ == seq![0xf8u8, byte & 0xf0, ((byte as u32) << 4u32 & 0xf0) as u8],
{
    let low: u8 = ((byte as u32) << 4u32 & 0xf0) as u8;
    let f = [0xf8u8, byte & 0xf0, low];
    assert(f@ =~= seq![0xf8u8, byte & 0xf0, ((byte as u32) << 4u32 & 0xf0) as u8]);
    f
}

/// The serial frame of a data byte: sync byte with the data bit, high
/// nibble, low nibble; each is followed by a 50 microsecond wait.
pub fn data_frame(byte: u8) -> (f: [u8; 3])
    ensures
        f@ == seq![0xfau8, byte & 0xf0, ((byte as u32) << 4u32 & 0xf0) as u8],
{
    let low: u8 = ((byte as u32) << 4u32 & 0xf0) as u8;
    let f = [0xfau8, byte & 0xf0, low];
    assert(f@ =~= seq![0xfau8, byte & 0xf0, ((byte as u32) << 4u32 & 0xf0) as u8]);
    f
}

/// The instructions that set the graphics address to column `x`, row `y`.
pub open spec fn address_ops(x: u8, y: u8) -> Seq<St7920Op> {
    seq![St7920Op::Command(0x80u8 | y), St7920Op::Command(0x80u8 | x)]
}

/// The address of pixel row `y`: the lower half of the screen continues the
/// upper half's rows eight columns to the right.
pub open spec fn row_address(y: int) -> (u8, u8) {
    if y < 32 {
        (0u8, y as u8)
    } else {
        (8u8, (y - 32) as u8)
    }
}

/// The instruction bytes sent at start.
pub open spec fn init_instructions() -> Seq<u8> {
    seq![0x30u8, 0x30u8, 0x0Cu8, 0x01u8, 0x06u8, 0x34u8, 0x36u8]
}

/// The start sequence, after the first `n` instructions.
pub open spec fn init_body(n: nat) -> Seq<St7920Op>
    decreases n,
{
    if n == 0 {
        Seq::empty()
    } else {
        init_body((n - 1) as nat).push(St7920Op::Command(init_instructions()[n - 1])).push(
            St7920Op::DelayMs(2),
        )
    }
}

/// The operations that write `row` (sixteen bytes) to pixel row `y`.
pub open spec fn row_ops(y: int, row: Seq<u8>) -> Seq<St7920Op> {
    address_ops(row_address(y).0, row_address(y).1) + row.map_values(|b: u8| St7920Op::Data(b))
}

/// Bytes of pixel row `y` of an image.
pub open spec fn image_row(img: Seq<u8>, y: int) -> Seq<u8> {
    img.subrange(y * 16, y * 16 + 16)
}

/// The row writes of an update, for the first `n` rows: only the rows that
/// differ between the shown image and the new one.
pub open spec fn update_body(shown: Seq<u8>, new: Seq<u8>, n: nat) -> Seq<St7920Op>
    decreases n,
{
    if n == 0 {
        Seq::empty()
    } else {
        let y = n - 1;
        let rest = update_body(shown, new, (n - 1) as nat);
        if image_row(shown, y) == image_row(new, y) {
            rest
        } else {
            rest + row_ops(y, image_row(new, y))
        }
    }
}

/// The row writes that blank the first `n` rows.
pub open spec fn clear_body(n: nat) -> Seq<St7920Op>
    decreases n,
{
    if n == 0 {
        Seq::empty()
    } else {
        clear_body((n - 1) as nat) + row_ops(n - 1, Seq::new(16, |i: int| 0u8))
    }
}

/// A blank image.
pub open spec fn blank_image() -> Seq<u8> {
    Seq::new(1024, |i: int| 0u8)
}

/// The driver of an ST7920 display on a bus, with the image it shows.
pub struct ST7920<SPI, CS> {
    spi: SPI,
    cs: CS,
    buffer: Vec<u8>,
    flip: bool,
}

impl<SPI, CS> ST7920<SPI, CS> {
    /// The image the display shows.
    pub closed spec fn spec_buffer(&self) -> Seq<u8> {
        self.buffer@
    }

    /// The bus.
    pub closed spec fn spec_spi(&self) -> SPI {
        self.spi
    }

    /// The chip-select pin.
    pub closed spec fn spec_cs(&self) -> CS {
        self.cs
    }

    /// Whether the image is shown upside down.
    pub closed spec fn spec_flip(&self) -> bool {
        self.flip
    }

    /// Width in pixels.
    pub fn width() -> (w: usize)
        ensures
            w == WIDTH,
    {
        WIDTH
    }

    /// Height in pixels.
    pub fn height() -> (h: usize)
        ensures
            h == HEIGHT,
    {
        HEIGHT
    }

    /// The driver of a display on `spi` selected by `cs`, showing a blank
    /// image.
    pub fn new(spi: SPI, cs: CS, flip: bool) -> (d: Self)
        ensures
            d.spec_buffer() == blank_image(),
            d.spec_spi() == spi,
            d.spec_cs() == cs,
            d.spec_flip() == flip,
    {
        let mut buffer: Vec<u8> = Vec::new();
        let mut i: usize = 0;
        while i < BUFFER_SIZE
            invariant
                0 <= i <= BUFFER_SIZE,
                buffer@ == Seq::new(i as nat, |j: int| 0u8),
            decreases BUFFER_SIZE - i,
        {
            buffer.push(0);
            i = i + 1;
            assert(buffer@ =~= Seq::new(i as nat, |j: int| 0u8));
        }
        ST7920 { spi, cs, buffer, flip }
    }

    /// The bus, to perform operations on.
    pub fn spi_mut(&mut self) -> (spi: &mut SPI)
        ensures
            *spi == old(self).spec_spi(),
            final(self).spec_spi() == *final(spi),
            final(self).spec_cs() == old(self).spec_cs(),
            final(self).spec_flip() == old(self).spec_flip(),
            final(self).spec_buffer() == old(self).spec_buffer(),
    {
        &mut self.spi
    }

    /// The chip-select pin, to perform operations on.
    pub fn cs_mut(&mut self) -> (cs: &mut CS)
        ensures
            *cs == old(self).spec_cs(),
            final(self).spec_cs() == *final(cs),
            final(self).spec_spi() == old(self).spec_spi(),
            final(self).spec_flip() == old(self).spec_flip(),
            final(self).spec_buffer() == old(self).spec_buffer(),
    {
        &mut self.cs
    }

    /// The start sequence: select, each start instruction followed by a
    /// two-millisecond wait, deselect.
    pub fn init(&self) -> (ops: Vec<St7920Op>)
        ensures
            ops@ == seq![St7920Op::CsHigh] + init_body(7) + seq![St7920Op::CsLow],
    {
        let instructions: [u8; 7] = [0x30, 0x30, 0x0C, 0x01, 0x06, 0x34, 0x36];
        assert(instructions@ =~= init_instructions());
        let mut ops: Vec<St7920Op> = Vec::new();
        ops.push(St7920Op::CsHigh);
        let mut i: usize = 0;
        while i < 7
            invariant
                0 <= i <= 7,
                instructions@ == init_instructions(),
                ops@ == seq![St7920Op::CsHigh] + init_body(i as nat),
            decreases 7 - i,
        {
            ops.push(St7920Op::Command(instructions[i]));
            ops.push(St7920Op::DelayMs(2));
            i = i + 1;
            assert(ops@ =~= seq![St7920Op::CsHigh] + init_body(i as nat));
        }
        ops.push(St7920Op::CsLow);
        ops
    }

    /// Blanks the display: every row rewritten with zero bytes; the cached
    /// image becomes blank.
    pub fn clear(&mut self) -> (ops: Vec<St7920Op>)
        requires
            old(self).spec_buffer().len() == BUFFER_SIZE,
        ensures
            ops@ == seq![St7920Op::CsHigh] + clear_body(64) + seq![St7920Op::CsLow],
            final(self).spec_buffer() == blank_image(),
    {
        let mut ops: Vec<St7920Op> = Vec::new();
        ops.push(St7920Op::CsHigh);
        let mut y: usize = 0;
        while y < HEIGHT
            invariant
                0 <= y <= HEIGHT,
                ops@ == seq![St7920Op::CsHigh] + clear_body(y as nat),
            decreases HEIGHT - y,
        {
            let ghost before = ops@;
            let (x, ya) = graphics_address(y);
            ops.push(St7920Op::Command(0x80u8 | ya));
            ops.push(St7920Op::Command(0x80u8 | x));
            let mut i: usize = 0;
            while i < 16
                invariant
                    0 <= i <= 16,
                    0 <= y < HEIGHT,
                    ops@ == before + address_ops(x, ya) + Seq::new(i as nat, |j: int| St7920Op::Data(0u8)),
                decreases 16 - i,
            {
                ops.push(St7920Op::Data(0));
                i = i + 1;
                assert(ops@ =~= before + address_ops(x, ya) + Seq::new(i as nat, |j: int| St7920Op::Data(0u8)));
            }
            assert(Seq::new(16, |j: int| 0u8).map_values(|b: u8| St7920Op::Data(b)) =~= Seq::new(16, |j: int| St7920Op::Data(0u8)));
            y = y + 1;
            assert(ops@ =~= seq![St7920Op::CsHigh] + clear_body(y as nat));
        }
        let mut i: usize = 0;
        while i < self.buffer.len()
            invariant
                0 <= i <= self.buffer@.len(),
                self.buffer@.len() == BUFFER_SIZE,
                forall|j: int| 0 <= j < i ==> self.buffer@[j] == 0u8,
            decreases self.buffer@.len() - i,
        {
            self.buffer.set(i, 0);
            i = i + 1;
        }
        assert(self.buffer@ =~= blank_image());
        ops.push(St7920Op::CsLow);
        ops
    }

    /// Shows `new_buffer`: only the rows that differ from the shown image
    /// are rewritten, top to bottom; the cached image becomes the new one.
    pub fn update(&mut self, new_buffer: &[u8; 1024]) -> (ops: Vec<St7920Op>)
        requires
            old(self).spec_buffer().len() == BUFFER_SIZE,
        ensures
            ops@ == seq![St7920Op::CsHigh] + update_body(old(self).spec_buffer(), new_buffer@, 64)
                + seq![St7920Op::CsLow],
            final(self).spec_buffer() == new_buffer@,
    {
        let mut ops: Vec<St7920Op> = Vec::new();
        ops.push(St7920Op::CsHigh);
        let ghost shown = self.buffer@;
        let mut y: usize = 0;
        while y < HEIGHT
            invariant
                0 <= y <= HEIGHT,
                self.buffer@ == shown,
                shown.len() == BUFFER_SIZE,
                new_buffer@.len() == BUFFER_SIZE,
                ops@ == seq![St7920Op::CsHigh] + update_body(shown, new_buffer@, y as nat),
            decreases HEIGHT - y,
        {
            let row_start = y * ROW_SIZE;
            let same = rows_equal(self.buffer.as_slice(), new_buffer.as_slice(), row_start);
            if !same {
                let ghost before = ops@;
                let (x, ya) = graphics_address(y);
                ops.push(St7920Op::Command(0x80u8 | ya));
                ops.push(St7920Op::Command(0x80u8 | x));
                let mut i: usize = 0;
                while i < ROW_SIZE
                    invariant
                        0 <= i <= ROW_SIZE,
                        0 <= y < HEIGHT,
                        row_start == y * 16,
                        new_buffer@.len() == BUFFER_SIZE,
                        ops@ == before + address_ops(x, ya) + image_row(new_buffer@, y as int).subrange(0, i as int).map_values(|b: u8| St7920Op::Data(b)),
                    decreases ROW_SIZE - i,
                {
                    ops.push(St7920Op::Data(new_buffer[row_start + i]));
                    i = i + 1;
                    assert(ops@ =~= before + address_ops(x, ya) + image_row(new_buffer@, y as int).subrange(0, i as int).map_values(|b: u8| St7920Op::Data(b)));
                }
                assert(image_row(new_buffer@, y as int).subrange(0, 16) =~= image_row(new_buffer@, y as int));
            }
            y = y + 1;
            assert(ops@ =~= seq![St7920Op::CsHigh] + update_body(shown, new_buffer@, y as nat));
        }
        let mut i: usize = 0;
        while i < BUFFER_SIZE
            invariant
                0 <= i <= BUFFER_SIZE,
                self.buffer@.len() == BUFFER_SIZE,
                new_buffer@.len() == BUFFER_SIZE,
                forall|j: int| 0 <= j < i ==> self.buffer@[j] == new_buffer@[j],
            decreases BUFFER_SIZE - i,
        {
            self.buffer.set(i, new_buffer[i]);
            i = i + 1;
        }
        assert(self.buffer@ =~= new_buffer@);
        ops.push(St7920Op::CsLow);
        ops
    }
}

/// The graphics address of pixel row `y`.
pub fn graphics_address(y: usize) -> (a: (u8, u8))
    requires
        y < 64,
    ensures
        a == row_address(y as int),
{
    if y < 32 {
        (0, y as u8)
    } else {
        (8, (y - 32) as u8)
    }
}

/// Whether the sixteen bytes from `start` are the same in both images.
fn rows_equal(a: &[u8], b: &[u8], start: usize) -> (same: bool)
    requires
        start + 16 <= a@.len(),
        start + 16 <= b@.len(),
    ensures
        same == (a@.subrange(start as int, start + 16) == b@.subrange(start as int, start + 16)),
{
    let a_len = a.len();
    let mut i: usize = 0;
    while i < 16
        invariant
            0 <= i <= 16,
            a_len == a@.len(),
            start + 16 <= a@.len(),
            start + 16 <= b@.len(),
            forall|j: int| start <= j < start + i ==> #[trigger] a@[j] == b@[j],
        decreases 16 - i,
    {
        if a[start + i] != b[start + i] {
            assert(a@.subrange(start as int, start + 16)[i as int] != b@.subrange(start as int, start + 16)[i as int]);
            return false;
        }
        i = i + 1;
    }
    assert(a@.subrange(start as int, start + 16) =~= b@.subrange(start as int, start + 16));
    true
}

/// The pixel row that a pair of address instructions selects on the
/// display: the first gives the row within a half of the screen, the second
/// the column, where column eight starts the lower half.
pub open spec fn addressed_row(vertical: u8, horizontal: u8) -> int {
    if horizontal == 0x88u8 {
        vertical - 0x80 + 32
    } else {
        vertical - 0x80
    }
}

/// The bytes that data operations carry.
pub open spec fn data_bytes(ops: Seq<St7920Op>) -> Seq<u8> {
    ops.map_values(
        |o: St7920Op|
            match o {
                St7920Op::Data(b) => b,
                _ => 0u8,
            },
    )
}

/// An image with pixel row `y` replaced by `bytes`.
pub open spec fn with_row(img: Seq<u8>, y: int, bytes: Seq<u8>) -> Seq<u8> {
    img.subrange(0, y * 16) + bytes + img.subrange(y * 16 + 16, img.len() as int)
}

/// What one row write does to the image on the display: two address
/// instructions select a pixel row, and the sixteen data bytes after them
/// fill it from its first column on.
pub open spec fn row_write_effect(img: Seq<u8>, w: Seq<St7920Op>) -> Seq<u8> {
    match (w[0], w[1]) {
        (St7920Op::Command(v), St7920Op::Command(h)) => with_row(
            img,
            addressed_row(v, h),
            data_bytes(w.subrange(2, 18)),
        ),
        _ => img,
    }
}

/// The image the display shows after it performs a run of row writes,
/// starting from `img`.
pub open spec fn shown_after(img: Seq<u8>, ops: Seq<St7920Op>) -> Seq<u8>
    decreases ops.len(),
{
    if ops.len() < 18 {
        img
    } else {
        shown_after(row_write_effect(img, ops.take(18)), ops.skip(18))
    }
}

/// Writing a row with the operations of `row_ops` puts its bytes in that
/// row of the display.
proof fn lemma_row_ops_effect(img: Seq<u8>, y: int, row: Seq<u8>)
    requires
        0 <= y < 64,
        row.len() == 16,
    ensures
        row_ops(y, row).len() == 18,
        shown_after(img, row_ops(y, row)) == with_row(img, y, row),
{
    let r = row_ops(y, row);
    let (x, ya) = row_address(y);
    assert(forall|v: u8| v < 32 ==> #[trigger] (0x80u8 | v) == 0x80 + v) by (bit_vector);
    assert((0x80u8 | 0u8) == 0x80u8) by (bit_vector);
    assert((0x80u8 | 8u8) == 0x88u8) by (bit_vector);
    assert(addressed_row(0x80u8 | ya, 0x80u8 | x) == y);
    assert(data_bytes(r.subrange(2, 18)) =~= row);
    assert(r[0] == St7920Op::Command(0x80u8 | ya));
    assert(r[1] == St7920Op::Command(0x80u8 | x));
    assert(r.take(18) =~= r);
    assert(row_write_effect(img, r) == with_row(img, y, row));
    assert(shown_after(row_write_effect(img, r), r.skip(18)) == row_write_effect(img, r));
}

/// Row writes performed one run after another act as the two runs joined.
proof fn lemma_shown_after_join(img: Seq<u8>, a: Seq<St7920Op>, b: Seq<St7920Op>, k: nat)
    requires
        a.len() == 18 * k,
    ensures
        shown_after(img, a + b) == shown_after(shown_after(img, a), b),
    decreases k,
{
    if k == 0 {
        assert(a + b =~= b);
    } else {
        assert((a + b).take(18) =~= a.take(18));
        assert((a + b).skip(18) =~= a.skip(18) + b);
        lemma_shown_after_join(row_write_effect(img, a.take(18)), a.skip(18), b, (k - 1) as nat);
    }
}

/// After the row writes of an update for the first `n` rows, the display
/// shows the new image in those rows and the old one below.
proof fn lemma_update_prefix(shown: Seq<u8>, new: Seq<u8>, n: nat) -> (k: nat)
    requires
        shown.len() == 1024,
        new.len() == 1024,
        n <= 64,
    ensures
        update_body(shown, new, n).len() == 18 * k,
        shown_after(shown, update_body(shown, new, n)) == new.subrange(0, n as int * 16) + shown.subrange(
            n as int * 16,
            1024,
        ),
    decreases n,
{
    if n == 0 {
        assert(new.subrange(0, 0) + shown.subrange(0, 1024) =~= shown);
        0
    } else {
        let y = n - 1;
        let rest = update_body(shown, new, (n - 1) as nat);
        let k0 = lemma_update_prefix(shown, new, (n - 1) as nat);
        let before = new.subrange(0, y * 16) + shown.subrange(y * 16, 1024);
        let after = new.subrange(0, n as int * 16) + shown.subrange(n as int * 16, 1024);
        if image_row(shown, y) == image_row(new, y) {
            assert forall|i: int| 0 <= i < 1024 implies before[i] == after[i] by {
                if y * 16 <= i < y * 16 + 16 {
                    assert(image_row(shown, y)[i - y * 16] == image_row(new, y)[i - y * 16]);
                }
            }
            assert(before =~= after);
            k0
        } else {
            let r = row_ops(y, image_row(new, y));
            lemma_row_ops_effect(before, y, image_row(new, y));
            lemma_shown_after_join(shown, rest, r, k0);
            assert(with_row(before, y, image_row(new, y)) =~= after);
            k0 + 1
        }
    }
}

/// An update leaves the display showing the new image: every pixel row
/// that differs from the shown image is rewritten with the new bytes.
pub proof fn law_update_shows_new_image(shown: Seq<u8>, new: Seq<u8>)
    requires
        shown.len() == 1024,
        new.len() == 1024,
    ensures
        shown_after(shown, update_body(shown, new, 64)) == new,
{
    let _ = lemma_update_prefix(shown, new, 64);
    assert(new.subrange(0, 1024) + shown.subrange(1024, 1024) =~= new);
}

/// The pixel rows that differ between two images, top to bottom.
pub open spec fn changed_rows(shown: Seq<u8>, new: Seq<u8>) -> Seq<int> {
    Seq::new(64, |y: int| y).filter(|y: int| image_row(shown, y) != image_row(new, y))
}

/// An update of the first `n` rows holds one row write per changed row.
proof fn lemma_update_len(shown: Seq<u8>, new: Seq<u8>, n: nat)
    requires
        new.len() == 1024,
        n <= 64,
    ensures
        update_body(shown, new, n).len() == 18 * Seq::new(n, |y: int| y).filter(
            |y: int| image_row(shown, y) != image_row(new, y),
        ).len(),
    decreases n,
{
    reveal(Seq::filter);
    if n > 0 {
        lemma_update_len(shown, new, (n - 1) as nat);
        assert(Seq::new(n, |y: int| y).drop_last() =~= Seq::new((n - 1) as nat, |y: int| y));
        let y = n - 1;
        if image_row(shown, y) != image_row(new, y) {
            lemma_row_ops_effect(shown, y, image_row(new, y));
        }
    }
}

/// An update rewrites only the rows that changed: one row write, of
/// eighteen operations, for each of them and nothing for the others; an
/// image equal to the shown one sends no row at all.
pub proof fn law_update_writes_only_changed_rows(shown: Seq<u8>, new: Seq<u8>)
    requires
        shown.len() == 1024,
        new.len() == 1024,
    ensures
        update_body(shown, new, 64).len() == 18 * changed_rows(shown, new).len(),
        shown == new ==> update_body(shown, new, 64).len() == 0,
{
    lemma_update_len(shown, new, 64);
    if shown == new {
        assert(changed_rows(shown, new) =~= Seq::<int>::empty()) by {
            reveal(Seq::filter);
            lemma_no_changed_rows(shown, 64);
        }
    }
}

/// No row of an image differs from itself.
proof fn lemma_no_changed_rows(img: Seq<u8>, n: nat)
    ensures
        Seq::new(n, |y: int| y).filter(|y: int| image_row(img, y) != image_row(img, y)).len() == 0,
    decreases n,
{
    reveal(Seq::filter);
    if n > 0 {
        assert(Seq::new(n, |y: int| y).drop_last() =~= Seq::new((n - 1) as nat, |y: int| y));
        lemma_no_changed_rows(img, (n - 1) as nat);
    }
}

/// Clearing leaves the display blank, whatever it showed before.
pub proof fn law_clear_blanks_display(img: Seq<u8>)
    requires
        img.len() == 1024,
    ensures
        shown_after(img, clear_body(64)) == blank_image(),
{
    let _ = lemma_clear_prefix(img, 64);
    assert(blank_image().subrange(0, 1024) + img.subrange(1024, 1024) =~= blank_image());
}

/// After the row writes that blank the first `n` rows, those rows are
/// blank and the others unchanged.
proof fn lemma_clear_prefix(img: Seq<u8>, n: nat) -> (k: nat)
    requires
        img.len() == 1024,
        n <= 64,
    ensures
        clear_body(n).len() == 18 * k,
        shown_after(img, clear_body(n)) == blank_image().subrange(0, n as int * 16)
            + img.subrange(n as int * 16, 1024),
    decreases n,
{
    if n == 0 {
        assert(blank_image().subrange(0, 0) + img.subrange(0, 1024) =~= img);
        0
    } else {
        let y = n - 1;
        let k0 = lemma_clear_prefix(img, (n - 1) as nat);
        let before = blank_image().subrange(0, y * 16) + img.subrange(y * 16, 1024);
        let zeros = Seq::new(16, |i: int| 0u8);
        lemma_row_ops_effect(before, y, zeros);
        lemma_shown_after_join(img, clear_body((n - 1) as nat), row_ops(y, zeros), k0);
        assert(with_row(before, y, zeros) =~= blank_image().subrange(0, n as int * 16)
            + img.subrange(n as int * 16, 1024));
        k0 + 1
    }
}

/// The row writes of an update of the first `n` rows, one per changed row,
/// in order from the top.
proof fn lemma_update_order(shown: Seq<u8>, new: Seq<u8>, n: nat)
    requires
        new.len() == 1024,
        n <= 64,
    ensures
        ({
            let rows = Seq::new(n, |y: int| y).filter(
                |y: int| image_row(shown, y) != image_row(new, y),
            );
            forall|j: int|
                0 <= j < rows.len() ==> 0 <= #[trigger] rows[j] < n && update_body(shown, new, n).subrange(
                    18 * j,
                    18 * j + 18,
                ) == row_ops(rows[j], image_row(new, rows[j]))
        }),
    decreases n,
{
    reveal(Seq::filter);
    if n > 0 {
        let y = n - 1;
        let pred = |y: int| image_row(shown, y) != image_row(new, y);
        let rows = Seq::new(n, |y: int| y).filter(pred);
        let prev_rows = Seq::new((n - 1) as nat, |y: int| y).filter(pred);
        let rest = update_body(shown, new, (n - 1) as nat);
        assert(Seq::new(n, |y: int| y).drop_last() =~= Seq::new((n - 1) as nat, |y: int| y));
        lemma_update_order(shown, new, (n - 1) as nat);
        lemma_update_len(shown, new, (n - 1) as nat);
        if pred(y) {
            let r = row_ops(y, image_row(new, y));
            lemma_row_ops_effect(shown, y, image_row(new, y));
            assert forall|j: int| 0 <= j < rows.len() implies 0 <= #[trigger] rows[j] < n
                && update_body(shown, new, n).subrange(18 * j, 18 * j + 18) == row_ops(
                rows[j],
                image_row(new, rows[j]),
            ) by {
                if j < prev_rows.len() {
                    assert(rows[j] == prev_rows[j]);
                    assert((rest + r).subrange(18 * j, 18 * j + 18) =~= rest.subrange(
                        18 * j,
                        18 * j + 18,
                    ));
                } else {
                    assert(rows[j] == y);
                    assert((rest + r).subrange(18 * j, 18 * j + 18) =~= r);
                }
            }
        }
    }
}

/// An update writes the changed rows from the top down: its `j`-th row
/// write puts the new bytes of the `j`-th changed row in that row.
pub proof fn law_update_writes_rows_in_order(shown: Seq<u8>, new: Seq<u8>, j: int)
    requires
        shown.len() == 1024,
        new.len() == 1024,
        0 <= j < changed_rows(shown, new).len(),
    ensures
        update_body(shown, new, 64).subrange(18 * j, 18 * j + 18) == row_ops(
            changed_rows(shown, new)[j],
            image_row(new, changed_rows(shown, new)[j]),
        ),
{
    lemma_update_order(shown, new, 64);
}

} // verus!
