//! A custom SPI frame-buffer display: the bytes that configure it and that
//! carry each pixel row.
//!
//! Sending the bytes on the bus is the caller's part.
use vstd::prelude::*;

verus! {

/// Width of the display in pixels.
pub const WIDTH: usize = 256;

/// Height of the display in pixels.
pub const HEIGHT: usize = 256;

/// Bytes per pixel row.
pub const ROW_SIZE: usize = 32;

/// Bytes of a whole image.
pub const BUFFER_SIZE: usize = 8192;

/// The byte with its bit order reversed.
fn reverse_bits(b: u8) -> (r: u8)
    ensures
        is_reversed(b, r),
{
    let r: u8 = (b & 0x01) << 7u8 | (b & 0x02) << 5u8 | (b & 0x04) << 3u8 | (b & 0x08) << 1u8
        | (b & 0x10) >> 1u8 | (b & 0x20) >> 3u8 | (b & 0x40) >> 5u8 | (b & 0x80) >> 7u8;
    assert forall|i: u8| i < 8 implies #[trigger] ((r >> i) & 1) == (b >> (7 - i) as u8) & 1 by {
        assert(((r >> i) & 1) == (b >> (7 - i) as u8) & 1) by (bit_vector)
            requires
                i < 8,
                r == (b & 0x01) << 7u8 | (b & 0x02) << 5u8 | (b & 0x04) << 3u8 | (b & 0x08) << 1u8
                    | (b & 0x10) >> 1u8 | (b & 0x20) >> 3u8 | (b & 0x40) >> 5u8 | (b & 0x80) >> 7u8,
        ;
    }
    r
}

/// The big-endian bytes of a word.
pub open spec fn be_bytes(v: u32) -> Seq<u8> {
    seq![(v >> 24u32) as u8, (v >> 16u32) as u8, (v >> 8u32) as u8, v as u8]
}

/// The big-endian bytes of a word.
fn to_be_bytes(v: u32) -> (b: [u8; 4])
    ensures
        b@ == be_bytes(v),
{
    let b = [(v >> 24u32) as u8, (v >> 16u32) as u8, (v >> 8u32) as u8, v as u8];
    assert(b@ =~= be_bytes(v));
    b
}

/// Whether `r` is `b` with its bit order reversed.
pub open spec fn is_reversed(b: u8, r: u8) -> bool {
    forall|i: u8| i < 8 ==> #[trigger] ((r >> i) & 1) == (b >> (7 - i) as u8) & 1
}

/// Whether `out` is the bytes of `buf`, each with its bit order reversed.
pub open spec fn bits_reversed(buf: Seq<u8>, out: Seq<u8>) -> bool {
    out.len() == buf.len() && forall|i: int| 0 <= i < buf.len() ==> is_reversed(buf[i], #[trigger] out[i])
}

/// A pixel row with every pixel off.
pub open spec fn zero_row() -> Seq<u8> {
    Seq::new(32, |i: int| 0u8)
}

/// Whether `msg` is the message that writes `buf` to pixel row `y`.
pub open spec fn row_message(y: u32, buf: Seq<u8>, msg: Seq<u8>) -> bool {
    &&& msg.len() == 6 + buf.len()
    &&& msg.subrange(0, 6) == seq![1u8] + be_bytes(y) + seq![0u8]
    &&& bits_reversed(buf, msg.subrange(6, msg.len() as int))
}

/// A custom frame-buffer display on a bus.
pub struct CustomDisplay<SPI> {
    spi: SPI,
}

impl<SPI> CustomDisplay<SPI> {
    /// The bus.
    pub closed spec fn spec_spi(&self) -> SPI {
        self.spi
    }

    /// Width in pixels.
    pub fn width() -> (w: usize)
        ensures
            w == WIDTH,
    {
        WIDTH
    }

    /// Height in pixels.
    pub fn height() -> (h: usize)
        ensures
            h == HEIGHT,
    {
        HEIGHT
    }

    /// The display on `spi`.
    pub fn new(spi: SPI) -> (d: Self)
        ensures
            d.spec_spi() == spi,
    {
        CustomDisplay { spi }
    }

    /// The bus, to send bytes on.
    pub fn spi_mut(&mut self) -> (spi: &mut SPI)
        ensures
            *spi == old(self).spec_spi(),
            final(self).spec_spi() == *final(spi),
    {
        &mut self.spi
    }

    /// The start message: command 3, then the width as a big-endian word.
    pub fn init(&self) -> (bytes: Vec<u8>)
        ensures
            bytes@ == seq![3u8] + be_bytes(WIDTH as u32),
    {
        let mut bytes: Vec<u8> = Vec::new();
        bytes.push(3);
        let w = to_be_bytes(WIDTH as u32);
        let mut i: usize = 0;
        while i < 4
            invariant
                0 <= i <= 4,
                w@ == be_bytes(WIDTH as u32),
                bytes@ == seq![3u8] + w@.subrange(0, i as int),
            decreases 4 - i,
        {
            bytes.push(w[i]);
            i = i + 1;
            assert(bytes@ =~= seq![3u8] + w@.subrange(0, i as int));
        }
        assert(w@.subrange(0, 4) =~= w@);
        bytes
    }

    /// The message that writes pixel row `y`: command 1, the row as a
    /// big-endian word, 0, then the row's bytes, each with its bit order
    /// reversed.
    pub fn write_row(&self, y: u32, buf: &[u8]) -> (bytes: Vec<u8>)
        ensures
            row_message(y, buf@, bytes@),
    {
        let mut bytes: Vec<u8> = Vec::new();
        bytes.push(1);
        let be = to_be_bytes(y);
        bytes.push(be[0]);
        bytes.push(be[1]);
        bytes.push(be[2]);
        bytes.push(be[3]);
        bytes.push(0);
        assert(bytes@ =~= seq![1u8] + be_bytes(y) + seq![0u8]);
        let ghost head = bytes@;
        let mut i: usize = 0;
        while i < buf.len()
            invariant
                0 <= i <= buf@.len(),
                head == seq![1u8] + be_bytes(y) + seq![0u8],
                bytes@.len() == 6 + i,
                bytes@.subrange(0, 6) == head,
                forall|j: int| 0 <= j < i ==> is_reversed(buf@[j], #[trigger] bytes@[6 + j]),
            decreases buf@.len() - i,
        {
            let r = reverse_bits(buf[i]);
            bytes.push(r);
            i = i + 1;
            assert(bytes@.subrange(0, 6) =~= head);
        }
        assert forall|j: int| 0 <= j < buf@.len() implies is_reversed(
            buf@[j],
            #[trigger] bytes@.subrange(6, bytes@.len() as int)[j],
        ) by {
            assert(bytes@.subrange(6, bytes@.len() as int)[j] == bytes@[6 + j]);
        }
        bytes
    }

    /// The messages that write every pixel row of `new_buffer`, top to
    /// bottom.
    pub fn update(&self, new_buffer: &[u8]) -> (msgs: Vec<Vec<u8>>)
        requires
            new_buffer@.len() == BUFFER_SIZE,
        ensures
            msgs@.len() == HEIGHT,
            forall|y: int| 0 <= y < HEIGHT ==> #[trigger] row_message(
                y as u32,
                new_buffer@.subrange(y * 32, y * 32 + 32),
                msgs@[y]@,
            ),
    {
        let mut msgs: Vec<Vec<u8>> = Vec::new();
        let mut y: usize = 0;
        while y < HEIGHT
            invariant
                0 <= y <= HEIGHT,
                new_buffer@.len() == BUFFER_SIZE,
                msgs@.len() == y,
                forall|j: int| 0 <= j < y ==> #[trigger] row_message(
                    j as u32,
                    new_buffer@.subrange(j * 32, j * 32 + 32),
                    msgs@[j]@,
                ),
            decreases HEIGHT - y,
        {
            let row_start = y * ROW_SIZE;
            let m = self.write_row(y as u32, &new_buffer[row_start..row_start + ROW_SIZE]);
            msgs.push(m);
            y = y + 1;
        }
        msgs
    }

    /// The messages that blank every pixel row, top to bottom.
    pub fn clear(&self) -> (msgs: Vec<Vec<u8>>)
        ensures
            msgs@.len() == HEIGHT,
            forall|y: int| 0 <= y < HEIGHT ==> #[trigger] row_message(
                y as u32,
                zero_row(),
                msgs@[y]@,
            ),
    {
        let zeros: [u8; 32] = [0u8; 32];
        assert(zeros@ =~= zero_row());
        let mut msgs: Vec<Vec<u8>> = Vec::new();
        let mut y: usize = 0;
        while y < HEIGHT
            invariant
                0 <= y <= HEIGHT,
                zeros@ == zero_row(),
                msgs@.len() == y,
                forall|j: int| 0 <= j < y ==> #[trigger] row_message(
                    j as u32,
                    zero_row(),
                    msgs@[j]@,
                ),
            decreases HEIGHT - y,
        {
            let m = self.write_row(y as u32, zeros.as_slice());
            msgs.push(m);
            y = y + 1;
        }
        msgs
    }

    /// Where pixel row `y` lies in an image.
    pub fn row_range(y: usize) -> (r: (usize, usize))
        requires
            y < HEIGHT,
        ensures
            r.0 == y * ROW_SIZE,
            r.1 == y * ROW_SIZE + ROW_SIZE,
    {
        (y * ROW_SIZE, y * ROW_SIZE + ROW_SIZE)
    }
}

} // verus!
