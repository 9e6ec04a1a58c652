//! The LED matrix: 8×8 pixels, two bytes each, row by row from the top left.
//!
//! A pixel is stored as RGB565: five bits of red, six of green, five of blue,
//! red in the high bits, the 16-bit value laid down low byte first.

use vstd::prelude::*;
use crate::grid::{in_grid, GRID};

verus! {

/// Bytes that one pixel occupies.
pub const PIXEL_BYTES: usize = 2;

/// Bytes of a whole frame.
pub const FRAME_BYTES: usize = 128;

/// The 16-bit RGB565 value of a colour. Each channel is cut down to its top
/// five or six bits, without rounding.
pub open spec fn rgb565(r: u8, g: u8, b: u8) -> int {
    (r / 8) * 2048 + (g / 4) * 32 + (b / 8)
}

/// The two bytes that store a colour, low byte first.
pub open spec fn rgb565_bytes(r: u8, g: u8, b: u8) -> Seq<u8> {
    seq![(rgb565(r, g, b) % 256) as u8, (rgb565(r, g, b) / 256) as u8]
}

/// Packs an 8-bit-per-channel colour into the two bytes of its RGB565 form.
pub fn rgb_to_rgb565(r: u8, g: u8, b: u8) -> (bytes: [u8; 2])
    ensures
        bytes@ == rgb565_bytes(r, g, b),
{
    let r5: u16 = (r >> 3) as u16;
    let g6: u16 = (g >> 2) as u16;
    let b5: u16 = (b >> 3) as u16;
    let value: u16 = (r5 << 11) | (g6 << 5) | b5;
    let low: u8 = (value & 0xff) as u8;
    let high: u8 = (value >> 8) as u8;
    assert(value == rgb565(r, g, b) && low == value % 256 && high == value / 256) by (bit_vector)
        requires
            r5 == (r >> 3) as u16,
            g6 == (g >> 2) as u16,
            b5 == (b >> 3) as u16,
            value == (r5 << 11) | (g6 << 5) | b5,
            low == (value & 0xff) as u8,
            high == (value >> 8) as u8,
    ;
    [low, high]
}

/// Where the first byte of pixel (x, y) lies in the frame. (0, 0) is the top
/// left pixel; rows follow one another.
pub open spec fn pixel_offset(x: int, y: int) -> int {
    (y * GRID + x) * PIXEL_BYTES
}

/// A frame after `data` has been written at `offset`. The frame keeps its
/// length: bytes that would land past its end are dropped.
pub open spec fn written(frame: Seq<u8>, offset: int, data: Seq<u8>) -> Seq<u8> {
    Seq::new(
        frame.len(),
        |i: int|
            if offset <= i < offset + data.len() {
                data[i - offset]
            } else {
                frame[i]
            },
    )
}

/// A frame with every pixel off.
pub open spec fn dark_frame() -> Seq<u8> {
    Seq::new(FRAME_BYTES as nat, |i: int| 0u8)
}

/// One positioned write to the frame buffer device: `data` goes to the
/// device at byte `offset`, in one piece.
#[derive(Debug, PartialEq, Eq)]
pub struct FrameWrite {
    pub offset: u64,
    pub data: Vec<u8>,
}

impl FrameWrite {
    /// The write stays inside the frame.
    pub open spec fn fits(&self) -> bool {
        self.offset + self.data@.len() <= FRAME_BYTES
    }
}

/// Why the matrix refused a request.
#[derive(Clone, Copy, Debug, PartialEq, Eq, Structural)]
pub enum LedError {
    /// (x, y) is no pixel of the 8×8 grid.
    OutOfGrid { x: usize, y: usize },
    /// `len` bytes at `offset` would reach past the end of the frame.
    OutOfFrame { offset: u64, len: usize },
}

/// The write that sets pixel (x, y) to the colour (r, g, b): the colour's two
/// bytes at the pixel's offset. Coordinates off the grid are refused.
pub fn set_pixel(x: usize, y: usize, r: u8, g: u8, b: u8) -> (res: Result<FrameWrite, LedError>)
    ensures
        match res {
            Ok(w) => {
                &&& in_grid(x as int, y as int)
                &&& w.offset == pixel_offset(x as int, y as int)
                &&& w.data@ == rgb565_bytes(r, g, b)
            },
            Err(e) => !in_grid(x as int, y as int) && e == (LedError::OutOfGrid { x, y }),
        },
{
    if x >= GRID || y >= GRID {
        return Err(LedError::OutOfGrid { x, y });
    }
    let offset: usize = (y * GRID + x) * PIXEL_BYTES;
    let bytes: [u8; 2] = rgb_to_rgb565(r, g, b);
    let mut data: Vec<u8> = Vec::new();
    data.push(bytes[0]);
    data.push(bytes[1]);
    Ok(FrameWrite { offset: offset as u64, data })
}

/// The write that turns every pixel off: the whole frame in zero bytes, from
/// offset 0, as a single write.
pub fn clear() -> (w: FrameWrite)
    ensures
        w.offset == 0,
        w.data@ == dark_frame(),
{
    let mut data: Vec<u8> = Vec::new();
    while data.len() < FRAME_BYTES
        invariant
            data@.len() <= FRAME_BYTES,
            forall|i: int| 0 <= i < data@.len() ==> data@[i] == 0u8,
        decreases FRAME_BYTES - data@.len(),
    {
        data.push(0u8);
    }
    FrameWrite { offset: 0, data }
}

/// The frame buffer device in memory: 128 bytes that take positioned writes
/// as the device does, and can be read back.
pub struct Frame {
    bytes: [u8; FRAME_BYTES],
}

impl View for Frame {
    type V = Seq<u8>;

    closed spec fn view(&self) -> Seq<u8> {
        self.bytes@
    }
}

impl Frame {
    /// A frame is as long as the device's buffer.
    pub proof fn lemma_len(&self)
        ensures
            self@.len() == FRAME_BYTES,
    {
    }

    /// A frame with every pixel off.
    pub fn new() -> (frame: Frame)
        ensures
            frame@ == dark_frame(),
    {
        Frame { bytes: [0u8; FRAME_BYTES] }
    }

    /// Performs a write. One that would reach past the end of the frame is
    /// refused and leaves the frame as it was.
    pub fn write(&mut self, w: &FrameWrite) -> (res: Result<(), LedError>)
        ensures
            final(self)@.len() == FRAME_BYTES,
            match res {
                Ok(_) => w.fits() && final(self)@ == written(old(self)@, w.offset as int, w.data@),
                Err(e) => {
                    &&& !w.fits()
                    &&& final(self)@ == old(self)@
                    &&& e == (LedError::OutOfFrame { offset: w.offset, len: w.data.len() })
                },
            },
    {
        let len: usize = w.data.len();
        if w.offset > FRAME_BYTES as u64 || len > FRAME_BYTES - w.offset as usize {
            return Err(LedError::OutOfFrame { offset: w.offset, len });
        }
        let start: usize = w.offset as usize;
        let mut k: usize = 0;
        while k < len
            invariant
                k <= len,
                len == w.data@.len(),
                start + len <= FRAME_BYTES,
                self@ == written(old(self)@, start as int, w.data@.take(k as int)),
            decreases len - k,
        {
            self.bytes[start + k] = w.data[k];
            k += 1;
        }
        Ok(())
    }

    /// The `len` bytes that the frame holds from `offset` on, or nothing if
    /// they would reach past its end.
    pub fn read(&self, offset: u64, len: usize) -> (res: Option<Vec<u8>>)
        ensures
            match res {
                Some(bytes) => {
                    &&& offset + len <= FRAME_BYTES
                    &&& bytes@ == self@.subrange(offset as int, offset + len)
                },
                None => offset + len > FRAME_BYTES,
            },
    {
        if offset > FRAME_BYTES as u64 || len > FRAME_BYTES - offset as usize {
            return None;
        }
        let start: usize = offset as usize;
        let mut bytes: Vec<u8> = Vec::new();
        let mut k: usize = 0;
        while k < len
            invariant
                k <= len,
                start + len <= FRAME_BYTES,
                bytes@ == self@.subrange(start as int, start + k),
            decreases len - k,
        {
            bytes.push(self.bytes[start + k]);
            k += 1;
        }
        Some(bytes)
    }
}

/// A pixel that was set reads back as its colour's two bytes, and no byte
/// outside the pixel changes.
pub proof fn lemma_set_pixel_reads_back(frame: Seq<u8>, x: int, y: int, r: u8, g: u8, b: u8)
    requires
        frame.len() == FRAME_BYTES,
        in_grid(x, y),
    ensures
        ({
            let at = pixel_offset(x, y);
            let after = written(frame, at, rgb565_bytes(r, g, b));
            &&& 0 <= at && at + PIXEL_BYTES <= FRAME_BYTES
            &&& after.len() == FRAME_BYTES
            &&& after.subrange(at, at + PIXEL_BYTES) == rgb565_bytes(r, g, b)
            &&& forall|i: int|
                0 <= i < FRAME_BYTES && !(at <= i < at + PIXEL_BYTES) ==> after[i] == frame[i]
        }),
{
}

/// Two different pixels share no byte of the frame.
pub proof fn lemma_pixels_apart(x1: int, y1: int, x2: int, y2: int)
    requires
        in_grid(x1, y1),
        in_grid(x2, y2),
        (x1, y1) != (x2, y2),
    ensures
        pixel_offset(x1, y1) + PIXEL_BYTES <= pixel_offset(x2, y2) || pixel_offset(x2, y2)
            + PIXEL_BYTES <= pixel_offset(x1, y1),
{
}

/// After a clear every byte of the frame is zero, whatever it held before.
pub proof fn lemma_clear_darkens(frame: Seq<u8>)
    requires
        frame.len() == FRAME_BYTES,
    ensures
        written(frame, 0, dark_frame()) == dark_frame(),
        forall|i: int| 0 <= i < FRAME_BYTES ==> written(frame, 0, dark_frame())[i] == 0u8,
{
}

} // verus!
