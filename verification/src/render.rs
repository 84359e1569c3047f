//! Filling a framebuffer with one colour, and keeping track of the size the
//! framebuffer was acquired for.

use vstd::prelude::*;
use crate::palette::Rgba;

verus! {

/// Bytes per pixel slot.
pub const BYTES_PER_PIXEL: usize = 4;

/// Width and height of a window in pixels.
#[derive(Clone, Copy, Debug, PartialEq, Eq, Structural)]
pub struct FrameSize {
    pub width: u32,
    pub height: u32,
}

impl FrameSize {
    /// The length in bytes of a framebuffer of this size.
    pub open spec fn byte_len(self) -> int {
        self.width * self.height * BYTES_PER_PIXEL
    }

    /// The length in bytes of a framebuffer of this size.
    pub fn bytes(self) -> (n: u128)
        ensures
            n == self.byte_len(),
    {
        assert(self.width * self.height <= 0xFFFF_FFFF * 0xFFFF_FFFF) by (nonlinear_arith)
            requires
                self.width <= 0xFFFF_FFFF,
                self.height <= 0xFFFF_FFFF,
        ;
        (self.width as u128) * (self.height as u128) * 4
    }
}

/// Why a frame was not painted.
#[derive(Clone, Copy, Debug, PartialEq, Eq, Structural)]
pub enum RenderError {
    /// The framebuffer does not belong to the window's present size: it has
    /// to be acquired again before anything is written.
    StaleBuffer,
}

/// Every pixel slot of `frame` holds the four bytes of `color`.
pub open spec fn filled_with(frame: Seq<u8>, color: Rgba) -> bool {
    forall|k: int| 0 <= k < frame.len() ==> #[trigger] frame[k] == color.bytes()[k % (BYTES_PER_PIXEL as int)]
}

/// Paints every byte of `frame` so that each pixel slot holds `color`.
pub fn fill(frame: &mut [u8], color: Rgba)
    ensures
        final(frame)@.len() == old(frame)@.len(),
        filled_with(final(frame)@, color),
{
    let bytes = color.to_bytes();
    let n: usize = frame.len();
    let mut k: usize = 0;
    while k < n
        invariant
            k <= n,
            n == frame@.len(),
            bytes@ == color.bytes(),
            frame@.len() == old(frame)@.len(),
            forall|j: int| 0 <= j < k ==> #[trigger] frame@[j] == color.bytes()[j % (BYTES_PER_PIXEL as int)],
        decreases n - k,
    {
        frame[k] = bytes[k % BYTES_PER_PIXEL];
        k = k + 1;
    }
}

/// The size the framebuffer was last acquired for, if it was acquired at
/// all.
#[derive(Clone, Copy, Debug)]
pub struct Renderer {
    pub acquired: Option<FrameSize>,
}

impl Renderer {
    /// A renderer that has no framebuffer yet.
    pub fn new() -> (r: Renderer)
        ensures
            r.acquired is None,
    {
        Renderer { acquired: None }
    }

    /// Whether a frame of `current` size with `len` bytes can be painted as
    /// it is: the framebuffer was acquired for that very size and has that
    /// size's length.
    pub open spec fn fits(self, current: FrameSize, len: int) -> bool {
        self.acquired == Some(current) && len == current.byte_len()
    }

    /// Whether the framebuffer has to be acquired before the window, now of
    /// `current` size, is painted: it never was, or for another size.
    pub fn needs_acquire(&self, current: FrameSize) -> (b: bool)
        ensures
            b == (self.acquired != Some(current)),
    {
        match self.acquired {
            Some(size) => size.width != current.width || size.height != current.height,
            None => true,
        }
    }

    /// Records that the framebuffer was acquired for `size`.
    pub fn set_acquired(&mut self, size: FrameSize)
        ensures
            final(self).acquired == Some(size),
    {
        self.acquired = Some(size);
    }

    /// Paints `frame` with `color` where it fits the window's `current`
    /// size; otherwise leaves it untouched and reports it stale.
    pub fn paint(&self, frame: &mut [u8], current: FrameSize, color: Rgba) -> (r: Result<
        (),
        RenderError,
    >)
        ensures
            r is Ok <==> self.fits(current, old(frame)@.len() as int),
            r is Ok ==> final(frame)@.len() == old(frame)@.len() && filled_with(
                final(frame)@,
                color,
            ),
            r is Err ==> final(frame)@ == old(frame)@,
    {
        if self.needs_acquire(current) {
            return Err(RenderError::StaleBuffer);
        }
        if (frame.len() as u128) != current.bytes() {
            return Err(RenderError::StaleBuffer);
        }
        fill(frame, color);
        Ok(())
    }
}

} // verus!
