//! Helpers of the view layer: a handle on an object that may cross
//! threads, and the geometry of a bitmap made from a rendered RGBA buffer.

use vstd::prelude::*;

verus! {

/// The address of an object of type `T`, kept as a number so that it can be
/// handed to another thread whatever `T` is; only the thread that owns the
/// object turns it back into a reference. Nothing is owned or freed.
pub struct SendPtr<T> {
    addr: usize,
    marker: Ghost<T>,
}

impl<T> SendPtr<T> {
    /// The address that was wrapped.
    pub closed spec fn addr_view(&self) -> usize {
        self.addr
    }

    /// Wraps the address `ptr`.
    pub fn new(ptr: usize) -> (r: Self)
        ensures
            r.addr_view() == ptr,
    {
        SendPtr { addr: ptr, marker: Ghost(vstd::pervasive::arbitrary()) }
    }

    /// The address that was wrapped.
    pub fn as_ptr(&self) -> (r: usize)
        ensures
            r == self.addr_view(),
    {
        self.addr
    }
}

/// Shape of an 8-bit RGBA bitmap (four samples of one byte per pixel, one
/// plane).
#[derive(Debug, Clone, Copy, PartialEq, Eq, Structural)]
pub struct BitmapGeometry {
    pub pixels_wide: isize,
    pub pixels_high: isize,
    pub bytes_per_row: isize,
}

/// The shape of a `width` x `height` RGBA bitmap read from a buffer of
/// `byte_len` bytes: `None` when the sizes do not fit the platform's
/// signed sizes or the buffer is too short to hold every row.
pub fn bitmap_geometry(byte_len: usize, width: usize, height: usize) -> (r: Option<BitmapGeometry>)
    ensures
        r is Some <==> (width * 4 <= isize::MAX && height <= isize::MAX && width * 4 * height <= byte_len),
        r matches Some(g) ==> g.pixels_wide == width && g.pixels_high == height && g.bytes_per_row == width * 4,
{
    if width > (isize::MAX as usize) / 4 || height > isize::MAX as usize {
        return None;
    }
    let row = width * 4;
    if height != 0 && row > byte_len / height {
        proof {
            assert(row * height > byte_len) by (nonlinear_arith)
                requires row > byte_len / height, height > 0;
        }
        return None;
    }
    proof {
        if height != 0 {
            assert(row * height <= byte_len) by (nonlinear_arith)
                requires row <= byte_len / height, height > 0;
        }
    }
    Some(BitmapGeometry { pixels_wide: width as isize, pixels_high: height as isize, bytes_per_row: row as isize })
}

} // verus!
