use crate::buffers::buffer_size;
use crate::buffers::byte_size;
use crate::error::GpuError;
use image::ImageBuffer;
use image::Rgba;
use vstd::prelude::*;

verus! {

/// One texel: red, green, blue and alpha, eight bits each.
#[derive(Clone, Copy, Debug, PartialEq, Eq, Structural)]
pub struct Pixel {
    pub r: u8,
    pub g: u8,
    pub b: u8,
    pub a: u8,
}

/// The texel at column `x`, row `y` of a row-major grid `width` texels wide.
pub open spec fn pixel_at(bytes: Seq<u8>, width: nat, x: nat, y: nat) -> Pixel {
    let base = (4 * (y * width + x)) as int;
    Pixel {
        r: bytes[base],
        g: bytes[base + 1],
        b: bytes[base + 2],
        a: bytes[base + 3],
    }
}

/// The channel of a pixel at position `c` in its four bytes.
pub open spec fn channel(p: Pixel, c: nat) -> u8 {
    if c == 0 {
        p.r
    } else if c == 1 {
        p.g
    } else if c == 2 {
        p.b
    } else {
        p.a
    }
}

/// A grid of RGBA texels in row-major order.
#[derive(Debug)]
pub struct PixelGrid {
    width: u32,
    height: u32,
    data: Vec<u8>,
}

/// Hands the buffer to `image::ImageBuffer::<Rgba<u8>, Vec<u8>>::from_raw`
/// and, where the codec accepts it, takes the bytes back with `into_raw`.
/// Claimed, not proved: for positive dimensions the codec accepts a buffer
/// exactly when four bytes per texel fit in it, and the bytes come back as
/// they went in.
#[verifier::external_body]
fn rgba_from_raw(width: u32, height: u32, data: Vec<u8>) -> (kept: Option<Vec<u8>>)
    requires
        width > 0,
        height > 0,
    ensures
        kept.is_some() <==> byte_size(width as nat, height as nat) <= data@.len(),
        kept.is_some() ==> kept.unwrap()@ == data@,
{
    match ImageBuffer::<Rgba<u8>, Vec<u8>>::from_raw(width, height, data) {
        Some(img) => Some(img.into_raw()),
        None => None,
    }
}

/// Reading every pixel of a grid and writing its channels back in order
/// gives the bytes that the grid was made from: byte `i` is channel `i % 4`
/// of the texel at column `(i / 4) % width`, row `(i / 4) / width`.
pub proof fn lemma_pixels_keep_bytes(bytes: Seq<u8>, width: nat, height: nat, i: nat)
    requires
        width > 0,
        height > 0,
        bytes.len() == byte_size(width, height),
        i < bytes.len(),
    ensures
        (i / 4) % width < width,
        (i / 4) / width < height,
        channel(pixel_at(bytes, width, (i / 4) % width, (i / 4) / width), i % 4) == bytes[i as int],
{
    let t = i / 4;
    let x = t % width;
    let y = t / width;
    assert(t == y * width + x && x < width) by (nonlinear_arith)
        requires
            width > 0,
            x == t % width,
            y == t / width,
    ;
    assert(t < width * height) by (nonlinear_arith)
        requires
            t == i / 4,
            i < width * height * 4,
    ;
    assert(y < height) by (nonlinear_arith)
        requires
            t == y * width + x,
            t < width * height,
            width > 0,
    ;
    assert(4 * (y * width + x) + i % 4 == i);
}

impl PixelGrid {
    /// Every grid has positive dimensions and holds exactly four bytes per texel.
    #[verifier::type_invariant]
    spec fn wf(&self) -> bool {
        &&& self.width > 0
        &&& self.height > 0
        &&& self.data@.len() == byte_size(self.width as nat, self.height as nat)
    }

    /// The grid's bytes, row by row.
    pub closed spec fn bytes(&self) -> Seq<u8> {
        self.data@
    }

    /// Width in texels.
    pub closed spec fn columns(&self) -> nat {
        self.width as nat
    }

    /// Height in texels.
    pub closed spec fn rows(&self) -> nat {
        self.height as nat
    }

    /// Interprets `bytes` as a `width` by `height` grid of RGBA texels. The
    /// buffer is accepted exactly when it holds four bytes per texel; any
    /// other length is a malformed pixel buffer.
    pub fn assemble(width: u32, height: u32, bytes: Vec<u8>) -> (made: Result<PixelGrid, GpuError>)
        requires
            width > 0,
            height > 0,
        ensures
            made.is_ok() <==> bytes@.len() == byte_size(width as nat, height as nat),
            made.is_ok() ==> {
                &&& made.unwrap().columns() == width
                &&& made.unwrap().rows() == height
                &&& made.unwrap().bytes() == bytes@
            },
            made.is_err() ==> made.unwrap_err() == GpuError::MalformedPixelBuffer,
    {
        let given: usize = bytes.len();
        let expected = match buffer_size(width, height) {
            Some(n) => n,
            None => {
                return Err(GpuError::MalformedPixelBuffer);
            },
        };
        if given as u64 != expected {
            return Err(GpuError::MalformedPixelBuffer);
        }
        match rgba_from_raw(width, height, bytes) {
            Some(data) => Ok(PixelGrid { width, height, data }),
            None => Err(GpuError::MalformedPixelBuffer),
        }
    }

    /// Width in texels.
    pub fn width(&self) -> (w: u32)
        ensures
            w == self.columns(),
            w > 0,
    {
        proof {
            use_type_invariant(self);
        }
        self.width
    }

    /// Height in texels.
    pub fn height(&self) -> (h: u32)
        ensures
            h == self.rows(),
            h > 0,
    {
        proof {
            use_type_invariant(self);
        }
        self.height
    }

    /// The texel at column `x`, row `y`.
    pub fn pixel(&self, x: u32, y: u32) -> (p: Pixel)
        requires
            x < self.columns(),
            y < self.rows(),
        ensures
            p == pixel_at(self.bytes(), self.columns(), x as nat, y as nat),
    {
        proof {
            use_type_invariant(self);
        }
        let w: usize = self.width as usize;
        let xi: usize = x as usize;
        let yi: usize = y as usize;
        let len: usize = self.data.len();
        assert(0 <= yi * w && 4 * (yi * w + xi) + 3 < len) by (nonlinear_arith)
            requires
                xi < w,
                w == self.width,
                yi < self.height,
                len == self.width * self.height * 4,
        ;
        let base: usize = 4 * (yi * w + xi);
        Pixel {
            r: self.data[base],
            g: self.data[base + 1],
            b: self.data[base + 2],
            a: self.data[base + 3],
        }
    }

    /// The grid's bytes, unchanged, for the encoder: four for each texel.
    pub fn into_bytes(self) -> (bytes: Vec<u8>)
        ensures
            bytes@ == self.bytes(),
            bytes@.len() == byte_size(self.columns(), self.rows()),
    {
        proof {
            use_type_invariant(&self);
        }
        self.data
    }
}

} // verus!
