//! Pixels of a rendered view.

use vstd::prelude::*;

verus! {

/// One pixel: its four bytes in the order the engine stores them.
pub type Pixel = (u8, u8, u8, u8);

/// How many pixels a buffer of `width` by `height` holds, where that is a
/// count at all: the product, if it is not negative and fits in 32 bits.
pub open spec fn spec_pixel_count(width: i32, height: i32) -> Option<usize> {
    if 0 <= width * height <= i32::MAX {
        Some((width * height) as usize)
    } else {
        None
    }
}

/// The pixel that starts at byte `4 * i` of `bytes`.
pub open spec fn pixel_at(bytes: Seq<u8>, i: int) -> Pixel {
    (bytes[4 * i], bytes[4 * i + 1], bytes[4 * i + 2], bytes[4 * i + 3])
}

/// The pixels that `bytes` hold, four bytes each.
pub open spec fn pixels_of(bytes: Seq<u8>) -> Seq<Pixel> {
    Seq::new((bytes.len() / 4) as nat, |i: int| pixel_at(bytes, i))
}

/// Computes [`spec_pixel_count`].
pub fn pixel_count(width: i32, height: i32) -> (r: Option<usize>)
    ensures
        r == spec_pixel_count(width, height),
{
    let w: i64 = width as i64;
    let h: i64 = height as i64;
    assert(-0x8000_0000 * 0x8000_0000 <= w * h <= 0x8000_0000 * 0x8000_0000) by (nonlinear_arith)
        requires
            -0x8000_0000 <= w < 0x8000_0000,
            -0x8000_0000 <= h < 0x8000_0000,
    ;
    let product: i64 = w * h;
    if 0 <= product && product <= 0x7fff_ffff {
        Some(product as usize)
    } else {
        None
    }
}

/// A rendered frame: its size in pixels and the bytes of its pixels, row
/// after row.
pub struct AweRenderBuffer {
    width: i32,
    height: i32,
    bytes: Vec<u8>,
}

impl AweRenderBuffer {
    pub closed spec fn spec_width(&self) -> i32 {
        self.width
    }

    pub closed spec fn spec_height(&self) -> i32 {
        self.height
    }

    pub closed spec fn spec_bytes(&self) -> Seq<u8> {
        self.bytes@
    }

    /// The size is a pixel count and there are four bytes for each pixel.
    pub open spec fn wf(&self) -> bool {
        &&& spec_pixel_count(self.spec_width(), self.spec_height()) is Some
        &&& self.spec_bytes().len() == 4 * (self.spec_width() * self.spec_height())
    }

    /// Takes a frame of `width` by `height` pixels with its `bytes`, if
    /// the bytes are exactly those of that many pixels.
    pub fn new(width: i32, height: i32, bytes: Vec<u8>) -> (r: Option<AweRenderBuffer>)
        ensures
            r is Some <==> (spec_pixel_count(width, height) is Some && bytes@.len() == 4 * (width
                * height)),
            r matches Some(b) ==> b.wf() && b.spec_width() == width && b.spec_height() == height
                && b.spec_bytes() == bytes@,
    {
        match pixel_count(width, height) {
            None => None,
            Some(n) => {
                if bytes.len() % 4 == 0 && bytes.len() / 4 == n {
                    Some(AweRenderBuffer { width, height, bytes })
                } else {
                    None
                }
            },
        }
    }
}

/// The bytes of the frame's pixels.
pub fn awe_renderbuffer_get_buffer(buffer: &AweRenderBuffer) -> (r: &[u8])
    ensures
        r@ == buffer.spec_bytes(),
{
    buffer.bytes.as_slice()
}

/// The frame's pixels: as many as width times height, each made of four
/// bytes in a row.
pub fn awe_renderbuffer_get_buffer_slice(buffer: &AweRenderBuffer) -> (r: Vec<Pixel>)
    requires
        buffer.wf(),
    ensures
        r@ == pixels_of(buffer.spec_bytes()),
        r@.len() == buffer.spec_width() * buffer.spec_height(),
{
    let n: usize = buffer.bytes.len() / 4;
    let mut pixels: Vec<Pixel> = Vec::with_capacity(n);
    let mut i: usize = 0;
    while i < n
        invariant
            i <= n,
            n == buffer.bytes@.len() / 4,
            buffer.bytes@.len() == 4 * n,
            pixels@.len() == i,
            forall|j: int| 0 <= j < i ==> pixels@[j] == pixel_at(buffer.bytes@, j),
        decreases n - i,
    {
        assert(4 * i + 3 < buffer.bytes.len());
        let at: usize = 4 * i;
        pixels.push(
            (
                buffer.bytes[at],
                buffer.bytes[at + 1],
                buffer.bytes[at + 2],
                buffer.bytes[at + 3],
            ),
        );
        i += 1;
    }
    assert(pixels@ =~= pixels_of(buffer.spec_bytes()));
    pixels
}

/// The frame's width in pixels.
pub fn awe_renderbuffer_get_width(buffer: &AweRenderBuffer) -> (r: i32)
    ensures
        r == buffer.spec_width(),
{
    buffer.width
}

/// The frame's height in pixels.
pub fn awe_renderbuffer_get_height(buffer: &AweRenderBuffer) -> (r: i32)
    ensures
        r == buffer.spec_height(),
{
    buffer.height
}

} // verus!
