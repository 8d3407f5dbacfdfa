//! Images as dense RGB rasters.
//!
//! An image is `height` rows of `width` pixels, a pixel being three bytes:
//! red, green, blue. The rows follow one another without padding.

use vstd::prelude::*;
use vstd::slice::{slice_subrange, slice_to_vec};

verus! {

/// The number of bytes of one pixel.
pub const CHANNELS: usize = 3;

/// The number of bytes that an image of this size takes.
pub open spec fn raster_len(width: nat, height: nat) -> nat {
    CHANNELS as nat * width * height
}

/// The place in a buffer of blue, green and red at which the byte stands
/// that place `i` holds in a buffer of red, green and blue: the same pixel,
/// the channels in reverse.
pub open spec fn mirrored(i: int) -> int {
    i - i % (CHANNELS as int) + (CHANNELS - 1 - i % (CHANNELS as int))
}

/// The byte buffer handed to [`ImageMatrix::new`] is shorter than the image.
#[derive(Copy, Clone, Debug, PartialEq, Eq, Structural)]
pub struct BufferSizeError {
    pub width: usize,
    pub height: usize,
    /// The length of the buffer that was given.
    pub len: usize,
}

/// An RGB image buffer of the `image` crate, with `u8` samples in a `Vec`.
#[verifier::external_body]
pub struct RgbBuffer {
    inner: image::RgbImage,
}

/// The width, in pixels, that the buffer was made with.
pub uninterp spec fn buffer_width(buffer: RgbBuffer) -> nat;

/// The height, in pixels, that the buffer was made with.
pub uninterp spec fn buffer_height(buffer: RgbBuffer) -> nat;

/// The samples that the buffer holds, all of them.
pub uninterp spec fn buffer_samples(buffer: RgbBuffer) -> Seq<u8>;

/// Whether `len` samples make a `width` by `height` buffer: there are three
/// for each pixel, and the samples of one row can be counted in a `usize`.
pub open spec fn fills_buffer(width: nat, height: nat, len: nat) -> bool {
    CHANNELS as nat * width <= usize::MAX && raster_len(width, height) <= len
}

/// `image::ImageBuffer::from_raw`: a buffer over the given samples where
/// they make a `width` by `height` buffer, and `None` where they do not.
/// The buffer made holds the size and the samples that were given.
#[verifier::external_body]
fn buffer_from_raw(width: u32, height: u32, samples: Vec<u8>) -> (made: Option<RgbBuffer>)
    ensures
        made is Some <==> fills_buffer(width as nat, height as nat, samples@.len()),
        made matches Some(buffer) ==> buffer_width(buffer) == width && buffer_height(buffer)
            == height && buffer_samples(buffer) == samples@,
{
    match image::ImageBuffer::from_raw(width, height, samples) {
        Some(inner) => Some(RgbBuffer { inner }),
        None => None,
    }
}

/// `image::ImageBuffer::width`: the width that the buffer was made with.
#[verifier::external_body]
fn buffer_width_of(buffer: &RgbBuffer) -> (width: u32)
    ensures
        width == buffer_width(*buffer),
{
    buffer.inner.width()
}

/// `image::ImageBuffer::height`: the height that the buffer was made with.
#[verifier::external_body]
fn buffer_height_of(buffer: &RgbBuffer) -> (height: u32)
    ensures
        height == buffer_height(*buffer),
{
    buffer.inner.height()
}

/// `image::ImageBuffer::as_raw`: the samples of the buffer. Every way of
/// making a buffer checks that it holds at least three samples per pixel,
/// and no method changes their number.
#[verifier::external_body]
fn buffer_as_raw(buffer: &RgbBuffer) -> (samples: &Vec<u8>)
    ensures
        samples@ == buffer_samples(*buffer),
        raster_len(buffer_width(*buffer), buffer_height(*buffer)) <= samples@.len(),
{
    buffer.inner.as_raw()
}

impl RgbBuffer {
    /// A buffer over `samples`, or `None` where they do not make a `width`
    /// by `height` buffer.
    pub fn from_raw(width: u32, height: u32, samples: Vec<u8>) -> (made: Option<Self>)
        ensures
            made is Some <==> fills_buffer(width as nat, height as nat, samples@.len()),
            made matches Some(buffer) ==> buffer_width(buffer) == width && buffer_height(buffer)
                == height && buffer_samples(buffer) == samples@,
    {
        buffer_from_raw(width, height, samples)
    }

    pub fn width(&self) -> (width: u32)
        ensures
            width == buffer_width(*self),
    {
        buffer_width_of(self)
    }

    pub fn height(&self) -> (height: u32)
        ensures
            height == buffer_height(*self),
    {
        buffer_height_of(self)
    }
}

/// An image, owned and never changed once made.
#[derive(Debug)]
pub struct ImageMatrix {
    width: usize,
    height: usize,
    samples: Vec<u8>,
}

impl ImageMatrix {
    #[verifier::type_invariant]
    spec fn holds_every_pixel(self) -> bool {
        self.samples@.len() == raster_len(self.width as nat, self.height as nat)
    }

    /// The number of pixels in a row.
    pub closed spec fn spec_width(&self) -> nat {
        self.width as nat
    }

    /// The number of rows.
    pub closed spec fn spec_height(&self) -> nat {
        self.height as nat
    }

    /// The bytes of the image, row after row.
    pub closed spec fn samples(&self) -> Seq<u8> {
        self.samples@
    }

    /// The image holds three bytes for each of its pixels. Every image that
    /// executable code holds is valid.
    pub open spec fn is_valid(&self) -> bool {
        self.samples().len() == raster_len(self.spec_width(), self.spec_height())
    }

    /// The place of the first byte of pixel `(x, y)` in the bytes.
    pub open spec fn offset(&self, x: nat, y: nat) -> int {
        CHANNELS as int * (y * self.spec_width() + x)
    }

    /// The red, green and blue of pixel `(x, y)`.
    pub open spec fn pixel(&self, x: nat, y: nat) -> (u8, u8, u8)
        recommends
            x < self.spec_width(),
            y < self.spec_height(),
    {
        (
            self.samples()[self.offset(x, y)],
            self.samples()[self.offset(x, y) + 1],
            self.samples()[self.offset(x, y) + 2],
        )
    }

    /// Copies an image out of `bytes`, which hold red, green and blue of
    /// each pixel, row after row. Fails exactly where `bytes` are fewer than
    /// three per pixel; bytes beyond the image are left aside.
    pub fn new(width: usize, height: usize, bytes: &[u8]) -> (made: Result<Self, BufferSizeError>)
        ensures
            match made {
                Ok(image) => {
                    &&& raster_len(width as nat, height as nat) <= bytes@.len()
                    &&& image.is_valid()
                    &&& image.spec_width() == width
                    &&& image.spec_height() == height
                    &&& image.samples() == bytes@.subrange(
                        0,
                        raster_len(width as nat, height as nat) as int,
                    )
                },
                Err(error) => {
                    &&& raster_len(width as nat, height as nat) > bytes@.len()
                    &&& error == (BufferSizeError { width, height, len: bytes@.len() as usize })
                },
            },
    {
        let refused = Err(BufferSizeError { width, height, len: bytes.len() });
        match raster_bytes(width, height) {
            Some(needed) => {
                if needed <= bytes.len() {
                    let samples = slice_to_vec(slice_subrange(bytes, 0, needed));
                    Ok(Self { width, height, samples })
                } else {
                    refused
                }
            },
            None => refused,
        }
    }

    /// Copies an image out of `bytes` that hold blue, green and red of each
    /// pixel, in this order, row after row: the image holds red, green and
    /// blue of the same pixels. Fails exactly where [`ImageMatrix::new`] does.
    pub fn from_bgr(width: usize, height: usize, bytes: &[u8]) -> (made: Result<
        Self,
        BufferSizeError,
    >)
        ensures
            match made {
                Ok(image) => {
                    &&& raster_len(width as nat, height as nat) <= bytes@.len()
                    &&& image.is_valid()
                    &&& image.spec_width() == width
                    &&& image.spec_height() == height
                    &&& forall|i: int|
                        0 <= i < image.samples().len() ==> image.samples()[i] == bytes@[mirrored(i)]
                },
                Err(error) => {
                    &&& raster_len(width as nat, height as nat) > bytes@.len()
                    &&& error == (BufferSizeError { width, height, len: bytes@.len() as usize })
                },
            },
    {
        let refused = Err(BufferSizeError { width, height, len: bytes.len() });
        match raster_bytes(width, height) {
            Some(needed) => {
                if needed <= bytes.len() {
                    proof {
                        lemma_raster_len_grows(width as nat, height as nat);
                    }
                    let mut samples: Vec<u8> = Vec::with_capacity(needed);
                    let mut at: usize = 0;
                    while at < needed
                        invariant
                            at <= needed <= bytes@.len(),
                            at % CHANNELS == 0,
                            needed % CHANNELS == 0,
                            samples@.len() == at,
                            forall|i: int| 0 <= i < at ==> samples@[i] == bytes@[mirrored(i)],
                        decreases needed - at,
                    {
                        samples.push(bytes[at + 2]);
                        samples.push(bytes[at + 1]);
                        samples.push(bytes[at]);
                        at += CHANNELS;
                    }
                    Ok(Self { width, height, samples })
                } else {
                    refused
                }
            },
            None => refused,
        }
    }

    /// Copy a matrix from an RGB image buffer.
    pub fn from_image(image: &RgbBuffer) -> (copy: Self)
        ensures
            copy.is_valid(),
            copy.spec_width() == buffer_width(*image),
            copy.spec_height() == buffer_height(*image),
            copy.samples() == buffer_samples(*image).subrange(
                0,
                raster_len(buffer_width(*image), buffer_height(*image)) as int,
            ),
    {
        let width = buffer_width_of(image) as usize;
        let height = buffer_height_of(image) as usize;
        let bytes = buffer_as_raw(image);
        match Self::new(width, height, bytes.as_slice()) {
            Ok(copy) => copy,
            // a buffer is never shorter than its size asks for
            Err(_) => Self::empty(),
        }
    }

    /// The image without pixels.
    pub fn empty() -> (image: Self)
        ensures
            image.is_valid(),
            image.spec_width() == 0,
            image.spec_height() == 0,
            image.samples() == Seq::<u8>::empty(),
    {
        let image = Self { width: 0, height: 0, samples: Vec::new() };
        assert(image.samples@ =~= Seq::<u8>::empty());
        image
    }

    pub fn width(&self) -> (width: usize)
        ensures
            width == self.spec_width(),
    {
        self.width
    }

    pub fn height(&self) -> (height: usize)
        ensures
            height == self.spec_height(),
    {
        self.height
    }

    /// The bytes of the image, row after row.
    pub fn as_bytes(&self) -> (bytes: &[u8])
        ensures
            bytes@ == self.samples(),
            self.is_valid(),
    {
        proof {
            use_type_invariant(self);
        }
        self.samples.as_slice()
    }

    /// The red, green and blue of pixel `(x, y)`, or `None` where the image
    /// has no such pixel.
    pub fn get_pixel(&self, x: usize, y: usize) -> (rgb: Option<(u8, u8, u8)>)
        ensures
            rgb == (if x < self.spec_width() && y < self.spec_height() {
                Some(self.pixel(x as nat, y as nat))
            } else {
                None
            }),
    {
        proof {
            use_type_invariant(self);
        }
        if x < self.width && y < self.height {
            let len = self.samples.len();
            proof {
                lemma_pixel_in_raster(self.width as nat, self.height as nat, x as nat, y as nat);
                assert(CHANNELS * (y * self.width + x) + 2 < len);
            }
            let at = CHANNELS * (y * self.width + x);
            Some((self.samples[at], self.samples[at + 1], self.samples[at + 2]))
        } else {
            None
        }
    }
}

impl Default for ImageMatrix {
    fn default() -> (image: Self)
        ensures
            image.is_valid(),
            image.spec_width() == 0,
            image.spec_height() == 0,
    {
        Self::empty()
    }
}

/// The number of bytes of a `width` by `height` image, or `None` where it
/// does not fit in a `usize`.
pub fn raster_bytes(width: usize, height: usize) -> (len: Option<usize>)
    ensures
        len == (if raster_len(width as nat, height as nat) <= usize::MAX {
            Some(raster_len(width as nat, height as nat) as usize)
        } else {
            None
        }),
{
    match CHANNELS.checked_mul(width) {
        Some(row) => {
            proof {
                lemma_raster_len_grows(width as nat, height as nat);
            }
            row.checked_mul(height)
        },
        None => {
            proof {
                lemma_raster_len_grows(width as nat, height as nat);
            }
            if height == 0 {
                Some(0)
            } else {
                None
            }
        },
    }
}

/// With at least one row an image takes no fewer bytes than one row does.
proof fn lemma_raster_len_grows(width: nat, height: nat)
    ensures
        raster_len(width, height) == (CHANNELS as nat * width) * height,
        raster_len(width, height) % CHANNELS as nat == 0,
        height > 0 ==> raster_len(width, height) >= CHANNELS as nat * width,
        height == 0 ==> raster_len(width, height) == 0,
{
    assert(raster_len(width, height) == (CHANNELS as nat * width) * height) by (nonlinear_arith);
    assert(raster_len(width, height) == 3 * (width * height)) by (nonlinear_arith);
    if height > 0 {
        assert((CHANNELS as nat * width) * height >= CHANNELS as nat * width) by (nonlinear_arith)
            requires
                height > 0,
        ;
    }
}

/// The three bytes of a pixel of the image lie within its bytes.
proof fn lemma_pixel_in_raster(width: nat, height: nat, x: nat, y: nat)
    requires
        x < width,
        y < height,
    ensures
        y * width + x < width * height,
        CHANNELS as nat * (y * width + x) + 2 < raster_len(width, height),
{
    assert(y * width + x < width * height) by (nonlinear_arith)
        requires
            x < width,
            y < height,
    ;
    assert(raster_len(width, height) == CHANNELS as nat * (width * height)) by (nonlinear_arith);
}

} // verus!
