//! Pixel buffers: the atlas bitmap and the card images cut out of it.

use crate::geometry::{AtlasSize, Rect};
use vstd::prelude::*;

verus! {

/// Number of channels of a pixel: red, green, blue, alpha.
pub const CHANNELS: usize = 4;

/// A two-dimensional grid of RGBA pixels, row-major, four bytes a pixel.
#[derive(Debug, PartialEq, Eq)]
pub struct PixelBuffer {
    width: u32,
    height: u32,
    pixels: Vec<u8>,
}

/// Position of channel `c` of the pixel at column `x`, row `y` in a row-major
/// buffer that is `width` pixels wide.
pub open spec fn channel_offset(width: int, x: int, y: int, c: int) -> int {
    (y * width + x) * 4 + c
}

/// Offsets grow with the row, then the column, then the channel, and stay
/// below the size of a buffer that holds the row.
proof fn lemma_offset_bounds(width: int, height: int, x: int, y: int, c: int)
    requires
        0 <= x < width,
        0 <= y < height,
        0 <= c < 4,
    ensures
        0 <= y * width,
        y * width + x < width * height,
        0 <= channel_offset(width, x, y, c) < width * height * 4,
{
    assert(0 <= y * width && y * width + width <= width * height) by (nonlinear_arith)
        requires
            0 <= y < height,
            0 < width,
    ;
}

/// A position that comes earlier in row-major order has a smaller offset.
proof fn lemma_offset_order(width: int, x1: int, y1: int, c1: int, x2: int, y2: int)
    requires
        0 <= x1 < width,
        0 <= x2 <= width,
        0 <= y1,
        0 <= c1 < 4,
        y1 < y2 || (y1 == y2 && x1 < x2),
    ensures
        channel_offset(width, x1, y1, c1) < channel_offset(width, x2, y2, 0),
{
    if y1 < y2 {
        assert(y1 * width + width <= y2 * width) by (nonlinear_arith)
            requires
                y1 + 1 <= y2,
                0 < width,
        ;
    }
}

impl PixelBuffer {
    pub closed spec fn spec_width(&self) -> u32 {
        self.width
    }

    pub closed spec fn spec_height(&self) -> u32 {
        self.height
    }

    /// The bytes of the buffer, row by row.
    pub closed spec fn view(&self) -> Seq<u8> {
        self.pixels@
    }

    /// A buffer is valid when it holds exactly four bytes for each pixel.
    pub open spec fn wf(&self) -> bool {
        self@.len() == self.spec_width() * self.spec_height() * 4
    }

    pub open spec fn spec_size(&self) -> AtlasSize {
        AtlasSize { width: self.spec_width(), height: self.spec_height() }
    }

    /// Channel `c` of the pixel at column `x`, row `y`.
    pub open spec fn channel(&self, x: int, y: int, c: int) -> u8 {
        self@[channel_offset(self.spec_width() as int, x, y, c)]
    }

    /// Whether `other` is the part of `self` that `rect` covers, pixel for
    /// pixel and channel for channel.
    pub open spec fn is_crop(&self, rect: Rect, other: PixelBuffer) -> bool {
        &&& other.wf()
        &&& other.spec_width() == rect.width
        &&& other.spec_height() == rect.height
        &&& forall|x: int, y: int, c: int|
            0 <= x < rect.width && 0 <= y < rect.height && 0 <= c < 4 ==> #[trigger] other.channel(
                x,
                y,
                c,
            ) == self.channel(rect.x + x, rect.y + y, c)
    }

    /// Takes ownership of decoded pixel data. The data must hold at least four
    /// bytes for each pixel; bytes beyond the last pixel are dropped.
    pub fn new(width: u32, height: u32, pixels: Vec<u8>) -> (buffer: Option<PixelBuffer>)
        ensures
            pixels@.len() < width * height * 4 ==> buffer is None,
            pixels@.len() >= width * height * 4 ==> (buffer matches Some(b) && b.wf()
                && b.spec_width() == width && b.spec_height() == height && b@
                == pixels@.subrange(0, width * height * 4)),
    {
        assert(width * height * 4 <= 0xffff_ffff * 0xffff_ffff * 4) by (nonlinear_arith)
            requires
                0 <= width <= 0xffff_ffff,
                0 <= height <= 0xffff_ffff,
        ;
        let needed: u128 = (width as u128) * (height as u128) * 4;
        if (pixels.len() as u128) < needed {
            return None;
        }
        let mut pixels = pixels;
        pixels.truncate(needed as usize);
        Some(PixelBuffer { width, height, pixels })
    }

    #[verifier::when_used_as_spec(spec_width)]
    pub fn width(&self) -> (w: u32)
        ensures
            w == self.spec_width(),
    {
        self.width
    }

    #[verifier::when_used_as_spec(spec_height)]
    pub fn height(&self) -> (h: u32)
        ensures
            h == self.spec_height(),
    {
        self.height
    }

    #[verifier::when_used_as_spec(spec_size)]
    pub fn size(&self) -> (size: AtlasSize)
        ensures
            size == self.spec_size(),
    {
        AtlasSize { width: self.width, height: self.height }
    }

    /// The bytes of the buffer, row by row.
    pub fn pixels(&self) -> (bytes: &Vec<u8>)
        ensures
            bytes@ == self@,
    {
        &self.pixels
    }

    /// Copies the part of the buffer that `rect` covers into a buffer of its
    /// own, row by row, bytes unchanged. Gives `None` exactly when `rect` does
    /// not lie wholly inside.
    pub fn extract(&self, rect: Rect) -> (card: Option<PixelBuffer>)
        requires
            self.wf(),
        ensures
            card is Some <==> rect.within(self.spec_size()),
            card matches Some(image) ==> self.is_crop(rect, image),
    {
        let atlas_width: usize = self.width as usize;
        let atlas_height: usize = self.height as usize;
        if rect.x > atlas_width || rect.width > atlas_width - rect.x || rect.y > atlas_height
            || rect.height > atlas_height - rect.y {
            return None;
        }
        let total: usize = self.pixels.len();
        let mut out: Vec<u8> = Vec::new();
        let mut y: usize = 0;
        while y < rect.height
            invariant
                self.wf(),
                total == self@.len(),
                atlas_width == self.width,
                atlas_height == self.height,
                rect.within(self.spec_size()),
                y <= rect.height,
                out@.len() == channel_offset(rect.width as int, 0, y as int, 0),
                forall|px: int, py: int, c: int|
                    0 <= px < rect.width && 0 <= py < y && 0 <= c < 4 ==> #[trigger] out@[channel_offset(
                        rect.width as int,
                        px,
                        py,
                        c,
                    )] == self.channel(rect.x + px, rect.y + py, c),
            decreases rect.height - y,
        {
            let mut x: usize = 0;
            while x < rect.width
                invariant
                    self.wf(),
                    total == self@.len(),
                    atlas_width == self.width,
                    atlas_height == self.height,
                    rect.within(self.spec_size()),
                    y < rect.height,
                    x <= rect.width,
                    out@.len() == channel_offset(rect.width as int, x as int, y as int, 0),
                    forall|px: int, py: int, c: int|
                        0 <= px < rect.width && 0 <= c < 4 && (0 <= py < y || (py == y && px < x))
                            ==> #[trigger] out@[channel_offset(rect.width as int, px, py, c)]
                            == self.channel(rect.x + px, rect.y + py, c),
                decreases rect.width - x,
            {
                proof {
                    lemma_offset_bounds(
                        atlas_width as int,
                        atlas_height as int,
                        rect.x + x,
                        rect.y + y,
                        0,
                    );
                    lemma_offset_bounds(
                        atlas_width as int,
                        atlas_height as int,
                        rect.x + x,
                        rect.y + y,
                        3,
                    );
                }
                let source: usize = ((rect.y + y) * atlas_width + rect.x + x) * CHANNELS;
                let ghost before = out@;
                out.push(self.pixels[source]);
                out.push(self.pixels[source + 1]);
                out.push(self.pixels[source + 2]);
                out.push(self.pixels[source + 3]);
                proof {
                    assert forall|px: int, py: int, c: int|
                        0 <= px < rect.width && 0 <= c < 4 && (0 <= py < y || (py == y && px < x
                            + 1)) implies #[trigger] out@[channel_offset(
                        rect.width as int,
                        px,
                        py,
                        c,
                    )] == self.channel(rect.x + px, rect.y + py, c) by {
                        if py == y && px == x {
                            assert(channel_offset(rect.width as int, px, py, c) == before.len()
                                + c);
                        } else {
                            lemma_offset_order(
                                rect.width as int,
                                px,
                                py,
                                c,
                                x as int,
                                y as int,
                            );
                            assert(out@[channel_offset(rect.width as int, px, py, c)]
                                == before[channel_offset(rect.width as int, px, py, c)]);
                        }
                    }
                }
                x = x + 1;
            }
            y = y + 1;
            assert(channel_offset(rect.width as int, rect.width as int, y - 1, 0)
                == channel_offset(rect.width as int, 0, y as int, 0)) by (nonlinear_arith);
        }
        let image = PixelBuffer {
            width: rect.width as u32,
            height: rect.height as u32,
            pixels: out,
        };
        assert(image@.len() == rect.width * rect.height * 4) by (nonlinear_arith)
            requires
                image@.len() == (rect.height * rect.width + 0) * 4 + 0,
        ;
        Some(image)
    }
}

/// Why bytes were not accepted as an image.
#[derive(Debug, PartialEq, Eq)]
pub struct DecodeError {
    pub reason: String,
}

/// `image::ImageError`, declared without its content: only its text is
/// asked for.
#[verifier::external_type_specification]
#[verifier::external_body]
pub struct ExImageError(image::ImageError);

/// Calls `image::load_from_memory` and hands the picture out as 8-bit RGBA:
/// width, height and the bytes that `DynamicImage::to_rgba8` gives. Nothing
/// is claimed of the result: which formats are read depends on how `image`
/// was built and on the decoders registered with it.
#[verifier::external_body]
fn decode_rgba(bytes: &[u8]) -> (decoded: Result<(u32, u32, Vec<u8>), image::ImageError>) {
    let picture = image::load_from_memory(bytes)?.to_rgba8();
    Ok((picture.width(), picture.height(), picture.into_raw()))
}

/// Calls `to_string` on an `image::ImageError`: the text of the error.
#[verifier::external_body]
fn image_error_text(error: &image::ImageError) -> (text: String) {
    error.to_string()
}

/// The reason given for decoded data that is too short for its dimensions.
pub open spec fn truncated_reason() -> Seq<char> {
    "pixel data is shorter than the image dimensions"@
}

/// Makes a buffer of what a decoder gave: width, height and bytes. The
/// bytes must cover every pixel; bytes beyond the last pixel are dropped.
pub fn buffer_from_decoded(width: u32, height: u32, pixels: Vec<u8>) -> (result: Result<
    PixelBuffer,
    DecodeError,
>)
    ensures
        result is Ok <==> pixels@.len() >= width * height * 4,
        result matches Ok(b) ==> b.wf() && b.spec_width() == width && b.spec_height() == height
            && b@ == pixels@.subrange(0, width * height * 4),
        result matches Err(e) ==> e.reason@ == truncated_reason(),
{
    match PixelBuffer::new(width, height, pixels) {
        Some(buffer) => Ok(buffer),
        None => Err(
            DecodeError { reason: "pixel data is shorter than the image dimensions".to_owned() },
        ),
    }
}

/// Decodes the bytes of an image file into an RGBA buffer. Whether the
/// bytes are accepted is the decoder's decision; a buffer that comes back is
/// valid.
pub fn decode(bytes: &[u8]) -> (result: Result<PixelBuffer, DecodeError>)
    ensures
        result matches Ok(b) ==> b.wf(),
{
    match decode_rgba(bytes) {
        Ok((width, height, pixels)) => buffer_from_decoded(width, height, pixels),
        Err(error) => Err(DecodeError { reason: image_error_text(&error) }),
    }
}

} // verus!
