//! The picture that is made of the window's pixels.
use image::{DynamicImage, ImageBuffer, Rgba};
use vstd::pervasive::unreached;
use vstd::prelude::*;

verus! {

/// `image::DynamicImage`: a picture in one of several color formats.
#[verifier::external_type_specification]
#[verifier::external_body]
pub struct ExDynamicImage(image::DynamicImage);

/// The width and the height of a picture.
pub uninterp spec fn image_size(image: DynamicImage) -> (u32, u32);

/// The samples of a picture with red, green, blue and alpha of eight bits each, row by row
/// from the top.
pub uninterp spec fn image_samples(image: DynamicImage) -> Seq<u8>;

/// The color formats of pictures.
pub enum ImageFormat {
    Luma8,
    LumaA8,
    Rgb8,
    Rgba8,
    Bgr8,
    Bgra8,
    Luma16,
    LumaA16,
    Rgb16,
    Rgba16,
}

/// The color format of a picture.
pub uninterp spec fn image_format(image: DynamicImage) -> ImageFormat;

/// What is known of a picture.
pub struct ImageView {
    pub format: ImageFormat,
    pub width: nat,
    pub height: nat,
    pub samples: Seq<u8>,
}

/// What is known of a picture.
pub open spec fn image_view(image: DynamicImage) -> ImageView {
    ImageView {
        format: image_format(image),
        width: image_size(image).0 as nat,
        height: image_size(image).1 as nat,
        samples: image_samples(image),
    }
}

/// `image::ImageBuffer::from_raw`, for pixels of four bytes: a picture of the given size, in
/// the format of the variant `DynamicImage::ImageRgba8` that it is put in, that holds four of `samples` for each pixel, if there are as many. The size is bounded so
/// that the number of bytes in a row can be computed.
#[verifier::external_body]
fn rgba_image(width: u32, height: u32, samples: Vec<u8>) -> (image: Option<DynamicImage>)
    requires
        width <= 0xffff,
    ensures
        image is Some <==> 4 * width * height <= samples@.len(),
        image matches Some(picture) ==> image_format(picture) == ImageFormat::Rgba8,
        image matches Some(picture) ==> image_size(picture) == (width, height),
        image matches Some(picture) ==> image_samples(picture) == samples@.take(
            4 * width * height,
        ),
{
    ImageBuffer::<Rgba<u8>, Vec<u8>>::from_raw(width, height, samples).map(DynamicImage::ImageRgba8)
}

/// The bytes of some pixels.
pub open spec fn bytes(pixels: Seq<[u8; 4]>) -> Seq<u8> {
    Seq::new(4 * pixels.len(), |i: int| pixels[i / 4][i % 4])
}

/// The first `rows` rows of `width` pixels each, in reversed order.
pub open spec fn bottom_up(width: nat, rows: nat, pixels: Seq<[u8; 4]>) -> Seq<[u8; 4]>
    decreases rows,
{
    if rows == 0 {
        Seq::empty()
    } else {
        pixels.subrange((rows - 1) * width, (rows * width) as int) + bottom_up(
            width,
            (rows - 1) as nat,
            pixels,
        )
    }
}

/// The bytes of two runs of pixels are the bytes of the first, then those of the second.
proof fn lemma_bytes_concat(first: Seq<[u8; 4]>, second: Seq<[u8; 4]>)
    ensures
        bytes(first + second) == bytes(first) + bytes(second),
{
    let joined = bytes(first) + bytes(second);
    assert forall|i: int| 0 <= i < joined.len() implies bytes(first + second)[i] == joined[i] by {
        if i >= 4 * first.len() {
            assert(i / 4 - first.len() == (i - 4 * first.len()) / 4);
            assert(i % 4 == (i - 4 * first.len()) % 4);
        }
    }
    assert(bytes(first + second) =~= joined);
}

/// Appends the bytes of a pixel.
fn push_pixel(samples: &mut Vec<u8>, pixel: [u8; 4])
    ensures
        final(samples)@ == old(samples)@ + bytes(seq![pixel]),
{
    samples.push(pixel[0]);
    samples.push(pixel[1]);
    samples.push(pixel[2]);
    samples.push(pixel[3]);
    assert(samples@ =~= old(samples)@ + bytes(seq![pixel]));
}

/// `rows` rows have `width` pixels each.
pub(crate) proof fn lemma_bottom_up_len(width: nat, rows: nat, pixels: Seq<[u8; 4]>)
    requires
        rows * width <= pixels.len(),
    ensures
        bottom_up(width, rows, pixels).len() == rows * width,
    decreases rows,
{
    if rows > 0 {
        assert(rows * width == (rows - 1) * width + width && 0 <= (rows - 1) * width)
            by (nonlinear_arith)
            requires
                rows > 0,
        ;
        lemma_bottom_up_len(width, (rows - 1) as nat, pixels);
    } else {
        assert(rows * width == 0) by (nonlinear_arith)
            requires
                rows == 0,
        ;
    }
}

/// The whole rows of `width` pixels, in reversed order, as bytes. What is left over beyond
/// the last whole row is dropped.
pub fn flip_rows(width: usize, pixels: &Vec<[u8; 4]>) -> (samples: Vec<u8>)
    requires
        width > 0,
    ensures
        samples@ == bytes(bottom_up(width as nat, pixels@.len() / (width as nat), pixels@)),
{
    let count: usize = pixels.len();
    let rows: usize = count / width;
    let mut samples: Vec<u8> = Vec::new();
    let mut row: usize = rows;
    proof {
        assert(rows * width <= pixels@.len()) by (nonlinear_arith)
            requires
                rows == pixels@.len() / (width as nat),
                width > 0,
        ;
        assert(samples@ + bytes(bottom_up(width as nat, row as nat, pixels@)) =~= bytes(
            bottom_up(width as nat, rows as nat, pixels@),
        ));
    }
    while row > 0
        invariant
            0 <= row <= rows,
            rows * width <= count == pixels@.len(),
            samples@ + bytes(bottom_up(width as nat, row as nat, pixels@)) == bytes(
                bottom_up(width as nat, rows as nat, pixels@),
            ),
        decreases row,
    {
        let ghost before = samples@;
        let ghost whole = pixels@.subrange((row - 1) * width, row * width);
        let ghost rest = bottom_up(width as nat, (row - 1) as nat, pixels@);
        proof {
            assert(0 <= (row - 1) * width && (row - 1) * width + width == row * width && row * width
                <= rows * width) by (nonlinear_arith)
                requires
                    0 < row <= rows,
            ;
        }
        row = row - 1;
        let start: usize = row * width;
        let mut column: usize = 0;
        assert(before + bytes(whole.take(0)) =~= before);
        while column < width
            invariant
                0 <= column <= width,
                start == row * width,
                start + width <= count == pixels@.len(),
                whole == pixels@.subrange(start as int, start + width),
                samples@ == before + bytes(whole.take(column as int)),
            decreases width - column,
        {
            push_pixel(&mut samples, pixels[start + column]);
            proof {
                let pixel = pixels@[start + column];
                assert(whole.take(column + 1) =~= whole.take(column as int) + seq![pixel]);
                lemma_bytes_concat(whole.take(column as int), seq![pixel]);
                assert(samples@ =~= before + bytes(whole.take(column + 1)));
            }
            column = column + 1;
        }
        proof {
            assert(whole.take(width as int) =~= whole);
            lemma_bytes_concat(whole, rest);
            assert(samples@ + bytes(rest) =~= before + bytes(whole + rest));
        }
    }
    assert(samples@ + bytes(bottom_up(width as nat, 0, pixels@)) =~= samples@);
    samples
}

/// The picture of a window: the rows of the buffer, which begin at the bottom, from the
/// top.
pub open spec fn picture_of(width: u16, height: u16, pixels: Seq<[u8; 4]>) -> ImageView {
    ImageView {
        format: ImageFormat::Rgba8,
        width: width as nat,
        height: height as nat,
        samples: bytes(bottom_up(width as nat, height as nat, pixels)),
    }
}

/// Makes a picture of the pixels of a window, which has as many pixels as its size says.
pub fn picture(width: u16, height: u16, pixels: &Vec<[u8; 4]>) -> (image: DynamicImage)
    requires
        width > 0,
        pixels@.len() == width * height,
    ensures
        image_view(image) == picture_of(width, height, pixels@),
{
    proof {
        assert(pixels@.len() / (width as nat) == height) by (nonlinear_arith)
            requires
                pixels@.len() == width * height,
                width > 0,
        ;
        assert(width * height == height * width) by (nonlinear_arith);
        lemma_bottom_up_len(width as nat, height as nat, pixels@);
        assert(4 * (width * height) == 4 * width * height) by (nonlinear_arith);
    }
    let samples = flip_rows(width as usize, pixels);
    assert(samples@.take(4 * width * height) =~= samples@);
    match rgba_image(width as u32, height as u32, samples) {
        Some(image) => image,
        None => unreached(),
    }
}

} // verus!
