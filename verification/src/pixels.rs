//! Turning the bytes of an entry into pixels.
//!
//! Decoding never fails towards the caller: bytes that are no image that
//! the decoder knows give a fixed placeholder, so that one unreadable file
//! does not end a browsing session.

use vstd::prelude::*;

verus! {

/// `image::DynamicImage`, a decoded image kept as an opaque value.
#[verifier::external_type_specification]
#[verifier::external_body]
pub struct ExDynamicImage(image::DynamicImage);

/// What a decoded image holds: its extent, its sample layout, and its
/// samples.
pub struct Raster {
    /// The number of pixel columns.
    pub width: u32,
    /// The number of pixel rows.
    pub height: u32,
    /// Which of the decoder's color types the samples are laid out in.
    pub color: nat,
    /// The samples, row by row, as bytes.
    pub samples: Seq<u8>,
}

/// The contents of a decoded image.
pub uninterp spec fn raster(image: image::DynamicImage) -> Raster;

/// What `image::load_from_memory` makes of `bytes`: the contents of the
/// decoded image, or `None` where the call fails.
pub uninterp spec fn decoded(bytes: Seq<u8>) -> Option<Raster>;

/// The contents of the image that `image::DynamicImage::resize` with the
/// triangle filter makes of an image with contents `source`, for the bounds
/// `width` and `height`.
pub uninterp spec fn resampled(source: Raster, width: u32, height: u32) -> Raster;

/// The samples of the image that `image::DynamicImage::into_rgba8` makes of
/// an image with contents `source`: four bytes a pixel, row by row.
pub uninterp spec fn rgba_samples(source: Raster) -> Seq<u8>;

/// Calls `image::load_from_memory`, which guesses the format from the
/// first bytes and decodes with the decoder for it. The result is a
/// function of the bytes alone, that of [`decoded`].
#[verifier::external_body]
fn image_decode(bytes: &[u8]) -> (res: Option<image::DynamicImage>)
    ensures
        match res {
            Some(image) => decoded(bytes@) == Some(raster(image)),
            None => decoded(bytes@) is None,
        },
{
    image::load_from_memory(bytes).ok()
}

/// Calls `image::DynamicImage::width` and `image::DynamicImage::height`.
#[verifier::external_body]
fn image_extent(image: &image::DynamicImage) -> (extent: (u32, u32))
    ensures
        extent.0 == raster(*image).width,
        extent.1 == raster(*image).height,
{
    (image.width(), image.height())
}

/// Calls `image::DynamicImage::resize` with the triangle filter. The image
/// must have pixels and exceed the bounds in width or in height: the call
/// then scales down, keeping the aspect ratio, to an image whose contents
/// are those of [`resampled`].
#[verifier::external_body]
fn image_resize(image: &image::DynamicImage, width: u32, height: u32) -> (res:
    image::DynamicImage)
    requires
        raster(*image).width >= 1,
        raster(*image).height >= 1,
        raster(*image).width > width || raster(*image).height > height,
    ensures
        raster(res) == resampled(raster(*image), width, height),
{
    image.resize(width, height, image::imageops::FilterType::Triangle)
}

/// Calls `image::DynamicImage::into_rgba8` and takes the sample buffer out
/// of the image it returns.
#[verifier::external_body]
fn image_into_rgba(image: image::DynamicImage) -> (samples: Vec<u8>)
    ensures
        samples@ == rgba_samples(raster(image)),
{
    image.into_rgba8().into_raw()
}

/// Pixels ready for display: `width` times `height` pixels of four bytes
/// each, red, green, blue and alpha, row by row.
#[derive(Debug)]
pub struct PixelBuffer {
    width: u32,
    height: u32,
    rgba: Vec<u8>,
}

/// The mathematical value of a [`PixelBuffer`].
pub struct PixelView {
    pub width: u32,
    pub height: u32,
    pub rgba: Seq<u8>,
}

impl PixelView {
    /// The samples are as many as the extent asks for.
    pub open spec fn wf(self) -> bool {
        self.rgba.len() == 4 * (self.width * self.height)
    }

    /// The placeholder shown for an entry that cannot be decoded: two by
    /// two pixels, dark and light grey like the squares of a chessboard.
    pub open spec fn placeholder() -> PixelView {
        PixelView {
            width: 2,
            height: 2,
            rgba: seq![
                64u8, 64u8, 64u8, 255u8,
                192u8, 192u8, 192u8, 255u8,
                192u8, 192u8, 192u8, 255u8,
                64u8, 64u8, 64u8, 255u8,
            ],
        }
    }

    /// Whether an image of this extent is scaled down to fit `max_width`
    /// by `max_height`: it is where it exceeds one of them and has pixels.
    pub open spec fn exceeds(width: u32, height: u32, max_width: u32, max_height: u32) -> bool {
        (width > max_width || height > max_height) && width >= 1 && height >= 1
    }

    /// The pixels of an image with contents `source`.
    pub open spec fn of_raster(source: Raster) -> PixelView {
        PixelView { width: source.width, height: source.height, rgba: rgba_samples(source) }
    }

    /// The pixels shown for an entry with the given bytes on a display of
    /// `max_width` by `max_height`.
    ///
    /// Bytes that do not decode give the placeholder. An image that exceeds
    /// the display is scaled down to fit it; any other is shown as it is.
    /// Should the decoder hand back samples that do not match the extent it
    /// states, the placeholder stands in as well.
    pub open spec fn rendered(bytes: Seq<u8>, max_width: u32, max_height: u32) -> PixelView {
        match decoded(bytes) {
            None => PixelView::placeholder(),
            Some(source) => {
                let fitted = if PixelView::exceeds(
                    source.width,
                    source.height,
                    max_width,
                    max_height,
                ) {
                    resampled(source, max_width, max_height)
                } else {
                    source
                };
                if PixelView::of_raster(fitted).wf() {
                    PixelView::of_raster(fitted)
                } else {
                    PixelView::placeholder()
                }
            },
        }
    }
}

impl View for PixelBuffer {
    type V = PixelView;

    closed spec fn view(&self) -> PixelView {
        PixelView { width: self.width, height: self.height, rgba: self.rgba@ }
    }
}

impl PixelBuffer {
    /// Pixels of the given extent, where `rgba` holds as many samples as
    /// the extent asks for; `None` where it does not.
    pub fn new(width: u32, height: u32, rgba: Vec<u8>) -> (res: Option<PixelBuffer>)
        ensures
            match res {
                Some(pixels) => pixels@ == (PixelView { width, height, rgba: rgba@ })
                    && pixels@.wf(),
                None => !(PixelView { width, height, rgba: rgba@ }).wf(),
            },
    {
        assert(width * height <= 0xffff_ffff * 0xffff_ffff) by (nonlinear_arith)
            requires
                0 <= width <= 0xffff_ffff,
                0 <= height <= 0xffff_ffff,
        ;
        let pixels: u64 = (width as u64) * (height as u64);
        let len: u64 = rgba.len() as u64;
        if len % 4 == 0 && len / 4 == pixels {
            Some(PixelBuffer { width, height, rgba })
        } else {
            None
        }
    }

    /// The number of pixel columns.
    pub fn width(&self) -> (width: u32)
        ensures
            width == self@.width,
    {
        self.width
    }

    /// The number of pixel rows.
    pub fn height(&self) -> (height: u32)
        ensures
            height == self@.height,
    {
        self.height
    }

    /// The samples: four bytes a pixel, row by row.
    pub fn rgba(&self) -> (rgba: &Vec<u8>)
        ensures
            rgba@ == self@.rgba,
    {
        &self.rgba
    }
}

/// The placeholder shown for an entry that cannot be decoded.
pub fn broken() -> (pixels: PixelBuffer)
    ensures
        pixels@ == PixelView::placeholder(),
        pixels@.wf(),
{
    let rgba: Vec<u8> = vec![
        64u8, 64u8, 64u8, 255u8,
        192u8, 192u8, 192u8, 255u8,
        192u8, 192u8, 192u8, 255u8,
        64u8, 64u8, 64u8, 255u8,
    ];
    let pixels = PixelBuffer { width: 2, height: 2, rgba };
    assert(pixels@.rgba =~= PixelView::placeholder().rgba);
    assert(pixels@.rgba.len() == 16);
    assert(pixels@.width * pixels@.height == 4) by (nonlinear_arith)
        requires
            pixels@.width == 2,
            pixels@.height == 2,
    ;
    pixels
}

/// Decodes `buf` for a display of `base_res[0]` by `base_res[1]` pixels;
/// see [`PixelView::rendered`].
pub fn render_image(buf: &[u8], base_res: &[u32; 2]) -> (pixels: PixelBuffer)
    ensures
        pixels@ == PixelView::rendered(buf@, base_res@[0], base_res@[1]),
        pixels@.wf(),
{
    let base_w: u32 = base_res[0];
    let base_h: u32 = base_res[1];
    match image_decode(buf) {
        None => broken(),
        Some(image) => {
            let (w, h) = image_extent(&image);
            let fitted = if (w > base_w || h > base_h) && w >= 1 && h >= 1 {
                image_resize(&image, base_w, base_h)
            } else {
                image
            };
            let (w, h) = image_extent(&fitted);
            match PixelBuffer::new(w, h, image_into_rgba(fitted)) {
                Some(pixels) => pixels,
                None => broken(),
            }
        },
    }
}

} // verus!
