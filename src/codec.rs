//! Decoding source images to raw pixels and downscaling them for thumbnails.
use vstd::prelude::*;

verus! {

/// How the bytes of one pixel are laid out.
#[derive(Debug, Clone, Copy, PartialEq, Eq, Structural)]
pub enum PixelLayout {
    Rgb,
    Rgba,
}

impl PixelLayout {
    pub open spec fn spec_channels(self) -> nat {
        match self {
            PixelLayout::Rgb => 3,
            PixelLayout::Rgba => 4,
        }
    }

    /// Bytes per pixel.
    pub fn channels(self) -> (r: u8)
        ensures
            r == self.spec_channels(),
    {
        match self {
            PixelLayout::Rgb => 3,
            PixelLayout::Rgba => 4,
        }
    }
}

/// A raw image: rows of pixels, top to bottom, without padding.
#[derive(Debug)]
pub struct PixelBuffer {
    pub width: u32,
    pub height: u32,
    pub layout: PixelLayout,
    pub pixels: Vec<u8>,
}

/// The step of thumbnail generation at which something went wrong.
#[derive(Debug, Clone, Copy, PartialEq, Eq, Structural)]
pub enum FailureStage {
    /// The source file could not be read.
    Read,
    /// The decoder rejected the data.
    Decode,
    /// Pixels that are neither RGB nor RGBA (palette, grayscale, ...).
    UnsupportedLayout,
    /// The pixel bytes do not number width times height times channels.
    BufferSize,
    /// Downscaling would leave a width or a height of zero.
    ZeroScaledSize,
    /// The resizer failed.
    Resize,
    /// The JPEG encoder failed.
    Encode,
    /// The JPEG encoder produced no bytes.
    EmptyEncoding,
    /// The thumbnail could not be written to the cache.
    Write,
}

/// Why a thumbnail could not be made, with the detail that the failing part reported.
#[derive(Debug)]
pub struct ThumbnailError {
    pub stage: FailureStage,
    pub detail: String,
}

/// An error of the given stage with a description.
pub fn failure(stage: FailureStage, detail: &str) -> (r: ThumbnailError)
    ensures
        r.stage == stage,
        r.detail@ == detail@,
{
    ThumbnailError { stage, detail: detail.to_owned() }
}

/// Number of bytes that `width` by `height` pixels of `layout` take.
pub open spec fn frame_len(width: u32, height: u32, layout: PixelLayout) -> int {
    width * height * layout.spec_channels()
}

/// Size and layout of the thumbnail of a decoded image, or the stage that fails:
/// a layout other than RGB or RGBA, a buffer whose length does not match the
/// size, or a side that one eighth rounds down to zero.
pub open spec fn eighth_scale_plan(
    width: u32,
    height: u32,
    layout: Option<PixelLayout>,
    pixels: Seq<u8>,
) -> Result<(u32, u32, PixelLayout), FailureStage> {
    match layout {
        None => Err(FailureStage::UnsupportedLayout),
        Some(l) => if pixels.len() != frame_len(width, height, l) {
            Err(FailureStage::BufferSize)
        } else if width / 8 == 0 || height / 8 == 0 {
            Err(FailureStage::ZeroScaledSize)
        } else {
            Ok(((width / 8) as u32, (height / 8) as u32, l))
        },
    }
}

/// Pixels that nearest-neighbour resampling of an image to a new size gives.
pub uninterp spec fn nearest_resized(
    pixels: Seq<u8>,
    layout: PixelLayout,
    width: u32,
    height: u32,
    new_width: u32,
    new_height: u32,
) -> Seq<u8>;

/// Relies on fast_image_resize: `Image::from_vec_u8` wraps the source pixels
/// and fails only on a buffer shorter than the image (a `u8` buffer is always
/// aligned); `Image::new` makes a destination of the new size and the same
/// pixel type; `Resizer::resize` with `ResizeAlg::Nearest` fails only on
/// different pixel types or a crop outside the source, neither of which can
/// happen here, copies the source when the sizes are equal, and otherwise
/// fills the destination from the source alone.
#[verifier::external_body]
fn resize_nearest(
    pixels: Vec<u8>,
    layout: PixelLayout,
    width: u32,
    height: u32,
    new_width: u32,
    new_height: u32,
) -> (r: Result<Vec<u8>, String>)
    ensures
        pixels@.len() >= frame_len(width, height, layout) ==> r is Ok,
        r matches Ok(out) ==> out@ == nearest_resized(
            pixels@,
            layout,
            width,
            height,
            new_width,
            new_height,
        ),
        r matches Ok(out) ==> out@.len() == frame_len(new_width, new_height, layout),
        r matches Ok(out) ==> (new_width == width && new_height == height && pixels@.len()
            == frame_len(width, height, layout) ==> out@ == pixels@),
{
    let pixel_type = match layout {
        PixelLayout::Rgb => fast_image_resize::PixelType::U8x3,
        PixelLayout::Rgba => fast_image_resize::PixelType::U8x4,
    };
    let source = fast_image_resize::images::Image::from_vec_u8(width, height, pixels, pixel_type)
        .map_err(|e| e.to_string())?;
    let mut destination = fast_image_resize::images::Image::new(new_width, new_height, pixel_type);
    let options = fast_image_resize::ResizeOptions::new().resize_alg(fast_image_resize::ResizeAlg::Nearest);
    fast_image_resize::Resizer::new()
        .resize(&source, &mut destination, &options)
        .map_err(|e| e.to_string())?;
    Ok(destination.into_vec())
}

/// Each side divided by eight, rounded down.
pub fn scale_to_eighth(width: u32, height: u32) -> (r: (u32, u32))
    ensures
        r == ((width / 8) as u32, (height / 8) as u32),
{
    (width / 8, height / 8)
}

/// Whether `pixels` holds exactly `width` by `height` pixels of `layout`.
pub fn frame_len_matches(pixels: &Vec<u8>, width: u32, height: u32, layout: PixelLayout) -> (r:
    bool)
    ensures
        r == (pixels@.len() == frame_len(width, height, layout)),
{
    let w: u128 = width as u128;
    let h: u128 = height as u128;
    assert(w * h <= 0xffff_ffff_ffff_ffffu128) by (nonlinear_arith)
        requires
            w <= 0xffff_ffffu128,
            h <= 0xffff_ffffu128,
    ;
    let area: u128 = w * h;
    let channels: u128 = layout.channels() as u128;
    assert(area * channels <= 0x4_0000_0000_0000_0000u128) by (nonlinear_arith)
        requires
            area == width * height,
            width <= 0xffff_ffffu32,
            height <= 0xffff_ffffu32,
            channels <= 4,
    ;
    pixels.len() as u128 == area * channels
}

/// Downscales a raw image by nearest-neighbour sampling to the size that
/// `scale_dimensions` gives for the source size, keeping the layout. A buffer
/// whose length does not match the size, or a scaled side of zero, is a
/// failure; nothing else is.
pub fn resize_pixels_data<F: Fn(u32, u32) -> (u32, u32)>(
    pixels_data: Vec<u8>,
    layout: PixelLayout,
    origin_width: u32,
    origin_height: u32,
    scale_dimensions: F,
) -> (r: Result<PixelBuffer, ThumbnailError>)
    requires
        scale_dimensions.requires((origin_width, origin_height)),
    ensures
        pixels_data@.len() != frame_len(origin_width, origin_height, layout) ==> (r matches Err(e)
            && e.stage == FailureStage::BufferSize),
        pixels_data@.len() == frame_len(origin_width, origin_height, layout) ==> match r {
            Ok(p) => {
                &&& scale_dimensions.ensures((origin_width, origin_height), (p.width, p.height))
                &&& p.width > 0 && p.height > 0
                &&& p.layout == layout
                &&& p.pixels@ == nearest_resized(
                    pixels_data@,
                    layout,
                    origin_width,
                    origin_height,
                    p.width,
                    p.height,
                )
                &&& p.pixels@.len() == frame_len(p.width, p.height, p.layout)
                &&& (p.width == origin_width && p.height == origin_height) ==> p.pixels@
                    == pixels_data@
            },
            Err(e) => e.stage == FailureStage::ZeroScaledSize && exists|w: u32, h: u32|
                #[trigger] scale_dimensions.ensures((origin_width, origin_height), (w, h)) && (w
                    == 0 || h == 0),
        },
        r matches Err(e) ==> e.stage != FailureStage::Resize,
{
    if !frame_len_matches(&pixels_data, origin_width, origin_height, layout) {
        return Err(failure(FailureStage::BufferSize, "pixel buffer does not match the image size"));
    }
    let (scaled_width, scaled_height) = scale_dimensions(origin_width, origin_height);
    if scaled_width == 0 || scaled_height == 0 {
        return Err(failure(FailureStage::ZeroScaledSize, "scaled image has no pixels"));
    }
    match resize_nearest(pixels_data, layout, origin_width, origin_height, scaled_width, scaled_height) {
        Ok(pixels) => Ok(PixelBuffer { width: scaled_width, height: scaled_height, layout, pixels }),
        Err(detail) => Err(ThumbnailError { stage: FailureStage::Resize, detail }),
    }
}

/// Size, layout (where it is RGB or RGBA) and bytes of the first frame of a PNG file.
pub uninterp spec fn png_decoding(bytes: Seq<u8>) -> Option<(u32, u32, Option<PixelLayout>, Seq<u8>)>;

/// Relies on png's `Decoder::read_info` and `Reader::next_frame`, which apply
/// no transformation by default: the first frame's size, colour type and
/// bytes depend on the file's bytes alone.
#[verifier::external_body]
fn decode_png(bytes: &[u8]) -> (r: Result<(u32, u32, Option<PixelLayout>, Vec<u8>), String>)
    ensures
        r is Ok <==> png_decoding(bytes@) is Some,
        r matches Ok((w, h, l, px)) ==> png_decoding(bytes@) == Some((w, h, l, px@)),
{
    let mut reader = png::Decoder::new(std::io::Cursor::new(bytes)).read_info().map_err(|e| e.to_string())?;
    let mut buf = vec![0; reader.output_buffer_size()];
    let info = reader.next_frame(&mut buf).map_err(|e| e.to_string())?;
    buf.truncate(info.buffer_size());
    let layout = match info.color_type {
        png::ColorType::Rgb => Some(PixelLayout::Rgb),
        png::ColorType::Rgba => Some(PixelLayout::Rgba),
        _ => None,
    };
    Ok((info.width, info.height, layout, buf))
}

/// Size, layout and bytes of a still WebP image.
pub uninterp spec fn webp_decoding(bytes: Seq<u8>) -> Option<(u32, u32, PixelLayout, Seq<u8>)>;

/// Relies on webp's `Decoder::decode`: a still image decodes to RGB, or to
/// RGBA where it has alpha, and the result depends on the bytes alone.
#[verifier::external_body]
fn decode_webp(bytes: &[u8]) -> (r: Option<(u32, u32, PixelLayout, Vec<u8>)>)
    ensures
        r is Some <==> webp_decoding(bytes@) is Some,
        r matches Some((w, h, l, px)) ==> webp_decoding(bytes@) == Some((w, h, l, px@)),
{
    let image = webp::Decoder::new(bytes).decode()?;
    let layout = match image.layout() {
        webp::PixelLayout::Rgb => PixelLayout::Rgb,
        webp::PixelLayout::Rgba => PixelLayout::Rgba,
    };
    Some((image.width(), image.height(), layout, image.to_vec()))
}

/// `r` is what downscaling by eight makes of a decoded image: the failure that
/// `eighth_scale_plan` names, or else pixels of the planned size resampled
/// from the source.
pub open spec fn downscaled_as_planned(
    r: Result<PixelBuffer, ThumbnailError>,
    width: u32,
    height: u32,
    layout: Option<PixelLayout>,
    pixels: Seq<u8>,
) -> bool {
    match eighth_scale_plan(width, height, layout, pixels) {
        Err(stage) => r matches Err(e) && e.stage == stage,
        Ok((w, h, l)) => match r {
            Ok(p) => p.width == w && p.height == h && p.layout == l && p.pixels@ == nearest_resized(
                pixels,
                l,
                width,
                height,
                w,
                h,
            ) && p.pixels@.len() == frame_len(w, h, l),
            Err(_) => false,
        },
    }
}

/// Downscales a decoded image by eight in each direction, for its thumbnail.
pub fn downscale_by_eight(
    width: u32,
    height: u32,
    layout: Option<PixelLayout>,
    pixels: Vec<u8>,
) -> (r: Result<PixelBuffer, ThumbnailError>)
    ensures
        downscaled_as_planned(r, width, height, layout, pixels@),
{
    let layout = match layout {
        Some(l) => l,
        None => return Err(failure(FailureStage::UnsupportedLayout, "unsupported color type")),
    };
    resize_pixels_data(pixels, layout, width, height, scale_to_eighth)
}

/// Decodes a PNG file and downscales it by eight, ready for JPEG encoding.
pub fn png_thumbnail_pixels(media_buffer: &[u8]) -> (r: Result<PixelBuffer, ThumbnailError>)
    ensures
        png_decoding(media_buffer@) is None ==> (r matches Err(e) && e.stage
            == FailureStage::Decode),
        png_decoding(media_buffer@) matches Some((w, h, l, px)) ==> downscaled_as_planned(
            r,
            w,
            h,
            l,
            px,
        ),
{
    match decode_png(media_buffer) {
        Ok((width, height, layout, pixels)) => downscale_by_eight(width, height, layout, pixels),
        Err(detail) => Err(ThumbnailError { stage: FailureStage::Decode, detail }),
    }
}

/// Decodes a WebP file and downscales it by eight, ready for JPEG encoding.
pub fn webp_thumbnail_pixels(media_buffer: &[u8]) -> (r: Result<PixelBuffer, ThumbnailError>)
    ensures
        webp_decoding(media_buffer@) is None ==> (r matches Err(e) && e.stage
            == FailureStage::Decode),
        webp_decoding(media_buffer@) matches Some((w, h, l, px)) ==> downscaled_as_planned(
            r,
            w,
            h,
            Some(l),
            px,
        ),
{
    match decode_webp(media_buffer) {
        Some((width, height, layout, pixels)) => downscale_by_eight(width, height, Some(layout), pixels),
        None => Err(failure(FailureStage::Decode, "invalid or corrupted WebP data")),
    }
}

/// Why a buffer from a JPEG decoder at reduced scale is refused, checked in
/// this order: not RGB, a side of zero, a length that does not match the size.
pub open spec fn scaled_jpeg_failure(p: &PixelBuffer) -> FailureStage {
    if p.layout != PixelLayout::Rgb {
        FailureStage::UnsupportedLayout
    } else if p.width == 0 || p.height == 0 {
        FailureStage::ZeroScaledSize
    } else {
        FailureStage::BufferSize
    }
}

/// Accepts what a JPEG decoder produced at reduced scale: RGB pixels of a
/// non-empty size that fill the buffer exactly.
pub fn accept_scaled_jpeg(decoded: PixelBuffer) -> (r: Result<PixelBuffer, ThumbnailError>)
    ensures
        r is Ok <==> decoded.layout == PixelLayout::Rgb && decoded.width > 0 && decoded.height > 0
            && decoded.pixels@.len() == frame_len(decoded.width, decoded.height, decoded.layout),
        r matches Ok(p) ==> p == decoded,
        r matches Err(e) ==> e.stage == scaled_jpeg_failure(&decoded),
{
    if decoded.layout != PixelLayout::Rgb {
        return Err(failure(FailureStage::UnsupportedLayout, "scaled JPEG is not RGB"));
    }
    if decoded.width == 0 || decoded.height == 0 {
        return Err(failure(FailureStage::ZeroScaledSize, "scaled JPEG has no pixels"));
    }
    if !frame_len_matches(&decoded.pixels, decoded.width, decoded.height, decoded.layout) {
        return Err(failure(FailureStage::BufferSize, "scaled JPEG buffer does not match its size"));
    }
    Ok(decoded)
}

/// Accepts the output of the JPEG encoder; an empty stream is a failure, so
/// that no zero-length thumbnail is ever written.
pub fn accept_encoded(jpeg: Vec<u8>) -> (r: Result<Vec<u8>, ThumbnailError>)
    ensures
        r is Ok <==> jpeg@.len() > 0,
        r matches Ok(b) ==> b@ == jpeg@,
        r matches Err(e) ==> e.stage == FailureStage::EmptyEncoding,
{
    if jpeg.len() == 0 {
        Err(failure(FailureStage::EmptyEncoding, "JPEG encoder produced no bytes"))
    } else {
        Ok(jpeg)
    }
}

} // verus!
