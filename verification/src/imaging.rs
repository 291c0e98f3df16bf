//! Decoding, scaling and container encoding, as the `image` crate provides them.
//! Every trusted function here goes from bytes and plain values to bytes and
//! plain values, and what it returns has a name that the contracts of the
//! library speak of.
use vstd::prelude::*;

verus! {

/// The error of the `image` crate, carried through as an opaque value.
#[verifier::external_type_specification]
#[verifier::external_body]
pub struct ExImageError(image::ImageError);

/// A container format that a decoded image can be written in.
#[derive(Clone, Copy, Debug, PartialEq, Eq, Structural)]
pub enum Container {
    Png,
    Jpeg,
    Tiff,
    Bmp,
    Ico,
}

/// Interleaved 8-bit samples of an image, row by row.
#[derive(Debug)]
pub struct Raster {
    pub width: u32,
    pub height: u32,
    pub pixels: Vec<u8>,
}

/// Whether the `image` crate can decode `input`, guessing the format from the
/// bytes themselves.
pub uninterp spec fn image_decodes(input: Seq<u8>) -> bool;

/// The width and height of the image that `input` decodes to.
pub uninterp spec fn size_of(input: Seq<u8>) -> (u32, u32);

/// Width, height and samples of the image that `input` decodes to, as 8-bit RGB.
pub uninterp spec fn rgb8_of(input: Seq<u8>) -> (u32, u32, Seq<u8>);

/// Width, height and samples of the image that `input` decodes to, as 8-bit RGBA.
pub uninterp spec fn rgba8_of(input: Seq<u8>) -> (u32, u32, Seq<u8>);

/// The bytes that the image decoded from `input` is written as in a container,
/// pixel data unchanged; none where the container's encoder refuses the image.
pub uninterp spec fn reencoding(input: Seq<u8>, container: Container) -> Option<Seq<u8>>;

/// The bytes that 8-bit RGB samples are written as in a container.
pub uninterp spec fn rgb8_encoding(
    width: u32,
    height: u32,
    pixels: Seq<u8>,
    container: Container,
) -> Option<Seq<u8>>;

/// The bytes that 8-bit RGBA samples are written as in a container.
pub uninterp spec fn rgba8_encoding(
    width: u32,
    height: u32,
    pixels: Seq<u8>,
    container: Container,
) -> Option<Seq<u8>>;

/// Whether `len` samples are exactly those of `width` x `height` pixels of
/// `channels` samples each.
pub open spec fn fills(width: u32, height: u32, len: nat, channels: nat) -> bool {
    len == width as nat * height as nat * channels
}

impl Raster {
    /// Width, height and samples as one value.
    pub open spec fn view(&self) -> (u32, u32, Seq<u8>) {
        (self.width, self.height, self.pixels@)
    }

    /// Whether the samples are exactly those of `width` x `height` pixels of
    /// `channels` samples each.
    pub open spec fn has_layout(&self, channels: nat) -> bool {
        fills(self.width, self.height, self.pixels@.len(), channels)
    }

    /// The number of samples that `width` x `height` pixels of `channels` samples
    /// take.
    pub fn sample_count(&self, channels: u8) -> (n: u128)
        ensures
            n == self.width as nat * self.height as nat * channels as nat,
    {
        let w: u128 = self.width as u128;
        let h: u128 = self.height as u128;
        let c: u128 = channels as u128;
        assert(w * h <= 0xFFFF_FFFF * 0xFFFF_FFFF) by (nonlinear_arith)
            requires
                w <= 0xFFFF_FFFF,
                h <= 0xFFFF_FFFF,
        ;
        assert(w * h * c <= 0xFFFF_FFFF * 0xFFFF_FFFF * 255) by (nonlinear_arith)
            requires
                w * h <= 0xFFFF_FFFF * 0xFFFF_FFFF,
                c <= 255,
        ;
        w * h * c
    }

    /// Tests whether the raster is not empty and holds exactly the samples of its
    /// pixels.
    pub fn is_complete(&self, channels: u8) -> (ok: bool)
        ensures
            ok == (self.width > 0 && self.height > 0 && self.has_layout(channels as nat)),
    {
        self.width > 0 && self.height > 0 && self.sample_count(channels)
            == self.pixels.len() as u128
    }
}

/// Calls `image::load_from_memory` and `DynamicImage::width` and `height`. The
/// call succeeds exactly on the inputs that `image_decodes` holds of, and the
/// size has the name `size_of`.
#[verifier::external_body]
pub(crate) fn decoded_size(input: &[u8]) -> (r: Result<(u32, u32), image::ImageError>)
    ensures
        r is Ok <==> image_decodes(input@),
        r matches Ok(size) ==> size == size_of(input@),
{
    let img = image::load_from_memory(input)?;
    Ok((img.width(), img.height()))
}

/// Calls `image::load_from_memory` and `DynamicImage::to_rgb8`, and hands out the
/// buffer's size and samples, which have the name `rgb8_of`.
#[verifier::external_body]
pub(crate) fn decode_rgb8(input: &[u8]) -> (r: Result<Raster, image::ImageError>)
    ensures
        r is Ok <==> image_decodes(input@),
        r matches Ok(raster) ==> raster@ == rgb8_of(input@),
{
    let buffer = image::load_from_memory(input)?.to_rgb8();
    Ok(Raster { width: buffer.width(), height: buffer.height(), pixels: buffer.into_raw() })
}

/// Calls `image::load_from_memory` and `DynamicImage::to_rgba8`, and hands out
/// the buffer's size and samples, which have the name `rgba8_of`.
#[verifier::external_body]
pub(crate) fn decode_rgba8(input: &[u8]) -> (r: Result<Raster, image::ImageError>)
    ensures
        r is Ok <==> image_decodes(input@),
        r matches Ok(raster) ==> raster@ == rgba8_of(input@),
{
    let buffer = image::load_from_memory(input)?.to_rgba8();
    Ok(Raster { width: buffer.width(), height: buffer.height(), pixels: buffer.into_raw() })
}

/// Calls `image::load_from_memory` and then `DynamicImage::write_to` on a buffer
/// in memory. The outer result is that of decoding, the inner one that of
/// encoding, which has the name `reencoding`.
#[verifier::external_body]
pub(crate) fn reencode(input: &[u8], container: Container) -> (r: Result<
    Result<Vec<u8>, image::ImageError>,
    image::ImageError,
>)
    ensures
        r is Ok <==> image_decodes(input@),
        r matches Ok(inner) ==> (inner is Ok <==> reencoding(input@, container) is Some),
        r matches Ok(Ok(bytes)) ==> reencoding(input@, container) == Some(bytes@),
{
    let format = match container {
        Container::Png => image::ImageFormat::Png,
        Container::Jpeg => image::ImageFormat::Jpeg,
        Container::Tiff => image::ImageFormat::Tiff,
        Container::Bmp => image::ImageFormat::Bmp,
        Container::Ico => image::ImageFormat::Ico,
    };
    let img = image::load_from_memory(input)?;
    let mut cursor = std::io::Cursor::new(Vec::new());
    Ok(img.write_to(&mut cursor, format).map(|_| cursor.into_inner()))
}

/// Calls `image::load_from_memory`, `DynamicImage::resize` with the Lanczos
/// filter of window 3, which scales the image to fit within the bounds and keeps
/// its aspect ratio, and `write_to` on a buffer in memory. The outer result is
/// that of decoding, the inner one that of encoding. The filter is computed in
/// floating point with a sine whose precision differs between machines, so the
/// bytes have no name and nothing is claimed of the inner result.
#[verifier::external_body]
pub(crate) fn resize_lanczos3_reencode(
    input: &[u8],
    width: u32,
    height: u32,
    container: Container,
) -> (r: Result<Result<Vec<u8>, image::ImageError>, image::ImageError>)
    requires
        width > 0,
        height > 0,
    ensures
        r is Ok <==> image_decodes(input@),
{
    let format = match container {
        Container::Png => image::ImageFormat::Png,
        Container::Jpeg => image::ImageFormat::Jpeg,
        Container::Tiff => image::ImageFormat::Tiff,
        Container::Bmp => image::ImageFormat::Bmp,
        Container::Ico => image::ImageFormat::Ico,
    };
    let filter = image::imageops::FilterType::Lanczos3;
    let img = image::load_from_memory(input)?.resize(width, height, filter);
    let mut cursor = std::io::Cursor::new(Vec::new());
    Ok(img.write_to(&mut cursor, format).map(|_| cursor.into_inner()))
}

/// Calls `RgbImage::from_raw` and `DynamicImage::write_to` on a buffer in
/// memory. The encoders panic on a buffer that is not exactly as long as the
/// size asks for, which the contract leaves out, as it does an empty image. The outcome has the name
/// `rgb8_encoding`.
#[verifier::external_body]
pub(crate) fn encode_rgb8(raster: Raster, container: Container) -> (r: Result<
    Vec<u8>,
    image::ImageError,
>)
    requires
        raster.width > 0,
        raster.height > 0,
        raster.has_layout(3),
    ensures
        r is Ok <==> rgb8_encoding(raster.width, raster.height, raster.pixels@, container) is Some,
        r matches Ok(bytes) ==> rgb8_encoding(raster.width, raster.height, raster.pixels@, container)
            == Some(bytes@),
{
    let format = match container {
        Container::Png => image::ImageFormat::Png,
        Container::Jpeg => image::ImageFormat::Jpeg,
        Container::Tiff => image::ImageFormat::Tiff,
        Container::Bmp => image::ImageFormat::Bmp,
        Container::Ico => image::ImageFormat::Ico,
    };
    let buffer = image::RgbImage::from_raw(raster.width, raster.height, raster.pixels).unwrap();
    let mut cursor = std::io::Cursor::new(Vec::new());
    image::DynamicImage::ImageRgb8(buffer).write_to(&mut cursor, format)?;
    Ok(cursor.into_inner())
}

/// Calls `RgbaImage::from_raw` and `DynamicImage::write_to` on a buffer in
/// memory. The encoders panic on a buffer that is not exactly as long as the
/// size asks for, which the contract leaves out, as it does an empty image. The outcome has the name
/// `rgba8_encoding`.
#[verifier::external_body]
pub(crate) fn encode_rgba8(raster: Raster, container: Container) -> (r: Result<
    Vec<u8>,
    image::ImageError,
>)
    requires
        raster.width > 0,
        raster.height > 0,
        raster.has_layout(4),
    ensures
        r is Ok <==> rgba8_encoding(raster.width, raster.height, raster.pixels@, container) is Some,
        r matches Ok(bytes) ==> rgba8_encoding(
            raster.width,
            raster.height,
            raster.pixels@,
            container,
        ) == Some(bytes@),
{
    let format = match container {
        Container::Png => image::ImageFormat::Png,
        Container::Jpeg => image::ImageFormat::Jpeg,
        Container::Tiff => image::ImageFormat::Tiff,
        Container::Bmp => image::ImageFormat::Bmp,
        Container::Ico => image::ImageFormat::Ico,
    };
    let buffer = image::RgbaImage::from_raw(raster.width, raster.height, raster.pixels).unwrap();
    let mut cursor = std::io::Cursor::new(Vec::new());
    image::DynamicImage::ImageRgba8(buffer).write_to(&mut cursor, format)?;
    Ok(cursor.into_inner())
}

} // verus!
