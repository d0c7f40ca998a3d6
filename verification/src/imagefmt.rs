//! The image-format sniffer, wrapped: the archive validates stored pictures
//! and names a content type by looking at the bytes alone.
use vstd::prelude::*;

verus! {

/// The image formats the sniffer tells apart.
#[derive(Debug, Clone, Copy, PartialEq, Eq, Structural)]
pub enum SniffedFormat {
    Avif,
    Jpeg,
    Png,
    Gif,
    WebP,
    Tiff,
    Tga,
    Dds,
    Bmp,
    Ico,
    Hdr,
    OpenExr,
    Unrecognized,
}

/// The format the sniffer names for these bytes; a function of the bytes
/// alone.
pub uninterp spec fn format_of(b: Seq<u8>) -> SniffedFormat;

/// Whether these bytes decode as a picture; a function of the bytes alone.
pub uninterp spec fn is_valid_image(b: Seq<u8>) -> bool;

/// Relies on `image::guess_format`, which reads only the given bytes: the
/// result names the detected container format.
#[verifier::external_body]
pub fn sniff_format(b: &[u8]) -> (f: SniffedFormat)
    ensures
        f == format_of(b@),
{
    match image::guess_format(b) {
        Ok(image::ImageFormat::Avif) => SniffedFormat::Avif,
        Ok(image::ImageFormat::Jpeg) => SniffedFormat::Jpeg,
        Ok(image::ImageFormat::Png) => SniffedFormat::Png,
        Ok(image::ImageFormat::Gif) => SniffedFormat::Gif,
        Ok(image::ImageFormat::WebP) => SniffedFormat::WebP,
        Ok(image::ImageFormat::Tiff) => SniffedFormat::Tiff,
        Ok(image::ImageFormat::Tga) => SniffedFormat::Tga,
        Ok(image::ImageFormat::Dds) => SniffedFormat::Dds,
        Ok(image::ImageFormat::Bmp) => SniffedFormat::Bmp,
        Ok(image::ImageFormat::Ico) => SniffedFormat::Ico,
        Ok(image::ImageFormat::Hdr) => SniffedFormat::Hdr,
        Ok(image::ImageFormat::OpenExr) => SniffedFormat::OpenExr,
        _ => SniffedFormat::Unrecognized,
    }
}

/// Relies on `image::load_from_memory`, which reads only the given bytes:
/// the result says whether they decode as a picture.
#[verifier::external_body]
pub fn image_ok(b: &[u8]) -> (r: bool)
    ensures
        r == is_valid_image(b@),
{
    image::load_from_memory(b).is_ok()
}

/// The content type served for a sniffed format; unrecognized bytes are
/// served as a plain octet stream.
pub fn mime_for(f: SniffedFormat) -> (r: &'static str)
    ensures
        r@ == spec_mime_for(f),
{
    proof {
        reveal_strlit("image/avif");
        reveal_strlit("image/jpeg");
        reveal_strlit("image/png");
        reveal_strlit("image/gif");
        reveal_strlit("image/webp");
        reveal_strlit("image/tiff");
        reveal_strlit("image/x-tga");
        reveal_strlit("image/vnd-ms.dds");
        reveal_strlit("image/bmp");
        reveal_strlit("image/x-icon");
        reveal_strlit("image/vnd.radiance");
        reveal_strlit("image/x-exr");
        reveal_strlit("application/octet-stream");
    }
    match f {
        SniffedFormat::Avif => "image/avif",
        SniffedFormat::Jpeg => "image/jpeg",
        SniffedFormat::Png => "image/png",
        SniffedFormat::Gif => "image/gif",
        SniffedFormat::WebP => "image/webp",
        SniffedFormat::Tiff => "image/tiff",
        SniffedFormat::Tga => "image/x-tga",
        SniffedFormat::Dds => "image/vnd-ms.dds",
        SniffedFormat::Bmp => "image/bmp",
        SniffedFormat::Ico => "image/x-icon",
        SniffedFormat::Hdr => "image/vnd.radiance",
        SniffedFormat::OpenExr => "image/x-exr",
        SniffedFormat::Unrecognized => "application/octet-stream",
    }
}

/// The content type for each format.
pub open spec fn spec_mime_for(f: SniffedFormat) -> Seq<char> {
    match f {
        SniffedFormat::Avif => "image/avif"@,
        SniffedFormat::Jpeg => "image/jpeg"@,
        SniffedFormat::Png => "image/png"@,
        SniffedFormat::Gif => "image/gif"@,
        SniffedFormat::WebP => "image/webp"@,
        SniffedFormat::Tiff => "image/tiff"@,
        SniffedFormat::Tga => "image/x-tga"@,
        SniffedFormat::Dds => "image/vnd-ms.dds"@,
        SniffedFormat::Bmp => "image/bmp"@,
        SniffedFormat::Ico => "image/x-icon"@,
        SniffedFormat::Hdr => "image/vnd.radiance"@,
        SniffedFormat::OpenExr => "image/x-exr"@,
        SniffedFormat::Unrecognized => "application/octet-stream"@,
    }
}

} // verus!
