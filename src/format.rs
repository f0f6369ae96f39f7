use vstd::prelude::*;

verus! {

#[verifier::external_type_specification]
pub struct ExImageFormat(image::ImageFormat);

/// The format that the image crate assigns to a path by its extension.
pub uninterp spec fn format_of_path(path: Seq<char>) -> Option<image::ImageFormat>;

/// The PNG file that the image crate writes for RGBA8 pixels of the given
/// dimensions, or `None` where its encoder reports an error.
pub uninterp spec fn png_encoding(pixels: Seq<u8>, width: u32, height: u32) -> Option<Seq<u8>>;

/// Relies on `image::ImageFormat::from_path`: the format recognised from the
/// path's extension, if the image crate knows it.
#[verifier::external_body]
pub(crate) fn guess_format(path: &str) -> (r: Option<image::ImageFormat>)
    ensures
        r == format_of_path(path@),
{
    image::ImageFormat::from_path(path).ok()
}

/// Relies on `image::write_buffer_with_format`: encodes RGBA8 pixels as a
/// PNG file in memory. The encoder panics unless the buffer holds exactly
/// four bytes per pixel; it fails only where a dimension is zero.
#[verifier::external_body]
pub(crate) fn encode_png(pixels: &[u8], width: u32, height: u32) -> (r: Option<Vec<u8>>)
    requires
        pixels@.len() == width * height * 4,
    ensures
        match r {
            Some(bytes) => png_encoding(pixels@, width, height) == Some(bytes@),
            None => png_encoding(pixels@, width, height) is None,
        },
        width > 0 && height > 0 ==> r is Some,
{
    let mut buffer = std::io::Cursor::new(Vec::new());
    let written = image::write_buffer_with_format(
        &mut buffer,
        pixels,
        width,
        height,
        image::ColorType::Rgba8,
        image::ImageOutputFormat::Png,
    );
    written.ok().map(|_| buffer.into_inner())
}

} // verus!
