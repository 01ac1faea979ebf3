use vstd::prelude::*;
use crate::vulkan::{
    layout_transition, mip_regions, mip_side, transition_barrier, LayoutBarrier, MipRegion,
    LAYOUT_SHADER_READ_ONLY_OPTIMAL, LAYOUT_TRANSFER_DST_OPTIMAL, LAYOUT_UNDEFINED,
};

verus! {

/// The image format textures are uploaded in, `R8G8B8A8_SRGB`.
pub const FORMAT_R8G8B8A8_SRGB: i32 = 43;

/// What decoding the bytes of an image file whose name ends in the
/// extension `extension` gives: its width, its height and its pixels as 8-bit
/// RGBA, or the decoder's error text.
pub uninterp spec fn image_rgba8(bytes: Seq<u8>, extension: Seq<char>) -> Result<(u32, u32, Seq<u8>), Seq<char>>;

/// Decodes image bytes in the format that `image::ImageFormat::from_extension`
/// names for `extension`, with `image::load_from_memory_with_format`, and
/// turns the picture into 8-bit RGBA with `DynamicImage::into_rgba8`; an
/// extension that names no format gives the error that the crate's
/// `ImageReader` gives for it. The contract names the result, what the decoder
/// accepts and gives being left to the `image` crate, and states that the RGBA
/// buffer holds four bytes for each of the `width * height` pixels, as the
/// crate's `RgbaImage` does.
#[verifier::external_body]
fn decode_image_rgba8(bytes: &[u8], extension: &str) -> (r: Result<(u32, u32, Vec<u8>), String>)
    ensures
        match (r, image_rgba8(bytes@, extension@)) {
            (Ok((w, h, p)), Ok((w2, h2, q))) => w == w2 && h == h2 && p@ == q,
            (Err(e), Err(m)) => e@ == m,
            _ => false,
        },
        r matches Ok((w, h, p)) ==> p@.len() == 4 * w * h,
{
    match image::ImageFormat::from_extension(extension) {
        Some(format) => match image::load_from_memory_with_format(bytes, format) {
            Ok(picture) => {
                let rgba = picture.into_rgba8();
                Ok((rgba.width(), rgba.height(), rgba.into_raw()))
            },
            Err(e) => Err(e.to_string()),
        },
        None => {
            let hint = image::error::ImageFormatHint::PathExtension(extension.into());
            Err(image::ImageError::Unsupported(hint.into()).to_string())
        },
    }
}

/// The text of the error the `image` crate gives when a file's name has no
/// extension to tell its format by.
pub open spec fn undetermined_format_message() -> Seq<char> {
    "The image format could not be determined"@
}

/// Renders the `image` crate's error for an image whose format is unknown
/// (`ImageError::Unsupported` with the hint `ImageFormatHint::Unknown`), whose
/// `Display` writes the text [`undetermined_format_message`].
#[verifier::external_body]
fn undetermined_format_error() -> (r: String)
    ensures
        r@ == undetermined_format_message(),
{
    image::ImageError::Unsupported(image::error::ImageFormatHint::Unknown.into()).to_string()
}

/// Everything the renderer needs to upload a decoded texture: its size, its
/// pixels and their byte count, the format and mip level count, the copy
/// regions, and the layout transitions before and after the copy.
#[derive(Debug, Clone)]
pub struct TextureUpload {
    pub width: u32,
    pub height: u32,
    pub pixels: Vec<u8>,
    pub byte_size: u64,
    pub format: i32,
    pub mip_levels: u32,
    pub regions: Vec<MipRegion>,
    pub to_transfer: LayoutBarrier,
    pub to_shader_read: LayoutBarrier,
}

/// `t` is the upload of a `w` by `h` texture with pixels `p`: one mip level,
/// copied whole from offset 0, sRGB RGBA format, moved from undefined to
/// transfer destination and then to shader-read.
pub open spec fn upload_of(t: TextureUpload, w: u32, h: u32, p: Seq<u8>) -> bool {
    &&& t.width == w
    &&& t.height == h
    &&& t.pixels@ == p
    &&& t.byte_size == p.len()
    &&& t.format == FORMAT_R8G8B8A8_SRGB
    &&& t.mip_levels == 1
    &&& t.regions@ == seq![
        MipRegion { offset: 0, level: 0, width: mip_side(w, 0), height: mip_side(h, 0) },
    ]
    &&& Some(t.to_transfer) == transition_barrier(LAYOUT_UNDEFINED, LAYOUT_TRANSFER_DST_OPTIMAL)
    &&& Some(t.to_shader_read) == transition_barrier(
        LAYOUT_TRANSFER_DST_OPTIMAL,
        LAYOUT_SHADER_READ_ONLY_OPTIMAL,
    )
}

/// Plans the upload of a decoded texture; a decoding error is passed on.
pub fn texture_from_decoded(decoded: Result<(u32, u32, Vec<u8>), String>) -> (r: Result<
    TextureUpload,
    String,
>)
    ensures
        match decoded {
            Ok((w, h, p)) => r matches Ok(t) && upload_of(t, w, h, p@),
            Err(e) => r == Err::<TextureUpload, String>(e),
        },
{
    let (width, height, pixels) = match decoded {
        Ok(d) => d,
        Err(e) => {
            return Err(e);
        },
    };
    let byte_size = pixels.len() as u64;
    let mut offsets: Vec<u64> = Vec::new();
    offsets.push(0);
    let regions = mip_regions(width, height, 1, &offsets);
    let to_transfer = match layout_transition(LAYOUT_UNDEFINED, LAYOUT_TRANSFER_DST_OPTIMAL) {
        Ok(b) => b,
        Err(e) => {
            return Err(e);
        },
    };
    let to_shader_read = match layout_transition(
        LAYOUT_TRANSFER_DST_OPTIMAL,
        LAYOUT_SHADER_READ_ONLY_OPTIMAL,
    ) {
        Ok(b) => b,
        Err(e) => {
            return Err(e);
        },
    };
    let t = TextureUpload {
        width,
        height,
        pixels,
        byte_size,
        format: FORMAT_R8G8B8A8_SRGB,
        mip_levels: 1,
        regions,
        to_transfer,
        to_shader_read,
    };
    proof {
        assert(t.regions@ =~= seq![
            MipRegion { offset: 0, level: 0, width: mip_side(width, 0), height: mip_side(height, 0) },
        ]);
    }
    Ok(t)
}

/// Decodes the bytes of an image file whose name ends in `extension` (empty
/// where it has none), in the format that the extension names, and plans the
/// upload of the texture. Without an extension the format cannot be told.
pub fn texture_from_image(bytes: &[u8], extension: &str) -> (r: Result<TextureUpload, String>)
    ensures
        extension@.len() == 0 ==> (r matches Err(e) && e@ == undetermined_format_message()),
        extension@.len() > 0 ==> match image_rgba8(bytes@, extension@) {
            Ok((w, h, p)) => r matches Ok(t) && upload_of(t, w, h, p),
            Err(m) => r matches Err(e) && e@ == m,
        },
        r matches Ok(t) ==> t.pixels@.len() == 4 * t.width * t.height && t.byte_size == 4
            * t.width * t.height,
{
    if extension.unicode_len() == 0 {
        return Err(undetermined_format_error());
    }
    texture_from_decoded(decode_image_rgba8(bytes, extension))
}

} // verus!
