use beans_engine::texture::{texture_from_decoded, texture_from_image, FORMAT_R8G8B8A8_SRGB};
use beans_engine::vulkan::{LayoutBarrier, MipRegion};

fn png_bytes(width: u32, height: u32, pixels: Vec<u8>) -> Vec<u8> {
    let picture = image::RgbaImage::from_raw(width, height, pixels).unwrap();
    let mut out = std::io::Cursor::new(Vec::new());
    picture.write_to(&mut out, image::ImageFormat::Png).unwrap();
    out.into_inner()
}

#[test]
fn png_textures_are_decoded_for_upload() {
    let pixels = vec![255u8, 0, 0, 255, 0, 255, 0, 128];
    let t = texture_from_image(&png_bytes(2, 1, pixels.clone()), "png").unwrap();
    assert_eq!((t.width, t.height), (2, 1));
    assert_eq!(t.pixels, pixels);
    assert_eq!(t.byte_size, 8);
    assert_eq!(t.format, FORMAT_R8G8B8A8_SRGB);
    assert_eq!(t.mip_levels, 1);
    assert_eq!(t.regions, vec![MipRegion { offset: 0, level: 0, width: 2, height: 1 }]);
    assert_eq!(
        t.to_transfer,
        LayoutBarrier { src_access: 0, dst_access: 0x1000, src_stage: 1, dst_stage: 0x1000 }
    );
    assert_eq!(
        t.to_shader_read,
        LayoutBarrier { src_access: 0x1000, dst_access: 0x20, src_stage: 0x1000, dst_stage: 0x80 }
    );
}

#[test]
fn broken_png_is_an_error() {
    assert!(texture_from_image(&[1, 2, 3, 4], "png").is_err());
}

#[test]
fn decoding_errors_pass_through() {
    let r = texture_from_decoded(Err(String::from("bad file")));
    assert_eq!(r.unwrap_err(), "bad file");
    let t = texture_from_decoded(Ok((0, 4, Vec::new()))).unwrap();
    assert_eq!(t.regions, vec![MipRegion { offset: 0, level: 0, width: 1, height: 4 }]);
}

#[test]
fn the_extension_names_the_format() {
    let png = png_bytes(1, 1, vec![1, 2, 3, 4]);
    assert_eq!(texture_from_image(&png, "PNG").unwrap().pixels, vec![1, 2, 3, 4]);
    assert!(texture_from_image(&png, "jpg").is_err());
    assert_eq!(
        texture_from_image(&png, "xyz").unwrap_err(),
        "The file extension `.\"xyz\"` was not recognized as an image format"
    );
    assert_eq!(texture_from_image(&png, "").unwrap_err(), "The image format could not be determined");
}
