//! Texture construction: decoding, channel classification, upload paths.

use render_gl::driver::{Driver, TexFormat};
use render_gl::texture::{Error, Image, Texture};

/// An uncompressed true-color or grayscale TGA image, built byte by
/// byte: 18-byte header, then the pixel data.
fn tga_bytes(width: u8, height: u8, bits_per_pixel: u8, image_type: u8, pixels: &[u8]) -> Vec<u8> {
    let mut bytes = vec![
        0u8,           // no image id
        0,             // no color map
        image_type,    // uncompressed true color (2) or grayscale (3)
        0, 0, 0, 0, 0, // color map specification
        0, 0,          // x origin
        0, 0,          // y origin
        width, 0,      // width, little endian
        height, 0,     // height, little endian
        bits_per_pixel,
        0,             // image descriptor
    ];
    bytes.extend_from_slice(pixels);
    bytes
}

/// A 3-channel source goes up the RGB path, with mip levels generated
/// and the new texture left bound.
#[test]
fn three_channel_image_uses_rgb() {
    let mut d = Driver::new();
    // 2x2, 24 bits per pixel: four BGR pixels.
    let pixels = [
        255, 0, 0, 0, 255, 0, //
        0, 0, 255, 128, 128, 128,
    ];
    let bytes = tga_bytes(2, 2, 24, 2, &pixels);
    let tex = Texture::new(&mut d, &bytes).unwrap();
    let storage = d.texture_storage(tex.handle()).unwrap();
    assert_eq!(storage.format, TexFormat::Rgb);
    assert_eq!(storage.width, 2);
    assert_eq!(storage.height, 2);
    assert!(storage.mipmap);
    assert_eq!(d.bound_texture(), tex.handle());
    tex.detach(&mut d);
    assert_eq!(d.bound_texture(), 0);
}

/// A 4-channel source goes up the RGBA path.
#[test]
fn four_channel_image_uses_rgba() {
    let mut d = Driver::new();
    // 2x1, 32 bits per pixel: two BGRA pixels.
    let pixels = [10, 20, 30, 255, 40, 50, 60, 128];
    let bytes = tga_bytes(2, 1, 32, 2, &pixels);
    let tex = Texture::new(&mut d, &bytes).unwrap();
    let storage = d.texture_storage(tex.handle()).unwrap();
    assert_eq!(storage.format, TexFormat::Rgba);
    assert_eq!(storage.width, 2);
    assert_eq!(storage.height, 1);
}

/// Any other channel count is an unsupported format, never a silent
/// misinterpretation: a grayscale source is rejected and nothing is
/// allocated.
#[test]
fn one_channel_image_is_unsupported() {
    let mut d = Driver::new();
    // 2x2, 8 bits per pixel, grayscale.
    let pixels = [0, 85, 170, 255];
    let bytes = tga_bytes(2, 2, 8, 3, &pixels);
    match Texture::new(&mut d, &bytes) {
        Err(Error::LoadError(m)) => assert_eq!(m, "unsupported image channel count"),
        _ => panic!("a one-channel image must be an unsupported format"),
    }
    assert_eq!(d.allocation_count(), 0);
}

/// Bytes that decode to nothing are a typed load error, never a crash.
#[test]
fn garbage_bytes_are_a_load_error() {
    let mut d = Driver::new();
    let bytes = b"not an image at all";
    match Texture::new(&mut d, bytes.as_slice()) {
        Err(Error::LoadError(m)) => assert!(!m.is_empty()),
        _ => panic!("garbage bytes must be a load error"),
    }
    assert_eq!(d.allocation_count(), 0);
}

/// The channel classification on an already decoded image: 3 and 4
/// channels are accepted, anything else is rejected.
#[test]
fn from_image_classifies_channels() {
    let mut d = Driver::new();
    let two_channel = Image {
        width: 1,
        height: 1,
        channels: 2,
        data: vec![7, 9],
    };
    assert!(matches!(
        Texture::from_image(&mut d, &two_channel),
        Err(Error::LoadError(_))
    ));

    let rgb = Image {
        width: 1,
        height: 1,
        channels: 3,
        data: vec![1, 2, 3],
    };
    let tex = Texture::from_image(&mut d, &rgb).unwrap();
    assert_eq!(
        d.texture_storage(tex.handle()).unwrap().format,
        TexFormat::Rgb
    );

    let rgba = Image {
        width: 1,
        height: 1,
        channels: 4,
        data: vec![1, 2, 3, 4],
    };
    let tex = Texture::from_image(&mut d, &rgba).unwrap();
    assert_eq!(
        d.texture_storage(tex.handle()).unwrap().format,
        TexFormat::Rgba
    );
}

/// Error descriptions name the failure and carry the cause.
#[test]
fn texture_error_messages_describe_the_failure() {
    let io = Error::IO("permission denied".to_string());
    assert_eq!(io.message(), "failed to read the image: permission denied");
    let load = Error::LoadError("bad header".to_string());
    assert_eq!(load.message(), "failed to load the texture: bad header");
}
