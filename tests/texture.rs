use sandbox_render::texture::{Texture, TextureError};

fn png(width: u32, height: u32, pixels: Vec<u8>) -> Vec<u8> {
    let img = image::RgbaImage::from_raw(width, height, pixels).unwrap();
    let mut out = std::io::Cursor::new(Vec::new());
    img.write_to(&mut out, image::ImageFormat::Png).unwrap();
    out.into_inner()
}

#[test]
fn decodes_png_into_rgba_rows() {
    let pixels = vec![255, 0, 0, 255, 0, 255, 0, 128, 0, 0, 255, 255, 9, 8, 7, 6, 1, 2, 3, 4, 5, 6, 7, 8];
    let bytes = png(3, 2, pixels.clone());
    let t = Texture::from_bytes(&bytes).unwrap();
    assert_eq!(t.width, 3);
    assert_eq!(t.height, 2);
    assert_eq!(t.bytes_per_row, 12);
    assert_eq!(t.rgba, pixels);
    assert_ne!(t.rgba, bytes);
}

#[test]
fn garbage_is_a_decode_error() {
    assert!(matches!(Texture::from_bytes(&[1, 2, 3, 4]), Err(TextureError::Decode(_))));
    assert!(matches!(Texture::from_bytes(&[]), Err(TextureError::Decode(_))));
    match Texture::from_bytes(&[1, 2, 3, 4]) {
        Err(TextureError::Decode(message)) => assert!(!message.is_empty()),
        _ => panic!("expected a decode error"),
    }
}

#[test]
fn from_image_takes_exactly_the_pixels() {
    let t = Texture::from_image(1, 2, vec![1, 2, 3, 4, 5, 6, 7, 8, 9]).unwrap();
    assert_eq!(t.rgba, vec![1, 2, 3, 4, 5, 6, 7, 8]);
    assert_eq!(t.bytes_per_row, 4);
}

#[test]
fn from_image_errors() {
    assert_eq!(Texture::from_image(u32::MAX, 1, vec![]).err(), Some(TextureError::RowTooLong));
    assert_eq!(Texture::from_image(2, 2, vec![0; 15]).err(), Some(TextureError::ShortData));
    assert!(Texture::from_image(0, 0, vec![]).is_ok());
}

#[test]
fn other_formats_are_not_guessed() {
    let gif: &[u8] = b"GIF89a\x01\x00\x01\x00\x00\x00\x00;";
    assert!(matches!(Texture::from_bytes(gif), Err(TextureError::Decode(_))));
}
