use vstd::prelude::*;

verus! {

#[verifier::external_type_specification]
#[verifier::external_body]
pub struct ExImageError(image::ImageError);

/// What decoding `bytes` as PNG gives: the width, the height and the RGBA8
/// pixels row by row, or nothing where the bytes are no PNG image that the
/// decoder reads.
pub uninterp spec fn decoded_png(bytes: Seq<u8>) -> Option<(u32, u32, Seq<u8>)>;

/// Relies on `image::load_from_memory_with_format` with `ImageFormat::Png`,
/// which decodes with the built-in PNG decoder (no format guessing, no
/// registered hook), then on `DynamicImage::to_rgba8` and
/// `ImageBuffer::into_raw` to convert the pixels to RGBA8. The result depends
/// on the bytes alone, and an `ImageBuffer` holds at least four bytes for
/// each of its pixels.
#[verifier::external_body]
fn decode_png_rgba8(bytes: &[u8]) -> (r: Result<(u32, u32, Vec<u8>), image::ImageError>)
    ensures
        r is Ok <==> decoded_png(bytes@) is Some,
        r matches Ok(d) ==> decoded_png(bytes@) == Some((d.0, d.1, d.2@)),
        r matches Ok(d) ==> d.2@.len() >= 4 * d.0 * d.1,
{
    let rgba = image::load_from_memory_with_format(bytes, image::ImageFormat::Png)?.to_rgba8();
    let (width, height) = rgba.dimensions();
    Ok((width, height, rgba.into_raw()))
}

/// Relies on `ImageError`'s `Display` for a readable message; nothing is
/// claimed of the text.
#[verifier::external_body]
fn image_error_message(e: &image::ImageError) -> String {
    e.to_string()
}

/// Why a texture could not be made.
#[derive(Clone, Debug, PartialEq, Eq)]
pub enum TextureError {
    /// The bytes are no PNG image that the decoder reads; the decoder's
    /// message.
    Decode(String),
    /// A row of the image takes more than `u32::MAX` bytes.
    RowTooLong,
    /// There are fewer pixel bytes than the size asks for.
    ShortData,
}

/// An RGBA8 image ready for upload: `rgba` holds `height` rows of
/// `bytes_per_row` bytes each.
pub struct Texture {
    pub width: u32,
    pub height: u32,
    pub bytes_per_row: u32,
    pub rgba: Vec<u8>,
}

impl Texture {
    /// The texture for an RGBA8 image of `width × height` pixels: exactly
    /// the first `4 · width · height` bytes of `rgba`.
    pub fn from_image(width: u32, height: u32, rgba: Vec<u8>) -> (r: Result<Texture, TextureError>)
        ensures
            4 * width > u32::MAX <==> r == Err::<Texture, TextureError>(TextureError::RowTooLong),
            4 * width <= u32::MAX && rgba@.len() < 4 * width * height <==> r == Err::<
                Texture,
                TextureError,
            >(TextureError::ShortData),
            !(r matches Err(TextureError::Decode(_))),
            r matches Ok(t) ==> {
                &&& t.width == width
                &&& t.height == height
                &&& t.bytes_per_row == 4 * width
                &&& t.rgba@ == rgba@.subrange(0, 4 * width * height)
            },
    {
        if width > u32::MAX / 4 {
            return Err(TextureError::RowTooLong);
        }
        let bytes_per_row: u32 = 4 * width;
        proof {
            assert(bytes_per_row * height <= 0xFFFF_FFFF * 0xFFFF_FFFF) by (nonlinear_arith)
                requires bytes_per_row <= 0xFFFF_FFFF, height <= 0xFFFF_FFFF;
        }
        let need: u64 = bytes_per_row as u64 * height as u64;
        if (rgba.len() as u64) < need {
            return Err(TextureError::ShortData);
        }
        let mut pixels: Vec<u8> = Vec::new();
        let mut i: usize = 0;
        while (i as u64) < need
            invariant
                need == 4 * width * height,
                need <= rgba@.len(),
                i <= need,
                pixels@ == rgba@.subrange(0, i as int),
            decreases need - i,
        {
            pixels.push(rgba[i]);
            i = i + 1;
            proof {
                assert(pixels@ =~= rgba@.subrange(0, i as int));
            }
        }
        Ok(Texture { width, height, bytes_per_row, rgba: pixels })
    }

    /// Decodes a PNG image into a texture.
    pub fn from_bytes(bytes: &[u8]) -> (r: Result<Texture, TextureError>)
        ensures
            decoded_png(bytes@) is None <==> r matches Err(TextureError::Decode(_)),
            decoded_png(bytes@) matches Some(d) ==> {
                &&& (4 * d.0 > u32::MAX <==> r == Err::<Texture, TextureError>(
                    TextureError::RowTooLong,
                ))
                &&& r != Err::<Texture, TextureError>(TextureError::ShortData)
                &&& r matches Ok(t) ==> {
                    &&& t.width == d.0
                    &&& t.height == d.1
                    &&& t.bytes_per_row == 4 * d.0
                    &&& t.rgba@ == d.2.subrange(0, 4 * d.0 * d.1)
                }
            },
    {
        match decode_png_rgba8(bytes) {
            Ok((width, height, rgba)) => Texture::from_image(width, height, rgba),
            Err(e) => Err(TextureError::Decode(image_error_message(&e))),
        }
    }
}

} // verus!
