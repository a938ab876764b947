use vstd::prelude::*;

verus! {

/// The encodings of the image files the scene loads.
#[derive(Clone, Copy, Debug, PartialEq, Eq, Structural)]
pub enum ImageKind {
    Png,
    Jpeg,
}

/// Why an image could not be loaded.
#[derive(Clone, Copy, Debug, PartialEq, Eq, Structural)]
pub enum ImageLoadError {
    /// The bytes are not a valid image of the given kind.
    Decode,
}

/// An image as 8-bit RGBA values, four per pixel, row after row, the
/// bottom row first as the graphics library expects.
#[derive(Debug, PartialEq, Eq)]
pub struct RgbaImage {
    pub data: Vec<u8>,
    pub width: u32,
    pub height: u32,
}

#[verifier::external_type_specification]
#[verifier::external_body]
pub struct ExImageError(image::ImageError);

/// The pixels that decoding `bytes` as a PNG image gives, as 8-bit RGBA
/// values row after row with the top row first, with the width and the
/// height; none where the bytes are not a PNG image. PNG is lossless, so
/// these depend on the bytes alone; a JPEG decoder may round differently
/// from one machine to another, so decoded JPEG pixels get no name.
pub uninterp spec fn decoded_png_rgba(bytes: Seq<u8>) -> Option<(Seq<u8>, u32, u32)>;

/// Relies on image::load and DynamicImage::to_rgba8: the decoded image as
/// RGBA bytes, four for each of width times height pixels, top row first;
/// for PNG, the decoded pixels themselves.
#[verifier::external_body]
fn decode_rgba(bytes: &[u8], kind: ImageKind) -> (r: Result<(Vec<u8>, u32, u32), image::ImageError>)
    ensures
        match r {
            Ok((data, width, height)) => {
                &&& data@.len() == 4 * width * height
                &&& kind == ImageKind::Png ==> decoded_png_rgba(bytes@) == Some((data@, width, height))
            },
            Err(_) => kind == ImageKind::Png ==> decoded_png_rgba(bytes@).is_none(),
        },
{
    let format = match kind {
        ImageKind::Png => image::ImageFormat::Png,
        ImageKind::Jpeg => image::ImageFormat::Jpeg,
    };
    let rgba = image::load(std::io::Cursor::new(bytes), format)?.to_rgba8();
    let (width, height) = rgba.dimensions();
    Ok((rgba.into_raw(), width, height))
}

/// `data` cut into rows of `row` values, with the rows in reverse order.
pub open spec fn rows_reversed(data: Seq<u8>, row: nat) -> Seq<u8> {
    let w = row as int;
    Seq::new(data.len(), |i: int| data[(data.len() as int / w - 1 - i / w) * w + i % w])
}

/// Relies on glium's RawImage2d::from_raw_rgba_reversed: the rows of
/// `4 * width` values in reverse order.
#[verifier::external_body]
fn flip_rgba_rows(data: &[u8], width: u32, height: u32) -> (r: Vec<u8>)
    requires
        width > 0,
        height > 0,
        data@.len() == 4 * width * height,
    ensures
        r@ == rows_reversed(data@, 4 * width as nat),
{
    glium::texture::RawImage2d::from_raw_rgba_reversed(data, (width, height)).data.into_owned()
}

/// The image whose top-first RGBA rows are `data`, turned bottom row first.
pub fn image_from_top_rows(data: Vec<u8>, width: u32, height: u32) -> (r: RgbaImage)
    requires
        data@.len() == 4 * width * height,
    ensures
        r.width == width,
        r.height == height,
        r.data@.len() == 4 * width * height,
        r.data@ == rows_reversed(data@, 4 * width as nat),
{
    if width == 0 || height == 0 {
        proof {
            assert(data@.len() == 0) by (nonlinear_arith)
                requires data@.len() == 4 * width * height, width == 0 || height == 0;
            assert(rows_reversed(data@, 4 * width as nat) =~= data@);
        }
        RgbaImage { data, width, height }
    } else {
        let flipped = flip_rgba_rows(data.as_slice(), width, height);
        RgbaImage { data: flipped, width, height }
    }
}

/// Decodes an image file of kind `kind` into RGBA values, bottom row
/// first. For PNG the result is fixed by the bytes: the decoded rows in
/// reverse order, and an error exactly when they do not decode.
pub fn load_raw_image(bytes: &[u8], kind: ImageKind) -> (r: Result<RgbaImage, ImageLoadError>)
    ensures
        match r {
            Ok(img) => {
                &&& img.data@.len() == 4 * img.width * img.height
                &&& kind == ImageKind::Png ==> match decoded_png_rgba(bytes@) {
                    Some((top_rows, width, height)) => {
                        &&& img.width == width
                        &&& img.height == height
                        &&& img.data@ == rows_reversed(top_rows, 4 * width as nat)
                    },
                    None => false,
                }
            },
            Err(e) => {
                &&& e == ImageLoadError::Decode
                &&& kind == ImageKind::Png ==> decoded_png_rgba(bytes@).is_none()
            },
        },
{
    match decode_rgba(bytes, kind) {
        Ok((data, width, height)) => {
            let ghost top_rows = data@;
            let img = image_from_top_rows(data, width, height);
            assert(img.data@ == rows_reversed(top_rows, 4 * img.width as nat));
            Ok(img)
        },
        Err(_) => Err(ImageLoadError::Decode),
    }
}

} // verus!
