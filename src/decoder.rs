use std::io::Cursor;
use vstd::prelude::*;

use crate::ServiceError;

verus! {

/// What the image crate makes of `bytes`: width, height and RGBA8 samples, or
/// whether the failure was an unsupported format, with its description.
pub uninterp spec fn decoded_of(bytes: Seq<u8>) -> Result<(u32, u32, Seq<u8>), (bool, Seq<char>)>;

/// A decoded raster: `width * height` pixels of four 8-bit channels, row by row.
pub struct DecodedImage {
    pub width: u32,
    pub height: u32,
    pub pixels: Vec<u8>,
}

impl DecodedImage {
    pub open spec fn wf(&self) -> bool {
        &&& self.width > 0
        &&& self.height > 0
        &&& self.pixels@.len() == 4 * (self.width as int) * (self.height as int)
    }
}

/// The raw outcome of a decode, as plain values.
pub type DecodeOutcome = Result<(u32, u32, Vec<u8>), (bool, String)>;

pub open spec fn outcome_view(o: DecodeOutcome) -> Result<(u32, u32, Seq<u8>), (bool, Seq<char>)> {
    match o {
        Ok((w, h, p)) => Ok((w, h, p@)),
        Err((unsupported, text)) => Err((unsupported, text@)),
    }
}

/// Description given for a decoded image without pixels.
pub open spec fn empty_image_text() -> Seq<char> {
    "the image has no pixels"@
}

/// Description given where the image crate gave none.
pub open spec fn undescribed_text() -> Seq<char> {
    "the bytes do not hold a decodable image"@
}

/// The description carried by a decode error: the image crate's own, unless
/// it is empty.
pub open spec fn failure_text(text: Seq<char>) -> Seq<char> {
    if text.len() == 0 {
        undescribed_text()
    } else {
        text
    }
}

/// How a decode outcome becomes the step's result.
pub open spec fn decode_step(
    outcome: Result<(u32, u32, Seq<u8>), (bool, Seq<char>)>,
    r: Result<DecodedImage, ServiceError>,
) -> bool {
    match outcome {
        Ok((w, h, p)) => if w > 0 && h > 0 {
            (r matches Ok(img) && img.width == w && img.height == h && img.pixels@ == p)
        } else {
            (r matches Err(ServiceError::Decode(m)) && m@ == empty_image_text())
        },
        Err((unsupported, text)) => if unsupported {
            (r matches Err(ServiceError::UnsupportedFormat(m)) && m@ == failure_text(text))
        } else {
            (r matches Err(ServiceError::Decode(m)) && m@ == failure_text(text))
        },
    }
}

/// Relies on image::io::Reader (format sniffed from the leading bytes, then
/// decoded) and DynamicImage::into_rgba8: four samples per pixel. On failure,
/// whether the error is ImageError::Unsupported, and its Display text. With
/// jpeg-decoder's portable path the outcome depends on the bytes alone.
#[verifier::external_body]
fn decode_rgba(bytes: Vec<u8>) -> (r: DecodeOutcome)
    ensures
        outcome_view(r) == decoded_of(bytes@),
        r matches Ok((w, h, p)) ==> p@.len() == 4 * (w as int) * (h as int),
{
    let decoded = image::io::Reader::new(Cursor::new(bytes)).with_guessed_format()
        .map_err(image::ImageError::IoError).and_then(|reader| reader.decode());
    match decoded {
        Ok(img) => {
            let img = img.into_rgba8();
            Ok((img.width(), img.height(), img.into_raw()))
        },
        Err(e) => Err((matches!(e, image::ImageError::Unsupported(_)), e.to_string())),
    }
}

/// Turns a decode outcome into a decoded image or the matching error: an
/// unsupported format, or a decode failure, each with a non-empty description.
pub fn from_outcome(outcome: DecodeOutcome) -> (r: Result<DecodedImage, ServiceError>)
    requires
        outcome matches Ok((w, h, p)) ==> p@.len() == 4 * (w as int) * (h as int),
    ensures
        decode_step(outcome_view(outcome), r),
        r matches Ok(img) ==> img.wf(),
{
    match outcome {
        Ok((width, height, pixels)) => {
            if width == 0 || height == 0 {
                let m = String::from_str("the image has no pixels");
                proof {
                    reveal_strlit("the image has no pixels");
                }
                Err(ServiceError::Decode(m))
            } else {
                Ok(DecodedImage { width, height, pixels })
            }
        },
        Err((unsupported, text)) => {
            let m = if text.unicode_len() == 0 {
                let d = String::from_str("the bytes do not hold a decodable image");
                proof {
                    reveal_strlit("the bytes do not hold a decodable image");
                }
                d
            } else {
                text
            };
            if unsupported {
                Err(ServiceError::UnsupportedFormat(m))
            } else {
                Err(ServiceError::Decode(m))
            }
        },
    }
}

/// Decodes raw bytes of a sniffed raster format into RGBA pixels.
pub fn decode_image(bytes: Vec<u8>) -> (r: Result<DecodedImage, ServiceError>)
    ensures
        decode_step(decoded_of(bytes@), r),
        r matches Ok(img) ==> img.wf(),
{
    from_outcome(decode_rgba(bytes))
}

} // verus!
