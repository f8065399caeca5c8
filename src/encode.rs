//! PNG encoding of a finished frame, through the `png` crate.

use vstd::prelude::*;
use crate::frame::Frame;

verus! {

#[verifier::external_type_specification]
#[verifier::external_body]
pub struct ExEncodingError(png::EncodingError);

/// The PNG file (8-bit RGB, the crate's default compression and filter) that
/// the `png` encoder writes for an image of the given size and pixel bytes.
pub uninterp spec fn png_rgb8_of(width: u32, height: u32, data: Seq<u8>) -> Seq<u8>;

/// Relies on `png::Encoder::new`, `set_color(RGB)`, `set_depth(Eight)`,
/// `write_header` and `Writer::write_image_data` (png 0.16), writing into a
/// `Vec`, which never fails; dropping the writer appends the end chunk.
/// `write_header` refuses a zero width or height, and `write_image_data`
/// refuses a buffer whose length is not three bytes per pixel.
#[verifier::external_body]
fn png_encode_rgb8(width: u32, height: u32, data: &[u8]) -> (r: Result<Vec<u8>, png::EncodingError>)
    requires
        3 * width * height <= usize::MAX,
    ensures
        r.is_ok() <==> (width > 0 && height > 0 && data@.len() == 3 * width * height),
        r matches Ok(bytes) ==> bytes@ == png_rgb8_of(width, height, data@),
{
    let mut out: Vec<u8> = Vec::new();
    {
        let mut encoder = png::Encoder::new(&mut out, width, height);
        encoder.set_color(png::ColorType::RGB);
        encoder.set_depth(png::BitDepth::Eight);
        let mut writer = encoder.write_header()?;
        writer.write_image_data(data)?;
    }
    Ok(out)
}

/// Why a frame could not be encoded.
#[derive(Debug, Clone, Copy, PartialEq, Eq, Structural)]
pub enum EncodeError {
    /// The width or the height is zero.
    EmptyImage,
    /// The width or the height does not fit the format's 32-bit fields.
    TooLarge,
}

impl Frame {
    /// Encodes the frame as an 8-bit RGB PNG file.
    pub fn encode_png(&self) -> (r: Result<Vec<u8>, EncodeError>)
        requires
            self.wf(),
        ensures
            r == Err::<Vec<u8>, EncodeError>(EncodeError::TooLarge) <==> (self.spec_width()
                > u32::MAX || self.spec_height() > u32::MAX),
            r == Err::<Vec<u8>, EncodeError>(EncodeError::EmptyImage) <==> (self.spec_width()
                <= u32::MAX && self.spec_height() <= u32::MAX && (self.spec_width() == 0
                || self.spec_height() == 0)),
            r matches Ok(bytes) ==> bytes@ == png_rgb8_of(
                self.spec_width() as u32,
                self.spec_height() as u32,
                self.spec_bytes(),
            ),
    {
        let width = self.width();
        let height = self.height();
        if width > u32::MAX as usize || height > u32::MAX as usize {
            return Err(EncodeError::TooLarge);
        }
        let data = self.as_bytes();
        match png_encode_rgb8(width as u32, height as u32, data.as_slice()) {
            Ok(bytes) => Ok(bytes),
            Err(_) => Err(EncodeError::EmptyImage),
        }
    }
}

} // verus!
