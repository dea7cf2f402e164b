//! Decoding the uploaded photos.

use image::GenericImageView;
use vstd::prelude::*;

verus! {

#[verifier::external_type_specification]
#[verifier::external_body]
pub struct ExDynamicImage(image::DynamicImage);

/// A decoded photo.
pub struct Photo {
    pub image: image::DynamicImage,
}

/// What `image::load_from_memory` makes of the bytes: the width and height of the decoded
/// image, or the text of the decoding error.
pub uninterp spec fn decoded_photo(bytes: Seq<u8>) -> Result<(u32, u32), Seq<char>>;

/// The width and height of a photo's image.
pub uninterp spec fn photo_dimensions(photo: Photo) -> (u32, u32);

/// Calls `image::load_from_memory`, which guesses the format from the bytes and decodes
/// them, and keeps the text of the error when it fails. Claims that the outcome, the decoded
/// image's dimensions or the error's text, is the one named for these bytes.
#[verifier::external_body]
fn decode_photo(bytes: &[u8]) -> (photo: Result<Photo, String>)
    ensures
        match photo {
            Ok(p) => decoded_photo(bytes@) == Ok::<(u32, u32), Seq<char>>(photo_dimensions(p)),
            Err(e) => decoded_photo(bytes@) == Err::<(u32, u32), Seq<char>>(e@),
        },
{
    match image::load_from_memory(bytes) {
        Ok(image) => Ok(Photo { image }),
        Err(e) => Err(e.to_string()),
    }
}

impl Photo {
    /// Calls `GenericImageView::dimensions` on the photo's image, which returns its width
    /// and height.
    #[verifier::external_body]
    fn image_dimensions(&self) -> (d: (u32, u32))
        ensures
            d == photo_dimensions(*self),
    {
        self.image.dimensions()
    }

    /// The width and height of the photo.
    pub fn dimensions(&self) -> (d: (u32, u32))
        ensures
            d == photo_dimensions(*self),
    {
        self.image_dimensions()
    }
}

/// Decodes the front photo, then the side photo. A front photo that does not decode is
/// reported first; the side photo's error comes only after the front photo decoded.
pub fn decode_photos(front: &[u8], side: &[u8]) -> (res: Result<(Photo, Photo), String>)
    ensures
        res is Ok <==> decoded_photo(front@) is Ok && decoded_photo(side@) is Ok,
        res matches Ok((f, s)) ==> {
            &&& decoded_photo(front@) == Ok::<(u32, u32), Seq<char>>(photo_dimensions(f))
            &&& decoded_photo(side@) == Ok::<(u32, u32), Seq<char>>(photo_dimensions(s))
        },
        decoded_photo(front@) matches Err(e) ==> res matches Err(m) && m@ == e,
        decoded_photo(front@) is Ok ==> (decoded_photo(side@) matches Err(e) ==> res matches Err(m)
            && m@ == e),
{
    let front_photo = match decode_photo(front) {
        Ok(p) => p,
        Err(e) => return Err(e),
    };
    let side_photo = match decode_photo(side) {
        Ok(p) => p,
        Err(e) => return Err(e),
    };
    Ok((front_photo, side_photo))
}

} // verus!
