//! Pictures of files.

use crate::text::{cat2, Chars};
use image::{DynamicImage, GenericImageView, ImageReader};
use std::io::Cursor;
use vstd::prelude::*;

verus! {

/// `image::DynamicImage`: the pixels of a picture.
#[verifier::external_type_specification]
#[verifier::external_body]
pub struct ExDynamicImage(image::DynamicImage);

/// A picture and its size in pixels.
#[derive(Debug)]
pub struct Thumbnail {
    pub image: DynamicImage,
    pub width: u32,
    pub height: u32,
}

/// The step at which a picture could not be read.
#[derive(Clone, Copy, Debug, PartialEq, Eq, Structural)]
pub enum DecodeStep {
    Guess,
    Decode,
}

/// The picture that some bytes hold, or the step that failed and what went wrong.
pub uninterp spec fn decoded(bytes: Seq<u8>) -> Result<DynamicImage, (DecodeStep, Seq<char>)>;

/// The width and the height of a picture.
pub uninterp spec fn picture_size(image: DynamicImage) -> (u32, u32);

/// The reply of `decode`, as the specifications see it.
pub open spec fn picture_of_reply(r: Result<DynamicImage, (DecodeStep, String)>) -> Result<
    DynamicImage,
    (DecodeStep, Seq<char>),
> {
    match r {
        Ok(image) => Ok(image),
        Err(e) => Err((e.0, e.1@)),
    }
}

/// `image::ImageReader` on bytes in memory: `with_guessed_format`, and then `decode`. Without
/// decoding hooks, of which this crate registers none, the bytes alone decide which picture comes
/// out, or what the error says.
#[verifier::external_body]
fn decode(bytes: &Vec<u8>) -> (r: Result<DynamicImage, (DecodeStep, String)>)
    ensures
        picture_of_reply(r) == decoded(bytes@),
{
    let told = |e: anyhow::Error| format!("{e:#}");
    let reader = ImageReader::new(Cursor::new(bytes))
        .with_guessed_format()
        .map_err(|e| (DecodeStep::Guess, told(e.into())))?;
    reader.decode().map_err(|e| (DecodeStep::Decode, told(e.into())))
}

/// `image::GenericImageView::dimensions` of a picture.
#[verifier::external_body]
fn measure(image: &DynamicImage) -> (r: (u32, u32))
    ensures
        r == picture_size(*image),
{
    image.dimensions()
}

/// What is told of a picture that could not be read.
pub open spec fn decode_error(e: (DecodeStep, Chars)) -> Chars {
    match e.0 {
        DecodeStep::Guess => "failed to guess image format: "@ + e.1,
        DecodeStep::Decode => "failed to decode thumbnail image: "@ + e.1,
    }
}

/// Whether the drive answered a download with a picture: with a status from 200 to 299.
pub open spec fn is_success(status: u16) -> bool {
    200 <= status < 300
}

/// A picture with its size, or what is told where there is none.
pub open spec fn is_thumbnail(
    r: Result<Thumbnail, String>,
    picture: Result<DynamicImage, (DecodeStep, Chars)>,
) -> bool {
    match picture {
        Ok(image) => r is Ok && r->Ok_0.image == image && (r->Ok_0.width, r->Ok_0.height)
            == picture_size(image),
        Err(e) => r is Err && r->Err_0@ == decode_error(e),
    }
}

/// Tells what became of a picture that was read.
pub fn thumbnail_read(result: Result<DynamicImage, (DecodeStep, String)>) -> (r: Result<
    Thumbnail,
    String,
>)
    ensures
        is_thumbnail(r, picture_of_reply(result)),
{
    match result {
        Ok(image) => {
            let (width, height) = measure(&image);
            Ok(Thumbnail { image, width, height })
        },
        Err(e) => match e.0 {
            DecodeStep::Guess => Err(cat2("failed to guess image format: ", e.1.as_str())),
            DecodeStep::Decode => Err(cat2("failed to decode thumbnail image: ", e.1.as_str())),
        },
    }
}

/// Reads the picture that a download brought. `told` is how the status of the download is shown.
pub fn fetched_thumbnail(status: u16, told: &str, bytes: &Vec<u8>) -> (r: Result<Thumbnail, String>)
    ensures
        !is_success(status) ==> r is Err && r->Err_0@ == "thumbnail download failed: "@ + told@,
        is_success(status) ==> is_thumbnail(r, decoded(bytes@)),
{
    if status < 200 || status >= 300 {
        return Err(cat2("thumbnail download failed: ", told));
    }
    thumbnail_read(decode(bytes))
}

} // verus!
