//! Loading the texture: from the bytes of an image file to the pixels that
//! are uploaded, and the commands that upload them.
//!
//! The image is decoded before any texture object is asked for: a file that
//! cannot be decoded leaves nothing behind on the graphics side.

use vstd::prelude::*;
use crate::command::{Command, Texture, TextureFilter};
use crate::objects::Objects;

verus! {

/// The image formats of the `image` crate. Nothing is known of a value but
/// that it can be handed back to the crate.
#[verifier::external_type_specification]
#[verifier::external_body]
pub struct ExImageFormat(image::ImageFormat);

/// A decoded image of the `image` crate, in whatever pixel layout its file
/// had. Nothing is known of a value but what `rgba8_of` names.
#[verifier::external_type_specification]
#[verifier::external_body]
pub struct ExDynamicImage(image::DynamicImage);

/// The error of the `image` crate. Nothing is known of a value but what
/// `failure_kind` names.
#[verifier::external_type_specification]
#[verifier::external_body]
pub struct ExImageError(image::ImageError);

/// Why the `image` crate turned an image down.
#[derive(Clone, Copy, Debug, PartialEq, Eq, Structural)]
pub enum ImageFailure {
    /// The bytes are not a well-formed image of the format.
    Decoding,
    /// The image cannot be written in the format.
    Encoding,
    /// An argument was out of bounds.
    Parameter,
    /// Decoding would take more memory than allowed.
    Limits,
    /// The format is unknown or not supported.
    Unsupported,
    /// The bytes could not be read.
    Io,
}

/// Why a texture could not be loaded.
#[derive(Clone, Copy, Debug, PartialEq, Eq, Structural)]
pub enum TextureError {
    /// The image could not be decoded.
    Image(ImageFailure),
    /// A side of the image is longer than the graphics API has numbers for.
    TooLarge,
    /// There are fewer pixel bytes than the size of the image calls for.
    Truncated,
}

/// The pixels that are uploaded to a texture.
#[derive(Debug, PartialEq, Eq)]
pub struct TextureUpload {
    /// Width of the image in pixels.
    pub width: i32,
    /// Height of the image in pixels.
    pub height: i32,
    /// The pixels, row by row, four bytes each: red, green, blue, alpha.
    pub pixels: Vec<u8>,
}

/// Path of the image file that the texture is loaded from.
pub const TEXTURE_PATH: &'static str = "texture.png";

/// Number of bytes that one pixel takes.
pub const BYTES_PER_PIXEL: u64 = 4;

/// Longest side that the graphics API has a number for.
pub const MAX_SIDE: u32 = 0x7fff_ffff;

/// Number of bytes that an image of `width` by `height` pixels takes.
pub open spec fn pixel_bytes(width: int, height: int) -> int {
    width * height * 4
}

/// The commands that upload an image of `width` by `height` pixels to
/// `texture`: texture unit 0 is selected and the texture bound; the pixels
/// are uploaded as the one and only level, without a border; both filters
/// are set to linear; the texture is unbound.
pub open spec fn upload_commands(texture: Texture, width: i32, height: i32) -> Seq<Command> {
    seq![
        Command::ActiveTexture(0),
        Command::BindTexture(texture),
        Command::TexImage2D { level: 0, width, height, border: 0 },
        Command::TexFilterLinear(TextureFilter::Minification),
        Command::TexFilterLinear(TextureFilter::Magnification),
        Command::UnbindTexture,
    ]
}

impl TextureUpload {
    /// The sides are not negative, and there are four bytes for each pixel.
    pub open spec fn wf(self) -> bool {
        &&& 0 <= self.width
        &&& 0 <= self.height
        &&& self.pixels@.len() == pixel_bytes(self.width as int, self.height as int)
    }
}

/// What a load has come to, with the pixels as a sequence: the width, the
/// height and the pixels of the upload, or the error.
pub open spec fn outcome(r: Result<TextureUpload, TextureError>) -> Result<
    (i32, i32, Seq<u8>),
    TextureError,
> {
    match r {
        Ok(upload) => Ok((upload.width, upload.height, upload.pixels@)),
        Err(error) => Err(error),
    }
}

/// What is uploaded of a decoded image of `width` by `height` pixels whose
/// buffer is `raw`: the bytes that the size calls for, from the start of
/// `raw`. An image with a side longer than `MAX_SIDE` is turned down, and so
/// is one whose buffer is too short for its size.
pub open spec fn decoded_upload(width: u32, height: u32, raw: Seq<u8>) -> Result<
    (i32, i32, Seq<u8>),
    TextureError,
> {
    if width > MAX_SIDE || height > MAX_SIDE {
        Err(TextureError::TooLarge)
    } else if raw.len() < pixel_bytes(width as int, height as int) {
        Err(TextureError::Truncated)
    } else {
        Ok((width as i32, height as i32, raw.take(pixel_bytes(width as int, height as int))))
    }
}

/// The format that `image::ImageFormat::from_path` gives for a path, or its
/// error. The format goes by the extension of the path, which the function
/// takes as the platform's path rules have it.
pub uninterp spec fn format_named_by(path: Seq<char>) -> Result<
    image::ImageFormat,
    image::ImageError,
>;

/// The image that `image::load_from_memory_with_format` decodes from bytes
/// under a format, or its error. A format whose reader is not built in gives
/// the error.
pub uninterp spec fn decoded_image(bytes: Seq<u8>, format: image::ImageFormat) -> Result<
    image::DynamicImage,
    image::ImageError,
>;

/// The width, the height and the buffer of the image that
/// `image::DynamicImage::into_rgba8` converts a decoded image to.
pub uninterp spec fn rgba8_of(decoded: image::DynamicImage) -> (u32, u32, Seq<u8>);

/// The variant of an `image::ImageError`.
pub uninterp spec fn failure_kind(error: image::ImageError) -> ImageFailure;

/// What loading the file at `path` with the contents `bytes` comes to.
///
/// The format is the one that the path names. Where the path names none, or
/// the bytes cannot be decoded under it, the load fails with the kind of the
/// failure. Otherwise the decoded image is converted to four 8-bit channels
/// a pixel, and the load comes to what `decoded_upload` makes of it.
pub open spec fn loaded(path: Seq<char>, bytes: Seq<u8>) -> Result<
    (i32, i32, Seq<u8>),
    TextureError,
> {
    match format_named_by(path) {
        Err(error) => Err(TextureError::Image(failure_kind(error))),
        Ok(format) => match decoded_image(bytes, format) {
            Err(error) => Err(TextureError::Image(failure_kind(error))),
            Ok(decoded) => decoded_upload(
                rgba8_of(decoded).0,
                rgba8_of(decoded).1,
                rgba8_of(decoded).2,
            ),
        },
    }
}

/// Calls `image::ImageFormat::from_path`, which picks the format by the
/// extension of the path. The claim: the result depends on the path alone.
#[verifier::external_body]
fn format_of_path(path: &str) -> (r: Result<image::ImageFormat, image::ImageError>)
    ensures
        r == format_named_by(path@),
{
    image::ImageFormat::from_path(path)
}

/// Calls `image::load_from_memory_with_format`, which decodes the bytes as
/// an image of the format, under the crate's default limits. The claim: the
/// result depends on the bytes and the format alone. It rests on how the
/// crate is built: without its thread pool and without the OpenEXR reader,
/// so that every decoder runs in the calling thread.
#[verifier::external_body]
fn decode(bytes: &[u8], format: image::ImageFormat) -> (r: Result<
    image::DynamicImage,
    image::ImageError,
>)
    ensures
        r == decoded_image(bytes@, format),
{
    image::load_from_memory_with_format(bytes, format)
}

/// Calls `image::DynamicImage::into_rgba8`, which converts the image to
/// four 8-bit channels a pixel, and hands out the width, the height and the
/// buffer of the converted image. The claims: the result depends on the
/// image alone, and the buffer is at least as long as the size calls for,
/// which every constructor of the crate's image buffer sees to.
#[verifier::external_body]
fn into_rgba8(decoded: image::DynamicImage) -> (r: (u32, u32, Vec<u8>))
    ensures
        (r.0, r.1, r.2@) == rgba8_of(decoded),
        r.2@.len() >= r.0 * r.1 * 4,
{
    let rgba = decoded.into_rgba8();
    (rgba.width(), rgba.height(), rgba.into_raw())
}

/// Tells the variants of `image::ImageError` apart. The claim: the result
/// depends on the error alone.
#[verifier::external_body]
fn failure_of(error: &image::ImageError) -> (r: ImageFailure)
    ensures
        r == failure_kind(*error),
{
    match error {
        image::ImageError::Decoding(_) => ImageFailure::Decoding,
        image::ImageError::Encoding(_) => ImageFailure::Encoding,
        image::ImageError::Parameter(_) => ImageFailure::Parameter,
        image::ImageError::Limits(_) => ImageFailure::Limits,
        image::ImageError::Unsupported(_) => ImageFailure::Unsupported,
        image::ImageError::IoError(_) => ImageFailure::Io,
    }
}

/// Builds the commands that upload a loaded image to a texture that has
/// been created: those of `upload_commands` for the size of the image.
pub fn texture_commands(texture: Texture, upload: &TextureUpload) -> (commands: Vec<Command>)
    ensures
        commands@ == upload_commands(texture, upload.width, upload.height),
{
    let mut commands: Vec<Command> = Vec::new();
    commands.push(Command::ActiveTexture(0));
    commands.push(Command::BindTexture(texture));
    commands.push(
        Command::TexImage2D { level: 0, width: upload.width, height: upload.height, border: 0 },
    );
    commands.push(Command::TexFilterLinear(TextureFilter::Minification));
    commands.push(Command::TexFilterLinear(TextureFilter::Magnification));
    commands.push(Command::UnbindTexture);
    commands
}

/// Takes from a decoded image what is uploaded.
///
/// `raw` holds the pixels row by row, four bytes each. The upload takes the
/// bytes that the size calls for, from the start of `raw`; what follows
/// them is dropped. The image is turned down where a side is longer than
/// `MAX_SIDE` or where `raw` is too short for the size.
pub fn upload_decoded(width: u32, height: u32, raw: Vec<u8>) -> (r: Result<
    TextureUpload,
    TextureError,
>)
    ensures
        outcome(r) == decoded_upload(width, height, raw@),
        r matches Ok(upload) ==> upload.wf(),
{
    if width > MAX_SIDE || height > MAX_SIDE {
        return Err(TextureError::TooLarge);
    }
    assert(width as int * height as int <= 0x7fff_ffff * 0x7fff_ffff) by (nonlinear_arith)
        requires
            0 <= width <= 0x7fff_ffff,
            0 <= height <= 0x7fff_ffff,
    ;
    let count: u64 = width as u64 * height as u64;
    let needed: u64 = count * BYTES_PER_PIXEL;
    if (raw.len() as u64) < needed {
        return Err(TextureError::Truncated);
    }
    let mut pixels = raw;
    pixels.truncate(needed as usize);
    Ok(TextureUpload { width: width as i32, height: height as i32, pixels })
}

/// Loads the image of a file.
///
/// `path` is the path of the file and `bytes` are its contents. The format
/// is the one that the extension of `path` names; the image is decoded and
/// converted to four 8-bit channels a pixel, and what is uploaded is taken
/// from it as `upload_decoded` does. A file that cannot be decoded is turned
/// down with `TextureError::Image`. No texture is named: the texture is
/// created once the load has succeeded, and `texture_commands` takes what
/// was loaded.
pub fn load_texture(path: &str, bytes: &[u8]) -> (r: Result<TextureUpload, TextureError>)
    ensures
        outcome(r) == loaded(path@, bytes@),
        r matches Ok(upload) ==> upload.wf(),
        r != Err::<TextureUpload, TextureError>(TextureError::Truncated),
{
    let format = match format_of_path(path) {
        Ok(format) => format,
        Err(error) => {
            return Err(TextureError::Image(failure_of(&error)));
        },
    };
    let decoded = match decode(bytes, format) {
        Ok(decoded) => decoded,
        Err(error) => {
            return Err(TextureError::Image(failure_of(&error)));
        },
    };
    let (width, height, raw) = into_rgba8(decoded);
    upload_decoded(width, height, raw)
}

/// Uploading a texture never names an object that does not exist: where the
/// texture exists, the commands of an upload are admitted one after the
/// other, and leave every object as it was.
pub proof fn lemma_upload_is_admitted(objects: Objects, texture: Texture, width: i32, height: i32)
    requires
        objects.textures.contains(texture),
    ensures
        objects.admits_batch(upload_commands(texture, width, height)),
        objects.after_batch(upload_commands(texture, width, height)) == objects,
{
    reveal_with_fuel(Objects::admits_batch, 7);
    reveal_with_fuel(Objects::after_batch, 7);
}

} // verus!
