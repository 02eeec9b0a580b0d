//! The transform of one image file: decode, scale, encode again in the format
//! that the file's path names.

use crate::request::{
    allocatable, lemma_enlarge_gives_products, lemma_enlarge_then_shrink,
    lemma_factor_one_keeps_size, lemma_shrink_gives_quotients, lemma_shrunk_then_enlarged_size,
    scaled_size, FilterKind, ScaleOp, ScaleRequest, Size, TransformError, MAX_SIDE,
};
use image::imageops::FilterType;
use image::{DynamicImage, ImageError, ImageFormat};
use vstd::prelude::*;

verus! {

#[verifier::external_type_specification]
#[verifier::external_body]
pub struct ExDynamicImage(DynamicImage);

#[verifier::external_type_specification]
#[verifier::external_body]
pub struct ExImageFormat(ImageFormat);

#[verifier::external_type_specification]
#[verifier::external_body]
pub struct ExImageError(ImageError);

/// The width of a decoded image in pixels.
pub uninterp spec fn pixel_width(img: DynamicImage) -> u32;

/// The height of a decoded image in pixels.
pub uninterp spec fn pixel_height(img: DynamicImage) -> u32;

/// The format that the extension of a path names, if it names one.
pub uninterp spec fn format_named(path: Seq<char>) -> Option<ImageFormat>;

/// The image that bytes hold when read in a format, if they hold one.
pub uninterp spec fn image_held(bytes: Seq<u8>, format: ImageFormat) -> Option<DynamicImage>;

/// The image resampled with a filter to exactly `nwidth` by `nheight` pixels.
pub uninterp spec fn resampled(
    img: DynamicImage,
    nwidth: u32,
    nheight: u32,
    filter: FilterKind,
) -> DynamicImage;

/// Whether a format can hold an image, so that writing the image in it
/// succeeds.
pub uninterp spec fn encodes(img: DynamicImage, format: ImageFormat) -> bool;

/// The size of a decoded image.
pub open spec fn size_of(img: DynamicImage) -> Size {
    Size { width: pixel_width(img), height: pixel_height(img) }
}

/// `DynamicImage::width`: the width of the pixel buffer that the image holds.
pub assume_specification[ DynamicImage::width ](img: &DynamicImage) -> (w: u32)
    ensures
        w == pixel_width(*img),
;

/// `DynamicImage::height`: the height of the pixel buffer that the image holds.
pub assume_specification[ DynamicImage::height ](img: &DynamicImage) -> (h: u32)
    ensures
        h == pixel_height(*img),
;

/// `ImageFormat::from_path`: the format that the extension of a path names.
/// It reads the path's text alone and fails where the extension is missing or
/// names no format.
#[verifier::external_body]
fn format_from_path(path: &str) -> (r: Result<ImageFormat, ImageError>)
    ensures
        r matches Ok(format) ==> format_named(path@) == Some(format),
        r is Err ==> format_named(path@) is None,
{
    ImageFormat::from_path(path)
}

/// `image::load_from_memory_with_format`: the image that the bytes hold when
/// read in the given format. The outcome depends on the bytes and the format
/// alone.
#[verifier::external_body]
fn decode(bytes: &[u8], format: ImageFormat) -> (r: Result<DynamicImage, ImageError>)
    ensures
        r matches Ok(img) ==> image_held(bytes@, format) == Some(img),
        r is Err ==> image_held(bytes@, format) is None,
{
    image::load_from_memory_with_format(bytes, format)
}

/// `DynamicImage::write_to` on a buffer in memory: the bytes of the image in
/// the given format. Whether the call succeeds depends on the image and the
/// format alone. Which bytes it writes does not: a format may lay out its
/// file in the order in which worker threads finish, so nothing is claimed of
/// the bytes.
#[verifier::external_body]
fn encode(img: &DynamicImage, format: ImageFormat) -> (r: Result<Vec<u8>, ImageError>)
    ensures
        r is Ok <==> encodes(*img, format),
{
    let mut out = std::io::Cursor::new(Vec::new());
    img.write_to(&mut out, format)?;
    Ok(out.into_inner())
}

/// `DynamicImage::resize_exact`: a new image of exactly `nwidth` by `nheight`
/// pixels, resampled with the filter; it depends on the image, the sides and
/// the filter alone. The call places pixels with 32-bit floats and allocates a
/// buffer of the image's width by the new height and one of the new size. It
/// is made only where every side is at least one and at most `MAX_SIDE`, and
/// both buffers can be allocated.
#[verifier::external_body]
fn resize(img: &DynamicImage, nwidth: u32, nheight: u32, filter: FilterKind) -> (out: DynamicImage)
    requires
        1 <= pixel_width(*img) <= MAX_SIDE,
        1 <= pixel_height(*img) <= MAX_SIDE,
        1 <= nwidth <= MAX_SIDE,
        1 <= nheight <= MAX_SIDE,
        allocatable(pixel_width(*img) as nat, nheight as nat),
        allocatable(nwidth as nat, nheight as nat),
    ensures
        out == resampled(*img, nwidth, nheight, filter),
        pixel_width(out) == nwidth,
        pixel_height(out) == nheight,
{
    let filter = match filter {
        FilterKind::Nearest => FilterType::Nearest,
        FilterKind::Triangle => FilterType::Triangle,
        FilterKind::CatmullRom => FilterType::CatmullRom,
        FilterKind::Gaussian => FilterType::Gaussian,
        FilterKind::Lanczos3 => FilterType::Lanczos3,
    };
    img.resize_exact(nwidth, nheight, filter)
}

/// What scaling a decoded image comes to: the image resampled to its scaled
/// size, or the reason why it is not scaled.
pub open spec fn scaled_image(img: DynamicImage, op: ScaleOp, factor: nat, filter: FilterKind) -> Result<
    DynamicImage,
    TransformError,
> {
    match scaled_size(op, factor, pixel_width(img) as nat, pixel_height(img) as nat) {
        Ok(size) => Ok(resampled(img, size.width, size.height, filter)),
        Err(e) => Err(e),
    }
}

/// Scales a decoded image as the request says: the image is resampled with the
/// request's filter to exactly its scaled size.
pub fn scale_image(img: &DynamicImage, request: &ScaleRequest) -> (r: Result<
    DynamicImage,
    TransformError,
>)
    ensures
        r == scaled_image(*img, request.op(), request.factor(), request.filter()),
        r matches Ok(out) ==> Ok::<Size, TransformError>(size_of(out)) == scaled_size(
            request.op(),
            request.factor(),
            pixel_width(*img) as nat,
            pixel_height(*img) as nat,
        ),
{
    let native = Size { width: img.width(), height: img.height() };
    match request.scaled_size(native) {
        Ok(size) => Ok(resize(img, size.width, size.height, request.get_filter())),
        Err(e) => Err(e),
    }
}

/// One image file after scaling.
#[derive(Clone, Debug)]
pub struct Rescaled {
    /// The new bytes of the file, in the format that its path names.
    pub bytes: Vec<u8>,
    /// The size of the image that the file held.
    pub native: Size,
    /// The size of the image that the bytes hold now.
    pub scaled: Size,
}

/// A scaled file as a mathematical value.
pub struct ScaledFile {
    pub bytes: Seq<u8>,
    pub native: Size,
    pub scaled: Size,
}

impl View for Rescaled {
    type V = ScaledFile;

    open spec fn view(&self) -> ScaledFile {
        ScaledFile { bytes: self.bytes@, native: self.native, scaled: self.scaled }
    }
}

/// The sizes of an image before and after scaling.
pub struct SizeChange {
    pub native: Size,
    pub scaled: Size,
}

/// What the transform of one image file comes to, but for the bytes it
/// writes. A factor of zero is refused first. Then the path has to name a
/// format, the bytes have to hold an image in that format, the image has to
/// have a scaled size, and the format has to hold the image resampled to that
/// size.
pub open spec fn rescaled(
    path: Seq<char>,
    bytes: Seq<u8>,
    op: ScaleOp,
    factor: nat,
    filter: FilterKind,
) -> Result<SizeChange, TransformError> {
    if factor == 0 {
        Err(TransformError::ZeroFactor)
    } else {
        match format_named(path) {
            None => Err(TransformError::UnknownFormat),
            Some(format) => match image_held(bytes, format) {
                None => Err(TransformError::Undecodable),
                Some(img) => match scaled_size(
                    op,
                    factor,
                    pixel_width(img) as nat,
                    pixel_height(img) as nat,
                ) {
                    Err(e) => Err(e),
                    Ok(size) => if encodes(
                        resampled(img, size.width, size.height, filter),
                        format,
                    ) {
                        Ok(SizeChange { native: size_of(img), scaled: size })
                    } else {
                        Err(TransformError::Unencodable)
                    },
                },
            },
        }
    }
}

/// A file that was scaled has the scaled size of the image it held. So
/// shrinking an image whose sides are at least the factor gives exactly the
/// quotients of its sides, enlarging gives exactly the products, and a factor
/// of one keeps the size.
pub proof fn lemma_rescaled_size(
    path: Seq<char>,
    bytes: Seq<u8>,
    op: ScaleOp,
    factor: nat,
    filter: FilterKind,
)
    ensures
        rescaled(path, bytes, op, factor, filter) matches Ok(file) ==> {
            let w = file.native.width as nat;
            let h = file.native.height as nat;
            &&& factor >= 1
            &&& scaled_size(op, factor, w, h) == Ok::<Size, TransformError>(file.scaled)
            &&& op == ScaleOp::Up ==> file.scaled.width == w * factor && file.scaled.height == h
                * factor
            &&& op == ScaleOp::Down && w >= factor && h >= factor ==> file.scaled.width == w
                / factor && file.scaled.height == h / factor
            &&& factor == 1 ==> file.scaled == file.native
        },
{
    match rescaled(path, bytes, op, factor, filter) {
        Ok(file) => {
            let w = file.native.width as nat;
            let h = file.native.height as nat;
            lemma_enlarge_gives_products(factor, w, h);
            lemma_factor_one_keeps_size(op, w, h);
            if w >= factor && h >= factor {
                lemma_shrink_gives_quotients(factor, w, h);
            }
        },
        Err(_) => {},
    }
}

/// Enlarging a file and then shrinking by the same factor gives the first size
/// back: whatever bytes the first transform wrote, if the second transform
/// reads from them an image of the size that the first one made, it makes an
/// image of the size that the first one read.
pub proof fn lemma_enlarged_then_shrunk(
    path: Seq<char>,
    bytes: Seq<u8>,
    written: Seq<u8>,
    factor: nat,
    filter: FilterKind,
    again: FilterKind,
)
    ensures
        rescaled(path, bytes, ScaleOp::Up, factor, filter) matches Ok(big) ==> (rescaled(
            path,
            written,
            ScaleOp::Down,
            factor,
            again,
        ) matches Ok(back) ==> (back.native == big.scaled ==> back.scaled == big.native)),
{
    lemma_rescaled_size(path, bytes, ScaleOp::Up, factor, filter);
    lemma_rescaled_size(path, written, ScaleOp::Down, factor, again);
    match rescaled(path, bytes, ScaleOp::Up, factor, filter) {
        Ok(big) => {
            lemma_enlarge_then_shrink(
                factor,
                big.native.width as nat,
                big.native.height as nat,
            );
        },
        Err(_) => {},
    }
}

/// Shrinking a file whose sides are at least the factor and then enlarging by
/// the same factor gives each side back as the largest multiple of the factor
/// that is not above it: whatever bytes the first transform wrote, if the
/// second transform reads from them an image of the size that the first one
/// made, that is the size it makes. The first size comes back exactly where
/// the factor divides both sides.
pub proof fn lemma_shrunk_then_enlarged(
    path: Seq<char>,
    bytes: Seq<u8>,
    written: Seq<u8>,
    factor: nat,
    filter: FilterKind,
    again: FilterKind,
)
    ensures
        rescaled(path, bytes, ScaleOp::Down, factor, filter) matches Ok(small) ==> (rescaled(
            path,
            written,
            ScaleOp::Up,
            factor,
            again,
        ) matches Ok(back) ==> (back.native == small.scaled && small.native.width >= factor
            && small.native.height >= factor ==> {
            let w = small.native.width as nat;
            let h = small.native.height as nat;
            &&& back.scaled.width == w - w % factor
            &&& back.scaled.height == h - h % factor
            &&& back.scaled == small.native <==> w % factor == 0 && h % factor == 0
        })),
{
    lemma_rescaled_size(path, bytes, ScaleOp::Down, factor, filter);
    lemma_rescaled_size(path, written, ScaleOp::Up, factor, again);
    match rescaled(path, bytes, ScaleOp::Down, factor, filter) {
        Ok(small) => {
            if small.native.width >= factor && small.native.height >= factor {
                lemma_shrunk_then_enlarged_size(
                    factor,
                    small.native.width as nat,
                    small.native.height as nat,
                );
            }
        },
        Err(_) => {},
    }
}

/// Whether a result is the outcome `expected`: the same error, or a scaled
/// file with the same sizes, whatever its bytes.
pub open spec fn is_outcome(
    r: Result<Rescaled, TransformError>,
    expected: Result<SizeChange, TransformError>,
) -> bool {
    match expected {
        Ok(change) => r matches Ok(done) && done.native == change.native && done.scaled
            == change.scaled,
        Err(e) => r matches Err(got) && got == e,
    }
}

impl Rescaled {
    /// Ends the transform of one file with what the encoder gave: the scaled
    /// file with the bytes that were written, or the failure to encode.
    pub fn finish(native: Size, scaled: Size, encoded: Result<Vec<u8>, ImageError>) -> (r: Result<
        Rescaled,
        TransformError,
    >)
        ensures
            match encoded {
                Ok(bytes) => r matches Ok(done) && done@ == (ScaledFile {
                    bytes: bytes@,
                    native,
                    scaled,
                }),
                Err(_) => r matches Err(e) && e == TransformError::Unencodable,
            },
    {
        match encoded {
            Ok(bytes) => Ok(Rescaled { bytes, native, scaled }),
            Err(_) => Err(TransformError::Unencodable),
        }
    }
}

/// Transforms the bytes of one image file: decodes them in the format that the
/// path's extension names, scales the image as the request says, and encodes it
/// in the same format.
pub fn rescale(path: &str, bytes: &[u8], request: &ScaleRequest) -> (r: Result<
    Rescaled,
    TransformError,
>)
    ensures
        is_outcome(
            r,
            rescaled(path@, bytes@, request.op(), request.factor(), request.filter()),
        ),
{
    // A request never holds a factor of zero.
    let _ = request.get_factor();
    let format = match format_from_path(path) {
        Ok(format) => format,
        Err(_) => {
            return Err(TransformError::UnknownFormat);
        },
    };
    let img = match decode(bytes, format) {
        Ok(img) => img,
        Err(_) => {
            return Err(TransformError::Undecodable);
        },
    };
    let native = Size { width: img.width(), height: img.height() };
    let out = match scale_image(&img, request) {
        Ok(out) => out,
        Err(e) => {
            return Err(e);
        },
    };
    let scaled = Size { width: out.width(), height: out.height() };
    Rescaled::finish(native, scaled, encode(&out, format))
}

/// Shrinks one image file by `scale_factor`: each side is divided by the
/// factor, the remainder dropped, and the image is resampled to that size. A
/// factor of zero is refused before the file is looked at.
pub fn scale_down(path: &str, bytes: &[u8], scale_factor: u32, filter: FilterKind) -> (r: Result<
    Rescaled,
    TransformError,
>)
    ensures
        is_outcome(r, rescaled(path@, bytes@, ScaleOp::Down, scale_factor as nat, filter)),
{
    match ScaleRequest::new(ScaleOp::Down, scale_factor, filter) {
        Some(request) => rescale(path, bytes, &request),
        None => Err(TransformError::ZeroFactor),
    }
}

/// Enlarges one image file by `scale_factor`: each side is multiplied by the
/// factor, and the image is resampled to that size. A factor of zero is
/// refused before the file is looked at.
pub fn scale_up(path: &str, bytes: &[u8], scale_factor: u32, filter: FilterKind) -> (r: Result<
    Rescaled,
    TransformError,
>)
    ensures
        is_outcome(r, rescaled(path@, bytes@, ScaleOp::Up, scale_factor as nat, filter)),
{
    match ScaleRequest::new(ScaleOp::Up, scale_factor, filter) {
        Some(request) => rescale(path, bytes, &request),
        None => Err(TransformError::ZeroFactor),
    }
}

} // verus!
