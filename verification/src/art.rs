//! Album-art cache naming: where the thumbnail for a cover source is stored and served.
use vstd::prelude::*;

use crate::text::{chars_of, string_from_chars};

verus! {

/// Name for what `md5::compute` returns on a byte sequence: its 16-byte MD5 digest.
pub uninterp spec fn md5_digest(data: Seq<u8>) -> Seq<u8>;

/// `md5::compute`. Trusted: the digest is `md5_digest` of the input bytes; its length, 16,
/// is that of the `md5::Digest` array type.
#[verifier::external_body]
fn md5_compute(data: &[u8]) -> (d: [u8; 16])
    ensures
        d@ == md5_digest(data@),
{
    md5::compute(data).0
}

/// The lowercase hexadecimal digit for a value below 16.
pub open spec fn hex_digit_spec(n: u8) -> char {
    if n < 10 {
        (48 + n) as char
    } else {
        (87 + n) as char
    }
}

/// Lowercase hexadecimal text of bytes, two digits per byte (`{:02x}` for each byte).
pub open spec fn hex_lower_spec(b: Seq<u8>) -> Seq<char>
    decreases b.len(),
{
    if b.len() == 0 {
        Seq::empty()
    } else {
        hex_lower_spec(b.drop_last()).push(hex_digit_spec(b.last() / 16)).push(
            hex_digit_spec(b.last() % 16),
        )
    }
}

/// Text made of lowercase hexadecimal digits only.
pub open spec fn is_lower_hex(s: Seq<char>) -> bool {
    forall|i: int| 0 <= i < s.len() ==> ('0' <= #[trigger] s[i] <= '9') || ('a' <= s[i] <= 'f')
}

/// Hex text has two lowercase hex digits per byte.
pub proof fn lemma_hex_lower_shape(b: Seq<u8>)
    ensures
        hex_lower_spec(b).len() == 2 * b.len(),
        is_lower_hex(hex_lower_spec(b)),
    decreases b.len(),
{
    if b.len() > 0 {
        lemma_hex_lower_shape(b.drop_last());
        let hi = hex_digit_spec(b.last() / 16);
        let lo = hex_digit_spec(b.last() % 16);
        assert(('0' <= hi <= '9') || ('a' <= hi <= 'f'));
        assert(('0' <= lo <= '9') || ('a' <= lo <= 'f'));
    }
}

fn hex_digit(n: u8) -> (c: char)
    requires
        n < 16,
    ensures
        c == hex_digit_spec(n),
{
    if n < 10 {
        (48 + n) as char
    } else {
        (87 + n) as char
    }
}

/// Lowercase hexadecimal text of bytes.
pub fn hex_lower(b: &[u8]) -> (r: Vec<char>)
    ensures
        r@ == hex_lower_spec(b@),
{
    let mut r: Vec<char> = Vec::new();
    let mut i: usize = 0;
    while i < b.len()
        invariant
            i <= b@.len(),
            r@ == hex_lower_spec(b@.take(i as int)),
        decreases b@.len() - i,
    {
        assert(b@.take(i + 1).drop_last() =~= b@.take(i as int));
        r.push(hex_digit(b[i] / 16));
        r.push(hex_digit(b[i] % 16));
        i = i + 1;
    }
    assert(b@.take(b@.len() as int) =~= b@);
    r
}

/// Lowercase hex MD5 digest of bytes.
pub fn md5_bytes_hex(data: &[u8]) -> (r: Vec<char>)
    ensures
        r@ == hex_lower_spec(md5_digest(data@)),
        r@.len() == 32,
        is_lower_hex(r@),
{
    let d = md5_compute(data);
    proof {
        lemma_hex_lower_shape(d@);
    }
    hex_lower(&d)
}

/// Lowercase hex MD5 digest of a text's UTF-8 bytes (`format!("{:x}", md5::compute(..))`).
pub open spec fn md5_hex_spec(s: Seq<char>) -> Seq<char> {
    hex_lower_spec(md5_digest(vstd::utf8::encode_utf8(s)))
}

/// Lowercase hex MD5 digest of a text's UTF-8 bytes.
pub fn md5_hex(s: &str) -> (r: Vec<char>)
    ensures
        r@ == md5_hex_spec(s@),
        r@.len() == 32,
        is_lower_hex(r@),
{
    let d = md5_compute(s.as_bytes());
    proof {
        lemma_hex_lower_shape(d@);
    }
    hex_lower(&d)
}

} // verus!

verus! {

/// File name of the cached thumbnail for a cover source: its MD5 in hex, then `.jpg`.
pub open spec fn art_file_name_spec(source: Seq<char>) -> Seq<char> {
    md5_hex_spec(source) + ".jpg"@
}

/// URL under which the web server serves the cached thumbnail for a cover source.
pub open spec fn art_relative_url_spec(source: Seq<char>) -> Seq<char> {
    "/art/"@ + art_file_name_spec(source)
}

/// Where a cover source's thumbnail lives inside the art cache directory.
pub open spec fn art_cache_path_spec(art_cache_dir: Seq<char>, source: Seq<char>) -> Seq<char> {
    crate::text::path_join_spec(art_cache_dir, art_file_name_spec(source))
}

/// The served URL and the cache file of a cover source's thumbnail.
pub struct ArtPaths {
    pub relative_url: String,
    pub cache_path: String,
}

fn art_file_name(source: &str) -> (r: Vec<char>)
    ensures
        r@ == art_file_name_spec(source@),
        md5_hex_spec(source@).len() == 32,
        is_lower_hex(md5_hex_spec(source@)),
{
    let mut name = md5_hex(source);
    crate::text::push_str(&mut name, ".jpg");
    name
}

/// The served URL of a cover source's thumbnail.
pub fn art_relative_url(source: &str) -> (r: String)
    ensures
        r@ == art_relative_url_spec(source@),
        md5_hex_spec(source@).len() == 32,
        is_lower_hex(md5_hex_spec(source@)),
{
    let name = art_file_name(source);
    let mut url = chars_of("/art/");
    crate::text::push_chars(&mut url, name.as_slice());
    string_from_chars(url.as_slice())
}

/// The served URL and cache file of a cover source's thumbnail (whether the file exists
/// is for the caller to find out).
pub fn art_paths(art_cache_dir: &str, source: &str) -> (r: ArtPaths)
    ensures
        r.relative_url@ == art_relative_url_spec(source@),
        r.cache_path@ == art_cache_path_spec(art_cache_dir@, source@),
        md5_hex_spec(source@).len() == 32,
        is_lower_hex(md5_hex_spec(source@)),
{
    let name = art_file_name(source);
    let relative_url = art_relative_url(source);
    let cache_path = crate::text::path_join(art_cache_dir, name.as_slice());
    ArtPaths { relative_url, cache_path }
}

/// Where the bytes of a cover come from.
#[derive(Debug)]
pub enum CoverSource {
    /// A `file://` URL: the local path that follows the scheme.
    LocalFile(String),
    /// A URL that starts with `http`: fetched over the web.
    Web(String),
    /// Anything else: refused.
    Unsupported,
}

/// Classifies a remote cover URL: `file://` paths are read locally, `http…` URLs are
/// fetched, anything else is unsupported.
pub fn cover_source(url: &str) -> (r: CoverSource)
    ensures
        crate::text::starts_with_spec(url@, "file://"@) ==> (r matches CoverSource::LocalFile(p)
            && p@ == url@.skip(7)),
        !crate::text::starts_with_spec(url@, "file://"@) && crate::text::starts_with_spec(
            url@,
            "http"@,
        ) ==> (r matches CoverSource::Web(u) && u@ == url@),
        !crate::text::starts_with_spec(url@, "file://"@) && !crate::text::starts_with_spec(
            url@,
            "http"@,
        ) ==> r is Unsupported,
{
    let c = chars_of(url);
    if crate::text::starts_with(c.as_slice(), "file://") {
        proof {
            reveal_strlit("file://");
        }
        let mut rest: Vec<char> = Vec::new();
        let mut i: usize = 7;
        while i < c.len()
            invariant
                7 <= i <= c@.len(),
                rest@ == c@.subrange(7, i as int),
            decreases c@.len() - i,
        {
            rest.push(c[i]);
            assert(c@.subrange(7, i + 1) =~= c@.subrange(7, i as int).push(c@[i as int]));
            i = i + 1;
        }
        assert(rest@ =~= url@.skip(7));
        CoverSource::LocalFile(string_from_chars(rest.as_slice()))
    } else if crate::text::starts_with(c.as_slice(), "http") {
        CoverSource::Web(string_from_chars(c.as_slice()))
    } else {
        CoverSource::Unsupported
    }
}

} // verus!

verus! {

#[verifier::external_type_specification]
#[verifier::external_body]
pub struct ExDynamicImage(image::DynamicImage);

#[verifier::external_type_specification]
#[verifier::external_body]
pub struct ExImageError(image::ImageError);

/// Side length, in pixels, of the square thumbnails the art cache holds.
pub const THUMBNAIL_SIZE: u32 = 128;

/// The resampling filter a resize uses.
#[derive(Clone, Copy, Debug, PartialEq, Eq, Structural)]
pub enum ResizeFilter {
    Nearest,
    Triangle,
    CatmullRom,
    Gaussian,
    Lanczos3,
}

/// A step applied to a decoded image.
pub enum ImageStep {
    /// Resampled to exactly `width` by `height` pixels with `filter`.
    Resize { width: u32, height: u32, filter: ResizeFilter },
    /// Converted to 8-bit RGB.
    ToRgb8,
}

/// How an image was made: the bytes it was decoded from, then the steps applied to it, in
/// order. Decoding, resizing and converting depend on nothing else, so this fixes the image.
pub struct ImageModel {
    pub source: Seq<u8>,
    pub steps: Seq<ImageStep>,
}

/// The model of an image after one more step.
pub open spec fn with_step(m: ImageModel, step: ImageStep) -> ImageModel {
    ImageModel { source: m.source, steps: m.steps.push(step) }
}

/// A decoded image together with how it was made; only the image wrappers below make one.
struct Image {
    img: image::DynamicImage,
    model: Ghost<ImageModel>,
}

impl View for Image {
    type V = ImageModel;

    closed spec fn view(&self) -> ImageModel {
        self.model@
    }
}

/// Name for whether `image::load_from_memory` decodes a byte sequence: whether the bytes
/// are an image in a format it recognises from them and can decode within its default
/// limits.
pub uninterp spec fn image_decodes(bytes: Seq<u8>) -> bool;

/// Name for what `image::DynamicImage::write_to` with `ImageFormat::Jpeg` writes for the
/// image a model describes: the JPEG bytes, or `None` when the encoder fails.
pub uninterp spec fn jpeg_encoding(image: ImageModel) -> Option<Seq<u8>>;

/// `image::load_from_memory`: decodes an image, guessing its format from its bytes.
/// Trusted: it succeeds exactly when `image_decodes` holds of the bytes (the outcome
/// depends on the bytes alone), and the image is the one decoded from them.
#[verifier::external_body]
fn load_image(bytes: &[u8]) -> (r: Result<Image, image::ImageError>)
    ensures
        r is Ok == image_decodes(bytes@),
        r matches Ok(img) ==> img@ == (ImageModel { source: bytes@, steps: Seq::empty() }),
{
    match image::load_from_memory(bytes) {
        Ok(img) => Ok(Image { img, model: Ghost(ImageModel { source: bytes@, steps: Seq::empty() }) }),
        Err(e) => Err(e),
    }
}

/// `image::DynamicImage::resize_exact`: the image resampled to exactly the given size.
/// Trusted: the result is the given image with that resize step added to its model.
#[verifier::external_body]
fn resize_exact(img: &Image, width: u32, height: u32, filter: ResizeFilter) -> (r: Image)
    ensures
        r@ == with_step(img@, ImageStep::Resize { width, height, filter }),
{
    let f = match filter {
        ResizeFilter::Nearest => image::imageops::FilterType::Nearest,
        ResizeFilter::Triangle => image::imageops::FilterType::Triangle,
        ResizeFilter::CatmullRom => image::imageops::FilterType::CatmullRom,
        ResizeFilter::Gaussian => image::imageops::FilterType::Gaussian,
        ResizeFilter::Lanczos3 => image::imageops::FilterType::Lanczos3,
    };
    let model = Ghost(with_step(img@, ImageStep::Resize { width, height, filter }));
    Image { img: img.img.resize_exact(width, height, f), model }
}

/// `image::DynamicImage::to_rgb8`: the image as 8-bit RGB. Trusted: the result is the
/// given image with the conversion step added to its model.
#[verifier::external_body]
fn to_rgb8(img: &Image) -> (r: Image)
    ensures
        r@ == with_step(img@, ImageStep::ToRgb8),
{
    let model = Ghost(with_step(img@, ImageStep::ToRgb8));
    Image { img: image::DynamicImage::ImageRgb8(img.img.to_rgb8()), model }
}

/// `image::DynamicImage::write_to` with `ImageFormat::Jpeg` into memory. Trusted: the
/// bytes written are `jpeg_encoding` of the image's model, and it fails exactly when that
/// is `None`.
#[verifier::external_body]
fn encode_jpeg(img: &Image) -> (r: Result<Vec<u8>, image::ImageError>)
    ensures
        match r {
            Ok(v) => jpeg_encoding(img@) == Some(v@),
            Err(_) => jpeg_encoding(img@) is None,
        },
{
    let mut out: Vec<u8> = Vec::new();
    img.img.write_to(std::io::Cursor::new(&mut out), image::ImageFormat::Jpeg).map(|_| out)
}

/// The image a thumbnail is encoded from: the decoded bytes resized to 128 by 128 pixels
/// with a triangle filter, then converted to 8-bit RGB.
pub open spec fn thumbnail_model(bytes: Seq<u8>) -> ImageModel {
    ImageModel {
        source: bytes,
        steps: seq![
            ImageStep::Resize { width: THUMBNAIL_SIZE, height: THUMBNAIL_SIZE, filter: ResizeFilter::Triangle },
            ImageStep::ToRgb8,
        ],
    }
}

/// Why a thumbnail could not be made.
#[derive(Debug)]
pub enum ThumbnailError {
    /// The bytes are not an image in a known format.
    Decode,
    /// The thumbnail could not be encoded as JPEG.
    Encode,
}

/// Makes the cached thumbnail of an image: resized to 128 by 128 pixels with a triangle
/// filter (the aspect ratio is not kept), converted to RGB, encoded as JPEG. It fails with
/// `Decode` exactly when the bytes are not an image the decoder reads, and with `Encode`
/// exactly when the JPEG encoder fails on the thumbnail image.
pub fn render_thumbnail(image_bytes: &[u8]) -> (r: Result<Vec<u8>, ThumbnailError>)
    ensures
        !image_decodes(image_bytes@) ==> r matches Err(ThumbnailError::Decode),
        image_decodes(image_bytes@) ==> match jpeg_encoding(thumbnail_model(image_bytes@)) {
            Some(j) => r matches Ok(v) && v@ == j,
            None => r matches Err(ThumbnailError::Encode),
        },
{
    let img = match load_image(image_bytes) {
        Ok(img) => img,
        Err(_) => {
            return Err(ThumbnailError::Decode);
        },
    };
    let resized = resize_exact(&img, THUMBNAIL_SIZE, THUMBNAIL_SIZE, ResizeFilter::Triangle);
    let rgb = to_rgb8(&resized);
    assert(rgb@.steps =~= thumbnail_model(image_bytes@).steps);
    assert(rgb@ == thumbnail_model(image_bytes@));
    match encode_jpeg(&rgb) {
        Ok(bytes) => Ok(bytes),
        Err(_) => Err(ThumbnailError::Encode),
    }
}

} // verus!
