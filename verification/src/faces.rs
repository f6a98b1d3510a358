//! The custom health-icon faces: decoding the chosen image, its frames, and
//! the PNG files the game loads.
//!
//! An image is described by plain values: width, height, pixel layout and the
//! raw sample bytes, row by row (samples wider than a byte in native order).
use vstd::prelude::*;
use vstd::string::StringSliceAdditionalSpecFns;
use crate::decimal::{decimal, push_decimal};
use crate::byteseq::push_all;

verus! {

/// A decoded image of the `image` crate.
#[verifier::external_type_specification]
#[verifier::external_body]
pub struct ExDynamicImage(image::DynamicImage);

/// An error of the `image` crate.
#[verifier::external_type_specification]
#[verifier::external_body]
pub struct ExImageError(image::ImageError);

/// An image file format of the `image` crate.
#[verifier::external_type_specification]
#[verifier::external_body]
pub struct ExImageFormat(image::ImageFormat);

/// Side length, in pixels, of each face frame.
pub const FACE_SIZE: u32 = 196;

/// Start of a face frame's file name.
pub const FACE_FILE_PREFIX: &'static str = "custom_face_";

/// End of a face frame's file name.
pub const FACE_FILE_SUFFIX: &'static str = ".png";

/// Ending (after lowercasing) of the paths that are read as animations.
pub const GIF_SUFFIX: &'static str = ".gif";

/// How the samples of a pixel are laid out (the variants of `image::DynamicImage`).
#[derive(Clone, Copy, Debug, PartialEq, Eq, Structural)]
pub enum PixelLayout {
    L8,
    La8,
    Rgb8,
    Rgba8,
    L16,
    La16,
    Rgb16,
    Rgba16,
    Rgb32F,
    Rgba32F,
}

/// Bytes per pixel of a layout.
pub open spec fn bytes_per_pixel(l: PixelLayout) -> nat {
    match l {
        PixelLayout::L8 => 1,
        PixelLayout::La8 => 2,
        PixelLayout::Rgb8 => 3,
        PixelLayout::Rgba8 => 4,
        PixelLayout::L16 => 2,
        PixelLayout::La16 => 4,
        PixelLayout::Rgb16 => 6,
        PixelLayout::Rgba16 => 8,
        PixelLayout::Rgb32F => 12,
        PixelLayout::Rgba32F => 16,
    }
}

/// A layout with floating-point samples, which PNG cannot hold.
pub open spec fn is_float_layout(l: PixelLayout) -> bool {
    l == PixelLayout::Rgb32F || l == PixelLayout::Rgba32F
}

/// An image as plain values.
pub struct ImageView {
    pub width: u32,
    pub height: u32,
    pub layout: PixelLayout,
    pub samples: Seq<u8>,
}

/// An image format that a file extension names (the variants of `image::ImageFormat`).
#[derive(Clone, Copy, Debug, PartialEq, Eq, Structural)]
pub enum ImageKind {
    Png,
    Jpeg,
    Gif,
    WebP,
    Pnm,
    Tiff,
    Tga,
    Dds,
    Bmp,
    Ico,
    Hdr,
    OpenExr,
    Farbfeld,
    Avif,
    Qoi,
}

/// A decoded image with its plain description.
pub struct FaceImage {
    image: image::DynamicImage,
    view: Ghost<ImageView>,
}

impl View for FaceImage {
    type V = ImageView;

    closed spec fn view(&self) -> ImageView {
        self.view@
    }
}

/// An image format of the `image` crate with the kind it is.
pub struct ImageFormatChoice {
    format: image::ImageFormat,
    kind: Ghost<ImageKind>,
}

impl View for ImageFormatChoice {
    type V = ImageKind;

    closed spec fn view(&self) -> ImageKind {
        self.kind@
    }
}

/// The lowercase form of `s` (Unicode lowercasing).
pub uninterp spec fn lowercase_text(s: Seq<char>) -> Seq<char>;

/// The extension of the path `path` as `std::path::Path::extension` finds it.
pub uninterp spec fn path_extension(path: Seq<char>) -> Option<Seq<char>>;

/// The frames of the GIF animation in `bytes`, or `None` when it cannot be decoded.
pub uninterp spec fn gif_frames(bytes: Seq<u8>) -> Option<Seq<ImageView>>;

/// The image in `bytes` decoded as format `kind`, or `None` when it cannot be.
pub uninterp spec fn decoded_image(bytes: Seq<u8>, kind: ImageKind) -> Option<ImageView>;

/// `img` scaled to `width` × `height` with nearest-neighbour sampling.
pub uninterp spec fn resized_nearest(img: ImageView, width: u32, height: u32) -> ImageView;

/// The PNG file that the `image` crate writes for `img`.
pub uninterp spec fn png_file(img: ImageView) -> Seq<u8>;

/// `s` with ASCII capital letters made small.
pub open spec fn ascii_lowercase(s: Seq<char>) -> Seq<char> {
    s.map_values(|c: char| if 'A' <= c <= 'Z' { ((c as u32) + 32) as char } else { c })
}

/// The image format that a file extension names (`image::ImageFormat::from_extension`).
pub open spec fn format_for_extension(ext: Seq<char>) -> Option<ImageKind> {
    let e = ascii_lowercase(ext);
    if e == "avif"@ {
        Some(ImageKind::Avif)
    } else if e == "jpg"@ || e == "jpeg"@ {
        Some(ImageKind::Jpeg)
    } else if e == "png"@ {
        Some(ImageKind::Png)
    } else if e == "gif"@ {
        Some(ImageKind::Gif)
    } else if e == "webp"@ {
        Some(ImageKind::WebP)
    } else if e == "tif"@ || e == "tiff"@ {
        Some(ImageKind::Tiff)
    } else if e == "tga"@ {
        Some(ImageKind::Tga)
    } else if e == "dds"@ {
        Some(ImageKind::Dds)
    } else if e == "bmp"@ {
        Some(ImageKind::Bmp)
    } else if e == "ico"@ {
        Some(ImageKind::Ico)
    } else if e == "hdr"@ {
        Some(ImageKind::Hdr)
    } else if e == "exr"@ {
        Some(ImageKind::OpenExr)
    } else if e == "pbm"@ || e == "pam"@ || e == "ppm"@ || e == "pgm"@ {
        Some(ImageKind::Pnm)
    } else if e == "ff"@ || e == "farbfeld"@ {
        Some(ImageKind::Farbfeld)
    } else if e == "qoi"@ {
        Some(ImageKind::Qoi)
    } else {
        None
    }
}

/// `str::to_lowercase`. Trusted: the result is the lowercase form of `s`,
/// which is named, not described.
#[verifier::external_body]
fn to_lowercase(s: &str) -> (r: String)
    ensures
        r@ == lowercase_text(s@),
{
    s.to_lowercase()
}

/// `std::path::Path::extension` of `path`. Trusted: the result is the named extension.
#[verifier::external_body]
fn extension_of(path: &str) -> (r: Option<String>)
    ensures
        r is Some <==> path_extension(path@) is Some,
        r matches Some(e) ==> e@ == path_extension(path@)->Some_0,
{
    std::path::Path::new(path).extension().and_then(|e| e.to_str()).map(|e| e.to_string())
}

/// `image::ImageFormat::from_extension`. Trusted: it follows the extension table
/// of `format_for_extension`.
#[verifier::external_body]
fn format_from_extension(ext: &str) -> (r: Option<ImageFormatChoice>)
    ensures
        r is Some <==> format_for_extension(ext@) is Some,
        r matches Some(f) ==> f@ == format_for_extension(ext@)->Some_0,
{
    image::ImageFormat::from_extension(ext).map(|format| ImageFormatChoice { format, kind: Ghost(arbitrary()) })
}

/// `GifDecoder::new`, `into_frames`, `collect_frames` and `Frame::into_buffer`
/// of the `image` crate. Trusted: it fails exactly when the animation in
/// `bytes` cannot be decoded, and gives its frames in order, each as 8-bit RGBA.
#[verifier::external_body]
fn decode_gif(bytes: &[u8]) -> (r: Result<Vec<FaceImage>, image::ImageError>)
    ensures
        r is Ok <==> gif_frames(bytes@) is Some,
        r matches Ok(frames) ==> frames@.map_values(|f: FaceImage| f@) == gif_frames(bytes@)->Some_0,
        r matches Ok(frames) ==> forall|i: int| 0 <= i < frames@.len() ==> (#[trigger] frames@[i])@.layout == PixelLayout::Rgba8,
{
    let decoder = image::codecs::gif::GifDecoder::new(std::io::Cursor::new(bytes))?;
    let frames = image::AnimationDecoder::into_frames(decoder).collect_frames()?;
    Ok(frames.into_iter().map(|f| FaceImage { image: image::DynamicImage::ImageRgba8(f.into_buffer()), view: Ghost(arbitrary()) }).collect())
}

/// `image::load_from_memory_with_format`. Trusted: it fails exactly when `bytes`
/// cannot be decoded as `format`, and gives the decoded image.
#[verifier::external_body]
fn decode_with_format(bytes: &[u8], format: &ImageFormatChoice) -> (r: Result<FaceImage, image::ImageError>)
    ensures
        r is Ok <==> decoded_image(bytes@, format@) is Some,
        r matches Ok(img) ==> img@ == decoded_image(bytes@, format@)->Some_0,
{
    let image = image::load_from_memory_with_format(bytes, format.format)?;
    Ok(FaceImage { image, view: Ghost(arbitrary()) })
}

/// `DynamicImage::resize_exact` with nearest-neighbour sampling. Trusted: the
/// result is the named scaling, `width` × `height`, in the same layout, with
/// one full pixel of samples for each.
#[verifier::external_body]
fn resize_nearest(img: &FaceImage, width: u32, height: u32) -> (r: FaceImage)
    ensures
        r@ == resized_nearest(img@, width, height),
        r@.width == width,
        r@.height == height,
        r@.layout == img@.layout,
        r@.samples.len() == width * height * bytes_per_pixel(img@.layout),
{
    let image = img.image.resize_exact(width, height, image::imageops::FilterType::Nearest);
    FaceImage { image, view: Ghost(arbitrary()) }
}

/// `DynamicImage::write_to` in PNG format. Trusted: it fails for an empty image
/// and for floating-point samples, succeeds for any other image of at most 2^30
/// sample bytes, and gives the PNG file of `img`.
#[verifier::external_body]
fn encode_png(img: &FaceImage) -> (r: Result<Vec<u8>, image::ImageError>)
    ensures
        r is Ok ==> img@.width > 0 && img@.height > 0 && !is_float_layout(img@.layout),
        (img@.width > 0 && img@.height > 0 && !is_float_layout(img@.layout)
            && img@.samples.len() <= 0x4000_0000) ==> r is Ok,
        r matches Ok(png) ==> png@ == png_file(img@),
{
    let mut out: Vec<u8> = Vec::new();
    img.image.write_to(&mut std::io::Cursor::new(&mut out), image::ImageOutputFormat::Png)?;
    Ok(out)
}

/// `s` ends with `suffix`.
pub open spec fn has_suffix(s: Seq<u8>, suffix: Seq<u8>) -> bool {
    suffix.len() <= s.len() && s.subrange(s.len() - suffix.len(), s.len() as int) == suffix
}

/// Whether the image at `path` (its text) is read as an animation: its
/// lowercase form ends with `.gif`.
pub fn is_gif_path(path: &str) -> (r: bool)
    ensures
        r == has_suffix(vstd::utf8::encode_utf8(lowercase_text(path@)), GIF_SUFFIX.spec_bytes()),
{
    let lower = to_lowercase(path);
    let s = lower.as_str().as_bytes();
    let suffix = GIF_SUFFIX.as_bytes();
    if suffix.len() > s.len() {
        return false;
    }
    let start = s.len() - suffix.len();
    let mut i: usize = 0;
    while i < suffix.len()
        invariant
            s@ == vstd::utf8::encode_utf8(lowercase_text(path@)),
            suffix@ == GIF_SUFFIX.spec_bytes(),
            s@.len() == s.len(),
            start + suffix@.len() == s@.len(),
            i <= suffix@.len(),
            forall|j: int| 0 <= j < i ==> s@[start + j] == suffix@[j],
        decreases suffix@.len() - i,
    {
        if s[start + i] != suffix[i] {
            assert(s@.subrange(start as int, s@.len() as int)[i as int] != suffix@[i as int]);
            return false;
        }
        i = i + 1;
    }
    assert(s@.subrange(start as int, s@.len() as int) =~= suffix@);
    true
}

/// File name of face frame `i`.
pub open spec fn face_file_name_text(i: nat) -> Seq<u8> {
    FACE_FILE_PREFIX.spec_bytes() + decimal(i) + FACE_FILE_SUFFIX.spec_bytes()
}

/// File name (ASCII bytes) of face frame `i`.
pub fn face_file_name(i: usize) -> (r: Vec<u8>)
    ensures
        r@ == face_file_name_text(i as nat),
{
    let mut out: Vec<u8> = Vec::new();
    push_all(&mut out, FACE_FILE_PREFIX.as_bytes());
    push_decimal(&mut out, i);
    push_all(&mut out, FACE_FILE_SUFFIX.as_bytes());
    out
}

/// The image format that the extension of `path` names.
pub open spec fn format_of_path(path: Seq<char>) -> Option<ImageKind> {
    match path_extension(path) {
        Some(ext) => format_for_extension(ext),
        None => None,
    }
}

/// The path text `path` is read as an animation: lowercased, it ends with `.gif`.
pub open spec fn gif_named(path: Seq<char>) -> bool {
    has_suffix(vstd::utf8::encode_utf8(lowercase_text(path)), GIF_SUFFIX.spec_bytes())
}

/// The frames of the face image with bytes `bytes` at path `path`: every frame
/// of the animation when the path is GIF-named, else the one image decoded in
/// the format that its extension names.
pub open spec fn face_frames(bytes: Seq<u8>, path: Seq<char>) -> Option<Seq<ImageView>> {
    if gif_named(path) {
        gif_frames(bytes)
    } else {
        match format_of_path(path) {
            Some(kind) => match decoded_image(bytes, kind) {
                Some(img) => Some(seq![img]),
                None => None,
            },
            None => None,
        }
    }
}

/// The image format that the extension of `path` names.
fn format_from_path(path: &str) -> (r: Option<ImageFormatChoice>)
    ensures
        r is Some <==> format_of_path(path@) is Some,
        r matches Some(f) ==> f@ == format_of_path(path@)->Some_0,
{
    match extension_of(path) {
        Some(ext) => format_from_extension(ext.as_str()),
        None => None,
    }
}

/// The frames of the chosen face image, whose bytes are `bytes` and whose path
/// text is `path` (see `face_frames`).
pub fn decode_face_frames(bytes: &[u8], path: &str) -> (r: Option<Vec<FaceImage>>)
    ensures
        r is Some <==> face_frames(bytes@, path@) is Some,
        r matches Some(frames) ==> frames@.map_values(|f: FaceImage| f@) == face_frames(bytes@, path@)->Some_0,
        gif_named(path@) ==> (r matches Some(frames) ==> forall|i: int|
            0 <= i < frames@.len() ==> (#[trigger] frames@[i])@.layout == PixelLayout::Rgba8),
{
    if is_gif_path(path) {
        match decode_gif(bytes) {
            Ok(frames) => Some(frames),
            Err(_) => None,
        }
    } else {
        let format = match format_from_path(path) {
            Some(f) => f,
            None => {
                return None;
            },
        };
        match decode_with_format(bytes, &format) {
            Ok(img) => {
                let mut frames: Vec<FaceImage> = Vec::new();
                frames.push(img);
                assert(frames@.map_values(|f: FaceImage| f@) =~= seq![img@]);
                Some(frames)
            },
            Err(_) => None,
        }
    }
}

/// A face frame: `img` scaled to `FACE_SIZE` square with nearest-neighbour sampling.
pub open spec fn face_image(img: ImageView) -> ImageView {
    resized_nearest(img, FACE_SIZE, FACE_SIZE)
}

/// The PNG file of one face frame: the PNG of the frame scaled to `FACE_SIZE`
/// square with nearest-neighbour sampling, which is `FACE_SIZE` × `FACE_SIZE`.
/// It fails exactly for floating-point samples.
pub fn face_frame_png(frame: &FaceImage) -> (r: Option<Vec<u8>>)
    ensures
        face_image(frame@).width == FACE_SIZE,
        face_image(frame@).height == FACE_SIZE,
        face_image(frame@).layout == frame@.layout,
        r is Some <==> !is_float_layout(frame@.layout),
        r matches Some(png) ==> png@ == png_file(face_image(frame@)),
{
    let scaled = resize_nearest(frame, FACE_SIZE, FACE_SIZE);
    assert(scaled@.samples.len() <= 0x4000_0000) by (nonlinear_arith)
        requires
            scaled@.samples.len() == 196 * 196 * bytes_per_pixel(frame@.layout),
            bytes_per_pixel(frame@.layout) <= 16,
    ;
    match encode_png(&scaled) {
        Ok(png) => Some(png),
        Err(_) => None,
    }
}

/// A GIF-named path is read the same whatever the case of its name: two such
/// paths give the same frames for the same bytes.
pub proof fn lemma_gif_paths_agree(bytes: Seq<u8>, p1: Seq<char>, p2: Seq<char>)
    requires
        gif_named(p1),
        gif_named(p2),
    ensures
        face_frames(bytes, p1) == face_frames(bytes, p2),
{
}

/// A face image whose path is GIF-named gives the frames of the animation in
/// its bytes, in order.
pub proof fn lemma_animated_face(bytes: Seq<u8>, path: Seq<char>)
    requires
        gif_named(path),
    ensures
        face_frames(bytes, path) == gif_frames(bytes),
{
}

/// A face image whose path is not GIF-named is one still image, decoded in the
/// format that its extension names with ASCII case ignored (JPEG for `jpg` and
/// `jpeg`, PNG for `png`, and so on), or nothing when it does not decode in it;
/// a path without an extension, or with one that names no format, gives nothing.
pub proof fn lemma_still_face(bytes: Seq<u8>, path: Seq<char>)
    requires
        !gif_named(path),
    ensures
        (path_extension(path) matches Some(e) && (ascii_lowercase(e) == "avif"@)) ==> face_frames(bytes, path)
            == (match decoded_image(bytes, ImageKind::Avif) {
                Some(img) => Some(seq![img]),
                None => None,
            }),
        (path_extension(path) matches Some(e) && (ascii_lowercase(e) == "jpg"@ || ascii_lowercase(e) == "jpeg"@)) ==> face_frames(bytes, path)
            == (match decoded_image(bytes, ImageKind::Jpeg) {
                Some(img) => Some(seq![img]),
                None => None,
            }),
        (path_extension(path) matches Some(e) && (ascii_lowercase(e) == "png"@)) ==> face_frames(bytes, path)
            == (match decoded_image(bytes, ImageKind::Png) {
                Some(img) => Some(seq![img]),
                None => None,
            }),
        (path_extension(path) matches Some(e) && (ascii_lowercase(e) == "gif"@)) ==> face_frames(bytes, path)
            == (match decoded_image(bytes, ImageKind::Gif) {
                Some(img) => Some(seq![img]),
                None => None,
            }),
        (path_extension(path) matches Some(e) && (ascii_lowercase(e) == "webp"@)) ==> face_frames(bytes, path)
            == (match decoded_image(bytes, ImageKind::WebP) {
                Some(img) => Some(seq![img]),
                None => None,
            }),
        (path_extension(path) matches Some(e) && (ascii_lowercase(e) == "tif"@ || ascii_lowercase(e) == "tiff"@)) ==> face_frames(bytes, path)
            == (match decoded_image(bytes, ImageKind::Tiff) {
                Some(img) => Some(seq![img]),
                None => None,
            }),
        (path_extension(path) matches Some(e) && (ascii_lowercase(e) == "tga"@)) ==> face_frames(bytes, path)
            == (match decoded_image(bytes, ImageKind::Tga) {
                Some(img) => Some(seq![img]),
                None => None,
            }),
        (path_extension(path) matches Some(e) && (ascii_lowercase(e) == "dds"@)) ==> face_frames(bytes, path)
            == (match decoded_image(bytes, ImageKind::Dds) {
                Some(img) => Some(seq![img]),
                None => None,
            }),
        (path_extension(path) matches Some(e) && (ascii_lowercase(e) == "bmp"@)) ==> face_frames(bytes, path)
            == (match decoded_image(bytes, ImageKind::Bmp) {
                Some(img) => Some(seq![img]),
                None => None,
            }),
        (path_extension(path) matches Some(e) && (ascii_lowercase(e) == "ico"@)) ==> face_frames(bytes, path)
            == (match decoded_image(bytes, ImageKind::Ico) {
                Some(img) => Some(seq![img]),
                None => None,
            }),
        (path_extension(path) matches Some(e) && (ascii_lowercase(e) == "hdr"@)) ==> face_frames(bytes, path)
            == (match decoded_image(bytes, ImageKind::Hdr) {
                Some(img) => Some(seq![img]),
                None => None,
            }),
        (path_extension(path) matches Some(e) && (ascii_lowercase(e) == "exr"@)) ==> face_frames(bytes, path)
            == (match decoded_image(bytes, ImageKind::OpenExr) {
                Some(img) => Some(seq![img]),
                None => None,
            }),
        (path_extension(path) matches Some(e) && (ascii_lowercase(e) == "pbm"@ || ascii_lowercase(e) == "pam"@ || ascii_lowercase(e) == "ppm"@ || ascii_lowercase(e) == "pgm"@)) ==> face_frames(bytes, path)
            == (match decoded_image(bytes, ImageKind::Pnm) {
                Some(img) => Some(seq![img]),
                None => None,
            }),
        (path_extension(path) matches Some(e) && (ascii_lowercase(e) == "ff"@ || ascii_lowercase(e) == "farbfeld"@)) ==> face_frames(bytes, path)
            == (match decoded_image(bytes, ImageKind::Farbfeld) {
                Some(img) => Some(seq![img]),
                None => None,
            }),
        (path_extension(path) matches Some(e) && (ascii_lowercase(e) == "qoi"@)) ==> face_frames(bytes, path)
            == (match decoded_image(bytes, ImageKind::Qoi) {
                Some(img) => Some(seq![img]),
                None => None,
            }),
        path_extension(path) is None ==> face_frames(bytes, path) is None,
        (path_extension(path) matches Some(e) && ascii_lowercase(e) != "avif"@ && ascii_lowercase(e) != "jpg"@ && ascii_lowercase(e) != "jpeg"@ && ascii_lowercase(e) != "png"@ && ascii_lowercase(e) != "gif"@ && ascii_lowercase(e) != "webp"@ && ascii_lowercase(e) != "tif"@ && ascii_lowercase(e) != "tiff"@ && ascii_lowercase(e) != "tga"@ && ascii_lowercase(e) != "dds"@ && ascii_lowercase(e) != "bmp"@ && ascii_lowercase(e) != "ico"@ && ascii_lowercase(e) != "hdr"@ && ascii_lowercase(e) != "exr"@ && ascii_lowercase(e) != "pbm"@ && ascii_lowercase(e) != "pam"@ && ascii_lowercase(e) != "ppm"@ && ascii_lowercase(e) != "pgm"@ && ascii_lowercase(e) != "ff"@ && ascii_lowercase(e) != "farbfeld"@ && ascii_lowercase(e) != "qoi"@) ==> face_frames(bytes, path) is None,
{
    reveal_strlit("avif");
    reveal_strlit("jpg");
    reveal_strlit("jpeg");
    reveal_strlit("png");
    reveal_strlit("gif");
    reveal_strlit("webp");
    reveal_strlit("tif");
    reveal_strlit("tiff");
    reveal_strlit("tga");
    reveal_strlit("dds");
    reveal_strlit("bmp");
    reveal_strlit("ico");
    reveal_strlit("hdr");
    reveal_strlit("exr");
    reveal_strlit("pbm");
    reveal_strlit("pam");
    reveal_strlit("ppm");
    reveal_strlit("pgm");
    reveal_strlit("ff");
    reveal_strlit("farbfeld");
    reveal_strlit("qoi");
    assert("avif"@.len() == 4 && "avif"@[0] == 'a' && "avif"@[1] == 'v' && "avif"@[2] == 'i');
    assert("jpg"@.len() == 3 && "jpg"@[0] == 'j' && "jpg"@[1] == 'p' && "jpg"@[2] == 'g');
    assert("jpeg"@.len() == 4 && "jpeg"@[0] == 'j' && "jpeg"@[1] == 'p' && "jpeg"@[2] == 'e');
    assert("png"@.len() == 3 && "png"@[0] == 'p' && "png"@[1] == 'n' && "png"@[2] == 'g');
    assert("gif"@.len() == 3 && "gif"@[0] == 'g' && "gif"@[1] == 'i' && "gif"@[2] == 'f');
    assert("webp"@.len() == 4 && "webp"@[0] == 'w' && "webp"@[1] == 'e' && "webp"@[2] == 'b');
    assert("tif"@.len() == 3 && "tif"@[0] == 't' && "tif"@[1] == 'i' && "tif"@[2] == 'f');
    assert("tiff"@.len() == 4 && "tiff"@[0] == 't' && "tiff"@[1] == 'i' && "tiff"@[2] == 'f');
    assert("tga"@.len() == 3 && "tga"@[0] == 't' && "tga"@[1] == 'g' && "tga"@[2] == 'a');
    assert("dds"@.len() == 3 && "dds"@[0] == 'd' && "dds"@[1] == 'd' && "dds"@[2] == 's');
    assert("bmp"@.len() == 3 && "bmp"@[0] == 'b' && "bmp"@[1] == 'm' && "bmp"@[2] == 'p');
    assert("ico"@.len() == 3 && "ico"@[0] == 'i' && "ico"@[1] == 'c' && "ico"@[2] == 'o');
    assert("hdr"@.len() == 3 && "hdr"@[0] == 'h' && "hdr"@[1] == 'd' && "hdr"@[2] == 'r');
    assert("exr"@.len() == 3 && "exr"@[0] == 'e' && "exr"@[1] == 'x' && "exr"@[2] == 'r');
    assert("pbm"@.len() == 3 && "pbm"@[0] == 'p' && "pbm"@[1] == 'b' && "pbm"@[2] == 'm');
    assert("pam"@.len() == 3 && "pam"@[0] == 'p' && "pam"@[1] == 'a' && "pam"@[2] == 'm');
    assert("ppm"@.len() == 3 && "ppm"@[0] == 'p' && "ppm"@[1] == 'p' && "ppm"@[2] == 'm');
    assert("pgm"@.len() == 3 && "pgm"@[0] == 'p' && "pgm"@[1] == 'g' && "pgm"@[2] == 'm');
    assert("ff"@.len() == 2 && "ff"@[0] == 'f' && "ff"@[1] == 'f');
    assert("farbfeld"@.len() == 8 && "farbfeld"@[0] == 'f' && "farbfeld"@[1] == 'a' && "farbfeld"@[2] == 'r');
    assert("qoi"@.len() == 3 && "qoi"@[0] == 'q' && "qoi"@[1] == 'o' && "qoi"@[2] == 'i');
}

} // verus!
