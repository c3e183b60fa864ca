//! What the requests for images and directory listings ask for.
//!
//! Reading files and decoding images is left to the program around the
//! library. This module reads a request's parameters and decides what is
//! to be read, in which form it is to be sent, and whether the path may be
//! listed at all.

use vstd::prelude::*;

use crate::query::{find_first, find_last, first_value, form_pairs, last_value, parse_form};
use crate::text::{
    contains_text, same_text, second_piece, text_contains, text_second_piece, to_unicode_lower,
    unicode_lower,
};

verus! {

/// The image format in which a texture is sent when the request names
/// none.
pub const DEFAULT_IMAGE_FORMAT: &'static str = "jpg";

/// The quality with which JPEG images are encoded.
pub const JPEG_QUALITY: u8 = 80;

/// What the lower-case form of a path must hold for the path to be
/// listed.
pub const LISTABLE_PATH_PART: &'static str = "darktide";

/// The content type that `mime_guess::from_ext` of the `mime_guess`
/// crate finds first for a file extension, and
/// `application/octet-stream` where it finds none.
pub uninterp spec fn extension_content_type(extension: Seq<char>) -> Seq<char>;

/// Calls `mime_guess::from_ext` of the `mime_guess` crate and then
/// `first_or_octet_stream` on its guess, and renders the media type as
/// text. The contract gives the result its name,
/// [`extension_content_type`], and claims nothing else of it.
#[verifier::external_body]
pub(crate) fn content_type_of_extension(extension: &str) -> (content_type: String)
    ensures
        content_type@ == extension_content_type(extension@),
{
    mime_guess::from_ext(extension).first_or_octet_stream().to_string()
}

/// What the name of a file suggests of its content.
pub struct ContentGuess {
    /// The content type, such as `image/png`.
    pub content_type: String,
    /// The part of the content type before the slash, such as `image`.
    pub top_level: String,
}

/// Calls `mime_guess::from_path` of the `mime_guess` crate and then
/// `first_or_octet_stream` on its guess, and hands out the media type as
/// text and its top-level type (`Mime::type_`). The guess goes by the
/// extension of the path, which is found by the path rules of the system
/// that the helper runs on: the contract claims nothing of the result.
#[verifier::external_body]
pub(crate) fn guess_content_of_path(path: &str) -> (guess: ContentGuess) {
    let mime = mime_guess::from_path(path).first_or_octet_stream();
    ContentGuess { content_type: mime.to_string(), top_level: mime.type_().as_str().to_owned() }
}

/// Whether a top-level type is that of images.
pub fn is_image_type(top_level: &str) -> (image: bool)
    ensures
        image == (top_level@ == "image"@),
{
    same_text(top_level, "image")
}

/// Whether the name of the file at `path` suggests an image. The guess is
/// made by the path rules of the system; [`is_image_type`] says how it is
/// read.
pub fn has_image_name(path: &str) -> bool {
    let guess = guess_content_of_path(path);
    is_image_type(guess.top_level.as_str())
}

/// The decoded parameters of a request: those in the second of the pieces
/// into which the question marks cut its URL. Nothing if the URL holds no
/// question mark.
pub open spec fn parameters_of(url: Seq<char>) -> Option<Seq<(Seq<char>, Seq<char>)>> {
    match second_piece(url, '?') {
        Some(query) => Some(form_pairs(query)),
        None => None,
    }
}

/// Decodes the parameters of a request, as `parameters_of` says.
pub fn request_parameters(url: &str) -> (pairs: Option<Vec<(String, String)>>)
    ensures
        pairs.deep_view() == parameters_of(url@),
{
    match text_second_piece(url, '?') {
        Some(query) => Some(parse_form(query.as_str())),
        None => None,
    }
}

/// Reads off decoded parameters which image file they ask for: the value
/// of the first `path`.
pub fn image_path_from_pairs(pairs: &Vec<(String, String)>) -> (path: Option<String>)
    ensures
        path.deep_view() == first_value(pairs.deep_view(), "path"@),
{
    match find_first(pairs, "path") {
        Some(path) => Some(path.clone()),
        None => None,
    }
}

/// The image file that a request asks for, if it names one.
pub fn image_request_path(url: &str) -> (path: Option<String>)
    ensures
        path.deep_view() == match parameters_of(url@) {
            Some(pairs) => first_value(pairs, "path"@),
            None => None,
        },
{
    match request_parameters(url) {
        Some(pairs) => image_path_from_pairs(&pairs),
        None => None,
    }
}

/// A request for an image file.
pub struct ImageRequest {
    /// The image file.
    pub path: String,
    /// The content type under which to send it, as the name of the file
    /// suggests it.
    pub content_type: String,
}

/// The image file that a request asks for, and the content type under
/// which it is to be sent. The file is the one that
/// [`image_request_path`] names; the content type is guessed from its
/// name by the path rules of the system.
pub fn image_request(url: &str) -> (request: Option<ImageRequest>)
    ensures
        match parameters_of(url@) {
            Some(pairs) => match first_value(pairs, "path"@) {
                Some(path) => request matches Some(asked) && asked.path@ == path,
                None => request is None,
            },
            None => request is None,
        },
{
    match image_request_path(url) {
        Some(path) => {
            let guess = guess_content_of_path(path.as_str());
            Some(ImageRequest { path, content_type: guess.content_type })
        },
        None => None,
    }
}

/// How an image is encoded for sending.
#[derive(Clone, Copy, Debug, PartialEq, Eq)]
pub enum ImageEncoding {
    /// As PNG.
    Png,
    /// As JPEG of the given quality.
    Jpeg { quality: u8 },
}

/// A request for a DDS texture as an image.
#[derive(Clone, Debug, PartialEq, Eq)]
pub struct DdsRequest {
    /// The texture file.
    pub path: String,
    /// The format that the request names, or [`DEFAULT_IMAGE_FORMAT`].
    pub format: String,
    /// How to encode the image.
    pub encoding: ImageEncoding,
    /// The content type under which to send it.
    pub content_type: String,
}

/// The encoding for a format whose lower-case form is `lowered_format`:
/// PNG for `png`, JPEG for everything else.
pub open spec fn encoding_of(lowered_format: Seq<char>) -> ImageEncoding {
    if lowered_format == "png"@ {
        ImageEncoding::Png
    } else {
        ImageEncoding::Jpeg { quality: JPEG_QUALITY }
    }
}

/// Chooses the encoding for a format, given the format's lower-case form.
pub fn encoding_for(lowered_format: &str) -> (encoding: ImageEncoding)
    ensures
        encoding == encoding_of(lowered_format@),
{
    if same_text(lowered_format, "png") {
        ImageEncoding::Png
    } else {
        ImageEncoding::Jpeg { quality: JPEG_QUALITY }
    }
}

/// The format that decoded parameters name: the value of the first
/// `format`, or [`DEFAULT_IMAGE_FORMAT`].
pub open spec fn format_in(pairs: Seq<(Seq<char>, Seq<char>)>) -> Seq<char> {
    match first_value(pairs, "format"@) {
        Some(format) => format,
        None => DEFAULT_IMAGE_FORMAT@,
    }
}

/// Whether `request` is what `pairs` ask for: the first `path`, the
/// format of `format_in`, the encoding that goes with the lower-case form
/// of that format, and the content type of the format taken as a file
/// extension. Without a `path` there is no request.
pub open spec fn is_dds_request_of(
    request: Option<DdsRequest>,
    pairs: Seq<(Seq<char>, Seq<char>)>,
) -> bool {
    match first_value(pairs, "path"@) {
        Some(path) => {
            &&& request matches Some(asked)
            &&& asked.path@ == path
            &&& asked.format@ == format_in(pairs)
            &&& asked.encoding == encoding_of(unicode_lower(format_in(pairs)))
            &&& asked.content_type@ == extension_content_type(format_in(pairs))
        },
        None => request is None,
    }
}

/// Reads off decoded parameters which texture they ask for, and how it
/// is to be sent.
pub fn dds_request_from_pairs(pairs: &Vec<(String, String)>) -> (request: Option<DdsRequest>)
    ensures
        is_dds_request_of(request, pairs.deep_view()),
{
    match find_first(pairs, "path") {
        Some(path) => {
            let format = match find_first(pairs, "format") {
                Some(format) => format.clone(),
                None => DEFAULT_IMAGE_FORMAT.to_owned(),
            };
            let lowered = to_unicode_lower(format.as_str());
            let encoding = encoding_for(lowered.as_str());
            let content_type = content_type_of_extension(format.as_str());
            Some(DdsRequest { path: path.clone(), format, encoding, content_type })
        },
        None => None,
    }
}

/// The texture that a request asks for, and how it is to be sent.
pub fn dds_request(url: &str) -> (request: Option<DdsRequest>)
    ensures
        match parameters_of(url@) {
            Some(pairs) => is_dds_request_of(request, pairs),
            None => request is None,
        },
{
    match request_parameters(url) {
        Some(pairs) => dds_request_from_pairs(&pairs),
        None => None,
    }
}

/// A request for the contents of a directory.
#[derive(Clone, Debug, PartialEq, Eq)]
pub struct DirectoryRequest {
    /// The directory.
    pub path: String,
    /// Whether to report times, size, type and content type of each entry.
    pub general_info: bool,
    /// Whether to report the tags and properties of audio files.
    pub audio_info: bool,
    /// Whether to report the dimensions of image files.
    pub image_info: bool,
    /// Whether to descend into directories.
    pub sub_directories: bool,
}

/// How a request for the contents of a directory is served.
#[derive(Clone, Copy, Debug, PartialEq, Eq)]
pub enum ListingMode {
    /// Not at all: answer with an empty 403.
    Forbidden,
    /// With what is known of each entry.
    Details,
    /// With the names of the entries only.
    Names,
}

/// Whether the switch `name` is on: whether the last parameter of that
/// name is `true`.
pub open spec fn flag_in(pairs: Seq<(Seq<char>, Seq<char>)>, name: Seq<char>) -> bool {
    last_value(pairs, name) == Some("true"@)
}

/// Reads the switch `name` off decoded parameters.
pub fn read_flag(pairs: &Vec<(String, String)>, name: &str) -> (on: bool)
    ensures
        on == flag_in(pairs.deep_view(), name@),
{
    match find_last(pairs, name) {
        Some(value) => same_text(value.as_str(), "true"),
        None => false,
    }
}

/// Whether `request` is what `pairs` ask for: the last `path` and the
/// four switches. Without a `path` there is no request.
pub open spec fn is_directory_request_of(
    request: Option<DirectoryRequest>,
    pairs: Seq<(Seq<char>, Seq<char>)>,
) -> bool {
    match last_value(pairs, "path"@) {
        Some(path) => {
            &&& request matches Some(asked)
            &&& asked.path@ == path
            &&& asked.general_info == flag_in(pairs, "general_info"@)
            &&& asked.audio_info == flag_in(pairs, "audio_info"@)
            &&& asked.image_info == flag_in(pairs, "image_info"@)
            &&& asked.sub_directories == flag_in(pairs, "sub_directories"@)
        },
        None => request is None,
    }
}

/// Reads off decoded parameters which directory they ask for, and what
/// of it.
pub fn directory_request_from_pairs(pairs: &Vec<(String, String)>) -> (request: Option<
    DirectoryRequest,
>)
    ensures
        is_directory_request_of(request, pairs.deep_view()),
{
    match find_last(pairs, "path") {
        Some(path) => Some(
            DirectoryRequest {
                path: path.clone(),
                general_info: read_flag(pairs, "general_info"),
                audio_info: read_flag(pairs, "audio_info"),
                image_info: read_flag(pairs, "image_info"),
                sub_directories: read_flag(pairs, "sub_directories"),
            },
        ),
        None => None,
    }
}

/// The directory that a request asks for, and what of it.
pub fn directory_request(url: &str) -> (request: Option<DirectoryRequest>)
    ensures
        match parameters_of(url@) {
            Some(pairs) => is_directory_request_of(request, pairs),
            None => request is None,
        },
{
    match request_parameters(url) {
        Some(pairs) => directory_request_from_pairs(&pairs),
        None => None,
    }
}

/// How a request is served whose path has the lower-case form
/// `lowered_path`: not at all unless that form holds
/// [`LISTABLE_PATH_PART`]; else with details if one of the three kinds is
/// asked for, and with names only if none is.
pub open spec fn mode_of(lowered_path: Seq<char>, request: DirectoryRequest) -> ListingMode {
    if !contains_text(lowered_path, LISTABLE_PATH_PART@) {
        ListingMode::Forbidden
    } else if request.general_info || request.audio_info || request.image_info {
        ListingMode::Details
    } else {
        ListingMode::Names
    }
}

/// Decides how a request is served, given the lower-case form of its
/// path.
pub fn listing_mode_for(lowered_path: &str, request: &DirectoryRequest) -> (mode: ListingMode)
    ensures
        mode == mode_of(lowered_path@, *request),
{
    if !text_contains(lowered_path, LISTABLE_PATH_PART) {
        ListingMode::Forbidden
    } else if request.general_info || request.audio_info || request.image_info {
        ListingMode::Details
    } else {
        ListingMode::Names
    }
}

/// Decides how a request for the contents of a directory is served.
pub fn listing_mode(request: &DirectoryRequest) -> (mode: ListingMode)
    ensures
        mode == mode_of(unicode_lower(request.path@), *request),
{
    let lowered = to_unicode_lower(request.path.as_str());
    listing_mode_for(lowered.as_str(), request)
}

} // verus!
