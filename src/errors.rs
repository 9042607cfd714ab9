//! Classification of failures into the error categories a host sees.
use vstd::prelude::*;
use crate::msf::{MsfIndexError, ParseIntErrorKind};

verus! {

/// The error categories offered to a host: a general image error and three
/// named kinds of intentionally unsupported or incomplete images.
#[derive(Clone, Copy, Debug, PartialEq, Eq, Structural)]
pub enum ErrorCategory {
    /// Any failure to read an image.
    ImageError,
    /// The image holds a hard disc rather than an optical disc.
    HdChdError,
    /// The image describes its tracks only through an outside cue sheet.
    GdiChdError,
    /// The image needs a parent image that was not among the candidates.
    OrphanError,
}

/// A failure as a host sees it: its category and its message.
#[derive(Debug)]
pub struct HostError {
    pub category: ErrorCategory,
    pub message: String,
}

/// A failure to open a compressed disc image. Variants that wrap a failure
/// of a lower layer carry that failure's message.
#[derive(Debug)]
pub enum ChdFailure {
    /// The container could not be parsed.
    ChdError(String),
    /// The underlying storage failed.
    IoError(String),
    /// The embedded track metadata could not be parsed.
    TrackParseError(String),
    /// The hunk size is that of a hard disc image.
    WrongHunkSize,
    /// A sector buffer of the wrong size was handed in.
    WrongBufferSize,
    /// A sector layout that is not supported.
    UnsupportedSectorFormat(String),
    /// A worker decoding hunks in the background went away.
    HunkRecvError,
    /// The metadata describes no track.
    NoTracks,
    /// The chain of parent images is nested too deep.
    RecursionDepthExceeded,
    /// A parent was declared by a container version without parent support.
    UnsupportedChdVersion,
    /// No candidate matches the declared parent.
    ParentNotFound,
}

/// A failure while navigating or reading an open image. Variants that wrap a
/// failure of a lower layer carry that failure's message.
#[derive(Debug)]
pub enum ImageFailure {
    UnsupportedFormat,
    CueError(String),
    ChdError(String),
    MsfIndexError(String),
    IoError(String),
    OutOfRange,
}

/// Whether a failure to open can reach a host; the other two come only from
/// misuse that opening rules out.
pub open spec fn chd_failure_reportable(e: ChdFailure) -> bool {
    !(e is WrongBufferSize) && !(e is HunkRecvError)
}

/// The category of a failure to open an image.
pub open spec fn chd_failure_category(e: ChdFailure) -> ErrorCategory {
    match e {
        ChdFailure::WrongHunkSize => ErrorCategory::HdChdError,
        ChdFailure::NoTracks => ErrorCategory::GdiChdError,
        ChdFailure::ParentNotFound => ErrorCategory::OrphanError,
        _ => ErrorCategory::ImageError,
    }
}

/// The message of a failure to open an image.
pub open spec fn chd_failure_message(e: ChdFailure) -> Seq<char> {
    match e {
        ChdFailure::ChdError(d) => d@,
        ChdFailure::IoError(d) => d@,
        ChdFailure::TrackParseError(d) => d@,
        ChdFailure::WrongHunkSize => "Hard disc chd are not supported"@,
        ChdFailure::UnsupportedSectorFormat(d) => d@,
        ChdFailure::NoTracks => "Gdi chd are not supported"@,
        ChdFailure::RecursionDepthExceeded => "Chd parent recursion depth exceeded"@,
        ChdFailure::UnsupportedChdVersion => "Chd parent is only supported for chd V3, V4 and V5"@,
        ChdFailure::ParentNotFound => "Chd parent was not in the path arguments"@,
        ChdFailure::WrongBufferSize => Seq::empty(),
        ChdFailure::HunkRecvError => Seq::empty(),
    }
}

/// The message of a failure while navigating or reading an image.
pub open spec fn image_failure_message(e: ImageFailure) -> Seq<char> {
    match e {
        ImageFailure::UnsupportedFormat => "Unsupported image format"@,
        ImageFailure::CueError(d) => d@,
        ImageFailure::ChdError(d) => d@,
        ImageFailure::MsfIndexError(d) => d@,
        ImageFailure::IoError(d) => d@,
        ImageFailure::OutOfRange => "Out of Range"@,
    }
}

/// The message of a number that could not be read.
pub open spec fn parse_int_message(k: ParseIntErrorKind) -> Seq<char> {
    match k {
        ParseIntErrorKind::Empty => "cannot parse integer from empty string"@,
        ParseIntErrorKind::InvalidDigit => "invalid digit found in string"@,
        ParseIntErrorKind::PosOverflow => "number too large to fit in target type"@,
    }
}

/// The message of a time code that could not be built.
pub open spec fn msf_error_message(e: MsfIndexError) -> Seq<char> {
    match e {
        MsfIndexError::ParseIntError(k) => parse_int_message(k),
        MsfIndexError::OutOfRangeError => "Out of Range MSF"@,
        MsfIndexError::InvalidMsfError => "Invalid MSF"@,
    }
}

/// Classifies a failure to open an image: a hard disc image, an image with
/// no tracks of its own, and a missing parent each get their own category;
/// everything else is a general image error.
pub fn from_chdlibrary(err: ChdFailure) -> (r: HostError)
    requires
        chd_failure_reportable(err),
    ensures
        r.category == chd_failure_category(err),
        r.message@ == chd_failure_message(err),
{
    match err {
        ChdFailure::ChdError(d) => image_error(d),
        ChdFailure::IoError(d) => image_error(d),
        ChdFailure::TrackParseError(d) => image_error(d),
        ChdFailure::WrongHunkSize => HostError {
            category: ErrorCategory::HdChdError,
            message: "Hard disc chd are not supported".to_owned(),
        },
        ChdFailure::UnsupportedSectorFormat(d) => image_error(d),
        ChdFailure::NoTracks => HostError {
            category: ErrorCategory::GdiChdError,
            message: "Gdi chd are not supported".to_owned(),
        },
        ChdFailure::RecursionDepthExceeded => image_error(
            "Chd parent recursion depth exceeded".to_owned(),
        ),
        ChdFailure::UnsupportedChdVersion => image_error(
            "Chd parent is only supported for chd V3, V4 and V5".to_owned(),
        ),
        ChdFailure::ParentNotFound => HostError {
            category: ErrorCategory::OrphanError,
            message: "Chd parent was not in the path arguments".to_owned(),
        },
        ChdFailure::WrongBufferSize => image_error(String::new()),
        ChdFailure::HunkRecvError => image_error(String::new()),
    }
}

/// Classifies a failure while navigating or reading an image: always a
/// general image error.
pub fn from_imagelibrary(err: ImageFailure) -> (r: HostError)
    ensures
        r.category == ErrorCategory::ImageError,
        r.message@ == image_failure_message(err),
{
    match err {
        ImageFailure::UnsupportedFormat => image_error("Unsupported image format".to_owned()),
        ImageFailure::CueError(d) => image_error(d),
        ImageFailure::ChdError(d) => image_error(d),
        ImageFailure::MsfIndexError(d) => image_error(d),
        ImageFailure::IoError(d) => image_error(d),
        ImageFailure::OutOfRange => image_error("Out of Range".to_owned()),
    }
}

/// Classifies a failure to build a time code: always a general image error.
pub fn from_msflibrary(err: MsfIndexError) -> (r: HostError)
    ensures
        r.category == ErrorCategory::ImageError,
        r.message@ == msf_error_message(err),
{
    match err {
        MsfIndexError::ParseIntError(k) => image_error(parse_int_text(k)),
        MsfIndexError::OutOfRangeError => image_error("Out of Range MSF".to_owned()),
        MsfIndexError::InvalidMsfError => image_error("Invalid MSF".to_owned()),
    }
}

/// The message of a number that could not be read.
fn parse_int_text(k: ParseIntErrorKind) -> (r: String)
    ensures
        r@ == parse_int_message(k),
{
    match k {
        ParseIntErrorKind::Empty => "cannot parse integer from empty string".to_owned(),
        ParseIntErrorKind::InvalidDigit => "invalid digit found in string".to_owned(),
        ParseIntErrorKind::PosOverflow => "number too large to fit in target type".to_owned(),
    }
}

/// A general image error with the given message.
fn image_error(message: String) -> (r: HostError)
    ensures
        r.category == ErrorCategory::ImageError,
        r.message == message,
{
    HostError { category: ErrorCategory::ImageError, message }
}

} // verus!
